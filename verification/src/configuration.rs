//! The pure part of the configuration: the deployment environment, the
//! settings records, and what the database settings compute.

use crate::bindings::{all_ascii, ascii_lower, lowercase, to_lowercase};
use crate::text::{append_decimal, concat2, decimal, same_text};
use vstd::prelude::*;

verus! {

/// The environment the service runs in; it picks the configuration file.
#[derive(Clone, Copy, Debug, PartialEq, Eq, Structural)]
pub enum Environment {
    Local,
    Production,
}

impl Environment {
    /// The name of the environment, which is also its configuration file.
    pub open spec fn name(self) -> Seq<char> {
        match self {
            Environment::Local => "local"@,
            Environment::Production => "production"@,
        }
    }

    pub fn as_str(&self) -> (r: &'static str)
        ensures
            r@ == self.name(),
    {
        match self {
            Environment::Local => "local",
            Environment::Production => "production",
        }
    }
}

/// What `Environment::try_from` gives for a name whose lowercase is
/// `lowered`.
pub open spec fn environment_from_lowered(lowered: Seq<char>) -> Result<Environment, Seq<char>> {
    if lowered == "local"@ {
        Ok(Environment::Local)
    } else if lowered == "production"@ {
        Ok(Environment::Production)
    } else {
        Err(lowered + " is not a valid env var"@)
    }
}

/// What `Environment::try_from` gives for the name `value`.
pub open spec fn environment_outcome(value: Seq<char>) -> Result<Environment, Seq<char>> {
    environment_from_lowered(lowercase(value))
}

/// The result of `Environment::try_from`, with the error seen as text.
pub open spec fn environment_result(r: Result<Environment, String>) -> Result<Environment, Seq<char>> {
    match r {
        Ok(e) => Ok(e),
        Err(msg) => Err(msg@),
    }
}

/// The contract of `Environment::try_from` is the `ensures` of the impl
/// below, stated over the text of the error; `try_from_spec` is not
/// claimed, since the error `String` itself cannot be named in a spec.
impl vstd::std_specs::convert::TryFromSpecImpl<String> for Environment {
    open spec fn obeys_try_from_spec() -> bool {
        false
    }

    open spec fn try_from_spec(v: String) -> Result<Self, String> {
        vstd::pervasive::arbitrary()
    }
}

/// Exactly two lowered names are environments: `local` and `production`.
/// Every other lowered name is refused, with the message that names it.
pub proof fn lemma_environment_names(lowered: Seq<char>)
    ensures
        environment_from_lowered(lowered) == Ok::<Environment, Seq<char>>(Environment::Local)
            <==> lowered == "local"@,
        environment_from_lowered(lowered) == Ok::<Environment, Seq<char>>(Environment::Production)
            <==> lowered == "production"@,
        lowered != "local"@ && lowered != "production"@ ==> environment_from_lowered(lowered)
            == Err::<Environment, Seq<char>>(lowered + " is not a valid env var"@),
{
    reveal_strlit("local");
    reveal_strlit("production");
    assert("local"@.len() != "production"@.len());
}

/// The name of an environment is read back as that environment.
pub proof fn lemma_environment_name_round_trip(e: Environment)
    ensures
        all_ascii(e.name()),
        environment_from_lowered(e.name().map_values(|c: char| ascii_lower(c))) == Ok::<
            Environment,
            Seq<char>,
        >(e),
{
    reveal_strlit("local");
    reveal_strlit("production");
    assert(e.name().map_values(|c: char| ascii_lower(c)) =~= e.name());
}

impl TryFrom<String> for Environment {
    type Error = String;

    /// Reads an environment name, ignoring case.
    fn try_from(value: String) -> (r: Result<Self, Self::Error>)
        ensures
            environment_result(r) == environment_outcome(value@),
            all_ascii(value@) ==> environment_result(r) == environment_from_lowered(
                value@.map_values(|c: char| ascii_lower(c)),
            ),
    {
        let lowered = to_lowercase(value.as_str());
        if same_text(lowered.as_str(), "local") {
            Ok(Environment::Local)
        } else if same_text(lowered.as_str(), "production") {
            Ok(Environment::Production)
        } else {
            Err(concat2(lowered.as_str(), " is not a valid env var"))
        }
    }
}

impl Environment {
    /// The environment named by a setting, `local` where the setting is
    /// absent.
    pub fn from_setting(value: Option<String>) -> (r: Result<Environment, String>)
        ensures
            match value {
                None => r == Ok::<Environment, String>(Environment::Local),
                Some(v) => environment_result(r) == environment_outcome(v@),
            },
    {
        match value {
            Some(v) => Environment::try_from(v),
            None => {
                proof {
                    lemma_environment_name_round_trip(Environment::Local);
                }
                Environment::try_from(String::from_str("local"))
            },
        }
    }
}

/// Where the HTTP server listens.
pub struct ApplicationSettings {
    pub host: String,
    pub port: u16,
}

/// How the service reaches its Postgres database.
pub struct DatabaseSettings {
    pub host: String,
    pub port: u16,
    pub username: String,
    pub password: String,
    pub database_name: String,
    pub require_ssl: bool,
}

/// All the settings of the service.
pub struct Settings {
    pub application: ApplicationSettings,
    pub database: DatabaseSettings,
}

/// The TLS mode asked of the Postgres connection.
#[derive(Clone, Copy, Debug, PartialEq, Eq, Structural)]
pub enum SslMode {
    Allow,
    Prefer,
}

/// `postgres:{username}:{password}@{host}:{port}/{database_name}`.
pub open spec fn connection_text(
    username: Seq<char>,
    password: Seq<char>,
    host: Seq<char>,
    port: u16,
    database_name: Seq<char>,
) -> Seq<char> {
    "postgres:"@ + username + ":"@ + password + "@"@ + host + ":"@ + decimal(port as nat) + "/"@
        + database_name
}

impl DatabaseSettings {
    /// The connection string of these settings, password included.
    pub fn connection_string(&self) -> (r: String)
        ensures
            r@ == connection_text(
                self.username@,
                self.password@,
                self.host@,
                self.port,
                self.database_name@,
            ),
    {
        let mut r = String::from_str("postgres:");
        r.append(self.username.as_str());
        r.append(":");
        r.append(self.password.as_str());
        r.append("@");
        r.append(self.host.as_str());
        r.append(":");
        append_decimal(&mut r, self.port);
        r.append("/");
        r.append(self.database_name.as_str());
        r
    }

    /// The TLS mode of the connection: `Allow` when SSL is required,
    /// `Prefer` otherwise.
    pub fn ssl_mode(&self) -> (r: SslMode)
        ensures
            r == (if self.require_ssl {
                SslMode::Allow
            } else {
                SslMode::Prefer
            }),
    {
        if self.require_ssl {
            SslMode::Allow
        } else {
            SslMode::Prefer
        }
    }
}

} // verus!
