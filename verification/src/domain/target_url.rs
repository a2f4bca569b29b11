//! The page a QA run inspects: a URL with the `http` or `https` scheme.

use crate::bindings::{parse_url_scheme, url_scheme};
use crate::text::{
    concat2, concat3, is_white_space, lemma_trim_idempotent, lemma_trim_ignores_padding, outcome,
    same_text, trim, trim_str,
};
use vstd::prelude::*;

verus! {

/// What `TargetUrl::parse` decides for the trimmed input `t`, once the URL
/// parser has answered `scheme` for it.
pub open spec fn scheme_verdict(t: Seq<char>, scheme: Option<Seq<char>>) -> Result<
    Seq<char>,
    Seq<char>,
> {
    match scheme {
        None => Err(t + " is not a valid url"@),
        Some(sc) => if sc == "http"@ || sc == "https"@ {
            Ok(t)
        } else {
            Err("'"@ + t + "' must use http/https but got '"@ + sc + "'"@)
        },
    }
}

/// What `TargetUrl::parse` gives for the input `s`.
pub open spec fn target_url_outcome(s: Seq<char>) -> Result<Seq<char>, Seq<char>> {
    let t = trim(s);
    if t.len() == 0 {
        Err("target_url can't be empty"@)
    } else {
        scheme_verdict(t, url_scheme(t))
    }
}

/// The text of an optional string.
pub open spec fn option_text(o: Option<String>) -> Option<Seq<char>> {
    match o {
        Some(s) => Some(s@),
        None => None,
    }
}

/// A string is a target URL when it is its own trim, is not empty, and
/// the URL parser reads it with the `http` or `https` scheme.
pub open spec fn is_target_url(s: Seq<char>) -> bool {
    &&& trim(s) == s
    &&& s.len() > 0
    &&& (url_scheme(s) == Some("http"@) || url_scheme(s) == Some("https"@))
}

#[derive(Debug)]
pub struct TargetUrl(String);

impl View for TargetUrl {
    type V = Seq<char>;

    closed spec fn view(&self) -> Seq<char> {
        self.0@
    }
}

impl TargetUrl {
    #[verifier::type_invariant]
    closed spec fn well_formed(self) -> bool {
        is_target_url(self.0@)
    }

    /// Trims `s` and accepts it when the URL parser reads it with the
    /// `http` or `https` scheme.
    pub fn parse(s: String) -> (r: Result<Self, String>)
        ensures
            outcome(r) == target_url_outcome(s@),
    {
        let trimmed = trim_str(s.as_str());
        if trimmed.as_str().unicode_len() == 0 {
            return Err(String::from_str("target_url can't be empty"));
        }
        let scheme = parse_url_scheme(trimmed.as_str());
        match Self::check_scheme(trimmed, scheme) {
            Ok(url) => {
                proof {
                    lemma_trim_idempotent(s@);
                }
                Ok(TargetUrl(url))
            },
            Err(msg) => Err(msg),
        }
    }

    /// Decides on the trimmed input `trimmed`, given the `scheme` that the
    /// URL parser found in it (`None` where it refused the input): the
    /// accepted text, or the message that refuses it.
    pub fn check_scheme(trimmed: String, scheme: Option<String>) -> (r: Result<String, String>)
        ensures
            outcome(r) == scheme_verdict(trimmed@, option_text(scheme)),
    {
        match scheme {
            None => Err(concat2(trimmed.as_str(), " is not a valid url")),
            Some(sc) => {
                if same_text(sc.as_str(), "http") || same_text(sc.as_str(), "https") {
                    Ok(trimmed)
                } else {
                    let mut msg = concat3("'", trimmed.as_str(), "' must use http/https but got '");
                    msg.append(sc.as_str());
                    msg.append("'");
                    Err(msg)
                }
            },
        }
    }

    /// The URL as text; it is always a valid target URL.
    pub fn as_ref(&self) -> (r: &str)
        ensures
            r@ == self@,
            is_target_url(self@),
    {
        proof {
            use_type_invariant(self);
        }
        self.0.as_str()
    }
}

impl Clone for TargetUrl {
    fn clone(&self) -> (r: Self)
        ensures
            r@ == self@,
    {
        proof {
            use_type_invariant(self);
        }
        TargetUrl(self.0.clone())
    }
}

/// White space around a URL never changes the verdict.
pub proof fn lemma_target_url_ignores_padding(p: Seq<char>, s: Seq<char>, q: Seq<char>)
    requires
        forall|i: int| 0 <= i < p.len() ==> is_white_space(#[trigger] p[i]),
        forall|i: int| 0 <= i < q.len() ==> is_white_space(#[trigger] q[i]),
    ensures
        target_url_outcome(p + s + q) == target_url_outcome(s),
{
    lemma_trim_ignores_padding(p, s, q);
}

/// An input is accepted exactly when its trim is a target URL, and the
/// accepted URL is accepted again, unchanged.
pub proof fn lemma_target_url_canonical(s: Seq<char>)
    ensures
        target_url_outcome(s) is Ok <==> is_target_url(trim(s)),
        target_url_outcome(s) matches Ok(t) ==> t == trim(s) && target_url_outcome(t) == Ok::<
            Seq<char>,
            Seq<char>,
        >(t),
{
    lemma_trim_idempotent(s);
}

/// Exactly the schemes `http` and `https` are accepted, and an accepted
/// URL is the trimmed input itself.
pub proof fn lemma_target_url_schemes(t: Seq<char>, scheme: Option<Seq<char>>)
    ensures
        scheme_verdict(t, scheme) is Ok <==> (scheme == Some("http"@) || scheme == Some(
            "https"@,
        )),
        scheme_verdict(t, scheme) is Ok ==> scheme_verdict(t, scheme) == Ok::<
            Seq<char>,
            Seq<char>,
        >(t),
{
}

} // verus!
