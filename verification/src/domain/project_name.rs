//! The name of a project: trimmed, non-empty, at most fifty characters.

use crate::text::{
    concat3, is_white_space, lemma_trim_idempotent, lemma_trim_ignores_padding, outcome, trim,
    trim_str,
};
use vstd::prelude::*;

verus! {

/// The longest name a project may have, in characters.
pub const MAX_PROJECT_NAME_CHARS: usize = 50;

/// A string is a project name when it is its own trim and holds
/// between one and fifty characters.
pub open spec fn is_project_name(s: Seq<char>) -> bool {
    &&& trim(s) == s
    &&& 0 < s.len() <= MAX_PROJECT_NAME_CHARS
}

/// What `ProjectName::parse` gives for the input `s`.
pub open spec fn project_name_outcome(s: Seq<char>) -> Result<Seq<char>, Seq<char>> {
    let t = trim(s);
    if t.len() == 0 {
        Err("Project name cannot be empty!"@)
    } else if t.len() > MAX_PROJECT_NAME_CHARS {
        Err("Project "@ + t + " exceeds the character length(50)"@)
    } else {
        Ok(t)
    }
}

#[derive(Debug)]
pub struct ProjectName(String);

impl View for ProjectName {
    type V = Seq<char>;

    closed spec fn view(&self) -> Seq<char> {
        self.0@
    }
}

impl ProjectName {
    #[verifier::type_invariant]
    closed spec fn well_formed(self) -> bool {
        is_project_name(self.0@)
    }

    /// Trims `s` and accepts it when one to fifty characters remain.
    pub fn parse(s: String) -> (r: Result<Self, String>)
        ensures
            outcome(r) == project_name_outcome(s@),
    {
        let trimmed = trim_str(s.as_str());
        let n = trimmed.as_str().unicode_len();
        if n == 0 {
            return Err(String::from_str("Project name cannot be empty!"));
        }
        if n > MAX_PROJECT_NAME_CHARS {
            return Err(
                concat3("Project ", trimmed.as_str(), " exceeds the character length(50)"),
            );
        }
        proof {
            crate::text::lemma_trim_idempotent(s@);
        }
        Ok(ProjectName(trimmed))
    }

    /// The name as text; it is always a valid project name.
    pub fn as_ref(&self) -> (r: &str)
        ensures
            r@ == self@,
            is_project_name(self@),
    {
        proof {
            use_type_invariant(self);
        }
        self.0.as_str()
    }
}

/// White space around a project name never changes the verdict.
pub proof fn lemma_project_name_ignores_padding(p: Seq<char>, s: Seq<char>, q: Seq<char>)
    requires
        forall|i: int| 0 <= i < p.len() ==> is_white_space(#[trigger] p[i]),
        forall|i: int| 0 <= i < q.len() ==> is_white_space(#[trigger] q[i]),
    ensures
        project_name_outcome(p + s + q) == project_name_outcome(s),
{
    lemma_trim_ignores_padding(p, s, q);
}

/// An input is accepted exactly when its trim is a project name, and the
/// accepted name is accepted again, unchanged.
pub proof fn lemma_project_name_canonical(s: Seq<char>)
    ensures
        project_name_outcome(s) is Ok <==> is_project_name(trim(s)),
        project_name_outcome(s) matches Ok(t) ==> project_name_outcome(t) == Ok::<Seq<char>, Seq<char>>(t),
{
    lemma_trim_idempotent(s);
}

/// A trimmed name of one to fifty characters is accepted as it is; an empty
/// one or one of more than fifty characters is refused.
pub proof fn lemma_project_name_lengths(s: Seq<char>)
    ensures
        1 <= trim(s).len() <= 50 ==> project_name_outcome(s) == Ok::<Seq<char>, Seq<char>>(
            trim(s),
        ),
        trim(s).len() == 0 || trim(s).len() > 50 ==> project_name_outcome(s) is Err,
{
}

} // verus!
