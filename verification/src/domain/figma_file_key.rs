//! The key of a Figma file: ten or more ASCII letters and digits.

use crate::text::{
    lemma_trim_unique,
    all_ascii_alphanumeric, concat2, is_ascii_alphanumeric, is_white_space, lemma_trim_idempotent,
    lemma_trim_ignores_padding, outcome, trim, trim_str,
};
use vstd::prelude::*;

verus! {

/// The shortest key a Figma file may have, in characters.
pub const MIN_FIGMA_FILE_KEY_CHARS: usize = 10;

/// A string is a Figma file key when it holds at least ten characters,
/// each an ASCII letter or digit.
pub open spec fn is_figma_file_key(s: Seq<char>) -> bool {
    &&& forall|i: int| 0 <= i < s.len() ==> is_ascii_alphanumeric(#[trigger] s[i])
    &&& s.len() >= MIN_FIGMA_FILE_KEY_CHARS
}

/// What `FigmaFileKey::parse` gives for the input `s`.
pub open spec fn figma_file_key_outcome(s: Seq<char>) -> Result<Seq<char>, Seq<char>> {
    let t = trim(s);
    if t.len() == 0 {
        Err("value cannot be empty"@)
    } else if !(forall|i: int| 0 <= i < t.len() ==> is_ascii_alphanumeric(#[trigger] t[i])) {
        Err(t + " is not a valid figma key"@)
    } else if t.len() < MIN_FIGMA_FILE_KEY_CHARS {
        Err(t + " is too short to be a valid figma key"@)
    } else {
        Ok(t)
    }
}

#[derive(Debug)]
pub struct FigmaFileKey(String);

impl View for FigmaFileKey {
    type V = Seq<char>;

    closed spec fn view(&self) -> Seq<char> {
        self.0@
    }
}

impl FigmaFileKey {
    #[verifier::type_invariant]
    closed spec fn well_formed(self) -> bool {
        is_figma_file_key(self.0@)
    }

    /// Trims `s` and accepts it when it is a Figma file key.
    pub fn parse(s: String) -> (r: Result<Self, String>)
        ensures
            outcome(r) == figma_file_key_outcome(s@),
    {
        let trimmed = trim_str(s.as_str());
        if trimmed.as_str().unicode_len() == 0 {
            return Err(String::from_str("value cannot be empty"));
        }
        if !all_ascii_alphanumeric(trimmed.as_str()) {
            return Err(concat2(trimmed.as_str(), " is not a valid figma key"));
        }
        if trimmed.as_str().unicode_len() < MIN_FIGMA_FILE_KEY_CHARS {
            return Err(concat2(trimmed.as_str(), " is too short to be a valid figma key"));
        }
        Ok(FigmaFileKey(trimmed))
    }

    /// The key as text; it is always a valid Figma file key.
    pub fn as_ref(&self) -> (r: &str)
        ensures
            r@ == self@,
            is_figma_file_key(self@),
    {
        proof {
            use_type_invariant(self);
        }
        self.0.as_str()
    }
}

impl Clone for FigmaFileKey {
    fn clone(&self) -> (r: Self)
        ensures
            r@ == self@,
    {
        proof {
            use_type_invariant(self);
        }
        FigmaFileKey(self.0.clone())
    }
}

/// White space around a file key never changes the verdict.
pub proof fn lemma_figma_file_key_ignores_padding(p: Seq<char>, s: Seq<char>, q: Seq<char>)
    requires
        forall|i: int| 0 <= i < p.len() ==> is_white_space(#[trigger] p[i]),
        forall|i: int| 0 <= i < q.len() ==> is_white_space(#[trigger] q[i]),
    ensures
        figma_file_key_outcome(p + s + q) == figma_file_key_outcome(s),
{
    lemma_trim_ignores_padding(p, s, q);
}

/// An input is accepted exactly when its trim is a file key, and the
/// accepted key is accepted again, unchanged.
pub proof fn lemma_figma_file_key_canonical(s: Seq<char>)
    ensures
        figma_file_key_outcome(s) is Ok <==> is_figma_file_key(trim(s)),
        figma_file_key_outcome(s) matches Ok(t) ==> figma_file_key_outcome(t) == Ok::<Seq<char>, Seq<char>>(t),
{
    lemma_trim_idempotent(s);
}

/// Any text of ten or more ASCII letters and digits (`'A'` to `'Z'`,
/// `'a'` to `'z'`, `'0'` to `'9'`) is accepted as a file key, unchanged;
/// a trimmed text holding any other character is refused as not a key.
pub proof fn lemma_figma_file_key_characters(s: Seq<char>)
    ensures
        s.len() >= 10 && (forall|i: int|
            0 <= i < s.len() ==> ('A' <= #[trigger] s[i] && s[i] <= 'Z') || ('a' <= s[i] && s[i]
                <= 'z') || ('0' <= s[i] && s[i] <= '9')) ==> figma_file_key_outcome(s) == Ok::<
            Seq<char>,
            Seq<char>,
        >(s),
        (exists|i: int|
            0 <= i < trim(s).len() && !(('A' <= #[trigger] trim(s)[i] && trim(s)[i] <= 'Z') || (
            'a' <= trim(s)[i] && trim(s)[i] <= 'z') || ('0' <= trim(s)[i] && trim(s)[i] <= '9')))
            ==> figma_file_key_outcome(s) == Err::<Seq<char>, Seq<char>>(
            trim(s) + " is not a valid figma key"@,
        ),
{
    if s.len() >= 10 && (forall|i: int|
        0 <= i < s.len() ==> ('A' <= #[trigger] s[i] && s[i] <= 'Z') || ('a' <= s[i] && s[i]
            <= 'z') || ('0' <= s[i] && s[i] <= '9')) {
        assert(is_ascii_alphanumeric(s[0]));
        assert(is_ascii_alphanumeric(s[s.len() - 1]));
        lemma_trim_unique(s, 0, s.len() as int);
        assert(s.subrange(0, s.len() as int) =~= s);
    }
    if exists|i: int|
        0 <= i < trim(s).len() && !(('A' <= #[trigger] trim(s)[i] && trim(s)[i] <= 'Z') || ('a'
            <= trim(s)[i] && trim(s)[i] <= 'z') || ('0' <= trim(s)[i] && trim(s)[i] <= '9')) {
        let i = choose|i: int|
            0 <= i < trim(s).len() && !(('A' <= #[trigger] trim(s)[i] && trim(s)[i] <= 'Z') || (
            'a' <= trim(s)[i] && trim(s)[i] <= 'z') || ('0' <= trim(s)[i] && trim(s)[i] <= '9'));
        assert(!is_ascii_alphanumeric(trim(s)[i]));
    }
}

/// A key of fewer than ten characters is refused, whatever it holds.
pub proof fn lemma_figma_file_key_min_length(s: Seq<char>)
    ensures
        trim(s).len() < 10 ==> figma_file_key_outcome(s) is Err,
{
}

} // verus!
