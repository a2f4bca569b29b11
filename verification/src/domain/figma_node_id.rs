//! The id of a node in a Figma file: two runs of digits around a colon.

use crate::text::{
    lemma_trim_unique,
    concat3, digits_between, is_ascii_digit, is_white_space, lemma_trim_idempotent,
    lemma_trim_ignores_padding, outcome, trim, trim_str,
};
use vstd::prelude::*;

verus! {

/// A non-empty run of ASCII digits.
pub open spec fn is_digit_run(s: Seq<char>) -> bool {
    &&& s.len() > 0
    &&& forall|i: int| 0 <= i < s.len() ==> is_ascii_digit(#[trigger] s[i])
}

/// Split at `':'`, `s` gives exactly two parts, each a run of digits.
pub open spec fn is_figma_node_id(s: Seq<char>) -> bool {
    exists|p: int|
        0 <= p < s.len() && #[trigger] s[p] == ':' && is_digit_run(s.take(p)) && is_digit_run(
            s.skip(p + 1),
        )
}

/// What `FigmaNodeId::parse` gives for the input `s`.
pub open spec fn figma_node_id_outcome(s: Seq<char>) -> Result<Seq<char>, Seq<char>> {
    let t = trim(s);
    if t.len() == 0 {
        Err("Figma node id cannot be empty!"@)
    } else if !is_figma_node_id(t) {
        Err("'"@ + t + "' is not a valid Figma node id (expected format 'number:number')"@)
    } else {
        Ok(t)
    }
}

/// Whether `t` is a node id, decided by its first colon.
fn node_id_shape(t: &str) -> (r: bool)
    ensures
        r == is_figma_node_id(t@),
{
    let n = t.unicode_len();
    let mut p: usize = 0;
    while p < n && t.get_char(p) != ':'
        invariant
            p <= n,
            n == t@.len(),
            forall|j: int| 0 <= j < p ==> t@[j] != ':',
        decreases n - p,
    {
        p = p + 1;
    }
    if p == n {
        assert(!is_figma_node_id(t@));
        return false;
    }
    let r = p > 0 && p + 1 < n && digits_between(t, 0, p) && digits_between(t, p + 1, n);
    proof {
        let s = t@;
        if r {
            assert(is_digit_run(s.take(p as int))) by {
                assert forall|i: int| 0 <= i < p implies is_ascii_digit(#[trigger] s.take(p as int)[i]) by {
                    assert(s.take(p as int)[i] == s[i]);
                }
            }
            assert(is_digit_run(s.skip(p + 1))) by {
                assert forall|i: int| 0 <= i < s.skip(p + 1).len() implies is_ascii_digit(
                    #[trigger] s.skip(p + 1)[i],
                ) by {
                    assert(s.skip(p + 1)[i] == s[i + p + 1]);
                }
            }
            assert(s[p as int] == ':');
        } else if is_figma_node_id(s) {
            let q = choose|q: int|
                0 <= q < s.len() && #[trigger] s[q] == ':' && is_digit_run(s.take(q))
                    && is_digit_run(s.skip(q + 1));
            if q > p {
                assert(s.take(q)[p as int] == ':');
            }
            assert(q == p);
            assert forall|j: int| 0 <= j < p implies is_ascii_digit(#[trigger] s[j]) by {
                assert(s.take(q)[j] == s[j]);
            }
            assert forall|j: int| p + 1 <= j < n implies is_ascii_digit(#[trigger] s[j]) by {
                assert(s.skip(q + 1)[j - q - 1] == s[j]);
            }
            assert(s.take(q).len() > 0);
            assert(s.skip(q + 1).len() > 0);
        }
    }
    r
}

#[derive(Debug)]
pub struct FigmaNodeId(String);

impl View for FigmaNodeId {
    type V = Seq<char>;

    closed spec fn view(&self) -> Seq<char> {
        self.0@
    }
}

impl FigmaNodeId {
    #[verifier::type_invariant]
    closed spec fn well_formed(self) -> bool {
        is_figma_node_id(self.0@)
    }

    /// Trims `s` and accepts it when it has the form `number:number`.
    pub fn parse(s: String) -> (r: Result<Self, String>)
        ensures
            outcome(r) == figma_node_id_outcome(s@),
    {
        let trimmed = trim_str(s.as_str());
        if trimmed.as_str().unicode_len() == 0 {
            return Err(String::from_str("Figma node id cannot be empty!"));
        }
        if !node_id_shape(trimmed.as_str()) {
            return Err(
                concat3(
                    "'",
                    trimmed.as_str(),
                    "' is not a valid Figma node id (expected format 'number:number')",
                ),
            );
        }
        Ok(FigmaNodeId(trimmed))
    }

    /// The node id as text; it always has the form `number:number`.
    pub fn as_ref(&self) -> (r: &str)
        ensures
            r@ == self@,
            is_figma_node_id(self@),
    {
        proof {
            use_type_invariant(self);
        }
        self.0.as_str()
    }
}

impl Clone for FigmaNodeId {
    fn clone(&self) -> (r: Self)
        ensures
            r@ == self@,
    {
        proof {
            use_type_invariant(self);
        }
        FigmaNodeId(self.0.clone())
    }
}

/// White space around a node id never changes the verdict.
pub proof fn lemma_figma_node_id_ignores_padding(p: Seq<char>, s: Seq<char>, q: Seq<char>)
    requires
        forall|i: int| 0 <= i < p.len() ==> is_white_space(#[trigger] p[i]),
        forall|i: int| 0 <= i < q.len() ==> is_white_space(#[trigger] q[i]),
    ensures
        figma_node_id_outcome(p + s + q) == figma_node_id_outcome(s),
{
    lemma_trim_ignores_padding(p, s, q);
}

/// An input is accepted exactly when its trim is a node id, and the
/// accepted id is accepted again, unchanged.
pub proof fn lemma_figma_node_id_canonical(s: Seq<char>)
    ensures
        figma_node_id_outcome(s) is Ok <==> (trim(s).len() > 0 && is_figma_node_id(trim(s))),
        figma_node_id_outcome(s) matches Ok(t) ==> figma_node_id_outcome(t) == Ok::<Seq<char>, Seq<char>>(t),
{
    lemma_trim_idempotent(s);
}

/// A node id holds exactly one colon.
pub proof fn lemma_figma_node_id_one_colon(s: Seq<char>, i: int, j: int)
    requires
        is_figma_node_id(s),
        0 <= i < s.len(),
        0 <= j < s.len(),
        s[i] == ':',
        s[j] == ':',
    ensures
        i == j,
{
    let p = choose|p: int|
        0 <= p < s.len() && #[trigger] s[p] == ':' && is_digit_run(s.take(p)) && is_digit_run(
            s.skip(p + 1),
        );
    assert forall|k: int| 0 <= k < s.len() && k != p implies is_ascii_digit(#[trigger] s[k]) by {
        if k < p {
            assert(s.take(p)[k] == s[k]);
        } else {
            assert(s.skip(p + 1)[k - p - 1] == s[k]);
        }
    }
}

/// Two non-empty runs of ASCII digits (`'0'` to `'9'`, any digit first)
/// joined by a colon are accepted as a node id, unchanged.
pub proof fn lemma_figma_node_id_accepts_digit_pairs(a: Seq<char>, b: Seq<char>)
    requires
        a.len() > 0,
        b.len() > 0,
        forall|i: int| 0 <= i < a.len() ==> '0' <= #[trigger] a[i] && a[i] <= '9',
        forall|i: int| 0 <= i < b.len() ==> '0' <= #[trigger] b[i] && b[i] <= '9',
    ensures
        figma_node_id_outcome(a + seq![':'] + b) == Ok::<Seq<char>, Seq<char>>(a + seq![':'] + b),
{
    let x = a + seq![':'] + b;
    let p = a.len() as int;
    assert(x[0] == a[0]);
    assert(x[x.len() - 1] == b[b.len() - 1]);
    lemma_trim_unique(x, 0, x.len() as int);
    assert(x.subrange(0, x.len() as int) =~= x);
    assert(x.take(p) =~= a);
    assert(x.skip(p + 1) =~= b);
    assert(x[p] == ':');
    assert(is_digit_run(x.take(p)));
    assert(is_digit_run(x.skip(p + 1)));
}

/// A text is a node id exactly when it holds one colon, not at either end,
/// and every other character is an ASCII digit.
pub proof fn lemma_figma_node_id_shape(s: Seq<char>)
    ensures
        is_figma_node_id(s) <==> exists|p: int|
            0 < p < s.len() - 1 && #[trigger] s[p] == ':' && forall|i: int|
                0 <= i < s.len() && i != p ==> '0' <= #[trigger] s[i] && s[i] <= '9',
{
    if is_figma_node_id(s) {
        let p = choose|p: int|
            0 <= p < s.len() && #[trigger] s[p] == ':' && is_digit_run(s.take(p))
                && is_digit_run(s.skip(p + 1));
        assert forall|i: int| 0 <= i < s.len() && i != p implies '0' <= #[trigger] s[i] && s[i]
            <= '9' by {
            if i < p {
                assert(s.take(p)[i] == s[i]);
            } else {
                assert(s.skip(p + 1)[i - p - 1] == s[i]);
            }
        }
        assert(s.take(p).len() > 0);
        assert(s.skip(p + 1).len() > 0);
    }
    if exists|p: int|
        0 < p < s.len() - 1 && #[trigger] s[p] == ':' && forall|i: int|
            0 <= i < s.len() && i != p ==> '0' <= #[trigger] s[i] && s[i] <= '9' {
        let p = choose|p: int|
            0 < p < s.len() - 1 && #[trigger] s[p] == ':' && forall|i: int|
                0 <= i < s.len() && i != p ==> '0' <= #[trigger] s[i] && s[i] <= '9';
        assert forall|i: int| 0 <= i < s.take(p).len() implies is_ascii_digit(
            #[trigger] s.take(p)[i],
        ) by {
            assert(s.take(p)[i] == s[i]);
        }
        assert forall|i: int| 0 <= i < s.skip(p + 1).len() implies is_ascii_digit(
            #[trigger] s.skip(p + 1)[i],
        ) by {
            assert(s.skip(p + 1)[i] == s[i + p + 1]);
        }
        assert(is_digit_run(s.take(p)));
        assert(is_digit_run(s.skip(p + 1)));
    }
}

} // verus!
