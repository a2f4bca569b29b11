//! Character classes and string helpers shared by the validators.

use vstd::prelude::*;

verus! {

/// `char::is_whitespace`: the Unicode `White_Space` property.
pub open spec fn is_white_space(c: char) -> bool {
    ||| ('\u{9}' <= c && c <= '\u{d}')
    ||| c == ' '
    ||| c == '\u{85}'
    ||| c == '\u{a0}'
    ||| c == '\u{1680}'
    ||| ('\u{2000}' <= c && c <= '\u{200a}')
    ||| c == '\u{2028}'
    ||| c == '\u{2029}'
    ||| c == '\u{202f}'
    ||| c == '\u{205f}'
    ||| c == '\u{3000}'
}

pub fn white_space(c: char) -> (r: bool)
    ensures
        r == is_white_space(c),
{
    ('\u{9}' <= c && c <= '\u{d}') || c == ' ' || c == '\u{85}' || c == '\u{a0}' || c == '\u{1680}'
        || ('\u{2000}' <= c && c <= '\u{200a}') || c == '\u{2028}' || c == '\u{2029}' || c
        == '\u{202f}' || c == '\u{205f}' || c == '\u{3000}'
}


/// Number of white-space characters at the start of `s`.
pub open spec fn leading_white_space(s: Seq<char>) -> nat
    decreases s.len(),
{
    if s.len() > 0 && is_white_space(s[0]) {
        1 + leading_white_space(s.drop_first())
    } else {
        0
    }
}

/// Number of white-space characters at the end of `s`.
pub open spec fn trailing_white_space(s: Seq<char>) -> nat
    decreases s.len(),
{
    if s.len() > 0 && is_white_space(s.last()) {
        1 + trailing_white_space(s.drop_last())
    } else {
        0
    }
}

/// `str::trim`: `s` without its leading and trailing white space.
pub open spec fn trim(s: Seq<char>) -> Seq<char> {
    let rest = s.skip(leading_white_space(s) as int);
    rest.take(rest.len() - trailing_white_space(rest))
}

proof fn lemma_leading(s: Seq<char>, k: int)
    requires
        0 <= k <= s.len(),
        forall|j: int| 0 <= j < k ==> is_white_space(#[trigger] s[j]),
    ensures
        leading_white_space(s) == k + leading_white_space(s.skip(k)),
    decreases k,
{
    if k > 0 {
        assert(s.drop_first().skip(k - 1) =~= s.skip(k));
        lemma_leading(s.drop_first(), k - 1);
    } else {
        assert(s.skip(0) =~= s);
    }
}

proof fn lemma_trailing(s: Seq<char>, k: int)
    requires
        0 <= k <= s.len(),
        forall|j: int| k <= j < s.len() ==> is_white_space(#[trigger] s[j]),
    ensures
        trailing_white_space(s) == (s.len() - k) + trailing_white_space(s.take(k)),
    decreases s.len() - k,
{
    if k < s.len() {
        assert(s.drop_last().take(k) =~= s.take(k));
        lemma_trailing(s.drop_last(), k);
    } else {
        assert(s.take(k) =~= s);
    }
}

proof fn lemma_leading_props(s: Seq<char>)
    ensures
        leading_white_space(s) <= s.len(),
        forall|j: int| 0 <= j < leading_white_space(s) ==> is_white_space(#[trigger] s[j]),
        leading_white_space(s) < s.len() ==> !is_white_space(s[leading_white_space(s) as int]),
    decreases s.len(),
{
    if s.len() > 0 && is_white_space(s[0]) {
        lemma_leading_props(s.drop_first());
        assert forall|j: int| 0 <= j < leading_white_space(s) implies is_white_space(#[trigger] s[j]) by {
            if j > 0 {
                assert(s[j] == s.drop_first()[j - 1]);
            }
        }
    }
}

proof fn lemma_trailing_props(s: Seq<char>)
    ensures
        trailing_white_space(s) <= s.len(),
        forall|j: int|
            s.len() - trailing_white_space(s) <= j < s.len() ==> is_white_space(#[trigger] s[j]),
        trailing_white_space(s) < s.len() ==> !is_white_space(
            s[s.len() - trailing_white_space(s) - 1],
        ),
    decreases s.len(),
{
    if s.len() > 0 && is_white_space(s.last()) {
        lemma_trailing_props(s.drop_last());
        assert forall|j: int|
            s.len() - trailing_white_space(s) <= j < s.len() implies is_white_space(
            #[trigger] s[j],
        ) by {
            if j < s.len() - 1 {
                assert(s[j] == s.drop_last()[j]);
            }
        }
    }
}

/// A trimmed text that is not empty starts and ends with a character
/// that is not white space.
pub proof fn lemma_trim_ends(s: Seq<char>)
    ensures
        trim(s).len() > 0 ==> !is_white_space(trim(s)[0]) && !is_white_space(trim(s).last()),
        trim(s).len() <= s.len(),
{
    lemma_leading_props(s);
    let rest = s.skip(leading_white_space(s) as int);
    lemma_trailing_props(rest);
}

/// Trimming twice is trimming once.
pub proof fn lemma_trim_idempotent(s: Seq<char>)
    ensures
        trim(trim(s)) == trim(s),
{
    let t = trim(s);
    lemma_trim_ends(s);
    assert(t.skip(0) =~= t);
    assert(t.take(t.len() as int) =~= t);
}

/// Where the trimmed text sits in `s`: it is `s[a..b]`, everything
/// before `a` and from `b` on is white space, and the trimmed text, when
/// not empty, neither starts nor ends with white space.
pub open spec fn trims_to(s: Seq<char>, a: int, b: int) -> bool {
    &&& 0 <= a <= b <= s.len()
    &&& forall|j: int| 0 <= j < a ==> is_white_space(#[trigger] s[j])
    &&& forall|j: int| b <= j < s.len() ==> is_white_space(#[trigger] s[j])
    &&& a < b ==> !is_white_space(s[a]) && !is_white_space(s[b - 1])
}

proof fn lemma_trim_bounds(s: Seq<char>) -> (ab: (int, int))
    ensures
        trims_to(s, ab.0, ab.1),
        trim(s) == s.subrange(ab.0, ab.1),
{
    lemma_leading_props(s);
    let a = leading_white_space(s) as int;
    let rest = s.skip(a);
    lemma_trailing_props(rest);
    let b = a + rest.len() - trailing_white_space(rest);
    assert forall|j: int| b <= j < s.len() implies is_white_space(#[trigger] s[j]) by {
        assert(s[j] == rest[j - a]);
    }
    if a < b {
        assert(s[a] == rest[0]);
        assert(s[b - 1] == rest[b - 1 - a]);
    }
    assert(trim(s) =~= s.subrange(a, b));
    (a, b)
}

/// The trimmed text is the one span that `trims_to` describes.
pub proof fn lemma_trim_unique(s: Seq<char>, a: int, b: int)
    requires
        trims_to(s, a, b),
    ensures
        trim(s) == s.subrange(a, b),
{
    let (a2, b2) = lemma_trim_bounds(s);
    if a < b {
        if a2 < a {
            assert(!is_white_space(s[a2]));
        }
        if a < a2 {
            assert(!is_white_space(s[a]));
        }
        if b2 < b {
            assert(!is_white_space(s[b - 1]));
        }
        if b < b2 {
            assert(!is_white_space(s[b2 - 1]));
        }
    } else {
        if a2 < b2 {
            assert(!is_white_space(s[a2]));
        }
        assert(s.subrange(a, b) =~= s.subrange(a2, b2));
    }
}

/// White space around a text never changes how it trims.
pub proof fn lemma_trim_ignores_padding(p: Seq<char>, s: Seq<char>, q: Seq<char>)
    requires
        forall|i: int| 0 <= i < p.len() ==> is_white_space(#[trigger] p[i]),
        forall|i: int| 0 <= i < q.len() ==> is_white_space(#[trigger] q[i]),
    ensures
        trim(p + s + q) == trim(s),
{
    let x = p + s + q;
    let (a, b) = lemma_trim_bounds(s);
    assert forall|j: int| 0 <= j < x.len() && (j < p.len() || j >= p.len() + s.len()) implies is_white_space(
        #[trigger] x[j],
    ) by {
        if j < p.len() {
            assert(x[j] == p[j]);
        } else {
            assert(x[j] == q[j - p.len() - s.len()]);
        }
    }
    assert forall|j: int| p.len() <= j < p.len() + s.len() implies #[trigger] x[j] == s[j - p.len()] by {}
    if a < b {
        lemma_trim_unique(x, p.len() + a, p.len() + b);
        assert(x.subrange(p.len() + a, p.len() + b) =~= s.subrange(a, b));
    } else {
        lemma_trim_unique(x, x.len() as int, x.len() as int);
        assert(x.subrange(x.len() as int, x.len() as int) =~= s.subrange(a, b));
    }
}

/// Trims white space from both ends of `s`, as `str::trim` does.
pub fn trim_str(s: &str) -> (r: String)
    ensures
        r@ == trim(s@),
{
    let n = s.unicode_len();
    let mut a: usize = 0;
    while a < n && white_space(s.get_char(a))
        invariant
            a <= n,
            n == s@.len(),
            forall|j: int| 0 <= j < a ==> is_white_space(#[trigger] s@[j]),
        decreases n - a,
    {
        a = a + 1;
    }
    proof {
        lemma_leading(s@, a as int);
    }
    let mut b: usize = n;
    while b > a && white_space(s.get_char(b - 1))
        invariant
            a <= b <= n,
            n == s@.len(),
            forall|j: int| b <= j < n ==> is_white_space(#[trigger] s@[j]),
        decreases b,
    {
        b = b - 1;
    }
    proof {
        let rest = s@.skip(a as int);
        assert forall|j: int| (b - a) <= j < rest.len() implies is_white_space(#[trigger] rest[j]) by {
            assert(rest[j] == s@[j + a]);
        }
        lemma_trailing(rest, b - a);
        assert(rest.take(b - a) =~= s@.subrange(a as int, b as int));
    }
    String::from_str(s.substring_char(a, b))
}


/// The result of a validator, seen through the views of its values.
pub open spec fn outcome<T: View>(r: Result<T, String>) -> Result<T::V, Seq<char>> {
    match r {
        Ok(v) => Ok(v@),
        Err(e) => Err(e@),
    }
}

/// The concatenation of three pieces of text.
pub fn concat3(a: &str, b: &str, c: &str) -> (r: String)
    ensures
        r@ == a@ + b@ + c@,
{
    let mut r = String::from_str(a);
    r.append(b);
    r.append(c);
    r
}

/// The concatenation of two pieces of text.
pub fn concat2(a: &str, b: &str) -> (r: String)
    ensures
        r@ == a@ + b@,
{
    let mut r = String::from_str(a);
    r.append(b);
    r
}

/// `char::is_ascii_digit`.
pub open spec fn is_ascii_digit(c: char) -> bool {
    '0' <= c && c <= '9'
}

/// `char::is_ascii_alphanumeric`.
pub open spec fn is_ascii_alphanumeric(c: char) -> bool {
    ||| ('A' <= c && c <= 'Z')
    ||| ('a' <= c && c <= 'z')
    ||| ('0' <= c && c <= '9')
}

/// The digit class holds exactly the ten characters `'0'` to `'9'`, and the
/// letter-and-digit class exactly the 62 characters `'A'` to `'Z'`,
/// `'a'` to `'z'` and `'0'` to `'9'`; none of them is white space.
pub proof fn lemma_ascii_classes(c: char)
    ensures
        is_ascii_digit(c) <==> ('0' <= c && c <= '9'),
        is_ascii_alphanumeric(c) <==> (('A' <= c && c <= 'Z') || ('a' <= c && c <= 'z') || ('0'
            <= c && c <= '9')),
        is_ascii_alphanumeric(c) ==> !is_white_space(c),
        c == ':' ==> !is_white_space(c) && !is_ascii_digit(c),
{
}

/// Whether every character of `s` in `from..to` is an ASCII digit.
pub fn digits_between(s: &str, from: usize, to: usize) -> (r: bool)
    requires
        from <= to <= s@.len(),
    ensures
        r == forall|j: int| from <= j < to ==> is_ascii_digit(#[trigger] s@[j]),
{
    let mut i = from;
    while i < to
        invariant
            from <= i <= to <= s@.len(),
            forall|j: int| from <= j < i ==> is_ascii_digit(#[trigger] s@[j]),
        decreases to - i,
    {
        let c = s.get_char(i);
        if !('0' <= c && c <= '9') {
            return false;
        }
        i = i + 1;
    }
    true
}

/// Whether every character of `s` is an ASCII letter or digit.
pub fn all_ascii_alphanumeric(s: &str) -> (r: bool)
    ensures
        r == forall|j: int| 0 <= j < s@.len() ==> is_ascii_alphanumeric(#[trigger] s@[j]),
{
    let n = s.unicode_len();
    let mut i: usize = 0;
    while i < n
        invariant
            i <= n,
            n == s@.len(),
            forall|j: int| 0 <= j < i ==> is_ascii_alphanumeric(#[trigger] s@[j]),
        decreases n - i,
    {
        let c = s.get_char(i);
        if !(('A' <= c && c <= 'Z') || ('a' <= c && c <= 'z') || ('0' <= c && c <= '9')) {
            return false;
        }
        i = i + 1;
    }
    true
}

/// The ASCII digit for `d`, which is below ten.
pub open spec fn digit_char(d: nat) -> char {
    (48 + d) as char
}

/// The decimal notation of `n`, without leading zeros.
pub open spec fn decimal(n: nat) -> Seq<char>
    decreases n,
{
    if n < 10 {
        seq![digit_char(n)]
    } else {
        decimal(n / 10).push(digit_char(n % 10))
    }
}

/// The number a run of ASCII digits denotes.
pub open spec fn digits_value(s: Seq<char>) -> int
    decreases s.len(),
{
    if s.len() == 0 {
        0
    } else {
        digits_value(s.drop_last()) * 10 + (s.last() as int - '0' as int)
    }
}

/// The decimal notation of `n` is a non-empty run of ASCII digits, with
/// no leading zero unless `n` is zero, and it denotes `n`.
pub proof fn lemma_decimal_denotes(n: nat)
    ensures
        decimal(n).len() > 0,
        forall|i: int| 0 <= i < decimal(n).len() ==> '0' <= #[trigger] decimal(n)[i] && decimal(n)[i] <= '9',
        n > 0 ==> decimal(n)[0] != '0',
        digits_value(decimal(n)) == n,
    decreases n,
{
    if n >= 10 {
        lemma_decimal_denotes(n / 10);
        let d = decimal(n / 10);
        assert(decimal(n).drop_last() =~= d);
        assert forall|i: int| 0 <= i < decimal(n).len() implies '0' <= #[trigger] decimal(n)[i]
            && decimal(n)[i] <= '9' by {
            if i < d.len() {
                assert(decimal(n)[i] == d[i]);
            }
        }
        assert(decimal(n)[0] == d[0]);
        assert(digit_char(n % 10) as int == 48 + n % 10);
        assert(decimal(n).last() == digit_char(n % 10));
        assert(n == (n / 10) * 10 + n % 10);
        assert('0' as int == 48);
        assert(digits_value(decimal(n)) == digits_value(d) * 10 + (decimal(n).last() as int - '0' as int));
    } else {
        assert('0' as int == 48);
        assert(digits_value(Seq::<char>::empty()) == 0);
        assert(digit_char(n) as int == 48 + n);
        assert(decimal(n).drop_last() =~= Seq::<char>::empty());
    }
}

fn digit_text(d: u16) -> (r: &'static str)
    requires
        d < 10,
    ensures
        r@ == seq![digit_char(d as nat)],
{
    proof {
        reveal_strlit("0");
        reveal_strlit("1");
        reveal_strlit("2");
        reveal_strlit("3");
        reveal_strlit("4");
        reveal_strlit("5");
        reveal_strlit("6");
        reveal_strlit("7");
        reveal_strlit("8");
        reveal_strlit("9");
    }
    let r = match d {
        0 => "0",
        1 => "1",
        2 => "2",
        3 => "3",
        4 => "4",
        5 => "5",
        6 => "6",
        7 => "7",
        8 => "8",
        _ => "9",
    };
    assert(r@ =~= seq![digit_char(d as nat)]);
    r
}

/// Appends the decimal notation of `n` to `out`, as `{}` formats it.
pub fn append_decimal(out: &mut String, n: u16)
    ensures
        final(out)@ == old(out)@ + decimal(n as nat),
    decreases n,
{
    if n >= 10 {
        append_decimal(out, n / 10);
    }
    out.append(digit_text(n % 10));
    assert(out@ =~= old(out)@ + decimal(n as nat));
}

/// Whether two pieces of text hold the same characters.
pub fn same_text(a: &str, b: &str) -> (r: bool)
    ensures
        r == (a@ == b@),
{
    let n = a.unicode_len();
    if n != b.unicode_len() {
        return false;
    }
    let mut i: usize = 0;
    while i < n
        invariant
            i <= n,
            n == a@.len(),
            n == b@.len(),
            forall|j: int| 0 <= j < i ==> a@[j] == b@[j],
        decreases n - i,
    {
        if a.get_char(i) != b.get_char(i) {
            return false;
        }
        i = i + 1;
    }
    assert(a@ =~= b@);
    true
}

} // verus!
