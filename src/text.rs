use vstd::prelude::*;
use vstd::string::StrSliceExecFns;
use vstd::string::StringExecFns;

verus! {

/// The view of an optional text.
pub open spec fn opt_view(f: Option<&str>) -> Option<Seq<char>> {
    match f {
        None => None,
        Some(s) => Some(s@),
    }
}

/// `p` occurs in `t` starting at position `k`.
pub open spec fn occurs_at(t: Seq<char>, p: Seq<char>, k: int) -> bool {
    0 <= k && k + p.len() <= t.len() && t.subrange(k, k + p.len()) == p
}

/// `p` occurs somewhere in `t` as a contiguous run of characters.
pub open spec fn text_contains(t: Seq<char>, p: Seq<char>) -> bool {
    exists|k: int| #[trigger] occurs_at(t, p, k)
}

/// `t` begins with `p`.
pub open spec fn text_starts_with(t: Seq<char>, p: Seq<char>) -> bool {
    occurs_at(t, p, 0)
}

/// Whether `p` occurs at position `k` of `t`, character by character.
fn matches_at(t: &str, p: &str, k: usize) -> (r: bool)
    requires
        k + p@.len() <= t@.len(),
    ensures
        r == occurs_at(t@, p@, k as int),
{
    let n = p.unicode_len();
    let tn = t.unicode_len();
    let mut j: usize = 0;
    while j < n
        invariant
            n == p@.len(),
            tn == t@.len(),
            k + n <= t@.len(),
            j <= n,
            forall|m: int| 0 <= m < j ==> t@[k + m] == p@[m],
        decreases n - j,
    {
        if t.get_char(k + j) != p.get_char(j) {
            assert(t@.subrange(k as int, k + n)[j as int] != p@[j as int]);
            return false;
        }
        j = j + 1;
    }
    assert(t@.subrange(k as int, k + n) =~= p@);
    true
}

/// Whether `p` occurs somewhere in `t`.
pub fn contains_text(t: &str, p: &str) -> (r: bool)
    ensures
        r == text_contains(t@, p@),
{
    let tn = t.unicode_len();
    let pn = p.unicode_len();
    if pn > tn {
        assert forall|k: int| !occurs_at(t@, p@, k) by {}
        return false;
    }
    let mut k: usize = 0;
    while k < tn - pn
        invariant
            tn == t@.len(),
            pn == p@.len(),
            pn <= tn,
            k <= tn - pn,
            forall|m: int| 0 <= m < k ==> !occurs_at(t@, p@, m),
        decreases tn - pn - k,
    {
        if matches_at(t, p, k) {
            assert(occurs_at(t@, p@, k as int));
            return true;
        }
        k = k + 1;
    }
    let last = matches_at(t, p, k);
    if last {
        assert(occurs_at(t@, p@, k as int));
    } else {
        assert forall|m: int| !occurs_at(t@, p@, m) by {}
    }
    last
}

/// Whether `t` begins with `p`.
pub fn starts_with_text(t: &str, p: &str) -> (r: bool)
    ensures
        r == text_starts_with(t@, p@),
{
    if p.unicode_len() > t.unicode_len() {
        return false;
    }
    matches_at(t, p, 0)
}

/// Whether `s` and `w` are the same text.
pub fn same_text(s: &str, w: &str) -> (r: bool)
    ensures
        r == (s@ == w@),
{
    let r = s.unicode_len() == w.unicode_len() && starts_with_text(s, w);
    proof {
        if r {
            assert(s@ =~= s@.subrange(0, w@.len() as int));
        }
        if s@ == w@ {
            assert(s@.subrange(0, s@.len() as int) =~= s@);
        }
    }
    r
}

/// The decimal digit `d` as a character.
pub open spec fn digit_char(d: int) -> char {
    (('0' as u8) + d) as char
}

/// `n` written with exactly two decimal digits.
pub open spec fn two_digits(n: int) -> Seq<char> {
    seq![digit_char(n / 10), digit_char(n % 10)]
}

/// Writes `n` (below one hundred) with two decimal digits.
pub fn push_two_digits(out: &mut String, n: u32)
    requires
        n < 100,
    ensures
        final(out)@ == old(out)@ + two_digits(n as int),
{
    let d = digit(n / 10);
    out.append(d);
    let e = digit(n % 10);
    out.append(e);
    assert(seq![digit_char(n as int / 10)] + seq![digit_char(n as int % 10)] =~= two_digits(n as int));
}

/// The one-character text of the decimal digit `d`.
fn digit(d: u32) -> (r: &'static str)
    requires
        d < 10,
    ensures
        r@ == seq![digit_char(d as int)],
{
    proof {
        reveal_strlit("0");
        reveal_strlit("1");
        reveal_strlit("2");
        reveal_strlit("3");
        reveal_strlit("4");
        reveal_strlit("5");
        reveal_strlit("6");
        reveal_strlit("7");
        reveal_strlit("8");
        reveal_strlit("9");
    }
    let r = match d {
        0 => "0",
        1 => "1",
        2 => "2",
        3 => "3",
        4 => "4",
        5 => "5",
        6 => "6",
        7 => "7",
        8 => "8",
        _ => "9",
    };
    assert(r@ =~= seq![digit_char(d as int)]);
    r
}

} // verus!
