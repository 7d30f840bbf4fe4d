//! Character-level text operations with exact specifications.

use vstd::prelude::*;

verus! {

/// `p` occurs in `s` starting at position `i`.
pub open spec fn occurs_at(s: Seq<char>, p: Seq<char>, i: int) -> bool {
    0 <= i && i + p.len() <= s.len() && s.subrange(i, i + p.len()) == p
}

/// Every non-overlapping occurrence of the non-empty pattern `p`, scanning
/// left to right, replaced by `r`.
pub open spec fn replace_all(s: Seq<char>, p: Seq<char>, r: Seq<char>) -> Seq<char>
    decreases s.len(),
{
    if p.len() == 0 || s.len() < p.len() {
        s
    } else if s.take(p.len() as int) == p {
        r + replace_all(s.skip(p.len() as int), p, r)
    } else {
        seq![s[0]] + replace_all(s.skip(1), p, r)
    }
}

/// Position of the first occurrence of `p` in `s` at or after `i`, or
/// `s.len()` when there is none.
pub open spec fn first_occurrence_from(s: Seq<char>, p: Seq<char>, i: int) -> int
    decreases s.len() + 1 - i,
{
    if i < 0 || i + p.len() > s.len() {
        s.len() as int
    } else if s.subrange(i, i + p.len()) == p {
        i
    } else {
        first_occurrence_from(s, p, i + 1)
    }
}

/// The part of `s` before the first occurrence of `p`; all of `s` when `p`
/// does not occur.
pub open spec fn prefix_before(s: Seq<char>, p: Seq<char>) -> Seq<char> {
    s.take(first_occurrence_from(s, p, 0))
}

pub open spec fn digit_char(d: nat) -> char {
    if d == 0 {
        '0'
    } else if d == 1 {
        '1'
    } else if d == 2 {
        '2'
    } else if d == 3 {
        '3'
    } else if d == 4 {
        '4'
    } else if d == 5 {
        '5'
    } else if d == 6 {
        '6'
    } else if d == 7 {
        '7'
    } else if d == 8 {
        '8'
    } else {
        '9'
    }
}

/// Decimal digits of `n`, most significant first, with no leading zero.
pub open spec fn digits_of(n: nat) -> Seq<char>
    decreases n,
{
    if n < 10 {
        seq![digit_char(n)]
    } else {
        digits_of(n / 10).push(digit_char(n % 10))
    }
}

/// Canonical decimal form of an integer: a minus sign for negative values,
/// then the digits of its magnitude.
pub open spec fn decimal_text(n: int) -> Seq<char> {
    if n < 0 {
        seq!['-'] + digits_of((-n) as nat)
    } else {
        digits_of(n as nat)
    }
}

/// Whether `p` occurs in `s` at position `i`.
pub fn text_occurs_at(s: &str, p: &str, i: usize) -> (r: bool)
    requires
        i <= s@.len(),
        s@.len() <= usize::MAX,
    ensures
        r == occurs_at(s@, p@, i as int),
{
    let n = s.unicode_len();
    let m = p.unicode_len();
    if m > n - i {
        return false;
    }
    let mut k: usize = 0;
    while k < m
        invariant
            i + m <= n,
            n == s@.len(),
            m == p@.len(),
            k <= m,
            forall|j: int| 0 <= j < k ==> s@[i + j] == p@[j],
        decreases m - k,
    {
        if s.get_char(i + k) != p.get_char(k) {
            assert(s@.subrange(i as int, i + m)[k as int] != p@[k as int]);
            return false;
        }
        k = k + 1;
    }
    assert(s@.subrange(i as int, i + m) =~= p@);
    true
}

/// `s` with every occurrence of `p` replaced by `r`.
pub fn replace_text(s: &str, p: &str, r: &str) -> (out: String)
    requires
        p@.len() > 0,
    ensures
        out@ == replace_all(s@, p@, r@),
{
    let n = s.unicode_len();
    let m = p.unicode_len();
    let mut out = String::new();
    let mut i: usize = 0;
    assert(s@.skip(0) =~= s@);
    while i < n
        invariant
            n == s@.len(),
            m == p@.len(),
            m > 0,
            i <= n,
            out@ + replace_all(s@.skip(i as int), p@, r@) == replace_all(s@, p@, r@),
        decreases n - i,
    {
        let ghost rest = s@.skip(i as int);
        if m > n - i {
            let tail = s.substring_char(i, n);
            assert(tail@ =~= rest);
            out.append(tail);
            assert(s@.skip(n as int) =~= Seq::<char>::empty());
            i = n;
        } else if text_occurs_at(s, p, i) {
            assert(rest.take(m as int) =~= s@.subrange(i as int, i + m));
            assert(rest.skip(m as int) =~= s@.skip(i + m));
            out.append(r);
            assert(out@ + replace_all(s@.skip(i + m), p@, r@) =~= replace_all(s@, p@, r@));
            i = i + m;
        } else {
            assert(rest.take(m as int) =~= s@.subrange(i as int, i + m));
            assert(rest.skip(1) =~= s@.skip(i + 1));
            let c = s.substring_char(i, i + 1);
            assert(c@ =~= seq![rest[0]]);
            out.append(c);
            assert(out@ + replace_all(s@.skip(i + 1), p@, r@) =~= replace_all(s@, p@, r@));
            i = i + 1;
        }
    }
    assert(s@.skip(n as int) =~= Seq::<char>::empty());
    assert(out@ =~= out@ + Seq::<char>::empty());
    out
}

/// The part of `s` before the first occurrence of `p`, or all of `s`.
pub fn prefix_before_text(s: &str, p: &str) -> (out: String)
    ensures
        out@ == prefix_before(s@, p@),
{
    let n = s.unicode_len();
    let m = p.unicode_len();
    let mut i: usize = 0;
    while i < n && m <= n - i
        invariant
            n == s@.len(),
            m == p@.len(),
            i <= n,
            first_occurrence_from(s@, p@, 0) == first_occurrence_from(s@, p@, i as int),
        decreases n - i,
    {
        if text_occurs_at(s, p, i) {
            let head = s.substring_char(0, i);
            assert(head@ =~= s@.take(i as int));
            return String::from_str(head);
        }
        i = i + 1;
    }
    if m == 0 {
        assert(s@.subrange(i as int, i as int) =~= p@);
    }
    assert(first_occurrence_from(s@, p@, i as int) == n);
    assert(s@.take(n as int) =~= s@);
    String::from_str(s)
}

/// The one-character text of the digit `d`.
fn digit_str(d: u8) -> (r: &'static str)
    requires
        d < 10,
    ensures
        r@ == seq![digit_char(d as nat)],
{
    proof {
        reveal_strlit("0");
        reveal_strlit("1");
        reveal_strlit("2");
        reveal_strlit("3");
        reveal_strlit("4");
        reveal_strlit("5");
        reveal_strlit("6");
        reveal_strlit("7");
        reveal_strlit("8");
        reveal_strlit("9");
    }
    let r = if d == 0 {
        "0"
    } else if d == 1 {
        "1"
    } else if d == 2 {
        "2"
    } else if d == 3 {
        "3"
    } else if d == 4 {
        "4"
    } else if d == 5 {
        "5"
    } else if d == 6 {
        "6"
    } else if d == 7 {
        "7"
    } else if d == 8 {
        "8"
    } else {
        "9"
    };
    assert(r@ =~= seq![digit_char(d as nat)]);
    r
}

/// The canonical decimal form of `n`.
pub fn decimal_string(n: i128) -> (r: String)
    ensures
        r@ == decimal_text(n as int),
{
    let mut m: u128 = if n < 0 {
        ((-(n + 1)) as u128) + 1
    } else {
        n as u128
    };
    let ghost mag: nat = m as nat;
    let mut acc = String::new();
    assert(digits_of(mag) =~= digits_of(m as nat) + acc@);
    loop
        invariant_except_break
            digits_of(mag) == digits_of(m as nat) + acc@,
        ensures
            digits_of(mag) == acc@,
        decreases m,
    {
        let d = (m % 10) as u8;
        let ghost before = acc@;
        acc = String::from_str(digit_str(d)).concat(acc.as_str());
        assert(acc@ == seq![digit_char(d as nat)] + before);
        if m < 10 {
            assert(digits_of(m as nat) + before =~= acc@);
            break;
        }
        assert(digits_of(m as nat) == digits_of((m / 10) as nat).push(digit_char(d as nat)));
        assert(digits_of(m as nat) + before =~= digits_of((m / 10) as nat) + acc@);
        m = m / 10;
    }
    if n < 0 {
        proof {
            reveal_strlit("-");
        }
        let r = String::from_str("-").concat(acc.as_str());
        assert(r@ =~= decimal_text(n as int));
        r
    } else {
        acc
    }
}

} // verus!
