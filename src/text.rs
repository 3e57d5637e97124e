//! Character-level helpers over the text that crosses the bridge.

use vstd::prelude::*;

verus! {

broadcast use vstd::string::group_string_axioms;

/// The characters of `s`, in order.
pub fn chars_of(s: &str) -> (r: Vec<char>)
    ensures
        r@ == s@,
{
    let mut v: Vec<char> = Vec::new();
    for c in it: s.chars()
        invariant
            it.seq() == s@,
            v@ == s@.take(it.index() as int),
    {
        v.push(c);
    }
    assert(v@ =~= s@);
    v
}

/// Whether `s[from..to]` spells exactly the text of `lit`.
pub fn range_equals(s: &Vec<char>, from: usize, to: usize, lit: &str) -> (r: bool)
    requires
        from <= to <= s@.len(),
    ensures
        r == (s@.subrange(from as int, to as int) == lit@),
{
    let n = lit.unicode_len();
    if to - from != n {
        return false;
    }
    let mut i: usize = 0;
    while i < n
        invariant
            from <= to <= s@.len(),
            to - from == n,
            n == lit@.len(),
            i <= n,
            forall|j: int| 0 <= j < i ==> s@[from + j] == lit@[j],
        decreases n - i,
    {
        if s[from + i] != lit.get_char(i) {
            assert(s@.subrange(from as int, to as int)[i as int] != lit@[i as int]);
            return false;
        }
        i += 1;
    }
    assert(s@.subrange(from as int, to as int) =~= lit@);
    true
}

pub open spec fn is_digit(c: char) -> bool {
    '0' <= c && c <= '9'
}

pub open spec fn digit_value(c: char) -> int {
    c as int - '0' as int
}

pub open spec fn all_digits(s: Seq<char>) -> bool {
    forall|i: int| 0 <= i < s.len() ==> is_digit(#[trigger] s[i])
}

/// The number written by a run of decimal digits, most significant first.
pub open spec fn digits_value(s: Seq<char>) -> int
    decreases s.len(),
{
    if s.len() == 0 {
        0
    } else {
        10 * digits_value(s.drop_last()) + digit_value(s.last())
    }
}

/// The integer written by `s` in the form Rust's integer parser reads: an
/// optional `+` or `-` followed by at least one decimal digit, and nothing
/// else.
pub open spec fn decimal_value(s: Seq<char>) -> Option<int> {
    if s.len() >= 2 && s[0] == '-' && all_digits(s.drop_first()) {
        Some(-digits_value(s.drop_first()))
    } else if s.len() >= 2 && s[0] == '+' && all_digits(s.drop_first()) {
        Some(digits_value(s.drop_first()))
    } else if s.len() >= 1 && all_digits(s) {
        Some(digits_value(s))
    } else {
        None
    }
}

/// The `i32` written by `s`, if `s` writes an integer in the range of `i32`.
pub open spec fn i32_value(s: Seq<char>) -> Option<i32> {
    match decimal_value(s) {
        Some(v) => if i32::MIN <= v <= i32::MAX {
            Some(v as i32)
        } else {
            None
        },
        None => None,
    }
}

proof fn lemma_digits_step(s: Seq<char>, k: int)
    requires
        0 <= k < s.len(),
    ensures
        digits_value(s.take(k + 1)) == 10 * digits_value(s.take(k)) + digit_value(s[k]),
{
    assert(s.take(k + 1).drop_last() =~= s.take(k));
}

proof fn lemma_digits_nonneg(s: Seq<char>, k: int)
    requires
        0 <= k <= s.len(),
        all_digits(s),
    ensures
        0 <= digits_value(s.take(k)),
    decreases k,
{
    if k > 0 {
        lemma_digits_nonneg(s, k - 1);
        lemma_digits_step(s, k - 1);
        assert(is_digit(s[k - 1]));
    } else {
        assert(s.take(0).len() == 0);
    }
}

proof fn lemma_digits_grow(s: Seq<char>, i: int, j: int)
    requires
        0 <= i <= j <= s.len(),
        all_digits(s),
    ensures
        0 <= digits_value(s.take(i)) <= digits_value(s.take(j)),
    decreases j - i,
{
    if i < j {
        lemma_digits_grow(s, i, j - 1);
        lemma_digits_step(s, j - 1);
        assert(is_digit(s[j - 1]));
    } else {
        lemma_digits_nonneg(s, i);
    }
}

/// Reads `s[from..to]` as an `i32` written in decimal with an optional sign.
pub fn parse_i32(s: &Vec<char>, from: usize, to: usize) -> (r: Option<i32>)
    requires
        from <= to <= s@.len(),
    ensures
        r == i32_value(s@.subrange(from as int, to as int)),
{
    let ghost t = s@.subrange(from as int, to as int);
    if from == to {
        return None;
    }
    let negative = s[from] == '-';
    let start: usize = if s[from] == '-' || s[from] == '+' { from + 1 } else { from };
    if start == to {
        assert(!is_digit(t[0]));
        return None;
    }
    let ghost d = s@.subrange(start as int, to as int);
    assert(start > from ==> d =~= t.drop_first());
    assert(start == from ==> d =~= t);
    assert(t[0] == s@[from as int]);
    let mut acc: u64 = 0;
    let mut i: usize = start;
    while i < to
        invariant
            from <= start <= i <= to <= s@.len(),
            d == s@.subrange(start as int, to as int),
            t == s@.subrange(from as int, to as int),
            start > from ==> d == t.drop_first() && !is_digit(t[0]),
            start == from ==> d == t && t[0] != '-' && t[0] != '+',
            negative ==> start > from && t[0] == '-',
            start > from && !negative ==> t[0] == '+',
            forall|j: int| 0 <= j < i - start ==> is_digit(#[trigger] d[j]),
            acc == digits_value(d.take(i - start)),
            acc <= 2147483648,
        decreases to - i,
    {
        let c = s[i];
        if c < '0' || c > '9' {
            assert(!is_digit(d[i - start]));
            assert(!all_digits(d));
            return None;
        }
        proof {
            lemma_digits_step(d, i - start);
        }
        let next: u64 = acc * 10 + (c as u64 - '0' as u64);
        i += 1;
        if next > 2147483648 {
            proof {
                if all_digits(d) {
                    lemma_digits_grow(d, i - start, d.len() as int);
                    assert(d.take(d.len() as int) =~= d);
                }
            }
            return None;
        }
        acc = next;
    }
    assert(d.take(d.len() as int) =~= d);
    assert(all_digits(d));
    if negative {
        Some((0 - acc as i64) as i32)
    } else if acc <= 2147483647 {
        Some(acc as i32)
    } else {
        None
    }
}

} // verus!
