//! Small operations on strings that the rest of the crate is built from.

use vstd::prelude::*;
use vstd::string::*;
use vstd::utf8::{decode_utf8, encode_utf8, encode_utf8_decode_utf8};

verus! {

/// Whether two string slices hold the same characters in the same order.
pub fn str_eq(a: &str, b: &str) -> (same: bool)
    ensures
        same == (a@ == b@),
{
    let x = a.as_bytes();
    let y = b.as_bytes();
    proof {
        encode_utf8_decode_utf8(a@);
        encode_utf8_decode_utf8(b@);
    }
    if x.len() != y.len() {
        return false;
    }
    let mut i: usize = 0;
    while i < x.len()
        invariant
            i <= x.len(),
            x@.len() == y@.len(),
            x@ == encode_utf8(a@),
            y@ == encode_utf8(b@),
            decode_utf8(encode_utf8(a@)) == a@,
            decode_utf8(encode_utf8(b@)) == b@,
            forall|j: int| 0 <= j < i ==> x@[j] == y@[j],
        decreases x.len() - i,
    {
        if x[i] != y[i] {
            return false;
        }
        i = i + 1;
    }
    assert(x@ =~= y@);
    true
}

/// The characters of `a` followed by those of `b`.
pub fn join(a: &str, b: &str) -> (joined: String)
    ensures
        joined@ == a@ + b@,
{
    let mut joined = String::from_str(a);
    joined.append(b);
    joined
}

/// Whether `s` begins with `prefix`.
pub open spec fn has_prefix(s: Seq<char>, prefix: Seq<char>) -> bool {
    prefix.len() <= s.len() && s.subrange(0, prefix.len() as int) == prefix
}

/// What is left of `s` behind its first `n` characters.
pub open spec fn after(s: Seq<char>, n: nat) -> Seq<char> {
    s.subrange(n as int, s.len() as int)
}

/// Removes `prefix` from the front of `s`; `None` where `s` does not begin
/// with it.
pub fn strip_prefix(s: &str, prefix: &str) -> (rest: Option<String>)
    ensures
        has_prefix(s@, prefix@) <==> rest is Some,
        rest matches Some(r) ==> r@ == after(s@, prefix@.len()) && prefix@ + r@ == s@,
{
    let n = s.unicode_len();
    let p = prefix.unicode_len();
    if p <= n && str_eq(s.substring_char(0, p), prefix) {
        let r = String::from_str(s.substring_char(p, n));
        assert(prefix@ + r@ =~= s@);
        Some(r)
    } else {
        None
    }
}

/// The index at which the last segment of a path begins: just behind its last
/// `/`, or 0 where it holds none.
pub open spec fn segment_start(path: Seq<char>) -> nat
    decreases path.len(),
{
    if path.len() == 0 {
        0
    } else if path.last() == '/' {
        path.len()
    } else {
        segment_start(path.drop_last())
    }
}

/// The last segment of a path: what follows its last `/`, or the whole path
/// where it holds none.
pub open spec fn last_segment_of(path: Seq<char>) -> Seq<char> {
    after(path, segment_start(path))
}

/// The last segment holds no `/`, and what stands before it in the path is
/// either nothing or ends in `/`: it is the longest tail of the path without
/// a `/`.
pub proof fn lemma_last_segment(path: Seq<char>)
    ensures
        segment_start(path) <= path.len(),
        forall|i: int| 0 <= i < last_segment_of(path).len() ==> last_segment_of(path)[i] != '/',
        path.subrange(0, segment_start(path) as int) + last_segment_of(path) == path,
        segment_start(path) > 0 ==> path[segment_start(path) - 1] == '/',
    decreases path.len(),
{
    if path.len() > 0 && path.last() != '/' {
        let head = path.drop_last();
        lemma_last_segment(head);
        let start = segment_start(path);
        assert(start == segment_start(head));
        assert forall|i: int| 0 <= i < last_segment_of(path).len() implies last_segment_of(path)[i]
            != '/' by {
            if i < last_segment_of(head).len() {
                assert(last_segment_of(path)[i] == last_segment_of(head)[i]);
            }
        }
    }
    assert(path.subrange(0, segment_start(path) as int) + last_segment_of(path) =~= path);
}

/// The trailing segment of `path`.
pub fn last_segment(path: &str) -> (segment: String)
    ensures
        segment@ == last_segment_of(path@),
{
    let n = path.unicode_len();
    let mut start: usize = n;
    assert(path@.subrange(0, n as int) =~= path@);
    while start > 0 && path.get_char(start - 1) != '/'
        invariant
            start <= n,
            n == path@.len(),
            segment_start(path@) == segment_start(path@.subrange(0, start as int)),
        decreases start,
    {
        proof {
            let head = path@.subrange(0, start as int);
            assert(head.drop_last() =~= path@.subrange(0, start as int - 1));
        }
        start = start - 1;
    }
    assert(start > 0 ==> path@.subrange(0, start as int).last() == '/');
    String::from_str(path.substring_char(start, n))
}

/// The character for the digit `d`.
pub open spec fn digit_char(d: nat) -> char {
    if d == 0 {
        '0'
    } else if d == 1 {
        '1'
    } else if d == 2 {
        '2'
    } else if d == 3 {
        '3'
    } else if d == 4 {
        '4'
    } else if d == 5 {
        '5'
    } else if d == 6 {
        '6'
    } else if d == 7 {
        '7'
    } else if d == 8 {
        '8'
    } else {
        '9'
    }
}

/// The decimal numeral of `n`, without leading zeros.
pub open spec fn decimal_of(n: nat) -> Seq<char>
    decreases n,
{
    if n < 10 {
        seq![digit_char(n)]
    } else {
        decimal_of(n / 10).push(digit_char(n % 10))
    }
}

/// The number that the digit character `c` stands for.
pub open spec fn digit_value(c: char) -> nat {
    if c == '1' {
        1
    } else if c == '2' {
        2
    } else if c == '3' {
        3
    } else if c == '4' {
        4
    } else if c == '5' {
        5
    } else if c == '6' {
        6
    } else if c == '7' {
        7
    } else if c == '8' {
        8
    } else if c == '9' {
        9
    } else {
        0
    }
}

/// The number that a decimal numeral stands for.
pub open spec fn numeral_value(numeral: Seq<char>) -> nat
    decreases numeral.len(),
{
    if numeral.len() == 0 {
        0
    } else {
        numeral_value(numeral.drop_last()) * 10 + digit_value(numeral.last())
    }
}

/// The numeral of a number stands for that number, is not empty, and begins
/// with a zero only where the number is zero.
pub proof fn lemma_decimal_value(n: nat)
    ensures
        numeral_value(decimal_of(n)) == n,
        decimal_of(n).len() >= 1,
        decimal_of(n)[0] == '0' <==> n == 0,
    decreases n,
{
    reveal_with_fuel(numeral_value, 2);
    if n < 10 {
        assert(decimal_of(n).drop_last() =~= Seq::empty());
    } else {
        lemma_decimal_value(n / 10);
        assert(decimal_of(n).drop_last() =~= decimal_of(n / 10));
        assert(decimal_of(n)[0] == decimal_of(n / 10)[0]);
    }
}

/// The one-character string for the digit `d`.
fn digit(d: usize) -> (s: &'static str)
    requires
        d < 10,
    ensures
        s@ == seq![digit_char(d as nat)],
{
    proof {
        reveal_strlit("0");
        reveal_strlit("1");
        reveal_strlit("2");
        reveal_strlit("3");
        reveal_strlit("4");
        reveal_strlit("5");
        reveal_strlit("6");
        reveal_strlit("7");
        reveal_strlit("8");
        reveal_strlit("9");
    }
    let s = if d == 0 {
        "0"
    } else if d == 1 {
        "1"
    } else if d == 2 {
        "2"
    } else if d == 3 {
        "3"
    } else if d == 4 {
        "4"
    } else if d == 5 {
        "5"
    } else if d == 6 {
        "6"
    } else if d == 7 {
        "7"
    } else if d == 8 {
        "8"
    } else {
        "9"
    };
    assert(s@ =~= seq![digit_char(d as nat)]);
    s
}

/// Writes `n` as a decimal numeral.
pub fn decimal(n: usize) -> (numeral: String)
    ensures
        numeral@ == decimal_of(n as nat),
    decreases n,
{
    if n < 10 {
        String::from_str(digit(n))
    } else {
        let mut numeral = decimal(n / 10);
        numeral.append(digit(n % 10));
        assert(numeral@ =~= decimal_of(n as nat));
        numeral
    }
}

} // verus!
