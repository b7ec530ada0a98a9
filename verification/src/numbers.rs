//! Numbers in decimal notation.

use crate::text::{characters, copy};
use crate::words::{is_space, trimmed, trimmed_of_bare};
use vstd::prelude::*;
use vstd::string::*;

verus! {

/// The digit that stands for `d`, for `d` below ten.
pub open spec fn digit(d: nat) -> char {
    (('0' as u32) + d) as char
}

/// `n` in decimal notation, without leading zeros.
pub open spec fn decimal(n: nat) -> Seq<char>
    decreases n,
{
    if n < 10 {
        seq![digit(n)]
    } else {
        decimal(n / 10).push(digit(n % 10))
    }
}

pub open spec fn is_digit(c: char) -> bool {
    '0' <= c <= '9'
}

/// The number that a sequence of digits stands for.
pub open spec fn digits_value(s: Seq<char>) -> nat
    decreases s.len(),
{
    if s.len() == 0 {
        0
    } else {
        digits_value(s.drop_last()) * 10 + ((s.last() as u32 - '0' as u32) as nat)
    }
}

/// `s` without the plus sign that it may begin with.
pub open spec fn unsigned_part(s: Seq<char>) -> Seq<char> {
    if s.len() > 0 && s[0] == '+' {
        s.skip(1)
    } else {
        s
    }
}

/// The number below 2^32 that `s` spells: digits only, at least one, after an
/// optional plus sign.
pub open spec fn spelled_u32(s: Seq<char>) -> Option<u32> {
    let d = unsigned_part(s);
    if d.len() > 0 && (forall|i: int| 0 <= i < d.len() ==> is_digit(#[trigger] d[i]))
        && digits_value(d) <= u32::MAX {
        Some(digits_value(d) as u32)
    } else {
        None
    }
}

/// More digits never stand for a smaller number.
proof fn digits_value_grows(s: Seq<char>, n: int)
    requires
        0 <= n <= s.len(),
    ensures
        digits_value(s.take(n)) <= digits_value(s),
    decreases s.len() - n,
{
    if n < s.len() {
        digits_value_grows(s, n + 1);
        assert(s.take(n + 1).drop_last() =~= s.take(n));
    } else {
        assert(s.take(n) =~= s);
    }
}

/// Reads a number below 2^32 in decimal notation.
pub fn read_u32(s: &str) -> (r: Option<u32>)
    ensures
        r == spelled_u32(s@),
{
    let v: Vec<char> = characters(s);
    let n: usize = v.len();
    let start: usize = if n > 0 && v[0] == '+' {
        1
    } else {
        0
    };
    let ghost d = unsigned_part(s@);
    assert(d =~= s@.skip(start as int));
    if start == n {
        return None;
    }
    let mut i: usize = start;
    let mut acc: u64 = 0;
    while i < n
        invariant
            v@ == s@,
            n == v@.len(),
            start <= i <= n,
            d == s@.skip(start as int),
            d == unsigned_part(s@),
            acc == digits_value(d.take(i - start)),
            acc <= u32::MAX,
            forall|j: int| 0 <= j < i - start ==> is_digit(#[trigger] d[j]),
        decreases n - i,
    {
        let c: char = v[i];
        assert(d[i - start] == c);
        if c < '0' || '9' < c {
            return None;
        }
        assert(d.take(i - start + 1).drop_last() =~= d.take(i - start));
        acc = acc * 10 + (c as u32 - '0' as u32) as u64;
        proof {
            digits_value_grows(d, i - start + 1);
        }
        if acc > u32::MAX as u64 {
            return None;
        }
        i = i + 1;
    }
    assert(d.take(d.len() as int) =~= d);
    Some(acc as u32)
}

/// The low 32 bits of a number.
pub fn low32(n: u64) -> (r: u32)
    ensures
        r == n % 0x1_0000_0000,
{
    assert(n as u32 == n % 0x1_0000_0000) by (bit_vector);
    #[verifier::truncate]
    (n as u32)
}

/// The character for one digit.
fn digit_text(d: u64) -> (r: &'static str)
    requires
        d < 10,
    ensures
        r@ == seq![digit(d as nat)],
{
    proof {
        reveal_strlit("0");
        reveal_strlit("1");
        reveal_strlit("2");
        reveal_strlit("3");
        reveal_strlit("4");
        reveal_strlit("5");
        reveal_strlit("6");
        reveal_strlit("7");
        reveal_strlit("8");
        reveal_strlit("9");
    }
    let r: &'static str = match d {
        0 => "0",
        1 => "1",
        2 => "2",
        3 => "3",
        4 => "4",
        5 => "5",
        6 => "6",
        7 => "7",
        8 => "8",
        _ => "9",
    };
    assert(r@ =~= seq![digit(d as nat)]);
    r
}

/// `n` in decimal notation.
pub fn show(n: u64) -> (r: String)
    ensures
        r@ == decimal(n as nat),
    decreases n,
{
    if n < 10 {
        copy(digit_text(n))
    } else {
        let mut r: String = show(n / 10);
        r.append(digit_text(n % 10));
        assert(r@ =~= decimal(n as nat / 10).push(digit(n as nat % 10)));
        r
    }
}

/// Decimal notation has a digit in every place and stands for its number.
pub proof fn decimal_is_read_back(n: nat)
    ensures
        decimal(n).len() > 0,
        forall|i: int| 0 <= i < decimal(n).len() ==> is_digit(#[trigger] decimal(n)[i]),
        digits_value(decimal(n)) == n,
    decreases n,
{
    if n < 10 {
        assert(decimal(n).drop_last() =~= Seq::<char>::empty());
        assert(digits_value(Seq::<char>::empty()) == 0);
    } else {
        decimal_is_read_back(n / 10);
        assert(decimal(n).drop_last() =~= decimal(n / 10));
    }
}

/// What is written in decimal notation is read back, with white space trimmed
/// off or without.
pub proof fn number_round_trip(n: u32)
    ensures
        spelled_u32(decimal(n as nat)) == Some(n),
        spelled_u32(trimmed(decimal(n as nat))) == Some(n),
{
    let s = decimal(n as nat);
    decimal_is_read_back(n as nat);
    assert(is_digit(s[0]) && is_digit(s.last()));
    assert(!is_space(s[0]) && !is_space(s.last()));
    trimmed_of_bare(s);
}

/// As many zeros.
pub open spec fn zeros(n: nat) -> Seq<char> {
    Seq::new(n, |i: int| '0')
}

/// Digits are the decimal notation of what they stand for, with zeros before it.
proof fn digits_are_a_number_after_zeros(d: Seq<char>) -> (k: nat)
    requires
        d.len() > 0,
        forall|i: int| 0 <= i < d.len() ==> is_digit(#[trigger] d[i]),
    ensures
        d == zeros(k) + decimal(digits_value(d)),
    decreases d.len(),
{
    let c = d.last();
    let v = (c as u32 - '0' as u32) as nat;
    assert(is_digit(d[d.len() - 1]));
    let rest = d.drop_last();
    assert(digit(v) == c);
    if rest.len() == 0 {
        assert(digits_value(rest) == 0);
        assert(d =~= zeros(0) + decimal(v));
        0
    } else {
        assert forall|i: int| 0 <= i < rest.len() implies is_digit(#[trigger] rest[i]) by {
            assert(d[i] == rest[i]);
        }
        let k = digits_are_a_number_after_zeros(rest);
        let n = digits_value(rest);
        assert((n * 10 + v) / 10 == n && (n * 10 + v) % 10 == v);
        assert(d =~= rest.push(c));
        assert(digits_value(d) == n * 10 + v);
        if n == 0 {
            assert(decimal(0) =~= seq!['0']);
            assert(zeros(k) + seq!['0'] =~= zeros(k + 1));
            assert(decimal(v) =~= seq![c]);
            assert(d =~= zeros(k + 1) + decimal(v));
            k + 1
        } else {
            assert(decimal(n * 10 + v) =~= decimal(n).push(c));
            assert((zeros(k) + decimal(n)).push(c) =~= zeros(k) + decimal(n).push(c));
            assert(d =~= zeros(k) + decimal(n * 10 + v));
            k
        }
    }
}

/// A number is read from its decimal notation, with any zeros before it and
/// perhaps a plus sign before those, and from nothing else.
pub proof fn numbers_are_read_from_decimal_notation(s: Seq<char>, n: u32, k: nat)
    ensures
        spelled_u32(zeros(k) + decimal(n as nat)) == Some(n),
        spelled_u32(seq!['+'] + zeros(k) + decimal(n as nat)) == Some(n),
        spelled_u32(s) == Some(n) ==> exists|j: nat|
            s == (#[trigger] zeros(j)) + decimal(n as nat) || s == seq!['+'] + zeros(j) + decimal(
                n as nat,
            ),
{
    let d = zeros(k) + decimal(n as nat);
    decimal_is_read_back(n as nat);
    zeros_stand_for_nothing(k, decimal(n as nat));
    assert forall|i: int| 0 <= i < d.len() implies is_digit(#[trigger] d[i]) by {
        if i >= k {
            assert(is_digit(decimal(n as nat)[i - k]));
        }
    }
    assert(is_digit(d[0]));
    assert((seq!['+'] + zeros(k) + decimal(n as nat)).skip(1) =~= d);
    if spelled_u32(s) == Some(n) {
        let u = unsigned_part(s);
        let j = digits_are_a_number_after_zeros(u);
        assert(u == zeros(j) + decimal(n as nat));
        if s.len() > 0 && s[0] == '+' {
            assert(s =~= seq!['+'] + u);
            assert(seq!['+'] + (zeros(j) + decimal(n as nat)) =~= seq!['+'] + zeros(j) + decimal(
                n as nat,
            ));
        }
    }
}

proof fn zeros_stand_for_nothing(k: nat, d: Seq<char>)
    ensures
        digits_value(zeros(k) + d) == digits_value(d),
    decreases d.len(), k,
{
    let all = zeros(k) + d;
    if d.len() > 0 {
        zeros_stand_for_nothing(k, d.drop_last());
        assert(all.drop_last() =~= zeros(k) + d.drop_last());
        assert(all.last() == d.last());
    } else if k > 0 {
        zeros_stand_for_nothing((k - 1) as nat, d);
        assert(all.drop_last() =~= zeros((k - 1) as nat) + d);
        assert(all.last() == '0');
    } else {
        assert(all =~= d);
    }
}

} // verus!
