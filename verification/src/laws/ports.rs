//! Which texts name a port.

use crate::config::{is_digit, is_number, number, port_of, unsigned};
use crate::laws::{decimal, lemma_number_of_decimal};
use vstd::prelude::*;

verus! {

/// A row of zeros.
pub open spec fn zeros(n: nat) -> Seq<char> {
    Seq::new(n, |i: int| '0')
}

/// Leading zeros do not change a number.
proof fn lemma_leading_zeros(n: nat, digits: Seq<char>)
    requires
        is_number(digits),
    ensures
        is_number(zeros(n) + digits),
        number(zeros(n) + digits) == number(digits),
    decreases digits.len(),
{
    reveal_with_fuel(number, 2);
    let all = zeros(n) + digits;
    assert forall|i: int| 0 <= i < all.len() implies is_digit(#[trigger] all[i]) by {
        if i >= n {
            assert(is_digit(digits[i - n]));
        }
    }
    assert(all.drop_last() =~= zeros(n) + digits.drop_last());
    if digits.len() > 1 {
        let shorter = digits.drop_last();
        assert forall|i: int| 0 <= i < shorter.len() implies is_digit(#[trigger] shorter[i]) by {
            assert(is_digit(digits[i]));
        }
        lemma_leading_zeros(n, shorter);
    } else {
        assert(digits.drop_last() =~= Seq::empty());
        assert(all.drop_last() =~= zeros(n));
        lemma_zeros(n);
    }
}

proof fn lemma_zeros(n: nat)
    ensures
        number(zeros(n)) == 0,
    decreases n,
{
    if n > 0 {
        lemma_zeros((n - 1) as nat);
        assert(zeros(n).drop_last() =~= zeros((n - 1) as nat));
    }
}

/// A row of digits is its number in decimal behind some zeros.
proof fn lemma_digits_are_decimal(digits: Seq<char>) -> (n: nat)
    requires
        is_number(digits),
    ensures
        number(digits) >= 0,
        digits == zeros(n) + decimal(number(digits) as nat),
    decreases digits.len(),
{
    reveal_with_fuel(number, 2);
    let last = digits.last();
    let d = last as int - '0' as int;
    assert(is_digit(digits[digits.len() - 1]));
    if digits.len() == 1 {
        assert(digits.drop_last() =~= Seq::empty());
        assert(number(digits) == d);
        assert(digits =~= zeros(0) + decimal(d as nat));
        0
    } else {
        let shorter = digits.drop_last();
        assert forall|i: int| 0 <= i < shorter.len() implies is_digit(#[trigger] shorter[i]) by {
            assert(is_digit(digits[i]));
        }
        let n = lemma_digits_are_decimal(shorter);
        let before = number(shorter);
        assert(number(digits) == 10 * before + d);
        if before > 0 {
            assert((10 * before + d) / 10 == before);
            assert((10 * before + d) % 10 == d);
            assert(decimal(number(digits) as nat) == decimal(before as nat).push(last));
            assert(digits =~= shorter.push(last));
            assert(digits =~= zeros(n) + decimal(number(digits) as nat));
            n
        } else {
            assert(decimal(0) =~= seq!['0']);
            assert(decimal(d as nat) =~= seq![last]);
            assert(digits =~= shorter.push(last));
            assert(digits =~= zeros((n + 1) as nat) + decimal(number(digits) as nat));
            n + 1
        }
    }
}

/// Every port is read from its decimal digits, with or without zeros and a plus sign before them.
pub proof fn law_port_is_read(port: u16, n: nat)
    ensures
        port_of(zeros(n) + decimal(port as nat)) == Some(port),
        port_of(seq!['+'] + zeros(n) + decimal(port as nat)) == Some(port),
{
    let digits = zeros(n) + decimal(port as nat);
    lemma_number_of_decimal(port as nat);
    lemma_leading_zeros(n, decimal(port as nat));
    assert(is_digit(digits[0]));
    assert(unsigned(digits) == digits);
    let signed = seq!['+'] + zeros(n) + decimal(port as nat);
    assert(signed.skip(1) =~= digits);
}

/// A text from which a port is read is that port in decimal, behind a plus sign or not, and
/// behind some zeros: as many as are returned.
pub proof fn law_port_text_is_decimal(text: Seq<char>, port: u16) -> (n: nat)
    requires
        port_of(text) == Some(port),
    ensures
        text == zeros(n) + decimal(port as nat) || text == seq!['+'] + zeros(n) + decimal(
            port as nat,
        ),
{
    let digits = unsigned(text);
    let n = lemma_digits_are_decimal(digits);
    if text.len() > 0 && text[0] == '+' {
        assert(text =~= seq!['+'] + digits);
        assert(text =~= seq!['+'] + zeros(n) + decimal(port as nat));
    }
    n
}

} // verus!
