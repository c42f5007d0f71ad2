//! Settings that the server takes from its environment.

use crate::text::same_text;
use vstd::prelude::*;
use vstd::string::is_ascii_spec_bytes;

verus! {

/// An environment variable, as the process finds it.
pub enum EnvVar {
    /// The variable is set to this text.
    Value(String),
    /// The variable is set, but not to valid Unicode.
    NotUnicode,
    /// The variable is not set.
    Unset,
}

/// The model of an [`EnvVar`].
pub enum EnvVarView {
    Value(Seq<char>),
    NotUnicode,
    Unset,
}

impl View for EnvVar {
    type V = EnvVarView;

    open spec fn view(&self) -> EnvVarView {
        match self {
            EnvVar::Value(text) => EnvVarView::Value(text@),
            EnvVar::NotUnicode => EnvVarView::NotUnicode,
            EnvVar::Unset => EnvVarView::Unset,
        }
    }
}

/// The port that the server listens on unless told otherwise.
pub const DEFAULT_PORT: u16 = 8000;

/// The ASCII code of `+`.
const PLUS: u8 = 43;

/// The ASCII code of `0`.
const ZERO: u8 = 48;

/// The ASCII code of `9`.
const NINE: u8 = 57;

/// Whether a variable switches something on: it is set to `1`.
pub open spec fn switched_on(var: EnvVarView) -> bool {
    var == EnvVarView::Value("1"@)
}

/// Whether a variable switches something on.
pub fn is_switched_on(var: &EnvVar) -> (on: bool)
    ensures
        on == switched_on(var@),
        on <==> (var matches EnvVar::Value(text) && text@ == "1"@),
{
    match var {
        EnvVar::Value(text) => same_text(text, "1"),
        _ => false,
    }
}

/// Whether the background jobs are switched off for the sake of tests: they are wherever the
/// variable is set, to whatever value.
pub fn is_scheduled_jobs_disabled(var: &EnvVar) -> (disabled: bool)
    ensures
        disabled == (var@ != EnvVarView::Unset),
        disabled <==> !(var is Unset),
{
    !matches!(var, EnvVar::Unset)
}

/// Whether log output is colored: it is unless the variable is set, to whatever value.
pub fn is_output_colored(disable_color: &EnvVar) -> (colored: bool)
    ensures
        colored == (disable_color@ == EnvVarView::Unset),
        colored <==> disable_color is Unset,
{
    matches!(disable_color, EnvVar::Unset)
}

/// Whether a character is a decimal digit.
pub open spec fn is_digit(c: char) -> bool {
    '0' <= c <= '9'
}

/// Whether a text is made of decimal digits and is not empty.
pub open spec fn is_number(text: Seq<char>) -> bool {
    text.len() > 0 && forall|i: int| 0 <= i < text.len() ==> is_digit(#[trigger] text[i])
}

/// The number that a row of decimal digits stands for.
pub open spec fn number(digits: Seq<char>) -> int
    decreases digits.len(),
{
    if digits.len() == 0 {
        0
    } else {
        10 * number(digits.drop_last()) + (digits.last() as int - '0' as int)
    }
}

/// A text without its plus sign, if it begins with one.
pub open spec fn unsigned(text: Seq<char>) -> Seq<char> {
    if text.len() > 0 && text[0] == '+' {
        text.skip(1)
    } else {
        text
    }
}

/// The port that a text stands for: a decimal number below 65536, with or without a plus sign.
pub open spec fn port_of(text: Seq<char>) -> Option<u16> {
    if is_number(unsigned(text)) && number(unsigned(text)) <= u16::MAX {
        Some(number(unsigned(text)) as u16)
    } else {
        None
    }
}

/// Taking digits off the end does not make a number greater.
proof fn lemma_number_prefix(digits: Seq<char>, n: int)
    requires
        0 <= n <= digits.len(),
        forall|i: int| 0 <= i < digits.len() ==> is_digit(#[trigger] digits[i]),
    ensures
        0 <= number(digits.take(n)) <= number(digits),
    decreases digits.len(),
{
    if n < digits.len() {
        let shorter = digits.drop_last();
        lemma_number_prefix(shorter, n);
        assert(shorter.take(n) =~= digits.take(n));
        assert(is_digit(digits[digits.len() - 1]));
    } else {
        assert(digits.take(n) =~= digits);
        if n > 0 {
            let shorter = digits.drop_last();
            lemma_number_prefix(shorter, n - 1);
            assert(is_digit(digits[n - 1]));
        }
    }
}

/// Reads a port number.
pub fn parse_port(text: &str) -> (port: Option<u16>)
    ensures
        port == port_of(text@),
{
    let ghost digits = unsigned(text@);
    if !text.is_ascii() {
        proof {
            if is_number(digits) {
                assert forall|i: int| 0 <= i < text@.len() implies '\0' <= #[trigger] text@[i]
                    <= '\u{7f}' by {
                    if digits.len() < text@.len() {
                        if i > 0 {
                            assert(is_digit(digits[i - 1]));
                        }
                    } else {
                        assert(is_digit(digits[i]));
                    }
                }
                assert(vstd::utf8::is_ascii_chars(text@));
            }
        }
        return None;
    }
    proof {
        is_ascii_spec_bytes(text);
    }
    let bytes: &[u8] = text.as_bytes();
    let start: usize = if bytes.len() > 0 && bytes[0] == PLUS {
        1
    } else {
        0
    };
    assert(digits.len() == bytes@.len() - start);
    assert(forall|k: int|
        start <= k < bytes@.len() ==> digits[k - start] as u8 == #[trigger] bytes@[k]);
    if bytes.len() == start {
        return None;
    }
    let mut value: u32 = 0;
    let mut i: usize = start;
    while i < bytes.len()
        invariant
            digits == unsigned(text@),
            start <= i <= bytes@.len(),
            start <= 1,
            digits.len() == bytes@.len() - start,
            forall|k: int|
                start <= k < bytes@.len() ==> (#[trigger] bytes@[k]) as int
                    == digits[k - start] as int,
            forall|k: int| 0 <= k < i - start ==> is_digit(#[trigger] digits[k]),
            value == number(digits.take(i - start)),
            value <= u16::MAX,
        decreases bytes@.len() - i,
    {
        let byte: u8 = bytes[i];
        let ghost k = i - start;
        assert(byte as int == digits[k] as int);
        if byte < ZERO || byte > NINE {
            assert(!is_digit(digits[k]));
            return None;
        }
        assert(digits.take(k + 1).drop_last() =~= digits.take(k));
        value = 10 * value + (byte - ZERO) as u32;
        i += 1;
        assert(value == number(digits.take(k + 1)));
        if value > u16::MAX as u32 {
            proof {
                if is_number(digits) {
                    lemma_number_prefix(digits, k + 1);
                }
            }
            return None;
        }
    }
    assert(digits.take(digits.len() as int) =~= digits);
    Some(value as u16)
}

/// The address and port to listen on: every interface, and the port that the variable names. A
/// variable that is unset or not Unicode leaves the default port; there is no answer for one that
/// names no port.
pub fn listen_address(port: &EnvVar) -> (address: Option<([u8; 4], u16)>)
    ensures
        address is Some <==> (port@ matches EnvVarView::Value(text) ==> port_of(text) is Some),
        address matches Some((host, number)) ==> {
            &&& host@ == seq![0u8, 0u8, 0u8, 0u8]
            &&& number == (match port@ {
                EnvVarView::Value(text) => port_of(text)->0,
                _ => DEFAULT_PORT,
            })
            &&& !(port is Value) ==> number == 8000
        },
{
    let number: u16 = match port {
        EnvVar::Value(text) => match parse_port(text) {
            Some(number) => number,
            None => {
                return None;
            },
        },
        _ => DEFAULT_PORT,
    };
    Some(([0, 0, 0, 0], number))
}

} // verus!
