//! Unsigned decimal numbers written in ASCII digits.

use vstd::prelude::*;

verus! {

/// Why a run of bytes is not an unsigned decimal number.
#[derive(Clone, Copy, Debug, PartialEq, Eq, Structural)]
pub enum IntegerErrorKind {
    /// There are no bytes at all.
    Empty,
    /// A byte other than `0` to `9` occurs.
    InvalidDigit,
    /// The digits denote a number above `usize::MAX`.
    PosOverflow,
    /// The digits denote a number below zero.
    NegOverflow,
}

/// Whether `byte` is one of the ASCII digits `0` to `9`.
pub open spec fn is_digit(byte: u8) -> bool {
    0x30 <= byte <= 0x39
}

/// The number that the digits of `digits` denote in base ten.
pub open spec fn decimal_value(digits: Seq<u8>) -> nat
    decreases digits.len(),
{
    if digits.len() == 0 {
        0
    } else {
        10 * decimal_value(digits.drop_last()) + (digits.last() - 0x30) as nat
    }
}

/// How many digits stand at the front of `bytes` before the first other byte.
pub open spec fn leading_digits(bytes: Seq<u8>) -> nat
    decreases bytes.len(),
{
    if bytes.len() == 0 || !is_digit(bytes[0]) {
        0
    } else {
        1 + leading_digits(bytes.drop_first())
    }
}

/// What reading `bytes` from left to right as an unsigned decimal number gives:
/// the number, or the first thing that is wrong. A number that has outgrown
/// `usize` is reported before a bad byte that follows it.
pub open spec fn parse_unsigned(bytes: Seq<u8>) -> Result<usize, IntegerErrorKind> {
    let digits = bytes.take(leading_digits(bytes) as int);
    if bytes.len() == 0 {
        Err(IntegerErrorKind::Empty)
    } else if decimal_value(digits) > usize::MAX {
        Err(IntegerErrorKind::PosOverflow)
    } else if digits.len() < bytes.len() {
        Err(IntegerErrorKind::InvalidDigit)
    } else {
        Ok(decimal_value(bytes) as usize)
    }
}

/// Reads an unsigned decimal number with `btoi::btou`. It takes digits only, no
/// sign and no blanks, and goes through them from the left: an empty input
/// is `Empty`, a byte that is no digit is `InvalidDigit`, and a digit with which
/// the number leaves `usize` is `PosOverflow`, whichever comes first.
#[verifier::external_body]
pub(crate) fn btou(bytes: &[u8]) -> (r: Result<usize, IntegerErrorKind>)
    ensures
        r == parse_unsigned(bytes@),
{
    match btoi::btou::<usize>(bytes) {
        Ok(n) => Ok(n),
        Err(e) => Err(
            match e.kind() {
                btoi::ParseIntegerErrorKind::Empty => IntegerErrorKind::Empty,
                btoi::ParseIntegerErrorKind::InvalidDigit => IntegerErrorKind::InvalidDigit,
                btoi::ParseIntegerErrorKind::PosOverflow => IntegerErrorKind::PosOverflow,
                btoi::ParseIntegerErrorKind::NegOverflow => IntegerErrorKind::NegOverflow,
            },
        ),
    }
}

/// The digits of `n` in base ten, without leading zeros.
pub open spec fn decimal_digits(n: nat) -> Seq<u8>
    decreases n,
{
    if n < 10 {
        seq![(0x30 + n) as u8]
    } else {
        decimal_digits(n / 10).push((0x30 + n % 10) as u8)
    }
}

/// Every byte of `bytes` is a digit.
pub open spec fn all_digits(bytes: Seq<u8>) -> bool {
    forall|i: int| 0 <= i < bytes.len() ==> is_digit(#[trigger] bytes[i])
}

/// Where all bytes are digits, the digits at the front are all of them.
pub proof fn lemma_leading_digits_all(bytes: Seq<u8>)
    requires
        all_digits(bytes),
    ensures
        leading_digits(bytes) == bytes.len(),
    decreases bytes.len(),
{
    if bytes.len() > 0 {
        assert(is_digit(bytes[0]));
        let rest = bytes.drop_first();
        assert forall|i: int| 0 <= i < rest.len() implies is_digit(#[trigger] rest[i]) by {
            assert(rest[i] == bytes[i + 1]);
        }
        lemma_leading_digits_all(rest);
    }
}

/// The digits of a number are digits, at least one, and denote that number.
pub proof fn lemma_decimal_digits(n: nat)
    ensures
        decimal_digits(n).len() >= 1,
        all_digits(decimal_digits(n)),
        decimal_value(decimal_digits(n)) == n,
    decreases n,
{
    if n < 10 {
        let d = decimal_digits(n);
        assert(d.drop_last().len() == 0);
        assert(decimal_value(d.drop_last()) == 0);
    } else {
        lemma_decimal_digits(n / 10);
        let front = decimal_digits(n / 10);
        let d = decimal_digits(n);
        assert(d.drop_last() =~= front);
        assert(d.last() == (0x30 + n % 10) as u8);
    }
}

/// Writing a number that fits in `usize` and reading it back gives the number.
pub proof fn lemma_digits_round_trip(n: nat)
    requires
        n <= usize::MAX,
    ensures
        parse_unsigned(decimal_digits(n)) == Ok::<usize, IntegerErrorKind>(n as usize),
{
    let d = decimal_digits(n);
    lemma_decimal_digits(n);
    lemma_leading_digits_all(d);
    assert(d.take(d.len() as int) =~= d);
}

/// The digits at the front are at most all bytes, they are digits, and they are
/// all bytes only where every byte is a digit.
pub proof fn lemma_leading_digits_bound(bytes: Seq<u8>)
    ensures
        leading_digits(bytes) <= bytes.len(),
        all_digits(bytes.take(leading_digits(bytes) as int)),
        leading_digits(bytes) == bytes.len() ==> all_digits(bytes),
    decreases bytes.len(),
{
    if bytes.len() > 0 && is_digit(bytes[0]) {
        let rest = bytes.drop_first();
        lemma_leading_digits_bound(rest);
        let k = leading_digits(rest) as int;
        assert forall|i: int| 0 <= i < k + 1 implies is_digit(#[trigger] bytes.take(k + 1)[i]) by {
            if i > 0 {
                assert(rest.take(k)[i - 1] == bytes[i]);
            }
        }
        if k + 1 == bytes.len() {
            assert(bytes.take(k + 1) =~= bytes);
        }
    } else {
        assert(bytes.take(0).len() == 0);
    }
}

} // verus!
