//! The text in front of an object's payload: `"<kind> <size>\0"`.

use vstd::prelude::*;
use vstd::slice::*;
use crate::error::{Error, ErrorView, INVALID_SIZE, MISSING_NUL, MISSING_TOKENS};
use crate::kind::{kind_name, kind_of_name, Kind};
use crate::number::{
    all_digits, btou, decimal_digits, is_digit, lemma_decimal_digits, lemma_digits_round_trip,
    lemma_leading_digits_bound, parse_unsigned, IntegerErrorKind,
};

verus! {

/// The byte that ends a header.
pub const NUL: u8 = 0;

/// The byte between the kind and the size.
pub const SPACE: u8 = 0x20;

/// The index at which `byte` first occurs in `bytes`.
pub open spec fn position(bytes: Seq<u8>, byte: u8) -> Option<int>
    decreases bytes.len(),
{
    if bytes.len() == 0 {
        None
    } else if bytes[0] == byte {
        Some(0)
    } else {
        match position(bytes.drop_first(), byte) {
            Some(i) => Some(i + 1),
            None => None,
        }
    }
}

/// `byte` does not occur in `bytes`.
pub open spec fn free_of(bytes: Seq<u8>, byte: u8) -> bool {
    forall|i: int| 0 <= i < bytes.len() ==> #[trigger] bytes[i] != byte
}

/// What a header says: the kind, the size of the payload and the number of bytes
/// that the header takes, its NUL byte included; or what is wrong with it.
///
/// The header ends at the first NUL byte. The first space in it parts the kind
/// from the size, and neither may be empty. The kind is looked at before the
/// size.
pub open spec fn header_of(input: Seq<u8>) -> Result<(Kind, usize, usize), ErrorView> {
    match position(input, NUL) {
        None => Err(ErrorView::InvalidHeader(MISSING_NUL@)),
        Some(end) => {
            let header = input.take(end);
            match position(header, SPACE) {
                None => Err(ErrorView::InvalidHeader(MISSING_TOKENS@)),
                Some(space) => {
                    let kind = header.take(space);
                    let size = header.skip(space + 1);
                    if kind.len() == 0 || size.len() == 0 {
                        Err(ErrorView::InvalidHeader(MISSING_TOKENS@))
                    } else {
                        match (kind_of_name(kind), parse_unsigned(size)) {
                            (None, _) => Err(ErrorView::ObjectHeader(kind)),
                            (Some(_), Err(why)) => Err(
                                ErrorView::ParseIntegerError(INVALID_SIZE@, size, why),
                            ),
                            (Some(k), Ok(n)) => Ok((k, n, (end + 1) as usize)),
                        }
                    }
                },
            }
        },
    }
}

/// The first occurrence lies at `i` when `byte` stands there and not before; there
/// is none when `i` is the length and `byte` does not stand before.
pub proof fn lemma_position_found(bytes: Seq<u8>, byte: u8, i: int)
    requires
        0 <= i <= bytes.len(),
        free_of(bytes.take(i), byte),
        i < bytes.len() ==> bytes[i] == byte,
    ensures
        position(bytes, byte) == (if i < bytes.len() {
            Some(i)
        } else {
            None
        }),
    decreases i,
{
    if i > 0 {
        assert(bytes.take(i)[0] != byte);
        let rest = bytes.drop_first();
        assert forall|j: int| 0 <= j < i - 1 implies #[trigger] rest.take(i - 1)[j] != byte by {
            assert(bytes.take(i)[j + 1] != byte);
        }
        lemma_position_found(rest, byte, i - 1);
    }
}

/// Where the first occurrence lies, `byte` stands, and it does not stand before;
/// where there is none, `byte` does not occur.
pub proof fn lemma_position_is_first(bytes: Seq<u8>, byte: u8)
    ensures
        match position(bytes, byte) {
            Some(i) => 0 <= i < bytes.len() && bytes[i] == byte && free_of(bytes.take(i), byte),
            None => free_of(bytes, byte),
        },
    decreases bytes.len(),
{
    if bytes.len() > 0 && bytes[0] != byte {
        let rest = bytes.drop_first();
        lemma_position_is_first(rest, byte);
        match position(rest, byte) {
            Some(i) => {
                assert(bytes[i + 1] == rest[i]);
                assert forall|j: int| 0 <= j < i + 1 implies #[trigger] bytes.take(i + 1)[j]
                    != byte by {
                    if j > 0 {
                        assert(rest.take(i)[j - 1] != byte);
                    }
                }
            },
            None => {
                assert forall|j: int| 0 <= j < bytes.len() implies #[trigger] bytes[j]
                    != byte by {
                    if j > 0 {
                        assert(rest[j - 1] != byte);
                    }
                }
            },
        }
    }
}

/// Finds the first occurrence of `byte`.
fn find_byte(bytes: &[u8], byte: u8) -> (r: Option<usize>)
    ensures
        match r {
            Some(i) => position(bytes@, byte) == Some(i as int) && i < bytes@.len(),
            None => position(bytes@, byte) == None::<int>,
        },
{
    let mut i: usize = 0;
    while i < bytes.len()
        invariant
            i <= bytes@.len(),
            free_of(bytes@.take(i as int), byte),
        decreases bytes@.len() - i,
    {
        if bytes[i] == byte {
            proof {
                lemma_position_found(bytes@, byte, i as int);
            }
            return Some(i);
        }
        assert forall|j: int| 0 <= j < i + 1 implies #[trigger] bytes@.take(i + 1)[j] != byte by {
            if j < i {
                assert(bytes@.take(i as int)[j] != byte);
            }
        }
        i += 1;
    }
    proof {
        lemma_position_found(bytes@, byte, i as int);
    }
    None
}

/// Reads the header at the front of `input`: the kind, the size of the payload,
/// and the index at which the payload begins.
pub fn parse_header(input: &[u8]) -> (r: Result<(Kind, usize, usize), Error>)
    ensures
        match header_of(input@) {
            Ok(header) => r matches Ok(found) && found == header,
            Err(fault) => r matches Err(e) && e@ == fault,
        },
{
    let end = match find_byte(input, NUL) {
        Some(end) => end,
        None => {
            return Err(Error::InvalidHeader(MISSING_NUL));
        },
    };
    let header = slice_subrange(input, 0, end);
    assert(header@ =~= input@.take(end as int));
    let space = match find_byte(header, SPACE) {
        Some(space) => space,
        None => {
            return Err(Error::InvalidHeader(MISSING_TOKENS));
        },
    };
    let kind = slice_subrange(header, 0, space);
    let size = slice_subrange(header, space + 1, header.len());
    assert(kind@ =~= header@.take(space as int));
    assert(size@ =~= header@.skip(space + 1));
    if kind.len() == 0 || size.len() == 0 {
        return Err(Error::InvalidHeader(MISSING_TOKENS));
    }
    let kind = match Kind::from_bytes(kind) {
        Some(k) => k,
        None => {
            return Err(Error::ObjectHeader(slice_to_vec(kind)));
        },
    };
    let size = match btou(size) {
        Ok(n) => n,
        Err(why) => {
            return Err(Error::ParseIntegerError(INVALID_SIZE, slice_to_vec(size), why));
        },
    };
    assert(end < input.len());
    Ok((kind, size, end + 1))
}

/// The header of an object of the given kind and size, as it is written.
pub open spec fn header_bytes(kind: Kind, size: nat) -> Seq<u8> {
    kind_name(kind) + seq![SPACE] + decimal_digits(size) + seq![NUL]
}

/// Ten to the power of `k`.
pub open spec fn ten_to(k: nat) -> nat
    decreases k,
{
    if k == 0 {
        1
    } else {
        10 * ten_to((k - 1) as nat)
    }
}

/// A number below ten to the `k` has at most `k` digits.
pub proof fn lemma_digit_count(n: nat, k: nat)
    requires
        k >= 1,
        n < ten_to(k),
    ensures
        decimal_digits(n).len() <= k,
    decreases n,
{
    if n >= 10 {
        assert(ten_to(1) == 10) by {
            reveal_with_fuel(ten_to, 2);
        }
        assert(k >= 2);
        lemma_digit_count(n / 10, (k - 1) as nat);
    }
}

/// The names of the kinds hold neither a space nor a NUL byte, and are not empty.
pub proof fn lemma_kind_name_is_token(kind: Kind)
    ensures
        free_of(kind_name(kind), SPACE),
        free_of(kind_name(kind), NUL),
        kind_name(kind).len() > 0,
        kind_name(kind).len() <= 6,
        kind_of_name(kind_name(kind)) == Some(kind),
{
    assert(kind_name(Kind::Tag) != kind_name(Kind::Commit)) by {
        assert(kind_name(Kind::Tag).len() != kind_name(Kind::Commit).len());
    }
    assert(kind_name(Kind::Tag) != kind_name(Kind::Tree)) by {
        assert(kind_name(Kind::Tag).len() != kind_name(Kind::Tree).len());
    }
    assert(kind_name(Kind::Tag) != kind_name(Kind::Blob)) by {
        assert(kind_name(Kind::Tag).len() != kind_name(Kind::Blob).len());
    }
    assert(kind_name(Kind::Commit) != kind_name(Kind::Tree)) by {
        assert(kind_name(Kind::Commit).len() != kind_name(Kind::Tree).len());
    }
    assert(kind_name(Kind::Commit) != kind_name(Kind::Blob)) by {
        assert(kind_name(Kind::Commit).len() != kind_name(Kind::Blob).len());
    }
    assert(kind_name(Kind::Tree) != kind_name(Kind::Blob)) by {
        assert(kind_name(Kind::Tree)[0] != kind_name(Kind::Blob)[0]);
    }
}

/// Where a kind without space or NUL, a space, a size without NUL and a NUL byte
/// stand at the front of `input`, the header ends at that NUL byte and its two
/// tokens are that kind and that size.
pub proof fn lemma_header_parts(kind: Seq<u8>, size: Seq<u8>, rest: Seq<u8>)
    requires
        free_of(kind, SPACE),
        free_of(kind, NUL),
        free_of(size, NUL),
    ensures
        ({
            let input = kind + seq![SPACE] + size + seq![NUL] + rest;
            let end = kind.len() + 1 + size.len();
            &&& position(input, NUL) == Some(end as int)
            &&& position(input.take(end as int), SPACE) == Some(kind.len() as int)
            &&& input.take(end as int).take(kind.len() as int) == kind
            &&& input.take(end as int).skip(kind.len() as int + 1) == size
        }),
{
    let input = kind + seq![SPACE] + size + seq![NUL] + rest;
    let end = (kind.len() + 1 + size.len()) as int;
    let header = input.take(end);
    assert(header =~= kind + seq![SPACE] + size);
    assert forall|j: int| 0 <= j < end implies #[trigger] input.take(end)[j] != NUL by {
        if j < kind.len() {
            assert(kind[j] != NUL);
        } else if j > kind.len() {
            assert(size[j - kind.len() - 1] != NUL);
        }
    }
    assert(input[end] == NUL);
    lemma_position_found(input, NUL, end);
    assert forall|j: int| 0 <= j < kind.len() implies #[trigger] header.take(kind.len() as int)[j]
        != SPACE by {
        assert(kind[j] != SPACE);
    }
    assert(header[kind.len() as int] == SPACE);
    lemma_position_found(header, SPACE, kind.len() as int);
    assert(header.take(kind.len() as int) =~= kind);
    assert(header.skip(kind.len() as int + 1) =~= size);
}

/// Writing a header and reading it back gives the kind, the size and the
/// length of what was written.
pub proof fn lemma_header_round_trip(kind: Kind, size: nat)
    requires
        size <= usize::MAX,
    ensures
        header_bytes(kind, size).len() <= 28,
        header_of(header_bytes(kind, size)) == Ok::<(Kind, usize, usize), ErrorView>(
            (kind, size as usize, header_bytes(kind, size).len() as usize),
        ),
{
    let name = kind_name(kind);
    let digits = decimal_digits(size);
    lemma_kind_name_is_token(kind);
    lemma_decimal_digits(size);
    lemma_digits_round_trip(size);
    assert(ten_to(20) == 100000000000000000000) by {
        reveal_with_fuel(ten_to, 21);
    }
    lemma_digit_count(size, 20);
    assert forall|i: int| 0 <= i < digits.len() implies #[trigger] digits[i] != NUL by {
        assert(is_digit(digits[i]));
    }
    lemma_header_parts(name, digits, Seq::<u8>::empty());
    assert(name + seq![SPACE] + digits + seq![NUL] + Seq::<u8>::empty() =~= header_bytes(
        kind,
        size,
    ));
}

/// A header without a NUL byte is invalid.
pub proof fn lemma_missing_nul_is_invalid(input: Seq<u8>)
    requires
        free_of(input, NUL),
    ensures
        header_of(input) == Err::<(Kind, usize, usize), ErrorView>(
            ErrorView::InvalidHeader(MISSING_NUL@),
        ),
{
    assert(input.take(input.len() as int) =~= input);
    lemma_position_found(input, NUL, input.len() as int);
}

/// A header that ends in a NUL byte and holds no space, so no token or one, is
/// invalid.
pub proof fn lemma_missing_space_is_invalid(token: Seq<u8>, rest: Seq<u8>)
    requires
        free_of(token, NUL),
        free_of(token, SPACE),
    ensures
        header_of(token + seq![NUL] + rest) == Err::<(Kind, usize, usize), ErrorView>(
            ErrorView::InvalidHeader(MISSING_TOKENS@),
        ),
{
    let input = token + seq![NUL] + rest;
    let end = token.len() as int;
    assert(input.take(end) =~= token);
    assert(input[end] == NUL);
    lemma_position_found(input, NUL, end);
    assert(token.take(end) =~= token);
    lemma_position_found(token, SPACE, end);
}

/// A header whose kind is none of the four names is rejected for its kind,
/// whatever its size is.
pub proof fn lemma_unknown_kind_is_rejected(kind: Seq<u8>, size: Seq<u8>, rest: Seq<u8>)
    requires
        kind.len() > 0,
        size.len() > 0,
        free_of(kind, SPACE),
        free_of(kind, NUL),
        free_of(size, NUL),
        kind_of_name(kind) is None,
    ensures
        header_of(kind + seq![SPACE] + size + seq![NUL] + rest) == Err::<
            (Kind, usize, usize),
            ErrorView,
        >(ErrorView::ObjectHeader(kind)),
{
    lemma_header_parts(kind, size, rest);
}

/// A header with a known kind whose size holds a byte that is no digit is
/// rejected for its size, and the error carries the bytes of the size.
pub proof fn lemma_bad_size_is_rejected(kind: Kind, size: Seq<u8>, rest: Seq<u8>)
    requires
        size.len() > 0,
        free_of(size, NUL),
        !all_digits(size),
    ensures
        header_of(kind_name(kind) + seq![SPACE] + size + seq![NUL] + rest) matches Err(
            ErrorView::ParseIntegerError(message, number, why),
        ) && message == INVALID_SIZE@ && number == size && (why == IntegerErrorKind::InvalidDigit
            || why == IntegerErrorKind::PosOverflow),
{
    lemma_kind_name_is_token(kind);
    lemma_header_parts(kind_name(kind), size, rest);
    lemma_leading_digits_bound(size);
}

/// A header that can be read ends within the input, and takes at least four
/// bytes of it.
pub proof fn lemma_header_within(input: Seq<u8>)
    requires
        input.len() <= usize::MAX,
    ensures
        header_of(input) matches Ok((_, _, header_size)) ==> 4 <= header_size <= input.len(),
{
    lemma_position_is_first(input, NUL);
    if let Some(end) = position(input, NUL) {
        let header = input.take(end);
        lemma_position_is_first(header, SPACE);
        if let Some(space) = position(header, SPACE) {
            assert(header.take(space).len() == space);
            assert(header.skip(space + 1).len() == end - space - 1);
        }
    }
}

} // verus!
