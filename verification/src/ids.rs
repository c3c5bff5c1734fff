//! Random ids of the `uuid` crate, and how they are written.

use vstd::arithmetic::power::pow;
use vstd::prelude::*;

verus! {

/// A hexadecimal digit in lower case.
pub open spec fn hex_char(digit: int) -> char {
    if 0 <= digit < 10 {
        (digit + '0' as int) as char
    } else {
        (digit - 10 + 'a' as int) as char
    }
}

/// The last `width` hexadecimal digits of a number, the most significant first.
pub open spec fn hex_text(n: nat, width: nat) -> Seq<char>
    decreases width,
{
    if width == 0 {
        Seq::empty()
    } else {
        hex_text(n / 16, (width - 1) as nat).push(hex_char((n % 16) as int))
    }
}

/// An id with dashes: groups of eight, four, four, four and twelve digits.
pub open spec fn dashed_text(id: u128) -> Seq<char> {
    let digits = hex_text(id as nat, 32);
    digits.subrange(0, 8) + seq!['-'] + digits.subrange(8, 12) + seq!['-'] + digits.subrange(12, 16)
        + seq!['-'] + digits.subrange(16, 20) + seq!['-'] + digits.subrange(20, 32)
}

/// Whether a character is a hexadecimal digit in lower case.
pub open spec fn hex_digit(c: char) -> bool {
    '0' <= c <= '9' || 'a' <= c <= 'f'
}

/// Hexadecimal digits are as many as asked for, and nothing else.
pub proof fn hex_text_holds_digits(n: nat, width: nat)
    ensures
        hex_text(n, width).len() == width,
        forall|i: int| 0 <= i < width ==> hex_digit(#[trigger] hex_text(n, width)[i]),
    decreases width,
{
    if width > 0 {
        hex_text_holds_digits(n / 16, (width - 1) as nat);
    }
}

/// The first digits of a number are those of what is left of it without the
/// others.
pub proof fn leading_digits(n: nat, kept: nat, dropped: nat)
    ensures
        hex_text(n, kept + dropped).take(kept as int) == hex_text(
            (n as int / pow(16, dropped)) as nat,
            kept,
        ),
    decreases dropped,
{
    hex_text_holds_digits(n, kept + dropped);
    vstd::arithmetic::power::lemma_pow_positive(16, dropped);
    if dropped == 0 {
        vstd::arithmetic::power::lemma_pow0(16);
        assert(hex_text(n, kept).take(kept as int) =~= hex_text(n, kept));
    } else {
        let rest = (dropped - 1) as nat;
        leading_digits(n / 16, kept, rest);
        vstd::arithmetic::power::lemma_pow_positive(16, rest);
        vstd::arithmetic::div_mod::lemma_div_denominator(n as int, 16, pow(16, rest));
        assert(pow(16, dropped) == 16 * pow(16, rest)) by {
            reveal(pow);
        }
        hex_text_holds_digits(n / 16, (kept + rest) as nat);
        assert(hex_text(n, kept + dropped).take(kept as int) =~= hex_text(
            n / 16,
            (kept + rest) as nat,
        ).take(kept as int));
    }
}

/// Numbers with the same digits are the same, as long as all their digits are
/// written.
pub proof fn digits_tell_numbers_apart(a: nat, b: nat, width: nat)
    requires
        a < pow(16, width),
        b < pow(16, width),
        hex_text(a, width) == hex_text(b, width),
    ensures
        a == b,
    decreases width,
{
    if width == 0 {
        vstd::arithmetic::power::lemma_pow0(16);
    } else {
        let rest = (width - 1) as nat;
        assert(pow(16, width) == 16 * pow(16, rest)) by {
            reveal(pow);
        }
        assert(hex_text(a, width).last() == hex_char((a % 16) as int));
        assert(hex_text(b, width).last() == hex_char((b % 16) as int));
        assert(hex_text(a, width).drop_last() =~= hex_text(a / 16, rest));
        assert(hex_text(b, width).drop_last() =~= hex_text(b / 16, rest));
        digits_tell_numbers_apart(a / 16, b / 16, rest);
    }
}

/// A fresh random id, `uuid::Uuid::new_v4`. Nothing is claimed of it.
#[verifier::external_body]
pub(crate) fn random_id() -> (r: u128) {
    uuid::Uuid::new_v4().as_u128()
}

/// `uuid::Uuid::from_u128` written with `to_string`: 32 hexadecimal digits in
/// lower case, in five groups with dashes between them.
#[verifier::external_body]
pub(crate) fn uuid_string(id: u128) -> (r: String)
    ensures
        r@ == dashed_text(id),
{
    uuid::Uuid::from_u128(id).to_string()
}

/// `uuid::Uuid::from_u128` written with `simple`: 32 hexadecimal digits in lower
/// case.
#[verifier::external_body]
pub(crate) fn simple_string(id: u128) -> (r: String)
    ensures
        r@ == hex_text(id as nat, 32),
{
    uuid::Uuid::from_u128(id).simple().to_string()
}

/// An id is written as 32 digits in five groups, of eight, four, four, four and
/// twelve, with dashes between them.
pub proof fn ids_are_written_in_groups(id: u128, i: int)
    requires
        0 <= i < 36,
    ensures
        dashed_text(id).len() == 36,
        i == 8 || i == 13 || i == 18 || i == 23 ==> dashed_text(id)[i] == '-',
        i < 8 ==> dashed_text(id)[i] == hex_text(id as nat, 32)[i],
        8 < i < 13 ==> dashed_text(id)[i] == hex_text(id as nat, 32)[i - 1],
        13 < i < 18 ==> dashed_text(id)[i] == hex_text(id as nat, 32)[i - 2],
        18 < i < 23 ==> dashed_text(id)[i] == hex_text(id as nat, 32)[i - 3],
        i > 23 ==> dashed_text(id)[i] == hex_text(id as nat, 32)[i - 4],
{
    hex_text_holds_digits(id as nat, 32);
}

} // verus!
