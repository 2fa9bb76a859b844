//! Fresh identifiers.

use vstd::prelude::*;

verus! {

/// The character that stands for a value below sixteen in lower-case hexadecimal.
pub open spec fn hex_char(value: int) -> char {
    "0123456789abcdef"@[value]
}

/// How many hyphens stand before position `i` of an identifier's text.
pub open spec fn hyphens_before(i: int) -> int {
    (if i > 8 { 1int } else { 0 }) + (if i > 13 { 1int } else { 0 })
        + (if i > 18 { 1int } else { 0 }) + (if i > 23 { 1int } else { 0 })
}

/// The `k`-th of the 32 hexadecimal digits of `id`, the most significant first.
pub open spec fn hex_digit(id: u128, k: int) -> int {
    (id as int / vstd::arithmetic::power::pow(16, (31 - k) as nat)) % 16
}

/// The text of an identifier: its 32 lower-case hexadecimal digits, most
/// significant first, in groups of 8, 4, 4, 4 and 12 with a hyphen between
/// two groups.
pub open spec fn id_text(id: u128) -> Seq<char> {
    Seq::new(
        36,
        |i: int|
            if i == 8 || i == 13 || i == 18 || i == 23 {
                '-'
            } else {
                hex_char(hex_digit(id, i - hyphens_before(i)))
            },
    )
}

/// The six bits of an identifier that tell how it was made: its version and
/// its variant.
pub const VERSION_AND_VARIANT: u128 = 0x0000_0000_0000_f000_c000_0000_0000_0000;

/// What the bits under `VERSION_AND_VARIANT` are in an identifier that was
/// drawn at random.
pub const RANDOM: u128 = 0x0000_0000_0000_4000_8000_0000_0000_0000;

/// Whether an identifier is marked as drawn at random.
pub open spec fn is_random(id: u128) -> bool {
    id & VERSION_AND_VARIANT == RANDOM
}

/// `uuid::Uuid::new_v4`, as the 128-bit number that `Uuid::as_u128` gives: an
/// identifier whose bits are drawn at random, but for the six that mark it as
/// drawn at random.
#[verifier::external_body]
pub fn make_id() -> (id: u128)
    ensures
        is_random(id),
{
    uuid::Uuid::new_v4().as_u128()
}

/// `uuid::Uuid::from_u128` and the `Display` of `uuid::Uuid`: the hyphenated
/// lower-case text of the identifier.
#[verifier::external_body]
pub(crate) fn id_string(id: u128) -> (text: String)
    ensures
        text@ == id_text(id),
{
    uuid::Uuid::from_u128(id).to_string()
}

/// The text of a fresh random identifier.
pub fn make_id_string() -> (text: String)
    ensures
        exists|id: u128| is_random(id) && text@ == id_text(id),
        text@.len() == 36,
{
    let id: u128 = make_id();
    id_string(id)
}

/// The character that stands for a value below ten.
pub open spec fn digit_char(value: int) -> char {
    "0123456789"@[value]
}

/// The decimal text of a number: its digits, most significant first, without
/// leading zeros, and `0` for zero.
pub open spec fn decimal(n: nat) -> Seq<char>
    decreases n,
{
    if n < 10 {
        seq![digit_char(n as int)]
    } else {
        decimal(n / 10).push(digit_char((n % 10) as int))
    }
}

/// The text of a digit.
fn digit_str(digit: u32) -> (text: &'static str)
    requires
        digit < 10,
    ensures
        text@ == seq![digit_char(digit as int)],
{
    proof {
        reveal_strlit("0123456789");
        reveal_strlit("0");
        reveal_strlit("1");
        reveal_strlit("2");
        reveal_strlit("3");
        reveal_strlit("4");
        reveal_strlit("5");
        reveal_strlit("6");
        reveal_strlit("7");
        reveal_strlit("8");
        reveal_strlit("9");
    }
    let text = match digit {
        0 => "0",
        1 => "1",
        2 => "2",
        3 => "3",
        4 => "4",
        5 => "5",
        6 => "6",
        7 => "7",
        8 => "8",
        _ => "9",
    };
    text
}

/// The decimal text of a number.
pub fn decimal_string(n: u32) -> (text: String)
    ensures
        text@ == decimal(n as nat),
    decreases n,
{
    if n < 10 {
        digit_str(n).to_owned()
    } else {
        let mut text = decimal_string(n / 10);
        text.append(digit_str(n % 10));
        text
    }
}

} // verus!
