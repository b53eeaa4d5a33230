//! Random identifiers and their text form, from the `uuid` crate.

use vstd::prelude::*;
use vstd::arithmetic::power2::pow2;

verus! {

/// The lower-case hexadecimal digit of a value below sixteen.
pub open spec fn hex_digit(n: int) -> char {
    if n < 10 {
        (('0' as int) + n) as char
    } else {
        (('a' as int) + n - 10) as char
    }
}

/// The `n`-th of the 32 hexadecimal digits of `u`, counted from the most significant.
pub open spec fn nibble(u: u128, n: int) -> int {
    ((u as int) / (pow2((4 * (31 - n)) as nat) as int)) % 16
}

/// How many hyphens the hyphenated form has before position `k`.
pub open spec fn hyphens_before(k: int) -> int {
    if k <= 8 {
        0
    } else if k <= 13 {
        1
    } else if k <= 18 {
        2
    } else if k <= 23 {
        3
    } else {
        4
    }
}

/// The hyphenated lower-case text of a UUID, 8-4-4-4-12 hexadecimal digits, most
/// significant first, such as `67e55044-10b1-426f-9247-bb680e5fe0c8`.
pub open spec fn uuid_text(u: u128) -> Seq<char> {
    Seq::new(
        36,
        |k: int|
            if k == 8 || k == 13 || k == 18 || k == 23 {
                '-'
            } else {
                hex_digit(nibble(u, k - hyphens_before(k)))
            },
    )
}

/// The four version bits of a UUID held as an integer.
pub open spec fn uuid_version(u: u128) -> int {
    ((u as int) / (pow2(76) as int)) % 16
}

/// The two variant bits of a UUID held as an integer.
pub open spec fn uuid_variant(u: u128) -> int {
    ((u as int) / (pow2(62) as int)) % 4
}

/// `uuid::Uuid::new_v4`, taken as its 128-bit value (`as_u128`).
///
/// The crate's source masks a random number so that the version bits read 4 and the
/// variant bits read `10`; this contract says that and nothing of the other 122 bits.
#[verifier::external_body]
fn new_v4_value() -> (u: u128)
    ensures
        uuid_version(u) == 4,
        uuid_variant(u) == 2,
{
    uuid::Uuid::new_v4().as_u128()
}

/// `uuid::Uuid::to_string` on the UUID whose value is `u`.
///
/// The crate's `Display` writes the hyphenated form in lower case; the contract states
/// that form digit by digit.
#[verifier::external_body]
fn uuid_to_string(u: u128) -> (r: String)
    ensures
        r@ == uuid_text(u),
{
    uuid::Uuid::from_u128(u).to_string()
}

/// Draws a fresh random (version 4) UUID and returns its value.
pub fn random_id() -> (u: u128)
    ensures
        uuid_version(u) == 4,
        uuid_variant(u) == 2,
{
    new_v4_value()
}

/// The hyphenated lower-case text of the UUID whose value is `u`.
pub fn id_text(u: u128) -> (r: String)
    ensures
        r@ == uuid_text(u),
        r@.len() == 36,
{
    uuid_to_string(u)
}

/// Draws a fresh random UUID and returns its text.
pub fn random_id_text() -> (r: String)
    ensures
        exists|u: u128| uuid_version(u) == 4 && uuid_variant(u) == 2 && r@ == uuid_text(u),
{
    let u = new_v4_value();
    uuid_to_string(u)
}

} // verus!
