//! The text form of record identifiers (UUIDs).
use vstd::prelude::*;
use vstd::arithmetic::power::pow;

verus! {

/// A lower-case hexadecimal digit.
pub open spec fn hex_digit(n: nat) -> char {
    if n < 10 {
        (n + 48) as char
    } else {
        (n - 10 + 97) as char
    }
}

/// The `k`-th of the 32 hexadecimal digits of `u`, counted from the most
/// significant one.
pub open spec fn nibble(u: nat, k: nat) -> nat {
    ((u as int / pow(16, (31 - k) as nat)) % 16) as nat
}

/// The number of hyphens before position `i` of the hyphenated form.
pub open spec fn hyphens_before(i: int) -> int {
    if i < 8 {
        0
    } else if i < 13 {
        1
    } else if i < 18 {
        2
    } else if i < 23 {
        3
    } else {
        4
    }
}

/// The hyphenated form of a UUID: its 32 lower-case hexadecimal digits, most
/// significant first, in groups of 8, 4, 4, 4 and 12 joined by `-`.
pub open spec fn hyphenated(u: u128) -> Seq<char> {
    Seq::new(
        36,
        |i: int|
            if i == 8 || i == 13 || i == 18 || i == 23 {
                '-'
            } else {
                hex_digit(nibble(u as nat, (i - hyphens_before(i)) as nat))
            },
    )
}

/// `uuid::Uuid::from_u128(u).to_string()`: the UUID whose 128 bits, most
/// significant first, are `u`, in the hyphenated lower-case form that its
/// `Display` prints.
#[verifier::external_body]
pub(crate) fn uuid_string(u: u128) -> (r: String)
    ensures
        r@ == hyphenated(u),
{
    uuid::Uuid::from_u128(u).to_string()
}

} // verus!
