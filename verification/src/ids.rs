//! UUIDs, held as their 128-bit value, through the uuid crate.

use crate::digest::hex_digit;
use vstd::prelude::*;

verus! {

/// The last `n` lowercase hex digits of `x`, most significant first.
pub open spec fn hex_digits(x: nat, n: nat) -> Seq<char>
    decreases n,
{
    if n == 0 {
        Seq::empty()
    } else {
        hex_digits(x / 16, (n - 1) as nat).push(hex_digit((x % 16) as int))
    }
}

/// The hyphenated lowercase text of a UUID: its 32 hex digits in groups of
/// 8, 4, 4, 4 and 12.
pub open spec fn uuid_text_of(id: u128) -> Seq<char> {
    let h = hex_digits(id as nat, 32);
    h.subrange(0, 8) + "-"@ + h.subrange(8, 12) + "-"@ + h.subrange(12, 16) + "-"@ + h.subrange(16, 20) + "-"@ + h.subrange(20, 32)
}

/// uuid `Uuid::from_u128` (big-endian bytes) followed by its `Display`, the
/// hyphenated lowercase form: [`uuid_text_of`].
#[verifier::external_body]
pub fn uuid_text(id: u128) -> (r: String)
    ensures
        r@ == uuid_text_of(id),
{
    uuid::Uuid::from_u128(id).to_string()
}

/// uuid `Uuid::new_v4` as its 128-bit value: random bits with the version
/// nibble set to 4 and the variant bits to `10`, as the crate's source sets
/// them. Nothing else is claimed: the rest is random.
#[verifier::external_body]
pub fn new_v4() -> (r: u128)
    ensures
        r & 0xF000C000000000000000u128 == 0x40008000000000000000u128,
{
    uuid::Uuid::new_v4().as_u128()
}

/// The name-based (version 5) UUID the uuid crate derives from the UTF-8
/// bytes of `name` in the DNS namespace.
pub uninterp spec fn uuid_v5_of(name: Seq<char>) -> u128;

/// uuid `Uuid::new_v5(&Uuid::NAMESPACE_DNS, name.as_bytes())` as its 128-bit value: the
/// SHA-1 of the namespace and the name with the version and variant set;
/// named by [`uuid_v5_of`].
#[verifier::external_body]
pub fn uuid_v5_dns(name: &str) -> (r: u128)
    ensures
        r == uuid_v5_of(name@),
{
    uuid::Uuid::new_v5(&uuid::Uuid::NAMESPACE_DNS, name.as_bytes()).as_u128()
}

} // verus!
