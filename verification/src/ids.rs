//! Identifiers of web apps: the ULID that names one on disk, and the UUID that the browser knows
//! it by.

use vstd::prelude::*;

verus! {

/// The digits of Crockford's base 32.
pub open spec fn base32_digit(d: nat) -> char {
    "0123456789ABCDEFGHJKMNPQRSTVWXYZ"@[d as int]
}

/// The last `len` digits of `value` in Crockford's base 32.
pub open spec fn base32_text(value: nat, len: nat) -> Seq<char>
    decreases len,
{
    if len == 0 {
        Seq::empty()
    } else {
        base32_text(value / 32, (len - 1) as nat).push(base32_digit(value % 32))
    }
}

/// A ULID as text: its value in 26 digits of Crockford's base 32.
pub open spec fn ulid_text(id: u128) -> Seq<char> {
    base32_text(id as nat, 26)
}

/// A UUID of version 4 in the variant of RFC 4122.
pub open spec fn is_random_uuid(id: u128) -> bool {
    (id >> 76) & 0xf == 4 && (id >> 62) & 0x3 == 2
}

/// `ulid::Ulid::to_string`, on the 128 bits of the ULID. What is claimed: the text is the value in
/// 26 digits of Crockford's base 32, in upper case, with the most significant digit first.
#[verifier::external_body]
pub(crate) fn format_ulid(id: u128) -> (r: String)
    ensures
        r@ == ulid_text(id),
{
    ulid::Ulid(id).to_string()
}

/// The text of an identifier.
pub fn identifier(id: u128) -> (r: String)
    ensures
        r@ == ulid_text(id),
{
    format_ulid(id)
}

/// `ulid::Ulid::nil`, as its 128 bits. What is claimed: every bit is zero.
#[verifier::external_body]
pub(crate) fn nil_ulid() -> (r: u128)
    ensures
        r == 0,
{
    ulid::Ulid::nil().0
}

/// `uuid::Uuid::new_v4`, as its 128 bits. What is claimed: the version and variant bits are those
/// of a random UUID. The other bits come from the operating system's random numbers, and nothing
/// is claimed of them; the call panics where the system has none to give.
#[verifier::external_body]
pub(crate) fn random_uuid() -> (r: u128)
    ensures
        is_random_uuid(r),
{
    uuid::Uuid::new_v4().as_u128()
}

/// The digits of Crockford's base 32 are distinct.
proof fn lemma_base32_digits_distinct(a: nat, b: nat)
    requires
        a < 32,
        b < 32,
        base32_digit(a) == base32_digit(b),
    ensures
        a == b,
{
    reveal_strlit("0123456789ABCDEFGHJKMNPQRSTVWXYZ");
}

/// Two values that fit in `len` digits and have the same digits are the same.
proof fn lemma_base32_text_injective(a: nat, b: nat, len: nat)
    requires
        a < vstd::arithmetic::power::pow(32, len),
        b < vstd::arithmetic::power::pow(32, len),
        base32_text(a, len) == base32_text(b, len),
    ensures
        a == b,
    decreases len,
{
    reveal(vstd::arithmetic::power::pow);
    if len > 0 {
        let shorter = (len - 1) as nat;
        let s = base32_text(a / 32, shorter);
        let t = base32_text(b / 32, shorter);
        assert(s.push(base32_digit(a % 32)).last() == t.push(base32_digit(b % 32)).last());
        lemma_base32_digits_distinct(a % 32, b % 32);
        assert(s.push(base32_digit(a % 32)).drop_last() =~= s);
        assert(t.push(base32_digit(b % 32)).drop_last() =~= t);
        lemma_base32_text_injective(a / 32, b / 32, shorter);
    }
}

/// Two ULIDs with the same text are the same.
pub proof fn law_ulid_texts_distinct(a: u128, b: u128)
    requires
        ulid_text(a) == ulid_text(b),
    ensures
        a == b,
{
    reveal(vstd::arithmetic::power::pow);
    assert(vstd::arithmetic::power::pow(32, 26) > u128::MAX) by {
        reveal_with_fuel(vstd::arithmetic::power::pow, 27);
    }
    lemma_base32_text_injective(a as nat, b as nat, 26);
}

} // verus!
