use vstd::prelude::*;
use vstd::string::{StrSliceExecFns, StringExecFns};

verus! {

/// The lowercase hexadecimal digit for a value below 16.
pub open spec fn hex_digit(d: nat) -> char {
    if d < 10 {
        (('0' as nat) + d) as char
    } else {
        (('a' as nat) + (d - 10)) as char
    }
}

/// The last `n` hexadecimal digits of `v`, most significant first.
pub open spec fn hex_digits(v: nat, n: nat) -> Seq<char>
    decreases n,
{
    if n == 0 {
        Seq::empty()
    } else {
        hex_digits(v / 16, (n - 1) as nat).push(hex_digit(v % 16))
    }
}

pub open spec fn is_lower_hex_char(c: char) -> bool {
    ('0' <= c && c <= '9') || ('a' <= c && c <= 'f')
}

/// A vault identifier: sixteen lowercase hexadecimal characters.
pub open spec fn is_vault_id(s: Seq<char>) -> bool {
    s.len() == 16 && forall|i: int| 0 <= i < s.len() ==> is_lower_hex_char(#[trigger] s[i])
}

/// The identifier derived from a 128-bit value: the first sixteen of its
/// thirty-two hexadecimal digits.
pub open spec fn vault_id_of(u: u128) -> Seq<char> {
    hex_digits(u as nat, 32).subrange(0, 16)
}

/// Every digit rendered by `hex_digits` is a lowercase hexadecimal character,
/// and there are exactly `n` of them.
pub proof fn lemma_hex_digits_are_lower_hex(v: nat, n: nat)
    ensures
        hex_digits(v, n).len() == n,
        forall|i: int| 0 <= i < n ==> is_lower_hex_char(#[trigger] hex_digits(v, n)[i]),
    decreases n,
{
    if n > 0 {
        lemma_hex_digits_are_lower_hex(v / 16, (n - 1) as nat);
        let d = v % 16;
        assert(is_lower_hex_char(hex_digit(d)));
    }
}

/// Relies on uuid's `Uuid::new_v4`: a random value whose version nibble is 4
/// and whose variant bits are `10`, returned through `Uuid::as_u128`.
#[verifier::external_body]
fn random_uuid() -> (r: u128)
    ensures
        (r >> 76u128) & 0xfu128 == 4,
        (r >> 62u128) & 0x3u128 == 2,
{
    uuid::Uuid::new_v4().as_u128()
}

/// Relies on uuid's simple formatter (`Uuid::from_u128`, then `as_simple` and
/// `to_string`): the 32 lowercase hexadecimal digits of the value, most
/// significant first.
#[verifier::external_body]
fn uuid_simple_hex(u: u128) -> (r: String)
    ensures
        r@ == hex_digits(u as nat, 32),
{
    uuid::Uuid::from_u128(u).as_simple().to_string()
}

/// The vault identifier for the 128-bit value `u`: the first sixteen
/// characters of its simple hexadecimal form.
pub fn vault_id_from_uuid(u: u128) -> (r: String)
    ensures
        r@ == vault_id_of(u),
        is_vault_id(r@),
{
    let hex = uuid_simple_hex(u);
    proof {
        lemma_hex_digits_are_lower_hex(u as nat, 32);
    }
    let head = hex.as_str().substring_char(0, 16);
    let r = String::from_str(head);
    assert forall|i: int| 0 <= i < r@.len() implies is_lower_hex_char(#[trigger] r@[i]) by {
        assert(r@[i] == hex@[i]);
    }
    r
}

/// A fresh vault identifier drawn from a random version-4 UUID. Collisions
/// with existing identifiers are not checked.
pub fn generate_vault_id() -> (r: String)
    ensures
        is_vault_id(r@),
{
    let u = random_uuid();
    vault_id_from_uuid(u)
}

} // verus!
