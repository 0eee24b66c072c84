use parity_scale_codec::Encode;
use vstd::prelude::*;
use vstd::string::StringSliceAdditionalSpecFns;

verus! {

/// The `n` least significant base-256 digits of `value`, least significant first.
pub open spec fn le_bytes(value: nat, n: nat) -> Seq<u8>
    decreases n,
{
    if n == 0 {
        seq![]
    } else {
        seq![(value % 256) as u8] + le_bytes(value / 256, (n - 1) as nat)
    }
}

/// The number whose base-256 digits, least significant first, are `bytes`.
pub open spec fn le_value(bytes: Seq<u8>) -> nat
    decreases bytes.len(),
{
    if bytes.len() == 0 {
        0
    } else {
        bytes[0] as nat + 256 * le_value(bytes.drop_first())
    }
}

/// SCALE's compact encoding of a collection length `n` (at most `u32::MAX`).
pub open spec fn compact_prefix(n: nat) -> Seq<u8> {
    if n < 64 {
        seq![(n * 4) as u8]
    } else if n < 16384 {
        le_bytes(n * 4 + 1, 2)
    } else if n < 1073741824 {
        le_bytes(n * 4 + 2, 4)
    } else {
        seq![3u8] + le_bytes(n, 4)
    }
}

/// SCALE encoding of a byte string: its compact length, then the bytes.
pub open spec fn scale_bytes(bytes: Seq<u8>) -> Seq<u8> {
    compact_prefix(bytes.len()) + bytes
}

/// `parity_scale_codec::Encode::encode` on a `u128`: the contract states that the
/// codec writes the sixteen little-endian bytes of the value.
#[verifier::external_body]
pub(crate) fn encode_balance(value: u128) -> (encoded: Vec<u8>)
    ensures
        encoded@ == le_bytes(value as nat, 16),
{
    value.encode()
}

/// `parity_scale_codec::Encode::encode` on a `[u8; 32]` account id: the contract
/// states that a fixed-size byte array is written as its bytes, with no length.
#[verifier::external_body]
pub(crate) fn encode_account(account: &[u8; 32]) -> (encoded: Vec<u8>)
    ensures
        encoded@ == account@,
{
    account.encode()
}

/// `parity_scale_codec::Encode::encode` on a `str`: the contract states that the
/// codec writes the compact length of the UTF-8 bytes and then the bytes. The codec
/// panics on a string longer than `u32::MAX` bytes, which `requires` leaves out.
#[verifier::external_body]
pub(crate) fn encode_text(text: &str) -> (encoded: Vec<u8>)
    requires
        text.spec_bytes().len() <= u32::MAX,
    ensures
        encoded@ == scale_bytes(text.spec_bytes()),
{
    text.encode()
}

/// Writing `n` little-endian digits takes `n` bytes, whatever the value.
pub proof fn lemma_le_bytes_len(value: nat, n: nat)
    ensures
        le_bytes(value, n).len() == n,
    decreases n,
{
    if n > 0 {
        lemma_le_bytes_len(value / 256, (n - 1) as nat);
    }
}

/// `256^n`: one more than the largest number that `n` bytes can hold.
pub open spec fn radix(n: nat) -> nat
    decreases n,
{
    if n == 0 {
        1
    } else {
        256 * radix((n - 1) as nat)
    }
}

/// Reading back the little-endian digits gives the value modulo `256^n`.
pub proof fn lemma_le_roundtrip(value: nat, n: nat)
    ensures
        le_value(le_bytes(value, n)) == value % radix(n),
    decreases n,
{
    if n == 0 {
    } else {
        let p = radix((n - 1) as nat);
        lemma_radix_positive((n - 1) as nat);
        lemma_le_roundtrip(value / 256, (n - 1) as nat);
        assert(le_bytes(value, n).drop_first() =~= le_bytes(value / 256, (n - 1) as nat));
        vstd::arithmetic::div_mod::lemma_breakdown(value as int, 256, p as int);
    }
}

/// `256^n` is positive.
pub proof fn lemma_radix_positive(n: nat)
    ensures
        radix(n) > 0,
    decreases n,
{
    if n > 0 {
        lemma_radix_positive((n - 1) as nat);
    }
}

} // verus!
