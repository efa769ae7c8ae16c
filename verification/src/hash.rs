//! Parameter identifiers.
//!
//! A host addresses a parameter by a 32-bit number. That number is a hash of
//! the parameter's string identifier which depends on the identifier's bytes
//! alone, so that it is the same in every run and can be stored by the host.

use vstd::prelude::*;
use vstd::string::StringSliceAdditionalSpecFns;
use vstd::utf8::encode_utf8_decode_utf8;

verus! {

/// The string identifier of the bypass parameter that every instance adds to
/// the parameters its plugin declares.
pub const BYPASS_PARAM_ID: &'static str = "bypass";

/// The identifier of the bypass parameter, as a sequence of characters.
pub open spec fn bypass_id() -> Seq<char> {
    "bypass"@
}

/// The polynomial with multiplier 31 over the bytes, first byte in the
/// highest term, reduced modulo 2^32.
pub open spec fn fold_bytes(bytes: Seq<u8>) -> u32
    decreases bytes.len(),
{
    if bytes.len() == 0 {
        0
    } else {
        ((fold_bytes(bytes.drop_last()) * 31 + bytes.last()) % 0x1_0000_0000) as u32
    }
}

/// The identifier hash of a byte string: `fold_bytes` with the top bit
/// cleared, so that hosts which read identifiers as signed never see a
/// negative one.
pub open spec fn hash_bytes(bytes: Seq<u8>) -> u32 {
    fold_bytes(bytes) & 0x7FFF_FFFF
}

/// The identifier hash of a string: the hash of its UTF-8 encoding.
pub open spec fn hash_of(id: Seq<char>) -> u32 {
    hash_bytes(vstd::utf8::encode_utf8(id))
}

/// The hash under which the bypass parameter is known to the host.
pub open spec fn bypass_hash() -> u32 {
    hash_of(bypass_id())
}

/// Computes the 32-bit identifier of a parameter from its string identifier.
pub fn hash_param_id(id: &str) -> (h: u32)
    ensures
        h == hash_of(id@),
        h <= 0x7FFF_FFFF,
{
    let bytes = id.as_bytes();
    let mut hash: u32 = 0;
    let mut i: usize = 0;
    while i < bytes.len()
        invariant
            i <= bytes@.len(),
            hash == fold_bytes(bytes@.subrange(0, i as int)),
        decreases bytes@.len() - i,
    {
        proof {
            assert(bytes@.subrange(0, i + 1).drop_last() =~= bytes@.subrange(0, i as int));
        }
        hash = hash.wrapping_mul(31).wrapping_add(bytes[i] as u32);
        i += 1;
    }
    proof {
        assert(bytes@.subrange(0, i as int) =~= bytes@);
    }
    let h = hash & 0x7FFF_FFFF;
    assert(h <= 0x7FFF_FFFF) by (bit_vector)
        requires
            h == hash & 0x7FFF_FFFF,
    ;
    h
}

/// Computes the identifier of the bypass parameter.
pub fn bypass_param_hash() -> (h: u32)
    ensures
        h == bypass_hash(),
        h <= 0x7FFF_FFFF,
{
    hash_param_id(BYPASS_PARAM_ID)
}

/// Tells whether two byte strings are the same.
pub fn bytes_equal(x: &[u8], y: &[u8]) -> (same: bool)
    ensures
        same == (x@ == y@),
{
    if x.len() != y.len() {
        return false;
    }
    let mut i: usize = 0;
    while i < x.len()
        invariant
            i <= x@.len(),
            x@.len() == y@.len(),
            forall|j: int| 0 <= j < i ==> x@[j] == y@[j],
        decreases x@.len() - i,
    {
        if x[i] != y[i] {
            assert(x@[i as int] != y@[i as int]);
            return false;
        }
        i += 1;
    }
    proof {
        assert(x@ =~= y@);
    }
    true
}

/// Tells whether a string is the one with this UTF-8 encoding.
pub fn str_has_bytes(a: &str, bytes: &[u8]) -> (same: bool)
    ensures
        same == (a.spec_bytes() == bytes@),
{
    bytes_equal(a.as_bytes(), bytes)
}

/// Tells whether two strings hold the same characters.
pub fn str_equal(a: &str, b: &str) -> (same: bool)
    ensures
        same == (a@ == b@),
{
    proof {
        encode_utf8_decode_utf8(a@);
        encode_utf8_decode_utf8(b@);
    }
    bytes_equal(a.as_bytes(), b.as_bytes())
}

/// Tells whether a string identifier is the one reserved for the bypass
/// parameter.
pub fn is_bypass_id(id: &str) -> (reserved: bool)
    ensures
        reserved == (id@ == bypass_id()),
{
    str_equal(id, BYPASS_PARAM_ID)
}

/// Equal identifiers have equal hashes, and every hash fits in 31 bits.
pub proof fn lemma_hash_deterministic(a: Seq<char>, b: Seq<char>)
    ensures
        a == b ==> hash_of(a) == hash_of(b),
        hash_of(a) <= 0x7FFF_FFFF,
{
    let f = fold_bytes(vstd::utf8::encode_utf8(a));
    assert(f & 0x7FFF_FFFF <= 0x7FFF_FFFF) by (bit_vector);
}

/// Appending one byte to a byte string multiplies its fold by 31 and adds the
/// byte, modulo 2^32.
pub proof fn lemma_fold_push(bytes: Seq<u8>, b: u8)
    ensures
        fold_bytes(bytes.push(b)) == ((fold_bytes(bytes) * 31 + b) % 0x1_0000_0000) as u32,
        fold_bytes(Seq::<u8>::empty()) == 0,
{
    assert(bytes.push(b).drop_last() =~= bytes);
}

} // verus!
