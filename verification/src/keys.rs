//! Public keys in the two encodings that output scripts use.

use vstd::prelude::*;

verus! {

/// Whether `secp256k1::PublicKey::from_slice` reads the bytes as a public
/// key. Of 33 bytes it reads the compressed form: a tag for the parity of y,
/// then the x coordinate of a point of the curve.
pub uninterp spec fn is_compressed_key(bytes: Seq<u8>) -> bool;

/// Whether `secp256k1::XOnlyPublicKey::from_slice` reads the bytes as a
/// public key: 32 bytes that are the x coordinate of a point of the curve.
pub uninterp spec fn is_xonly_key(bytes: Seq<u8>) -> bool;

/// Calls `secp256k1::PublicKey::from_slice` on the 33 bytes and tells
/// whether it gave a key. The call reads nothing but the bytes, so the
/// answer is a function of them, which `is_compressed_key` names.
#[verifier::external_body]
fn parses_as_compressed_key(bytes: &[u8; 33]) -> (ok: bool)
    ensures
        ok == is_compressed_key(bytes@),
{
    secp256k1::PublicKey::from_slice(bytes).is_ok()
}

/// Calls `secp256k1::XOnlyPublicKey::from_slice` on the 32 bytes and tells
/// whether it gave a key. The call reads nothing but the bytes, so the
/// answer is a function of them, which `is_xonly_key` names.
#[verifier::external_body]
fn parses_as_xonly_key(bytes: &[u8; 32]) -> (ok: bool)
    ensures
        ok == is_xonly_key(bytes@),
{
    secp256k1::XOnlyPublicKey::from_slice(bytes).is_ok()
}

/// A public key in compressed form, as witness version 0 scripts use it.
///
/// Every value holds bytes that secp256k1 reads as a key.
#[derive(Clone, Copy, Debug, PartialEq, Eq, Hash)]
pub struct CompressedPk {
    bytes: [u8; 33],
}

/// A public key as its x coordinate alone, as taproot scripts use it.
///
/// Every value holds bytes that secp256k1 reads as a key.
#[derive(Clone, Copy, Debug, PartialEq, Eq, Hash)]
pub struct XOnlyPk {
    bytes: [u8; 32],
}

impl View for CompressedPk {
    type V = Seq<u8>;

    closed spec fn view(&self) -> Seq<u8> {
        self.bytes@
    }
}

impl View for XOnlyPk {
    type V = Seq<u8>;

    closed spec fn view(&self) -> Seq<u8> {
        self.bytes@
    }
}

impl CompressedPk {
    #[verifier::type_invariant]
    spec fn is_key(self) -> bool {
        is_compressed_key(self.bytes@)
    }

    /// The key that the bytes encode, if they encode one.
    pub fn from_bytes(bytes: [u8; 33]) -> (key: Option<CompressedPk>)
        ensures
            key is Some <==> is_compressed_key(bytes@),
            key matches Some(k) ==> k@ == bytes@,
    {
        if parses_as_compressed_key(&bytes) {
            Some(CompressedPk { bytes })
        } else {
            None
        }
    }

    /// The encoding of the key.
    pub fn to_bytes(&self) -> (bytes: [u8; 33])
        ensures
            bytes@ == self@,
            is_compressed_key(bytes@),
    {
        proof {
            use_type_invariant(self);
        }
        self.bytes
    }
}

impl XOnlyPk {
    #[verifier::type_invariant]
    spec fn is_key(self) -> bool {
        is_xonly_key(self.bytes@)
    }

    /// The key that the bytes encode, if they encode one.
    pub fn from_bytes(bytes: [u8; 32]) -> (key: Option<XOnlyPk>)
        ensures
            key is Some <==> is_xonly_key(bytes@),
            key matches Some(k) ==> k@ == bytes@,
    {
        if parses_as_xonly_key(&bytes) {
            Some(XOnlyPk { bytes })
        } else {
            None
        }
    }

    /// The encoding of the key.
    pub fn to_bytes(&self) -> (bytes: [u8; 32])
        ensures
            bytes@ == self@,
            is_xonly_key(bytes@),
    {
        proof {
            use_type_invariant(self);
        }
        self.bytes
    }
}

/// A compressed key is its encoding: two keys with the same bytes are the
/// same key, and every encoding has 33 bytes.
pub proof fn lemma_compressed_key_is_its_bytes(a: CompressedPk, b: CompressedPk)
    ensures
        a@.len() == 33,
        a@ == b@ <==> a == b,
{
    if a@ == b@ {
        assert(a.bytes == b.bytes);
    }
}

/// An x-only key is its encoding: two keys with the same bytes are the same
/// key, and every encoding has 32 bytes.
pub proof fn lemma_xonly_key_is_its_bytes(a: XOnlyPk, b: XOnlyPk)
    ensures
        a@.len() == 32,
        a@ == b@ <==> a == b,
{
    if a@ == b@ {
        assert(a.bytes == b.bytes);
    }
}

} // verus!
