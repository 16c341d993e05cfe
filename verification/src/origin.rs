//! Where a key comes from: the extended key behind it and the path that
//! leads from the master key down to it.

use crate::keys::CompressedPk;
use crate::path::{Terminal, HARDENED_START};
use vstd::prelude::*;

verus! {

/// The origin of a key as a value of mathematics: the fingerprint of the
/// master key and the child numbers of the path from it.
pub struct OriginModel {
    pub master_fp: [u8; 4],
    pub derivation: Seq<u32>,
}

impl OriginModel {
    /// The origin of the key that `terminal` selects below this one: the
    /// same master key, and the path longer by the two steps of the terminal.
    pub open spec fn extended(self, terminal: Terminal) -> OriginModel {
        OriginModel {
            master_fp: self.master_fp,
            derivation: self.derivation + terminal.steps(),
        }
    }
}

/// The origin of an extended key: the fingerprint of its master key and the
/// child numbers of the path from the master key to it.
#[derive(Clone, Debug, PartialEq, Eq, Hash)]
pub struct XpubOrigin {
    pub master_fp: [u8; 4],
    pub derivation: Vec<u32>,
}

/// An extended public key: a public key and the chain code that derives its
/// children.
#[derive(Clone, Copy, Debug, PartialEq, Eq, Hash)]
pub struct Xpub {
    pub public_key: CompressedPk,
    pub chain_code: [u8; 32],
}

/// An extended key together with its origin.
#[derive(Clone, Debug, PartialEq, Eq, Hash)]
pub struct XpubSpec {
    pub origin: XpubOrigin,
    pub xpub: Xpub,
}

/// The origin of a derived key: the fingerprint of the master key and the
/// whole path from it to the key.
#[derive(Clone, Debug, PartialEq, Eq, Hash)]
pub struct KeyOrigin {
    pub master_fp: [u8; 4],
    pub derivation: Vec<u32>,
}

/// The origin of a key of a taproot output, with the hashes of the script
/// leaves that the key signs for. The internal key signs for none.
#[derive(Clone, Debug, PartialEq, Eq, Hash)]
pub struct TapDerivation {
    pub leaf_hashes: Vec<[u8; 32]>,
    pub origin: KeyOrigin,
}

/// A taproot derivation as a value of mathematics.
pub struct TapDerivationModel {
    pub leaf_hashes: Seq<[u8; 32]>,
    pub origin: OriginModel,
}

impl View for XpubOrigin {
    type V = OriginModel;

    open spec fn view(&self) -> OriginModel {
        OriginModel { master_fp: self.master_fp, derivation: self.derivation@ }
    }
}

impl View for KeyOrigin {
    type V = OriginModel;

    open spec fn view(&self) -> OriginModel {
        OriginModel { master_fp: self.master_fp, derivation: self.derivation@ }
    }
}

impl View for TapDerivation {
    type V = TapDerivationModel;

    open spec fn view(&self) -> TapDerivationModel {
        TapDerivationModel { leaf_hashes: self.leaf_hashes@, origin: self.origin@ }
    }
}

impl KeyOrigin {
    /// The origin of the key that `terminal` selects below the extended key
    /// of origin `xpub_origin`.
    pub fn with(xpub_origin: &XpubOrigin, terminal: Terminal) -> (origin: KeyOrigin)
        ensures
            origin@ == xpub_origin@.extended(terminal),
    {
        let mut derivation: Vec<u32> = xpub_origin.derivation.clone();
        derivation.push(terminal.keychain.to_index().to_child_number());
        derivation.push(terminal.index.to_child_number());
        assert(derivation@ =~= xpub_origin.derivation@ + terminal.steps());
        KeyOrigin { master_fp: xpub_origin.master_fp, derivation }
    }
}

impl TapDerivation {
    /// The derivation of the internal key that `terminal` selects below the
    /// extended key of origin `xpub_origin`: no leaf hashes, and the origin
    /// that [`KeyOrigin::with`] gives.
    pub fn with_internal_pk(xpub_origin: &XpubOrigin, terminal: Terminal) -> (derivation:
        TapDerivation)
        ensures
            derivation@.leaf_hashes == Seq::<[u8; 32]>::empty(),
            derivation@.origin == xpub_origin@.extended(terminal),
    {
        TapDerivation { leaf_hashes: Vec::new(), origin: KeyOrigin::with(xpub_origin, terminal) }
    }
}

/// Extending an origin by a terminal keeps the master key and the path so
/// far, and adds two steps: the keychain, then the index. The step of the
/// keychain is unhardened.
pub proof fn lemma_extended_origin(origin: OriginModel, terminal: Terminal)
    ensures
        origin.extended(terminal).master_fp == origin.master_fp,
        origin.extended(terminal).derivation == origin.derivation.push(
            terminal.keychain.child_number(),
        ).push(terminal.index.child_number()),
        origin.derivation.is_prefix_of(origin.extended(terminal).derivation),
        terminal.keychain.child_number() < HARDENED_START,
{
}

/// Two terminals give the same origin below one extended key only if they
/// are the same terminal.
pub proof fn lemma_extended_origin_is_injective(origin: OriginModel, a: Terminal, b: Terminal)
    ensures
        origin.extended(a) == origin.extended(b) <==> a == b,
{
    if origin.extended(a) == origin.extended(b) {
        let n = origin.derivation.len() as int;
        assert(origin.extended(a).derivation[n] == a.keychain.child_number());
        assert(origin.extended(b).derivation[n] == b.keychain.child_number());
        assert(origin.extended(a).derivation[n + 1] == a.index.child_number());
        assert(origin.extended(b).derivation[n + 1] == b.index.child_number());
        crate::path::lemma_index_by_child_number(a.index, b.index);
    }
}

} // verus!
