//! Descriptors of taproot outputs.

use crate::class::SpkClass;
use crate::derive::{Derive, DeriveXOnly, DerivedScript};
use crate::descriptor::Descriptor;
use crate::keys::{CompressedPk, XOnlyPk};
use crate::keyset::{compr_keyset_new, compr_keyset_view, single_xonly_keyset};
use crate::origin::{KeyOrigin, OriginModel, TapDerivation, TapDerivationModel, XpubSpec};
use crate::path::{Keychain, NormalIndex, Terminal};
use indexmap::IndexMap;
use std::collections::BTreeSet;
use vstd::prelude::*;

verus! {

/// Taproot with one internal key and no script tree: only the key spends.
#[derive(Clone, Debug, PartialEq, Eq, Hash)]
pub struct TrKey<K: DeriveXOnly> {
    /// The key that the internal keys of the outputs are derived from.
    pub key: K,
    /// The extended key behind `key`.
    pub xpub: XpubSpec,
}

impl<K: DeriveXOnly> TrKey<K> {
    /// The descriptor of the key `key`, which comes from the extended key
    /// `xpub`.
    pub fn new(key: K, xpub: XpubSpec) -> (descriptor: TrKey<K>)
        ensures
            descriptor.key == key,
            descriptor.xpub == xpub,
    {
        TrKey { key, xpub }
    }
}

impl<K: DeriveXOnly> Derive<DerivedScript> for TrKey<K> {
    open spec fn spec_default_keychain(&self) -> Keychain {
        self.key.spec_default_keychain()
    }

    open spec fn spec_keychains(&self) -> BTreeSet<Keychain> {
        self.key.spec_keychains()
    }

    open spec fn spec_derive(&self, keychain: Keychain, index: NormalIndex) -> DerivedScript {
        DerivedScript::TaprootKeyOnly(self.key.spec_derive(keychain, index))
    }

    fn default_keychain(&self) -> (keychain: Keychain) {
        self.key.default_keychain()
    }

    fn keychains(&self) -> (keychains: BTreeSet<Keychain>) {
        self.key.keychains()
    }

    fn derive(&self, keychain: Keychain, index: NormalIndex) -> (derived: DerivedScript) {
        DerivedScript::TaprootKeyOnly(self.key.derive(keychain, index))
    }
}

impl<K: DeriveXOnly> Descriptor<K> for TrKey<K> {
    open spec fn spec_class(&self) -> SpkClass {
        SpkClass::P2tr
    }

    open spec fn spec_keys(&self) -> Seq<K> {
        seq![self.key]
    }

    open spec fn spec_vars(&self) -> Seq<()> {
        Seq::empty()
    }

    open spec fn spec_xpubs(&self) -> Seq<XpubSpec> {
        seq![self.xpub]
    }

    open spec fn spec_compr_keyset(&self, terminal: Terminal) -> Seq<(CompressedPk, OriginModel)> {
        Seq::empty()
    }

    open spec fn spec_xonly_keyset(&self, terminal: Terminal) -> Seq<
        (XOnlyPk, TapDerivationModel),
    > {
        seq![
            (
                self.key.spec_derive(terminal.keychain, terminal.index),
                TapDerivationModel {
                    leaf_hashes: Seq::empty(),
                    origin: self.xpub.origin@.extended(terminal),
                },
            ),
        ]
    }

    fn class(&self) -> (class: SpkClass) {
        SpkClass::P2tr
    }

    fn keys(&self) -> (keys: Vec<&K>) {
        let mut keys: Vec<&K> = Vec::new();
        keys.push(&self.key);
        keys
    }

    fn vars(&self) -> (vars: Vec<&()>) {
        Vec::new()
    }

    fn xpubs(&self) -> (xpubs: Vec<&XpubSpec>) {
        let mut xpubs: Vec<&XpubSpec> = Vec::new();
        xpubs.push(&self.xpub);
        xpubs
    }

    fn compr_keyset(&self, terminal: Terminal) -> (map: IndexMap<CompressedPk, KeyOrigin>) {
        let map = compr_keyset_new();
        assert(compr_keyset_view(map) =~= Seq::<(CompressedPk, OriginModel)>::empty());
        map
    }

    fn xonly_keyset(&self, terminal: Terminal) -> (map: IndexMap<XOnlyPk, TapDerivation>) {
        let key = self.key.derive(terminal.keychain, terminal.index);
        single_xonly_keyset(key, TapDerivation::with_internal_pk(&self.xpub.origin, terminal))
    }
}

} // verus!
