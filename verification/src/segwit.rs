//! Descriptors of witness version 0 outputs.

use crate::class::SpkClass;
use crate::derive::{Derive, DeriveCompr, DerivedScript};
use crate::descriptor::Descriptor;
use crate::keys::{CompressedPk, XOnlyPk};
use crate::keyset::{single_compr_keyset, xonly_keyset_new, xonly_keyset_view};
use crate::origin::{KeyOrigin, OriginModel, TapDerivation, TapDerivationModel, XpubSpec};
use crate::path::{Keychain, NormalIndex, Terminal};
use indexmap::IndexMap;
use std::collections::BTreeSet;
use vstd::prelude::*;

verus! {

/// Pay to the hash of one compressed key, in a witness version 0 output.
#[derive(Clone, Debug, PartialEq, Eq, Hash)]
pub struct Wpkh<K: DeriveCompr> {
    /// The key that the keys of the outputs are derived from.
    pub key: K,
    /// The extended key behind `key`.
    pub xpub: XpubSpec,
}

impl<K: DeriveCompr> Wpkh<K> {
    /// The descriptor of the key `key`, which comes from the extended key
    /// `xpub`.
    pub fn new(key: K, xpub: XpubSpec) -> (descriptor: Wpkh<K>)
        ensures
            descriptor.key == key,
            descriptor.xpub == xpub,
    {
        Wpkh { key, xpub }
    }
}

impl<K: DeriveCompr> Derive<DerivedScript> for Wpkh<K> {
    open spec fn spec_default_keychain(&self) -> Keychain {
        self.key.spec_default_keychain()
    }

    open spec fn spec_keychains(&self) -> BTreeSet<Keychain> {
        self.key.spec_keychains()
    }

    open spec fn spec_derive(&self, keychain: Keychain, index: NormalIndex) -> DerivedScript {
        DerivedScript::WitnessKeyHash(self.key.spec_derive(keychain, index))
    }

    fn default_keychain(&self) -> (keychain: Keychain) {
        self.key.default_keychain()
    }

    fn keychains(&self) -> (keychains: BTreeSet<Keychain>) {
        self.key.keychains()
    }

    fn derive(&self, keychain: Keychain, index: NormalIndex) -> (derived: DerivedScript) {
        DerivedScript::WitnessKeyHash(self.key.derive(keychain, index))
    }
}

impl<K: DeriveCompr> Descriptor<K> for Wpkh<K> {
    open spec fn spec_class(&self) -> SpkClass {
        SpkClass::P2wpkh
    }

    open spec fn spec_keys(&self) -> Seq<K> {
        seq![self.key]
    }

    open spec fn spec_vars(&self) -> Seq<()> {
        Seq::empty()
    }

    open spec fn spec_xpubs(&self) -> Seq<XpubSpec> {
        seq![self.xpub]
    }

    open spec fn spec_compr_keyset(&self, terminal: Terminal) -> Seq<(CompressedPk, OriginModel)> {
        seq![
            (
                self.key.spec_derive(terminal.keychain, terminal.index),
                self.xpub.origin@.extended(terminal),
            ),
        ]
    }

    open spec fn spec_xonly_keyset(&self, terminal: Terminal) -> Seq<
        (XOnlyPk, TapDerivationModel),
    > {
        Seq::empty()
    }

    fn class(&self) -> (class: SpkClass) {
        SpkClass::P2wpkh
    }

    fn keys(&self) -> (keys: Vec<&K>) {
        let mut keys: Vec<&K> = Vec::new();
        keys.push(&self.key);
        keys
    }

    fn vars(&self) -> (vars: Vec<&()>) {
        Vec::new()
    }

    fn xpubs(&self) -> (xpubs: Vec<&XpubSpec>) {
        let mut xpubs: Vec<&XpubSpec> = Vec::new();
        xpubs.push(&self.xpub);
        xpubs
    }

    fn compr_keyset(&self, terminal: Terminal) -> (map: IndexMap<CompressedPk, KeyOrigin>) {
        let key = self.key.derive(terminal.keychain, terminal.index);
        single_compr_keyset(key, KeyOrigin::with(&self.xpub.origin, terminal))
    }

    fn xonly_keyset(&self, terminal: Terminal) -> (map: IndexMap<XOnlyPk, TapDerivation>) {
        let map = xonly_keyset_new();
        assert(xonly_keyset_view(map) =~= Seq::<(XOnlyPk, TapDerivationModel)>::empty());
        map
    }
}

} // verus!
