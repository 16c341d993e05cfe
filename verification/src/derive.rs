//! What a key must be able to do for a descriptor to use it.

use crate::class::SpkClass;
use crate::keys::{CompressedPk, XOnlyPk};
use crate::path::{Keychain, NormalIndex};
use std::collections::BTreeSet;
use vstd::prelude::*;

verus! {

/// Derivation along the last two steps of a path: a keychain, then an index
/// on it.
///
/// Derivation is a function of the receiver and the two steps:
/// `spec_derive` is that function, and `derive` computes it. The same holds
/// of the keychains that the receiver supports.
pub trait Derive<D> {
    /// The keychain that is used where none is named.
    spec fn spec_default_keychain(&self) -> Keychain;

    /// The keychains that the receiver supports.
    spec fn spec_keychains(&self) -> BTreeSet<Keychain>;

    /// What derivation at `keychain` and `index` gives.
    spec fn spec_derive(&self, keychain: Keychain, index: NormalIndex) -> D;

    /// The keychain that is used where none is named.
    fn default_keychain(&self) -> (keychain: Keychain)
        ensures
            keychain == self.spec_default_keychain(),
    ;

    /// The keychains that the receiver supports.
    fn keychains(&self) -> (keychains: BTreeSet<Keychain>)
        ensures
            keychains@ == self.spec_keychains()@,
    ;

    /// Derives at `keychain` and `index`. The receiver is left as it was,
    /// and the same steps always give the same result.
    fn derive(&self, keychain: Keychain, index: NormalIndex) -> (derived: D)
        ensures
            derived == self.spec_derive(keychain, index),
    ;
}

/// A key whose derivation gives public keys in compressed form.
pub trait DeriveCompr: Derive<CompressedPk> {

}

/// A key whose derivation gives x-only public keys.
pub trait DeriveXOnly: Derive<XOnlyPk> {

}

/// The kinds of key that the descriptors of one wallet are made of, one for
/// each form of public key that a script may ask for.
pub trait DeriveSet {
    /// The kind of key behind scripts from before segregated witness. No
    /// descriptor uses it.
    type Legacy;

    /// The kind of key behind witness version 0 scripts.
    type Compr: DeriveCompr;

    /// The kind of key behind taproot scripts.
    type XOnly: DeriveXOnly;
}

/// The output script that a descriptor derives, kept as the template of the
/// script and the key that fills it.
#[derive(Clone, Copy, Debug, PartialEq, Eq, Hash)]
pub enum DerivedScript {
    /// A witness version 0 script that pays to the hash of the key.
    WitnessKeyHash(CompressedPk),
    /// A taproot script that only the internal key spends.
    TaprootKeyOnly(XOnlyPk),
}

impl DerivedScript {
    /// The class of the script.
    pub open spec fn spec_class(self) -> SpkClass {
        match self {
            DerivedScript::WitnessKeyHash(_) => SpkClass::P2wpkh,
            DerivedScript::TaprootKeyOnly(_) => SpkClass::P2tr,
        }
    }

    /// The class of the script.
    pub fn class(&self) -> (class: SpkClass)
        ensures
            class == self.spec_class(),
    {
        match self {
            DerivedScript::WitnessKeyHash(_) => SpkClass::P2wpkh,
            DerivedScript::TaprootKeyOnly(_) => SpkClass::P2tr,
        }
    }
}

} // verus!
