//! The operations that every descriptor offers, and the standard
//! descriptors as one type.

use crate::class::SpkClass;
use crate::derive::{Derive, DeriveCompr, DeriveSet, DeriveXOnly, DerivedScript};
use crate::keys::{CompressedPk, XOnlyPk};
use crate::keyset::{compr_keyset_view, keys_are_distinct, xonly_keyset_view};
use crate::origin::{KeyOrigin, OriginModel, TapDerivation, TapDerivationModel, XpubSpec};
use crate::path::{Keychain, NormalIndex, Terminal};
use crate::segwit::Wpkh;
use crate::taproot::TrKey;
use indexmap::IndexMap;
use std::collections::BTreeSet;
use vstd::prelude::*;

verus! {

/// A descriptor over keys of type `K` and further variables of type `V`.
///
/// Every operation reads the descriptor and leaves it as it was; its result
/// is a function of the descriptor and the arguments, which the `spec_`
/// function of the same name gives.
pub trait Descriptor<K, V = ()>: Derive<DerivedScript> {
    /// The class of the scripts of the descriptor.
    spec fn spec_class(&self) -> SpkClass;

    /// The keys of the descriptor, in the order of its construction.
    spec fn spec_keys(&self) -> Seq<K>;

    /// The variables of the descriptor besides its keys.
    spec fn spec_vars(&self) -> Seq<V>;

    /// The extended keys behind the keys of the descriptor.
    spec fn spec_xpubs(&self) -> Seq<XpubSpec>;

    /// The compressed keys of the script at `terminal`, each with the model
    /// of its origin, in the order of derivation.
    spec fn spec_compr_keyset(&self, terminal: Terminal) -> Seq<(CompressedPk, OriginModel)>;

    /// The x-only keys of the script at `terminal`, each with the model of
    /// its derivation, in the order of derivation.
    spec fn spec_xonly_keyset(&self, terminal: Terminal) -> Seq<(XOnlyPk, TapDerivationModel)>;

    /// The class of the scripts of the descriptor.
    fn class(&self) -> (class: SpkClass)
        ensures
            class == self.spec_class(),
    ;

    /// The keys of the descriptor, in the order of its construction.
    fn keys(&self) -> (keys: Vec<&K>)
        ensures
            keys@.len() == self.spec_keys().len(),
            forall|i: int| 0 <= i < keys@.len() ==> *(#[trigger] keys@[i]) == self.spec_keys()[i],
    ;

    /// The variables of the descriptor besides its keys.
    fn vars(&self) -> (vars: Vec<&V>)
        ensures
            vars@.len() == self.spec_vars().len(),
            forall|i: int| 0 <= i < vars@.len() ==> *(#[trigger] vars@[i]) == self.spec_vars()[i],
    ;

    /// The extended keys behind the keys of the descriptor.
    fn xpubs(&self) -> (xpubs: Vec<&XpubSpec>)
        ensures
            xpubs@.len() == self.spec_xpubs().len(),
            forall|i: int|
                0 <= i < xpubs@.len() ==> *(#[trigger] xpubs@[i]) == self.spec_xpubs()[i],
    ;

    /// The compressed keys of the script at `terminal`, each with its
    /// origin. No key occurs twice. A descriptor that uses no compressed key
    /// gives the empty map.
    fn compr_keyset(&self, terminal: Terminal) -> (map: IndexMap<CompressedPk, KeyOrigin>)
        ensures
            compr_keyset_view(map) == self.spec_compr_keyset(terminal),
            keys_are_distinct(compr_keyset_view(map)),
    ;

    /// The x-only keys of the script at `terminal`, each with its
    /// derivation. No key occurs twice. A descriptor that uses no x-only key
    /// gives the empty map.
    fn xonly_keyset(&self, terminal: Terminal) -> (map: IndexMap<XOnlyPk, TapDerivation>)
        ensures
            xonly_keyset_view(map) == self.spec_xonly_keyset(terminal),
            keys_are_distinct(xonly_keyset_view(map)),
    ;
}

/// The standard descriptors over the keys of `S`.
#[derive(Clone, Debug, PartialEq, Eq, Hash)]
#[non_exhaustive]
pub enum StdDescr<S: DeriveSet> {
    /// Witness version 0 pay-to-pubkey-hash.
    Wpkh(Wpkh<S::Compr>),
    /// Taproot spent by its internal key alone.
    TrKey(TrKey<S::XOnly>),
}

impl<S: DeriveSet> Derive<DerivedScript> for StdDescr<S> {
    open spec fn spec_default_keychain(&self) -> Keychain {
        match self {
            StdDescr::Wpkh(d) => d.spec_default_keychain(),
            StdDescr::TrKey(d) => d.spec_default_keychain(),
        }
    }

    open spec fn spec_keychains(&self) -> BTreeSet<Keychain> {
        match self {
            StdDescr::Wpkh(d) => d.spec_keychains(),
            StdDescr::TrKey(d) => d.spec_keychains(),
        }
    }

    open spec fn spec_derive(&self, keychain: Keychain, index: NormalIndex) -> DerivedScript {
        match self {
            StdDescr::Wpkh(d) => d.spec_derive(keychain, index),
            StdDescr::TrKey(d) => d.spec_derive(keychain, index),
        }
    }

    fn default_keychain(&self) -> (keychain: Keychain) {
        match self {
            StdDescr::Wpkh(d) => d.default_keychain(),
            StdDescr::TrKey(d) => d.default_keychain(),
        }
    }

    fn keychains(&self) -> (keychains: BTreeSet<Keychain>) {
        match self {
            StdDescr::Wpkh(d) => d.keychains(),
            StdDescr::TrKey(d) => d.keychains(),
        }
    }

    fn derive(&self, keychain: Keychain, index: NormalIndex) -> (derived: DerivedScript) {
        match self {
            StdDescr::Wpkh(d) => d.derive(keychain, index),
            StdDescr::TrKey(d) => d.derive(keychain, index),
        }
    }
}

impl<K: DeriveSet<Compr = K, XOnly = K> + DeriveCompr + DeriveXOnly> Descriptor<K> for StdDescr<K> {
    open spec fn spec_class(&self) -> SpkClass {
        match self {
            StdDescr::Wpkh(d) => d.spec_class(),
            StdDescr::TrKey(d) => d.spec_class(),
        }
    }

    open spec fn spec_keys(&self) -> Seq<K> {
        match self {
            StdDescr::Wpkh(d) => d.spec_keys(),
            StdDescr::TrKey(d) => d.spec_keys(),
        }
    }

    open spec fn spec_vars(&self) -> Seq<()> {
        Seq::empty()
    }

    open spec fn spec_xpubs(&self) -> Seq<XpubSpec> {
        match self {
            StdDescr::Wpkh(d) => d.spec_xpubs(),
            StdDescr::TrKey(d) => d.spec_xpubs(),
        }
    }

    open spec fn spec_compr_keyset(&self, terminal: Terminal) -> Seq<(CompressedPk, OriginModel)> {
        match self {
            StdDescr::Wpkh(d) => d.spec_compr_keyset(terminal),
            StdDescr::TrKey(d) => d.spec_compr_keyset(terminal),
        }
    }

    open spec fn spec_xonly_keyset(&self, terminal: Terminal) -> Seq<
        (XOnlyPk, TapDerivationModel),
    > {
        match self {
            StdDescr::Wpkh(d) => d.spec_xonly_keyset(terminal),
            StdDescr::TrKey(d) => d.spec_xonly_keyset(terminal),
        }
    }

    fn class(&self) -> (class: SpkClass) {
        match self {
            StdDescr::Wpkh(d) => d.class(),
            StdDescr::TrKey(d) => d.class(),
        }
    }

    fn keys(&self) -> (keys: Vec<&K>) {
        match self {
            StdDescr::Wpkh(d) => d.keys(),
            StdDescr::TrKey(d) => d.keys(),
        }
    }

    fn vars(&self) -> (vars: Vec<&()>) {
        Vec::new()
    }

    fn xpubs(&self) -> (xpubs: Vec<&XpubSpec>) {
        match self {
            StdDescr::Wpkh(d) => d.xpubs(),
            StdDescr::TrKey(d) => d.xpubs(),
        }
    }

    fn compr_keyset(&self, terminal: Terminal) -> (map: IndexMap<CompressedPk, KeyOrigin>) {
        match self {
            StdDescr::Wpkh(d) => d.compr_keyset(terminal),
            StdDescr::TrKey(d) => d.compr_keyset(terminal),
        }
    }

    fn xonly_keyset(&self, terminal: Terminal) -> (map: IndexMap<XOnlyPk, TapDerivation>) {
        match self {
            StdDescr::Wpkh(d) => d.xonly_keyset(terminal),
            StdDescr::TrKey(d) => d.xonly_keyset(terminal),
        }
    }
}

impl<S: DeriveSet> From<Wpkh<S::Compr>> for StdDescr<S> {
    fn from(descriptor: Wpkh<S::Compr>) -> (standard: StdDescr<S>) {
        StdDescr::Wpkh(descriptor)
    }
}

impl<S: DeriveSet> vstd::std_specs::convert::FromSpecImpl<Wpkh<S::Compr>> for StdDescr<S> {
    open spec fn obeys_from_spec() -> bool {
        true
    }

    open spec fn from_spec(descriptor: Wpkh<S::Compr>) -> StdDescr<S> {
        StdDescr::Wpkh(descriptor)
    }
}

impl<S: DeriveSet> From<TrKey<S::XOnly>> for StdDescr<S> {
    fn from(descriptor: TrKey<S::XOnly>) -> (standard: StdDescr<S>) {
        StdDescr::TrKey(descriptor)
    }
}

impl<S: DeriveSet> vstd::std_specs::convert::FromSpecImpl<TrKey<S::XOnly>> for StdDescr<S> {
    open spec fn obeys_from_spec() -> bool {
        true
    }

    open spec fn from_spec(descriptor: TrKey<S::XOnly>) -> StdDescr<S> {
        StdDescr::TrKey(descriptor)
    }
}

/// A standard descriptor derives as the descriptor inside it does, whatever
/// the keychain and the index.
pub proof fn lemma_std_descr_derives_as_its_variant<S: DeriveSet>(
    descriptor: StdDescr<S>,
    keychain: Keychain,
    index: NormalIndex,
)
    ensures
        match descriptor {
            StdDescr::Wpkh(d) => {
                &&& descriptor.spec_default_keychain() == d.spec_default_keychain()
                &&& descriptor.spec_keychains() == d.spec_keychains()
                &&& descriptor.spec_derive(keychain, index) == d.spec_derive(keychain, index)
            },
            StdDescr::TrKey(d) => {
                &&& descriptor.spec_default_keychain() == d.spec_default_keychain()
                &&& descriptor.spec_keychains() == d.spec_keychains()
                &&& descriptor.spec_derive(keychain, index) == d.spec_derive(keychain, index)
            },
        },
{
}

/// A standard descriptor describes itself as the descriptor inside it does,
/// whatever the terminal.
pub proof fn lemma_std_descr_describes_as_its_variant<
    K: DeriveSet<Compr = K, XOnly = K> + DeriveCompr + DeriveXOnly,
>(descriptor: StdDescr<K>, terminal: Terminal)
    ensures
        match descriptor {
            StdDescr::Wpkh(d) => {
                &&& descriptor.spec_class() == d.spec_class()
                &&& descriptor.spec_keys() == d.spec_keys()
                &&& descriptor.spec_vars() == d.spec_vars()
                &&& descriptor.spec_xpubs() == d.spec_xpubs()
                &&& descriptor.spec_compr_keyset(terminal) == d.spec_compr_keyset(terminal)
                &&& descriptor.spec_xonly_keyset(terminal) == d.spec_xonly_keyset(terminal)
            },
            StdDescr::TrKey(d) => {
                &&& descriptor.spec_class() == d.spec_class()
                &&& descriptor.spec_keys() == d.spec_keys()
                &&& descriptor.spec_vars() == d.spec_vars()
                &&& descriptor.spec_xpubs() == d.spec_xpubs()
                &&& descriptor.spec_compr_keyset(terminal) == d.spec_compr_keyset(terminal)
                &&& descriptor.spec_xonly_keyset(terminal) == d.spec_xonly_keyset(terminal)
            },
        },
{
}

/// A pay-to-pubkey-hash descriptor has no x-only key at any terminal, and a
/// taproot descriptor no compressed key.
pub proof fn lemma_keysets_of_the_other_form_are_empty<C: DeriveCompr, X: DeriveXOnly>(
    wpkh: Wpkh<C>,
    tr_key: TrKey<X>,
    terminal: Terminal,
)
    ensures
        wpkh.spec_xonly_keyset(terminal) == Seq::<(XOnlyPk, TapDerivationModel)>::empty(),
        wpkh.spec_compr_keyset(terminal).len() == 1,
        tr_key.spec_compr_keyset(terminal) == Seq::<(CompressedPk, OriginModel)>::empty(),
        tr_key.spec_xonly_keyset(terminal).len() == 1,
{
}

/// The two key sets of a standard descriptor go by its class: a
/// pay-to-pubkey-hash descriptor has no x-only key at any terminal, a
/// taproot descriptor no compressed key, and each has one key of its own
/// form.
pub proof fn lemma_keysets_by_class<
    K: DeriveSet<Compr = K, XOnly = K> + DeriveCompr + DeriveXOnly,
>(descriptor: StdDescr<K>, terminal: Terminal)
    ensures
        descriptor is Wpkh <==> descriptor.spec_class() == SpkClass::P2wpkh,
        descriptor is TrKey <==> descriptor.spec_class() == SpkClass::P2tr,
        descriptor is Wpkh ==> descriptor.spec_xonly_keyset(terminal).len() == 0
            && descriptor.spec_compr_keyset(terminal).len() == 1,
        descriptor is TrKey ==> descriptor.spec_compr_keyset(terminal).len() == 0
            && descriptor.spec_xonly_keyset(terminal).len() == 1,
{
}

/// No key occurs twice in a key set of a standard descriptor.
pub proof fn lemma_keysets_have_distinct_keys<
    K: DeriveSet<Compr = K, XOnly = K> + DeriveCompr + DeriveXOnly,
>(descriptor: StdDescr<K>, terminal: Terminal)
    ensures
        keys_are_distinct(descriptor.spec_compr_keyset(terminal)),
        keys_are_distinct(descriptor.spec_xonly_keyset(terminal)),
{
}

/// The script that a standard descriptor derives is of the class of the
/// descriptor, and the key in it is the key of the key set at the same
/// terminal, whose origin is that of the extended key, longer by the
/// terminal.
pub proof fn lemma_keyset_holds_key_of_script<
    K: DeriveSet<Compr = K, XOnly = K> + DeriveCompr + DeriveXOnly,
>(descriptor: StdDescr<K>, terminal: Terminal)
    ensures
        descriptor.spec_derive(terminal.keychain, terminal.index).spec_class()
            == descriptor.spec_class(),
        descriptor.spec_xpubs().len() == 1,
        descriptor is Wpkh ==> descriptor.spec_derive(terminal.keychain, terminal.index)
            == DerivedScript::WitnessKeyHash(descriptor.spec_compr_keyset(terminal)[0].0)
            && descriptor.spec_compr_keyset(terminal)[0].1
            == descriptor.spec_xpubs()[0].origin@.extended(terminal),
        descriptor is TrKey ==> descriptor.spec_derive(terminal.keychain, terminal.index)
            == DerivedScript::TaprootKeyOnly(descriptor.spec_xonly_keyset(terminal)[0].0)
            && descriptor.spec_xonly_keyset(terminal)[0].1.origin
            == descriptor.spec_xpubs()[0].origin@.extended(terminal)
            && descriptor.spec_xonly_keyset(terminal)[0].1.leaf_hashes.len() == 0,
{
}

/// Two calls on one standard descriptor with the same arguments give the
/// same results: the same script, and key sets with the same keys, the same
/// origins and the same order.
pub proof fn lemma_calls_give_the_same_twice<
    K: DeriveSet<Compr = K, XOnly = K> + DeriveCompr + DeriveXOnly,
>(
    descriptor: StdDescr<K>,
    terminal: Terminal,
    script_1: DerivedScript,
    script_2: DerivedScript,
    compr_1: IndexMap<CompressedPk, KeyOrigin>,
    compr_2: IndexMap<CompressedPk, KeyOrigin>,
    xonly_1: IndexMap<XOnlyPk, TapDerivation>,
    xonly_2: IndexMap<XOnlyPk, TapDerivation>,
)
    requires
        call_ensures(
            <StdDescr<K> as Derive<DerivedScript>>::derive,
            (&descriptor, terminal.keychain, terminal.index),
            script_1,
        ),
        call_ensures(
            <StdDescr<K> as Derive<DerivedScript>>::derive,
            (&descriptor, terminal.keychain, terminal.index),
            script_2,
        ),
        call_ensures(
            <StdDescr<K> as Descriptor<K>>::compr_keyset,
            (&descriptor, terminal),
            compr_1,
        ),
        call_ensures(
            <StdDescr<K> as Descriptor<K>>::compr_keyset,
            (&descriptor, terminal),
            compr_2,
        ),
        call_ensures(
            <StdDescr<K> as Descriptor<K>>::xonly_keyset,
            (&descriptor, terminal),
            xonly_1,
        ),
        call_ensures(
            <StdDescr<K> as Descriptor<K>>::xonly_keyset,
            (&descriptor, terminal),
            xonly_2,
        ),
    ensures
        script_1 == script_2,
        compr_keyset_view(compr_1) == compr_keyset_view(compr_2),
        xonly_keyset_view(xonly_1) == xonly_keyset_view(xonly_2),
{
}

} // verus!
