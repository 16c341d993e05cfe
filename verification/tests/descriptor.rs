use descriptors::keyset::{single_compr_keyset, single_xonly_keyset};
use descriptors::{
    CompressedPk, Derive, DeriveCompr, DeriveSet, DeriveXOnly, DerivedScript, Descriptor,
    KeyOrigin, Keychain, NormalIndex, SpkClass, StdDescr, TapDerivation, Terminal, TrKey, Wpkh,
    XOnlyPk, Xpub, XpubOrigin, XpubSpec,
};
use std::collections::{BTreeSet, HashSet};

const H: u32 = 0x8000_0000;

/// A key for the tests: children are the base point moved by a number made
/// of the keychain and the index.
#[derive(Clone, Debug, PartialEq, Eq, Hash)]
struct TestKey {
    base: secp256k1::PublicKey,
    change: bool,
}

impl TestKey {
    fn new(secret: u8, change: bool) -> TestKey {
        let mut bytes = [0u8; 32];
        bytes[31] = secret;
        let secp = secp256k1::Secp256k1::new();
        let sk = secp256k1::SecretKey::from_slice(&bytes).unwrap();
        TestKey { base: secp256k1::PublicKey::from_secret_key(&secp, &sk), change }
    }

    fn child(&self, keychain: Keychain, index: NormalIndex) -> secp256k1::PublicKey {
        let mut bytes = [0u8; 32];
        bytes[27] = 1 + keychain.to_index().to_child_number() as u8;
        bytes[28..].copy_from_slice(&index.to_child_number().to_be_bytes());
        let tweak = secp256k1::Scalar::from_be_bytes(bytes).unwrap();
        let secp = secp256k1::Secp256k1::verification_only();
        self.base.add_exp_tweak(&secp, &tweak).unwrap()
    }

    fn supported(&self) -> BTreeSet<Keychain> {
        let mut set = BTreeSet::new();
        set.insert(Keychain::Outer);
        if self.change {
            set.insert(Keychain::Inner);
        }
        set
    }

    fn compressed(&self, keychain: Keychain, index: NormalIndex) -> CompressedPk {
        CompressedPk::from_bytes(self.child(keychain, index).serialize()).unwrap()
    }

    fn xonly(&self, keychain: Keychain, index: NormalIndex) -> XOnlyPk {
        XOnlyPk::from_bytes(self.child(keychain, index).x_only_public_key().0.serialize()).unwrap()
    }
}

impl Derive<CompressedPk> for TestKey {
    fn spec_default_keychain(&self) -> Keychain {
        Keychain::Outer
    }

    fn spec_keychains(&self) -> BTreeSet<Keychain> {
        self.supported()
    }

    fn spec_derive(&self, keychain: Keychain, index: NormalIndex) -> CompressedPk {
        self.compressed(keychain, index)
    }

    fn default_keychain(&self) -> Keychain {
        Keychain::Outer
    }

    fn keychains(&self) -> BTreeSet<Keychain> {
        self.supported()
    }

    fn derive(&self, keychain: Keychain, index: NormalIndex) -> CompressedPk {
        self.compressed(keychain, index)
    }
}

impl Derive<XOnlyPk> for TestKey {
    fn spec_default_keychain(&self) -> Keychain {
        Keychain::Outer
    }

    fn spec_keychains(&self) -> BTreeSet<Keychain> {
        self.supported()
    }

    fn spec_derive(&self, keychain: Keychain, index: NormalIndex) -> XOnlyPk {
        self.xonly(keychain, index)
    }

    fn default_keychain(&self) -> Keychain {
        Keychain::Outer
    }

    fn keychains(&self) -> BTreeSet<Keychain> {
        self.supported()
    }

    fn derive(&self, keychain: Keychain, index: NormalIndex) -> XOnlyPk {
        self.xonly(keychain, index)
    }
}

impl DeriveCompr for TestKey {}

impl DeriveXOnly for TestKey {}

impl DeriveSet for TestKey {
    type Legacy = TestKey;
    type Compr = TestKey;
    type XOnly = TestKey;
}

fn xpub_spec(key: &TestKey, purpose: u32) -> XpubSpec {
    XpubSpec {
        origin: XpubOrigin {
            master_fp: [0x73, 0xc5, 0xda, 0x0a],
            derivation: vec![purpose + H, H, H],
        },
        xpub: Xpub {
            public_key: CompressedPk::from_bytes(key.base.serialize()).unwrap(),
            chain_code: [7u8; 32],
        },
    }
}

fn wpkh() -> Wpkh<TestKey> {
    let key = TestKey::new(11, true);
    let xpub = xpub_spec(&key, 84);
    Wpkh::new(key, xpub)
}

fn tr_key() -> TrKey<TestKey> {
    let key = TestKey::new(23, false);
    let xpub = xpub_spec(&key, 86);
    TrKey::new(key, xpub)
}

fn terminals() -> Vec<Terminal> {
    let mut all = Vec::new();
    for keychain in [Keychain::Outer, Keychain::Inner] {
        for number in [0u32, 1, 2, 1000, 0x7fff_ffff] {
            all.push(Terminal::new(keychain, NormalIndex::from_child_number(number).unwrap()));
        }
    }
    all
}

#[test]
fn wpkh_is_of_class_p2wpkh() {
    assert_eq!(wpkh().class(), SpkClass::P2wpkh);
    assert_eq!(wpkh().class().dust_limit().0, 294);
}

#[test]
fn tr_key_is_of_class_p2tr() {
    assert_eq!(tr_key().class(), SpkClass::P2tr);
    assert_eq!(tr_key().class().dust_limit().0, 330);
}

#[test]
fn wpkh_has_one_key_one_xpub_and_no_variable() {
    let d = wpkh();
    assert_eq!(d.keys(), vec![&d.key]);
    assert_eq!(d.xpubs(), vec![&d.xpub]);
    assert!(d.vars().is_empty());
    assert_eq!(d.key, TestKey::new(11, true));
    assert_eq!(d.xpub, xpub_spec(&TestKey::new(11, true), 84));
}

#[test]
fn tr_key_has_one_key_one_xpub_and_no_variable() {
    let d = tr_key();
    assert_eq!(d.keys(), vec![&d.key]);
    assert_eq!(d.xpubs(), vec![&d.xpub]);
    assert!(d.vars().is_empty());
}

#[test]
fn wpkh_derives_the_script_of_the_derived_key() {
    let d = wpkh();
    let index = NormalIndex::normal(5);
    let key = <TestKey as Derive<CompressedPk>>::derive(&d.key, Keychain::Inner, index);
    assert_eq!(d.derive(Keychain::Inner, index), DerivedScript::WitnessKeyHash(key));
    assert_eq!(d.derive(Keychain::Inner, index).class(), SpkClass::P2wpkh);
}

#[test]
fn tr_key_derives_the_script_of_the_derived_key() {
    let d = tr_key();
    let index = NormalIndex::normal(5);
    let key = <TestKey as Derive<XOnlyPk>>::derive(&d.key, Keychain::Outer, index);
    assert_eq!(d.derive(Keychain::Outer, index), DerivedScript::TaprootKeyOnly(key));
    assert_eq!(d.derive(Keychain::Outer, index).class(), SpkClass::P2tr);
}

#[test]
fn descriptors_take_their_keychains_from_the_key() {
    assert_eq!(wpkh().default_keychain(), Keychain::Outer);
    assert_eq!(
        wpkh().keychains().into_iter().collect::<Vec<_>>(),
        vec![Keychain::Outer, Keychain::Inner]
    );
    assert_eq!(tr_key().default_keychain(), Keychain::Outer);
    assert_eq!(tr_key().keychains().into_iter().collect::<Vec<_>>(), vec![Keychain::Outer]);
}

#[test]
fn wpkh_keyset_is_the_derived_key_with_its_origin() {
    let d = wpkh();
    let terminal = Terminal::new(Keychain::Inner, NormalIndex::normal(9));
    let map = d.compr_keyset(terminal);
    assert_eq!(map.len(), 1);
    let (key, origin) = map.get_index(0).unwrap();
    let index = NormalIndex::normal(9);
    assert_eq!(*key, <TestKey as Derive<CompressedPk>>::derive(&d.key, Keychain::Inner, index));
    assert_eq!(origin.master_fp, [0x73, 0xc5, 0xda, 0x0a]);
    assert_eq!(origin.derivation, vec![84 + H, H, H, 1, 9]);
    assert_eq!(*origin, KeyOrigin::with(&d.xpub.origin, terminal));
    assert_eq!(d.derive(Keychain::Inner, index), DerivedScript::WitnessKeyHash(*key));
}

#[test]
fn tr_key_keyset_is_the_derived_key_with_its_derivation() {
    let d = tr_key();
    let terminal = Terminal::new(Keychain::Outer, NormalIndex::normal(4));
    let map = d.xonly_keyset(terminal);
    assert_eq!(map.len(), 1);
    let (key, derivation) = map.get_index(0).unwrap();
    let index = NormalIndex::normal(4);
    assert_eq!(*key, <TestKey as Derive<XOnlyPk>>::derive(&d.key, Keychain::Outer, index));
    assert!(derivation.leaf_hashes.is_empty());
    assert_eq!(derivation.origin.master_fp, [0x73, 0xc5, 0xda, 0x0a]);
    assert_eq!(derivation.origin.derivation, vec![86 + H, H, H, 0, 4]);
    assert_eq!(*derivation, TapDerivation::with_internal_pk(&d.xpub.origin, terminal));
    assert_eq!(d.derive(Keychain::Outer, index), DerivedScript::TaprootKeyOnly(*key));
}

#[test]
fn wpkh_has_no_xonly_key_at_any_terminal() {
    for terminal in terminals() {
        assert!(wpkh().xonly_keyset(terminal).is_empty());
        assert!(StdDescr::<TestKey>::Wpkh(wpkh()).xonly_keyset(terminal).is_empty());
    }
}

#[test]
fn tr_key_has_no_compressed_key_at_any_terminal() {
    for terminal in terminals() {
        assert!(tr_key().compr_keyset(terminal).is_empty());
        assert!(StdDescr::<TestKey>::TrKey(tr_key()).compr_keyset(terminal).is_empty());
    }
}

#[test]
fn std_descr_answers_as_the_wpkh_inside() {
    let inner = wpkh();
    let std = StdDescr::<TestKey>::Wpkh(inner.clone());
    assert_eq!(std.class(), inner.class());
    assert_eq!(std.keys(), inner.keys());
    assert_eq!(std.vars(), Descriptor::<TestKey>::vars(&inner));
    assert_eq!(std.xpubs(), inner.xpubs());
    assert_eq!(std.default_keychain(), inner.default_keychain());
    assert_eq!(std.keychains(), inner.keychains());
    for terminal in terminals() {
        assert_eq!(
            std.derive(terminal.keychain, terminal.index),
            inner.derive(terminal.keychain, terminal.index)
        );
        assert_eq!(std.compr_keyset(terminal), inner.compr_keyset(terminal));
        assert_eq!(std.xonly_keyset(terminal), inner.xonly_keyset(terminal));
        assert_eq!(
            std.compr_keyset(terminal).into_iter().collect::<Vec<_>>(),
            inner.compr_keyset(terminal).into_iter().collect::<Vec<_>>()
        );
    }
}

#[test]
fn std_descr_answers_as_the_tr_key_inside() {
    let inner = tr_key();
    let std = StdDescr::<TestKey>::TrKey(inner.clone());
    assert_eq!(std.class(), inner.class());
    assert_eq!(std.keys(), inner.keys());
    assert_eq!(std.vars(), Descriptor::<TestKey>::vars(&inner));
    assert_eq!(std.xpubs(), inner.xpubs());
    assert_eq!(std.default_keychain(), inner.default_keychain());
    assert_eq!(std.keychains(), inner.keychains());
    for terminal in terminals() {
        assert_eq!(
            std.derive(terminal.keychain, terminal.index),
            inner.derive(terminal.keychain, terminal.index)
        );
        assert_eq!(std.compr_keyset(terminal), inner.compr_keyset(terminal));
        assert_eq!(std.xonly_keyset(terminal), inner.xonly_keyset(terminal));
        assert_eq!(
            std.xonly_keyset(terminal).into_iter().collect::<Vec<_>>(),
            inner.xonly_keyset(terminal).into_iter().collect::<Vec<_>>()
        );
    }
}

#[test]
fn std_descr_has_no_variable() {
    assert!(StdDescr::<TestKey>::Wpkh(wpkh()).vars().is_empty());
    assert!(StdDescr::<TestKey>::TrKey(tr_key()).vars().is_empty());
}

#[test]
fn std_descr_is_made_from_either_descriptor() {
    assert_eq!(StdDescr::<TestKey>::from(wpkh()), StdDescr::Wpkh(wpkh()));
    assert_eq!(StdDescr::<TestKey>::from(tr_key()), StdDescr::TrKey(tr_key()));
    let into: StdDescr<TestKey> = wpkh().into();
    assert_eq!(into.class(), SpkClass::P2wpkh);
    assert_ne!(StdDescr::<TestKey>::from(wpkh()), StdDescr::<TestKey>::from(tr_key()));
}

#[test]
fn derivation_gives_the_same_script_each_time() {
    for std in [StdDescr::<TestKey>::Wpkh(wpkh()), StdDescr::<TestKey>::TrKey(tr_key())] {
        for terminal in terminals() {
            let first = std.derive(terminal.keychain, terminal.index);
            let second = std.derive(terminal.keychain, terminal.index);
            assert_eq!(first, second);
        }
    }
}

#[test]
fn keysets_are_the_same_each_time() {
    for std in [StdDescr::<TestKey>::Wpkh(wpkh()), StdDescr::<TestKey>::TrKey(tr_key())] {
        for terminal in terminals() {
            let a: Vec<_> = std.compr_keyset(terminal).into_iter().collect();
            let b: Vec<_> = std.compr_keyset(terminal).into_iter().collect();
            assert_eq!(a, b);
            let c: Vec<_> = std.xonly_keyset(terminal).into_iter().collect();
            let d: Vec<_> = std.xonly_keyset(terminal).into_iter().collect();
            assert_eq!(c, d);
        }
    }
}

#[test]
fn keysets_hold_no_key_twice() {
    for std in [StdDescr::<TestKey>::Wpkh(wpkh()), StdDescr::<TestKey>::TrKey(tr_key())] {
        for terminal in terminals() {
            let compr = std.compr_keyset(terminal);
            assert_eq!(compr.keys().collect::<HashSet<_>>().len(), compr.len());
            let xonly = std.xonly_keyset(terminal);
            assert_eq!(xonly.keys().collect::<HashSet<_>>().len(), xonly.len());
            assert_eq!(compr.len() + xonly.len(), 1);
        }
    }
}

#[test]
fn terminals_give_different_keys_and_origins() {
    let d = wpkh();
    let mut keys = HashSet::new();
    let mut origins = HashSet::new();
    for terminal in terminals() {
        let map = d.compr_keyset(terminal);
        let (key, origin) = map.get_index(0).unwrap();
        keys.insert(*key);
        origins.insert(origin.clone());
    }
    assert_eq!(keys.len(), terminals().len());
    assert_eq!(origins.len(), terminals().len());
}

#[test]
fn single_keysets_hold_the_pair_given() {
    let key = TestKey::new(3, true);
    let origin = KeyOrigin { master_fp: [9, 9, 9, 9], derivation: vec![1, 2, 3] };
    let compr = key.compressed(Keychain::Outer, NormalIndex::normal(0));
    let map = single_compr_keyset(compr, origin.clone());
    assert_eq!(map.len(), 1);
    assert_eq!(map.get(&compr), Some(&origin));
    assert_eq!(map.get_index(0), Some((&compr, &origin)));

    let xonly = key.xonly(Keychain::Outer, NormalIndex::normal(0));
    let derivation = TapDerivation { leaf_hashes: vec![[5u8; 32]], origin };
    let map = single_xonly_keyset(xonly, derivation.clone());
    assert_eq!(map.len(), 1);
    assert_eq!(map.get_index(0), Some((&xonly, &derivation)));
}

#[test]
fn keyset_knows_a_key_by_its_bytes() {
    let key = TestKey::new(3, true);
    let first = key.compressed(Keychain::Outer, NormalIndex::normal(0));
    let again = CompressedPk::from_bytes(first.to_bytes()).unwrap();
    let other = key.compressed(Keychain::Outer, NormalIndex::normal(1));
    let old = KeyOrigin { master_fp: [1, 1, 1, 1], derivation: vec![0, 0] };
    let new = KeyOrigin { master_fp: [2, 2, 2, 2], derivation: vec![0, 0] };

    let mut map = single_compr_keyset(first, old.clone());
    assert_eq!(map.insert(other, old.clone()), None);
    assert_eq!(map.len(), 2);
    assert_eq!(map.insert(again, new.clone()), Some(old.clone()));
    assert_eq!(map.len(), 2);
    assert_eq!(map.get_index(0), Some((&first, &new)));
    assert_eq!(map.get_index(1), Some((&other, &old)));

    let first = key.xonly(Keychain::Outer, NormalIndex::normal(0));
    let again = XOnlyPk::from_bytes(first.to_bytes()).unwrap();
    let old = TapDerivation { leaf_hashes: vec![], origin: old };
    let new = TapDerivation { leaf_hashes: vec![], origin: new };
    let mut map = single_xonly_keyset(first, old.clone());
    assert_eq!(map.insert(again, new.clone()), Some(old));
    assert_eq!(map.len(), 1);
    assert_eq!(map.get_index(0), Some((&first, &new)));
}
