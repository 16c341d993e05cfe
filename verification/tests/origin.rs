use descriptors::{Keychain, KeyOrigin, NormalIndex, TapDerivation, Terminal, XpubOrigin};

const H: u32 = 0x8000_0000;

fn account() -> XpubOrigin {
    XpubOrigin { master_fp: [0xde, 0xad, 0xbe, 0xef], derivation: vec![84 + H, H, 2 + H] }
}

#[test]
fn key_origin_adds_the_terminal_to_the_path() {
    let terminal = Terminal::new(Keychain::Inner, NormalIndex::normal(7));
    let origin = KeyOrigin::with(&account(), terminal);
    assert_eq!(origin.master_fp, [0xde, 0xad, 0xbe, 0xef]);
    assert_eq!(origin.derivation, vec![84 + H, H, 2 + H, 1, 7]);
}

#[test]
fn key_origin_on_the_outer_keychain() {
    let index = NormalIndex::from_child_number(0x7fff_ffff).unwrap();
    let terminal = Terminal::new(Keychain::Outer, index);
    let origin = KeyOrigin::with(&account(), terminal);
    assert_eq!(origin.derivation, vec![84 + H, H, 2 + H, 0, 0x7fff_ffff]);
}

#[test]
fn key_origin_below_the_master_key() {
    let master = XpubOrigin { master_fp: [1, 2, 3, 4], derivation: vec![] };
    let origin = KeyOrigin::with(&master, Terminal::new(Keychain::Outer, NormalIndex::normal(0)));
    assert_eq!(origin, KeyOrigin { master_fp: [1, 2, 3, 4], derivation: vec![0, 0] });
}

#[test]
fn key_origin_leaves_the_xpub_origin_alone() {
    let xpub_origin = account();
    let _ = KeyOrigin::with(&xpub_origin, Terminal::new(Keychain::Inner, NormalIndex::normal(1)));
    assert_eq!(xpub_origin, account());
}

#[test]
fn key_origins_of_two_terminals_differ() {
    let a = KeyOrigin::with(&account(), Terminal::new(Keychain::Outer, NormalIndex::normal(1)));
    let b = KeyOrigin::with(&account(), Terminal::new(Keychain::Inner, NormalIndex::normal(0)));
    let c = KeyOrigin::with(&account(), Terminal::new(Keychain::Outer, NormalIndex::normal(1)));
    assert_ne!(a, b);
    assert_eq!(a, c);
}

#[test]
fn tap_derivation_of_the_internal_key() {
    let terminal = Terminal::new(Keychain::Outer, NormalIndex::normal(3));
    let derivation = TapDerivation::with_internal_pk(&account(), terminal);
    assert!(derivation.leaf_hashes.is_empty());
    assert_eq!(derivation.origin, KeyOrigin::with(&account(), terminal));
    assert_eq!(derivation.origin.derivation, vec![84 + H, H, 2 + H, 0, 3]);
}
