//! Derivation coordinates: keychains, unhardened indexes and terminals.

use vstd::prelude::*;

verus! {

/// The first child number that stands for a hardened derivation step.
pub const HARDENED_START: u32 = 0x8000_0000;

/// A branch of derivation below an extended key.
///
/// `Outer` is the branch of receiving addresses and `Inner` the branch of
/// change; `Outer` is the lesser of the two.
#[derive(Clone, Copy, Debug, PartialEq, Eq, Structural, PartialOrd, Ord, Hash)]
pub enum Keychain {
    Outer,
    Inner,
}

/// A child number of an unhardened derivation step: one below
/// [`HARDENED_START`].
#[derive(Clone, Copy, Debug, PartialEq, Eq, Structural, PartialOrd, Ord, Hash)]
pub struct NormalIndex(u32);

/// The last two steps of a derivation path: the keychain, then the index of
/// the key on it.
#[derive(Clone, Copy, Debug, PartialEq, Eq, Structural, PartialOrd, Ord, Hash)]
pub struct Terminal {
    pub keychain: Keychain,
    pub index: NormalIndex,
}

impl Keychain {
    /// The child number of the branch: 0 for `Outer`, 1 for `Inner`.
    pub open spec fn child_number(self) -> u32 {
        match self {
            Keychain::Outer => 0,
            Keychain::Inner => 1,
        }
    }

    /// The branch as a derivation step.
    pub fn to_index(self) -> (index: NormalIndex)
        ensures
            index.child_number() == self.child_number(),
    {
        match self {
            Keychain::Outer => NormalIndex(0),
            Keychain::Inner => NormalIndex(1),
        }
    }

    /// The branch with the given child number, if there is one.
    pub fn from_child_number(number: u32) -> (keychain: Option<Keychain>)
        ensures
            keychain is Some <==> number <= 1,
            keychain matches Some(k) ==> k.child_number() == number,
    {
        if number == 0 {
            Some(Keychain::Outer)
        } else if number == 1 {
            Some(Keychain::Inner)
        } else {
            None
        }
    }
}

impl NormalIndex {
    #[verifier::type_invariant]
    spec fn unhardened(self) -> bool {
        self.0 < HARDENED_START
    }

    /// The child number that the index stands for.
    pub closed spec fn child_number(self) -> u32 {
        self.0
    }

    /// The index that stands for `number`.
    pub closed spec fn of_child_number(number: u32) -> NormalIndex {
        NormalIndex(number)
    }

    /// The index with the given child number, if the number is unhardened.
    pub fn from_child_number(number: u32) -> (index: Option<NormalIndex>)
        ensures
            index is Some <==> number < HARDENED_START,
            index matches Some(i) ==> i.child_number() == number,
    {
        if number < HARDENED_START {
            Some(NormalIndex(number))
        } else {
            None
        }
    }

    /// The index with the given child number; every 16-bit number is
    /// unhardened.
    pub fn normal(number: u16) -> (index: NormalIndex)
        ensures
            index.child_number() == number,
    {
        NormalIndex(number as u32)
    }

    /// The child number of the index, which is below [`HARDENED_START`].
    pub fn to_child_number(&self) -> (number: u32)
        ensures
            number == self.child_number(),
            number < HARDENED_START,
    {
        proof {
            use_type_invariant(self);
        }
        self.0
    }
}

impl From<Keychain> for NormalIndex {
    fn from(keychain: Keychain) -> (index: NormalIndex) {
        keychain.to_index()
    }
}

impl vstd::std_specs::convert::FromSpecImpl<Keychain> for NormalIndex {
    open spec fn obeys_from_spec() -> bool {
        true
    }

    open spec fn from_spec(keychain: Keychain) -> NormalIndex {
        NormalIndex::of_child_number(keychain.child_number())
    }
}

impl From<u16> for NormalIndex {
    fn from(number: u16) -> (index: NormalIndex) {
        NormalIndex::normal(number)
    }
}

impl vstd::std_specs::convert::FromSpecImpl<u16> for NormalIndex {
    open spec fn obeys_from_spec() -> bool {
        true
    }

    open spec fn from_spec(number: u16) -> NormalIndex {
        NormalIndex::of_child_number(number as u32)
    }
}

impl Terminal {
    /// The terminal of the given keychain and index.
    pub fn new(keychain: Keychain, index: NormalIndex) -> (terminal: Terminal)
        ensures
            terminal.keychain == keychain,
            terminal.index == index,
    {
        Terminal { keychain, index }
    }

    /// The two child numbers that the terminal adds to a derivation path.
    pub open spec fn steps(self) -> Seq<u32> {
        seq![self.keychain.child_number(), self.index.child_number()]
    }
}

/// An index is its child number: two indexes with the same child number are
/// the same index, and the index that stands for a number has that number.
pub proof fn lemma_index_by_child_number(a: NormalIndex, b: NormalIndex)
    ensures
        a.child_number() == b.child_number() <==> a == b,
        NormalIndex::of_child_number(a.child_number()) == a,
        forall|number: u32|
            (#[trigger] NormalIndex::of_child_number(number)).child_number() == number,
{
}

} // verus!
