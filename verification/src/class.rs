//! Output script classes and the dust limit of each.

use std::cmp::Ordering;
use vstd::prelude::*;
use vstd::std_specs::cmp::PartialOrdSpec;

verus! {

/// An amount of bitcoin, counted in satoshis.
#[derive(Clone, Copy, Debug, PartialEq, Eq, Structural, Hash)]
pub struct Sats(pub u64);

/// The category of an output script.
///
/// The classes are ordered as they are declared: `Bare` is the least and
/// `P2tr` the greatest.
#[derive(Clone, Copy, Debug, PartialEq, Eq, Structural, Ord, Hash)]
pub enum SpkClass {
    Bare,
    P2pkh,
    P2sh,
    P2wpkh,
    P2wsh,
    P2tr,
}

impl SpkClass {
    /// The place of the class in the declaration order, counted from zero.
    pub open spec fn rank(self) -> int {
        match self {
            SpkClass::Bare => 0,
            SpkClass::P2pkh => 1,
            SpkClass::P2sh => 2,
            SpkClass::P2wpkh => 3,
            SpkClass::P2wsh => 4,
            SpkClass::P2tr => 5,
        }
    }

    /// The least value, in satoshis, that an output of the class may carry
    /// and still be relayed.
    pub open spec fn spec_dust_limit(self) -> Sats {
        match self {
            SpkClass::Bare => Sats(0),
            SpkClass::P2pkh => Sats(546),
            SpkClass::P2sh => Sats(540),
            SpkClass::P2wpkh => Sats(294),
            SpkClass::P2wsh => Sats(330),
            SpkClass::P2tr => Sats(330),
        }
    }

    /// The dust limit of the class.
    #[verifier::when_used_as_spec(spec_dust_limit)]
    pub fn dust_limit(self) -> (sats: Sats)
        ensures
            sats == self.spec_dust_limit(),
    {
        match self {
            SpkClass::Bare => Sats(0),
            SpkClass::P2pkh => Sats(546),
            SpkClass::P2sh => Sats(540),
            SpkClass::P2wpkh => Sats(294),
            SpkClass::P2wsh | SpkClass::P2tr => Sats(330),
        }
    }

    /// The name of the class, in lower case.
    pub open spec fn spec_name(self) -> Seq<char> {
        match self {
            SpkClass::Bare => "bare"@,
            SpkClass::P2pkh => "p2pkh"@,
            SpkClass::P2sh => "p2sh"@,
            SpkClass::P2wpkh => "p2wpkh"@,
            SpkClass::P2wsh => "p2wsh"@,
            SpkClass::P2tr => "p2tr"@,
        }
    }

    /// The name of the class, in lower case.
    pub fn name(self) -> (name: &'static str)
        ensures
            name@ == self.spec_name(),
    {
        match self {
            SpkClass::Bare => "bare",
            SpkClass::P2pkh => "p2pkh",
            SpkClass::P2sh => "p2sh",
            SpkClass::P2wpkh => "p2wpkh",
            SpkClass::P2wsh => "p2wsh",
            SpkClass::P2tr => "p2tr",
        }
    }

    /// The rank of the class as a machine integer.
    fn ordinal(self) -> (n: u8)
        ensures
            n == self.rank(),
    {
        match self {
            SpkClass::Bare => 0,
            SpkClass::P2pkh => 1,
            SpkClass::P2sh => 2,
            SpkClass::P2wpkh => 3,
            SpkClass::P2wsh => 4,
            SpkClass::P2tr => 5,
        }
    }
}

impl PartialOrd for SpkClass {
    fn partial_cmp(&self, other: &Self) -> (r: Option<Ordering>) {
        let a: u8 = self.ordinal();
        let b: u8 = other.ordinal();
        if a < b {
            Some(Ordering::Less)
        } else if a == b {
            Some(Ordering::Equal)
        } else {
            Some(Ordering::Greater)
        }
    }
}

impl vstd::std_specs::cmp::PartialOrdSpecImpl for SpkClass {
    open spec fn obeys_partial_cmp_spec() -> bool {
        true
    }

    open spec fn partial_cmp_spec(&self, other: &Self) -> Option<Ordering> {
        if self.rank() < other.rank() {
            Some(Ordering::Less)
        } else if self.rank() == other.rank() {
            Some(Ordering::Equal)
        } else {
            Some(Ordering::Greater)
        }
    }
}

/// The classes are totally ordered, and in the order of their declaration:
/// any two compare, they compare as their ranks do, equal only where they are
/// the same class, and the order is transitive. `Bare` is the least class and
/// `P2tr` the greatest.
pub proof fn lemma_classes_are_totally_ordered(a: SpkClass, b: SpkClass, c: SpkClass)
    ensures
        a.partial_cmp_spec(&b) is Some,
        a.partial_cmp_spec(&b) == Some(Ordering::Less) <==> a.rank() < b.rank(),
        a.partial_cmp_spec(&b) == Some(Ordering::Equal) <==> a == b,
        a.partial_cmp_spec(&b) == Some(Ordering::Greater) <==> b.partial_cmp_spec(&a) == Some(
            Ordering::Less,
        ),
        a.partial_cmp_spec(&b) == Some(Ordering::Less) && b.partial_cmp_spec(&c) == Some(
            Ordering::Less,
        ) ==> a.partial_cmp_spec(&c) == Some(Ordering::Less),
        SpkClass::Bare.partial_cmp_spec(&a) != Some(Ordering::Greater),
        SpkClass::P2tr.partial_cmp_spec(&a) != Some(Ordering::Less),
{
}

} // verus!
