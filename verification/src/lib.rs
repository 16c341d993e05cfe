//! Output descriptors: how a set of keys gives output scripts and the keys
//! that spend them.

pub mod class;
pub mod derive;
pub mod descriptor;
pub mod keys;
pub mod keyset;
pub mod origin;
pub mod path;
pub mod segwit;
pub mod taproot;

pub use class::{Sats, SpkClass};
pub use derive::{Derive, DeriveCompr, DeriveSet, DeriveXOnly, DerivedScript};
pub use descriptor::{Descriptor, StdDescr};
pub use keys::{CompressedPk, XOnlyPk};
pub use origin::{
    KeyOrigin, OriginModel, TapDerivation, TapDerivationModel, Xpub, XpubOrigin, XpubSpec,
};
pub use path::{Keychain, NormalIndex, Terminal, HARDENED_START};
pub use segwit::Wpkh;
pub use taproot::TrKey;
