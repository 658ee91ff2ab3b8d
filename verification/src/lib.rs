//! Wire-format codec and validation rules for shielded transaction bundles.
//!
//! A bundle is the shielded part of a transaction: actions, flags, anchor,
//! proof, value balance, burn list and signatures. This crate reads and
//! writes bundles and issuance bundles in their wire formats, and decides
//! whether what it read is a bundle at all: every field must be canonically
//! encoded, every count must be what the format allows, and the burn list
//! must satisfy its invariants. A decoder yields a whole, valid value or an
//! error, never a part of a value.
//!
//! Every decoder has a specification-level twin, a function from the input
//! and an offset to the parsed model and the offset behind it, and every
//! encoder has a function from the model to its bytes. The executable
//! functions are proved to compute these. On top of them stand the laws: what
//! was written is read back ([`round_trip`]), and what was read was written
//! in the one way there is ([`canonical`]).
//!
//! Whether 32 bytes encode a point or a field element is for the curve
//! library to say. The functions that ask it are the only ones whose
//! contracts are taken on trust; each of them says so in its documentation.
//!
//! - [`reader`], [`bytes`], [`compact_size`], [`sequence`]: the input
//!   cursor, little-endian integers, the compact-size prefix, and lists.
//! - [`primitives`], [`asset`], [`note`]: the checked fields.
//! - [`action`], [`bundle`], [`action_group`]: actions and bundles in the
//!   single-asset and the multi-asset format.
//! - [`burn`]: the burn list and its validation.
//! - [`issuance`]: issuance bundles in both of their formats.
//! - [`sighash`]: the registry of signature-hash versions.
//! - [`gap_limits`], [`wallet`], [`fees`], [`auth`]: what wallets built on
//!   the codec share with it.

pub mod action;
pub mod action_group;
pub mod asset;
pub mod auth;
pub mod bundle;
pub mod burn;
pub mod bytes;
pub mod canonical;
pub mod compact_size;
pub mod error;
pub mod fees;
pub mod gap_limits;
pub mod issuance;
pub mod list;
pub mod note;
pub mod primitives;
pub mod reader;
pub mod round_trip;
pub mod sequence;
pub mod sighash;
pub mod wallet;
