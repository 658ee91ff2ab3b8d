//! Error values reported by the decoders, encoders and validators.

use vstd::prelude::*;

verus! {

/// Why a burn list was refused.
#[derive(Debug, Clone, Copy, PartialEq, Eq, Structural)]
pub enum BurnError {
    /// An asset occurs more than once in the list.
    DuplicateAsset,
    /// An entry names the native asset.
    NativeAsset,
    /// An amount is zero or negative, under the policy that demands positive amounts.
    NonPositiveAmount,
    /// An amount is zero, under the policy that only demands nonzero amounts.
    ZeroAmount,
}

impl BurnError {
    /// The human-readable message for this error.
    pub fn message(&self) -> (s: &'static str)
        ensures
            s@ == self.message_text(),
    {
        match self {
            BurnError::DuplicateAsset => "Encountered a duplicate asset to burn.",
            BurnError::NativeAsset => "Cannot burn a native asset.",
            BurnError::NonPositiveAmount => "Cannot burn an asset with a nonpositive amount.",
            BurnError::ZeroAmount => "Cannot burn an asset with a zero amount.",
        }
    }

    /// The text of [`BurnError::message`].
    pub open spec fn message_text(&self) -> Seq<char> {
        match self {
            BurnError::DuplicateAsset => "Encountered a duplicate asset to burn."@,
            BurnError::NativeAsset => "Cannot burn a native asset."@,
            BurnError::NonPositiveAmount => "Cannot burn an asset with a nonpositive amount."@,
            BurnError::ZeroAmount => "Cannot burn an asset with a zero amount."@,
        }
    }
}

/// Why a byte stream was refused by a decoder.
#[derive(Debug, Clone, Copy, PartialEq, Eq, Structural)]
pub enum DecodeError {
    /// The input ended in the middle of a field.
    UnexpectedEndOfInput,
    /// A field does not hold a canonical encoding of its value.
    InvalidEncoding,
    /// A count or a reserved field breaks the framing rules.
    StructuralViolation,
    /// The burn list breaks one of its invariants.
    BurnInvariantViolation(BurnError),
}

/// Why a value could not be written.
#[derive(Debug, Clone, Copy, PartialEq, Eq, Structural)]
pub enum EncodeError {
    /// A length exceeds what a compact-size prefix may carry.
    TooLarge,
    /// The bundle is not of the flavor that the format is for.
    FlavorMismatch,
}

} // verus!
