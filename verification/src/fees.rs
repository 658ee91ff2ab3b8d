//! The view of a bundle that fee and change calculation needs: the kind of
//! the bundle, and the values of its inputs and outputs.

use vstd::prelude::*;
use crate::wallet::NonNegativeAmount;

verus! {

/// `orchard::builder::BundleType`, carried as an opaque value.
#[verifier::external_type_specification]
#[verifier::external_body]
pub struct ExBundleType(orchard::builder::BundleType);

/// What fee and change calculation needs to know of a bundle.
pub trait BundleView<NoteRef> {
    /// The type of the inputs of the bundle.
    type In: InputView<NoteRef>;

    /// The type of the outputs of the bundle.
    type Out: OutputView;

    /// The kind of the bundle.
    fn bundle_type(&self) -> orchard::builder::BundleType;

    /// The inputs of the bundle.
    fn inputs(&self) -> &[Self::In];

    /// The outputs of the bundle.
    fn outputs(&self) -> &[Self::Out];
}

impl<'a, NoteRef, In: InputView<NoteRef>, Out: OutputView> BundleView<NoteRef> for (
    orchard::builder::BundleType,
    &'a [In],
    &'a [Out],
) {
    type In = In;

    type Out = Out;

    fn bundle_type(&self) -> (r: orchard::builder::BundleType)
        ensures
            r == self.0,
    {
        self.0
    }

    fn inputs(&self) -> (r: &[In])
        ensures
            r@ == self.1@,
    {
        self.1
    }

    fn outputs(&self) -> (r: &[Out])
        ensures
            r@ == self.2@,
    {
        self.2
    }
}

/// What fee and change calculation needs to know of an input.
pub trait InputView<NoteRef> {
    /// What identifies the note that is spent.
    fn note_id(&self) -> &NoteRef;

    /// The value of the note that is spent.
    fn value(&self) -> NonNegativeAmount;
}

/// What fee and change calculation needs to know of an output.
pub trait OutputView {
    /// The value of the output.
    fn value(&self) -> NonNegativeAmount;
}

} // verus!
