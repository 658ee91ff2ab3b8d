//! Authorizations of bundles, and maps from one kind of authorization to
//! another.

use vstd::prelude::*;
use crate::issuance::Signed;
use crate::primitives::Signature;

verus! {

/// A kind of authorization of a bundle, with the kind of authorization that
/// its actions carry.
pub trait Authorization {
    /// The authorization of an action.
    type SpendAuth;
}

/// The authorization of a finished bundle: its proof and its binding
/// signature. The actions of such a bundle carry signatures.
#[derive(Debug, PartialEq, Eq)]
pub struct Authorized {
    pub proof_bytes: Vec<u8>,
    pub binding_signature: Signature,
}

impl Authorized {
    /// The authorization with the given proof and binding signature.
    pub fn from_parts(proof_bytes: Vec<u8>, binding_signature: Signature) -> (r: Self)
        ensures
            r == (Authorized { proof_bytes, binding_signature }),
    {
        Authorized { proof_bytes, binding_signature }
    }
}

impl Authorization for Authorized {
    type SpendAuth = Signature;
}

/// A map from the authorizations of one kind to those of another.
pub trait MapAuth<A: Authorization, B: Authorization> {
    /// Maps the authorization of an action.
    fn map_spend_auth(&self, s: A::SpendAuth) -> B::SpendAuth;

    /// Maps the authorization of a bundle.
    fn map_authorization(&self, a: A) -> B;
}

/// The identity map.
impl MapAuth<Authorized, Authorized> for () {
    fn map_spend_auth(&self, s: Signature) -> (r: Signature)
        ensures
            r == s,
    {
        s
    }

    fn map_authorization(&self, a: Authorized) -> (r: Authorized)
        ensures
            r == a,
    {
        a
    }
}

/// A kind of authorization of an issuance bundle.
pub trait IssueAuth {
}

impl IssueAuth for Signed {
}

/// A map from the issuance authorizations of one kind to those of another.
pub trait MapIssueAuth<A: IssueAuth, B: IssueAuth> {
    /// Maps the authorization of an issuance bundle.
    fn map_issue_authorization(&self, a: A) -> B;
}

/// The identity map.
impl MapIssueAuth<Signed, Signed> for () {
    fn map_issue_authorization(&self, a: Signed) -> (r: Signed)
        ensures
            r == a,
    {
        a
    }
}

} // verus!
