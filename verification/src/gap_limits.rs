//! Gap limits for transparent addresses: how many consecutive unused
//! addresses a wallet keeps ahead of the last used one, for each scope of
//! keys, and what follows from them when the gap is to be filled.

use vstd::prelude::*;

verus! {

/// The largest index of a child key that is not hardened.
pub const MAX_CHILD_INDEX: u32 = 0x7FFF_FFFF;

/// The scope of a transparent key: a number below `2^31`.
#[derive(Debug, Clone, Copy, PartialEq, Eq, Structural)]
pub struct TransparentKeyScope {
    scope: u32,
}

impl View for TransparentKeyScope {
    type V = u32;

    closed spec fn view(&self) -> u32 {
        self.scope
    }
}

impl TransparentKeyScope {
    #[verifier::type_invariant]
    spec fn in_range(self) -> bool {
        self.scope <= MAX_CHILD_INDEX
    }

    /// The scope of addresses that are given out to receive funds.
    pub fn external() -> (r: Self)
        ensures
            r@ == 0,
    {
        TransparentKeyScope { scope: 0 }
    }

    /// The scope of addresses for change and other internal use.
    pub fn internal() -> (r: Self)
        ensures
            r@ == 1,
    {
        TransparentKeyScope { scope: 1 }
    }

    /// The scope of addresses that are used once.
    pub fn ephemeral() -> (r: Self)
        ensures
            r@ == 2,
    {
        TransparentKeyScope { scope: 2 }
    }

    /// The scope with the number `i`, if `i` is below `2^31`.
    pub fn custom(i: u32) -> (r: Option<Self>)
        ensures
            r is Some <==> i <= MAX_CHILD_INDEX,
            r is Some ==> r->Some_0@ == i,
    {
        if i <= MAX_CHILD_INDEX {
            Some(TransparentKeyScope { scope: i })
        } else {
            None
        }
    }

    /// The number of the scope.
    pub fn number(&self) -> (r: u32)
        ensures
            r == self@,
            r <= MAX_CHILD_INDEX,
    {
        proof {
            use_type_invariant(self);
        }
        self.scope
    }
}

/// The index of a child key that is not hardened: a number below `2^31`.
#[derive(Debug, Clone, Copy, PartialEq, Eq, Structural)]
pub struct NonHardenedChildIndex {
    index: u32,
}

impl View for NonHardenedChildIndex {
    type V = u32;

    closed spec fn view(&self) -> u32 {
        self.index
    }
}

/// `index + delta`, but at most the largest index.
pub open spec fn saturating_index(index: u32, delta: u32) -> u32 {
    if index + delta <= MAX_CHILD_INDEX {
        (index + delta) as u32
    } else {
        MAX_CHILD_INDEX
    }
}

impl NonHardenedChildIndex {
    #[verifier::type_invariant]
    spec fn in_range(self) -> bool {
        self.index <= MAX_CHILD_INDEX
    }

    /// The index `i`, if `i` is below `2^31`.
    pub fn from_index(i: u32) -> (r: Option<Self>)
        ensures
            r is Some <==> i <= MAX_CHILD_INDEX,
            r is Some ==> r->Some_0@ == i,
    {
        if i <= MAX_CHILD_INDEX {
            Some(NonHardenedChildIndex { index: i })
        } else {
            None
        }
    }

    /// The index as a number.
    pub fn index(&self) -> (r: u32)
        ensures
            r == self@,
            r <= MAX_CHILD_INDEX,
    {
        proof {
            use_type_invariant(self);
        }
        self.index
    }

    /// The index `delta` further on, or the largest index if there is none
    /// that far.
    pub fn saturating_add(&self, delta: u32) -> (r: Self)
        ensures
            r@ == saturating_index(self@, delta),
    {
        proof {
            use_type_invariant(self);
        }
        let sum = self.index.saturating_add(delta);
        if sum <= MAX_CHILD_INDEX {
            NonHardenedChildIndex { index: sum }
        } else {
            NonHardenedChildIndex { index: MAX_CHILD_INDEX }
        }
    }
}

/// The gap limits of the three scopes that a wallet manages.
#[derive(Debug, Copy, Clone, PartialEq, Eq, Structural)]
pub struct GapLimits {
    external: u32,
    internal: u32,
    ephemeral: u32,
}

/// The model of gap limits.
pub struct SpecGapLimits {
    pub external: u32,
    pub internal: u32,
    pub ephemeral: u32,
}

impl View for GapLimits {
    type V = SpecGapLimits;

    closed spec fn view(&self) -> SpecGapLimits {
        SpecGapLimits {
            external: self.external,
            internal: self.internal,
            ephemeral: self.ephemeral,
        }
    }
}

/// The limit for a scope: that of the external, internal or ephemeral
/// scope, and none for any other scope.
pub open spec fn limit_of(limits: SpecGapLimits, scope: u32) -> Option<u32> {
    if scope == 0 {
        Some(limits.external)
    } else if scope == 1 {
        Some(limits.internal)
    } else if scope == 2 {
        Some(limits.ephemeral)
    } else {
        None
    }
}

impl GapLimits {
    /// The gap limits with the given members.
    pub fn new(external: u32, internal: u32, ephemeral: u32) -> (r: Self)
        ensures
            r@ == (SpecGapLimits { external, internal, ephemeral }),
    {
        GapLimits { external, internal, ephemeral }
    }

    /// The gap limit for addresses of the external scope.
    pub fn external(&self) -> (r: u32)
        ensures
            r == self@.external,
    {
        self.external
    }

    /// The gap limit for addresses of the internal scope.
    pub fn internal(&self) -> (r: u32)
        ensures
            r == self@.internal,
    {
        self.internal
    }

    /// The gap limit for addresses of the ephemeral scope.
    pub fn ephemeral(&self) -> (r: u32)
        ensures
            r == self@.ephemeral,
    {
        self.ephemeral
    }

    /// The gap limit for the given scope; none for a scope whose gap is not
    /// managed.
    pub fn limit_for(&self, scope: TransparentKeyScope) -> (r: Option<u32>)
        ensures
            r == limit_of(self@, scope@),
    {
        let number = scope.number();
        if number == 0 {
            Some(self.external())
        } else if number == 1 {
            Some(self.internal())
        } else if number == 2 {
            Some(self.ephemeral())
        } else {
            None
        }
    }
}

impl Default for GapLimits {
    /// Ten external, five internal and ten ephemeral addresses.
    fn default() -> (r: Self)
        ensures
            r@ == (SpecGapLimits { external: 10, internal: 5, ephemeral: 10 }),
    {
        GapLimits { external: 10, internal: 5, ephemeral: 10 }
    }
}

/// The kinds of receiver of a unified address.
#[derive(Debug, Clone, Copy, PartialEq, Eq, Structural)]
pub enum Typecode {
    P2pkh,
    P2sh,
    Sapling,
    Orchard,
    Unknown(u32),
}

/// Why an address could not be generated.
#[derive(Debug, Clone, Copy, PartialEq, Eq, Structural)]
pub enum AddressGenerationError {
    /// The key for a receiver of the given kind is missing.
    KeyNotAvailable(Typecode),
    /// No transparent address can be derived at the given index.
    InvalidTransparentChildIndex(u32),
    /// A unified address was asked for without any shielded receiver.
    ShieldedReceiverRequired,
    /// Gaps of the given scope are not managed.
    UnsupportedTransparentKeyScope(TransparentKeyScope),
}

/// Why the gap of an account could not be filled.
#[derive(Debug, Clone, Copy, PartialEq, Eq)]
pub enum GapAddressesError<SE> {
    /// The storage backend failed.
    Storage(SE),
    /// An address could not be derived.
    AddressGeneration(AddressGenerationError),
    /// The account is not known to the wallet.
    AccountUnknown,
}

/// The three scopes whose gaps a wallet manages.
#[derive(Debug, Clone, Copy, PartialEq, Eq, Structural)]
pub enum ManagedScope {
    /// Addresses that are given out to receive funds: unified addresses,
    /// or bare transparent ones where no shielded receiver can be had.
    External,
    /// Addresses for change: bare transparent addresses of the internal
    /// viewing key.
    Internal,
    /// Addresses that are used once: bare transparent addresses of the
    /// ephemeral viewing key.
    Ephemeral,
}

/// The managed scope with the given number, if there is one.
pub open spec fn managed_scope(scope: u32) -> Option<ManagedScope> {
    if scope == 0 {
        Some(ManagedScope::External)
    } else if scope == 1 {
        Some(ManagedScope::Internal)
    } else if scope == 2 {
        Some(ManagedScope::Ephemeral)
    } else {
        None
    }
}

/// What is to be done about the addresses of a range of indices.
#[derive(Debug, Clone, Copy, PartialEq, Eq, Structural)]
pub enum AddressListPlan {
    /// There is nothing to derive: the list is empty.
    Nothing,
    /// The indices from the first up to, but not including, the second are
    /// to be derived in the scope.
    Derive(ManagedScope, u32, u32),
}

/// The plan for the indices from `start` up to, but not including, `end`.
/// Without a transparent key, it is an error if the scope is internal or
/// ephemeral and the key is required, and nothing is to be done otherwise.
/// With a key, a range that is not empty is to be derived if the scope is
/// one of the three managed ones, and is an error in any other scope.
pub open spec fn address_list_plan(
    has_transparent_key: bool,
    scope: TransparentKeyScope,
    start: u32,
    end: u32,
    require_key: bool,
) -> Result<AddressListPlan, AddressGenerationError> {
    if !has_transparent_key {
        if (scope@ == 1 || scope@ == 2) && require_key {
            Err(AddressGenerationError::KeyNotAvailable(Typecode::P2pkh))
        } else {
            Ok(AddressListPlan::Nothing)
        }
    } else if start >= end {
        Ok(AddressListPlan::Nothing)
    } else {
        match managed_scope(scope@) {
            Some(managed) => Ok(AddressListPlan::Derive(managed, start, end)),
            None => Err(AddressGenerationError::UnsupportedTransparentKeyScope(scope)),
        }
    }
}

/// Decides what is to be done about the addresses of the indices from
/// `start` up to, but not including, `end`.
pub fn plan_address_list(
    has_transparent_key: bool,
    key_scope: TransparentKeyScope,
    start: NonHardenedChildIndex,
    end: NonHardenedChildIndex,
    require_key: bool,
) -> (r: Result<AddressListPlan, AddressGenerationError>)
    ensures
        r == address_list_plan(has_transparent_key, key_scope, start@, end@, require_key),
{
    let scope = key_scope.number();
    if !has_transparent_key {
        if (scope == 1 || scope == 2) && require_key {
            Err(AddressGenerationError::KeyNotAvailable(Typecode::P2pkh))
        } else {
            Ok(AddressListPlan::Nothing)
        }
    } else if start.index() >= end.index() {
        Ok(AddressListPlan::Nothing)
    } else if scope == 0 {
        Ok(AddressListPlan::Derive(ManagedScope::External, start.index(), end.index()))
    } else if scope == 1 {
        Ok(AddressListPlan::Derive(ManagedScope::Internal, start.index(), end.index()))
    } else if scope == 2 {
        Ok(AddressListPlan::Derive(ManagedScope::Ephemeral, start.index(), end.index()))
    } else {
        Err(AddressGenerationError::UnsupportedTransparentKeyScope(key_scope))
    }
}

/// The gap limit to ask the storage about for the scope; a scope whose gap
/// is not managed is refused.
pub fn gap_limit_for_scope<SE>(gap_limits: &GapLimits, key_scope: TransparentKeyScope) -> (r: Result<
    u32,
    GapAddressesError<SE>,
>)
    ensures
        match limit_of(gap_limits@, key_scope@) {
            Some(limit) => r matches Ok(found) && found == limit,
            None => r matches Err(GapAddressesError::AddressGeneration(e)) && e
                == AddressGenerationError::UnsupportedTransparentKeyScope(key_scope),
        },
{
    match gap_limits.limit_for(key_scope) {
        Some(limit) => Ok(limit),
        None => Err(
            GapAddressesError::AddressGeneration(
                AddressGenerationError::UnsupportedTransparentKeyScope(key_scope),
            ),
        ),
    }
}

/// The indices to derive once the storage has said where the first gap
/// starts: from there as far as the limit reaches, the end not included;
/// none if there is no gap.
pub fn gap_fill_range(gap_start: Option<NonHardenedChildIndex>, gap_limit: u32) -> (r: Option<
    (NonHardenedChildIndex, NonHardenedChildIndex),
>)
    ensures
        match gap_start {
            None => r is None,
            Some(start) => r matches Some(range) && range.0 == start && range.1@
                == saturating_index(start@, gap_limit),
        },
{
    match gap_start {
        None => None,
        Some(start) => Some((start, start.saturating_add(gap_limit))),
    }
}

/// Whether the failure to make a unified address is mended by giving out
/// the bare transparent address: only where a shielded receiver was
/// required and is not there.
pub fn falls_back_to_transparent(error: &AddressGenerationError) -> (r: bool)
    ensures
        r == (*error == AddressGenerationError::ShieldedReceiverRequired),
{
    match error {
        AddressGenerationError::ShieldedReceiverRequired => true,
        _ => false,
    }
}

} // verus!
