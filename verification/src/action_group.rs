//! The multi-asset wire format: a count of action groups, the groups, and
//! behind them the value balance, the burn list and the binding signature.
//! An ordinary multi-asset bundle has exactly one group; a swap bundle may
//! have several.

use vstd::prelude::*;
use nonempty::NonEmpty;
use crate::action::{
    action_encoder, action_parser, all_of_flavor, valid_action, Action, BundleFlavor,
};
use crate::asset::AssetBase;
use crate::bundle::{
    action_views, authorized, bodies, bundle_v5_bytes, encodable, encode_verdict,
    lemma_action_views, no_bundle_bytes, parse_bundle_v5, read_actions_without_auth,
    read_orchard_bundle, read_spend_auth_signatures, same_flavor, signature_encoder,
    signature_parser, signatures, valid_bundle, write_actions_without_auth,
    write_spend_auth_signatures, write_v5_bundle, Bundle, SpecAuthorizedAction, SpecBundle,
};
use crate::burn::{
    burn_bytes, burn_entry_validity, burn_view, parse_burn, read_bundle_burn_with,
    validate_bundle_burn_with, validate_burn, write_bundle_burn, BurnPolicy, SpecBurnEntry,
};
use crate::bytes::{i64_le_bytes, le_bytes, le_value, Parsed};
use crate::canonical::{lemma_bundle_v6_canonical, lemma_swap_bundle_canonical};
use crate::compact_size::{
    byte_string_bytes, parse_byte_string, parse_compact_size, read_byte_string, read_compact_size,
    write_byte_string, write_compact_size, MAX_COMPACT_SIZE,
};
use crate::error::{DecodeError, EncodeError};
use crate::list::{lemma_nonempty_seq_of_parts, nonempty_get, nonempty_seq};
use crate::primitives::{
    byte_of_flags, parse_amount, parse_anchor, parse_flags, parse_signature, read_amount,
    read_anchor, read_flags, read_signature, u32_from_le, u32_to_le, valid_amount, valid_anchor,
    write_amount, write_anchor, write_flags, write_signature, Amount, Anchor, Flags, Signature,
};
use crate::reader::{consumed, parse_bytes, put_bytes, viewed, viewed_option, Reader};
use crate::sequence::{
    all_valid, items_bytes, lemma_items_bytes_push, lemma_parse_items_error_stays,
    lemma_parse_items_len, list_bytes, parse_items, parse_list,
};

verus! {

/// The model of an action group.
pub struct SpecActionGroup {
    pub actions: Seq<SpecAuthorizedAction>,
    pub flags: Flags,
    pub anchor: Seq<u8>,
    pub proof: Seq<u8>,
    pub timelimit: u32,
}

/// The model of a swap bundle.
pub struct SpecSwapBundle {
    pub action_groups: Seq<SpecActionGroup>,
    pub value_balance: int,
    pub burn: Seq<SpecBurnEntry>,
    pub burn_policy: BurnPolicy,
    pub binding_signature: Seq<u8>,
}

/// The time limit of a group: four bytes that must encode zero. The field
/// is there for later use.
pub open spec fn parse_timelimit(data: Seq<u8>, pos: int) -> Parsed<u32> {
    match parse_bytes(data, pos, 4) {
        Ok((bytes, next)) => if le_value(bytes) == 0 {
            Ok((0u32, next))
        } else {
            Err(DecodeError::StructuralViolation)
        },
        Err(e) => Err(e),
    }
}

/// One action group. A counted list of multi-asset actions comes first, and
/// must not be empty. Then follow the flag byte, the anchor, the proof as a
/// byte string, the time limit, and one signature for each action in the
/// order of the actions.
pub open spec fn parse_action_group(data: Seq<u8>, pos: int) -> Parsed<SpecActionGroup> {
    match parse_list(action_parser(BundleFlavor::MultiAsset), data, pos) {
        Err(e) => Err(e),
        Ok((actions, at1)) => if actions.len() == 0 {
            Err(DecodeError::StructuralViolation)
        } else {
            match parse_flags(data, at1) {
                Err(e) => Err(e),
                Ok((flags, at2)) => match parse_anchor(data, at2) {
                    Err(e) => Err(e),
                    Ok((anchor, at3)) => match parse_byte_string(data, at3) {
                        Err(e) => Err(e),
                        Ok((proof, at4)) => match parse_timelimit(data, at4) {
                            Err(e) => Err(e),
                            Ok((timelimit, at5)) => match parse_items(
                                signature_parser(),
                                data,
                                at5,
                                actions.len(),
                            ) {
                                Err(e) => Err(e),
                                Ok((sigs, at6)) => Ok(
                                    (
                                        SpecActionGroup {
                                            actions: authorized(actions, sigs),
                                            flags,
                                            anchor,
                                            proof,
                                            timelimit,
                                        },
                                        at6,
                                    ),
                                ),
                            },
                        },
                    },
                },
            }
        }
    }
}

/// The encoding of an action group.
pub open spec fn action_group_bytes(group: SpecActionGroup) -> Seq<u8> {
    list_bytes(action_encoder(), bodies(group.actions)) + seq![byte_of_flags(group.flags)]
        + group.anchor + byte_string_bytes(group.proof) + le_bytes(group.timelimit as nat, 4)
        + items_bytes(signature_encoder(), signatures(group.actions))
}

/// [`parse_action_group`] as a value.
pub open spec fn action_group_parser() -> spec_fn(Seq<u8>, int) -> Parsed<SpecActionGroup> {
    |data: Seq<u8>, pos: int| parse_action_group(data, pos)
}

/// [`action_group_bytes`] as a value.
pub open spec fn action_group_encoder() -> spec_fn(SpecActionGroup) -> Seq<u8> {
    |group: SpecActionGroup| action_group_bytes(group)
}

/// The groups of a bundle: a compact-size count and then that many groups.
/// Where a single group is demanded, a count other than zero and one is a
/// `StructuralViolation`, and no group is read.
pub open spec fn parse_action_groups(data: Seq<u8>, pos: int, force_single_group: bool) -> Parsed<
    Seq<SpecActionGroup>,
> {
    match parse_compact_size(data, pos) {
        Err(e) => Err(e),
        Ok((count, at1)) => if count == 0 {
            Ok((Seq::empty(), at1))
        } else if force_single_group && count != 1 {
            Err(DecodeError::StructuralViolation)
        } else {
            parse_items(action_group_parser(), data, at1, count as nat)
        },
    }
}

/// What follows the groups: the value balance, the burn list, validated
/// under the policy, and the binding signature.
pub open spec fn parse_balance_metadata(data: Seq<u8>, pos: int, policy: BurnPolicy) -> Parsed<
    (int, Seq<SpecBurnEntry>, Seq<u8>),
> {
    match parse_amount(data, pos) {
        Err(e) => Err(e),
        Ok((value_balance, at1)) => match parse_burn(data, at1, policy) {
            Err(e) => Err(e),
            Ok((burn, at2)) => match parse_signature(data, at2) {
                Err(e) => Err(e),
                Ok((binding_signature, at3)) => Ok(((value_balance, burn, binding_signature), at3)),
            },
        },
    }
}

/// The encoding that [`parse_balance_metadata`] reads.
pub open spec fn balance_metadata_bytes(
    value_balance: int,
    burn: Seq<SpecBurnEntry>,
    binding_signature: Seq<u8>,
) -> Seq<u8> {
    i64_le_bytes(value_balance) + burn_bytes(burn) + binding_signature
}

/// The multi-asset format. The group count zero means that there is no
/// bundle, and nothing more is read; any count but one is refused. The one
/// group is followed by the value balance, the burn list and the binding
/// signature. The burn list is held to the given policy.
pub open spec fn parse_bundle_v6(data: Seq<u8>, pos: int, policy: BurnPolicy) -> Parsed<
    Option<SpecBundle>,
> {
    match parse_action_groups(data, pos, true) {
        Err(e) => Err(e),
        Ok((groups, at1)) => if groups.len() == 0 {
            Ok((None, at1))
        } else {
            match parse_balance_metadata(data, at1, policy) {
                Err(e) => Err(e),
                Ok(((value_balance, burn, binding_signature), at2)) => Ok(
                    (
                        Some(
                            SpecBundle {
                                flavor: BundleFlavor::MultiAsset,
                                actions: groups[0].actions,
                                flags: groups[0].flags,
                                value_balance,
                                burn,
                                burn_policy: policy,
                                anchor: groups[0].anchor,
                                proof: groups[0].proof,
                                binding_signature,
                            },
                        ),
                        at2,
                    ),
                ),
            }
        }
    }
}

/// The one group of a multi-asset bundle, with the time limit zero.
pub open spec fn group_of_bundle(bundle: SpecBundle, timelimit: u32) -> SpecActionGroup {
    SpecActionGroup {
        actions: bundle.actions,
        flags: bundle.flags,
        anchor: bundle.anchor,
        proof: bundle.proof,
        timelimit,
    }
}

/// The encoding of a bundle in the multi-asset format.
pub open spec fn bundle_v6_bytes(bundle: SpecBundle) -> Seq<u8> {
    seq![1u8] + action_group_bytes(group_of_bundle(bundle, 0)) + balance_metadata_bytes(
        bundle.value_balance,
        bundle.burn,
        bundle.binding_signature,
    )
}

/// The swap format: as the multi-asset format, with any number of groups.
pub open spec fn parse_swap_bundle(data: Seq<u8>, pos: int, policy: BurnPolicy) -> Parsed<
    Option<SpecSwapBundle>,
> {
    match parse_action_groups(data, pos, false) {
        Err(e) => Err(e),
        Ok((action_groups, at1)) => if action_groups.len() == 0 {
            Ok((None, at1))
        } else {
            match parse_balance_metadata(data, at1, policy) {
                Err(e) => Err(e),
                Ok(((value_balance, burn, binding_signature), at2)) => Ok(
                    (
                        Some(
                            SpecSwapBundle {
                                action_groups,
                                value_balance,
                                burn,
                                burn_policy: policy,
                                binding_signature,
                            },
                        ),
                        at2,
                    ),
                ),
            }
        }
    }
}

/// The encoding of a swap bundle.
pub open spec fn swap_bundle_bytes(bundle: SpecSwapBundle) -> Seq<u8> {
    list_bytes(action_group_encoder(), bundle.action_groups) + balance_metadata_bytes(
        bundle.value_balance,
        bundle.burn,
        bundle.binding_signature,
    )
}

/// A set of multi-asset actions that share flags, anchor and proof.
#[derive(Debug, PartialEq, Eq)]
pub struct ActionGroup {
    actions: NonEmpty<Action<Signature>>,
    flags: Flags,
    anchor: Anchor,
    proof: Vec<u8>,
    timelimit: u32,
}

impl View for ActionGroup {
    type V = SpecActionGroup;

    closed spec fn view(&self) -> SpecActionGroup {
        SpecActionGroup {
            actions: action_views(nonempty_seq(self.actions)),
            flags: self.flags,
            anchor: self.anchor@,
            proof: self.proof@,
            timelimit: self.timelimit,
        }
    }
}

impl ActionGroup {
    #[verifier::type_invariant]
    spec fn multi_asset(self) -> bool {
        all_of_flavor(nonempty_seq(self.actions), BundleFlavor::MultiAsset)
    }

    /// The group with the given parts, if all the actions are multi-asset
    /// actions.
    pub fn from_parts(
        actions: NonEmpty<Action<Signature>>,
        flags: Flags,
        anchor: Anchor,
        proof_bytes: Vec<u8>,
        timelimit: u32,
    ) -> (r: Option<Self>)
        ensures
            r is Some <==> all_of_flavor(nonempty_seq(actions), BundleFlavor::MultiAsset),
            r matches Some(group) ==> group@ == (SpecActionGroup {
                actions: action_views(nonempty_seq(actions)),
                flags,
                anchor: anchor@,
                proof: proof_bytes@,
                timelimit,
            }),
    {
        let n = actions.len();
        let mut i: usize = 0;
        while i < n
            invariant
                i <= n,
                n == nonempty_seq(actions).len(),
                forall|k: int|
                    0 <= k < i ==> (#[trigger] nonempty_seq(actions)[k]).flavor()
                        == BundleFlavor::MultiAsset,
            decreases n - i,
        {
            let found = nonempty_get(&actions, i).encrypted_note().payload_flavor();
            if !same_flavor(found, BundleFlavor::MultiAsset) {
                return None;
            }
            i += 1;
        }
        Some(ActionGroup { actions, flags, anchor, proof: proof_bytes, timelimit })
    }

    /// The actions.
    pub fn actions(&self) -> (r: &NonEmpty<Action<Signature>>)
        ensures
            action_views(nonempty_seq(*r)) == self@.actions,
            all_of_flavor(nonempty_seq(*r), BundleFlavor::MultiAsset),
    {
        proof {
            use_type_invariant(self);
        }
        &self.actions
    }

    /// The flags.
    pub fn flags(&self) -> (r: &Flags)
        ensures
            *r == self@.flags,
    {
        &self.flags
    }

    /// The anchor.
    pub fn anchor(&self) -> (r: &Anchor)
        ensures
            r@ == self@.anchor,
    {
        &self.anchor
    }

    /// The proof, which this library does not interpret.
    pub fn proof_bytes(&self) -> (r: &Vec<u8>)
        ensures
            r@ == self@.proof,
    {
        &self.proof
    }

    /// The time limit.
    pub fn timelimit(&self) -> (r: u32)
        ensures
            r == self@.timelimit,
    {
        self.timelimit
    }

    /// The parts of the group: actions, flags, anchor, proof, time limit.
    pub fn into_parts(self) -> (r: (NonEmpty<Action<Signature>>, Flags, Anchor, Vec<u8>, u32))
        ensures
            action_views(nonempty_seq(r.0)) == self@.actions,
            all_of_flavor(nonempty_seq(r.0), BundleFlavor::MultiAsset),
            r.1 == self@.flags,
            r.2@ == self@.anchor,
            r.3@ == self@.proof,
            r.4 == self@.timelimit,
    {
        proof {
            use_type_invariant(&self);
        }
        (self.actions, self.flags, self.anchor, self.proof, self.timelimit)
    }
}

/// The models of a run of groups.
pub open spec fn group_views(groups: Seq<ActionGroup>) -> Seq<SpecActionGroup> {
    groups.map_values(|group: ActionGroup| group@)
}

/// A bundle of several action groups with one value balance, burn list and
/// binding signature.
#[derive(Debug, PartialEq, Eq)]
pub struct SwapBundle {
    action_groups: Vec<ActionGroup>,
    value_balance: Amount,
    burn: Vec<(AssetBase, Amount)>,
    burn_policy: BurnPolicy,
    binding_signature: Signature,
}

impl View for SwapBundle {
    type V = SpecSwapBundle;

    closed spec fn view(&self) -> SpecSwapBundle {
        SpecSwapBundle {
            action_groups: group_views(self.action_groups@),
            value_balance: self.value_balance@,
            burn: burn_view(self.burn@),
            burn_policy: self.burn_policy,
            binding_signature: self.binding_signature@,
        }
    }
}

impl SwapBundle {
    #[verifier::type_invariant]
    spec fn fits(self) -> bool {
        validate_burn(burn_view(self.burn@), self.burn_policy) is Ok
    }

    /// The swap bundle with the given parts, held to positive burn amounts,
    /// if the burn list passes validation.
    pub fn from_parts(
        action_groups: Vec<ActionGroup>,
        value_balance: Amount,
        burn: Vec<(AssetBase, Amount)>,
        binding_signature: Signature,
    ) -> (r: Option<Self>)
        ensures
            r is Some <==> validate_burn(burn_view(burn@), BurnPolicy::Positive) is Ok,
            r matches Some(bundle) ==> bundle@ == (SpecSwapBundle {
                action_groups: group_views(action_groups@),
                value_balance: value_balance@,
                burn: burn_view(burn@),
                burn_policy: BurnPolicy::Positive,
                binding_signature: binding_signature@,
            }),
    {
        SwapBundle::from_parts_with(
            BurnPolicy::Positive,
            action_groups,
            value_balance,
            burn,
            binding_signature,
        )
    }

    /// The swap bundle with the given parts, held to the given rule for burn
    /// amounts, if the burn list passes validation under it.
    pub fn from_parts_with(
        burn_policy: BurnPolicy,
        action_groups: Vec<ActionGroup>,
        value_balance: Amount,
        burn: Vec<(AssetBase, Amount)>,
        binding_signature: Signature,
    ) -> (r: Option<Self>)
        ensures
            r is Some <==> validate_burn(burn_view(burn@), burn_policy) is Ok,
            r matches Some(bundle) ==> bundle@ == (SpecSwapBundle {
                action_groups: group_views(action_groups@),
                value_balance: value_balance@,
                burn: burn_view(burn@),
                burn_policy,
                binding_signature: binding_signature@,
            }),
    {
        match validate_bundle_burn_with(&burn, burn_policy) {
            Ok(()) => Some(
                SwapBundle { action_groups, value_balance, burn, burn_policy, binding_signature },
            ),
            Err(_) => None,
        }
    }

    /// The rule for burn amounts that the bundle is held to.
    pub fn burn_policy(&self) -> (r: BurnPolicy)
        ensures
            r == self@.burn_policy,
    {
        self.burn_policy
    }

    /// The action groups.
    pub fn action_groups(&self) -> (r: &Vec<ActionGroup>)
        ensures
            group_views(r@) == self@.action_groups,
    {
        &self.action_groups
    }

    /// The net value that the bundle moves out of the shielded pool.
    pub fn value_balance(&self) -> (r: &Amount)
        ensures
            r@ == self@.value_balance,
    {
        &self.value_balance
    }

    /// The burn list.
    pub fn burn(&self) -> (r: &Vec<(AssetBase, Amount)>)
        ensures
            burn_view(r@) == self@.burn,
            validate_burn(self@.burn, self@.burn_policy) is Ok,
    {
        proof {
            use_type_invariant(self);
        }
        &self.burn
    }

    /// The binding signature.
    pub fn binding_signature(&self) -> (r: &Signature)
        ensures
            r@ == self@.binding_signature,
    {
        &self.binding_signature
    }
}

/// Reads the time limit of a group, which must be zero.
pub fn read_timelimit(reader: &mut Reader) -> (r: Result<u32, DecodeError>)
    ensures
        consumed(
            *old(reader),
            *final(reader),
            r,
            parse_timelimit(old(reader).data(), old(reader).pos()),
        ),
{
    let mut cursor = *reader;
    let bytes = cursor.read_array::<4>()?;
    let timelimit = u32_from_le(&bytes);
    if timelimit != 0 {
        return Err(DecodeError::StructuralViolation);
    }
    *reader = cursor;
    Ok(timelimit)
}

/// Reads one action group.
pub fn read_action_group(reader: &mut Reader) -> (r: Result<ActionGroup, DecodeError>)
    ensures
        consumed(
            *old(reader),
            *final(reader),
            viewed(r),
            parse_action_group(old(reader).data(), old(reader).pos()),
        ),
{
    let mut cursor = *reader;
    let actions_without_auth = read_actions_without_auth(&mut cursor, BundleFlavor::MultiAsset)?;
    if actions_without_auth.len() == 0 {
        return Err(DecodeError::StructuralViolation);
    }
    let flags = read_flags(&mut cursor)?;
    let anchor = read_anchor(&mut cursor)?;
    let proof_bytes = read_byte_string(&mut cursor)?;
    let timelimit = read_timelimit(&mut cursor)?;
    let signed = read_spend_auth_signatures(&mut cursor, &actions_without_auth)?;
    let ghost signed_seq = signed@;
    match NonEmpty::from_vec(signed) {
        Some(actions) => {
            proof {
                lemma_nonempty_seq_of_parts(actions, signed_seq);
                lemma_action_views(signed_seq);
            }
            *reader = cursor;
            Ok(ActionGroup { actions, flags, anchor, proof: proof_bytes, timelimit })
        },
        None => Err(DecodeError::StructuralViolation),
    }
}

/// Reads the count of action groups and the groups. Where a single group is
/// demanded, a count other than zero and one is refused before any group is
/// read.
pub fn read_action_groups(reader: &mut Reader, force_single_group: bool) -> (r: Result<
    Vec<ActionGroup>,
    DecodeError,
>)
    ensures
        consumed(
            *old(reader),
            *final(reader),
            match r {
                Ok(groups) => Ok(group_views(groups@)),
                Err(e) => Err(e),
            },
            parse_action_groups(old(reader).data(), old(reader).pos(), force_single_group),
        ),
{
    let mut cursor = *reader;
    let ghost data = cursor.data();
    let num_action_groups = read_compact_size(&mut cursor)?;
    let ghost start = cursor.pos();
    let mut groups: Vec<ActionGroup> = Vec::new();
    assert(group_views(groups@) =~= Seq::empty());
    if num_action_groups == 0 {
        *reader = cursor;
        return Ok(groups);
    } else if force_single_group && num_action_groups != 1 {
        return Err(DecodeError::StructuralViolation);
    }
    let mut i: usize = 0;
    while i < num_action_groups
        invariant
            i <= num_action_groups,
            *reader == *old(reader),
            num_action_groups != 0,
            !(force_single_group && num_action_groups != 1),
            cursor.data() == data,
            data == old(reader).data(),
            0 <= old(reader).pos() <= data.len(),
            parse_compact_size(data, old(reader).pos()) == Ok::<(u64, int), DecodeError>(
                (num_action_groups as u64, start),
            ),
            parse_items(action_group_parser(), data, start, i as nat) == Ok::<
                (Seq<SpecActionGroup>, int),
                DecodeError,
            >((group_views(groups@), cursor.pos())),
        decreases num_action_groups - i,
    {
        let ghost before = group_views(groups@);
        match read_action_group(&mut cursor) {
            Ok(group) => {
                groups.push(group);
                assert(group_views(groups@) =~= before.push(group@));
            },
            Err(e) => {
                proof {
                    lemma_parse_items_error_stays(
                        action_group_parser(),
                        data,
                        start,
                        (i + 1) as nat,
                        num_action_groups as nat,
                    );
                }
                return Err(e);
            },
        }
        i += 1;
    }
    *reader = cursor;
    Ok(groups)
}

/// Where a single group is demanded, at most one is parsed.
pub proof fn lemma_single_group(data: Seq<u8>, pos: int)
    ensures
        parse_action_groups(data, pos, true) matches Ok(p) ==> p.0.len() <= 1,
{
    match parse_compact_size(data, pos) {
        Ok((count, at1)) => {
            lemma_parse_items_len(action_group_parser(), data, at1, count as nat);
        },
        Err(_) => {},
    }
}

/// Reads the value balance, the burn list, which it validates under the
/// policy, and the binding signature.
pub fn read_bundle_balance_metadata(reader: &mut Reader, policy: BurnPolicy) -> (r: Result<
    (Amount, Vec<(AssetBase, Amount)>, Signature),
    DecodeError,
>)
    ensures
        consumed(
            *old(reader),
            *final(reader),
            match r {
                Ok(parts) => Ok((parts.0@, burn_view(parts.1@), parts.2@)),
                Err(e) => Err(e),
            },
            parse_balance_metadata(old(reader).data(), old(reader).pos(), policy),
        ),
        r matches Ok(parts) ==> validate_burn(burn_view(parts.1@), policy) is Ok,
{
    let mut cursor = *reader;
    let value_balance = read_amount(&mut cursor)?;
    let burn = read_bundle_burn_with(&mut cursor, policy)?;
    let binding_signature = read_signature(&mut cursor)?;
    *reader = cursor;
    Ok((value_balance, burn, binding_signature))
}

/// Reads a bundle in the multi-asset format, and holds it to positive burn
/// amounts.
pub fn read_orchard_zsa_bundle(reader: &mut Reader) -> (r: Result<Option<Bundle>, DecodeError>)
    ensures
        consumed(
            *old(reader),
            *final(reader),
            viewed_option(r),
            parse_bundle_v6(old(reader).data(), old(reader).pos(), BurnPolicy::Positive),
        ),
        r matches Ok(Some(bundle)) ==> valid_bundle(bundle@) && encodable(bundle@),
{
    read_orchard_zsa_bundle_with(reader, BurnPolicy::Positive)
}

/// Reads a bundle in the multi-asset format, and holds it to the given rule
/// for burn amounts. What it yields is a valid bundle that could be written
/// again.
pub fn read_orchard_zsa_bundle_with(reader: &mut Reader, policy: BurnPolicy) -> (r: Result<
    Option<Bundle>,
    DecodeError,
>)
    ensures
        consumed(
            *old(reader),
            *final(reader),
            viewed_option(r),
            parse_bundle_v6(old(reader).data(), old(reader).pos(), policy),
        ),
        r matches Ok(Some(bundle)) ==> valid_bundle(bundle@) && encodable(bundle@),
{
    proof {
        lemma_bundle_v6_canonical(reader.data(), reader.pos(), policy);
    }
    let mut cursor = *reader;
    let mut groups = read_action_groups(&mut cursor, true)?;
    match groups.pop() {
        None => {
            *reader = cursor;
            Ok(None)
        },
        Some(group) => {
            proof {
                lemma_single_group(old(reader).data(), old(reader).pos());
            }
            let (value_balance, burn, binding_signature) = read_bundle_balance_metadata(
                &mut cursor,
                policy,
            )?;
            let (actions, flags, anchor, proof_bytes, _timelimit) = group.into_parts();
            *reader = cursor;
            Ok(
                Some(
                    Bundle::assemble(
                        BundleFlavor::MultiAsset,
                        policy,
                        actions,
                        flags,
                        value_balance,
                        burn,
                        anchor,
                        proof_bytes,
                        binding_signature,
                    ),
                ),
            )
        },
    }
}

/// Reads a swap bundle, and holds it to positive burn amounts.
pub fn read_orchard_swap_bundle(reader: &mut Reader) -> (r: Result<Option<SwapBundle>, DecodeError>)
    ensures
        consumed(
            *old(reader),
            *final(reader),
            viewed_option(r),
            parse_swap_bundle(old(reader).data(), old(reader).pos(), BurnPolicy::Positive),
        ),
        r matches Ok(Some(bundle)) ==> valid_swap_bundle(bundle@) && swap_encodable(bundle@),
{
    read_orchard_swap_bundle_with(reader, BurnPolicy::Positive)
}

/// Reads a swap bundle, and holds it to the given rule for burn amounts.
pub fn read_orchard_swap_bundle_with(reader: &mut Reader, policy: BurnPolicy) -> (r: Result<
    Option<SwapBundle>,
    DecodeError,
>)
    ensures
        consumed(
            *old(reader),
            *final(reader),
            viewed_option(r),
            parse_swap_bundle(old(reader).data(), old(reader).pos(), policy),
        ),
        r matches Ok(Some(bundle)) ==> valid_swap_bundle(bundle@) && swap_encodable(bundle@),
{
    proof {
        lemma_swap_bundle_canonical(reader.data(), reader.pos(), policy);
    }
    let mut cursor = *reader;
    let action_groups = read_action_groups(&mut cursor, false)?;
    if action_groups.len() == 0 {
        *reader = cursor;
        return Ok(None);
    }
    let (value_balance, burn, binding_signature) = read_bundle_balance_metadata(&mut cursor, policy)?;
    *reader = cursor;
    Ok(
        Some(
            SwapBundle {
                action_groups,
                value_balance,
                burn,
                burn_policy: policy,
                binding_signature,
            },
        ),
    )
}

/// The single-asset format for a single-asset bundle, the multi-asset
/// format with positive burn amounts for a multi-asset bundle.
pub open spec fn parse_bundle(data: Seq<u8>, pos: int, flavor: BundleFlavor) -> Parsed<
    Option<SpecBundle>,
> {
    match flavor {
        BundleFlavor::Vanilla => parse_bundle_v5(data, pos),
        BundleFlavor::MultiAsset => parse_bundle_v6(data, pos, BurnPolicy::Positive),
    }
}

/// The encoding of a bundle in the format of its flavor, and of an absent
/// bundle.
pub open spec fn bundle_bytes(bundle: Option<SpecBundle>) -> Seq<u8> {
    match bundle {
        None => no_bundle_bytes(),
        Some(bundle) => match bundle.flavor {
            BundleFlavor::Vanilla => bundle_v5_bytes(bundle),
            BundleFlavor::MultiAsset => bundle_v6_bytes(bundle),
        },
    }
}

/// Reads a bundle in the format of the given flavor.
pub fn read_bundle(reader: &mut Reader, flavor: BundleFlavor) -> (r: Result<
    Option<Bundle>,
    DecodeError,
>)
    ensures
        consumed(
            *old(reader),
            *final(reader),
            viewed_option(r),
            parse_bundle(old(reader).data(), old(reader).pos(), flavor),
        ),
        r matches Ok(Some(bundle)) ==> valid_bundle(bundle@) && encodable(bundle@),
{
    match flavor {
        BundleFlavor::Vanilla => read_orchard_bundle(reader),
        BundleFlavor::MultiAsset => read_orchard_zsa_bundle(reader),
    }
}

/// What holds of the model of a group that was read or is about to be
/// written by this library: it has an action; each action, signature and
/// field is what its decoder accepts; the actions are multi-asset actions.
pub open spec fn valid_action_group(group: SpecActionGroup) -> bool {
    &&& group.actions.len() > 0
    &&& forall|i: int|
        0 <= i < group.actions.len() ==> valid_action(
            (#[trigger] group.actions[i]).0,
            BundleFlavor::MultiAsset,
        ) && group.actions[i].1.len() == 64
    &&& valid_anchor(group.anchor)
}

/// Whether the counts of a group are small enough to be written.
pub open spec fn group_encodable(group: SpecActionGroup) -> bool {
    &&& group.actions.len() <= MAX_COMPACT_SIZE
    &&& group.proof.len() <= MAX_COMPACT_SIZE
}

/// Writes a group from its parts: the actions, the flag byte, the anchor,
/// the proof, the time limit and the signatures. A group with more actions
/// or a longer proof than a compact size may say is refused.
fn write_group_parts(
    writer: &mut Vec<u8>,
    actions: &NonEmpty<Action<Signature>>,
    flags: &Flags,
    anchor: &Anchor,
    proof_bytes: &Vec<u8>,
    timelimit: u32,
) -> (r: Result<(), EncodeError>)
    requires
        all_of_flavor(nonempty_seq(*actions), BundleFlavor::MultiAsset),
    ensures
        r is Ok <==> group_encodable(
            SpecActionGroup {
                actions: action_views(nonempty_seq(*actions)),
                flags: *flags,
                anchor: anchor@,
                proof: proof_bytes@,
                timelimit,
            },
        ),
        r is Ok ==> final(writer)@ == old(writer)@ + action_group_bytes(
            SpecActionGroup {
                actions: action_views(nonempty_seq(*actions)),
                flags: *flags,
                anchor: anchor@,
                proof: proof_bytes@,
                timelimit,
            },
        ),
        r is Ok ==> valid_action_group(
            SpecActionGroup {
                actions: action_views(nonempty_seq(*actions)),
                flags: *flags,
                anchor: anchor@,
                proof: proof_bytes@,
                timelimit,
            },
        ),
        r is Err ==> final(writer)@ == old(writer)@,
{
    if actions.len() > MAX_COMPACT_SIZE as usize || proof_bytes.len()
        > MAX_COMPACT_SIZE as usize {
        return Err(EncodeError::TooLarge);
    }
    proof {
        lemma_action_views(nonempty_seq(*actions));
    }
    match write_actions_without_auth(writer, actions) {
        Ok(()) => {},
        Err(e) => {
            return Err(e);
        },
    }
    write_flags(writer, flags);
    write_anchor(writer, anchor);
    match write_byte_string(writer, proof_bytes.as_slice()) {
        Ok(()) => {},
        Err(e) => {
            return Err(e);
        },
    }
    let limit = u32_to_le(timelimit);
    put_bytes(writer, &limit);
    write_spend_auth_signatures(writer, actions);
    Ok(())
}

/// The verdict on writing the group of a bundle: a bundle that is not a
/// multi-asset bundle is a `FlavorMismatch`; one with more actions or a
/// longer proof than a compact size may say is `TooLarge`.
pub open spec fn group_verdict(bundle: SpecBundle) -> Result<(), EncodeError> {
    if bundle.flavor != BundleFlavor::MultiAsset {
        Err(EncodeError::FlavorMismatch)
    } else if !group_encodable(group_of_bundle(bundle, 0)) {
        Err(EncodeError::TooLarge)
    } else {
        Ok(())
    }
}

/// Writes the actions, flags, anchor, proof and signatures of a multi-asset
/// bundle as one action group with the given time limit. A bundle that
/// [`group_verdict`] refuses is not written, and the buffer is then left as
/// it was.
pub fn write_action_group(writer: &mut Vec<u8>, bundle: &Bundle, timelimit: u32) -> (r: Result<
    (),
    EncodeError,
>)
    ensures
        r == group_verdict(bundle@),
        r is Ok ==> final(writer)@ == old(writer)@ + action_group_bytes(
            group_of_bundle(bundle@, timelimit),
        ),
        r is Ok ==> valid_action_group(group_of_bundle(bundle@, timelimit)),
        r is Err ==> final(writer)@ == old(writer)@,
{
    if !same_flavor(bundle.flavor(), BundleFlavor::MultiAsset) {
        return Err(EncodeError::FlavorMismatch);
    }
    match write_group_parts(
        writer,
        bundle.actions(),
        bundle.flags(),
        bundle.anchor(),
        bundle.proof_bytes(),
        timelimit,
    ) {
        Ok(()) => Ok(()),
        Err(_) => Err(EncodeError::TooLarge),
    }
}

/// Writes the value balance, the burn list and the binding signature. A
/// burn list with more entries than a compact size may say is refused.
pub fn write_bundle_balance_metadata(
    writer: &mut Vec<u8>,
    value_balance: &Amount,
    burn: &Vec<(AssetBase, Amount)>,
    binding_signature: &Signature,
) -> (r: Result<(), EncodeError>)
    ensures
        r is Ok <==> burn@.len() <= MAX_COMPACT_SIZE,
        r is Ok ==> final(writer)@ == old(writer)@ + balance_metadata_bytes(
            value_balance@,
            burn_view(burn@),
            binding_signature@,
        ),
        r is Ok ==> valid_amount(value_balance@) && binding_signature@.len() == 64 && all_valid(
            burn_entry_validity(),
            burn_view(burn@),
        ),
        r is Err ==> final(writer)@ == old(writer)@,
{
    if burn.len() > MAX_COMPACT_SIZE as usize {
        return Err(EncodeError::TooLarge);
    }
    write_amount(writer, value_balance);
    match write_bundle_burn(writer, burn) {
        Ok(()) => {},
        Err(e) => {
            return Err(e);
        },
    }
    write_signature(writer, binding_signature);
    Ok(())
}

/// Writes a bundle in the multi-asset format: the group count one, the
/// bundle's one group with the time limit zero, and what follows the
/// groups. A bundle that [`encode_verdict`] refuses is not written, and the
/// buffer is then left as it was.
pub fn write_orchard_zsa_bundle(writer: &mut Vec<u8>, bundle: &Bundle) -> (r: Result<
    (),
    EncodeError,
>)
    ensures
        r == encode_verdict(bundle@, BundleFlavor::MultiAsset),
        r is Ok ==> final(writer)@ == old(writer)@ + bundle_v6_bytes(bundle@),
        r is Ok ==> valid_bundle(bundle@),
        r is Err ==> final(writer)@ == old(writer)@,
{
    if !same_flavor(bundle.flavor(), BundleFlavor::MultiAsset) {
        return Err(EncodeError::FlavorMismatch);
    }
    let burn = bundle.burn();
    if bundle.actions().len() > MAX_COMPACT_SIZE as usize || bundle.proof_bytes().len()
        > MAX_COMPACT_SIZE as usize || burn.len() > MAX_COMPACT_SIZE as usize {
        return Err(EncodeError::TooLarge);
    }
    match write_compact_size(writer, 1) {
        Ok(()) => {},
        Err(e) => {
            return Err(e);
        },
    }
    match write_action_group(writer, bundle, 0) {
        Ok(()) => {},
        Err(e) => {
            return Err(e);
        },
    }
    match write_bundle_balance_metadata(
        writer,
        bundle.value_balance(),
        burn,
        bundle.binding_signature(),
    ) {
        Ok(()) => {},
        Err(e) => {
            return Err(e);
        },
    }
    Ok(())
}

/// Writes a bundle in the format of its flavor, and an absent bundle as the
/// count zero. A bundle too large to be written is refused, and the buffer
/// is then left as it was.
pub fn write_orchard_bundle(writer: &mut Vec<u8>, bundle: Option<&Bundle>) -> (r: Result<
    (),
    EncodeError,
>)
    ensures
        r is Ok <==> (bundle matches Some(b) ==> encodable(b@)),
        r is Ok ==> final(writer)@ == old(writer)@ + bundle_bytes(
            match bundle {
                Some(b) => Some(b@),
                None => None,
            },
        ),
        r is Ok ==> (bundle matches Some(b) ==> valid_bundle(b@)),
        r is Err ==> final(writer)@ == old(writer)@,
{
    match bundle {
        Some(bundle) => match bundle.flavor() {
            BundleFlavor::Vanilla => write_v5_bundle(bundle, writer),
            BundleFlavor::MultiAsset => write_orchard_zsa_bundle(writer, bundle),
        },
        None => write_compact_size(writer, 0),
    }
}

/// Whether the counts of a swap bundle are small enough to be written.
pub open spec fn swap_encodable(bundle: SpecSwapBundle) -> bool {
    &&& bundle.action_groups.len() <= MAX_COMPACT_SIZE
    &&& forall|i: int|
        0 <= i < bundle.action_groups.len() ==> group_encodable(#[trigger] bundle.action_groups[i])
    &&& bundle.burn.len() <= MAX_COMPACT_SIZE
}

/// What holds of the model of every swap bundle that this library writes.
pub open spec fn valid_swap_bundle(bundle: SpecSwapBundle) -> bool {
    &&& forall|i: int|
        0 <= i < bundle.action_groups.len() ==> valid_action_group(
            #[trigger] bundle.action_groups[i],
        )
    &&& valid_amount(bundle.value_balance)
    &&& bundle.binding_signature.len() == 64
    &&& all_valid(burn_entry_validity(), bundle.burn)
    &&& validate_burn(bundle.burn, bundle.burn_policy) is Ok
}

/// Writes a swap bundle behind what `writer` holds; on failure `writer` may
/// hold a part of the encoding.
fn write_swap_bundle_parts(writer: &mut Vec<u8>, bundle: &SwapBundle) -> (r: Result<
    (),
    EncodeError,
>)
    ensures
        r is Ok <==> swap_encodable(bundle@),
        r is Ok ==> final(writer)@ == old(writer)@ + swap_bundle_bytes(bundle@),
        r is Ok ==> valid_swap_bundle(bundle@),
{
    let groups = bundle.action_groups();
    let ghost models = group_views(groups@);
    write_compact_size(writer, groups.len())?;
    let ghost prefix = writer@;
    let mut i: usize = 0;
    while i < groups.len()
        invariant
            i <= groups@.len(),
            models == group_views(groups@),
            models == bundle@.action_groups,
            writer@ == prefix + items_bytes(action_group_encoder(), models.take(i as int)),
            forall|k: int|
                0 <= k < i ==> group_encodable(#[trigger] models[k]) && valid_action_group(
                    models[k],
                ),
        decreases groups@.len() - i,
    {
        let group = &groups[i];
        match write_group_parts(
            writer,
            group.actions(),
            group.flags(),
            group.anchor(),
            group.proof_bytes(),
            group.timelimit(),
        ) {
            Ok(()) => {},
            Err(e) => {
                assert(!group_encodable(models[i as int]));
                return Err(e);
            },
        }
        proof {
            lemma_items_bytes_push(action_group_encoder(), models.take(i as int), models[i as int]);
            assert(models.take(i as int).push(models[i as int]) =~= models.take(i + 1));
        }
        i += 1;
    }
    assert(models.take(i as int) =~= models);
    write_bundle_balance_metadata(
        writer,
        bundle.value_balance(),
        bundle.burn(),
        bundle.binding_signature(),
    )?;
    Ok(())
}

/// Writes a swap bundle. A bundle with a count that a compact size cannot
/// say is refused, and the buffer is then left as it was.
pub fn write_orchard_swap_bundle(writer: &mut Vec<u8>, bundle: &SwapBundle) -> (r: Result<
    (),
    EncodeError,
>)
    ensures
        r is Ok <==> swap_encodable(bundle@),
        r is Ok ==> final(writer)@ == old(writer)@ + swap_bundle_bytes(bundle@),
        r is Ok ==> valid_swap_bundle(bundle@),
        r is Err ==> final(writer)@ == old(writer)@,
{
    let mut scratch: Vec<u8> = Vec::new();
    match write_swap_bundle_parts(&mut scratch, bundle) {
        Ok(()) => {
            put_bytes(writer, scratch.as_slice());
            Ok(())
        },
        Err(e) => Err(e),
    }
}

} // verus!
