//! The laws that tie the decoders to the encoders: what was written is read
//! back, an absent bundle is one zero byte, and a wrong group count or a
//! missing signature is refused.

use vstd::prelude::*;
use crate::action::{
    action_bytes, action_encoder, action_parser, action_validity, note_ciphertext_bytes,
    parse_action, parse_note_ciphertext, valid_action, valid_note_ciphertext, BundleFlavor,
    SpecAction, SpecNoteCiphertext,
};
use crate::action_group::{
    action_group_bytes, action_group_encoder, action_group_parser, balance_metadata_bytes,
    bundle_bytes, bundle_v6_bytes, group_encodable, group_of_bundle, parse_action_group,
    parse_balance_metadata, parse_bundle, parse_bundle_v6, parse_swap_bundle, swap_bundle_bytes,
    swap_encodable, valid_action_group, valid_swap_bundle, SpecActionGroup, SpecSwapBundle,
};
use crate::asset::{asset_decodes, parse_asset};
use crate::bundle::{
    authorized, bodies, bundle_v5_bytes, encodable, no_bundle_bytes, parse_bundle_v5,
    signature_encoder, signature_parser, signature_validity, signatures, valid_bundle,
    SpecAuthorizedAction, SpecBundle,
};
use crate::burn::{
    burn_bytes, burn_entry_validity, lemma_burn_round_trip, validate_burn, BurnPolicy,
    SpecBurnEntry,
};
use crate::bytes::{
    has_at, i64_le_bytes, le_bytes, lemma_has_at_concat, lemma_le_bytes_len,
    lemma_le_i64_of_i64_le_bytes, lemma_le_value_of_le_bytes, lemma_pow256_values,
};
use crate::compact_size::{
    byte_string_bytes, compact_size_bytes, lemma_byte_string_round_trip,
    lemma_compact_size_round_trip, parse_compact_size, MAX_COMPACT_SIZE,
};
use crate::error::DecodeError;
use crate::primitives::{
    anchor_decodes, byte_of_flags, lemma_flags_round_trip, note_commitment_decodes,
    nullifier_decodes, parse_anchor, parse_cmx, parse_nullifier, parse_value_commitment,
    parse_verification_key, valid_amount, value_commitment_decodes, verification_key_decodes,
};
use crate::sequence::{
    all_valid, items_bytes, lemma_items_round_trip, lemma_list_round_trip, list_bytes, parse_items,
    reads_back,
};

verus! {

/// An encrypted note of the flavor's lengths is read back from its
/// encoding.
pub proof fn lemma_note_ciphertext_round_trip(
    data: Seq<u8>,
    pos: int,
    note: SpecNoteCiphertext,
    flavor: BundleFlavor,
)
    requires
        valid_note_ciphertext(note, flavor),
        has_at(data, pos, note_ciphertext_bytes(note)),
    ensures
        parse_note_ciphertext(data, pos, flavor) == Ok::<(SpecNoteCiphertext, int), DecodeError>(
            (note, pos + note_ciphertext_bytes(note).len()),
        ),
{
    lemma_has_at_concat(data, pos, note.epk_bytes + note.enc_ciphertext, note.out_ciphertext);
    lemma_has_at_concat(data, pos, note.epk_bytes, note.enc_ciphertext);
}

/// A valid action is read back from its encoding.
pub proof fn lemma_action_round_trip(
    data: Seq<u8>,
    pos: int,
    action: SpecAction,
    flavor: BundleFlavor,
)
    requires
        valid_action(action, flavor),
        has_at(data, pos, action_bytes(action)),
    ensures
        parse_action(data, pos, flavor) == Ok::<(SpecAction, int), DecodeError>(
            (action, pos + action_bytes(action).len()),
        ),
{
    let note = note_ciphertext_bytes(action.encrypted_note);
    lemma_has_at_concat(data, pos, action.cv_net + action.nf + action.rk + action.cmx, note);
    lemma_has_at_concat(data, pos, action.cv_net + action.nf + action.rk, action.cmx);
    lemma_has_at_concat(data, pos, action.cv_net + action.nf, action.rk);
    lemma_has_at_concat(data, pos, action.cv_net, action.nf);
    lemma_note_ciphertext_round_trip(data, pos + 128, action.encrypted_note, flavor);
}

/// Actions satisfy the premise of the list laws.
pub proof fn lemma_actions_read_back(flavor: BundleFlavor)
    ensures
        reads_back(action_parser(flavor), action_encoder(), action_validity(flavor)),
{
    assert forall|data: Seq<u8>, pos: int, x: SpecAction|
        action_validity(flavor)(x) && #[trigger] has_at(
            data,
            pos,
            action_encoder()(x),
        ) implies action_parser(flavor)(data, pos) == Ok::<(SpecAction, int), DecodeError>(
        (x, pos + action_encoder()(x).len()),
    ) by {
        lemma_action_round_trip(data, pos, x, flavor);
    }
}


/// The actions and signatures of a run of authorized actions, put together
/// again, are the run.
pub proof fn lemma_authorized_of_parts(actions: Seq<SpecAuthorizedAction>)
    ensures
        authorized(bodies(actions), signatures(actions)) == actions,
        bodies(actions).len() == actions.len(),
        signatures(actions).len() == actions.len(),
{
}

/// **Round trip, single-asset format.** Wherever the encoding of a valid
/// single-asset bundle stands, whose counts could be written, the decoder
/// reads that bundle, field for field and signature for signature, and
/// stops behind the encoding.
pub proof fn lemma_bundle_v5_round_trip(data: Seq<u8>, pos: int, bundle: SpecBundle)
    requires
        valid_bundle(bundle),
        bundle.flavor == BundleFlavor::Vanilla,
        encodable(bundle),
        has_at(data, pos, bundle_v5_bytes(bundle)),
    ensures
        parse_bundle_v5(data, pos) == Ok::<(Option<SpecBundle>, int), DecodeError>(
            (Some(bundle), pos + bundle_v5_bytes(bundle).len()),
        ),
{
    let actions = list_bytes(action_encoder(), bodies(bundle.actions));
    let flags = seq![byte_of_flags(bundle.flags)];
    let balance = i64_le_bytes(bundle.value_balance);
    let anchor = bundle.anchor;
    let proof_bytes = byte_string_bytes(bundle.proof);
    let sigs = items_bytes(signature_encoder(), signatures(bundle.actions));
    let binding = bundle.binding_signature;
    lemma_has_at_concat(
        data,
        pos,
        actions + flags + balance + anchor + proof_bytes + sigs,
        binding,
    );
    lemma_has_at_concat(data, pos, actions + flags + balance + anchor + proof_bytes, sigs);
    lemma_has_at_concat(data, pos, actions + flags + balance + anchor, proof_bytes);
    lemma_has_at_concat(data, pos, actions + flags + balance, anchor);
    lemma_has_at_concat(data, pos, actions + flags, balance);
    lemma_has_at_concat(data, pos, actions, flags);

    lemma_authorized_of_parts(bundle.actions);
    lemma_actions_read_back(BundleFlavor::Vanilla);
    lemma_list_round_trip(
        action_parser(BundleFlavor::Vanilla),
        action_encoder(),
        action_validity(BundleFlavor::Vanilla),
        data,
        pos,
        bodies(bundle.actions),
    );
    let at1 = pos + actions.len();
    assert(data[at1] == byte_of_flags(bundle.flags)) by {
        assert(data.subrange(at1, at1 + 1)[0] == flags[0]);
    }
    lemma_flags_round_trip(bundle.flags);
    let at2 = at1 + 1;
    lemma_le_i64_of_i64_le_bytes(bundle.value_balance);
    let at3 = at2 + 8;
    let at4 = at3 + 32;
    lemma_byte_string_round_trip(data, at4, bundle.proof);
    let at5 = at4 + proof_bytes.len();
    lemma_items_round_trip(
        signature_parser(),
        signature_encoder(),
        signature_validity(),
        data,
        at5,
        signatures(bundle.actions),
    );
    assert(bundle.burn =~= Seq::empty());
}

/// A valid action group with the time limit zero, whose counts could be
/// written, is read back from its encoding.
pub proof fn lemma_action_group_round_trip(data: Seq<u8>, pos: int, group: SpecActionGroup)
    requires
        valid_action_group(group),
        group.timelimit == 0,
        group_encodable(group),
        has_at(data, pos, action_group_bytes(group)),
    ensures
        parse_action_group(data, pos) == Ok::<(SpecActionGroup, int), DecodeError>(
            (group, pos + action_group_bytes(group).len()),
        ),
{
    let actions = list_bytes(action_encoder(), bodies(group.actions));
    let flags = seq![byte_of_flags(group.flags)];
    let anchor = group.anchor;
    let proof_bytes = byte_string_bytes(group.proof);
    let limit = le_bytes(group.timelimit as nat, 4);
    let sigs = items_bytes(signature_encoder(), signatures(group.actions));
    lemma_has_at_concat(data, pos, actions + flags + anchor + proof_bytes + limit, sigs);
    lemma_has_at_concat(data, pos, actions + flags + anchor + proof_bytes, limit);
    lemma_has_at_concat(data, pos, actions + flags + anchor, proof_bytes);
    lemma_has_at_concat(data, pos, actions + flags, anchor);
    lemma_has_at_concat(data, pos, actions, flags);

    lemma_authorized_of_parts(group.actions);
    lemma_actions_read_back(BundleFlavor::MultiAsset);
    lemma_list_round_trip(
        action_parser(BundleFlavor::MultiAsset),
        action_encoder(),
        action_validity(BundleFlavor::MultiAsset),
        data,
        pos,
        bodies(group.actions),
    );
    let at1 = pos + actions.len();
    assert(data[at1] == byte_of_flags(group.flags)) by {
        assert(data.subrange(at1, at1 + 1)[0] == flags[0]);
    }
    lemma_flags_round_trip(group.flags);
    let at2 = at1 + 1;
    let at3 = at2 + 32;
    lemma_byte_string_round_trip(data, at3, group.proof);
    let at4 = at3 + proof_bytes.len();
    lemma_pow256_values();
    lemma_le_value_of_le_bytes(0, 4);
    lemma_le_bytes_len(0, 4);
    let at5 = at4 + 4;
    lemma_items_round_trip(
        signature_parser(),
        signature_encoder(),
        signature_validity(),
        data,
        at5,
        signatures(group.actions),
    );
}

/// A valid value balance, burn list and binding signature are read back
/// from their encoding, under the policy that the burn list satisfies.
pub proof fn lemma_balance_metadata_round_trip(
    data: Seq<u8>,
    pos: int,
    value_balance: int,
    burn: Seq<SpecBurnEntry>,
    binding_signature: Seq<u8>,
    policy: BurnPolicy,
)
    requires
        valid_amount(value_balance),
        all_valid(burn_entry_validity(), burn),
        validate_burn(burn, policy) is Ok,
        burn.len() <= MAX_COMPACT_SIZE,
        binding_signature.len() == 64,
        has_at(data, pos, balance_metadata_bytes(value_balance, burn, binding_signature)),
    ensures
        parse_balance_metadata(data, pos, policy) == Ok::<
            ((int, Seq<SpecBurnEntry>, Seq<u8>), int),
            DecodeError,
        >(
            (
                (value_balance, burn, binding_signature),
                pos + balance_metadata_bytes(value_balance, burn, binding_signature).len(),
            ),
        ),
{
    lemma_has_at_concat(
        data,
        pos,
        i64_le_bytes(value_balance) + burn_bytes(burn),
        binding_signature,
    );
    lemma_has_at_concat(data, pos, i64_le_bytes(value_balance), burn_bytes(burn));
    lemma_le_i64_of_i64_le_bytes(value_balance);
    lemma_burn_round_trip(data, pos + 8, burn, policy);
}

/// **Round trip, multi-asset format.** Wherever the encoding of a valid
/// multi-asset bundle stands, whose counts could be written, the decoder
/// that holds burn amounts to the bundle's policy reads that bundle, field
/// for field and signature for signature, and stops behind the encoding.
pub proof fn lemma_bundle_v6_round_trip(data: Seq<u8>, pos: int, bundle: SpecBundle)
    requires
        valid_bundle(bundle),
        bundle.flavor == BundleFlavor::MultiAsset,
        encodable(bundle),
        has_at(data, pos, bundle_v6_bytes(bundle)),
    ensures
        parse_bundle_v6(data, pos, bundle.burn_policy) == Ok::<
            (Option<SpecBundle>, int),
            DecodeError,
        >((Some(bundle), pos + bundle_v6_bytes(bundle).len())),
{
    let group = group_of_bundle(bundle, 0);
    let metadata = balance_metadata_bytes(
        bundle.value_balance,
        bundle.burn,
        bundle.binding_signature,
    );
    lemma_has_at_concat(data, pos, seq![1u8] + action_group_bytes(group), metadata);
    lemma_has_at_concat(data, pos, seq![1u8], action_group_bytes(group));
    lemma_compact_size_round_trip(data, pos, 1);
    lemma_action_group_round_trip(data, pos + 1, group);
    let at1 = pos + 1 + action_group_bytes(group).len();
    assert(parse_items(action_group_parser(), data, pos + 1, 1) == Ok::<
        (Seq<SpecActionGroup>, int),
        DecodeError,
    >((seq![group], at1))) by {
        assert(parse_items(action_group_parser(), data, pos + 1, 0) == Ok::<
            (Seq<SpecActionGroup>, int),
            DecodeError,
        >((Seq::empty(), pos + 1)));
    }
    lemma_balance_metadata_round_trip(
        data,
        at1,
        bundle.value_balance,
        bundle.burn,
        bundle.binding_signature,
        bundle.burn_policy,
    );
}

/// **Round trip.** Whatever the flavor: wherever the encoding of a valid
/// bundle with positive burn amounts stands, whose counts could be written,
/// the decoder for its flavor reads that bundle and stops behind the
/// encoding; and wherever the encoding of an absent bundle stands, it reads
/// that there is none.
pub proof fn lemma_bundle_round_trip(
    data: Seq<u8>,
    pos: int,
    bundle: Option<SpecBundle>,
    flavor: BundleFlavor,
)
    requires
        bundle matches Some(b) ==> valid_bundle(b) && b.flavor == flavor && b.burn_policy
            == BurnPolicy::Positive && encodable(b),
        has_at(data, pos, bundle_bytes(bundle)),
    ensures
        parse_bundle(data, pos, flavor) == Ok::<(Option<SpecBundle>, int), DecodeError>(
            (bundle, pos + bundle_bytes(bundle).len()),
        ),
{
    match bundle {
        Some(b) => {
            match flavor {
                BundleFlavor::Vanilla => lemma_bundle_v5_round_trip(data, pos, b),
                BundleFlavor::MultiAsset => lemma_bundle_v6_round_trip(data, pos, b),
            }
        },
        None => {
            assert(data[pos] == 0) by {
                assert(data.subrange(pos, pos + 1)[0] == no_bundle_bytes()[0]);
            }
        },
    }
}

/// Groups that are valid, have the time limit zero and could be written.
pub open spec fn writable_group() -> spec_fn(SpecActionGroup) -> bool {
    |group: SpecActionGroup|
        valid_action_group(group) && group.timelimit == 0 && group_encodable(group)
}

/// **Round trip, swap format.** Wherever the encoding of a valid swap
/// bundle stands, which has a group, whose groups have the time limit zero
/// and whose counts could be written, the decoder reads that bundle and
/// stops behind the encoding.
pub proof fn lemma_swap_bundle_round_trip(data: Seq<u8>, pos: int, bundle: SpecSwapBundle)
    requires
        valid_swap_bundle(bundle),
        swap_encodable(bundle),
        bundle.action_groups.len() > 0,
        forall|i: int|
            0 <= i < bundle.action_groups.len() ==> (#[trigger] bundle.action_groups[i]).timelimit
                == 0,
        has_at(data, pos, swap_bundle_bytes(bundle)),
    ensures
        parse_swap_bundle(data, pos, bundle.burn_policy) == Ok::<
            (Option<SpecSwapBundle>, int),
            DecodeError,
        >((Some(bundle), pos + swap_bundle_bytes(bundle).len())),
{
    let groups = list_bytes(action_group_encoder(), bundle.action_groups);
    let metadata = balance_metadata_bytes(
        bundle.value_balance,
        bundle.burn,
        bundle.binding_signature,
    );
    lemma_has_at_concat(data, pos, groups, metadata);
    assert(reads_back(action_group_parser(), action_group_encoder(), writable_group())) by {
        assert forall|d: Seq<u8>, p: int, x: SpecActionGroup|
            writable_group()(x) && #[trigger] has_at(
                d,
                p,
                action_group_encoder()(x),
            ) implies action_group_parser()(d, p) == Ok::<(SpecActionGroup, int), DecodeError>(
            (x, p + action_group_encoder()(x).len()),
        ) by {
            lemma_action_group_round_trip(d, p, x);
        }
    }
    lemma_list_round_trip(
        action_group_parser(),
        action_group_encoder(),
        writable_group(),
        data,
        pos,
        bundle.action_groups,
    );
    lemma_balance_metadata_round_trip(
        data,
        pos + groups.len(),
        bundle.value_balance,
        bundle.burn,
        bundle.binding_signature,
        bundle.burn_policy,
    );
}

/// **Empty is absent.** Where the byte zero stands, every bundle decoder
/// reads that there is no bundle, and stops behind that byte, whatever
/// follows it.
pub proof fn lemma_zero_count_is_absent(data: Seq<u8>, pos: int)
    requires
        0 <= pos < data.len(),
        data[pos] == 0,
    ensures
        parse_bundle_v5(data, pos) == Ok::<(Option<SpecBundle>, int), DecodeError>(
            (None, pos + 1),
        ),
        forall|policy: BurnPolicy|
            #[trigger] parse_bundle_v6(data, pos, policy) == Ok::<
                (Option<SpecBundle>, int),
                DecodeError,
            >((None, pos + 1)),
        forall|policy: BurnPolicy|
            #[trigger] parse_swap_bundle(data, pos, policy) == Ok::<
                (Option<SpecSwapBundle>, int),
                DecodeError,
            >((None, pos + 1)),
        forall|flavor: BundleFlavor|
            #[trigger] parse_bundle(data, pos, flavor) == Ok::<
                (Option<SpecBundle>, int),
                DecodeError,
            >((None, pos + 1)),
{
}

/// **Empty is absent.** The encoding of an absent bundle is the single byte
/// zero, the compact size of the count zero.
pub proof fn lemma_absent_bundle_bytes()
    ensures
        bundle_bytes(None) == seq![0u8],
        bundle_bytes(None) == compact_size_bytes(0),
{
}

/// **Group count.** Where a group count other than zero and one stands, the
/// multi-asset decoder fails with `StructuralViolation`; it does not read
/// the first group alone.
pub proof fn lemma_group_count_enforced(data: Seq<u8>, pos: int)
    requires
        parse_compact_size(data, pos) matches Ok(p) && p.0 != 0 && p.0 != 1,
    ensures
        forall|policy: BurnPolicy|
            #[trigger] parse_bundle_v6(data, pos, policy) == Err::<
                (Option<SpecBundle>, int),
                DecodeError,
            >(DecodeError::StructuralViolation),
        parse_bundle(data, pos, BundleFlavor::MultiAsset) == Err::<
            (Option<SpecBundle>, int),
            DecodeError,
        >(DecodeError::StructuralViolation),
{
}

/// **Signatures match actions.** Where fewer bytes are left than `count`
/// signatures take, reading `count` signatures fails with
/// `UnexpectedEndOfInput`.
pub proof fn lemma_missing_signature(data: Seq<u8>, pos: int, count: nat)
    requires
        0 <= pos <= data.len(),
        pos + 64 * count > data.len(),
    ensures
        parse_items(signature_parser(), data, pos, count) == Err::<
            (Seq<Seq<u8>>, int),
            DecodeError,
        >(DecodeError::UnexpectedEndOfInput),
    decreases count,
{
    if count > 0 {
        let fewer = (count - 1) as nat;
        if pos + 64 * fewer > data.len() {
            lemma_missing_signature(data, pos, fewer);
        } else {
            lemma_signatures_stride(data, pos, fewer);
        }
    }
}

/// Signatures that are all there are read as 64 bytes each.
pub proof fn lemma_signatures_stride(data: Seq<u8>, pos: int, count: nat)
    requires
        0 <= pos,
        pos + 64 * count <= data.len(),
    ensures
        parse_items(signature_parser(), data, pos, count) matches Ok(p) && p.1 == pos + 64 * count,
    decreases count,
{
    if count > 0 {
        lemma_signatures_stride(data, pos, (count - 1) as nat);
    }
}

/// **Canonical encodings only.** Where 32 bytes stand that the curve
/// library does not take for a value commitment, a nullifier, a
/// verification key, a note commitment, an anchor or an asset, the field's
/// decoder fails with `InvalidEncoding`; it yields no value for them.
pub proof fn lemma_non_canonical_field_is_refused(data: Seq<u8>, pos: int)
    requires
        0 <= pos,
        pos + 32 <= data.len(),
    ensures
        !value_commitment_decodes(data.subrange(pos, pos + 32)) ==> parse_value_commitment(
            data,
            pos,
        ) == Err::<(Seq<u8>, int), DecodeError>(DecodeError::InvalidEncoding),
        !nullifier_decodes(data.subrange(pos, pos + 32)) ==> parse_nullifier(data, pos) == Err::<
            (Seq<u8>, int),
            DecodeError,
        >(DecodeError::InvalidEncoding),
        !verification_key_decodes(data.subrange(pos, pos + 32)) ==> parse_verification_key(
            data,
            pos,
        ) == Err::<(Seq<u8>, int), DecodeError>(DecodeError::InvalidEncoding),
        !note_commitment_decodes(data.subrange(pos, pos + 32)) ==> parse_cmx(data, pos) == Err::<
            (Seq<u8>, int),
            DecodeError,
        >(DecodeError::InvalidEncoding),
        !anchor_decodes(data.subrange(pos, pos + 32)) ==> parse_anchor(data, pos) == Err::<
            (Seq<u8>, int),
            DecodeError,
        >(DecodeError::InvalidEncoding),
        !asset_decodes(data.subrange(pos, pos + 32)) ==> parse_asset(data, pos) == Err::<
            (Seq<u8>, int),
            DecodeError,
        >(DecodeError::InvalidEncoding),
{
}

/// **Canonical encodings only.** An action with a field that the curve
/// library does not take fails as a whole with `InvalidEncoding`, if the
/// fields before it are in order.
pub proof fn lemma_non_canonical_action_is_refused(data: Seq<u8>, pos: int, flavor: BundleFlavor)
    requires
        0 <= pos,
        pos + 128 <= data.len(),
        !value_commitment_decodes(data.subrange(pos, pos + 32)) || !nullifier_decodes(
            data.subrange(pos + 32, pos + 64),
        ) || !verification_key_decodes(data.subrange(pos + 64, pos + 96))
            || !note_commitment_decodes(data.subrange(pos + 96, pos + 128)),
    ensures
        parse_action(data, pos, flavor) == Err::<(SpecAction, int), DecodeError>(
            DecodeError::InvalidEncoding,
        ),
{
}

} // verus!
