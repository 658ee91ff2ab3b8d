//! The laws of the other direction: whatever a decoder yields is valid and
//! could be written, and the bytes it was read from are its encoding. So a
//! value has one encoding, and re-encoding what was read gives the same
//! bytes.

use vstd::prelude::*;
use crate::action::{
    action_bytes, action_encoder, action_parser, action_validity, parse_action, valid_action,
    BundleFlavor, SpecAction,
};
use crate::action_group::{
    action_group_bytes, action_group_encoder, action_group_parser, balance_metadata_bytes,
    bundle_bytes, bundle_v6_bytes, group_encodable, parse_action_group, parse_balance_metadata,
    parse_bundle, parse_bundle_v6, parse_swap_bundle, swap_bundle_bytes, swap_encodable,
    valid_action_group, valid_swap_bundle, SpecActionGroup,
};
use crate::bundle::{
    authorized, bodies, bundle_v5_bytes, encodable, no_bundle_bytes, parse_bundle_v5,
    signature_encoder, signature_parser, signature_validity, signatures, valid_bundle,
};
use crate::burn::{
    burn_bytes, burn_entry_bytes, burn_entry_encoder, burn_entry_parser, burn_entry_validity,
    parse_burn, parse_burn_entry, valid_burn_entry, validate_burn, BurnPolicy,
};
use crate::bytes::{
    has_at, i64_le_bytes, le_bytes, lemma_has_at_concat, lemma_i64_le_bytes_of_le_i64,
    lemma_le_bytes_of_le_value, lemma_le_value_bound, lemma_pow256_values,
};
use crate::compact_size::{
    byte_string_bytes, compact_size_bytes, lemma_byte_string_canonical,
    lemma_compact_size_canonical, parse_byte_string, parse_compact_size, MAX_COMPACT_SIZE,
};
use crate::error::DecodeError;
use crate::issuance::{
    bool_byte, issue_action_bytes, issue_action_encodable, issue_action_encoder,
    issue_action_parser, issue_bundle_bytes, issue_bundle_encodable, note_encoder, note_parser,
    note_validity, parse_issue_action, parse_issue_bundle, parse_notes, valid_issue_action,
    valid_issue_bundle, writable_issue_action, DescriptionFraming, IssuanceFormat,
};
use crate::note::{note_bytes, parse_note, valid_note};
use crate::primitives::{byte_of_flags, lemma_flags_of_byte, valid_amount};
use crate::round_trip::writable_group;
use crate::sequence::{
    all_valid, items_bytes, lemma_items_canonical, lemma_list_canonical, list_bytes, parse_items,
    parse_list, written_back,
};

verus! {

/// An action is read from its encoding only, and what is read is valid.
pub proof fn lemma_action_canonical(data: Seq<u8>, pos: int, flavor: BundleFlavor)
    ensures
        parse_action(data, pos, flavor) matches Ok(p) ==> valid_action(p.0, flavor) && has_at(
            data,
            pos,
            action_bytes(p.0),
        ) && p.1 == pos + action_bytes(p.0).len(),
{
    if let Ok((action, next)) = parse_action(data, pos, flavor) {
        let note = action.encrypted_note;
        lemma_has_at_concat(data, pos, action.cv_net, action.nf);
        lemma_has_at_concat(data, pos, action.cv_net + action.nf, action.rk);
        lemma_has_at_concat(data, pos, action.cv_net + action.nf + action.rk, action.cmx);
        lemma_has_at_concat(data, pos + 128, note.epk_bytes, note.enc_ciphertext);
        lemma_has_at_concat(
            data,
            pos + 128,
            note.epk_bytes + note.enc_ciphertext,
            note.out_ciphertext,
        );
        lemma_has_at_concat(
            data,
            pos,
            action.cv_net + action.nf + action.rk + action.cmx,
            note.epk_bytes + note.enc_ciphertext + note.out_ciphertext,
        );
    }
}

/// Actions satisfy the premise of the list laws of this direction.
pub proof fn lemma_actions_written_back(flavor: BundleFlavor)
    ensures
        written_back(action_parser(flavor), action_encoder(), action_validity(flavor)),
{
    assert forall|data: Seq<u8>, pos: int|
        (#[trigger] action_parser(flavor)(data, pos)) matches Ok(p) ==> action_validity(flavor)(
            p.0,
        ) && has_at(data, pos, action_encoder()(p.0)) && p.1 == pos + action_encoder()(
            p.0,
        ).len() by {
        lemma_action_canonical(data, pos, flavor);
    }
}


/// The parts of actions and signatures that were put together are those
/// actions and signatures.
pub proof fn lemma_parts_of_authorized(actions: Seq<SpecAction>, sigs: Seq<Seq<u8>>)
    requires
        actions.len() == sigs.len(),
    ensures
        bodies(authorized(actions, sigs)) == actions,
        signatures(authorized(actions, sigs)) == sigs,
        authorized(actions, sigs).len() == actions.len(),
{
}

/// **One encoding, single-asset format.** A bundle that the decoder yields
/// is valid and could be written, and the bytes it was read from are its
/// encoding: writing it again gives the same bytes.
pub proof fn lemma_bundle_v5_canonical(data: Seq<u8>, pos: int)
    ensures
        parse_bundle_v5(data, pos) matches Ok(p) ==> match p.0 {
            Some(bundle) => valid_bundle(bundle) && bundle.flavor == BundleFlavor::Vanilla
                && encodable(bundle) && has_at(data, pos, bundle_v5_bytes(bundle)) && p.1 == pos
                + bundle_v5_bytes(bundle).len(),
            None => has_at(data, pos, no_bundle_bytes()) && p.1 == pos + 1,
        },
{
    lemma_actions_written_back(BundleFlavor::Vanilla);
    lemma_list_canonical(
        action_parser(BundleFlavor::Vanilla),
        action_encoder(),
        action_validity(BundleFlavor::Vanilla),
        data,
        pos,
    );
    if let Ok((found, next)) = parse_bundle_v5(data, pos) {
        let (actions, at1) = parse_list(action_parser(BundleFlavor::Vanilla), data, pos)->Ok_0;
        match found {
            None => {
            },
            Some(bundle) => {
                let at2 = at1 + 1;
                let at3 = at2 + 8;
                let at4 = at3 + 32;
                let at5 = parse_byte_string(data, at4)->Ok_0.1;
                let sigs = parse_items(signature_parser(), data, at5, actions.len())->Ok_0.0;
                let encoded_actions = list_bytes(action_encoder(), actions);
                let flags = seq![byte_of_flags(bundle.flags)];
                let balance = i64_le_bytes(bundle.value_balance);
                lemma_flags_of_byte(data[at1]);
                assert(data.subrange(at1, at1 + 1) =~= flags);
                lemma_i64_le_bytes_of_le_i64(data.subrange(at2, at2 + 8));
                lemma_byte_string_canonical(data, at4);
                lemma_items_canonical(
                    signature_parser(),
                    signature_encoder(),
                    signature_validity(),
                    data,
                    at5,
                    actions.len(),
                );
                lemma_parts_of_authorized(actions, sigs);
                lemma_has_at_concat(data, pos, encoded_actions, flags);
                lemma_has_at_concat(data, pos, encoded_actions + flags, balance);
                lemma_has_at_concat(data, pos, encoded_actions + flags + balance, bundle.anchor);
                lemma_has_at_concat(
                    data,
                    pos,
                    encoded_actions + flags + balance + bundle.anchor,
                    byte_string_bytes(bundle.proof),
                );
                lemma_has_at_concat(
                    data,
                    pos,
                    encoded_actions + flags + balance + bundle.anchor + byte_string_bytes(
                        bundle.proof,
                    ),
                    items_bytes(signature_encoder(), sigs),
                );
                lemma_has_at_concat(
                    data,
                    pos,
                    encoded_actions + flags + balance + bundle.anchor + byte_string_bytes(
                        bundle.proof,
                    ) + items_bytes(signature_encoder(), sigs),
                    bundle.binding_signature,
                );
            },
        }
    }
}

/// A burn entry is read from its encoding only, and what is read is valid.
pub proof fn lemma_burn_entry_canonical(data: Seq<u8>, pos: int)
    ensures
        parse_burn_entry(data, pos) matches Ok(p) ==> valid_burn_entry(p.0) && has_at(
            data,
            pos,
            burn_entry_bytes(p.0),
        ) && p.1 == pos + burn_entry_bytes(p.0).len(),
{
    if let Ok((entry, next)) = parse_burn_entry(data, pos) {
        lemma_i64_le_bytes_of_le_i64(data.subrange(pos + 32, pos + 40));
        lemma_has_at_concat(data, pos, entry.0, i64_le_bytes(entry.1));
    }
}

/// **One encoding, burn list.** A burn list that the decoder yields passes
/// validation, could be written, and was read from its encoding.
pub proof fn lemma_burn_canonical(data: Seq<u8>, pos: int, policy: BurnPolicy)
    ensures
        parse_burn(data, pos, policy) matches Ok(p) ==> validate_burn(p.0, policy) is Ok
            && all_valid(burn_entry_validity(), p.0) && p.0.len() <= MAX_COMPACT_SIZE && has_at(
            data,
            pos,
            burn_bytes(p.0),
        ) && p.1 == pos + burn_bytes(p.0).len(),
{
    assert(written_back(burn_entry_parser(), burn_entry_encoder(), burn_entry_validity())) by {
        assert forall|d: Seq<u8>, p: int|
            (#[trigger] burn_entry_parser()(d, p)) matches Ok(r) ==> burn_entry_validity()(r.0)
                && has_at(d, p, burn_entry_encoder()(r.0)) && r.1 == p + burn_entry_encoder()(
                r.0,
            ).len() by {
            lemma_burn_entry_canonical(d, p);
        }
    }
    lemma_list_canonical(
        burn_entry_parser(),
        burn_entry_encoder(),
        burn_entry_validity(),
        data,
        pos,
    );
}

/// An action group is read from its encoding only, and what is read is
/// valid, has the time limit zero and could be written.
pub proof fn lemma_action_group_canonical(data: Seq<u8>, pos: int)
    ensures
        parse_action_group(data, pos) matches Ok(p) ==> valid_action_group(p.0) && p.0.timelimit
            == 0 && group_encodable(p.0) && has_at(data, pos, action_group_bytes(p.0)) && p.1
            == pos + action_group_bytes(p.0).len(),
{
    lemma_actions_written_back(BundleFlavor::MultiAsset);
    lemma_list_canonical(
        action_parser(BundleFlavor::MultiAsset),
        action_encoder(),
        action_validity(BundleFlavor::MultiAsset),
        data,
        pos,
    );
    if let Ok((group, next)) = parse_action_group(data, pos) {
        let (actions, at1) = parse_list(action_parser(BundleFlavor::MultiAsset), data, pos)->Ok_0;
        let at2 = at1 + 1;
        let at3 = at2 + 32;
        let at4 = parse_byte_string(data, at3)->Ok_0.1;
        let at5 = at4 + 4;
        let sigs = parse_items(signature_parser(), data, at5, actions.len())->Ok_0.0;
        let encoded_actions = list_bytes(action_encoder(), actions);
        let flags = seq![byte_of_flags(group.flags)];
        let limit = le_bytes(0, 4);
        lemma_flags_of_byte(data[at1]);
        assert(data.subrange(at1, at1 + 1) =~= flags);
        lemma_byte_string_canonical(data, at3);
        lemma_le_bytes_of_le_value(data.subrange(at4, at4 + 4));
        lemma_items_canonical(
            signature_parser(),
            signature_encoder(),
            signature_validity(),
            data,
            at5,
            actions.len(),
        );
        lemma_parts_of_authorized(actions, sigs);
        lemma_has_at_concat(data, pos, encoded_actions, flags);
        lemma_has_at_concat(data, pos, encoded_actions + flags, group.anchor);
        lemma_has_at_concat(
            data,
            pos,
            encoded_actions + flags + group.anchor,
            byte_string_bytes(group.proof),
        );
        lemma_has_at_concat(
            data,
            pos,
            encoded_actions + flags + group.anchor + byte_string_bytes(group.proof),
            limit,
        );
        lemma_has_at_concat(
            data,
            pos,
            encoded_actions + flags + group.anchor + byte_string_bytes(group.proof) + limit,
            items_bytes(signature_encoder(), sigs),
        );
    }
}

/// The value balance, burn list and binding signature are read from their
/// encoding only, and what is read is valid.
pub proof fn lemma_balance_metadata_canonical(data: Seq<u8>, pos: int, policy: BurnPolicy)
    ensures
        parse_balance_metadata(data, pos, policy) matches Ok(p) ==> valid_amount(p.0.0)
            && validate_burn(p.0.1, policy) is Ok && all_valid(
            burn_entry_validity(),
            p.0.1,
        ) && p.0.1.len() <= MAX_COMPACT_SIZE && p.0.2.len() == 64 && has_at(
            data,
            pos,
            balance_metadata_bytes(p.0.0, p.0.1, p.0.2),
        ) && p.1 == pos + balance_metadata_bytes(p.0.0, p.0.1, p.0.2).len(),
{
    if let Ok(((value_balance, burn, binding), next)) = parse_balance_metadata(
        data,
        pos,
        policy,
    ) {
        lemma_i64_le_bytes_of_le_i64(data.subrange(pos, pos + 8));
        lemma_burn_canonical(data, pos + 8, policy);
        lemma_has_at_concat(data, pos, i64_le_bytes(value_balance), burn_bytes(burn));
        lemma_has_at_concat(data, pos, i64_le_bytes(value_balance) + burn_bytes(burn), binding);
    }
}

/// Groups satisfy the premise of the list laws of this direction.
pub proof fn lemma_groups_written_back()
    ensures
        written_back(action_group_parser(), action_group_encoder(), writable_group()),
{
    assert forall|d: Seq<u8>, p: int|
        (#[trigger] action_group_parser()(d, p)) matches Ok(r) ==> writable_group()(r.0) && has_at(
            d,
            p,
            action_group_encoder()(r.0),
        ) && r.1 == p + action_group_encoder()(r.0).len() by {
        lemma_action_group_canonical(d, p);
    }
}

/// **One encoding, multi-asset format.** A bundle that the decoder yields
/// is valid and could be written, and the bytes it was read from are its
/// encoding: writing it again gives the same bytes.
pub proof fn lemma_bundle_v6_canonical(data: Seq<u8>, pos: int, policy: BurnPolicy)
    ensures
        parse_bundle_v6(data, pos, policy) matches Ok(p) ==> match p.0 {
            Some(bundle) => valid_bundle(bundle) && bundle.flavor == BundleFlavor::MultiAsset
                && bundle.burn_policy == policy && encodable(bundle) && has_at(data, pos, bundle_v6_bytes(bundle)) && p.1 == pos
                + bundle_v6_bytes(bundle).len(),
            None => has_at(data, pos, no_bundle_bytes()) && p.1 == pos + 1,
        },
{
    lemma_compact_size_canonical(data, pos);
    if let Ok((found, next)) = parse_bundle_v6(data, pos, policy) {
        let (count, at1) = parse_compact_size(data, pos)->Ok_0;
        match found {
            None => {
            },
            Some(bundle) => {
                assert(parse_items(action_group_parser(), data, at1, 0) == Ok::<
                    (Seq<SpecActionGroup>, int),
                    DecodeError,
                >((Seq::empty(), at1)));
                lemma_action_group_canonical(data, at1);
                let (group, at2) = parse_action_group(data, at1)->Ok_0;
                lemma_balance_metadata_canonical(data, at2, policy);
                let metadata = balance_metadata_bytes(
                    bundle.value_balance,
                    bundle.burn,
                    bundle.binding_signature,
                );
                lemma_has_at_concat(data, pos, seq![1u8], action_group_bytes(group));
                lemma_has_at_concat(data, pos, seq![1u8] + action_group_bytes(group), metadata);
            },
        }
    }
}

/// **One encoding.** Whatever the flavor: a bundle that the decoder yields
/// is valid and could be written, and the bytes that the decoder consumed
/// are its encoding; where it finds no bundle, it consumed the one byte
/// zero.
pub proof fn lemma_bundle_canonical(data: Seq<u8>, pos: int, flavor: BundleFlavor)
    ensures
        parse_bundle(data, pos, flavor) matches Ok(p) ==> has_at(data, pos, bundle_bytes(p.0))
            && p.1 == pos + bundle_bytes(p.0).len() && (p.0 matches Some(bundle) ==> valid_bundle(
            bundle,
        ) && bundle.flavor == flavor && bundle.burn_policy == BurnPolicy::Positive && encodable(
            bundle,
        )),
{
    match flavor {
        BundleFlavor::Vanilla => lemma_bundle_v5_canonical(data, pos),
        BundleFlavor::MultiAsset => lemma_bundle_v6_canonical(data, pos, BurnPolicy::Positive),
    }
}

/// **One encoding, swap format.** A swap bundle that the decoder yields is
/// valid, has a group, and could be written, and the bytes it was read from
/// are its encoding.
pub proof fn lemma_swap_bundle_canonical(data: Seq<u8>, pos: int, policy: BurnPolicy)
    ensures
        parse_swap_bundle(data, pos, policy) matches Ok(p) ==> match p.0 {
            Some(bundle) => valid_swap_bundle(bundle) && bundle.burn_policy == policy
                && swap_encodable(bundle)
                && bundle.action_groups.len() > 0 && has_at(data, pos, swap_bundle_bytes(bundle))
                && p.1 == pos + swap_bundle_bytes(bundle).len(),
            None => has_at(data, pos, no_bundle_bytes()) && p.1 == pos + 1,
        },
{
    lemma_compact_size_canonical(data, pos);
    if let Ok((found, next)) = parse_swap_bundle(data, pos, policy) {
        let (count, at1) = parse_compact_size(data, pos)->Ok_0;
        lemma_groups_written_back();
        lemma_items_canonical(
            action_group_parser(),
            action_group_encoder(),
            writable_group(),
            data,
            at1,
            count as nat,
        );
        match found {
            None => {
            },
            Some(bundle) => {
                let groups = bundle.action_groups;
                let at2 = at1 + items_bytes(action_group_encoder(), groups).len();
                lemma_balance_metadata_canonical(data, at2, policy);
                let metadata = balance_metadata_bytes(
                    bundle.value_balance,
                    bundle.burn,
                    bundle.binding_signature,
                );
                lemma_has_at_concat(
                    data,
                    pos,
                    compact_size_bytes(groups.len()),
                    items_bytes(action_group_encoder(), groups),
                );
                lemma_has_at_concat(
                    data,
                    pos,
                    list_bytes(action_group_encoder(), groups),
                    metadata,
                );
            },
        }
    }
}

/// A note is read from its encoding only, and what is read is valid.
pub proof fn lemma_note_canonical(data: Seq<u8>, pos: int)
    ensures
        parse_note(data, pos) matches Ok(p) ==> valid_note(p.0) && has_at(
            data,
            pos,
            note_bytes(p.0),
        ) && p.1 == pos + note_bytes(p.0).len(),
{
    if let Ok((note, next)) = parse_note(data, pos) {
        let value = data.subrange(pos + 43, pos + 51);
        lemma_pow256_values();
        lemma_le_value_bound(value);
        lemma_le_bytes_of_le_value(value);
        lemma_has_at_concat(data, pos, note.recipient, value);
        lemma_has_at_concat(data, pos, note.recipient + value, note.asset);
        lemma_has_at_concat(data, pos, note.recipient + value + note.asset, note.rho);
        lemma_has_at_concat(
            data,
            pos,
            note.recipient + value + note.asset + note.rho,
            note.rseed,
        );
    }
}

/// The notes of an action are read from their encoding only; what is read
/// is a list of valid notes that is not empty.
pub proof fn lemma_notes_canonical(data: Seq<u8>, pos: int)
    ensures
        parse_notes(data, pos) matches Ok(p) ==> 0 < p.0.len() <= MAX_COMPACT_SIZE && all_valid(
            note_validity(),
            p.0,
        ) && has_at(data, pos, list_bytes(note_encoder(), p.0)) && p.1 == pos + list_bytes(
            note_encoder(),
            p.0,
        ).len(),
{
    assert(written_back(note_parser(), note_encoder(), note_validity())) by {
        assert forall|d: Seq<u8>, p: int|
            (#[trigger] note_parser()(d, p)) matches Ok(r) ==> note_validity()(r.0) && has_at(
                d,
                p,
                note_encoder()(r.0),
            ) && r.1 == p + note_encoder()(r.0).len() by {
            lemma_note_canonical(d, p);
        }
    }
    lemma_list_canonical(note_parser(), note_encoder(), note_validity(), data, pos);
}

/// An issuance action is read from its encoding only, in every format, and
/// what is read is valid and could be written.
pub proof fn lemma_issue_action_canonical(data: Seq<u8>, pos: int, format: IssuanceFormat)
    ensures
        parse_issue_action(data, pos, format) matches Ok(p) ==> valid_issue_action(p.0)
            && issue_action_encodable(p.0, format) && has_at(
            data,
            pos,
            issue_action_bytes(p.0, format),
        ) && p.1 == pos + issue_action_bytes(p.0, format).len(),
{
    if let Ok((action, next)) = parse_issue_action(data, pos, format) {
        let flag = seq![bool_byte(action.finalize)];
        let notes = list_bytes(note_encoder(), action.notes);
        match format {
            IssuanceFormat::V5(framing) => {
                assert(data.subrange(pos, pos + 1) =~= flag);
                lemma_notes_canonical(data, pos + 1);
                let at2 = pos + 1 + notes.len();
                lemma_has_at_concat(data, pos, flag, notes);
                match framing {
                    DescriptionFraming::LengthPrefixed => {
                        lemma_byte_string_canonical(data, at2);
                        lemma_has_at_concat(
                            data,
                            pos,
                            flag + notes,
                            byte_string_bytes(action.asset_desc),
                        );
                    },
                    DescriptionFraming::ToEndOfInput => {
                        lemma_has_at_concat(data, pos, flag + notes, action.asset_desc);
                    },
                }
            },
            IssuanceFormat::V6 => {
                let desc = byte_string_bytes(action.asset_desc);
                lemma_byte_string_canonical(data, pos);
                lemma_notes_canonical(data, pos + desc.len());
                let at2 = pos + desc.len() + notes.len();
                assert(data.subrange(at2, at2 + 1) =~= flag);
                lemma_has_at_concat(data, pos, desc, notes);
                lemma_has_at_concat(data, pos, desc + notes, flag);
            },
        }
    }
}

/// **One encoding, issuance.** In every format: an issuance bundle that the
/// decoder yields is valid, has no reference notes and could be written,
/// and the bytes that the decoder consumed are its encoding; where it finds
/// no bundle, it consumed the one byte zero.
pub proof fn lemma_issue_bundle_canonical(data: Seq<u8>, pos: int, format: IssuanceFormat)
    ensures
        parse_issue_bundle(data, pos, format) matches Ok(p) ==> has_at(
            data,
            pos,
            issue_bundle_bytes(p.0, format),
        ) && p.1 == pos + issue_bundle_bytes(p.0, format).len() && (p.0 matches Some(bundle)
            ==> valid_issue_bundle(bundle) && issue_bundle_encodable(bundle, format)
            && bundle.reference_notes.len() == 0),
{
    assert(written_back(
        issue_action_parser(format),
        issue_action_encoder(format),
        writable_issue_action(format),
    )) by {
        assert forall|d: Seq<u8>, p: int|
            (#[trigger] issue_action_parser(format)(d, p)) matches Ok(r) ==> writable_issue_action(
                format,
            )(r.0) && has_at(d, p, issue_action_encoder(format)(r.0)) && r.1 == p
                + issue_action_encoder(format)(r.0).len() by {
            lemma_issue_action_canonical(d, p, format);
        }
    }
    lemma_list_canonical(
        issue_action_parser(format),
        issue_action_encoder(format),
        writable_issue_action(format),
        data,
        pos,
    );
    if let Ok((found, next)) = parse_issue_bundle(data, pos, format) {
        let (actions, at1) = parse_list(issue_action_parser(format), data, pos)->Ok_0;
        match found {
            None => {
            },
            Some(bundle) => {
                let encoded = list_bytes(issue_action_encoder(format), actions);
                lemma_has_at_concat(data, pos, encoded, bundle.ik);
                lemma_has_at_concat(data, pos, encoded + bundle.ik, bundle.authorization);
            },
        }
    }
}

} // verus!
