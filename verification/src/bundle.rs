//! The bundle of a transaction: its actions, flags, anchor, proof, value
//! balance, burn list and signatures; and the single-asset wire format, in
//! which the actions come first and their signatures after the proof.

use vstd::prelude::*;
use nonempty::NonEmpty;
use crate::action::{
    action_bodies, action_encoder, action_parser, all_of_flavor, read_action_without_auth,
    valid_action, write_action_without_auth, Action, BundleFlavor, SpecAction,
};
use crate::asset::AssetBase;
use crate::burn::{
    burn_entry_validity, burn_view, validate_bundle_burn_with, validate_burn, BurnPolicy,
    SpecBurnEntry,
};
use crate::bytes::{i64_le_bytes, Parsed};
use crate::canonical::lemma_bundle_v5_canonical;
use crate::compact_size::{
    byte_string_bytes, parse_byte_string, parse_compact_size, read_byte_string, read_compact_size,
    write_byte_string, write_compact_size, MAX_COMPACT_SIZE,
};
use crate::error::{DecodeError, EncodeError};
use crate::list::{lemma_nonempty_seq_of_parts, nonempty_get, nonempty_seq};
use crate::primitives::{
    byte_of_flags, parse_amount, parse_anchor, parse_flags, parse_signature, read_amount,
    read_anchor, read_flags, read_signature, valid_amount, valid_anchor, write_amount, write_anchor,
    write_flags, write_signature, Amount, Anchor, Flags, Signature,
};
use crate::reader::{consumed, viewed_option, Reader};
use crate::sequence::{
    all_valid, items_bytes, lemma_items_bytes_push, lemma_parse_items_error_stays, list_bytes,
    parse_items, parse_list,
};

verus! {

/// The model of an action with its spend authorization signature.
pub type SpecAuthorizedAction = (SpecAction, Seq<u8>);

/// The model of a bundle.
pub struct SpecBundle {
    pub flavor: BundleFlavor,
    pub actions: Seq<SpecAuthorizedAction>,
    pub flags: Flags,
    pub value_balance: int,
    pub burn: Seq<SpecBurnEntry>,
    pub burn_policy: BurnPolicy,
    pub anchor: Seq<u8>,
    pub proof: Seq<u8>,
    pub binding_signature: Seq<u8>,
}

/// The actions of a run of authorized actions.
pub open spec fn bodies(actions: Seq<SpecAuthorizedAction>) -> Seq<SpecAction> {
    actions.map_values(|action: SpecAuthorizedAction| action.0)
}

/// The signatures of a run of authorized actions.
pub open spec fn signatures(actions: Seq<SpecAuthorizedAction>) -> Seq<Seq<u8>> {
    actions.map_values(|action: SpecAuthorizedAction| action.1)
}

/// Each action with the signature at its own index.
pub open spec fn authorized(actions: Seq<SpecAction>, signatures: Seq<Seq<u8>>) -> Seq<
    SpecAuthorizedAction,
> {
    Seq::new(actions.len(), |i: int| (actions[i], signatures[i]))
}

/// The signatures of a run of signed actions.
pub open spec fn action_signatures(actions: Seq<Action<Signature>>) -> Seq<Seq<u8>> {
    actions.map_values(|action: Action<Signature>| action.auth()@)
}

/// The models of a run of signed actions.
pub open spec fn action_views(actions: Seq<Action<Signature>>) -> Seq<SpecAuthorizedAction> {
    actions.map_values(|action: Action<Signature>| (action.body(), action.auth()@))
}

/// [`parse_signature`] as a value.
pub open spec fn signature_parser() -> spec_fn(Seq<u8>, int) -> Parsed<Seq<u8>> {
    |data: Seq<u8>, pos: int| parse_signature(data, pos)
}

/// The encoding of a signature, which is the signature.
pub open spec fn signature_encoder() -> spec_fn(Seq<u8>) -> Seq<u8> {
    |signature: Seq<u8>| signature
}

/// Whether a byte string has the length of a signature.
pub open spec fn signature_validity() -> spec_fn(Seq<u8>) -> bool {
    |signature: Seq<u8>| signature.len() == 64
}

/// The single-asset format. A counted list of actions comes first; if it is
/// empty there is no bundle, and nothing more is read. Otherwise follow the
/// flag byte, the value balance, the anchor, the proof as a byte string, one
/// signature for each action in the order of the actions, and the binding
/// signature. There is no burn list; the bundle is held to positive burn
/// amounts, of which it has none.
pub open spec fn parse_bundle_v5(data: Seq<u8>, pos: int) -> Parsed<Option<SpecBundle>> {
    match parse_list(action_parser(BundleFlavor::Vanilla), data, pos) {
        Err(e) => Err(e),
        Ok((actions, at1)) => if actions.len() == 0 {
            Ok((None, at1))
        } else {
            match parse_flags(data, at1) {
                Err(e) => Err(e),
                Ok((flags, at2)) => match parse_amount(data, at2) {
                    Err(e) => Err(e),
                    Ok((value_balance, at3)) => match parse_anchor(data, at3) {
                        Err(e) => Err(e),
                        Ok((anchor, at4)) => match parse_byte_string(data, at4) {
                            Err(e) => Err(e),
                            Ok((proof, at5)) => match parse_items(
                                signature_parser(),
                                data,
                                at5,
                                actions.len(),
                            ) {
                                Err(e) => Err(e),
                                Ok((sigs, at6)) => match parse_signature(data, at6) {
                                    Err(e) => Err(e),
                                    Ok((binding_signature, at7)) => Ok(
                                        (
                                            Some(
                                                SpecBundle {
                                                    flavor: BundleFlavor::Vanilla,
                                                    actions: authorized(actions, sigs),
                                                    flags,
                                                    value_balance,
                                                    burn: Seq::empty(),
                                                    burn_policy: BurnPolicy::Positive,
                                                    anchor,
                                                    proof,
                                                    binding_signature,
                                                },
                                            ),
                                            at7,
                                        ),
                                    ),
                                },
                            },
                        },
                    },
                },
            }
        }
    }
}

/// The encoding of a bundle in the single-asset format.
pub open spec fn bundle_v5_bytes(bundle: SpecBundle) -> Seq<u8> {
    list_bytes(action_encoder(), bodies(bundle.actions)) + seq![byte_of_flags(bundle.flags)]
        + i64_le_bytes(bundle.value_balance) + bundle.anchor + byte_string_bytes(bundle.proof)
        + items_bytes(signature_encoder(), signatures(bundle.actions)) + bundle.binding_signature
}

/// The encoding of an absent bundle: the count zero.
pub open spec fn no_bundle_bytes() -> Seq<u8> {
    seq![0u8]
}

/// Whether the counts of a bundle are small enough to be written.
pub open spec fn encodable(bundle: SpecBundle) -> bool {
    &&& bundle.actions.len() <= MAX_COMPACT_SIZE
    &&& bundle.proof.len() <= MAX_COMPACT_SIZE
    &&& bundle.burn.len() <= MAX_COMPACT_SIZE
}

/// Whether parts may be put together to a bundle: the actions are of the
/// bundle's flavor, a single-asset bundle burns nothing and is held to
/// positive amounts, and the burn list passes validation under the policy.
pub open spec fn bundle_parts_fit(
    flavor: BundleFlavor,
    burn_policy: BurnPolicy,
    actions: Seq<Action<Signature>>,
    burn: Seq<(AssetBase, Amount)>,
) -> bool {
    &&& all_of_flavor(actions, flavor)
    &&& flavor == BundleFlavor::Vanilla ==> burn.len() == 0 && burn_policy == BurnPolicy::Positive
    &&& validate_burn(burn_view(burn), burn_policy) is Ok
}

/// The shielded part of one transaction.
#[derive(Debug, PartialEq, Eq)]
pub struct Bundle {
    flavor: BundleFlavor,
    actions: NonEmpty<Action<Signature>>,
    flags: Flags,
    value_balance: Amount,
    burn: Vec<(AssetBase, Amount)>,
    burn_policy: BurnPolicy,
    anchor: Anchor,
    proof: Vec<u8>,
    binding_signature: Signature,
}

impl View for Bundle {
    type V = SpecBundle;

    closed spec fn view(&self) -> SpecBundle {
        SpecBundle {
            flavor: self.flavor,
            actions: action_views(nonempty_seq(self.actions)),
            flags: self.flags,
            value_balance: self.value_balance@,
            burn: burn_view(self.burn@),
            burn_policy: self.burn_policy,
            anchor: self.anchor@,
            proof: self.proof@,
            binding_signature: self.binding_signature@,
        }
    }
}

impl Bundle {
    #[verifier::type_invariant]
    spec fn fits(self) -> bool {
        bundle_parts_fit(self.flavor, self.burn_policy, nonempty_seq(self.actions), self.burn@)
    }

    /// The actions, as they are held.
    pub closed spec fn held_actions(&self) -> Seq<Action<Signature>> {
        nonempty_seq(self.actions)
    }

    /// The burn list, as it is held.
    pub closed spec fn held_burn(&self) -> Seq<(AssetBase, Amount)> {
        self.burn@
    }

    /// The bundle with the given parts, held to positive burn amounts, if the
    /// parts fit together.
    pub fn from_parts(
        flavor: BundleFlavor,
        actions: NonEmpty<Action<Signature>>,
        flags: Flags,
        value_balance: Amount,
        burn: Vec<(AssetBase, Amount)>,
        anchor: Anchor,
        proof: Vec<u8>,
        binding_signature: Signature,
    ) -> (r: Option<Self>)
        ensures
            r is Some <==> bundle_parts_fit(
                flavor,
                BurnPolicy::Positive,
                nonempty_seq(actions),
                burn@,
            ),
            r matches Some(bundle) ==> bundle@ == (SpecBundle {
                flavor,
                actions: action_views(nonempty_seq(actions)),
                flags,
                value_balance: value_balance@,
                burn: burn_view(burn@),
                burn_policy: BurnPolicy::Positive,
                anchor: anchor@,
                proof: proof@,
                binding_signature: binding_signature@,
            }),
    {
        Bundle::from_parts_with(
            flavor,
            BurnPolicy::Positive,
            actions,
            flags,
            value_balance,
            burn,
            anchor,
            proof,
            binding_signature,
        )
    }

    /// The bundle with the given parts, held to the given rule for burn
    /// amounts, if the parts fit together.
    pub fn from_parts_with(
        flavor: BundleFlavor,
        burn_policy: BurnPolicy,
        actions: NonEmpty<Action<Signature>>,
        flags: Flags,
        value_balance: Amount,
        burn: Vec<(AssetBase, Amount)>,
        anchor: Anchor,
        proof: Vec<u8>,
        binding_signature: Signature,
    ) -> (r: Option<Self>)
        ensures
            r is Some <==> bundle_parts_fit(flavor, burn_policy, nonempty_seq(actions), burn@),
            r matches Some(bundle) ==> bundle@ == (SpecBundle {
                flavor,
                actions: action_views(nonempty_seq(actions)),
                flags,
                value_balance: value_balance@,
                burn: burn_view(burn@),
                burn_policy,
                anchor: anchor@,
                proof: proof@,
                binding_signature: binding_signature@,
            }),
    {
        let n = actions.len();
        let mut i: usize = 0;
        while i < n
            invariant
                i <= n,
                n == nonempty_seq(actions).len(),
                forall|k: int| 0 <= k < i ==> (#[trigger] nonempty_seq(actions)[k]).flavor() == flavor,
            decreases n - i,
        {
            let action = nonempty_get(&actions, i);
            let found = action.encrypted_note().payload_flavor();
            if !same_flavor(found, flavor) {
                return None;
            }
            i += 1;
        }
        if same_flavor(flavor, BundleFlavor::Vanilla) {
            if burn.len() != 0 {
                return None;
            }
            match burn_policy {
                BurnPolicy::Positive => {},
                BurnPolicy::Nonzero => {
                    return None;
                },
            }
        }
        match validate_bundle_burn_with(&burn, burn_policy) {
            Ok(()) => {},
            Err(_) => {
                return None;
            },
        }
        Some(
            Bundle {
                flavor,
                actions,
                flags,
                value_balance,
                burn,
                burn_policy,
                anchor,
                proof,
                binding_signature,
            },
        )
    }

    /// The bundle with the given parts, which fit together.
    pub(crate) fn assemble(
        flavor: BundleFlavor,
        burn_policy: BurnPolicy,
        actions: NonEmpty<Action<Signature>>,
        flags: Flags,
        value_balance: Amount,
        burn: Vec<(AssetBase, Amount)>,
        anchor: Anchor,
        proof_bytes: Vec<u8>,
        binding_signature: Signature,
    ) -> (r: Self)
        requires
            bundle_parts_fit(flavor, burn_policy, nonempty_seq(actions), burn@),
        ensures
            r@ == (SpecBundle {
                flavor,
                actions: action_views(nonempty_seq(actions)),
                flags,
                value_balance: value_balance@,
                burn: burn_view(burn@),
                burn_policy,
                anchor: anchor@,
                proof: proof_bytes@,
                binding_signature: binding_signature@,
            }),
    {
        Bundle {
            flavor,
            actions,
            flags,
            value_balance,
            burn,
            burn_policy,
            anchor,
            proof: proof_bytes,
            binding_signature,
        }
    }

    /// The flavor.
    pub fn flavor(&self) -> (r: BundleFlavor)
        ensures
            r == self@.flavor,
    {
        self.flavor
    }

    /// The actions.
    pub fn actions(&self) -> (r: &NonEmpty<Action<Signature>>)
        ensures
            nonempty_seq(*r) == self.held_actions(),
            action_views(nonempty_seq(*r)) == self@.actions,
            all_of_flavor(nonempty_seq(*r), self@.flavor),
    {
        proof {
            use_type_invariant(self);
        }
        &self.actions
    }

    /// The flags.
    pub fn flags(&self) -> (r: &Flags)
        ensures
            *r == self@.flags,
    {
        &self.flags
    }

    /// The net value that the bundle moves out of the shielded pool.
    pub fn value_balance(&self) -> (r: &Amount)
        ensures
            r@ == self@.value_balance,
    {
        &self.value_balance
    }

    /// The rule for burn amounts that the bundle is held to.
    pub fn burn_policy(&self) -> (r: BurnPolicy)
        ensures
            r == self@.burn_policy,
    {
        self.burn_policy
    }

    /// The burn list.
    pub fn burn(&self) -> (r: &Vec<(AssetBase, Amount)>)
        ensures
            r@ == self.held_burn(),
            burn_view(r@) == self@.burn,
            validate_burn(self@.burn, self@.burn_policy) is Ok,
            self@.flavor == BundleFlavor::Vanilla ==> r@.len() == 0 && self@.burn_policy
                == BurnPolicy::Positive,
    {
        proof {
            use_type_invariant(self);
        }
        &self.burn
    }

    /// The anchor.
    pub fn anchor(&self) -> (r: &Anchor)
        ensures
            r@ == self@.anchor,
    {
        &self.anchor
    }

    /// The proof, which this library does not interpret.
    pub fn proof_bytes(&self) -> (r: &Vec<u8>)
        ensures
            r@ == self@.proof,
    {
        &self.proof
    }

    /// The binding signature.
    pub fn binding_signature(&self) -> (r: &Signature)
        ensures
            r@ == self@.binding_signature,
    {
        &self.binding_signature
    }
}

/// Whether two flavors are the same.
pub fn same_flavor(a: BundleFlavor, b: BundleFlavor) -> (r: bool)
    ensures
        r == (a == b),
{
    match (a, b) {
        (BundleFlavor::Vanilla, BundleFlavor::Vanilla) => true,
        (BundleFlavor::MultiAsset, BundleFlavor::MultiAsset) => true,
        _ => false,
    }
}

/// Reads a counted list of actions of the given flavor, without
/// authorizations.
pub fn read_actions_without_auth(reader: &mut Reader, flavor: BundleFlavor) -> (r: Result<
    Vec<Action<()>>,
    DecodeError,
>)
    ensures
        consumed(
            *old(reader),
            *final(reader),
            match r {
                Ok(actions) => Ok(action_bodies(actions@)),
                Err(e) => Err(e),
            },
            parse_list(action_parser(flavor), old(reader).data(), old(reader).pos()),
        ),
        r matches Ok(actions) ==> all_of_flavor(actions@, flavor),
{
    let mut cursor = *reader;
    let ghost data = cursor.data();
    let count = read_compact_size(&mut cursor)?;
    let ghost start = cursor.pos();
    let mut actions: Vec<Action<()>> = Vec::new();
    let mut i: usize = 0;
    assert(action_bodies(actions@) =~= Seq::empty());
    while i < count
        invariant
            i <= count,
            cursor.data() == data,
            data == old(reader).data(),
            0 <= old(reader).pos() <= data.len(),
            parse_compact_size(data, old(reader).pos()) == Ok::<(u64, int), DecodeError>(
                (count as u64, start),
            ),
            parse_items(action_parser(flavor), data, start, i as nat) == Ok::<
                (Seq<SpecAction>, int),
                DecodeError,
            >((action_bodies(actions@), cursor.pos())),
            all_of_flavor(actions@, flavor),
        decreases count - i,
    {
        let ghost before = action_bodies(actions@);
        match read_action_without_auth(&mut cursor, flavor) {
            Ok(action) => {
                actions.push(action);
                assert(action_bodies(actions@) =~= before.push(action.body()));
            },
            Err(e) => {
                proof {
                    lemma_parse_items_error_stays(
                        action_parser(flavor),
                        data,
                        start,
                        (i + 1) as nat,
                        count as nat,
                    );
                }
                return Err(e);
            },
        }
        i += 1;
    }
    *reader = cursor;
    Ok(actions)
}

/// Reads one spend authorization signature for each of `actions`, in their
/// order, and hands back the actions with their signatures.
pub fn read_spend_auth_signatures(reader: &mut Reader, actions: &Vec<Action<()>>) -> (r: Result<
    Vec<Action<Signature>>,
    DecodeError,
>)
    ensures
        consumed(
            *old(reader),
            *final(reader),
            match r {
                Ok(signed) => Ok(action_signatures(signed@)),
                Err(e) => Err(e),
            },
            parse_items(
                signature_parser(),
                old(reader).data(),
                old(reader).pos(),
                actions@.len(),
            ),
        ),
        r matches Ok(signed) ==> {
            &&& action_bodies(signed@) == action_bodies(actions@)
            &&& forall|flavor: BundleFlavor|
                all_of_flavor(actions@, flavor) ==> all_of_flavor(signed@, flavor)
        },
{
    let mut cursor = *reader;
    let ghost data = cursor.data();
    let ghost start = cursor.pos();
    // the cursor stands within its bytes
    let _ = cursor.position();
    let mut signed: Vec<Action<Signature>> = Vec::new();
    let mut i: usize = 0;
    assert(action_signatures(signed@) =~= Seq::empty());
    while i < actions.len()
        invariant
            i <= actions@.len(),
            signed@.len() == i,
            cursor.data() == data,
            data == old(reader).data(),
            start == old(reader).pos(),
            0 <= start <= data.len(),
            parse_items(signature_parser(), data, start, i as nat) == Ok::<
                (Seq<Seq<u8>>, int),
                DecodeError,
            >((action_signatures(signed@), cursor.pos())),
            forall|k: int|
                0 <= k < i ==> (#[trigger] signed@[k]).body() == actions@[k].body() && signed@[k].flavor()
                    == actions@[k].flavor(),
        decreases actions@.len() - i,
    {
        let ghost before = action_signatures(signed@);
        match read_signature(&mut cursor) {
            Ok(signature) => {
                signed.push(actions[i].authorized_by(signature));
                assert(action_signatures(signed@) =~= before.push(signature@));
            },
            Err(e) => {
                proof {
                    lemma_parse_items_error_stays(
                        signature_parser(),
                        data,
                        start,
                        (i + 1) as nat,
                        actions@.len(),
                    );
                }
                return Err(e);
            },
        }
        i += 1;
    }
    *reader = cursor;
    Ok(signed)
}

/// The models of signed actions are their bodies, each with the signature at
/// its index.
pub proof fn lemma_action_views(actions: Seq<Action<Signature>>)
    ensures
        action_views(actions) == authorized(action_bodies(actions), action_signatures(actions)),
        bodies(action_views(actions)) == action_bodies(actions),
        signatures(action_views(actions)) == action_signatures(actions),
{
}

/// Reads a bundle in the single-asset format. What it yields is a valid
/// bundle that could be written again.
pub fn read_orchard_bundle(reader: &mut Reader) -> (r: Result<Option<Bundle>, DecodeError>)
    ensures
        consumed(
            *old(reader),
            *final(reader),
            viewed_option(r),
            parse_bundle_v5(old(reader).data(), old(reader).pos()),
        ),
        r matches Ok(Some(bundle)) ==> valid_bundle(bundle@) && encodable(bundle@),
{
    proof {
        lemma_bundle_v5_canonical(reader.data(), reader.pos());
    }
    let mut cursor = *reader;
    let actions_without_auth = read_actions_without_auth(&mut cursor, BundleFlavor::Vanilla)?;
    if actions_without_auth.len() == 0 {
        *reader = cursor;
        Ok(None)
    } else {
        let flags = read_flags(&mut cursor)?;
        let value_balance = read_amount(&mut cursor)?;
        let anchor = read_anchor(&mut cursor)?;
        let proof_bytes = read_byte_string(&mut cursor)?;
        let signed = read_spend_auth_signatures(&mut cursor, &actions_without_auth)?;
        let ghost signed_seq = signed@;
        let binding_signature = read_signature(&mut cursor)?;
        let burn: Vec<(AssetBase, Amount)> = Vec::new();
        proof {
            assert(burn_view(burn@) =~= Seq::empty());
        }
        match NonEmpty::from_vec(signed) {
            Some(actions) => {
                proof {
                    lemma_nonempty_seq_of_parts(actions, signed_seq);
                    lemma_action_views(signed_seq);
                }
                *reader = cursor;
                Ok(
                    Some(
                        Bundle {
                            flavor: BundleFlavor::Vanilla,
                            actions,
                            flags,
                            value_balance,
                            burn,
                            burn_policy: BurnPolicy::Positive,
                            anchor,
                            proof: proof_bytes,
                            binding_signature,
                        },
                    ),
                )
            },
            None => Err(DecodeError::StructuralViolation),
        }
    }
}

/// Writes the count of `actions` and then each action without its
/// authorization. Too many actions for a compact size are refused, and the
/// buffer is then left as it was.
pub fn write_actions_without_auth(writer: &mut Vec<u8>, actions: &NonEmpty<Action<Signature>>) -> (r:
    Result<(), EncodeError>)
    ensures
        r is Ok <==> nonempty_seq(*actions).len() <= MAX_COMPACT_SIZE,
        r is Ok ==> final(writer)@ == old(writer)@ + list_bytes(
            action_encoder(),
            action_bodies(nonempty_seq(*actions)),
        ),
        r is Ok ==> forall|i: int|
            0 <= i < nonempty_seq(*actions).len() ==> valid_action(
                (#[trigger] nonempty_seq(*actions)[i]).body(),
                nonempty_seq(*actions)[i].flavor(),
            ),
        r is Err ==> final(writer)@ == old(writer)@,
{
    let ghost all = nonempty_seq(*actions);
    let ghost models = action_bodies(all);
    let n = actions.len();
    write_compact_size(writer, n)?;
    let ghost prefix = writer@;
    let mut i: usize = 0;
    while i < n
        invariant
            i <= n,
            n == all.len(),
            all == nonempty_seq(*actions),
            models == action_bodies(all),
            writer@ == prefix + items_bytes(action_encoder(), models.take(i as int)),
            forall|k: int| 0 <= k < i ==> valid_action((#[trigger] all[k]).body(), all[k].flavor()),
        decreases n - i,
    {
        write_action_without_auth(writer, nonempty_get(actions, i));
        proof {
            lemma_items_bytes_push(action_encoder(), models.take(i as int), models[i as int]);
            assert(models.take(i as int).push(models[i as int]) =~= models.take(i + 1));
        }
        i += 1;
    }
    assert(models.take(i as int) =~= models);
    Ok(())
}

/// Writes the spend authorization signature of each action, in the order of
/// the actions.
pub fn write_spend_auth_signatures(writer: &mut Vec<u8>, actions: &NonEmpty<Action<Signature>>)
    ensures
        final(writer)@ == old(writer)@ + items_bytes(
            signature_encoder(),
            action_signatures(nonempty_seq(*actions)),
        ),
        forall|i: int|
            0 <= i < nonempty_seq(*actions).len() ==> (#[trigger] action_signatures(
                nonempty_seq(*actions),
            )[i]).len() == 64,
{
    let ghost sigs = action_signatures(nonempty_seq(*actions));
    let n = actions.len();
    let mut i: usize = 0;
    while i < n
        invariant
            i <= n,
            n == sigs.len(),
            sigs == action_signatures(nonempty_seq(*actions)),
            writer@ == old(writer)@ + items_bytes(signature_encoder(), sigs.take(i as int)),
            forall|k: int| 0 <= k < i ==> (#[trigger] sigs[k]).len() == 64,
        decreases n - i,
    {
        write_signature(writer, nonempty_get(actions, i).authorization());
        proof {
            lemma_items_bytes_push(signature_encoder(), sigs.take(i as int), sigs[i as int]);
            assert(sigs.take(i as int).push(sigs[i as int]) =~= sigs.take(i + 1));
        }
        i += 1;
    }
    assert(sigs.take(i as int) =~= sigs);
}

/// What holds of the model of every bundle: it has an action; each action,
/// signature and field is what its decoder accepts; the actions are of the
/// bundle's flavor; a single-asset bundle burns nothing and is held to
/// positive amounts; the burn list passes validation under the bundle's
/// policy.
pub open spec fn valid_bundle(bundle: SpecBundle) -> bool {
    &&& bundle.actions.len() > 0
    &&& forall|i: int|
        0 <= i < bundle.actions.len() ==> valid_action(
            (#[trigger] bundle.actions[i]).0,
            bundle.flavor,
        ) && bundle.actions[i].1.len() == 64
    &&& valid_amount(bundle.value_balance)
    &&& valid_anchor(bundle.anchor)
    &&& bundle.binding_signature.len() == 64
    &&& bundle.flavor == BundleFlavor::Vanilla ==> bundle.burn.len() == 0 && bundle.burn_policy
        == BurnPolicy::Positive
    &&& all_valid(burn_entry_validity(), bundle.burn)
    &&& validate_burn(bundle.burn, bundle.burn_policy) is Ok
}

/// The verdict on writing a bundle in the format of `flavor`: a bundle of
/// another flavor is a `FlavorMismatch`; one with more actions, a longer
/// proof or more burn entries than a compact size may say is `TooLarge`.
pub open spec fn encode_verdict(bundle: SpecBundle, flavor: BundleFlavor) -> Result<
    (),
    EncodeError,
> {
    if bundle.flavor != flavor {
        Err(EncodeError::FlavorMismatch)
    } else if !encodable(bundle) {
        Err(EncodeError::TooLarge)
    } else {
        Ok(())
    }
}

/// Writes a bundle in the single-asset format. A bundle that
/// [`encode_verdict`] refuses is not written, and the buffer is then left as
/// it was.
pub fn write_v5_bundle(bundle: &Bundle, writer: &mut Vec<u8>) -> (r: Result<(), EncodeError>)
    ensures
        r == encode_verdict(bundle@, BundleFlavor::Vanilla),
        r is Ok ==> final(writer)@ == old(writer)@ + bundle_v5_bytes(bundle@),
        r is Ok ==> valid_bundle(bundle@),
        r is Err ==> final(writer)@ == old(writer)@,
{
    let actions = bundle.actions();
    // a single-asset bundle burns nothing
    let _ = bundle.burn();
    if !same_flavor(bundle.flavor(), BundleFlavor::Vanilla) {
        return Err(EncodeError::FlavorMismatch);
    }
    if actions.len() > MAX_COMPACT_SIZE as usize || bundle.proof_bytes().len()
        > MAX_COMPACT_SIZE as usize {
        return Err(EncodeError::TooLarge);
    }
    proof {
        lemma_action_views(nonempty_seq(*actions));
    }
    match write_actions_without_auth(writer, actions) {
        Ok(()) => {},
        Err(e) => {
            return Err(e);
        },
    }
    write_flags(writer, bundle.flags());
    write_amount(writer, bundle.value_balance());
    write_anchor(writer, bundle.anchor());
    match write_byte_string(writer, bundle.proof_bytes().as_slice()) {
        Ok(()) => {},
        Err(e) => {
            return Err(e);
        },
    }
    write_spend_auth_signatures(writer, actions);
    write_signature(writer, bundle.binding_signature());
    Ok(())
}

} // verus!
