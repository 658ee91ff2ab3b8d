//! One spend-and-output pair of a bundle, and its encoding without the
//! spend authorization: value commitment, nullifier, verification key, note
//! commitment and the encrypted note.

use vstd::prelude::*;
use crate::bytes::Parsed;
use crate::error::DecodeError;
use crate::primitives::{
    parse_cmx, parse_nullifier, parse_value_commitment, parse_verification_key, read_cmx,
    read_nullifier, read_value_commitment, read_verification_key, valid_note_commitment,
    valid_nullifier, valid_value_commitment, valid_verification_key, write_cmx, write_nullifier,
    write_value_commitment, write_verification_key, ExtractedNoteCommitment, Nullifier,
    ValueCommitment, VerificationKey,
};
use crate::reader::{consumed, parse_bytes, put_bytes, viewed, Reader};

verus! {

/// The two kinds of bundle, which differ in the length of the encrypted note
/// and in the framing of the bundle.
#[derive(Debug, Clone, Copy, PartialEq, Eq, Structural)]
pub enum BundleFlavor {
    /// Single-asset bundles.
    Vanilla,
    /// Multi-asset bundles.
    MultiAsset,
}

/// The length of the encrypted note of a single-asset action.
pub const ENC_CIPHERTEXT_SIZE_VANILLA: usize = 580;

/// The length of the encrypted note of a multi-asset action.
pub const ENC_CIPHERTEXT_SIZE_MULTI_ASSET: usize = 612;

/// The length of the encrypted tail that lets the sender recover a note.
pub const OUT_CIPHERTEXT_SIZE: usize = 80;

/// The length of the encrypted note in actions of the given flavor.
pub open spec fn enc_ciphertext_size(flavor: BundleFlavor) -> nat {
    match flavor {
        BundleFlavor::Vanilla => ENC_CIPHERTEXT_SIZE_VANILLA as nat,
        BundleFlavor::MultiAsset => ENC_CIPHERTEXT_SIZE_MULTI_ASSET as nat,
    }
}

impl BundleFlavor {
    /// The length of the encrypted note in actions of this flavor.
    pub fn enc_ciphertext_size(&self) -> (n: usize)
        ensures
            n == enc_ciphertext_size(*self),
    {
        match self {
            BundleFlavor::Vanilla => ENC_CIPHERTEXT_SIZE_VANILLA,
            BundleFlavor::MultiAsset => ENC_CIPHERTEXT_SIZE_MULTI_ASSET,
        }
    }
}

/// The model of an encrypted note.
pub struct SpecNoteCiphertext {
    pub epk_bytes: Seq<u8>,
    pub enc_ciphertext: Seq<u8>,
    pub out_ciphertext: Seq<u8>,
}

/// The model of an action without its authorization.
pub struct SpecAction {
    pub cv_net: Seq<u8>,
    pub nf: Seq<u8>,
    pub rk: Seq<u8>,
    pub cmx: Seq<u8>,
    pub encrypted_note: SpecNoteCiphertext,
}

/// An encrypted note of the given flavor: three byte strings of the lengths
/// that the flavor fixes.
pub open spec fn valid_note_ciphertext(note: SpecNoteCiphertext, flavor: BundleFlavor) -> bool {
    &&& note.epk_bytes.len() == 32
    &&& note.enc_ciphertext.len() == enc_ciphertext_size(flavor)
    &&& note.out_ciphertext.len() == OUT_CIPHERTEXT_SIZE
}

/// An action of the given flavor: every field is what its decoder accepts.
pub open spec fn valid_action(action: SpecAction, flavor: BundleFlavor) -> bool {
    &&& valid_value_commitment(action.cv_net)
    &&& valid_nullifier(action.nf)
    &&& valid_verification_key(action.rk)
    &&& valid_note_commitment(action.cmx)
    &&& valid_note_ciphertext(action.encrypted_note, flavor)
}

/// An encrypted note: the ephemeral key, the payload of the flavor's length
/// and the 80-byte tail, none of which is interpreted.
pub open spec fn parse_note_ciphertext(data: Seq<u8>, pos: int, flavor: BundleFlavor) -> Parsed<
    SpecNoteCiphertext,
> {
    match parse_bytes(data, pos, 32) {
        Ok((epk_bytes, at1)) => match parse_bytes(data, at1, enc_ciphertext_size(flavor)) {
            Ok((enc_ciphertext, at2)) => match parse_bytes(data, at2, OUT_CIPHERTEXT_SIZE as nat) {
                Ok((out_ciphertext, at3)) => Ok(
                    (SpecNoteCiphertext { epk_bytes, enc_ciphertext, out_ciphertext }, at3),
                ),
                Err(e) => Err(e),
            },
            Err(e) => Err(e),
        },
        Err(e) => Err(e),
    }
}

/// The encoding that [`parse_note_ciphertext`] reads.
pub open spec fn note_ciphertext_bytes(note: SpecNoteCiphertext) -> Seq<u8> {
    note.epk_bytes + note.enc_ciphertext + note.out_ciphertext
}

/// An action without authorization: value commitment, nullifier,
/// verification key, note commitment and encrypted note, in this order.
pub open spec fn parse_action(data: Seq<u8>, pos: int, flavor: BundleFlavor) -> Parsed<SpecAction> {
    match parse_value_commitment(data, pos) {
        Ok((cv_net, at1)) => match parse_nullifier(data, at1) {
            Ok((nf, at2)) => match parse_verification_key(data, at2) {
                Ok((rk, at3)) => match parse_cmx(data, at3) {
                    Ok((cmx, at4)) => match parse_note_ciphertext(data, at4, flavor) {
                        Ok((encrypted_note, at5)) => Ok(
                            (SpecAction { cv_net, nf, rk, cmx, encrypted_note }, at5),
                        ),
                        Err(e) => Err(e),
                    },
                    Err(e) => Err(e),
                },
                Err(e) => Err(e),
            },
            Err(e) => Err(e),
        },
        Err(e) => Err(e),
    }
}

/// The encoding that [`parse_action`] reads.
pub open spec fn action_bytes(action: SpecAction) -> Seq<u8> {
    action.cv_net + action.nf + action.rk + action.cmx + note_ciphertext_bytes(
        action.encrypted_note,
    )
}

/// The encrypted note of an action.
#[derive(Debug, PartialEq, Eq)]
pub struct TransmittedNoteCiphertext {
    epk_bytes: [u8; 32],
    enc_ciphertext: Vec<u8>,
    out_ciphertext: [u8; 80],
}

impl View for TransmittedNoteCiphertext {
    type V = SpecNoteCiphertext;

    closed spec fn view(&self) -> SpecNoteCiphertext {
        SpecNoteCiphertext {
            epk_bytes: self.epk_bytes@,
            enc_ciphertext: self.enc_ciphertext@,
            out_ciphertext: self.out_ciphertext@,
        }
    }
}

impl Clone for TransmittedNoteCiphertext {
    fn clone(&self) -> (r: Self)
        ensures
            r@ == self@,
    {
        proof {
            use_type_invariant(self);
        }
        let enc_ciphertext = self.enc_ciphertext.clone();
        TransmittedNoteCiphertext {
            epk_bytes: self.epk_bytes,
            enc_ciphertext,
            out_ciphertext: self.out_ciphertext,
        }
    }
}

impl TransmittedNoteCiphertext {
    #[verifier::type_invariant]
    spec fn sized(self) -> bool {
        self.enc_ciphertext@.len() == ENC_CIPHERTEXT_SIZE_VANILLA || self.enc_ciphertext@.len()
            == ENC_CIPHERTEXT_SIZE_MULTI_ASSET
    }

    /// The flavor whose payload length this note has.
    pub open spec fn flavor(&self) -> BundleFlavor {
        if self@.enc_ciphertext.len() == ENC_CIPHERTEXT_SIZE_VANILLA {
            BundleFlavor::Vanilla
        } else {
            BundleFlavor::MultiAsset
        }
    }

    /// The encrypted note with the given parts, if the payload has the
    /// length of one of the flavors.
    pub fn from_parts(epk_bytes: [u8; 32], enc_ciphertext: Vec<u8>, out_ciphertext: [u8; 80]) -> (r:
        Option<Self>)
        ensures
            r is Some <==> (enc_ciphertext@.len() == ENC_CIPHERTEXT_SIZE_VANILLA
                || enc_ciphertext@.len() == ENC_CIPHERTEXT_SIZE_MULTI_ASSET),
            r is Some ==> r->Some_0@ == (SpecNoteCiphertext {
                epk_bytes: epk_bytes@,
                enc_ciphertext: enc_ciphertext@,
                out_ciphertext: out_ciphertext@,
            }),
    {
        if enc_ciphertext.len() == ENC_CIPHERTEXT_SIZE_VANILLA || enc_ciphertext.len()
            == ENC_CIPHERTEXT_SIZE_MULTI_ASSET {
            Some(TransmittedNoteCiphertext { epk_bytes, enc_ciphertext, out_ciphertext })
        } else {
            None
        }
    }

    /// The encoding of the ephemeral key.
    pub fn epk_bytes(&self) -> (r: &[u8; 32])
        ensures
            r@ == self@.epk_bytes,
    {
        &self.epk_bytes
    }

    /// The flavor whose payload length this note has.
    pub fn payload_flavor(&self) -> (r: BundleFlavor)
        ensures
            r == self.flavor(),
            valid_note_ciphertext(self@, r),
    {
        proof {
            use_type_invariant(self);
        }
        if self.enc_ciphertext.len() == ENC_CIPHERTEXT_SIZE_VANILLA {
            BundleFlavor::Vanilla
        } else {
            BundleFlavor::MultiAsset
        }
    }

    /// The encrypted payload.
    pub fn enc_ciphertext(&self) -> (r: &Vec<u8>)
        ensures
            r@ == self@.enc_ciphertext,
            valid_note_ciphertext(self@, self.flavor()),
    {
        proof {
            use_type_invariant(self);
        }
        &self.enc_ciphertext
    }

    /// The encrypted tail for the sender.
    pub fn out_ciphertext(&self) -> (r: &[u8; 80])
        ensures
            r@ == self@.out_ciphertext,
    {
        &self.out_ciphertext
    }
}

/// One spend-and-output pair, with an authorization of type `A`: nothing
/// while the action is being read, a signature in a finished bundle.
#[derive(Debug, Clone, PartialEq, Eq)]
pub struct Action<A> {
    nf: Nullifier,
    rk: VerificationKey,
    cmx: ExtractedNoteCommitment,
    encrypted_note: TransmittedNoteCiphertext,
    cv_net: ValueCommitment,
    authorization: A,
}

impl<A> Action<A> {
    /// The action without its authorization.
    pub closed spec fn body(&self) -> SpecAction {
        SpecAction {
            cv_net: self.cv_net@,
            nf: self.nf@,
            rk: self.rk@,
            cmx: self.cmx@,
            encrypted_note: self.encrypted_note@,
        }
    }

    /// The authorization.
    pub closed spec fn auth(&self) -> A {
        self.authorization
    }

    /// The flavor whose payload length the encrypted note has.
    pub closed spec fn flavor(&self) -> BundleFlavor {
        self.encrypted_note.flavor()
    }

    /// The action with the given parts.
    pub fn from_parts(
        nf: Nullifier,
        rk: VerificationKey,
        cmx: ExtractedNoteCommitment,
        encrypted_note: TransmittedNoteCiphertext,
        cv_net: ValueCommitment,
        authorization: A,
    ) -> (r: Self)
        ensures
            r.body() == (SpecAction {
                cv_net: cv_net@,
                nf: nf@,
                rk: rk@,
                cmx: cmx@,
                encrypted_note: encrypted_note@,
            }),
            r.auth() == authorization,
            r.flavor() == encrypted_note.flavor(),
    {
        Action { nf, rk, cmx, encrypted_note, cv_net, authorization }
    }

    /// The nullifier of the spent note.
    pub fn nullifier(&self) -> (r: &Nullifier)
        ensures
            r@ == self.body().nf,
    {
        &self.nf
    }

    /// The randomized verification key.
    pub fn rk(&self) -> (r: &VerificationKey)
        ensures
            r@ == self.body().rk,
    {
        &self.rk
    }

    /// The commitment to the created note.
    pub fn cmx(&self) -> (r: &ExtractedNoteCommitment)
        ensures
            r@ == self.body().cmx,
    {
        &self.cmx
    }

    /// The encrypted created note.
    pub fn encrypted_note(&self) -> (r: &TransmittedNoteCiphertext)
        ensures
            r@ == self.body().encrypted_note,
            r.flavor() == self.flavor(),
    {
        &self.encrypted_note
    }

    /// The commitment to the net value.
    pub fn cv_net(&self) -> (r: &ValueCommitment)
        ensures
            r@ == self.body().cv_net,
    {
        &self.cv_net
    }

    /// The authorization.
    pub fn authorization(&self) -> (r: &A)
        ensures
            *r == self.auth(),
    {
        &self.authorization
    }

    /// A copy of this action with `authorization` in place of its own.
    pub fn authorized_by<B>(&self, authorization: B) -> (r: Action<B>)
        ensures
            r.body() == self.body(),
            r.flavor() == self.flavor(),
            r.auth() == authorization,
    {
        Action {
            nf: self.nf,
            rk: self.rk,
            cmx: self.cmx,
            encrypted_note: self.encrypted_note.clone(),
            cv_net: self.cv_net,
            authorization,
        }
    }

    /// The same action with `authorization` in place of its own.
    pub fn with_authorization<B>(self, authorization: B) -> (r: Action<B>)
        ensures
            r.body() == self.body(),
            r.flavor() == self.flavor(),
            r.auth() == authorization,
    {
        Action {
            nf: self.nf,
            rk: self.rk,
            cmx: self.cmx,
            encrypted_note: self.encrypted_note,
            cv_net: self.cv_net,
            authorization,
        }
    }
}

/// The models of a run of actions, without their authorizations.
pub open spec fn action_bodies<A>(actions: Seq<Action<A>>) -> Seq<SpecAction> {
    actions.map_values(|action: Action<A>| action.body())
}

/// All of `actions` are of the given flavor.
pub open spec fn all_of_flavor<A>(actions: Seq<Action<A>>, flavor: BundleFlavor) -> bool {
    forall|i: int| 0 <= i < actions.len() ==> (#[trigger] actions[i]).flavor() == flavor
}

/// [`parse_action`] as a value.
pub open spec fn action_parser(flavor: BundleFlavor) -> spec_fn(Seq<u8>, int) -> Parsed<
    SpecAction,
> {
    |data: Seq<u8>, pos: int| parse_action(data, pos, flavor)
}

/// [`action_bytes`] as a value.
pub open spec fn action_encoder() -> spec_fn(SpecAction) -> Seq<u8> {
    |action: SpecAction| action_bytes(action)
}

/// [`valid_action`] as a value.
pub open spec fn action_validity(flavor: BundleFlavor) -> spec_fn(SpecAction) -> bool {
    |action: SpecAction| valid_action(action, flavor)
}

/// Reads an encrypted note of the given flavor.
pub fn read_note_ciphertext(reader: &mut Reader, flavor: BundleFlavor) -> (r: Result<
    TransmittedNoteCiphertext,
    DecodeError,
>)
    ensures
        consumed(
            *old(reader),
            *final(reader),
            viewed(r),
            parse_note_ciphertext(old(reader).data(), old(reader).pos(), flavor),
        ),
        r matches Ok(note) ==> note.flavor() == flavor,
{
    let mut cursor = *reader;
    let epk_bytes = cursor.read_array::<32>()?;
    let enc_ciphertext = cursor.read_vec(flavor.enc_ciphertext_size())?;
    let out_ciphertext = cursor.read_array::<80>()?;
    *reader = cursor;
    Ok(TransmittedNoteCiphertext { epk_bytes, enc_ciphertext, out_ciphertext })
}

/// Reads an action of the given flavor, without authorization.
pub fn read_action_without_auth(reader: &mut Reader, flavor: BundleFlavor) -> (r: Result<
    Action<()>,
    DecodeError,
>)
    ensures
        consumed(
            *old(reader),
            *final(reader),
            match r {
                Ok(action) => Ok(action.body()),
                Err(e) => Err(e),
            },
            parse_action(old(reader).data(), old(reader).pos(), flavor),
        ),
        r matches Ok(action) ==> action.flavor() == flavor,
{
    let mut cursor = *reader;
    let cv_net = read_value_commitment(&mut cursor)?;
    let nf_old = read_nullifier(&mut cursor)?;
    let rk = read_verification_key(&mut cursor)?;
    let cmx = read_cmx(&mut cursor)?;
    let encrypted_note = read_note_ciphertext(&mut cursor, flavor)?;
    *reader = cursor;
    Ok(Action::from_parts(nf_old, rk, cmx, encrypted_note, cv_net, ()))
}

/// Writes an encrypted note.
pub fn write_note_ciphertext(writer: &mut Vec<u8>, nc: &TransmittedNoteCiphertext)
    ensures
        final(writer)@ == old(writer)@ + note_ciphertext_bytes(nc@),
        valid_note_ciphertext(nc@, nc.flavor()),
{
    put_bytes(writer, nc.epk_bytes());
    put_bytes(writer, nc.enc_ciphertext().as_slice());
    put_bytes(writer, nc.out_ciphertext());
}

/// Writes an action without its authorization.
pub fn write_action_without_auth<A>(writer: &mut Vec<u8>, act: &Action<A>)
    ensures
        final(writer)@ == old(writer)@ + action_bytes(act.body()),
        valid_action(act.body(), act.flavor()),
{
    write_value_commitment(writer, act.cv_net());
    write_nullifier(writer, act.nullifier());
    write_verification_key(writer, act.rk());
    write_cmx(writer, act.cmx());
    write_note_ciphertext(writer, act.encrypted_note());
}

} // verus!
