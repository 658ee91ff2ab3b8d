//! Issuance bundles: actions that issue notes of an asset, the issuer's key
//! and the issuer's signature. There are two wire formats, which order the
//! fields of an action differently; they are kept apart and share only the
//! decoding of notes and of the framing.

use vstd::prelude::*;
use vstd::utf8::valid_utf8;
use nonempty::NonEmpty;
use crate::bytes::{has_at, lemma_has_at_concat, Parsed};
use crate::canonical::lemma_issue_bundle_canonical;
use crate::compact_size::{
    byte_string_bytes, lemma_byte_string_round_trip, parse_byte_string, parse_compact_size,
    read_byte_string, read_compact_size, write_byte_string, write_compact_size, MAX_COMPACT_SIZE,
};
use crate::error::{DecodeError, EncodeError};
use crate::list::{lemma_nonempty_seq_of_parts, nonempty_get, nonempty_seq};
use crate::note::{
    lemma_note_round_trip, note_bytes, parse_note, read_note, valid_note, write_note, Note,
    SpecNote,
};
use crate::primitives::{
    parse_signature, parse_verification_key, read_signature, read_verification_key,
    valid_verification_key, verification_key_decodes, write_signature, Signature, VerificationKey,
};
use crate::reader::{consumed, parse_u8, put_bytes, viewed, viewed_option, Reader};
use crate::sequence::{
    all_valid, items_bytes, lemma_items_bytes_push, lemma_list_round_trip,
    lemma_parse_items_error_stays, list_bytes, parse_items, parse_list, reads_back,
};

verus! {

/// How the asset description of an action is framed in the older format.
#[derive(Debug, Clone, Copy, PartialEq, Eq, Structural)]
pub enum DescriptionFraming {
    /// A compact-size length and then the bytes.
    LengthPrefixed,
    /// All the bytes up to the end of the input. An action framed like this
    /// must be the last thing in the input.
    ToEndOfInput,
}

/// The wire format of an issuance bundle.
#[derive(Debug, Clone, Copy, PartialEq, Eq, Structural)]
pub enum IssuanceFormat {
    /// The older format: finalization flag, notes, asset description.
    V5(DescriptionFraming),
    /// The newer format: asset description, notes, finalization flag.
    V6,
}

/// The model of an issuance action.
pub struct SpecIssueAction {
    pub asset_desc: Seq<u8>,
    pub notes: Seq<SpecNote>,
    pub finalize: bool,
}

/// The model of an issuance bundle.
pub struct SpecIssueBundle {
    pub ik: Seq<u8>,
    pub actions: Seq<SpecIssueAction>,
    pub reference_notes: Seq<SpecNote>,
    pub authorization: Seq<u8>,
}

/// Asks `std::str::from_utf8` whether `bytes` is well-formed UTF-8.
#[verifier::external_body]
fn utf8_accepts(bytes: &[u8]) -> (r: bool)
    ensures
        r == valid_utf8(bytes@),
{
    std::str::from_utf8(bytes).is_ok()
}

/// A boolean: the byte zero or one. Any other byte is refused.
pub open spec fn parse_bool(data: Seq<u8>, pos: int) -> Parsed<bool> {
    match parse_u8(data, pos) {
        Err(e) => Err(e),
        Ok((byte, next)) => if byte == 0 {
            Ok((false, next))
        } else if byte == 1 {
            Ok((true, next))
        } else {
            Err(DecodeError::InvalidEncoding)
        },
    }
}

/// The byte that encodes a boolean.
pub open spec fn bool_byte(b: bool) -> u8 {
    if b {
        1
    } else {
        0
    }
}

/// An asset description in the given framing: bytes that are well-formed
/// UTF-8.
pub open spec fn parse_description(data: Seq<u8>, pos: int, framing: DescriptionFraming) -> Parsed<
    Seq<u8>,
> {
    let raw = match framing {
        DescriptionFraming::LengthPrefixed => parse_byte_string(data, pos),
        DescriptionFraming::ToEndOfInput => if 0 <= pos <= data.len() {
            Ok((data.subrange(pos, data.len() as int), data.len() as int))
        } else {
            Err(DecodeError::UnexpectedEndOfInput)
        },
    };
    match raw {
        Err(e) => Err(e),
        Ok((bytes, next)) => if valid_utf8(bytes) {
            Ok((bytes, next))
        } else {
            Err(DecodeError::InvalidEncoding)
        },
    }
}

/// The encoding of an asset description in the given framing.
pub open spec fn description_bytes(desc: Seq<u8>, framing: DescriptionFraming) -> Seq<u8> {
    match framing {
        DescriptionFraming::LengthPrefixed => byte_string_bytes(desc),
        DescriptionFraming::ToEndOfInput => desc,
    }
}

/// [`parse_note`] as a value.
pub open spec fn note_parser() -> spec_fn(Seq<u8>, int) -> Parsed<SpecNote> {
    |data: Seq<u8>, pos: int| parse_note(data, pos)
}

/// [`note_bytes`] as a value.
pub open spec fn note_encoder() -> spec_fn(SpecNote) -> Seq<u8> {
    |note: SpecNote| note_bytes(note)
}

/// [`valid_note`] as a value.
pub open spec fn note_validity() -> spec_fn(SpecNote) -> bool {
    |note: SpecNote| valid_note(note)
}

/// The notes of an action: a counted list that must not be empty.
pub open spec fn parse_notes(data: Seq<u8>, pos: int) -> Parsed<Seq<SpecNote>> {
    match parse_list(note_parser(), data, pos) {
        Err(e) => Err(e),
        Ok((notes, next)) => if notes.len() == 0 {
            Err(DecodeError::StructuralViolation)
        } else {
            Ok((notes, next))
        },
    }
}

/// An action in the older format: the finalization flag, the notes, and the
/// asset description in the given framing.
pub open spec fn parse_issue_action_v5(data: Seq<u8>, pos: int, framing: DescriptionFraming) -> Parsed<
    SpecIssueAction,
> {
    match parse_bool(data, pos) {
        Err(e) => Err(e),
        Ok((finalize, at1)) => match parse_notes(data, at1) {
            Err(e) => Err(e),
            Ok((notes, at2)) => match parse_description(data, at2, framing) {
                Err(e) => Err(e),
                Ok((asset_desc, at3)) => Ok((SpecIssueAction { asset_desc, notes, finalize }, at3)),
            },
        },
    }
}

/// An action in the newer format: the asset description behind its length,
/// the notes, and the finalization flag.
pub open spec fn parse_issue_action_v6(data: Seq<u8>, pos: int) -> Parsed<SpecIssueAction> {
    match parse_description(data, pos, DescriptionFraming::LengthPrefixed) {
        Err(e) => Err(e),
        Ok((asset_desc, at1)) => match parse_notes(data, at1) {
            Err(e) => Err(e),
            Ok((notes, at2)) => match parse_bool(data, at2) {
                Err(e) => Err(e),
                Ok((finalize, at3)) => Ok((SpecIssueAction { asset_desc, notes, finalize }, at3)),
            },
        },
    }
}

/// An action in the given format.
pub open spec fn parse_issue_action(data: Seq<u8>, pos: int, format: IssuanceFormat) -> Parsed<
    SpecIssueAction,
> {
    match format {
        IssuanceFormat::V5(framing) => parse_issue_action_v5(data, pos, framing),
        IssuanceFormat::V6 => parse_issue_action_v6(data, pos),
    }
}

/// The encoding of an action in the given format.
pub open spec fn issue_action_bytes(action: SpecIssueAction, format: IssuanceFormat) -> Seq<u8> {
    match format {
        IssuanceFormat::V5(framing) => seq![bool_byte(action.finalize)] + list_bytes(
            note_encoder(),
            action.notes,
        ) + description_bytes(action.asset_desc, framing),
        IssuanceFormat::V6 => byte_string_bytes(action.asset_desc) + list_bytes(
            note_encoder(),
            action.notes,
        ) + seq![bool_byte(action.finalize)],
    }
}

/// An action with a well-formed description and at least one note, all of
/// them valid.
pub open spec fn valid_issue_action(action: SpecIssueAction) -> bool {
    &&& valid_utf8(action.asset_desc)
    &&& action.notes.len() > 0
    &&& all_valid(note_validity(), action.notes)
}

/// Whether the counts of an action are small enough to be written in the
/// given format.
pub open spec fn issue_action_encodable(action: SpecIssueAction, format: IssuanceFormat) -> bool {
    &&& action.notes.len() <= MAX_COMPACT_SIZE
    &&& format != IssuanceFormat::V5(DescriptionFraming::ToEndOfInput) ==> action.asset_desc.len()
        <= MAX_COMPACT_SIZE
}

/// [`parse_issue_action`] as a value.
pub open spec fn issue_action_parser(format: IssuanceFormat) -> spec_fn(Seq<u8>, int) -> Parsed<
    SpecIssueAction,
> {
    |data: Seq<u8>, pos: int| parse_issue_action(data, pos, format)
}

/// [`issue_action_bytes`] as a value.
pub open spec fn issue_action_encoder(format: IssuanceFormat) -> spec_fn(SpecIssueAction) -> Seq<
    u8,
> {
    |action: SpecIssueAction| issue_action_bytes(action, format)
}

/// Actions that are valid and could be written in the given format.
pub open spec fn writable_issue_action(format: IssuanceFormat) -> spec_fn(SpecIssueAction) -> bool {
    |action: SpecIssueAction| valid_issue_action(action) && issue_action_encodable(action, format)
}

/// An issuance bundle in the given format. A counted list of actions comes
/// first; if it is empty there is no bundle, and nothing more is read.
/// Otherwise follow the issuer's key and the issuer's signature. The
/// reference notes of the newer format have no encoding yet: none are read.
pub open spec fn parse_issue_bundle(data: Seq<u8>, pos: int, format: IssuanceFormat) -> Parsed<
    Option<SpecIssueBundle>,
> {
    match parse_list(issue_action_parser(format), data, pos) {
        Err(e) => Err(e),
        Ok((actions, at1)) => if actions.len() == 0 {
            Ok((None, at1))
        } else {
            match parse_verification_key(data, at1) {
                Err(e) => Err(e),
                Ok((ik, at2)) => match parse_signature(data, at2) {
                    Err(e) => Err(e),
                    Ok((authorization, at3)) => Ok(
                        (
                            Some(
                                SpecIssueBundle {
                                    ik,
                                    actions,
                                    reference_notes: Seq::empty(),
                                    authorization,
                                },
                            ),
                            at3,
                        ),
                    ),
                },
            }
        }
    }
}

/// The encoding of an issuance bundle in the given format, and of an absent
/// bundle. Reference notes are not written.
pub open spec fn issue_bundle_bytes(bundle: Option<SpecIssueBundle>, format: IssuanceFormat) -> Seq<
    u8,
> {
    match bundle {
        None => seq![0u8],
        Some(bundle) => list_bytes(issue_action_encoder(format), bundle.actions) + bundle.ik
            + bundle.authorization,
    }
}

/// What holds of the model of every issuance bundle: it has an action, the
/// actions are valid, the key is a verification key and the signature has 64
/// bytes.
pub open spec fn valid_issue_bundle(bundle: SpecIssueBundle) -> bool {
    &&& bundle.actions.len() > 0
    &&& forall|i: int| 0 <= i < bundle.actions.len() ==> valid_issue_action(#[trigger] bundle.actions[i])
    &&& valid_verification_key(bundle.ik)
    &&& bundle.authorization.len() == 64
}

/// Whether the counts of an issuance bundle are small enough to be written
/// in the given format.
pub open spec fn issue_bundle_encodable(bundle: SpecIssueBundle, format: IssuanceFormat) -> bool {
    &&& bundle.actions.len() <= MAX_COMPACT_SIZE
    &&& forall|i: int|
        0 <= i < bundle.actions.len() ==> issue_action_encodable(
            #[trigger] bundle.actions[i],
            format,
        )
}

/// The key that an issuer's signature is verified with, held as its
/// canonical encoding.
#[derive(Debug, Clone, Copy, PartialEq, Eq)]
pub struct IssuanceValidatingKey {
    key: VerificationKey,
}

impl View for IssuanceValidatingKey {
    type V = Seq<u8>;

    closed spec fn view(&self) -> Seq<u8> {
        self.key@
    }
}

impl IssuanceValidatingKey {
    /// The key that `bytes` encodes, if they encode a verification key.
    pub fn from_bytes(bytes: &[u8; 32]) -> (r: Option<Self>)
        ensures
            r is Some <==> verification_key_decodes(bytes@),
            r is Some ==> r->Some_0@ == bytes@,
    {
        match VerificationKey::from_bytes(bytes) {
            Some(key) => Some(IssuanceValidatingKey { key }),
            None => None,
        }
    }

    /// The canonical encoding.
    pub fn to_bytes(&self) -> (r: [u8; 32])
        ensures
            r@ == self@,
            valid_verification_key(self@),
    {
        self.key.to_bytes()
    }
}

/// The authorization of a signed issuance bundle: the issuer's signature.
#[derive(Debug, Clone, Copy, PartialEq, Eq)]
pub struct Signed {
    signature: Signature,
}

impl View for Signed {
    type V = Seq<u8>;

    closed spec fn view(&self) -> Seq<u8> {
        self.signature@
    }
}

impl Signed {
    /// The authorization with the signature of the given bytes.
    pub fn from_data(data: [u8; 64]) -> (r: Self)
        ensures
            r@ == data@,
    {
        Signed { signature: Signature::from_bytes(data) }
    }

    /// The issuer's signature.
    pub fn signature(&self) -> (r: &Signature)
        ensures
            r@ == self@,
    {
        &self.signature
    }
}

/// The models of a run of notes.
pub open spec fn note_views(notes: Seq<Note>) -> Seq<SpecNote> {
    notes.map_values(|note: Note| note@)
}

/// One act of issuing notes of an asset.
#[derive(Debug, PartialEq, Eq)]
pub struct IssueAction {
    asset_desc: Vec<u8>,
    notes: Vec<Note>,
    finalize: bool,
}

impl View for IssueAction {
    type V = SpecIssueAction;

    closed spec fn view(&self) -> SpecIssueAction {
        SpecIssueAction {
            asset_desc: self.asset_desc@,
            notes: note_views(self.notes@),
            finalize: self.finalize,
        }
    }
}

impl IssueAction {
    #[verifier::type_invariant]
    spec fn well_formed(self) -> bool {
        valid_utf8(self.asset_desc@) && self.notes@.len() > 0
    }

    /// The action with the given parts, if the description is well-formed
    /// UTF-8 and there is a note.
    pub fn from_parts(asset_desc: Vec<u8>, notes: Vec<Note>, finalize: bool) -> (r: Option<Self>)
        ensures
            r is Some <==> valid_utf8(asset_desc@) && notes@.len() > 0,
            r matches Some(action) ==> action@ == (SpecIssueAction {
                asset_desc: asset_desc@,
                notes: note_views(notes@),
                finalize,
            }),
    {
        if notes.len() > 0 && utf8_accepts(asset_desc.as_slice()) {
            Some(IssueAction { asset_desc, notes, finalize })
        } else {
            None
        }
    }

    /// The description of the asset, which is well-formed UTF-8.
    pub fn asset_desc(&self) -> (r: &Vec<u8>)
        ensures
            r@ == self@.asset_desc,
            valid_utf8(r@),
    {
        proof {
            use_type_invariant(self);
        }
        &self.asset_desc
    }

    /// The issued notes, of which there is at least one.
    pub fn notes(&self) -> (r: &Vec<Note>)
        ensures
            note_views(r@) == self@.notes,
            r@.len() > 0,
    {
        proof {
            use_type_invariant(self);
        }
        &self.notes
    }

    /// Whether this action forbids further issuance of the asset.
    pub fn is_finalized(&self) -> (r: bool)
        ensures
            r == self@.finalize,
    {
        self.finalize
    }
}

/// The models of a run of actions.
pub open spec fn issue_action_views(actions: Seq<IssueAction>) -> Seq<SpecIssueAction> {
    actions.map_values(|action: IssueAction| action@)
}

/// The issuance part of one transaction.
#[derive(Debug, PartialEq, Eq)]
pub struct IssueBundle {
    ik: IssuanceValidatingKey,
    actions: NonEmpty<IssueAction>,
    reference_notes: Vec<Note>,
    authorization: Signed,
}

impl View for IssueBundle {
    type V = SpecIssueBundle;

    closed spec fn view(&self) -> SpecIssueBundle {
        SpecIssueBundle {
            ik: self.ik@,
            actions: issue_action_views(nonempty_seq(self.actions)),
            reference_notes: note_views(self.reference_notes@),
            authorization: self.authorization@,
        }
    }
}

/// No two of the notes are of the same asset: the notes are a mapping from
/// assets to notes.
pub open spec fn distinct_assets(notes: Seq<SpecNote>) -> bool {
    forall|i: int, j: int| 0 <= i < j < notes.len() ==> notes[i].asset != notes[j].asset
}

impl IssueBundle {
    #[verifier::type_invariant]
    spec fn keyed(self) -> bool {
        distinct_assets(note_views(self.reference_notes@))
    }

    /// The bundle with the given parts, if no two of the reference notes are
    /// of the same asset.
    pub fn from_parts(
        ik: IssuanceValidatingKey,
        actions: NonEmpty<IssueAction>,
        reference_notes: Vec<Note>,
        authorization: Signed,
    ) -> (r: Option<Self>)
        ensures
            r is Some <==> distinct_assets(note_views(reference_notes@)),
            r matches Some(bundle) ==> bundle@ == (SpecIssueBundle {
                ik: ik@,
                actions: issue_action_views(nonempty_seq(actions)),
                reference_notes: note_views(reference_notes@),
                authorization: authorization@,
            }),
    {
        let ghost notes = note_views(reference_notes@);
        let mut i: usize = 0;
        while i < reference_notes.len()
            invariant
                i <= reference_notes@.len(),
                notes == note_views(reference_notes@),
                forall|a: int, b: int| 0 <= a < b < i ==> notes[a].asset != notes[b].asset,
            decreases reference_notes@.len() - i,
        {
            let asset = reference_notes[i].asset();
            let mut j: usize = 0;
            while j < i
                invariant
                    j <= i < reference_notes@.len(),
                    notes == note_views(reference_notes@),
                    asset@ == notes[i as int].asset,
                    forall|a: int| 0 <= a < j ==> notes[a].asset != notes[i as int].asset,
                decreases i - j,
            {
                if reference_notes[j].asset().same_as(&asset) {
                    assert(notes[j as int].asset == notes[i as int].asset);
                    return None;
                }
                j += 1;
            }
            i += 1;
        }
        Some(IssueBundle { ik, actions, reference_notes, authorization })
    }

    /// The issuer's key.
    pub fn ik(&self) -> (r: &IssuanceValidatingKey)
        ensures
            r@ == self@.ik,
    {
        &self.ik
    }

    /// The actions.
    pub fn actions(&self) -> (r: &NonEmpty<IssueAction>)
        ensures
            issue_action_views(nonempty_seq(*r)) == self@.actions,
    {
        &self.actions
    }

    /// The reference notes, no two of which are of the same asset.
    pub fn reference_notes(&self) -> (r: &Vec<Note>)
        ensures
            note_views(r@) == self@.reference_notes,
            distinct_assets(self@.reference_notes),
    {
        proof {
            use_type_invariant(self);
        }
        &self.reference_notes
    }

    /// The authorization.
    pub fn authorization(&self) -> (r: &Signed)
        ensures
            r@ == self@.authorization,
    {
        &self.authorization
    }
}

/// Reads a boolean.
pub fn read_bool(reader: &mut Reader) -> (r: Result<bool, DecodeError>)
    ensures
        consumed(*old(reader), *final(reader), r, parse_bool(old(reader).data(), old(reader).pos())),
{
    let mut cursor = *reader;
    match cursor.read_u8()? {
        0 => {
            *reader = cursor;
            Ok(false)
        },
        1 => {
            *reader = cursor;
            Ok(true)
        },
        _ => Err(DecodeError::InvalidEncoding),
    }
}

/// Reads an asset description in the given framing.
pub fn read_description(reader: &mut Reader, framing: DescriptionFraming) -> (r: Result<
    Vec<u8>,
    DecodeError,
>)
    ensures
        consumed(
            *old(reader),
            *final(reader),
            viewed(r),
            parse_description(old(reader).data(), old(reader).pos(), framing),
        ),
{
    let mut cursor = *reader;
    let bytes = match framing {
        DescriptionFraming::LengthPrefixed => read_byte_string(&mut cursor)?,
        DescriptionFraming::ToEndOfInput => cursor.read_to_end(),
    };
    if utf8_accepts(bytes.as_slice()) {
        *reader = cursor;
        Ok(bytes)
    } else {
        Err(DecodeError::InvalidEncoding)
    }
}

/// Reads the notes of an action, of which there must be at least one.
pub fn read_notes(reader: &mut Reader) -> (r: Result<Vec<Note>, DecodeError>)
    ensures
        consumed(
            *old(reader),
            *final(reader),
            match r {
                Ok(notes) => Ok(note_views(notes@)),
                Err(e) => Err(e),
            },
            parse_notes(old(reader).data(), old(reader).pos()),
        ),
{
    let mut cursor = *reader;
    let ghost data = cursor.data();
    let count = read_compact_size(&mut cursor)?;
    let ghost start = cursor.pos();
    let mut notes: Vec<Note> = Vec::new();
    let mut i: usize = 0;
    assert(note_views(notes@) =~= Seq::empty());
    while i < count
        invariant
            i <= count,
            notes@.len() == i,
            cursor.data() == data,
            data == old(reader).data(),
            0 <= old(reader).pos() <= data.len(),
            parse_compact_size(data, old(reader).pos()) == Ok::<(u64, int), DecodeError>(
                (count as u64, start),
            ),
            parse_items(note_parser(), data, start, i as nat) == Ok::<
                (Seq<SpecNote>, int),
                DecodeError,
            >((note_views(notes@), cursor.pos())),
        decreases count - i,
    {
        let ghost before = note_views(notes@);
        match read_note(&mut cursor) {
            Ok(note) => {
                notes.push(note);
                assert(note_views(notes@) =~= before.push(note@));
            },
            Err(e) => {
                proof {
                    lemma_parse_items_error_stays(
                        note_parser(),
                        data,
                        start,
                        (i + 1) as nat,
                        count as nat,
                    );
                }
                return Err(e);
            },
        }
        i += 1;
    }
    if notes.len() == 0 {
        return Err(DecodeError::StructuralViolation);
    }
    *reader = cursor;
    Ok(notes)
}

/// Reads an action in the older format.
pub fn read_action_v5(reader: &mut Reader, framing: DescriptionFraming) -> (r: Result<
    IssueAction,
    DecodeError,
>)
    ensures
        consumed(
            *old(reader),
            *final(reader),
            viewed(r),
            parse_issue_action_v5(old(reader).data(), old(reader).pos(), framing),
        ),
{
    let mut cursor = *reader;
    let finalize = read_bool(&mut cursor)?;
    let notes = read_notes(&mut cursor)?;
    let asset_desc = read_description(&mut cursor, framing)?;
    *reader = cursor;
    Ok(IssueAction { asset_desc, notes, finalize })
}

/// Reads an action in the newer format.
pub fn read_action(reader: &mut Reader) -> (r: Result<IssueAction, DecodeError>)
    ensures
        consumed(
            *old(reader),
            *final(reader),
            viewed(r),
            parse_issue_action_v6(old(reader).data(), old(reader).pos()),
        ),
{
    let mut cursor = *reader;
    let asset_desc = read_description(&mut cursor, DescriptionFraming::LengthPrefixed)?;
    let notes = read_notes(&mut cursor)?;
    let finalize = read_bool(&mut cursor)?;
    *reader = cursor;
    Ok(IssueAction { asset_desc, notes, finalize })
}

/// Reads a counted list of actions in the given format.
pub fn read_actions(reader: &mut Reader, format: IssuanceFormat) -> (r: Result<
    Vec<IssueAction>,
    DecodeError,
>)
    ensures
        consumed(
            *old(reader),
            *final(reader),
            match r {
                Ok(actions) => Ok(issue_action_views(actions@)),
                Err(e) => Err(e),
            },
            parse_list(issue_action_parser(format), old(reader).data(), old(reader).pos()),
        ),
{
    let mut cursor = *reader;
    let ghost data = cursor.data();
    let count = read_compact_size(&mut cursor)?;
    let ghost start = cursor.pos();
    let mut actions: Vec<IssueAction> = Vec::new();
    let mut i: usize = 0;
    assert(issue_action_views(actions@) =~= Seq::empty());
    while i < count
        invariant
            i <= count,
            cursor.data() == data,
            data == old(reader).data(),
            0 <= old(reader).pos() <= data.len(),
            parse_compact_size(data, old(reader).pos()) == Ok::<(u64, int), DecodeError>(
                (count as u64, start),
            ),
            parse_items(issue_action_parser(format), data, start, i as nat) == Ok::<
                (Seq<SpecIssueAction>, int),
                DecodeError,
            >((issue_action_views(actions@), cursor.pos())),
        decreases count - i,
    {
        let ghost before = issue_action_views(actions@);
        let next = match format {
            IssuanceFormat::V5(framing) => read_action_v5(&mut cursor, framing),
            IssuanceFormat::V6 => read_action(&mut cursor),
        };
        match next {
            Ok(action) => {
                actions.push(action);
                assert(issue_action_views(actions@) =~= before.push(action@));
            },
            Err(e) => {
                proof {
                    lemma_parse_items_error_stays(
                        issue_action_parser(format),
                        data,
                        start,
                        (i + 1) as nat,
                        count as nat,
                    );
                }
                return Err(e);
            },
        }
        i += 1;
    }
    *reader = cursor;
    Ok(actions)
}

/// Reads the issuer's key.
pub fn read_ik(reader: &mut Reader) -> (r: Result<IssuanceValidatingKey, DecodeError>)
    ensures
        consumed(
            *old(reader),
            *final(reader),
            viewed(r),
            parse_verification_key(old(reader).data(), old(reader).pos()),
        ),
{
    let mut cursor = *reader;
    let key = read_verification_key(&mut cursor)?;
    *reader = cursor;
    Ok(IssuanceValidatingKey { key })
}

/// Reads the issuer's signature.
pub fn read_authorization(reader: &mut Reader) -> (r: Result<Signed, DecodeError>)
    ensures
        consumed(
            *old(reader),
            *final(reader),
            viewed(r),
            parse_signature(old(reader).data(), old(reader).pos()),
        ),
{
    let mut cursor = *reader;
    let signature = read_signature(&mut cursor)?;
    *reader = cursor;
    Ok(Signed { signature })
}

/// Reads the reference notes, which have no encoding yet: reads nothing and
/// hands back none.
pub fn read_reference_notes(reader: &mut Reader) -> (r: Result<Vec<Note>, DecodeError>)
    ensures
        *final(reader) == *old(reader),
        r matches Ok(notes) && notes@.len() == 0,
{
    Ok(Vec::new())
}

/// Reads an issuance bundle in the given format.
pub fn read_issue_bundle(reader: &mut Reader, format: IssuanceFormat) -> (r: Result<
    Option<IssueBundle>,
    DecodeError,
>)
    ensures
        consumed(
            *old(reader),
            *final(reader),
            viewed_option(r),
            parse_issue_bundle(old(reader).data(), old(reader).pos(), format),
        ),
        r matches Ok(Some(bundle)) ==> valid_issue_bundle(bundle@) && issue_bundle_encodable(
            bundle@,
            format,
        ),
{
    proof {
        lemma_issue_bundle_canonical(reader.data(), reader.pos(), format);
    }
    let mut cursor = *reader;
    let actions = read_actions(&mut cursor, format)?;
    let ghost action_seq = actions@;
    match NonEmpty::from_vec(actions) {
        None => {
            *reader = cursor;
            Ok(None)
        },
        Some(actions) => {
            proof {
                lemma_nonempty_seq_of_parts(actions, action_seq);
            }
            let ik = read_ik(&mut cursor)?;
            let authorization = read_authorization(&mut cursor)?;
            let reference_notes = read_reference_notes(&mut cursor)?;
            assert(note_views(reference_notes@) =~= Seq::empty());
            *reader = cursor;
            Ok(Some(IssueBundle { ik, actions, reference_notes, authorization }))
        },
    }
}

/// Reads an issuance bundle in the newer format.
pub fn read_v6_bundle(reader: &mut Reader) -> (r: Result<Option<IssueBundle>, DecodeError>)
    ensures
        consumed(
            *old(reader),
            *final(reader),
            viewed_option(r),
            parse_issue_bundle(old(reader).data(), old(reader).pos(), IssuanceFormat::V6),
        ),
        r matches Ok(Some(bundle)) ==> valid_issue_bundle(bundle@),
{
    read_issue_bundle(reader, IssuanceFormat::V6)
}

/// Reads an issuance bundle in the older format, with the asset
/// descriptions in the given framing.
pub fn read_v5_issue_bundle(reader: &mut Reader, framing: DescriptionFraming) -> (r: Result<
    Option<IssueBundle>,
    DecodeError,
>)
    ensures
        consumed(
            *old(reader),
            *final(reader),
            viewed_option(r),
            parse_issue_bundle(old(reader).data(), old(reader).pos(), IssuanceFormat::V5(framing)),
        ),
        r matches Ok(Some(bundle)) ==> valid_issue_bundle(bundle@),
{
    read_issue_bundle(reader, IssuanceFormat::V5(framing))
}

/// Writes a boolean as the byte zero or one.
pub fn write_bool(writer: &mut Vec<u8>, value: bool)
    ensures
        final(writer)@ == old(writer)@ + seq![bool_byte(value)],
{
    let byte: u8 = if value {
        1
    } else {
        0
    };
    writer.push(byte);
}

/// Writes the notes of an action: their count and the notes. More notes
/// than a compact size may say are refused, and the buffer is then left as
/// it was.
pub fn write_notes(writer: &mut Vec<u8>, notes: &Vec<Note>) -> (r: Result<(), EncodeError>)
    ensures
        r is Ok <==> notes@.len() <= MAX_COMPACT_SIZE,
        r is Ok ==> final(writer)@ == old(writer)@ + list_bytes(note_encoder(), note_views(notes@)),
        r is Ok ==> all_valid(note_validity(), note_views(notes@)),
        r is Err ==> final(writer)@ == old(writer)@,
{
    let ghost models = note_views(notes@);
    write_compact_size(writer, notes.len())?;
    let ghost prefix = writer@;
    let mut i: usize = 0;
    while i < notes.len()
        invariant
            i <= notes@.len(),
            models == note_views(notes@),
            writer@ == prefix + items_bytes(note_encoder(), models.take(i as int)),
            forall|k: int| 0 <= k < i ==> valid_note(#[trigger] models[k]),
        decreases notes@.len() - i,
    {
        write_note(writer, &notes[i]);
        proof {
            lemma_items_bytes_push(note_encoder(), models.take(i as int), models[i as int]);
            assert(models.take(i as int).push(models[i as int]) =~= models.take(i + 1));
        }
        i += 1;
    }
    assert(models.take(i as int) =~= models);
    Ok(())
}

/// Writes an action in the given format. An action with more notes, or with
/// a longer description behind a length, than a compact size may say is
/// refused, and the buffer is then left as it was.
pub fn write_action(writer: &mut Vec<u8>, action: &IssueAction, format: IssuanceFormat) -> (r:
    Result<(), EncodeError>)
    ensures
        r is Ok <==> issue_action_encodable(action@, format),
        r is Ok ==> final(writer)@ == old(writer)@ + issue_action_bytes(action@, format),
        r is Ok ==> valid_issue_action(action@),
        r is Err ==> final(writer)@ == old(writer)@,
{
    let notes = action.notes();
    let asset_desc = action.asset_desc();
    let prefixed = match format {
        IssuanceFormat::V5(DescriptionFraming::ToEndOfInput) => false,
        _ => true,
    };
    if notes.len() > MAX_COMPACT_SIZE as usize || (prefixed && asset_desc.len()
        > MAX_COMPACT_SIZE as usize) {
        return Err(EncodeError::TooLarge);
    }
    match format {
        IssuanceFormat::V5(framing) => {
            write_bool(writer, action.is_finalized());
            match write_notes(writer, notes) {
                Ok(()) => {},
                Err(e) => {
                    return Err(e);
                },
            }
            match framing {
                DescriptionFraming::LengthPrefixed => {
                    match write_byte_string(writer, asset_desc.as_slice()) {
                        Ok(()) => {},
                        Err(e) => {
                            return Err(e);
                        },
                    }
                },
                DescriptionFraming::ToEndOfInput => {
                    put_bytes(writer, asset_desc.as_slice());
                },
            }
        },
        IssuanceFormat::V6 => {
            match write_byte_string(writer, asset_desc.as_slice()) {
                Ok(()) => {},
                Err(e) => {
                    return Err(e);
                },
            }
            match write_notes(writer, notes) {
                Ok(()) => {},
                Err(e) => {
                    return Err(e);
                },
            }
            write_bool(writer, action.is_finalized());
        },
    }
    Ok(())
}

/// Writes the reference notes, which have no encoding yet: writes nothing.
pub fn write_reference_notes(writer: &mut Vec<u8>, notes: &Vec<Note>)
    ensures
        final(writer)@ == old(writer)@,
{
}

/// Writes the actions, key and signature of a bundle behind what `writer`
/// holds; on failure `writer` may hold a part of the encoding.
fn write_issue_bundle_parts(writer: &mut Vec<u8>, bundle: &IssueBundle, format: IssuanceFormat) -> (r:
    Result<(), EncodeError>)
    ensures
        r is Ok <==> issue_bundle_encodable(bundle@, format),
        r is Ok ==> final(writer)@ == old(writer)@ + issue_bundle_bytes(Some(bundle@), format),
        r is Ok ==> valid_issue_bundle(bundle@),
{
    let actions = bundle.actions();
    let ghost models = issue_action_views(nonempty_seq(*actions));
    let n = actions.len();
    write_compact_size(writer, n)?;
    let ghost prefix = writer@;
    let mut i: usize = 0;
    while i < n
        invariant
            i <= n,
            n == models.len(),
            models == issue_action_views(nonempty_seq(*actions)),
            models == bundle@.actions,
            writer@ == prefix + items_bytes(issue_action_encoder(format), models.take(i as int)),
            forall|k: int|
                0 <= k < i ==> valid_issue_action(#[trigger] models[k]) && issue_action_encodable(
                    models[k],
                    format,
                ),
        decreases n - i,
    {
        match write_action(writer, nonempty_get(actions, i), format) {
            Ok(()) => {},
            Err(e) => {
                assert(!issue_action_encodable(models[i as int], format));
                return Err(e);
            },
        }
        proof {
            lemma_items_bytes_push(
                issue_action_encoder(format),
                models.take(i as int),
                models[i as int],
            );
            assert(models.take(i as int).push(models[i as int]) =~= models.take(i + 1));
        }
        i += 1;
    }
    assert(models.take(i as int) =~= models);
    let ik = bundle.ik().to_bytes();
    put_bytes(writer, &ik);
    write_signature(writer, bundle.authorization().signature());
    write_reference_notes(writer, bundle.reference_notes());
    Ok(())
}

/// Writes an issuance bundle in the given format, and an absent bundle as
/// the count zero. A bundle with a count that a compact size cannot say is
/// refused, and the buffer is then left as it was. Reference notes are not
/// written.
pub fn write_issue_bundle(
    bundle: Option<&IssueBundle>,
    writer: &mut Vec<u8>,
    format: IssuanceFormat,
) -> (r: Result<(), EncodeError>)
    ensures
        r is Ok <==> (bundle matches Some(b) ==> issue_bundle_encodable(b@, format)),
        r is Ok ==> final(writer)@ == old(writer)@ + issue_bundle_bytes(
            match bundle {
                Some(b) => Some(b@),
                None => None,
            },
            format,
        ),
        r is Ok ==> (bundle matches Some(b) ==> valid_issue_bundle(b@)),
        r is Err ==> final(writer)@ == old(writer)@,
{
    match bundle {
        Some(bundle) => {
            let mut scratch: Vec<u8> = Vec::new();
            match write_issue_bundle_parts(&mut scratch, bundle, format) {
                Ok(()) => {
                    put_bytes(writer, scratch.as_slice());
                    Ok(())
                },
                Err(e) => Err(e),
            }
        },
        None => {
            let r = write_compact_size(writer, 0);
            r
        },
    }
}

/// Writes an issuance bundle in the newer format.
pub fn write_v6_bundle(bundle: Option<&IssueBundle>, writer: &mut Vec<u8>) -> (r: Result<
    (),
    EncodeError,
>)
    ensures
        r is Ok <==> (bundle matches Some(b) ==> issue_bundle_encodable(b@, IssuanceFormat::V6)),
        r is Ok ==> final(writer)@ == old(writer)@ + issue_bundle_bytes(
            match bundle {
                Some(b) => Some(b@),
                None => None,
            },
            IssuanceFormat::V6,
        ),
        r is Ok ==> (bundle matches Some(b) ==> valid_issue_bundle(b@)),
        r is Err ==> final(writer)@ == old(writer)@,
{
    write_issue_bundle(bundle, writer, IssuanceFormat::V6)
}

/// Writes an issuance bundle in the older format, with the asset
/// descriptions in the given framing.
pub fn write_v5_issue_bundle(
    bundle: Option<&IssueBundle>,
    writer: &mut Vec<u8>,
    framing: DescriptionFraming,
) -> (r: Result<(), EncodeError>)
    ensures
        r is Ok <==> (bundle matches Some(b) ==> issue_bundle_encodable(
            b@,
            IssuanceFormat::V5(framing),
        )),
        r is Ok ==> final(writer)@ == old(writer)@ + issue_bundle_bytes(
            match bundle {
                Some(b) => Some(b@),
                None => None,
            },
            IssuanceFormat::V5(framing),
        ),
        r is Ok ==> (bundle matches Some(b) ==> valid_issue_bundle(b@)),
        r is Err ==> final(writer)@ == old(writer)@,
{
    write_issue_bundle(bundle, writer, IssuanceFormat::V5(framing))
}

/// Notes satisfy the premise of the list laws.
pub proof fn lemma_notes_read_back()
    ensures
        reads_back(note_parser(), note_encoder(), note_validity()),
{
    assert forall|data: Seq<u8>, pos: int, x: SpecNote|
        note_validity()(x) && #[trigger] has_at(data, pos, note_encoder()(x)) implies note_parser()(
        data,
        pos,
    ) == Ok::<(SpecNote, int), DecodeError>((x, pos + note_encoder()(x).len())) by {
        lemma_note_round_trip(data, pos, x);
    }
}

/// A non-empty list of valid notes, short enough to be written, is read
/// back from its encoding.
pub proof fn lemma_notes_round_trip(data: Seq<u8>, pos: int, notes: Seq<SpecNote>)
    requires
        notes.len() > 0,
        notes.len() <= MAX_COMPACT_SIZE,
        all_valid(note_validity(), notes),
        has_at(data, pos, list_bytes(note_encoder(), notes)),
    ensures
        parse_notes(data, pos) == Ok::<(Seq<SpecNote>, int), DecodeError>(
            (notes, pos + list_bytes(note_encoder(), notes).len()),
        ),
{
    lemma_notes_read_back();
    lemma_list_round_trip(note_parser(), note_encoder(), note_validity(), data, pos, notes);
}

/// A valid action, whose counts could be written, is read back from its
/// encoding in either format, if its description stands behind a length.
pub proof fn lemma_issue_action_round_trip(
    data: Seq<u8>,
    pos: int,
    action: SpecIssueAction,
    format: IssuanceFormat,
)
    requires
        format != IssuanceFormat::V5(DescriptionFraming::ToEndOfInput),
        valid_issue_action(action),
        issue_action_encodable(action, format),
        has_at(data, pos, issue_action_bytes(action, format)),
    ensures
        parse_issue_action(data, pos, format) == Ok::<(SpecIssueAction, int), DecodeError>(
            (action, pos + issue_action_bytes(action, format).len()),
        ),
{
    let flag = seq![bool_byte(action.finalize)];
    let notes = list_bytes(note_encoder(), action.notes);
    let desc = byte_string_bytes(action.asset_desc);
    match format {
        IssuanceFormat::V5(framing) => {
            lemma_has_at_concat(data, pos, flag + notes, desc);
            lemma_has_at_concat(data, pos, flag, notes);
            assert(data[pos] == bool_byte(action.finalize)) by {
                assert(data.subrange(pos, pos + 1)[0] == flag[0]);
            }
            lemma_notes_round_trip(data, pos + 1, action.notes);
            lemma_byte_string_round_trip(data, pos + 1 + notes.len(), action.asset_desc);
        },
        IssuanceFormat::V6 => {
            lemma_has_at_concat(data, pos, desc + notes, flag);
            lemma_has_at_concat(data, pos, desc, notes);
            lemma_byte_string_round_trip(data, pos, action.asset_desc);
            lemma_notes_round_trip(data, pos + desc.len(), action.notes);
            let at2 = pos + desc.len() + notes.len();
            assert(data[at2] == bool_byte(action.finalize)) by {
                assert(data.subrange(at2, at2 + 1)[0] == flag[0]);
            }
        },
    }
}

/// A valid action of the older format whose description runs to the end of
/// the input is read back from its encoding if the encoding ends the input.
pub proof fn lemma_issue_action_to_end_round_trip(data: Seq<u8>, pos: int, action: SpecIssueAction)
    requires
        valid_issue_action(action),
        action.notes.len() <= MAX_COMPACT_SIZE,
        has_at(
            data,
            pos,
            issue_action_bytes(action, IssuanceFormat::V5(DescriptionFraming::ToEndOfInput)),
        ),
        pos + issue_action_bytes(
            action,
            IssuanceFormat::V5(DescriptionFraming::ToEndOfInput),
        ).len() == data.len(),
    ensures
        parse_issue_action_v5(data, pos, DescriptionFraming::ToEndOfInput) == Ok::<
            (SpecIssueAction, int),
            DecodeError,
        >((action, data.len() as int)),
{
    let flag = seq![bool_byte(action.finalize)];
    let notes = list_bytes(note_encoder(), action.notes);
    lemma_has_at_concat(data, pos, flag + notes, action.asset_desc);
    lemma_has_at_concat(data, pos, flag, notes);
    assert(data[pos] == bool_byte(action.finalize)) by {
        assert(data.subrange(pos, pos + 1)[0] == flag[0]);
    }
    lemma_notes_round_trip(data, pos + 1, action.notes);
}

/// **Round trip, issuance.** In a format whose descriptions stand behind a
/// length: wherever the encoding of a valid bundle without reference notes
/// stands, whose counts could be written, the decoder reads that bundle and
/// stops behind the encoding; and wherever the encoding of an absent bundle
/// stands, it reads that there is none.
pub proof fn lemma_issue_bundle_round_trip(
    data: Seq<u8>,
    pos: int,
    bundle: Option<SpecIssueBundle>,
    format: IssuanceFormat,
)
    requires
        format != IssuanceFormat::V5(DescriptionFraming::ToEndOfInput),
        bundle matches Some(b) ==> valid_issue_bundle(b) && issue_bundle_encodable(b, format)
            && b.reference_notes.len() == 0,
        has_at(data, pos, issue_bundle_bytes(bundle, format)),
    ensures
        parse_issue_bundle(data, pos, format) == Ok::<(Option<SpecIssueBundle>, int), DecodeError>(
            (bundle, pos + issue_bundle_bytes(bundle, format).len()),
        ),
{
    match bundle {
        None => {
            assert(data[pos] == 0) by {
                assert(data.subrange(pos, pos + 1)[0] == seq![0u8][0]);
            }
        },
        Some(b) => {
            let actions = list_bytes(issue_action_encoder(format), b.actions);
            lemma_has_at_concat(data, pos, actions + b.ik, b.authorization);
            lemma_has_at_concat(data, pos, actions, b.ik);
            assert(reads_back(
                issue_action_parser(format),
                issue_action_encoder(format),
                writable_issue_action(format),
            )) by {
                assert forall|d: Seq<u8>, p: int, x: SpecIssueAction|
                    writable_issue_action(format)(x) && #[trigger] has_at(
                        d,
                        p,
                        issue_action_encoder(format)(x),
                    ) implies issue_action_parser(format)(d, p) == Ok::<
                    (SpecIssueAction, int),
                    DecodeError,
                >((x, p + issue_action_encoder(format)(x).len())) by {
                    lemma_issue_action_round_trip(d, p, x, format);
                }
            }
            lemma_list_round_trip(
                issue_action_parser(format),
                issue_action_encoder(format),
                writable_issue_action(format),
                data,
                pos,
                b.actions,
            );
            assert(b.reference_notes =~= Seq::empty());
        },
    }
}

/// **Empty is absent, issuance.** Where the byte zero stands, the issuance
/// decoder of every format reads that there is no bundle, and stops behind
/// that byte, whatever follows it.
pub proof fn lemma_issue_zero_count_is_absent(data: Seq<u8>, pos: int, format: IssuanceFormat)
    requires
        0 <= pos < data.len(),
        data[pos] == 0,
    ensures
        parse_issue_bundle(data, pos, format) == Ok::<(Option<SpecIssueBundle>, int), DecodeError>(
            (None, pos + 1),
        ),
{
}

/// Actions whose descriptions run to the end of the input leave nothing
/// behind them.
pub proof fn lemma_to_end_actions_exhaust_input(data: Seq<u8>, pos: int, count: nat)
    requires
        count > 0,
    ensures
        parse_items(
            issue_action_parser(IssuanceFormat::V5(DescriptionFraming::ToEndOfInput)),
            data,
            pos,
            count,
        ) matches Ok(p) ==> p.1 == data.len(),
{
}

/// **The older framing cannot carry a bundle.** With descriptions that run
/// to the end of the input, no input decodes to a bundle: nothing is left
/// for the issuer's key. Such an action can only be read by itself.
pub proof fn lemma_to_end_never_yields_bundle(data: Seq<u8>, pos: int)
    ensures
        !(parse_issue_bundle(
            data,
            pos,
            IssuanceFormat::V5(DescriptionFraming::ToEndOfInput),
        ) matches Ok(p) && p.0 is Some),
{
}

} // verus!
