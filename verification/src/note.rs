//! Notes as they appear in issuance actions: recipient, value, asset, the
//! nullifier-derivation seed rho and the random seed.

use vstd::prelude::*;
use crate::asset::{
    note_value_bytes, parse_asset, parse_note_value, read_asset, read_note_value, valid_asset,
    write_asset_base, write_note_value, AssetBase, NoteValue,
};
use crate::bytes::{
    has_at, lemma_has_at_concat, lemma_le_bytes_len, lemma_le_value_of_le_bytes,
    lemma_pow256_values, Parsed,
};
use crate::error::DecodeError;
use crate::reader::{consumed, parse_bytes, put_bytes, viewed, Reader};

verus! {

/// Whether `orchard::Address::from_raw_address_bytes` accepts `bytes`.
pub uninterp spec fn address_decodes(bytes: Seq<u8>) -> bool;

/// Whether `orchard::note::Rho::from_bytes` accepts `bytes`.
pub uninterp spec fn rho_decodes(bytes: Seq<u8>) -> bool;

/// Whether `orchard::note::RandomSeed::from_bytes` accepts the seed `rseed`
/// for a note with the rho value that `rho` encodes.
pub uninterp spec fn random_seed_decodes(rseed: Seq<u8>, rho: Seq<u8>) -> bool;

/// Asks `orchard::Address::from_raw_address_bytes` whether `bytes` is the
/// raw encoding of a payment address. Nothing is claimed about which
/// encodings those are.
#[verifier::external_body]
fn address_accepts(bytes: &[u8; 43]) -> (r: bool)
    ensures
        r == address_decodes(bytes@),
{
    orchard::Address::from_raw_address_bytes(bytes).is_some().into()
}

/// Asks `orchard::note::Rho::from_bytes` whether `bytes` is the encoding of
/// a rho value. Nothing is claimed about which encodings those are.
#[verifier::external_body]
fn rho_accepts(bytes: &[u8; 32]) -> (r: bool)
    ensures
        r == rho_decodes(bytes@),
{
    orchard::note::Rho::from_bytes(bytes).is_some().into()
}

/// Decodes `rho` with `orchard::note::Rho::from_bytes` and asks
/// `orchard::note::RandomSeed::from_bytes` whether `rseed` is a random seed
/// for it. The rho bytes must encode a rho value: the decoded value is
/// unwrapped.
#[verifier::external_body]
fn random_seed_accepts(rseed: &[u8; 32], rho: &[u8; 32]) -> (r: bool)
    requires
        rho_decodes(rho@),
    ensures
        r == random_seed_decodes(rseed@, rho@),
{
    orchard::note::RandomSeed::from_bytes(
        *rseed,
        &orchard::note::Rho::from_bytes(rho).unwrap(),
    ).is_some().into()
}

/// A shielded payment address, held as its raw encoding.
#[derive(Debug, Clone, Copy, PartialEq, Eq)]
pub struct Address {
    bytes: [u8; 43],
}

impl View for Address {
    type V = Seq<u8>;

    closed spec fn view(&self) -> Seq<u8> {
        self.bytes@
    }
}

/// What an address's view must satisfy.
pub open spec fn valid_address(bytes: Seq<u8>) -> bool {
    bytes.len() == 43 && address_decodes(bytes)
}

impl Address {
    #[verifier::type_invariant]
    spec fn canonical(self) -> bool {
        address_decodes(self.bytes@)
    }

    /// The address that `bytes` encodes, if they encode one.
    pub fn from_raw_address_bytes(bytes: &[u8; 43]) -> (r: Option<Self>)
        ensures
            r is Some <==> address_decodes(bytes@),
            r is Some ==> r->Some_0@ == bytes@,
    {
        if address_accepts(bytes) {
            Some(Address { bytes: *bytes })
        } else {
            None
        }
    }

    /// The raw encoding.
    pub fn to_raw_address_bytes(&self) -> (r: [u8; 43])
        ensures
            r@ == self@,
            valid_address(self@),
    {
        proof {
            use_type_invariant(self);
        }
        self.bytes
    }
}

/// The value from which a note's nullifier is derived.
#[derive(Debug, Clone, Copy, PartialEq, Eq)]
pub struct Rho {
    bytes: [u8; 32],
}

impl View for Rho {
    type V = Seq<u8>;

    closed spec fn view(&self) -> Seq<u8> {
        self.bytes@
    }
}

/// What a rho value's view must satisfy.
pub open spec fn valid_rho(bytes: Seq<u8>) -> bool {
    bytes.len() == 32 && rho_decodes(bytes)
}

impl Rho {
    #[verifier::type_invariant]
    spec fn canonical(self) -> bool {
        rho_decodes(self.bytes@)
    }

    /// The rho value that `bytes` encodes, if they encode one.
    pub fn from_bytes(bytes: &[u8; 32]) -> (r: Option<Self>)
        ensures
            r is Some <==> rho_decodes(bytes@),
            r is Some ==> r->Some_0@ == bytes@,
    {
        if rho_accepts(bytes) {
            Some(Rho { bytes: *bytes })
        } else {
            None
        }
    }

    /// The canonical encoding.
    pub fn to_bytes(&self) -> (r: [u8; 32])
        ensures
            r@ == self@,
            valid_rho(self@),
    {
        proof {
            use_type_invariant(self);
        }
        self.bytes
    }
}

/// The seed of a note's randomness. Whether a seed is admissible depends on
/// the note's rho value, so a seed alone promises nothing; a [`Note`] holds
/// a seed that is admissible for its rho.
#[derive(Debug, Clone, Copy, PartialEq, Eq)]
pub struct RandomSeed {
    bytes: [u8; 32],
}

impl View for RandomSeed {
    type V = Seq<u8>;

    closed spec fn view(&self) -> Seq<u8> {
        self.bytes@
    }
}

impl RandomSeed {
    /// The seed with the given bytes, if it is admissible for `rho`.
    pub fn from_bytes(rseed: [u8; 32], rho: &Rho) -> (r: Option<Self>)
        ensures
            r is Some <==> random_seed_decodes(rseed@, rho@),
            r is Some ==> r->Some_0@ == rseed@,
    {
        let rho_bytes = rho.to_bytes();
        if random_seed_accepts(&rseed, &rho_bytes) {
            Some(RandomSeed { bytes: rseed })
        } else {
            None
        }
    }

    /// The seed's bytes.
    pub fn as_bytes(&self) -> (r: &[u8; 32])
        ensures
            r@ == self@,
            self@.len() == 32,
    {
        &self.bytes
    }
}

/// The model of a note.
pub struct SpecNote {
    pub recipient: Seq<u8>,
    pub value: NoteValue,
    pub asset: Seq<u8>,
    pub rho: Seq<u8>,
    pub rseed: Seq<u8>,
}

/// A note whose fields are what their decoders accept, with a seed that is
/// admissible for its rho.
pub open spec fn valid_note(note: SpecNote) -> bool {
    &&& valid_address(note.recipient)
    &&& valid_asset(note.asset)
    &&& valid_rho(note.rho)
    &&& note.rseed.len() == 32
    &&& random_seed_decodes(note.rseed, note.rho)
}

/// A note of an issuance action.
#[derive(Debug, Clone, Copy, PartialEq, Eq)]
pub struct Note {
    recipient: Address,
    value: NoteValue,
    asset: AssetBase,
    rho: Rho,
    rseed: RandomSeed,
}

impl View for Note {
    type V = SpecNote;

    closed spec fn view(&self) -> SpecNote {
        SpecNote {
            recipient: self.recipient@,
            value: self.value,
            asset: self.asset@,
            rho: self.rho@,
            rseed: self.rseed@,
        }
    }
}

impl Note {
    #[verifier::type_invariant]
    spec fn seeded(self) -> bool {
        random_seed_decodes(self.rseed@, self.rho@)
    }

    /// The note with the given parts, if the seed is admissible for the rho
    /// value.
    pub fn from_parts(
        recipient: Address,
        value: NoteValue,
        asset: AssetBase,
        rho: Rho,
        rseed: RandomSeed,
    ) -> (r: Option<Self>)
        ensures
            r is Some <==> random_seed_decodes(rseed@, rho@),
            r matches Some(note) ==> note@ == (SpecNote {
                recipient: recipient@,
                value,
                asset: asset@,
                rho: rho@,
                rseed: rseed@,
            }),
    {
        let rho_bytes = rho.to_bytes();
        if random_seed_accepts(rseed.as_bytes(), &rho_bytes) {
            Some(Note { recipient, value, asset, rho, rseed })
        } else {
            None
        }
    }

    /// The recipient.
    pub fn recipient(&self) -> (r: Address)
        ensures
            r@ == self@.recipient,
    {
        self.recipient
    }

    /// The value.
    pub fn value(&self) -> (r: NoteValue)
        ensures
            r == self@.value,
    {
        self.value
    }

    /// The asset.
    pub fn asset(&self) -> (r: AssetBase)
        ensures
            r@ == self@.asset,
    {
        self.asset
    }

    /// The rho value.
    pub fn rho(&self) -> (r: Rho)
        ensures
            r@ == self@.rho,
    {
        self.rho
    }

    /// The random seed.
    pub fn rseed(&self) -> (r: &RandomSeed)
        ensures
            r@ == self@.rseed,
            random_seed_decodes(self@.rseed, self@.rho),
    {
        proof {
            use_type_invariant(self);
        }
        &self.rseed
    }
}

/// A recipient: 43 bytes that encode an address.
pub open spec fn parse_recipient(data: Seq<u8>, pos: int) -> Parsed<Seq<u8>> {
    match parse_bytes(data, pos, 43) {
        Ok((bytes, next)) => if address_decodes(bytes) {
            Ok((bytes, next))
        } else {
            Err(DecodeError::InvalidEncoding)
        },
        Err(e) => Err(e),
    }
}

/// A rho value: 32 bytes that encode one.
pub open spec fn parse_rho(data: Seq<u8>, pos: int) -> Parsed<Seq<u8>> {
    match parse_bytes(data, pos, 32) {
        Ok((bytes, next)) => if rho_decodes(bytes) {
            Ok((bytes, next))
        } else {
            Err(DecodeError::InvalidEncoding)
        },
        Err(e) => Err(e),
    }
}

/// A random seed: 32 bytes that are admissible for `rho`.
pub open spec fn parse_rseed(data: Seq<u8>, pos: int, rho: Seq<u8>) -> Parsed<Seq<u8>> {
    match parse_bytes(data, pos, 32) {
        Ok((bytes, next)) => if random_seed_decodes(bytes, rho) {
            Ok((bytes, next))
        } else {
            Err(DecodeError::InvalidEncoding)
        },
        Err(e) => Err(e),
    }
}

/// A note: recipient, value, asset, rho and random seed, in this order.
pub open spec fn parse_note(data: Seq<u8>, pos: int) -> Parsed<SpecNote> {
    match parse_recipient(data, pos) {
        Err(e) => Err(e),
        Ok((recipient, at1)) => match parse_note_value(data, at1) {
            Err(e) => Err(e),
            Ok((value, at2)) => match parse_asset(data, at2) {
                Err(e) => Err(e),
                Ok((asset, at3)) => match parse_rho(data, at3) {
                    Err(e) => Err(e),
                    Ok((rho, at4)) => match parse_rseed(data, at4, rho) {
                        Err(e) => Err(e),
                        Ok((rseed, at5)) => Ok((SpecNote { recipient, value, asset, rho, rseed }, at5)),
                    },
                },
            },
        },
    }
}

/// The encoding that [`parse_note`] reads.
pub open spec fn note_bytes(note: SpecNote) -> Seq<u8> {
    note.recipient + note_value_bytes(note.value) + note.asset + note.rho + note.rseed
}

/// Reads a recipient address.
pub fn read_recipient(reader: &mut Reader) -> (r: Result<Address, DecodeError>)
    ensures
        consumed(
            *old(reader),
            *final(reader),
            viewed(r),
            parse_recipient(old(reader).data(), old(reader).pos()),
        ),
{
    let mut cursor = *reader;
    let bytes = cursor.read_array::<43>()?;
    match Address::from_raw_address_bytes(&bytes) {
        Some(address) => {
            *reader = cursor;
            Ok(address)
        },
        None => Err(DecodeError::InvalidEncoding),
    }
}

/// Reads a rho value.
pub fn read_rho(reader: &mut Reader) -> (r: Result<Rho, DecodeError>)
    ensures
        consumed(
            *old(reader),
            *final(reader),
            viewed(r),
            parse_rho(old(reader).data(), old(reader).pos()),
        ),
{
    let mut cursor = *reader;
    let bytes = cursor.read_array::<32>()?;
    match Rho::from_bytes(&bytes) {
        Some(rho) => {
            *reader = cursor;
            Ok(rho)
        },
        None => Err(DecodeError::InvalidEncoding),
    }
}

/// Reads the random seed of a note with the rho value `rho`.
pub fn read_rseed(reader: &mut Reader, rho: &Rho) -> (r: Result<RandomSeed, DecodeError>)
    ensures
        consumed(
            *old(reader),
            *final(reader),
            viewed(r),
            parse_rseed(old(reader).data(), old(reader).pos(), rho@),
        ),
{
    let mut cursor = *reader;
    let bytes = cursor.read_array::<32>()?;
    match RandomSeed::from_bytes(bytes, rho) {
        Some(rseed) => {
            *reader = cursor;
            Ok(rseed)
        },
        None => Err(DecodeError::InvalidEncoding),
    }
}

/// Reads a note.
pub fn read_note(reader: &mut Reader) -> (r: Result<Note, DecodeError>)
    ensures
        consumed(
            *old(reader),
            *final(reader),
            viewed(r),
            parse_note(old(reader).data(), old(reader).pos()),
        ),
{
    let mut cursor = *reader;
    let recipient = read_recipient(&mut cursor)?;
    let value = read_note_value(&mut cursor)?;
    let asset = read_asset(&mut cursor)?;
    let rho = read_rho(&mut cursor)?;
    let rseed = read_rseed(&mut cursor, &rho)?;
    *reader = cursor;
    Ok(Note { recipient, value, asset, rho, rseed })
}

/// Writes a note.
pub fn write_note(writer: &mut Vec<u8>, note: &Note)
    ensures
        final(writer)@ == old(writer)@ + note_bytes(note@),
        valid_note(note@),
{
    let recipient = note.recipient().to_raw_address_bytes();
    put_bytes(writer, &recipient);
    write_note_value(writer, &note.value());
    write_asset_base(writer, &note.asset());
    let rho = note.rho().to_bytes();
    put_bytes(writer, &rho);
    put_bytes(writer, note.rseed().as_bytes());
}

/// A valid note is read back from its encoding.
pub proof fn lemma_note_round_trip(data: Seq<u8>, pos: int, note: SpecNote)
    requires
        valid_note(note),
        has_at(data, pos, note_bytes(note)),
    ensures
        parse_note(data, pos) == Ok::<(SpecNote, int), DecodeError>(
            (note, pos + note_bytes(note).len()),
        ),
{
    let value = note_value_bytes(note.value);
    lemma_has_at_concat(data, pos, note.recipient + value + note.asset + note.rho, note.rseed);
    lemma_has_at_concat(data, pos, note.recipient + value + note.asset, note.rho);
    lemma_has_at_concat(data, pos, note.recipient + value, note.asset);
    lemma_has_at_concat(data, pos, note.recipient, value);
    lemma_pow256_values();
    lemma_le_bytes_len(note.value.value as nat, 8);
    lemma_le_value_of_le_bytes(note.value.value as nat, 8);
}

} // verus!
