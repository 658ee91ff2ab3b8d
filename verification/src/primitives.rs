//! The fixed-size fields of a bundle: group elements and field elements that
//! are checked for a canonical encoding when they are read, opaque
//! signatures, the flag byte and the value balance.
//!
//! A value of one of the checked types holds the canonical encoding it was
//! made from; the curve library decides whether an encoding is canonical.

use vstd::prelude::*;
use crate::bytes::{i64_le_bytes, le_bytes, le_i64, le_value, Parsed};
use crate::error::DecodeError;
use crate::reader::{consumed, parse_bytes, parse_u8, put_bytes, viewed, Reader};

verus! {

/// Whether `orchard::value::ValueCommitment::from_bytes` accepts `bytes`.
pub uninterp spec fn value_commitment_decodes(bytes: Seq<u8>) -> bool;

/// Whether `orchard::note::Nullifier::from_bytes` accepts `bytes`.
pub uninterp spec fn nullifier_decodes(bytes: Seq<u8>) -> bool;

/// Whether a RedPallas spend-authorization verification key can be made
/// from `bytes`.
pub uninterp spec fn verification_key_decodes(bytes: Seq<u8>) -> bool;

/// Whether `orchard::note::ExtractedNoteCommitment::from_bytes` accepts
/// `bytes`.
pub uninterp spec fn note_commitment_decodes(bytes: Seq<u8>) -> bool;

/// Whether `orchard::tree::Anchor::from_bytes` accepts `bytes`.
pub uninterp spec fn anchor_decodes(bytes: Seq<u8>) -> bool;

/// Asks `orchard::value::ValueCommitment::from_bytes` whether `bytes` is the
/// encoding of a value commitment. Nothing is claimed about which encodings
/// those are.
#[verifier::external_body]
fn value_commitment_accepts(bytes: &[u8; 32]) -> (r: bool)
    ensures
        r == value_commitment_decodes(bytes@),
{
    orchard::value::ValueCommitment::from_bytes(bytes).is_some().into()
}

/// Asks `orchard::note::Nullifier::from_bytes` whether `bytes` is the
/// encoding of a nullifier. Nothing is claimed about which encodings those
/// are.
#[verifier::external_body]
fn nullifier_accepts(bytes: &[u8; 32]) -> (r: bool)
    ensures
        r == nullifier_decodes(bytes@),
{
    orchard::note::Nullifier::from_bytes(bytes).is_some().into()
}

/// Asks the `TryFrom<[u8; 32]>` conversion of
/// `orchard::primitives::redpallas::VerificationKey<SpendAuth>` whether
/// `bytes` is the encoding of a verification key. Nothing is claimed about
/// which encodings those are.
#[verifier::external_body]
fn verification_key_accepts(bytes: &[u8; 32]) -> (r: bool)
    ensures
        r == verification_key_decodes(bytes@),
{
    orchard::primitives::redpallas::VerificationKey::<
        orchard::primitives::redpallas::SpendAuth,
    >::try_from(*bytes).is_ok()
}

/// Asks `orchard::note::ExtractedNoteCommitment::from_bytes` whether `bytes`
/// is the encoding of an extracted note commitment. Nothing is claimed about
/// which encodings those are.
#[verifier::external_body]
fn note_commitment_accepts(bytes: &[u8; 32]) -> (r: bool)
    ensures
        r == note_commitment_decodes(bytes@),
{
    orchard::note::ExtractedNoteCommitment::from_bytes(bytes).is_some().into()
}

/// Asks `orchard::tree::Anchor::from_bytes` whether `bytes` is the encoding
/// of an anchor. Nothing is claimed about which encodings those are.
#[verifier::external_body]
fn anchor_accepts(bytes: &[u8; 32]) -> (r: bool)
    ensures
        r == anchor_decodes(bytes@),
{
    orchard::tree::Anchor::from_bytes(*bytes).is_some().into()
}

/// Calls `byteorder::LittleEndian::read_u32` on four bytes: the number they
/// encode, least significant byte first.
#[verifier::external_body]
pub(crate) fn u32_from_le(bytes: &[u8; 4]) -> (r: u32)
    ensures
        r == le_value(bytes@),
{
    <byteorder::LittleEndian as byteorder::ByteOrder>::read_u32(bytes)
}

/// Calls `byteorder::LittleEndian::write_u32` on a four-byte buffer: the
/// encoding of `value`, least significant byte first.
#[verifier::external_body]
pub(crate) fn u32_to_le(value: u32) -> (r: [u8; 4])
    ensures
        r@ == le_bytes(value as nat, 4),
{
    let mut buf = [0u8; 4];
    <byteorder::LittleEndian as byteorder::ByteOrder>::write_u32(&mut buf, value);
    buf
}

/// Calls `byteorder::LittleEndian::read_u64` on eight bytes: the number they
/// encode, least significant byte first.
#[verifier::external_body]
pub(crate) fn u64_from_le(bytes: &[u8; 8]) -> (r: u64)
    ensures
        r == le_value(bytes@),
{
    <byteorder::LittleEndian as byteorder::ByteOrder>::read_u64(bytes)
}

/// Calls `byteorder::LittleEndian::write_u64` on an eight-byte buffer: the
/// encoding of `value`, least significant byte first.
#[verifier::external_body]
pub(crate) fn u64_to_le(value: u64) -> (r: [u8; 8])
    ensures
        r@ == le_bytes(value as nat, 8),
{
    let mut buf = [0u8; 8];
    <byteorder::LittleEndian as byteorder::ByteOrder>::write_u64(&mut buf, value);
    buf
}

/// The largest amount of money, in the smallest unit.
pub const MAX_MONEY: i64 = 2_100_000_000_000_000;

/// Calls `zcash_protocol::value::ZatBalance::from_i64_le_bytes`: the eight
/// bytes are read as a signed little-endian integer, which is handed back if
/// it lies between `-MAX_MONEY` and `MAX_MONEY`, and refused otherwise.
#[verifier::external_body]
fn balance_from_le(bytes: &[u8; 8]) -> (r: Option<i64>)
    ensures
        r is Some <==> -MAX_MONEY <= le_i64(bytes@) <= MAX_MONEY,
        r is Some ==> r->Some_0 == le_i64(bytes@),
{
    zcash_protocol::value::ZatBalance::from_i64_le_bytes(*bytes).ok().map(i64::from)
}

/// Calls `zcash_protocol::value::ZatBalance::to_i64_le_bytes` on the balance
/// of `value`: its two's complement encoding, least significant byte first.
#[verifier::external_body]
fn balance_to_le(value: i64) -> (r: [u8; 8])
    requires
        -MAX_MONEY <= value <= MAX_MONEY,
    ensures
        r@ == i64_le_bytes(value as int),
{
    zcash_protocol::value::ZatBalance::const_from_i64(value).to_i64_le_bytes()
}

/// A commitment to the net value of an action.
#[derive(Debug, Clone, Copy, PartialEq, Eq)]
pub struct ValueCommitment {
    bytes: [u8; 32],
}

impl View for ValueCommitment {
    type V = Seq<u8>;

    closed spec fn view(&self) -> Seq<u8> {
        self.bytes@
    }
}

/// What a value commitment's view must satisfy.
pub open spec fn valid_value_commitment(bytes: Seq<u8>) -> bool {
    bytes.len() == 32 && value_commitment_decodes(bytes)
}

impl ValueCommitment {
    #[verifier::type_invariant]
    spec fn canonical(self) -> bool {
        value_commitment_decodes(self.bytes@)
    }

    /// The value commitment that `bytes` encodes, if they encode one.
    pub fn from_bytes(bytes: &[u8; 32]) -> (r: Option<Self>)
        ensures
            r is Some <==> value_commitment_decodes(bytes@),
            r is Some ==> r->Some_0@ == bytes@,
    {
        if value_commitment_accepts(bytes) {
            Some(ValueCommitment { bytes: *bytes })
        } else {
            None
        }
    }

    /// The canonical encoding.
    pub fn to_bytes(&self) -> (r: [u8; 32])
        ensures
            r@ == self@,
            valid_value_commitment(self@),
    {
        proof {
            use_type_invariant(self);
        }
        self.bytes
    }
}

/// The nullifier that an action reveals.
#[derive(Debug, Clone, Copy, PartialEq, Eq)]
pub struct Nullifier {
    bytes: [u8; 32],
}

impl View for Nullifier {
    type V = Seq<u8>;

    closed spec fn view(&self) -> Seq<u8> {
        self.bytes@
    }
}

/// What a nullifier's view must satisfy.
pub open spec fn valid_nullifier(bytes: Seq<u8>) -> bool {
    bytes.len() == 32 && nullifier_decodes(bytes)
}

impl Nullifier {
    #[verifier::type_invariant]
    spec fn canonical(self) -> bool {
        nullifier_decodes(self.bytes@)
    }

    /// The nullifier that `bytes` encodes, if they encode one.
    pub fn from_bytes(bytes: &[u8; 32]) -> (r: Option<Self>)
        ensures
            r is Some <==> nullifier_decodes(bytes@),
            r is Some ==> r->Some_0@ == bytes@,
    {
        if nullifier_accepts(bytes) {
            Some(Nullifier { bytes: *bytes })
        } else {
            None
        }
    }

    /// The canonical encoding.
    pub fn to_bytes(&self) -> (r: [u8; 32])
        ensures
            r@ == self@,
            valid_nullifier(self@),
    {
        proof {
            use_type_invariant(self);
        }
        self.bytes
    }
}

/// The randomized key that an action's spend authorization is verified
/// with.
#[derive(Debug, Clone, Copy, PartialEq, Eq)]
pub struct VerificationKey {
    bytes: [u8; 32],
}

impl View for VerificationKey {
    type V = Seq<u8>;

    closed spec fn view(&self) -> Seq<u8> {
        self.bytes@
    }
}

/// What a verification key's view must satisfy.
pub open spec fn valid_verification_key(bytes: Seq<u8>) -> bool {
    bytes.len() == 32 && verification_key_decodes(bytes)
}

impl VerificationKey {
    #[verifier::type_invariant]
    spec fn canonical(self) -> bool {
        verification_key_decodes(self.bytes@)
    }

    /// The verification key that `bytes` encodes, if they encode one.
    pub fn from_bytes(bytes: &[u8; 32]) -> (r: Option<Self>)
        ensures
            r is Some <==> verification_key_decodes(bytes@),
            r is Some ==> r->Some_0@ == bytes@,
    {
        if verification_key_accepts(bytes) {
            Some(VerificationKey { bytes: *bytes })
        } else {
            None
        }
    }

    /// The canonical encoding.
    pub fn to_bytes(&self) -> (r: [u8; 32])
        ensures
            r@ == self@,
            valid_verification_key(self@),
    {
        proof {
            use_type_invariant(self);
        }
        self.bytes
    }
}

/// The extracted commitment to the note that an action creates.
#[derive(Debug, Clone, Copy, PartialEq, Eq)]
pub struct ExtractedNoteCommitment {
    bytes: [u8; 32],
}

impl View for ExtractedNoteCommitment {
    type V = Seq<u8>;

    closed spec fn view(&self) -> Seq<u8> {
        self.bytes@
    }
}

/// What a note commitment's view must satisfy.
pub open spec fn valid_note_commitment(bytes: Seq<u8>) -> bool {
    bytes.len() == 32 && note_commitment_decodes(bytes)
}

impl ExtractedNoteCommitment {
    #[verifier::type_invariant]
    spec fn canonical(self) -> bool {
        note_commitment_decodes(self.bytes@)
    }

    /// The note commitment that `bytes` encodes, if they encode one.
    pub fn from_bytes(bytes: &[u8; 32]) -> (r: Option<Self>)
        ensures
            r is Some <==> note_commitment_decodes(bytes@),
            r is Some ==> r->Some_0@ == bytes@,
    {
        if note_commitment_accepts(bytes) {
            Some(ExtractedNoteCommitment { bytes: *bytes })
        } else {
            None
        }
    }

    /// The canonical encoding.
    pub fn to_bytes(&self) -> (r: [u8; 32])
        ensures
            r@ == self@,
            valid_note_commitment(self@),
    {
        proof {
            use_type_invariant(self);
        }
        self.bytes
    }
}

/// The root of the note commitment tree that a bundle's spends refer to.
#[derive(Debug, Clone, Copy, PartialEq, Eq)]
pub struct Anchor {
    bytes: [u8; 32],
}

impl View for Anchor {
    type V = Seq<u8>;

    closed spec fn view(&self) -> Seq<u8> {
        self.bytes@
    }
}

/// What an anchor's view must satisfy.
pub open spec fn valid_anchor(bytes: Seq<u8>) -> bool {
    bytes.len() == 32 && anchor_decodes(bytes)
}

impl Anchor {
    #[verifier::type_invariant]
    spec fn canonical(self) -> bool {
        anchor_decodes(self.bytes@)
    }

    /// The anchor that `bytes` encodes, if they encode one.
    pub fn from_bytes(bytes: &[u8; 32]) -> (r: Option<Self>)
        ensures
            r is Some <==> anchor_decodes(bytes@),
            r is Some ==> r->Some_0@ == bytes@,
    {
        if anchor_accepts(bytes) {
            Some(Anchor { bytes: *bytes })
        } else {
            None
        }
    }

    /// The canonical encoding.
    pub fn to_bytes(&self) -> (r: [u8; 32])
        ensures
            r@ == self@,
            valid_anchor(self@),
    {
        proof {
            use_type_invariant(self);
        }
        self.bytes
    }
}

/// A signature, carried as 64 opaque bytes: this library frames signatures
/// and never verifies them.
#[derive(Debug, Clone, Copy, PartialEq, Eq)]
pub struct Signature {
    bytes: [u8; 64],
}

impl View for Signature {
    type V = Seq<u8>;

    closed spec fn view(&self) -> Seq<u8> {
        self.bytes@
    }
}

impl Signature {
    /// The signature with the given bytes.
    pub fn from_bytes(bytes: [u8; 64]) -> (r: Self)
        ensures
            r@ == bytes@,
    {
        Signature { bytes }
    }

    /// The signature's bytes.
    pub fn to_bytes(&self) -> (r: [u8; 64])
        ensures
            r@ == self@,
            self@.len() == 64,
    {
        self.bytes
    }
}

/// The bit of the flag byte that enables spends.
pub const FLAG_SPENDS_ENABLED: u8 = 0b0000_0001;

/// The bit of the flag byte that enables outputs.
pub const FLAG_OUTPUTS_ENABLED: u8 = 0b0000_0010;

/// The bits of the flag byte that must be zero.
pub const FLAGS_EXPECTED_UNSET: u8 = 0b1111_1100;

/// The bundle-wide flags. A flag set is its own model.
#[derive(Debug, Clone, Copy, PartialEq, Eq, Structural)]
pub struct Flags {
    pub spends_enabled: bool,
    pub outputs_enabled: bool,
}

/// The flags that a byte encodes: none if a reserved bit is set.
pub open spec fn flags_of_byte(byte: u8) -> Option<Flags> {
    if byte & FLAGS_EXPECTED_UNSET != 0 {
        None
    } else {
        Some(
            Flags {
                spends_enabled: byte & FLAG_SPENDS_ENABLED != 0,
                outputs_enabled: byte & FLAG_OUTPUTS_ENABLED != 0,
            },
        )
    }
}

/// The byte that encodes a flag set.
pub open spec fn byte_of_flags(flags: Flags) -> u8 {
    (if flags.spends_enabled {
        FLAG_SPENDS_ENABLED
    } else {
        0u8
    }) | (if flags.outputs_enabled {
        FLAG_OUTPUTS_ENABLED
    } else {
        0u8
    })
}

impl Flags {
    /// The flag set with the given members.
    pub fn from_parts(spends_enabled: bool, outputs_enabled: bool) -> (r: Self)
        ensures
            r == (Flags { spends_enabled, outputs_enabled }),
    {
        Flags { spends_enabled, outputs_enabled }
    }

    /// Whether spends are enabled.
    pub fn spends_enabled(&self) -> (r: bool)
        ensures
            r == self.spends_enabled,
    {
        self.spends_enabled
    }

    /// Whether outputs are enabled.
    pub fn outputs_enabled(&self) -> (r: bool)
        ensures
            r == self.outputs_enabled,
    {
        self.outputs_enabled
    }

    /// The flags that `byte` encodes; none if a reserved bit is set.
    pub fn from_byte(byte: u8) -> (r: Option<Self>)
        ensures
            r == flags_of_byte(byte),
    {
        if byte & FLAGS_EXPECTED_UNSET != 0 {
            None
        } else {
            Some(
                Flags {
                    spends_enabled: byte & FLAG_SPENDS_ENABLED != 0,
                    outputs_enabled: byte & FLAG_OUTPUTS_ENABLED != 0,
                },
            )
        }
    }

    /// The byte that encodes these flags.
    pub fn to_byte(&self) -> (r: u8)
        ensures
            r == byte_of_flags(*self),
    {
        let spends: u8 = if self.spends_enabled {
            FLAG_SPENDS_ENABLED
        } else {
            0
        };
        let outputs: u8 = if self.outputs_enabled {
            FLAG_OUTPUTS_ENABLED
        } else {
            0
        };
        spends | outputs
    }
}

/// Decoding the byte of a flag set gives the flag set back.
pub proof fn lemma_flags_round_trip(flags: Flags)
    ensures
        flags_of_byte(byte_of_flags(flags)) == Some(flags),
{
    assert(0u8 | 0u8 == 0u8) by (bit_vector);
    assert(1u8 | 0u8 == 1u8) by (bit_vector);
    assert(0u8 | 2u8 == 2u8) by (bit_vector);
    assert(1u8 | 2u8 == 3u8) by (bit_vector);
    assert(0u8 & 0xFCu8 == 0u8 && 0u8 & 1u8 == 0u8 && 0u8 & 2u8 == 0u8) by (bit_vector);
    assert(1u8 & 0xFCu8 == 0u8 && 1u8 & 1u8 == 1u8 && 1u8 & 2u8 == 0u8) by (bit_vector);
    assert(2u8 & 0xFCu8 == 0u8 && 2u8 & 1u8 == 0u8 && 2u8 & 2u8 == 2u8) by (bit_vector);
    assert(3u8 & 0xFCu8 == 0u8 && 3u8 & 1u8 == 1u8 && 3u8 & 2u8 == 2u8) by (bit_vector);
}

/// A flag byte is accepted exactly when it is below four, and then encodes
/// itself.
pub proof fn lemma_flags_of_byte(byte: u8)
    ensures
        flags_of_byte(byte) is Some <==> byte < 4,
        flags_of_byte(byte) matches Some(flags) ==> byte_of_flags(flags) == byte,
{
    assert((byte & 0xFCu8 != 0u8) <==> byte >= 4u8) by (bit_vector);
    if byte < 4 {
        assert(0u8 | 0u8 == 0u8) by (bit_vector);
        assert(1u8 | 0u8 == 1u8) by (bit_vector);
        assert(0u8 | 2u8 == 2u8) by (bit_vector);
        assert(1u8 | 2u8 == 3u8) by (bit_vector);
        assert(0u8 & 1u8 == 0u8 && 0u8 & 2u8 == 0u8) by (bit_vector);
        assert(1u8 & 1u8 == 1u8 && 1u8 & 2u8 == 0u8) by (bit_vector);
        assert(2u8 & 1u8 == 0u8 && 2u8 & 2u8 == 2u8) by (bit_vector);
        assert(3u8 & 1u8 == 1u8 && 3u8 & 2u8 == 2u8) by (bit_vector);
    }
}

/// A signed amount of money between `-MAX_MONEY` and `MAX_MONEY`.
#[derive(Debug, Clone, Copy, PartialEq, Eq)]
pub struct Amount {
    value: i64,
}

impl View for Amount {
    type V = int;

    closed spec fn view(&self) -> int {
        self.value as int
    }
}

/// What an amount's view must satisfy.
pub open spec fn valid_amount(value: int) -> bool {
    -MAX_MONEY <= value <= MAX_MONEY
}

impl Amount {
    #[verifier::type_invariant]
    spec fn in_range(self) -> bool {
        -MAX_MONEY <= self.value <= MAX_MONEY
    }

    /// The amount zero.
    pub fn zero() -> (r: Self)
        ensures
            r@ == 0,
    {
        Amount { value: 0 }
    }

    /// The amount `value`, if it is within the monetary range.
    pub fn from_i64(value: i64) -> (r: Option<Self>)
        ensures
            r is Some <==> valid_amount(value as int),
            r is Some ==> r->Some_0@ == value,
    {
        if -MAX_MONEY <= value && value <= MAX_MONEY {
            Some(Amount { value })
        } else {
            None
        }
    }

    /// The amount `value`, if it is within the monetary range.
    pub fn from_u64(value: u64) -> (r: Option<Self>)
        ensures
            r is Some <==> value <= MAX_MONEY,
            r is Some ==> r->Some_0@ == value,
    {
        if value <= MAX_MONEY as u64 {
            Some(Amount { value: value as i64 })
        } else {
            None
        }
    }

    /// The amount as an integer.
    pub fn value(&self) -> (r: i64)
        ensures
            r == self@,
            valid_amount(self@),
    {
        proof {
            use_type_invariant(self);
        }
        self.value
    }
}

/// A 32-byte field that the curve library accepts.
pub open spec fn parse_checked(data: Seq<u8>, pos: int, accepted: spec_fn(Seq<u8>) -> bool) -> Parsed<
    Seq<u8>,
> {
    match parse_bytes(data, pos, 32) {
        Ok((bytes, next)) => if accepted(bytes) {
            Ok((bytes, next))
        } else {
            Err(DecodeError::InvalidEncoding)
        },
        Err(e) => Err(e),
    }
}

/// A value commitment: 32 bytes that encode one.
pub open spec fn parse_value_commitment(data: Seq<u8>, pos: int) -> Parsed<Seq<u8>> {
    parse_checked(data, pos, |b: Seq<u8>| value_commitment_decodes(b))
}

/// A nullifier: 32 bytes that encode one.
pub open spec fn parse_nullifier(data: Seq<u8>, pos: int) -> Parsed<Seq<u8>> {
    parse_checked(data, pos, |b: Seq<u8>| nullifier_decodes(b))
}

/// A verification key: 32 bytes that encode one.
pub open spec fn parse_verification_key(data: Seq<u8>, pos: int) -> Parsed<Seq<u8>> {
    parse_checked(data, pos, |b: Seq<u8>| verification_key_decodes(b))
}

/// An extracted note commitment: 32 bytes that encode one.
pub open spec fn parse_cmx(data: Seq<u8>, pos: int) -> Parsed<Seq<u8>> {
    parse_checked(data, pos, |b: Seq<u8>| note_commitment_decodes(b))
}

/// An anchor: 32 bytes that encode one.
pub open spec fn parse_anchor(data: Seq<u8>, pos: int) -> Parsed<Seq<u8>> {
    parse_checked(data, pos, |b: Seq<u8>| anchor_decodes(b))
}

/// A signature: any 64 bytes.
pub open spec fn parse_signature(data: Seq<u8>, pos: int) -> Parsed<Seq<u8>> {
    parse_bytes(data, pos, 64)
}

/// A flag byte without reserved bits.
pub open spec fn parse_flags(data: Seq<u8>, pos: int) -> Parsed<Flags> {
    match parse_u8(data, pos) {
        Ok((byte, next)) => match flags_of_byte(byte) {
            Some(flags) => Ok((flags, next)),
            None => Err(DecodeError::InvalidEncoding),
        },
        Err(e) => Err(e),
    }
}

/// An amount: eight bytes, a signed little-endian integer within the
/// monetary range.
pub open spec fn parse_amount(data: Seq<u8>, pos: int) -> Parsed<int> {
    match parse_bytes(data, pos, 8) {
        Ok((bytes, next)) => if valid_amount(le_i64(bytes)) {
            Ok((le_i64(bytes), next))
        } else {
            Err(DecodeError::InvalidEncoding)
        },
        Err(e) => Err(e),
    }
}

/// Reads a value commitment.
pub fn read_value_commitment(reader: &mut Reader) -> (r: Result<ValueCommitment, DecodeError>)
    ensures
        consumed(
            *old(reader),
            *final(reader),
            viewed(r),
            parse_value_commitment(old(reader).data(), old(reader).pos()),
        ),
{
    let mut cursor = *reader;
    let bytes = cursor.read_array::<32>()?;
    match ValueCommitment::from_bytes(&bytes) {
        Some(cv) => {
            *reader = cursor;
            Ok(cv)
        },
        None => Err(DecodeError::InvalidEncoding),
    }
}

/// Reads a nullifier.
pub fn read_nullifier(reader: &mut Reader) -> (r: Result<Nullifier, DecodeError>)
    ensures
        consumed(
            *old(reader),
            *final(reader),
            viewed(r),
            parse_nullifier(old(reader).data(), old(reader).pos()),
        ),
{
    let mut cursor = *reader;
    let bytes = cursor.read_array::<32>()?;
    match Nullifier::from_bytes(&bytes) {
        Some(nf) => {
            *reader = cursor;
            Ok(nf)
        },
        None => Err(DecodeError::InvalidEncoding),
    }
}

/// Reads a verification key.
pub fn read_verification_key(reader: &mut Reader) -> (r: Result<VerificationKey, DecodeError>)
    ensures
        consumed(
            *old(reader),
            *final(reader),
            viewed(r),
            parse_verification_key(old(reader).data(), old(reader).pos()),
        ),
{
    let mut cursor = *reader;
    let bytes = cursor.read_array::<32>()?;
    match VerificationKey::from_bytes(&bytes) {
        Some(rk) => {
            *reader = cursor;
            Ok(rk)
        },
        None => Err(DecodeError::InvalidEncoding),
    }
}

/// Reads an extracted note commitment.
pub fn read_cmx(reader: &mut Reader) -> (r: Result<ExtractedNoteCommitment, DecodeError>)
    ensures
        consumed(
            *old(reader),
            *final(reader),
            viewed(r),
            parse_cmx(old(reader).data(), old(reader).pos()),
        ),
{
    let mut cursor = *reader;
    let bytes = cursor.read_array::<32>()?;
    match ExtractedNoteCommitment::from_bytes(&bytes) {
        Some(cmx) => {
            *reader = cursor;
            Ok(cmx)
        },
        None => Err(DecodeError::InvalidEncoding),
    }
}

/// Reads an anchor.
pub fn read_anchor(reader: &mut Reader) -> (r: Result<Anchor, DecodeError>)
    ensures
        consumed(
            *old(reader),
            *final(reader),
            viewed(r),
            parse_anchor(old(reader).data(), old(reader).pos()),
        ),
{
    let mut cursor = *reader;
    let bytes = cursor.read_array::<32>()?;
    match Anchor::from_bytes(&bytes) {
        Some(anchor) => {
            *reader = cursor;
            Ok(anchor)
        },
        None => Err(DecodeError::InvalidEncoding),
    }
}

/// Reads a signature.
pub fn read_signature(reader: &mut Reader) -> (r: Result<Signature, DecodeError>)
    ensures
        consumed(
            *old(reader),
            *final(reader),
            viewed(r),
            parse_signature(old(reader).data(), old(reader).pos()),
        ),
{
    let bytes = reader.read_array::<64>()?;
    Ok(Signature::from_bytes(bytes))
}

/// Reads the flag byte.
pub fn read_flags(reader: &mut Reader) -> (r: Result<Flags, DecodeError>)
    ensures
        consumed(
            *old(reader),
            *final(reader),
            r,
            parse_flags(old(reader).data(), old(reader).pos()),
        ),
{
    let mut cursor = *reader;
    let byte = cursor.read_u8()?;
    match Flags::from_byte(byte) {
        Some(flags) => {
            *reader = cursor;
            Ok(flags)
        },
        None => Err(DecodeError::InvalidEncoding),
    }
}

/// Reads an amount.
pub fn read_amount(reader: &mut Reader) -> (r: Result<Amount, DecodeError>)
    ensures
        consumed(
            *old(reader),
            *final(reader),
            viewed(r),
            parse_amount(old(reader).data(), old(reader).pos()),
        ),
{
    let mut cursor = *reader;
    let bytes = cursor.read_array::<8>()?;
    match balance_from_le(&bytes) {
        Some(value) => {
            *reader = cursor;
            Ok(Amount { value })
        },
        None => Err(DecodeError::InvalidEncoding),
    }
}

/// Writes a value commitment.
pub fn write_value_commitment(writer: &mut Vec<u8>, cv: &ValueCommitment)
    ensures
        final(writer)@ == old(writer)@ + cv@,
        valid_value_commitment(cv@),
{
    let bytes = cv.to_bytes();
    put_bytes(writer, &bytes);
}

/// Writes a nullifier.
pub fn write_nullifier(writer: &mut Vec<u8>, nf: &Nullifier)
    ensures
        final(writer)@ == old(writer)@ + nf@,
        valid_nullifier(nf@),
{
    let bytes = nf.to_bytes();
    put_bytes(writer, &bytes);
}

/// Writes a verification key.
pub fn write_verification_key(writer: &mut Vec<u8>, rk: &VerificationKey)
    ensures
        final(writer)@ == old(writer)@ + rk@,
        valid_verification_key(rk@),
{
    let bytes = rk.to_bytes();
    put_bytes(writer, &bytes);
}

/// Writes an extracted note commitment.
pub fn write_cmx(writer: &mut Vec<u8>, cmx: &ExtractedNoteCommitment)
    ensures
        final(writer)@ == old(writer)@ + cmx@,
        valid_note_commitment(cmx@),
{
    let bytes = cmx.to_bytes();
    put_bytes(writer, &bytes);
}

/// Writes an anchor.
pub fn write_anchor(writer: &mut Vec<u8>, anchor: &Anchor)
    ensures
        final(writer)@ == old(writer)@ + anchor@,
        valid_anchor(anchor@),
{
    let bytes = anchor.to_bytes();
    put_bytes(writer, &bytes);
}

/// Writes a signature.
pub fn write_signature(writer: &mut Vec<u8>, signature: &Signature)
    ensures
        final(writer)@ == old(writer)@ + signature@,
        signature@.len() == 64,
{
    let bytes = signature.to_bytes();
    put_bytes(writer, &bytes);
}

/// Writes the flag byte.
pub fn write_flags(writer: &mut Vec<u8>, flags: &Flags)
    ensures
        final(writer)@ == old(writer)@ + seq![byte_of_flags(*flags)],
{
    writer.push(flags.to_byte());
}

/// Writes an amount as a signed little-endian integer of eight bytes.
pub fn write_amount(writer: &mut Vec<u8>, amount: &Amount)
    ensures
        final(writer)@ == old(writer)@ + i64_le_bytes(amount@),
        valid_amount(amount@),
{
    let bytes = balance_to_le(amount.value());
    put_bytes(writer, &bytes);
}

} // verus!
