//! Asset identifiers and note values.

use vstd::prelude::*;
use crate::bytes::{le_bytes, le_value, Parsed};
use crate::error::DecodeError;
use crate::primitives::{parse_checked, u64_from_le, u64_to_le};
use crate::reader::{consumed, parse_bytes, put_bytes, viewed, Reader};

verus! {

/// Whether `bytes` is the compressed encoding of a point of the Pallas
/// curve, as `pasta_curves::pallas::Point::from_bytes` decides it.
pub uninterp spec fn pallas_point_decodes(bytes: Seq<u8>) -> bool;

/// Whether the Pallas point that `bytes` encodes is the identity.
pub uninterp spec fn pallas_point_is_identity(bytes: Seq<u8>) -> bool;

/// Asks `pasta_curves::pallas::Point::from_bytes` (the `GroupEncoding`
/// method) whether `bytes` encodes a point. Nothing is claimed about which
/// encodings those are.
#[verifier::external_body]
fn pallas_point_accepts(bytes: &[u8; 32]) -> (r: bool)
    ensures
        r == pallas_point_decodes(bytes@),
{
    <pasta_curves::pallas::Point as pasta_curves::group::GroupEncoding>::from_bytes(
        bytes,
    ).is_some().into()
}

/// Decodes the point with `pasta_curves::pallas::Point::from_bytes` and asks
/// its `Group::is_identity` whether it is the identity. The bytes must
/// encode a point: the decoded value is unwrapped.
#[verifier::external_body]
fn pallas_point_identity(bytes: &[u8; 32]) -> (r: bool)
    requires
        pallas_point_decodes(bytes@),
    ensures
        r == pallas_point_is_identity(bytes@),
{
    pasta_curves::group::Group::is_identity(
        &<pasta_curves::pallas::Point as pasta_curves::group::GroupEncoding>::from_bytes(
            bytes,
        ).unwrap(),
    ).into()
}

/// The encoding of the native asset: the value base of the value commitment
/// scheme.
pub const NATIVE_ASSET_BYTES: [u8; 32] = [
    103, 67, 249, 58, 110, 189, 167, 42, 140, 124, 90, 43, 127, 163, 4, 254,
    50, 178, 155, 79, 112, 106, 168, 247, 66, 15, 61, 142, 122, 89, 112, 47,
];

/// Whether `a` and `b` hold the same bytes.
pub fn same_bytes(a: &[u8; 32], b: &[u8; 32]) -> (r: bool)
    ensures
        r == (a@ == b@),
{
    let mut i: usize = 0;
    while i < 32
        invariant
            i <= 32,
            forall|j: int| 0 <= j < i ==> a@[j] == b@[j],
        decreases 32 - i,
    {
        if a[i] != b[i] {
            return false;
        }
        i += 1;
    }
    assert(a@ =~= b@);
    true
}

/// The identifier of an asset: a point of the Pallas curve other than the
/// identity, held as its canonical encoding.
#[derive(Debug, Clone, Copy, PartialEq, Eq)]
pub struct AssetBase {
    bytes: [u8; 32],
}

impl View for AssetBase {
    type V = Seq<u8>;

    closed spec fn view(&self) -> Seq<u8> {
        self.bytes@
    }
}

/// Whether the curve library takes `bytes` for an asset identifier.
pub open spec fn asset_decodes(bytes: Seq<u8>) -> bool {
    pallas_point_decodes(bytes) && !pallas_point_is_identity(bytes)
}

/// What an asset identifier's view must satisfy.
pub open spec fn valid_asset(bytes: Seq<u8>) -> bool {
    bytes.len() == 32 && asset_decodes(bytes)
}

/// Whether `asset` is the view of the native asset.
pub open spec fn is_native_asset(asset: Seq<u8>) -> bool {
    asset == NATIVE_ASSET_BYTES@
}

impl AssetBase {
    #[verifier::type_invariant]
    spec fn canonical(self) -> bool {
        asset_decodes(self.bytes@)
    }

    /// The asset that `bytes` encodes: bytes that encode a point other than
    /// the identity.
    pub fn from_bytes(bytes: &[u8; 32]) -> (r: Option<Self>)
        ensures
            r is Some <==> asset_decodes(bytes@),
            r is Some ==> r->Some_0@ == bytes@,
    {
        if pallas_point_accepts(bytes) && !pallas_point_identity(bytes) {
            Some(AssetBase { bytes: *bytes })
        } else {
            None
        }
    }

    /// The canonical encoding.
    pub fn to_bytes(&self) -> (r: [u8; 32])
        ensures
            r@ == self@,
            valid_asset(self@),
    {
        proof {
            use_type_invariant(self);
        }
        self.bytes
    }

    /// Whether this is the native asset.
    pub fn is_native(&self) -> (r: bool)
        ensures
            r == is_native_asset(self@),
    {
        same_bytes(&self.bytes, &NATIVE_ASSET_BYTES)
    }

    /// Whether this is the same asset as `other`.
    pub fn same_as(&self, other: &AssetBase) -> (r: bool)
        ensures
            r == (self@ == other@),
    {
        same_bytes(&self.bytes, &other.bytes)
    }
}

/// The value of a note: any unsigned 64-bit integer.
#[derive(Debug, Clone, Copy, PartialEq, Eq, Structural)]
pub struct NoteValue {
    pub value: u64,
}

impl NoteValue {
    /// The note value `value`.
    pub fn from_raw(value: u64) -> (r: Self)
        ensures
            r.value == value,
    {
        NoteValue { value }
    }

    /// The value as an integer.
    pub fn inner(&self) -> (r: u64)
        ensures
            r == self.value,
    {
        self.value
    }
}

/// An asset identifier: 32 bytes that encode one.
pub open spec fn parse_asset(data: Seq<u8>, pos: int) -> Parsed<Seq<u8>> {
    parse_checked(data, pos, |b: Seq<u8>| asset_decodes(b))
}

/// A note value: eight bytes, an unsigned little-endian integer.
pub open spec fn parse_note_value(data: Seq<u8>, pos: int) -> Parsed<NoteValue> {
    match parse_bytes(data, pos, 8) {
        Ok((bytes, next)) => Ok((NoteValue { value: le_value(bytes) as u64 }, next)),
        Err(e) => Err(e),
    }
}

/// The encoding that [`parse_note_value`] reads.
pub open spec fn note_value_bytes(value: NoteValue) -> Seq<u8> {
    le_bytes(value.value as nat, 8)
}

/// Reads an asset identifier.
pub fn read_asset(reader: &mut Reader) -> (r: Result<AssetBase, DecodeError>)
    ensures
        consumed(
            *old(reader),
            *final(reader),
            viewed(r),
            parse_asset(old(reader).data(), old(reader).pos()),
        ),
{
    let mut cursor = *reader;
    let bytes = cursor.read_array::<32>()?;
    match AssetBase::from_bytes(&bytes) {
        Some(asset) => {
            *reader = cursor;
            Ok(asset)
        },
        None => Err(DecodeError::InvalidEncoding),
    }
}

/// Writes an asset identifier.
pub fn write_asset_base(writer: &mut Vec<u8>, asset_base: &AssetBase)
    ensures
        final(writer)@ == old(writer)@ + asset_base@,
        valid_asset(asset_base@),
{
    let bytes = asset_base.to_bytes();
    put_bytes(writer, &bytes);
}

/// Reads a note value.
pub fn read_note_value(reader: &mut Reader) -> (r: Result<NoteValue, DecodeError>)
    ensures
        consumed(
            *old(reader),
            *final(reader),
            r,
            parse_note_value(old(reader).data(), old(reader).pos()),
        ),
{
    let bytes = reader.read_array::<8>()?;
    Ok(NoteValue::from_raw(u64_from_le(&bytes)))
}

/// Writes a note value as an unsigned little-endian integer of eight bytes.
pub fn write_note_value(writer: &mut Vec<u8>, value: &NoteValue)
    ensures
        final(writer)@ == old(writer)@ + note_value_bytes(*value),
{
    let bytes = u64_to_le(value.inner());
    put_bytes(writer, &bytes);
}

} // verus!
