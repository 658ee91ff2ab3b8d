//! The burn list of a multi-asset bundle: its invariants, and its encoding
//! as a counted list of asset identifier and amount.

use vstd::prelude::*;
use crate::asset::{
    is_native_asset, parse_asset, read_asset, valid_asset, write_asset_base, AssetBase,
};
use crate::bytes::{has_at, i64_le_bytes, lemma_has_at_concat, lemma_le_i64_of_i64_le_bytes, Parsed};
use crate::compact_size::{
    parse_compact_size, read_compact_size, write_compact_size, MAX_COMPACT_SIZE,
};
use crate::error::{BurnError, DecodeError, EncodeError};
use crate::primitives::{parse_amount, read_amount, valid_amount, write_amount, Amount};
use crate::reader::{consumed, Reader};
use crate::sequence::{
    all_valid, items_bytes, lemma_items_bytes_push, lemma_list_round_trip,
    lemma_parse_items_error_stays, list_bytes, parse_items, parse_list, reads_back,
};

verus! {

/// Which amounts a burn list may hold. Both rules are in use; a caller
/// chooses one by name.
#[derive(Debug, Clone, Copy, PartialEq, Eq, Structural)]
pub enum BurnPolicy {
    /// Every amount must be positive; an offender is reported as
    /// `NonPositiveAmount`.
    Positive,
    /// Every amount must be nonzero; an offender is reported as
    /// `ZeroAmount`.
    Nonzero,
}

/// The model of one burn entry: the asset's encoding and the amount.
pub type SpecBurnEntry = (Seq<u8>, int);

/// The model of a burn entry.
pub open spec fn burn_entry_view(entry: (AssetBase, Amount)) -> SpecBurnEntry {
    (entry.0@, entry.1@)
}

/// The model of a burn list.
pub open spec fn burn_view(burn: Seq<(AssetBase, Amount)>) -> Seq<SpecBurnEntry> {
    burn.map_values(|entry: (AssetBase, Amount)| burn_entry_view(entry))
}

/// What is wrong with entry `i`, given the entries before it: its asset
/// occurred before, or is the native asset, or its amount is one that the
/// policy refuses. The three are tried in this order.
pub open spec fn burn_entry_error(burn: Seq<SpecBurnEntry>, i: int, policy: BurnPolicy) -> Option<
    BurnError,
> {
    if exists|j: int| 0 <= j < i && burn[j].0 == burn[i].0 {
        Some(BurnError::DuplicateAsset)
    } else if is_native_asset(burn[i].0) {
        Some(BurnError::NativeAsset)
    } else if policy == BurnPolicy::Positive && burn[i].1 <= 0 {
        Some(BurnError::NonPositiveAmount)
    } else if policy == BurnPolicy::Nonzero && burn[i].1 == 0 {
        Some(BurnError::ZeroAmount)
    } else {
        None
    }
}

/// The error of the first faulty entry among the first `upto`, if any.
pub open spec fn first_burn_error(burn: Seq<SpecBurnEntry>, policy: BurnPolicy, upto: nat) -> Option<
    BurnError,
>
    decreases upto,
{
    if upto == 0 {
        None
    } else {
        match first_burn_error(burn, policy, (upto - 1) as nat) {
            Some(e) => Some(e),
            None => burn_entry_error(burn, upto - 1, policy),
        }
    }
}

/// The verdict on a burn list: the error of its first faulty entry.
pub open spec fn validate_burn(burn: Seq<SpecBurnEntry>, policy: BurnPolicy) -> Result<
    (),
    BurnError,
> {
    match first_burn_error(burn, policy, burn.len()) {
        Some(e) => Err(e),
        None => Ok(()),
    }
}

/// A burn list is accepted exactly when no asset occurs twice, none is the
/// native asset, and every amount is one that the policy admits.
pub proof fn lemma_validate_burn_ok(burn: Seq<SpecBurnEntry>, policy: BurnPolicy)
    ensures
        validate_burn(burn, policy) is Ok <==> {
            &&& forall|i: int, j: int| 0 <= j < i < burn.len() ==> burn[j].0 != burn[i].0
            &&& forall|i: int| 0 <= i < burn.len() ==> !is_native_asset(#[trigger] burn[i].0)
            &&& forall|i: int|
                0 <= i < burn.len() ==> match policy {
                    BurnPolicy::Positive => (#[trigger] burn[i]).1 > 0,
                    BurnPolicy::Nonzero => burn[i].1 != 0,
                }
        },
{
    lemma_first_burn_error_none(burn, policy, burn.len());
    if validate_burn(burn, policy) is Ok {
        assert forall|i: int, j: int| 0 <= j < i < burn.len() implies burn[j].0 != burn[i].0 by {
            assert(burn_entry_error(burn, i, policy) is None);
        }
        assert forall|i: int| 0 <= i < burn.len() implies !is_native_asset(
            #[trigger] burn[i].0,
        ) by {
            assert(burn_entry_error(burn, i, policy) is None);
        }
        assert forall|i: int| 0 <= i < burn.len() implies match policy {
            BurnPolicy::Positive => (#[trigger] burn[i]).1 > 0,
            BurnPolicy::Nonzero => burn[i].1 != 0,
        } by {
            assert(burn_entry_error(burn, i, policy) is None);
        }
    }
}

/// No error among the first `upto` entries means no faulty entry among
/// them, and the other way round.
pub proof fn lemma_first_burn_error_none(burn: Seq<SpecBurnEntry>, policy: BurnPolicy, upto: nat)
    ensures
        first_burn_error(burn, policy, upto) is None <==> forall|i: int|
            0 <= i < upto ==> #[trigger] burn_entry_error(burn, i, policy) is None,
    decreases upto,
{
    if upto > 0 {
        lemma_first_burn_error_none(burn, policy, (upto - 1) as nat);
    }
}

/// Once an entry is found faulty, the verdict is its error.
pub proof fn lemma_first_burn_error_stays(
    burn: Seq<SpecBurnEntry>,
    policy: BurnPolicy,
    found: nat,
    upto: nat,
)
    requires
        found <= upto,
        first_burn_error(burn, policy, found) is Some,
    ensures
        first_burn_error(burn, policy, upto) == first_burn_error(burn, policy, found),
    decreases upto,
{
    if found < upto {
        lemma_first_burn_error_stays(burn, policy, found, (upto - 1) as nat);
    }
}

/// Validates a burn list under the given policy.
pub fn validate_bundle_burn_with(bundle_burn: &Vec<(AssetBase, Amount)>, policy: BurnPolicy) -> (r:
    Result<(), BurnError>)
    ensures
        r == validate_burn(burn_view(bundle_burn@), policy),
{
    let ghost burn = burn_view(bundle_burn@);
    let mut i: usize = 0;
    while i < bundle_burn.len()
        invariant
            i <= bundle_burn@.len(),
            burn == burn_view(bundle_burn@),
            first_burn_error(burn, policy, i as nat) is None,
        decreases bundle_burn@.len() - i,
    {
        let asset = &bundle_burn[i].0;
        let amount = bundle_burn[i].1.value();
        let mut j: usize = 0;
        while j < i
            invariant
                j <= i < bundle_burn@.len(),
                burn == burn_view(bundle_burn@),
                *asset == bundle_burn@[i as int].0,
                first_burn_error(burn, policy, i as nat) is None,
                forall|k: int| 0 <= k < j ==> burn[k].0 != burn[i as int].0,
            decreases i - j,
        {
            if bundle_burn[j].0.same_as(asset) {
                proof {
                    assert(burn[j as int].0 == burn[i as int].0);
                    lemma_first_burn_error_stays(burn, policy, (i + 1) as nat, burn.len());
                }
                return Err(BurnError::DuplicateAsset);
            }
            j += 1;
        }
        let fault: Option<BurnError> = if asset.is_native() {
            Some(BurnError::NativeAsset)
        } else {
            match policy {
                BurnPolicy::Positive => if amount <= 0 {
                    Some(BurnError::NonPositiveAmount)
                } else {
                    None
                },
                BurnPolicy::Nonzero => if amount == 0 {
                    Some(BurnError::ZeroAmount)
                } else {
                    None
                },
            }
        };
        match fault {
            Some(e) => {
                proof {
                    lemma_first_burn_error_stays(burn, policy, (i + 1) as nat, burn.len());
                }
                return Err(e);
            },
            None => {},
        }
        i += 1;
    }
    Ok(())
}

/// Validates a burn list: every asset is unique, none is the native asset,
/// and every amount is positive.
pub fn validate_bundle_burn(bundle_burn: &Vec<(AssetBase, Amount)>) -> (r: Result<(), BurnError>)
    ensures
        r == validate_burn(burn_view(bundle_burn@), BurnPolicy::Positive),
{
    validate_bundle_burn_with(bundle_burn, BurnPolicy::Positive)
}

/// A burn entry: an asset identifier and then an amount.
pub open spec fn parse_burn_entry(data: Seq<u8>, pos: int) -> Parsed<SpecBurnEntry> {
    match parse_asset(data, pos) {
        Ok((asset, at1)) => match parse_amount(data, at1) {
            Ok((amount, at2)) => Ok(((asset, amount), at2)),
            Err(e) => Err(e),
        },
        Err(e) => Err(e),
    }
}

/// The encoding that [`parse_burn_entry`] reads.
pub open spec fn burn_entry_bytes(entry: SpecBurnEntry) -> Seq<u8> {
    entry.0 + i64_le_bytes(entry.1)
}

/// A burn entry whose asset and amount are what their decoders accept.
pub open spec fn valid_burn_entry(entry: SpecBurnEntry) -> bool {
    valid_asset(entry.0) && valid_amount(entry.1)
}

/// [`parse_burn_entry`] as a value.
pub open spec fn burn_entry_parser() -> spec_fn(Seq<u8>, int) -> Parsed<SpecBurnEntry> {
    |data: Seq<u8>, pos: int| parse_burn_entry(data, pos)
}

/// [`burn_entry_bytes`] as a value.
pub open spec fn burn_entry_encoder() -> spec_fn(SpecBurnEntry) -> Seq<u8> {
    |entry: SpecBurnEntry| burn_entry_bytes(entry)
}

/// [`valid_burn_entry`] as a value.
pub open spec fn burn_entry_validity() -> spec_fn(SpecBurnEntry) -> bool {
    |entry: SpecBurnEntry| valid_burn_entry(entry)
}

/// A burn list: a counted list of entries that passes validation under the
/// policy. A list that fails it is refused as a whole, with the
/// validation's error.
pub open spec fn parse_burn(data: Seq<u8>, pos: int, policy: BurnPolicy) -> Parsed<
    Seq<SpecBurnEntry>,
> {
    match parse_list(burn_entry_parser(), data, pos) {
        Ok((burn, next)) => match validate_burn(burn, policy) {
            Ok(()) => Ok((burn, next)),
            Err(e) => Err(DecodeError::BurnInvariantViolation(e)),
        },
        Err(e) => Err(e),
    }
}

/// The encoding that [`parse_burn`] reads.
pub open spec fn burn_bytes(burn: Seq<SpecBurnEntry>) -> Seq<u8> {
    list_bytes(burn_entry_encoder(), burn)
}

/// Reads one burn entry.
pub fn read_asset_burn(reader: &mut Reader) -> (r: Result<(AssetBase, Amount), DecodeError>)
    ensures
        consumed(
            *old(reader),
            *final(reader),
            match r {
                Ok(entry) => Ok(burn_entry_view(entry)),
                Err(e) => Err(e),
            },
            parse_burn_entry(old(reader).data(), old(reader).pos()),
        ),
{
    let mut cursor = *reader;
    let asset_base = read_asset(&mut cursor)?;
    let amount = read_amount(&mut cursor)?;
    *reader = cursor;
    Ok((asset_base, amount))
}

/// Reads a burn list and validates it under the given policy.
pub fn read_bundle_burn_with(reader: &mut Reader, policy: BurnPolicy) -> (r: Result<
    Vec<(AssetBase, Amount)>,
    DecodeError,
>)
    ensures
        consumed(
            *old(reader),
            *final(reader),
            match r {
                Ok(burn) => Ok(burn_view(burn@)),
                Err(e) => Err(e),
            },
            parse_burn(old(reader).data(), old(reader).pos(), policy),
        ),
{
    let mut cursor = *reader;
    let ghost data = cursor.data();
    let count = read_compact_size(&mut cursor)?;
    let ghost start = cursor.pos();
    let mut burn: Vec<(AssetBase, Amount)> = Vec::new();
    let mut i: usize = 0;
    assert(burn_view(burn@) =~= Seq::empty());
    while i < count
        invariant
            i <= count,
            cursor.data() == data,
            data == old(reader).data(),
            0 <= old(reader).pos() <= data.len(),
            parse_compact_size(data, old(reader).pos()) == Ok::<(u64, int), DecodeError>(
                (count as u64, start),
            ),
            parse_items(burn_entry_parser(), data, start, i as nat) == Ok::<
                (Seq<SpecBurnEntry>, int),
                DecodeError,
            >((burn_view(burn@), cursor.pos())),
        decreases count - i,
    {
        let ghost before = burn_view(burn@);
        match read_asset_burn(&mut cursor) {
            Ok(entry) => {
                burn.push(entry);
                assert(burn_view(burn@) =~= before.push(burn_entry_view(entry)));
            },
            Err(e) => {
                proof {
                    lemma_parse_items_error_stays(
                        burn_entry_parser(),
                        data,
                        start,
                        (i + 1) as nat,
                        count as nat,
                    );
                }
                return Err(e);
            },
        }
        i += 1;
    }
    match validate_bundle_burn_with(&burn, policy) {
        Ok(()) => {
            *reader = cursor;
            Ok(burn)
        },
        Err(e) => Err(DecodeError::BurnInvariantViolation(e)),
    }
}

/// Reads a burn list and validates it: unique assets, no native asset,
/// positive amounts.
pub fn read_bundle_burn(reader: &mut Reader) -> (r: Result<Vec<(AssetBase, Amount)>, DecodeError>)
    ensures
        consumed(
            *old(reader),
            *final(reader),
            match r {
                Ok(burn) => Ok(burn_view(burn@)),
                Err(e) => Err(e),
            },
            parse_burn(old(reader).data(), old(reader).pos(), BurnPolicy::Positive),
        ),
{
    read_bundle_burn_with(reader, BurnPolicy::Positive)
}

/// Writes one burn entry.
pub fn write_asset_burn(writer: &mut Vec<u8>, entry: &(AssetBase, Amount))
    ensures
        final(writer)@ == old(writer)@ + burn_entry_bytes(burn_entry_view(*entry)),
        valid_burn_entry(burn_entry_view(*entry)),
{
    write_asset_base(writer, &entry.0);
    write_amount(writer, &entry.1);
}

/// Writes a burn list: its length as a compact size, then its entries. A
/// list longer than a compact size may say is refused, and the buffer is
/// then left as it was.
pub fn write_bundle_burn(writer: &mut Vec<u8>, bundle_burn: &Vec<(AssetBase, Amount)>) -> (r:
    Result<(), EncodeError>)
    ensures
        r is Ok <==> bundle_burn@.len() <= MAX_COMPACT_SIZE,
        r is Ok ==> final(writer)@ == old(writer)@ + burn_bytes(burn_view(bundle_burn@)),
        r is Err ==> final(writer)@ == old(writer)@,
        r is Ok ==> all_valid(burn_entry_validity(), burn_view(bundle_burn@)),
{
    let ghost burn = burn_view(bundle_burn@);
    write_compact_size(writer, bundle_burn.len())?;
    let ghost prefix = writer@;
    let mut i: usize = 0;
    while i < bundle_burn.len()
        invariant
            i <= bundle_burn@.len(),
            burn == burn_view(bundle_burn@),
            writer@ == prefix + items_bytes(burn_entry_encoder(), burn.take(i as int)),
            forall|k: int| 0 <= k < i ==> valid_burn_entry(#[trigger] burn[k]),
        decreases bundle_burn@.len() - i,
    {
        write_asset_burn(writer, &bundle_burn[i]);
        proof {
            lemma_items_bytes_push(burn_entry_encoder(), burn.take(i as int), burn[i as int]);
            assert(burn.take(i as int).push(burn[i as int]) =~= burn.take(i + 1));
        }
        i += 1;
    }
    assert(burn.take(i as int) =~= burn);
    Ok(())
}

/// A valid burn entry is read back from its encoding.
pub proof fn lemma_burn_entry_round_trip(data: Seq<u8>, pos: int, entry: SpecBurnEntry)
    requires
        valid_burn_entry(entry),
        has_at(data, pos, burn_entry_bytes(entry)),
    ensures
        parse_burn_entry(data, pos) == Ok::<(SpecBurnEntry, int), DecodeError>(
            (entry, pos + burn_entry_bytes(entry).len()),
        ),
{
    lemma_has_at_concat(data, pos, entry.0, i64_le_bytes(entry.1));
    lemma_le_i64_of_i64_le_bytes(entry.1);
}

/// Burn entries satisfy the premise of the list laws.
pub proof fn lemma_burn_entries_read_back()
    ensures
        reads_back(burn_entry_parser(), burn_entry_encoder(), burn_entry_validity()),
{
    assert forall|data: Seq<u8>, pos: int, x: SpecBurnEntry|
        burn_entry_validity()(x) && #[trigger] has_at(
            data,
            pos,
            burn_entry_encoder()(x),
        ) implies burn_entry_parser()(data, pos) == Ok::<(SpecBurnEntry, int), DecodeError>(
        (x, pos + burn_entry_encoder()(x).len()),
    ) by {
        lemma_burn_entry_round_trip(data, pos, x);
    }
}

/// A burn list of valid entries that passes validation, and is short enough
/// to be written, is read back from its encoding.
pub proof fn lemma_burn_round_trip(
    data: Seq<u8>,
    pos: int,
    burn: Seq<SpecBurnEntry>,
    policy: BurnPolicy,
)
    requires
        all_valid(burn_entry_validity(), burn),
        validate_burn(burn, policy) is Ok,
        burn.len() <= MAX_COMPACT_SIZE,
        has_at(data, pos, burn_bytes(burn)),
    ensures
        parse_burn(data, pos, policy) == Ok::<(Seq<SpecBurnEntry>, int), DecodeError>(
            (burn, pos + burn_bytes(burn).len()),
        ),
{
    lemma_burn_entries_read_back();
    lemma_list_round_trip(
        burn_entry_parser(),
        burn_entry_encoder(),
        burn_entry_validity(),
        data,
        pos,
        burn,
    );
}

} // verus!
