//! Framing of lists: a run of items one behind the other, bare or behind a
//! compact-size count. The element codec is a parameter, so that the laws of
//! lists are proved once for actions, signatures, notes and burn entries.

use vstd::prelude::*;
use crate::bytes::{has_at, lemma_has_at_concat, Parsed};
use crate::compact_size::{
    compact_size_bytes, lemma_compact_size_canonical, lemma_compact_size_round_trip,
    parse_compact_size, MAX_COMPACT_SIZE,
};
use crate::error::DecodeError;

verus! {

/// `count` items parsed one behind the other from `pos` on. The first item
/// that fails to parse decides the error.
pub open spec fn parse_items<T>(
    item: spec_fn(Seq<u8>, int) -> Parsed<T>,
    data: Seq<u8>,
    pos: int,
    count: nat,
) -> Parsed<Seq<T>>
    decreases count,
{
    if count == 0 {
        Ok((Seq::empty(), pos))
    } else {
        match parse_items(item, data, pos, (count - 1) as nat) {
            Ok((items, next)) => match item(data, next) {
                Ok((x, after)) => Ok((items.push(x), after)),
                Err(e) => Err(e),
            },
            Err(e) => Err(e),
        }
    }
}

/// The encodings of `items`, one behind the other.
pub open spec fn items_bytes<T>(enc: spec_fn(T) -> Seq<u8>, items: Seq<T>) -> Seq<u8>
    decreases items.len(),
{
    if items.len() == 0 {
        Seq::empty()
    } else {
        items_bytes(enc, items.drop_last()) + enc(items.last())
    }
}

/// A compact-size count and then that many items.
pub open spec fn parse_list<T>(
    item: spec_fn(Seq<u8>, int) -> Parsed<T>,
    data: Seq<u8>,
    pos: int,
) -> Parsed<Seq<T>> {
    match parse_compact_size(data, pos) {
        Ok((n, next)) => parse_items(item, data, next, n as nat),
        Err(e) => Err(e),
    }
}

/// The encoding that [`parse_list`] reads.
pub open spec fn list_bytes<T>(enc: spec_fn(T) -> Seq<u8>, items: Seq<T>) -> Seq<u8> {
    compact_size_bytes(items.len()) + items_bytes(enc, items)
}

/// Every item for which `valid` holds is read back from its own encoding,
/// wherever that stands.
pub open spec fn reads_back<T>(
    item: spec_fn(Seq<u8>, int) -> Parsed<T>,
    enc: spec_fn(T) -> Seq<u8>,
    valid: spec_fn(T) -> bool,
) -> bool {
    forall|data: Seq<u8>, pos: int, x: T|
        valid(x) && #[trigger] has_at(data, pos, enc(x)) ==> item(data, pos) == Ok::<
            (T, int),
            DecodeError,
        >((x, pos + enc(x).len()))
}

/// All of `items` satisfy `valid`.
pub open spec fn all_valid<T>(valid: spec_fn(T) -> bool, items: Seq<T>) -> bool {
    forall|i: int| 0 <= i < items.len() ==> valid(#[trigger] items[i])
}

/// Once an item has failed, reading further items cannot mend it.
pub proof fn lemma_parse_items_error_stays<T>(
    item: spec_fn(Seq<u8>, int) -> Parsed<T>,
    data: Seq<u8>,
    pos: int,
    failed: nat,
    count: nat,
)
    requires
        failed <= count,
        parse_items(item, data, pos, failed) is Err,
    ensures
        parse_items(item, data, pos, count) == parse_items(item, data, pos, failed),
    decreases count,
{
    if failed < count {
        lemma_parse_items_error_stays(item, data, pos, failed, (count - 1) as nat);
    }
}

/// A successful parse of `count` items yields `count` items.
pub proof fn lemma_parse_items_len<T>(
    item: spec_fn(Seq<u8>, int) -> Parsed<T>,
    data: Seq<u8>,
    pos: int,
    count: nat,
)
    ensures
        parse_items(item, data, pos, count) matches Ok(p) ==> p.0.len() == count,
    decreases count,
{
    if count > 0 {
        lemma_parse_items_len(item, data, pos, (count - 1) as nat);
    }
}

/// Appending one item appends its encoding.
pub proof fn lemma_items_bytes_push<T>(enc: spec_fn(T) -> Seq<u8>, items: Seq<T>, x: T)
    ensures
        items_bytes(enc, items.push(x)) == items_bytes(enc, items) + enc(x),
{
    assert(items.push(x).drop_last() =~= items);
}

/// A run of valid items is read back from its encoding.
pub proof fn lemma_items_round_trip<T>(
    item: spec_fn(Seq<u8>, int) -> Parsed<T>,
    enc: spec_fn(T) -> Seq<u8>,
    valid: spec_fn(T) -> bool,
    data: Seq<u8>,
    pos: int,
    items: Seq<T>,
)
    requires
        reads_back(item, enc, valid),
        all_valid(valid, items),
        has_at(data, pos, items_bytes(enc, items)),
    ensures
        parse_items(item, data, pos, items.len()) == Ok::<(Seq<T>, int), DecodeError>(
            (items, pos + items_bytes(enc, items).len()),
        ),
    decreases items.len(),
{
    if items.len() == 0 {
        assert(items =~= Seq::empty());
    } else {
        let front = items.drop_last();
        let x = items.last();
        lemma_has_at_concat(data, pos, items_bytes(enc, front), enc(x));
        lemma_items_round_trip(item, enc, valid, data, pos, front);
        assert(front.push(x) =~= items);
    }
}

/// A counted list of valid items, short enough for its count to be written,
/// is read back from its encoding.
pub proof fn lemma_list_round_trip<T>(
    item: spec_fn(Seq<u8>, int) -> Parsed<T>,
    enc: spec_fn(T) -> Seq<u8>,
    valid: spec_fn(T) -> bool,
    data: Seq<u8>,
    pos: int,
    items: Seq<T>,
)
    requires
        reads_back(item, enc, valid),
        all_valid(valid, items),
        items.len() <= MAX_COMPACT_SIZE,
        has_at(data, pos, list_bytes(enc, items)),
    ensures
        parse_list(item, data, pos) == Ok::<(Seq<T>, int), DecodeError>(
            (items, pos + list_bytes(enc, items).len()),
        ),
{
    lemma_has_at_concat(data, pos, compact_size_bytes(items.len()), items_bytes(enc, items));
    lemma_compact_size_round_trip(data, pos, items.len());
    lemma_items_round_trip(
        item,
        enc,
        valid,
        data,
        pos + compact_size_bytes(items.len()).len(),
        items,
    );
}

/// Whatever the item parser yields satisfies `valid`, and was read from its
/// own encoding.
pub open spec fn written_back<T>(
    item: spec_fn(Seq<u8>, int) -> Parsed<T>,
    enc: spec_fn(T) -> Seq<u8>,
    valid: spec_fn(T) -> bool,
) -> bool {
    forall|data: Seq<u8>, pos: int|
        (#[trigger] item(data, pos)) matches Ok(p) ==> valid(p.0) && has_at(data, pos, enc(p.0))
            && p.1 == pos + enc(p.0).len()
}

/// A run of items is read from the encodings of the items only.
pub proof fn lemma_items_canonical<T>(
    item: spec_fn(Seq<u8>, int) -> Parsed<T>,
    enc: spec_fn(T) -> Seq<u8>,
    valid: spec_fn(T) -> bool,
    data: Seq<u8>,
    pos: int,
    count: nat,
)
    requires
        written_back(item, enc, valid),
        0 <= pos <= data.len(),
    ensures
        parse_items(item, data, pos, count) matches Ok(p) ==> p.0.len() == count && all_valid(
            valid,
            p.0,
        ) && has_at(data, pos, items_bytes(enc, p.0)) && p.1 == pos + items_bytes(enc, p.0).len(),
    decreases count,
{
    if count == 0 {
        assert(data.subrange(pos, pos) =~= Seq::empty());
    } else {
        lemma_items_canonical(item, enc, valid, data, pos, (count - 1) as nat);
        if let Ok((front, next)) = parse_items(item, data, pos, (count - 1) as nat) {
            if let Ok((x, after)) = item(data, next) {
                lemma_items_bytes_push(enc, front, x);
                lemma_has_at_concat(data, pos, items_bytes(enc, front), enc(x));
            }
        }
    }
}

/// A counted list is read from its encoding only.
pub proof fn lemma_list_canonical<T>(
    item: spec_fn(Seq<u8>, int) -> Parsed<T>,
    enc: spec_fn(T) -> Seq<u8>,
    valid: spec_fn(T) -> bool,
    data: Seq<u8>,
    pos: int,
)
    requires
        written_back(item, enc, valid),
    ensures
        parse_list(item, data, pos) matches Ok(p) ==> p.0.len() <= MAX_COMPACT_SIZE && all_valid(
            valid,
            p.0,
        ) && has_at(data, pos, list_bytes(enc, p.0)) && p.1 == pos + list_bytes(enc, p.0).len(),
{
    lemma_compact_size_canonical(data, pos);
    if let Ok((count, next)) = parse_compact_size(data, pos) {
        lemma_items_canonical(item, enc, valid, data, next, count as nat);
        if let Ok((items, after)) = parse_items(item, data, next, count as nat) {
            lemma_has_at_concat(data, pos, compact_size_bytes(items.len()), items_bytes(enc, items));
        }
    }
}

} // verus!
