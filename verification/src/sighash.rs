//! The registry of signature-hash versions: for each kind of signature hash
//! the tag that announces it on the wire. The registry is a table that is
//! built once and then only read.

use vstd::prelude::*;
use crate::reader::put_bytes;

verus! {

/// The kinds of signature hash of a shielded bundle.
#[derive(Debug, Clone, Copy, PartialEq, Eq, Structural)]
pub enum OrchardSighashVersion {
    V0,
}

/// The kinds of signature hash of an issuance bundle.
#[derive(Debug, Clone, Copy, PartialEq, Eq, Structural)]
pub enum IssueSighashVersion {
    V0,
}

/// What announces a kind of signature hash: a version and associated data.
#[derive(Debug, Clone, PartialEq, Eq)]
pub struct SighashInfo {
    pub version: u8,
    pub associated_data: Vec<u8>,
}

/// The tag of a version with associated data: the version byte and then the
/// data.
pub open spec fn sighash_tag(version: u8, associated_data: Seq<u8>) -> Seq<u8> {
    seq![version] + associated_data
}

/// The version that announces a kind of bundle signature hash.
pub open spec fn orchard_sighash_version(kind: OrchardSighashVersion) -> u8 {
    match kind {
        OrchardSighashVersion::V0 => 0,
    }
}

/// The version that announces a kind of issuance signature hash.
pub open spec fn issue_sighash_version(kind: IssueSighashVersion) -> u8 {
    match kind {
        IssueSighashVersion::V0 => 0,
    }
}

/// The tag of a kind of bundle signature hash. No kind has associated data.
pub open spec fn orchard_sighash_bytes(kind: OrchardSighashVersion) -> Seq<u8> {
    sighash_tag(orchard_sighash_version(kind), Seq::empty())
}

/// The tag of a kind of issuance signature hash. No kind has associated
/// data.
pub open spec fn issue_sighash_bytes(kind: IssueSighashVersion) -> Seq<u8> {
    sighash_tag(issue_sighash_version(kind), Seq::empty())
}

/// The kind of bundle signature hash that a tag announces: none for a byte
/// string that is no kind's tag.
pub open spec fn orchard_version_of(bytes: Seq<u8>) -> Option<OrchardSighashVersion> {
    if exists|kind: OrchardSighashVersion| orchard_sighash_bytes(kind) == bytes {
        Some(choose|kind: OrchardSighashVersion| orchard_sighash_bytes(kind) == bytes)
    } else {
        None
    }
}

/// The kind of issuance signature hash that a tag announces: none for a byte
/// string that is no kind's tag.
pub open spec fn issue_version_of(bytes: Seq<u8>) -> Option<IssueSighashVersion> {
    if exists|kind: IssueSighashVersion| issue_sighash_bytes(kind) == bytes {
        Some(choose|kind: IssueSighashVersion| issue_sighash_bytes(kind) == bytes)
    } else {
        None
    }
}

/// Whether `a` and `b` hold the same bytes.
pub fn same_byte_string(a: &[u8], b: &[u8]) -> (r: bool)
    ensures
        r == (a@ == b@),
{
    if a.len() != b.len() {
        return false;
    }
    let mut i: usize = 0;
    while i < a.len()
        invariant
            i <= a@.len(),
            a@.len() == b@.len(),
            forall|j: int| 0 <= j < i ==> a@[j] == b@[j],
        decreases a@.len() - i,
    {
        if a[i] != b[i] {
            return false;
        }
        i += 1;
    }
    assert(a@ =~= b@);
    true
}

impl SighashInfo {
    /// The tag of this version and data.
    pub open spec fn tag(&self) -> Seq<u8> {
        sighash_tag(self.version, self.associated_data@)
    }

    /// The tag of this version and data.
    pub fn to_bytes(&self) -> (r: Vec<u8>)
        ensures
            r@ == self.tag(),
    {
        let mut out: Vec<u8> = Vec::new();
        out.push(self.version);
        put_bytes(&mut out, self.associated_data.as_slice());
        out
    }

    /// The version and data that a tag holds; none for the empty tag.
    pub fn from_bytes(bytes: &[u8]) -> (r: Option<Self>)
        ensures
            r is Some <==> bytes@.len() > 0,
            r matches Some(info) ==> info.tag() == bytes@,
    {
        if bytes.len() == 0 {
            return None;
        }
        let associated_data = vstd::slice::slice_to_vec(
            vstd::slice::slice_subrange(bytes, 1, bytes.len()),
        );
        let info = SighashInfo { version: bytes[0], associated_data };
        Some(info)
    }
}

/// Whether the table has an entry for the kind.
pub open spec fn lists_orchard(
    entries: Seq<(OrchardSighashVersion, SighashInfo)>,
    kind: OrchardSighashVersion,
) -> bool {
    exists|i: int| 0 <= i < entries.len() && (#[trigger] entries[i]).0 == kind
}

/// Whether the table has an entry for the kind.
pub open spec fn lists_issuance(
    entries: Seq<(IssueSighashVersion, SighashInfo)>,
    kind: IssueSighashVersion,
) -> bool {
    exists|i: int| 0 <= i < entries.len() && (#[trigger] entries[i]).0 == kind
}

/// The table of the known kinds of signature hash and their tags.
#[derive(Debug, PartialEq, Eq)]
pub struct SighashRegistry {
    orchard: Vec<(OrchardSighashVersion, SighashInfo)>,
    issuance: Vec<(IssueSighashVersion, SighashInfo)>,
}

impl SighashRegistry {
    #[verifier::type_invariant]
    spec fn complete(self) -> bool {
        &&& forall|i: int|
            0 <= i < self.orchard@.len() ==> (#[trigger] self.orchard@[i]).1.tag()
                == orchard_sighash_bytes(self.orchard@[i].0)
        &&& forall|kind: OrchardSighashVersion| #[trigger] lists_orchard(self.orchard@, kind)
        &&& forall|i: int|
            0 <= i < self.issuance@.len() ==> (#[trigger] self.issuance@[i]).1.tag()
                == issue_sighash_bytes(self.issuance@[i].0)
        &&& forall|kind: IssueSighashVersion| #[trigger] lists_issuance(self.issuance@, kind)
    }

    /// The kinds of bundle signature hash in the table, each with its tag,
    /// in the order of the table.
    pub closed spec fn orchard_table(&self) -> Seq<(OrchardSighashVersion, Seq<u8>)> {
        self.orchard@.map_values(
            |entry: (OrchardSighashVersion, SighashInfo)| (entry.0, entry.1.tag()),
        )
    }

    /// The kinds of issuance signature hash in the table, each with its tag,
    /// in the order of the table.
    pub closed spec fn issuance_table(&self) -> Seq<(IssueSighashVersion, Seq<u8>)> {
        self.issuance@.map_values(
            |entry: (IssueSighashVersion, SighashInfo)| (entry.0, entry.1.tag()),
        )
    }

    /// The registry of all the known kinds: each with version zero and no
    /// associated data.
    pub fn new() -> (r: Self)
        ensures
            r.orchard_table() == seq![(OrchardSighashVersion::V0, seq![0u8])],
            r.issuance_table() == seq![(IssueSighashVersion::V0, seq![0u8])],
    {
        let mut orchard: Vec<(OrchardSighashVersion, SighashInfo)> = Vec::new();
        let first = SighashInfo { version: 0, associated_data: Vec::new() };
        orchard.push((OrchardSighashVersion::V0, first));
        let mut issuance: Vec<(IssueSighashVersion, SighashInfo)> = Vec::new();
        let second = SighashInfo { version: 0, associated_data: Vec::new() };
        issuance.push((IssueSighashVersion::V0, second));
        assert forall|kind: OrchardSighashVersion| #[trigger] lists_orchard(orchard@, kind) by {
            assert(orchard@[0].0 == kind);
        }
        assert forall|kind: IssueSighashVersion| #[trigger] lists_issuance(issuance@, kind) by {
            assert(issuance@[0].0 == kind);
        }
        let registry = SighashRegistry { orchard, issuance };
        registry
    }

    /// What announces the given kind of bundle signature hash.
    pub fn orchard_info(&self, kind: OrchardSighashVersion) -> (r: &SighashInfo)
        ensures
            r.tag() == orchard_sighash_bytes(kind),
    {
        proof {
            use_type_invariant(self);
        }
        let mut i: usize = 0;
        while i < self.orchard.len()
            invariant
                i <= self.orchard@.len(),
                forall|j: int| 0 <= j < i ==> (#[trigger] self.orchard@[j]).0 != kind,
                forall|j: int|
                    0 <= j < self.orchard@.len() ==> (#[trigger] self.orchard@[j]).1.tag()
                        == orchard_sighash_bytes(self.orchard@[j].0),
                lists_orchard(self.orchard@, kind),
            decreases self.orchard@.len() - i,
        {
            if self.orchard[i].0 == kind {
                return &self.orchard[i].1;
            }
            i += 1;
        }
        &self.orchard[0].1
    }

    /// What announces the given kind of issuance signature hash.
    pub fn issuance_info(&self, kind: IssueSighashVersion) -> (r: &SighashInfo)
        ensures
            r.tag() == issue_sighash_bytes(kind),
    {
        proof {
            use_type_invariant(self);
        }
        let mut i: usize = 0;
        while i < self.issuance.len()
            invariant
                i <= self.issuance@.len(),
                forall|j: int| 0 <= j < i ==> (#[trigger] self.issuance@[j]).0 != kind,
                forall|j: int|
                    0 <= j < self.issuance@.len() ==> (#[trigger] self.issuance@[j]).1.tag()
                        == issue_sighash_bytes(self.issuance@[j].0),
                lists_issuance(self.issuance@, kind),
            decreases self.issuance@.len() - i,
        {
            if self.issuance[i].0 == kind {
                return &self.issuance[i].1;
            }
            i += 1;
        }
        &self.issuance[0].1
    }

    /// The kind of bundle signature hash that `bytes` announces, if any.
    pub fn orchard_version(&self, bytes: &[u8]) -> (r: Option<OrchardSighashVersion>)
        ensures
            r == orchard_version_of(bytes@),
    {
        proof {
            use_type_invariant(self);
        }
        let mut i: usize = 0;
        while i < self.orchard.len()
            invariant
                i <= self.orchard@.len(),
                forall|j: int| 0 <= j < i ==> (#[trigger] self.orchard@[j]).1.tag() != bytes@,
                forall|j: int|
                    0 <= j < self.orchard@.len() ==> (#[trigger] self.orchard@[j]).1.tag()
                        == orchard_sighash_bytes(self.orchard@[j].0),
                forall|kind: OrchardSighashVersion| #[trigger] lists_orchard(self.orchard@, kind),
            decreases self.orchard@.len() - i,
        {
            let tag = self.orchard[i].1.to_bytes();
            if same_byte_string(tag.as_slice(), bytes) {
                return Some(self.orchard[i].0);
            }
            i += 1;
        }
        proof {
            assert forall|kind: OrchardSighashVersion| orchard_sighash_bytes(kind) != bytes@ by {
                assert(lists_orchard(self.orchard@, kind));
            }
        }
        None
    }

    /// The kind of issuance signature hash that `bytes` announces, if any.
    pub fn issuance_version(&self, bytes: &[u8]) -> (r: Option<IssueSighashVersion>)
        ensures
            r == issue_version_of(bytes@),
    {
        proof {
            use_type_invariant(self);
        }
        let mut i: usize = 0;
        while i < self.issuance.len()
            invariant
                i <= self.issuance@.len(),
                forall|j: int| 0 <= j < i ==> (#[trigger] self.issuance@[j]).1.tag() != bytes@,
                forall|j: int|
                    0 <= j < self.issuance@.len() ==> (#[trigger] self.issuance@[j]).1.tag()
                        == issue_sighash_bytes(self.issuance@[j].0),
                forall|kind: IssueSighashVersion| #[trigger] lists_issuance(self.issuance@, kind),
            decreases self.issuance@.len() - i,
        {
            let tag = self.issuance[i].1.to_bytes();
            if same_byte_string(tag.as_slice(), bytes) {
                return Some(self.issuance[i].0);
            }
            i += 1;
        }
        proof {
            assert forall|kind: IssueSighashVersion| issue_sighash_bytes(kind) != bytes@ by {
                assert(lists_issuance(self.issuance@, kind));
            }
        }
        None
    }
}

/// The kind of bundle signature hash that `bytes` announces in the
/// registry, if any.
pub fn to_orchard_version(registry: &SighashRegistry, bytes: Vec<u8>) -> (r: Option<
    OrchardSighashVersion,
>)
    ensures
        r == orchard_version_of(bytes@),
{
    registry.orchard_version(bytes.as_slice())
}

/// The kind of issuance signature hash that `bytes` announces in the
/// registry, if any.
pub fn to_issuance_version(registry: &SighashRegistry, bytes: Vec<u8>) -> (r: Option<
    IssueSighashVersion,
>)
    ensures
        r == issue_version_of(bytes@),
{
    registry.issuance_version(bytes.as_slice())
}

/// Different kinds have different tags.
pub proof fn lemma_sighash_tags_distinct()
    ensures
        forall|a: OrchardSighashVersion, b: OrchardSighashVersion|
            orchard_sighash_bytes(a) == orchard_sighash_bytes(b) ==> a == b,
        forall|a: IssueSighashVersion, b: IssueSighashVersion|
            issue_sighash_bytes(a) == issue_sighash_bytes(b) ==> a == b,
{
}

/// **The registry is a bijection.** The tag of every kind announces that
/// kind.
pub proof fn lemma_sighash_round_trip(
    orchard_kind: OrchardSighashVersion,
    issuance_kind: IssueSighashVersion,
)
    ensures
        orchard_version_of(orchard_sighash_bytes(orchard_kind)) == Some(orchard_kind),
        issue_version_of(issue_sighash_bytes(issuance_kind)) == Some(issuance_kind),
{
}

/// **The registry is a bijection.** A byte string that is no kind's tag
/// announces nothing; among them the empty string and every tag with a byte
/// behind it.
pub proof fn lemma_unregistered_tag(bytes: Seq<u8>)
    ensures
        (forall|kind: OrchardSighashVersion| orchard_sighash_bytes(kind) != bytes)
            ==> orchard_version_of(bytes) is None,
        (forall|kind: IssueSighashVersion| issue_sighash_bytes(kind) != bytes) ==> issue_version_of(
            bytes,
        ) is None,
        orchard_version_of(Seq::empty()) is None,
        issue_version_of(Seq::empty()) is None,
        forall|kind: OrchardSighashVersion, extra: u8|
            orchard_version_of(#[trigger] orchard_sighash_bytes(kind).push(extra)) is None,
        forall|kind: IssueSighashVersion, extra: u8|
            issue_version_of(#[trigger] issue_sighash_bytes(kind).push(extra)) is None,
{
    assert forall|kind: OrchardSighashVersion| orchard_sighash_bytes(kind).len() == 1 by {
        // a tag is its version byte
    }
}

} // verus!
