//! `XGameSave`: the local container store's bookkeeping. Providers, containers and pending
//! updates are handles; an update buffers blob writes and deletes until it is submitted, and
//! the files themselves are read and written by the caller.
use vstd::prelude::*;
use crate::handle_table::{HandleTable, handle_lookup};
use crate::hresult::{E_FAIL, E_INVALIDARG, E_NOT_SUFFICIENT_BUFFER, E_POINTER, S_OK};
use crate::text::{chars_of, matches_at, write_fixed_cstr};

verus! {

/// The sidecar file holding a container's display name; never listed as a blob.
pub const META_FILE: &'static str = ".xgamesave_display_name";

/// A buffered write: the blob's name and its bytes.
pub open spec fn write_view(write: (String, Vec<u8>)) -> (Seq<char>, Seq<u8>) {
    (write.0@, write.1@)
}

/// The buffered writes, as names and bytes.
pub open spec fn writes_view(writes: Seq<(String, Vec<u8>)>) -> Seq<(Seq<char>, Seq<u8>)> {
    Seq::new(writes.len(), |i: int| write_view(writes[i]))
}

/// The buffered deletes, as names.
pub open spec fn names_view(names: Seq<String>) -> Seq<Seq<char>> {
    Seq::new(names.len(), |i: int| names[i]@)
}

/// `writes` without the ones to `name`, in order.
pub open spec fn writes_without(writes: Seq<(Seq<char>, Seq<u8>)>, name: Seq<char>) -> Seq<(Seq<char>, Seq<u8>)>
    decreases writes.len(),
{
    if writes.len() == 0 {
        Seq::empty()
    } else {
        let rest = writes_without(writes.drop_last(), name);
        if writes.last().0 == name {
            rest
        } else {
            rest.push(writes.last())
        }
    }
}

/// `names` without `name`, in order.
pub open spec fn names_without(names: Seq<Seq<char>>, name: Seq<char>) -> Seq<Seq<char>>
    decreases names.len(),
{
    if names.len() == 0 {
        Seq::empty()
    } else {
        let rest = names_without(names.drop_last(), name);
        if names.last() == name {
            rest
        } else {
            rest.push(names.last())
        }
    }
}

/// What submitting a batch does to one blob.
pub enum BlobEffect {
    /// The blob is left as it is.
    Untouched,
    /// The blob is written with these bytes.
    Written(Seq<u8>),
    /// The blob is deleted.
    Deleted,
}

/// The bytes of the last buffered write to `name`, if any.
pub open spec fn last_write(writes: Seq<(Seq<char>, Seq<u8>)>, name: Seq<char>) -> Option<Seq<u8>>
    decreases writes.len(),
{
    if writes.len() == 0 {
        None
    } else if writes.last().0 == name {
        Some(writes.last().1)
    } else {
        last_write(writes.drop_last(), name)
    }
}

/// What a submitted batch does to `name`: submission writes every buffered write in order and
/// then deletes every buffered delete.
pub open spec fn blob_effect(
    writes: Seq<(Seq<char>, Seq<u8>)>,
    deletes: Seq<Seq<char>>,
    name: Seq<char>,
) -> BlobEffect {
    if deletes.contains(name) {
        BlobEffect::Deleted
    } else {
        match last_write(writes, name) {
            Some(bytes) => BlobEffect::Written(bytes),
            None => BlobEffect::Untouched,
        }
    }
}

/// A pending update: the container it belongs to, the display name to record (if not empty),
/// and the buffered writes and deletes. Submission performs the writes in order, then the
/// deletes.
pub struct UpdateBatch {
    pub container_root: String,
    pub display_name: String,
    pub writes: Vec<(String, Vec<u8>)>,
    pub deletes: Vec<String>,
}

proof fn lemma_writes_without_step(writes: Seq<(Seq<char>, Seq<u8>)>, name: Seq<char>, k: int)
    requires
        0 <= k < writes.len(),
    ensures
        writes_without(writes.take(k + 1), name) == if writes[k].0 == name {
            writes_without(writes.take(k), name)
        } else {
            writes_without(writes.take(k), name).push(writes[k])
        },
{
    assert(writes.take(k + 1).drop_last() =~= writes.take(k));
}

proof fn lemma_names_without_step(names: Seq<Seq<char>>, name: Seq<char>, k: int)
    requires
        0 <= k < names.len(),
    ensures
        names_without(names.take(k + 1), name) == if names[k] == name {
            names_without(names.take(k), name)
        } else {
            names_without(names.take(k), name).push(names[k])
        },
{
    assert(names.take(k + 1).drop_last() =~= names.take(k));
}

/// Nothing in `writes_without(writes, name)` is a write to `name`.
proof fn lemma_no_write_left(writes: Seq<(Seq<char>, Seq<u8>)>, name: Seq<char>)
    ensures
        last_write(writes_without(writes, name), name) is None,
    decreases writes.len(),
{
    if writes.len() > 0 {
        lemma_no_write_left(writes.drop_last(), name);
        let rest = writes_without(writes.drop_last(), name);
        assert(rest.push(writes.last()).drop_last() =~= rest);
    }
}

/// Dropping the writes to `name` leaves the last write to every other blob as it was.
proof fn lemma_other_writes_kept(writes: Seq<(Seq<char>, Seq<u8>)>, name: Seq<char>, other: Seq<char>)
    requires
        other != name,
    ensures
        last_write(writes_without(writes, name), other) == last_write(writes, other),
    decreases writes.len(),
{
    if writes.len() > 0 {
        lemma_other_writes_kept(writes.drop_last(), name, other);
        let rest = writes_without(writes.drop_last(), name);
        assert(rest.push(writes.last()).drop_last() =~= rest);
    }
}

/// `names_without(names, name)` holds exactly the names other than `name`.
proof fn lemma_names_without_contains(names: Seq<Seq<char>>, name: Seq<char>, other: Seq<char>)
    ensures
        names_without(names, name).contains(other) == (other != name && names.contains(other)),
    decreases names.len(),
{
    if names.len() > 0 {
        let rest = names.drop_last();
        lemma_names_without_contains(rest, name, other);
        assert(names =~= rest.push(names.last()));
        if names.contains(other) && other != names.last() {
            let i = choose|i: int| 0 <= i < names.len() && names[i] == other;
            assert(rest[i] == other);
        }
        if rest.contains(other) {
            let i = choose|i: int| 0 <= i < rest.len() && rest[i] == other;
            assert(names[i] == other);
        }
        let dropped = names_without(rest, name);
        if names.last() != name {
            assert(dropped.push(names.last()).last() == names.last());
            if dropped.push(names.last()).contains(other) && other != names.last() {
                let i = choose|i: int| 0 <= i < dropped.len() + 1 && dropped.push(names.last())[i] == other;
                assert(dropped[i] == other);
            }
            if dropped.contains(other) {
                let i = choose|i: int| 0 <= i < dropped.len() && dropped[i] == other;
                assert(dropped.push(names.last())[i] == other);
            }
        }
    }
}

impl UpdateBatch {
    /// The buffered writes, as names and bytes.
    pub open spec fn writes(&self) -> Seq<(Seq<char>, Seq<u8>)> {
        writes_view(self.writes@)
    }

    /// The buffered deletes, as names.
    pub open spec fn deletes(&self) -> Seq<Seq<char>> {
        names_view(self.deletes@)
    }

    /// An update of the container at `container_root` that will record `display_name`, with
    /// nothing buffered.
    pub fn new(container_root: String, display_name: String) -> (batch: Self)
        ensures
            batch.container_root == container_root,
            batch.display_name == display_name,
            batch.writes().len() == 0,
            batch.deletes().len() == 0,
    {
        UpdateBatch { container_root, display_name, writes: Vec::new(), deletes: Vec::new() }
    }

    /// Drops every buffered write to `name`.
    fn drop_writes_to(&mut self, name: &String)
        ensures
            final(self).writes() == writes_without(old(self).writes(), name@),
            final(self).deletes() == old(self).deletes(),
            final(self).container_root == old(self).container_root,
            final(self).display_name == old(self).display_name,
    {
        let ghost all = self.writes();
        let mut rest: Vec<(String, Vec<u8>)> = Vec::new();
        std::mem::swap(&mut rest, &mut self.writes);
        let mut kept: Vec<(String, Vec<u8>)> = Vec::new();
        let ghost total = rest@.len();
        let mut k: usize = 0;
        proof {
            assert(total == rest.len());
            assert(all.take(0) =~= Seq::<(Seq<char>, Seq<u8>)>::empty());
            assert(writes_view(kept@) =~= Seq::<(Seq<char>, Seq<u8>)>::empty());
        }
        while rest.len() > 0
            invariant
                k + rest@.len() == total,
                total == all.len(),
                total <= usize::MAX,
                forall|j: int| 0 <= j < rest@.len() ==> write_view(#[trigger] rest@[j]) == all[k + j],
                writes_view(kept@) == writes_without(all.take(k as int), name@),
                self.writes@.len() == 0,
                self.deletes() == old(self).deletes(),
                self.container_root == old(self).container_root,
                self.display_name == old(self).display_name,
            decreases rest@.len(),
        {
            let ghost before = rest@;
            let entry = rest.remove(0);
            proof {
                assert(write_view(entry) == all[k as int]);
                assert forall|j: int| 0 <= j < rest@.len() implies write_view(#[trigger] rest@[j])
                    == all[k + 1 + j] by {
                    assert(rest@[j] == before[j + 1]);
                }
                lemma_writes_without_step(all, name@, k as int);
            }
            if entry.0 != *name {
                let ghost kept_before = kept@;
                kept.push(entry);
                proof {
                    assert(writes_view(kept@) =~= writes_view(kept_before).push(all[k as int]));
                }
            }
            k = k + 1;
        }
        proof {
            assert(all.take(k as int) =~= all);
        }
        self.writes = kept;
    }

    /// Drops every buffered delete of `name`.
    fn drop_deletes_of(&mut self, name: &String)
        ensures
            final(self).deletes() == names_without(old(self).deletes(), name@),
            final(self).writes() == old(self).writes(),
            final(self).container_root == old(self).container_root,
            final(self).display_name == old(self).display_name,
    {
        let ghost all = self.deletes();
        let mut rest: Vec<String> = Vec::new();
        std::mem::swap(&mut rest, &mut self.deletes);
        let mut kept: Vec<String> = Vec::new();
        let ghost total = rest@.len();
        let mut k: usize = 0;
        proof {
            assert(total == rest.len());
            assert(all.take(0) =~= Seq::<Seq<char>>::empty());
            assert(names_view(kept@) =~= Seq::<Seq<char>>::empty());
        }
        while rest.len() > 0
            invariant
                k + rest@.len() == total,
                total == all.len(),
                total <= usize::MAX,
                forall|j: int| 0 <= j < rest@.len() ==> (#[trigger] rest@[j])@ == all[k + j],
                names_view(kept@) == names_without(all.take(k as int), name@),
                self.deletes@.len() == 0,
                self.writes() == old(self).writes(),
                self.container_root == old(self).container_root,
                self.display_name == old(self).display_name,
            decreases rest@.len(),
        {
            let ghost before = rest@;
            let entry = rest.remove(0);
            proof {
                assert(entry@ == all[k as int]);
                assert forall|j: int| 0 <= j < rest@.len() implies (#[trigger] rest@[j])@ == all[k + 1
                    + j] by {
                    assert(rest@[j] == before[j + 1]);
                }
                lemma_names_without_step(all, name@, k as int);
            }
            if entry != *name {
                let ghost kept_before = kept@;
                kept.push(entry);
                proof {
                    assert(names_view(kept@) =~= names_view(kept_before).push(all[k as int]));
                }
            }
            k = k + 1;
        }
        proof {
            assert(all.take(k as int) =~= all);
        }
        self.deletes = kept;
    }

    /// `XGameSaveSubmitBlobWrite`: buffers `bytes` as the blob `name`, replacing any earlier
    /// write or delete of it.
    pub fn write(&mut self, name: String, bytes: Vec<u8>)
        ensures
            final(self).writes() == writes_without(old(self).writes(), name@).push((name@, bytes@)),
            final(self).deletes() == names_without(old(self).deletes(), name@),
            final(self).container_root == old(self).container_root,
            final(self).display_name == old(self).display_name,
    {
        self.drop_deletes_of(&name);
        self.drop_writes_to(&name);
        let ghost before = self.writes@;
        let ghost entry = (name@, bytes@);
        self.writes.push((name, bytes));
        proof {
            assert(writes_view(self.writes@) =~= writes_view(before).push(entry));
        }
    }

    /// `XGameSaveSubmitBlobDelete`: buffers the deletion of `name`, dropping any earlier write
    /// of it.
    pub fn delete(&mut self, name: String)
        ensures
            final(self).writes() == writes_without(old(self).writes(), name@),
            final(self).deletes() == old(self).deletes().push(name@),
            final(self).container_root == old(self).container_root,
            final(self).display_name == old(self).display_name,
    {
        self.drop_writes_to(&name);
        let ghost before = self.deletes@;
        let ghost added = name@;
        self.deletes.push(name);
        proof {
            assert(names_view(self.deletes@) =~= names_view(before).push(added));
        }
    }

    /// Forgets what was buffered, once a submission has landed on disk.
    pub fn clear(&mut self)
        ensures
            final(self).writes().len() == 0,
            final(self).deletes().len() == 0,
            final(self).container_root == old(self).container_root,
            final(self).display_name == old(self).display_name,
    {
        self.writes = Vec::new();
        self.deletes = Vec::new();
    }
}

/// The last buffered operation on a blob decides what submission does to it: a write leaves
/// it written with exactly those bytes, whatever was buffered before.
pub proof fn lemma_write_then_submit_writes(
    writes: Seq<(Seq<char>, Seq<u8>)>,
    deletes: Seq<Seq<char>>,
    name: Seq<char>,
    bytes: Seq<u8>,
)
    ensures
        blob_effect(writes_without(writes, name).push((name, bytes)), names_without(deletes, name), name)
            == BlobEffect::Written(bytes),
{
    lemma_names_without_contains(deletes, name, name);
}

/// A delete leaves the blob deleted, whatever was buffered before.
pub proof fn lemma_delete_then_submit_deletes(
    writes: Seq<(Seq<char>, Seq<u8>)>,
    deletes: Seq<Seq<char>>,
    name: Seq<char>,
)
    ensures
        blob_effect(writes_without(writes, name), deletes.push(name), name) == BlobEffect::Deleted,
{
    assert(deletes.push(name)[deletes.len() as int] == name);
}

/// Buffering a write or a delete of one blob changes nothing submission does to any other.
pub proof fn lemma_other_blobs_unaffected(
    writes: Seq<(Seq<char>, Seq<u8>)>,
    deletes: Seq<Seq<char>>,
    name: Seq<char>,
    bytes: Seq<u8>,
    other: Seq<char>,
)
    requires
        other != name,
    ensures
        blob_effect(writes_without(writes, name).push((name, bytes)), names_without(deletes, name), other)
            == blob_effect(writes, deletes, other),
        blob_effect(writes_without(writes, name), deletes.push(name), other) == blob_effect(
            writes,
            deletes,
            other,
        ),
{
    lemma_other_writes_kept(writes, name, other);
    lemma_names_without_contains(deletes, name, other);
    let kept = writes_without(writes, name);
    assert(kept.push((name, bytes)).drop_last() =~= kept);
    assert(deletes.push(name).contains(other) == deletes.contains(other)) by {
        if deletes.push(name).contains(other) {
            let i = choose|i: int| 0 <= i < deletes.len() + 1 && deletes.push(name)[i] == other;
            assert(deletes[i] == other);
        }
        if deletes.contains(other) {
            let i = choose|i: int| 0 <= i < deletes.len() && deletes[i] == other;
            assert(deletes.push(name)[i] == other);
        }
    }
}

/// The placeholder save budget: 1 GiB.
pub const PLACEHOLDER_QUOTA_BYTES: i64 = 1073741824i64;

/// Rust's `as i64` on a `u64`.
pub open spec fn u64_as_i64(value: u64) -> int {
    if value < 0x8000_0000_0000_0000 {
        value as int
    } else {
        value - 0x1_0000_0000_0000_0000
    }
}

/// The remaining quota with `used` bytes on disk: the budget minus `used` (read `as i64`),
/// saturating at the `i64` bounds, and never below zero.
pub open spec fn quota_left(used: u64) -> int {
    let left = PLACEHOLDER_QUOTA_BYTES - u64_as_i64(used);
    let saturated = if left > i64::MAX {
        i64::MAX as int
    } else {
        left
    };
    if saturated < 0 {
        0
    } else {
        saturated
    }
}

/// How much of the save budget is left with `used` bytes on disk.
pub fn remaining_quota(used: u64) -> (left: i64)
    ensures
        left == quota_left(used),
{
    let signed: i64 = if used < 0x8000_0000_0000_0000u64 {
        used as i64
    } else {
        let magnitude: u64 = (0xffff_ffff_ffff_ffffu64 - used) + 1;
        if magnitude == 0x8000_0000_0000_0000u64 {
            i64::MIN
        } else {
            -(magnitude as i64)
        }
    };
    let difference: i128 = PLACEHOLDER_QUOTA_BYTES as i128 - signed as i128;
    if difference < 0 {
        0
    } else if difference > i64::MAX as i128 {
        i64::MAX
    } else {
        difference as i64
    }
}

/// The quota only shrinks as more is stored: for two usages that both read as non-negative
/// `i64`s, the larger one leaves no more quota than the smaller.
pub proof fn lemma_quota_shrinks_as_usage_grows(smaller: u64, larger: u64)
    requires
        smaller <= larger,
        larger < 0x8000_0000_0000_0000,
    ensures
        quota_left(larger) <= quota_left(smaller),
        quota_left(smaller) <= PLACEHOLDER_QUOTA_BYTES,
        larger <= PLACEHOLDER_QUOTA_BYTES ==> quota_left(larger) == PLACEHOLDER_QUOTA_BYTES - larger,
{
}

/// The largest of `values`, or `None` for none.
pub open spec fn seq_max(values: Seq<u64>) -> Option<u64>
    decreases values.len(),
{
    if values.len() == 0 {
        None
    } else {
        match seq_max(values.drop_last()) {
            None => Some(values.last()),
            Some(m) => Some(if m < values.last() {
                values.last()
            } else {
                m
            }),
        }
    }
}

/// The latest of a list of times: nothing for an empty list; otherwise one of the times in
/// the list, and no time in the list is later.
pub proof fn lemma_seq_max_is_the_latest(values: Seq<u64>)
    ensures
        values.len() == 0 <==> seq_max(values) is None,
        seq_max(values) matches Some(m) ==> exists|i: int| 0 <= i < values.len() && #[trigger] values[i] == m,
        seq_max(values) matches Some(m) ==> forall|j: int| 0 <= j < values.len() ==> #[trigger] values[j] <= m,
    decreases values.len(),
{
    if values.len() > 0 {
        let rest = values.drop_last();
        lemma_seq_max_is_the_latest(rest);
        let last = values.len() - 1;
        assert(values[last] == values.last());
        match seq_max(rest) {
            None => {
                assert forall|j: int| 0 <= j < values.len() implies #[trigger] values[j] <= values.last() by {
                    assert(j == last);
                }
            },
            Some(r) => {
                let k = choose|k: int| 0 <= k < rest.len() && #[trigger] rest[k] == r;
                assert(values[k] == rest[k]);
                assert forall|j: int| 0 <= j < values.len() implies #[trigger] values[j] <= seq_max(values)->0 by {
                    if j < last {
                        assert(values[j] == rest[j]);
                    }
                }
            },
        }
    }
}

/// A container's last-modified time: the latest of its blobs' modification times (seconds
/// since the Unix epoch, for those after it), read `as i64`; `0` when there is none.
pub fn container_last_modified(seconds: &Vec<u64>) -> (time: i64)
    ensures
        time == match seq_max(seconds@) {
            Some(m) => u64_as_i64(m),
            None => 0,
        },
        seconds@.len() == 0 ==> time == 0,
        seconds@.len() > 0 ==> exists|i: int|
            0 <= i < seconds@.len() && time == u64_as_i64(#[trigger] seconds@[i]) && forall|j: int|
                0 <= j < seconds@.len() ==> #[trigger] seconds@[j] <= seconds@[i],
{
    proof {
        lemma_seq_max_is_the_latest(seconds@);
    }
    let mut latest: Option<u64> = None;
    let mut i: usize = 0;
    while i < seconds.len()
        invariant
            0 <= i <= seconds@.len(),
            latest == seq_max(seconds@.take(i as int)),
        decreases seconds@.len() - i,
    {
        proof {
            assert(seconds@.take(i + 1).drop_last() =~= seconds@.take(i as int));
        }
        let s = seconds[i];
        latest = match latest {
            None => Some(s),
            Some(m) => Some(if m < s { s } else { m }),
        };
        i = i + 1;
    }
    proof {
        assert(seconds@.take(seconds@.len() as int) =~= seconds@);
    }
    match latest {
        None => 0,
        Some(m) => {
            if m < 0x8000_0000_0000_0000u64 {
                m as i64
            } else {
                let magnitude: u64 = (0xffff_ffff_ffff_ffffu64 - m) + 1;
                if magnitude == 0x8000_0000_0000_0000u64 {
                    i64::MIN
                } else {
                    -(magnitude as i64)
                }
            }
        },
    }
}

/// Whether a file of a container is listed as a blob under `prefix`: every file but the
/// display-name sidecar, and only those whose name starts with the prefix when one is given.
pub open spec fn listed_blob(name: Seq<char>, prefix: Option<Seq<char>>) -> bool {
    &&& name != META_FILE@
    &&& match prefix {
        Some(p) => p.len() <= name.len() && name.subrange(0, p.len() as int) == p,
        None => true,
    }
}

/// Whether the container file `name` is listed as a blob under `prefix`.
pub fn is_listed_blob(name: &str, prefix: Option<&str>) -> (listed: bool)
    ensures
        listed == listed_blob(
            name@,
            match prefix {
                Some(p) => Some(p@),
                None => None,
            },
        ),
{
    if String::from_str(name) == String::from_str(META_FILE) {
        return false;
    }
    match prefix {
        None => true,
        Some(p) => {
            let chars = chars_of(name);
            let pattern = chars_of(p);
            matches_at(&chars, 0, pattern.as_slice())
        },
    }
}

/// Whether a container directory named `name` is enumerated under `prefix`.
pub fn is_listed_container(name: &str, prefix: Option<&str>) -> (listed: bool)
    ensures
        listed == match prefix {
            Some(p) => p@.len() <= name@.len() && name@.subrange(0, p@.len() as int) == p@,
            None => true,
        },
{
    match prefix {
        None => true,
        Some(p) => {
            let chars = chars_of(name);
            let pattern = chars_of(p);
            matches_at(&chars, 0, pattern.as_slice())
        },
    }
}

/// Who a provider belongs to: the user's id and the title's configuration id.
#[derive(Debug, PartialEq, Eq)]
pub struct ProviderScope {
    pub user_id: u64,
    pub configuration_id: String,
}

/// `XGameSaveInitializeProvider`'s argument check: a missing configuration id, then a
/// missing user, is `E_INVALIDARG`.
pub fn initialize_provider(user_id: Option<u64>, configuration_id: Option<String>) -> (scope: Result<
    ProviderScope,
    i32,
>)
    ensures
        configuration_id is None ==> scope == Err::<ProviderScope, i32>(E_INVALIDARG),
        configuration_id is Some && user_id is None ==> scope == Err::<ProviderScope, i32>(
            E_INVALIDARG,
        ),
        configuration_id is Some && user_id is Some ==> (scope matches Ok(s) && s.user_id
            == user_id->0 && s.configuration_id == configuration_id->0),
{
    let configuration_id = match configuration_id {
        Some(id) => id,
        None => {
            return Err(E_INVALIDARG);
        },
    };
    let user_id = match user_id {
        Some(id) => id,
        None => {
            return Err(E_INVALIDARG);
        },
    };
    Ok(ProviderScope { user_id, configuration_id })
}

/// The size of the path buffer a folder result is carried in, terminator included.
pub const PATH_PAYLOAD_CAPACITY: usize = 260;

/// A path result in a fixed buffer: its byte length and the bytes, zero after them.
pub struct PathPayload {
    pub len: usize,
    pub bytes: [u8; 260],
}

impl PathPayload {
    /// Holds `path`, which has to leave room for its terminator: a longer path is
    /// `E_NOT_SUFFICIENT_BUFFER`.
    pub fn new(path: &str) -> (payload: Result<Self, i32>)
        ensures
            vstd::utf8::encode_utf8(path@).len() >= 260 ==> payload == Err::<Self, i32>(
                E_NOT_SUFFICIENT_BUFFER,
            ),
            vstd::utf8::encode_utf8(path@).len() < 260 ==> (payload matches Ok(p) && p.len
                == vstd::utf8::encode_utf8(path@).len() && p.bytes@.subrange(0, p.len as int)
                == vstd::utf8::encode_utf8(path@) && (forall|i: int|
                p.len <= i < 260 ==> #[trigger] p.bytes@[i] == 0u8)),
    {
        let bytes = path.as_bytes();
        if bytes.len() >= PATH_PAYLOAD_CAPACITY {
            return Err(E_NOT_SUFFICIENT_BUFFER);
        }
        let mut buffer = [0u8; 260];
        let ghost zeros = buffer@;
        write_fixed_cstr(&mut buffer, bytes);
        proof {
            assert(bytes@.subrange(0, bytes@.len() as int) =~= bytes@);
            assert forall|i: int| bytes@.len() <= i < 260 implies #[trigger] buffer@[i] == 0u8 by {
                let start: int = bytes@.len() + 1int;
                if i >= start {
                    assert(buffer@.subrange(start, 260)[i - start] == zeros.subrange(start, 260)[i
                        - start]);
                }
            }
        }
        Ok(PathPayload { len: bytes.len(), bytes: buffer })
    }

    /// `XGameSaveFilesGetFolderWithUiResult` once the payload is in hand: the terminated path,
    /// when `folder_size` holds it.
    pub fn folder_result(&self, folder_size: usize) -> (copied: Result<Vec<u8>, i32>)
        requires
            self.len < 260,
        ensures
            folder_size < self.len + 1 ==> copied == Err::<Vec<u8>, i32>(E_NOT_SUFFICIENT_BUFFER),
            folder_size >= self.len + 1 ==> (copied matches Ok(bytes) && bytes@ == self.bytes@.subrange(
                0,
                self.len as int,
            ).push(0u8)),
    {
        if folder_size < self.len + 1 {
            return Err(E_NOT_SUFFICIENT_BUFFER);
        }
        let mut bytes: Vec<u8> = Vec::new();
        let mut i: usize = 0;
        while i < self.len
            invariant
                self.len < 260,
                0 <= i <= self.len,
                bytes@ == self.bytes@.subrange(0, i as int),
            decreases self.len - i,
        {
            bytes.push(self.bytes[i]);
            proof {
                assert(self.bytes@.subrange(0, i + 1) =~= self.bytes@.subrange(0, i as int).push(
                    self.bytes@[i as int],
                ));
            }
            i = i + 1;
        }
        bytes.push(0u8);
        Ok(bytes)
    }
}

/// What `XGameSaveReadBlobData` checks before it reads anything, in order: the count pointer
/// (`E_POINTER`), the container (`E_INVALIDARG`), the names and their count (`E_INVALIDARG`),
/// then the room for the results (`E_NOT_SUFFICIENT_BUFFER`). On success, how many blobs to
/// read.
pub fn read_blob_data_check(
    has_count: bool,
    container_live: bool,
    has_names: bool,
    requested: u32,
    blobs_size: usize,
    has_data: bool,
) -> (checked: Result<u32, i32>)
    ensures
        checked == if !has_count {
            Err::<u32, i32>(E_POINTER)
        } else if !container_live {
            Err(E_INVALIDARG)
        } else if !has_names || requested == 0 {
            Err(E_INVALIDARG)
        } else if blobs_size < requested || !has_data {
            Err(E_NOT_SUFFICIENT_BUFFER)
        } else {
            Ok(requested)
        },
{
    if !has_count {
        Err(E_POINTER)
    } else if !container_live {
        Err(E_INVALIDARG)
    } else if !has_names || requested == 0 {
        Err(E_INVALIDARG)
    } else if (blobs_size as u64) < (requested as u64) || !has_data {
        Err(E_NOT_SUFFICIENT_BUFFER)
    } else {
        Ok(requested)
    }
}

/// What became of one requested blob in `XGameSaveReadBlobData`'s read loop.
#[derive(Clone, Copy, Debug, PartialEq, Eq, Structural)]
pub enum BlobRead {
    /// The name pointer held no readable text.
    NoName,
    /// The blob's file could not be read.
    Unreadable,
    /// The blob was read and handed to the caller.
    Read,
}

/// `XGameSaveReadBlobData` reads the requested blobs in order and stops at the first that
/// fails: an unreadable name is `E_INVALIDARG`, an unreadable file `E_FAIL`. Blobs read before
/// the failure stay handed out. `None` means read on.
pub fn blob_read_failure(read: BlobRead) -> (failure: Option<i32>)
    ensures
        read == BlobRead::NoName ==> failure == Some(E_INVALIDARG),
        read == BlobRead::Unreadable ==> failure == Some(E_FAIL),
        read == BlobRead::Read ==> failure is None,
{
    match read {
        BlobRead::NoName => Some(E_INVALIDARG),
        BlobRead::Unreadable => Some(E_FAIL),
        BlobRead::Read => None,
    }
}

/// What `XGameSaveReadBlobDataResult` checks once the asynchronous read's names are in hand:
/// the container (`E_INVALIDARG`), the room for the results (`E_NOT_SUFFICIENT_BUFFER`), and
/// that every name was readable (`E_INVALIDARG` at the first that was not). On success, the
/// names to read, in order.
pub fn read_blob_names_check(
    container_live: bool,
    names: &Vec<Option<String>>,
    blobs_size: usize,
    has_data: bool,
) -> (checked: Result<usize, i32>)
    ensures
        !container_live ==> checked == Err::<usize, i32>(E_INVALIDARG),
        container_live && (blobs_size < names@.len() || !has_data) ==> checked == Err::<usize, i32>(
            E_NOT_SUFFICIENT_BUFFER,
        ),
        container_live && blobs_size >= names@.len() && has_data ==> checked == (if exists|i: int|
            0 <= i < names@.len() && #[trigger] names@[i] is None {
            Err::<usize, i32>(E_INVALIDARG)
        } else {
            Ok(names@.len() as usize)
        }),
{
    if !container_live {
        return Err(E_INVALIDARG);
    }
    if blobs_size < names.len() || !has_data {
        return Err(E_NOT_SUFFICIENT_BUFFER);
    }
    let mut i: usize = 0;
    while i < names.len()
        invariant
            0 <= i <= names@.len(),
            blobs_size >= names@.len(),
            has_data,
            forall|j: int| 0 <= j < i ==> #[trigger] names@[j] is Some,
        decreases names@.len() - i,
    {
        if names[i].is_none() {
            return Err(E_INVALIDARG);
        }
        i = i + 1;
    }
    Ok(names.len())
}

/// `IXGameSaveImpl`, the save store interface: a marker naming the interface the class
/// answers to; its methods are the class's own (`XGameSaveObject`).
pub trait IXGameSaveImpl {}

/// `IXGameSaveImpl2`: a marker for the second interface id the class answers to. In the
/// runtime's ABI it adds the save-folder calls, which stand on `XGameSaveObject` here.
pub trait IXGameSaveImpl2: IXGameSaveImpl {}

/// `IXGameSaveImpl3`: a marker for the third interface id the class answers to.
pub trait IXGameSaveImpl3: IXGameSaveImpl2 {}

impl IXGameSaveImpl for XGameSaveObject {}

impl IXGameSaveImpl2 for XGameSaveObject {}

impl IXGameSaveImpl3 for XGameSaveObject {}

/// `XGameSave`, the save store class: the live providers (each a provider directory), the
/// live containers (each a container directory) and the pending updates.
pub struct XGameSaveObject {
    pub providers: HandleTable<String>,
    pub containers: HandleTable<String>,
    pub updates: HandleTable<UpdateBatch>,
}

impl XGameSaveObject {
    /// The tables are well formed.
    pub open spec fn wf(&self) -> bool {
        &&& self.providers.wf()
        &&& self.containers.wf()
        &&& self.updates.wf()
    }

    /// A store with nothing open.
    pub fn new() -> (store: Self)
        ensures
            store.wf(),
            store.providers@ == Map::<u64, String>::empty(),
            store.containers@ == Map::<u64, String>::empty(),
            store.updates@ == Map::<u64, UpdateBatch>::empty(),
    {
        XGameSaveObject {
            providers: HandleTable::new(),
            containers: HandleTable::new(),
            updates: HandleTable::new(),
        }
    }

    /// The directory of a live provider; `E_INVALIDARG` for any other handle.
    pub fn provider_root(&self, provider: u64) -> (root: Result<String, i32>)
        ensures
            handle_lookup(self.providers@, provider) matches Some(r) ==> root == Ok::<String, i32>(r),
            handle_lookup(self.providers@, provider) is None ==> root == Err::<String, i32>(E_INVALIDARG),
    {
        match self.providers.get(provider) {
            Some(root) => Ok(root),
            None => Err(E_INVALIDARG),
        }
    }

    /// `XGameSaveGetRemainingQuota` once the provider's directory has been measured: the
    /// quota left with `used` bytes on disk; `E_INVALIDARG` for a handle that is not live.
    pub fn get_remaining_quota(&self, provider: u64, used: u64) -> (quota: Result<i64, i32>)
        ensures
            handle_lookup(self.providers@, provider) is Some ==> quota == Ok::<i64, i32>(
                quota_left(used) as i64,
            ),
            handle_lookup(self.providers@, provider) is None ==> quota == Err::<i64, i32>(E_INVALIDARG),
    {
        if self.providers.contains(provider) {
            Ok(remaining_quota(used))
        } else {
            Err(E_INVALIDARG)
        }
    }

    /// The directory of a live container; `E_INVALIDARG` for any other handle.
    pub fn container_root(&self, container: u64) -> (root: Result<String, i32>)
        ensures
            handle_lookup(self.containers@, container) matches Some(r) ==> root == Ok::<String, i32>(r),
            handle_lookup(self.containers@, container) is None ==> root == Err::<String, i32>(E_INVALIDARG),
    {
        match self.containers.get(container) {
            Some(root) => Ok(root),
            None => Err(E_INVALIDARG),
        }
    }

    /// `XGameSaveCreateUpdate`: a new, empty update of a live container that will record
    /// `display_name` (empty when none was passed). `E_POINTER` without an out-pointer, then
    /// `E_INVALIDARG` for a container that is not live.
    pub fn create_update(&mut self, container: u64, display_name: Option<String>, has_out: bool) -> (handle:
        Result<u64, i32>)
        requires
            old(self).wf(),
            old(self).updates.next_id() < u64::MAX,
        ensures
            final(self).wf(),
            final(self).providers == old(self).providers,
            final(self).containers == old(self).containers,
            !has_out ==> handle == Err::<u64, i32>(E_POINTER) && final(self).updates == old(self).updates,
            has_out && handle_lookup(old(self).containers@, container) is None ==> handle == Err::<
                u64,
                i32,
            >(E_INVALIDARG) && final(self).updates == old(self).updates,
            has_out && handle_lookup(old(self).containers@, container) is Some ==> (handle matches Ok(h)
                && h == old(self).updates.next_id() && final(self).updates@.contains_key(h)
                && final(self).updates@[h].container_root == handle_lookup(
                old(self).containers@,
                container,
            )->0 && final(self).updates@[h].display_name@ == match display_name {
                Some(n) => n@,
                None => Seq::<char>::empty(),
            } && final(self).updates@[h].writes().len() == 0 && final(self).updates@[h].deletes().len()
                == 0 && final(self).updates@ == old(self).updates@.insert(h, final(self).updates@[h])),
    {
        if !has_out {
            return Err(E_POINTER);
        }
        let root = match self.containers.get(container) {
            Some(root) => root,
            None => {
                return Err(E_INVALIDARG);
            },
        };
        let name = match display_name {
            Some(name) => name,
            None => String::new(),
        };
        let handle = self.updates.create(UpdateBatch::new(root, name));
        Ok(handle)
    }

    /// `XGameSaveSubmitBlobWrite`: buffers a write in a live update. `E_INVALIDARG` for an
    /// update that is not live or a name that could not be read; `E_POINTER` for missing
    /// data (`None`: a null pointer with a nonzero count).
    pub fn submit_blob_write(&mut self, update: u64, name: Option<String>, data: Option<Vec<u8>>) -> (hr: i32)
        requires
            old(self).wf(),
        ensures
            final(self).wf(),
            final(self).providers == old(self).providers,
            final(self).containers == old(self).containers,
            handle_lookup(old(self).updates@, update) is None ==> hr == E_INVALIDARG
                && final(self).updates == old(self).updates,
            handle_lookup(old(self).updates@, update) is Some && name is None ==> hr == E_INVALIDARG
                && final(self).updates == old(self).updates,
            handle_lookup(old(self).updates@, update) is Some && name is Some && data is None ==> hr
                == E_POINTER && final(self).updates == old(self).updates,
            handle_lookup(old(self).updates@, update) is Some && name is Some && data is Some ==> {
                let batch = old(self).updates@[update];
                let n = name->0;
                let d = data->0;
                &&& hr == S_OK
                &&& final(self).updates@.dom() == old(self).updates@.dom()
                &&& final(self).updates.next_id() == old(self).updates.next_id()
                &&& final(self).updates@[update].writes() == writes_without(batch.writes(), n@).push(
                    (n@, d@),
                )
                &&& final(self).updates@[update].deletes() == names_without(batch.deletes(), n@)
                &&& final(self).updates@[update].container_root == batch.container_root
                &&& final(self).updates@[update].display_name == batch.display_name
                &&& forall|h: u64|
                    h != update && #[trigger] old(self).updates@.contains_key(h)
                        ==> final(self).updates@[h] == old(self).updates@[h]
            },
    {
        if !self.updates.contains(update) {
            return E_INVALIDARG;
        }
        let name = match name {
            Some(name) => name,
            None => {
                return E_INVALIDARG;
            },
        };
        let data = match data {
            Some(data) => data,
            None => {
                return E_POINTER;
            },
        };
        let mut batch = self.updates.take(update);
        batch.write(name, data);
        self.updates.put_back(update, batch);
        S_OK
    }

    /// `XGameSaveSubmitBlobDelete`: buffers a delete in a live update. `E_INVALIDARG` for an
    /// update that is not live or a name that could not be read.
    pub fn submit_blob_delete(&mut self, update: u64, name: Option<String>) -> (hr: i32)
        requires
            old(self).wf(),
        ensures
            final(self).wf(),
            final(self).providers == old(self).providers,
            final(self).containers == old(self).containers,
            handle_lookup(old(self).updates@, update) is None ==> hr == E_INVALIDARG
                && final(self).updates == old(self).updates,
            handle_lookup(old(self).updates@, update) is Some && name is None ==> hr == E_INVALIDARG
                && final(self).updates == old(self).updates,
            handle_lookup(old(self).updates@, update) is Some && name is Some ==> {
                let batch = old(self).updates@[update];
                let n = name->0;
                &&& hr == S_OK
                &&& final(self).updates@.dom() == old(self).updates@.dom()
                &&& final(self).updates.next_id() == old(self).updates.next_id()
                &&& final(self).updates@[update].writes() == writes_without(batch.writes(), n@)
                &&& final(self).updates@[update].deletes() == batch.deletes().push(n@)
                &&& final(self).updates@[update].container_root == batch.container_root
                &&& final(self).updates@[update].display_name == batch.display_name
                &&& forall|h: u64|
                    h != update && #[trigger] old(self).updates@.contains_key(h)
                        ==> final(self).updates@[h] == old(self).updates@[h]
            },
    {
        if !self.updates.contains(update) {
            return E_INVALIDARG;
        }
        let name = match name {
            Some(name) => name,
            None => {
                return E_INVALIDARG;
            },
        };
        let mut batch = self.updates.take(update);
        batch.delete(name);
        self.updates.put_back(update, batch);
        S_OK
    }
}

} // verus!
