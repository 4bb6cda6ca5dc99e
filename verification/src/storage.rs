//! `XPersistentLocalStorage` and `XPackage`: the title's persistent storage directory, its
//! space figures, the package mounts that resolve to directories under it, and the user's
//! locale.
use vstd::prelude::*;
use crate::handle_table::{HandleTable, handle_lookup};
use crate::hresult::{E_INVALIDARG, E_NOT_SUFFICIENT_BUFFER, E_POINTER, S_OK};

verus! {

/// How a path is copied into a caller buffer of `size` bytes: as many of its bytes as fit
/// before the last slot, then a terminator when there is any room at all.
pub open spec fn copied_path(bytes: Seq<u8>, size: usize) -> Seq<u8> {
    let room = if size == 0 {
        0
    } else {
        size - 1
    };
    let len = if bytes.len() < room {
        bytes.len() as int
    } else {
        room as int
    };
    if size == 0 {
        Seq::empty()
    } else {
        bytes.take(len).push(0u8)
    }
}

/// The count a path copy reports as used: the copied bytes plus one.
pub open spec fn copied_path_used(bytes: Seq<u8>, size: usize) -> int {
    let room = if size == 0 {
        0
    } else {
        size - 1
    };
    (if bytes.len() < room {
        bytes.len() as int
    } else {
        room as int
    }) + 1
}

/// What is written into the caller's buffer (from its start) and the used count.
pub struct PathCopy {
    pub written: Vec<u8>,
    pub used: usize,
}

/// Copies the path bytes `bytes` into a buffer of `size` bytes, as the path getters do.
pub fn copy_path(bytes: &[u8], size: usize) -> (copy: PathCopy)
    requires
        bytes@.len() < usize::MAX,
    ensures
        copy.written@ == copied_path(bytes@, size),
        copy.used == copied_path_used(bytes@, size),
{
    let room = if size == 0 {
        0
    } else {
        size - 1
    };
    let len = if bytes.len() < room {
        bytes.len()
    } else {
        room
    };
    let mut written: Vec<u8> = Vec::new();
    let mut i: usize = 0;
    while i < len
        invariant
            len <= bytes@.len(),
            0 <= i <= len,
            written@ == bytes@.take(i as int),
        decreases len - i,
    {
        written.push(bytes[i]);
        proof {
            assert(bytes@.take(i + 1) =~= bytes@.take(i as int).push(bytes@[i as int]));
        }
        i = i + 1;
    }
    if size != 0 {
        written.push(0u8);
    } else {
        proof {
            assert(written@ =~= Seq::<u8>::empty());
        }
    }
    PathCopy { written, used: len + 1 }
}

/// `XPersistentLocalStorageSpaceInfo`.
#[derive(Clone, Copy, Debug, PartialEq, Eq, Structural)]
pub struct XPersistentLocalStorageSpaceInfo {
    pub available_free_bytes: u64,
    pub total_free_bytes: u64,
    pub used_bytes: u64,
    pub total_bytes: u64,
}

/// The figures used when the title declares no persistent storage: 1 GiB, growable to 2.
pub const FALLBACK_TOTAL_BYTES: u64 = 1073741824u64;
pub const FALLBACK_GROWABLE_BYTES: u64 = 2147483648u64;

/// The space figures for a storage of `total` bytes growable to `growable`: half of it
/// counted as used, and what is left of the growable size as available.
pub open spec fn space_info_for(total: u64, growable: u64) -> XPersistentLocalStorageSpaceInfo {
    XPersistentLocalStorageSpaceInfo {
        available_free_bytes: if growable >= total / 2 {
            (growable - total / 2) as u64
        } else {
            0
        },
        total_free_bytes: growable,
        used_bytes: (total / 2) as u64,
        total_bytes: total,
    }
}

/// `XPersistentLocalStorage`, rooted at a directory.
pub struct XPersistentLocalStorage {
    pub tmp_path: String,
}

/// What mounting a package resolves to.
#[derive(Debug, PartialEq, Eq)]
pub enum MountTarget {
    /// The title's own storage root.
    Own,
    /// The directory `related/<store id>` under the storage root.
    Related(String),
}

impl XPersistentLocalStorage {
    /// `XPersistentLocalStorageGetPathSize`: the path's byte length plus its terminator.
    pub fn path_size(&self) -> (size: usize)
        requires
            vstd::utf8::encode_utf8(self.tmp_path@).len() < usize::MAX,
        ensures
            size == vstd::utf8::encode_utf8(self.tmp_path@).len() + 1,
    {
        self.tmp_path.as_str().len() + 1
    }

    /// `XPersistentLocalStorageGetPath` into a buffer of `size` bytes.
    pub fn path(&self, size: usize) -> (copy: PathCopy)
        requires
            vstd::utf8::encode_utf8(self.tmp_path@).len() < usize::MAX,
        ensures
            copy.written@ == copied_path(vstd::utf8::encode_utf8(self.tmp_path@), size),
            copy.used == copied_path_used(vstd::utf8::encode_utf8(self.tmp_path@), size),
    {
        copy_path(self.tmp_path.as_str().as_bytes(), size)
    }

    /// `XPersistentLocalStorageGetSpaceInfo`, given the declared `(total, growable)` sizes
    /// when the title declares them.
    pub fn space_info(&self, declared: Option<(u64, u64)>) -> (info: XPersistentLocalStorageSpaceInfo)
        ensures
            info == match declared {
                Some((total, growable)) => space_info_for(total, growable),
                None => space_info_for(FALLBACK_TOTAL_BYTES, FALLBACK_GROWABLE_BYTES),
            },
    {
        let (total, growable) = match declared {
            Some(sizes) => sizes,
            None => (FALLBACK_TOTAL_BYTES, FALLBACK_GROWABLE_BYTES),
        };
        let used = total / 2;
        XPersistentLocalStorageSpaceInfo {
            available_free_bytes: if growable >= used {
                growable - used
            } else {
                0
            },
            total_free_bytes: growable,
            used_bytes: used,
            total_bytes: total,
        }
    }

    /// `XPersistentLocalStorageMountForPackage`'s decision: `E_POINTER` for a missing
    /// identifier or out-pointer, `E_INVALIDARG` for an identifier that is not UTF-8; the
    /// title's own package mounts its own root; any other package mounts only when it
    /// resolves to a store id that the title declares as related.
    pub fn mount_target(
        &self,
        has_identifier: bool,
        has_out: bool,
        identifier_is_utf8: bool,
        is_self: bool,
        store_id: Option<String>,
        is_related: bool,
    ) -> (target: Result<MountTarget, i32>)
        ensures
            !has_identifier || !has_out ==> target == Err::<MountTarget, i32>(E_POINTER),
            has_identifier && has_out && !identifier_is_utf8 ==> target == Err::<MountTarget, i32>(
                E_INVALIDARG,
            ),
            has_identifier && has_out && identifier_is_utf8 && is_self ==> target == Ok::<
                MountTarget,
                i32,
            >(MountTarget::Own),
            has_identifier && has_out && identifier_is_utf8 && !is_self ==> target == match store_id {
                Some(id) => if is_related {
                    Ok::<MountTarget, i32>(MountTarget::Related(id))
                } else {
                    Err(E_INVALIDARG)
                },
                None => Err(E_INVALIDARG),
            },
    {
        if !has_identifier || !has_out {
            return Err(E_POINTER);
        }
        if !identifier_is_utf8 {
            return Err(E_INVALIDARG);
        }
        if is_self {
            return Ok(MountTarget::Own);
        }
        match store_id {
            Some(id) => {
                if is_related {
                    Ok(MountTarget::Related(id))
                } else {
                    Err(E_INVALIDARG)
                }
            },
            None => Err(E_INVALIDARG),
        }
    }
}

/// Whether a path's terminated byte length is a `usize`, as every `String`'s is (its length
/// being at most `isize::MAX`).
pub open spec fn path_fits(path: Seq<char>) -> bool {
    vstd::utf8::encode_utf8(path).len() < usize::MAX
}

/// `IXPackageImpl`, the package interface: a marker naming the interface the class answers
/// to; its methods are the class's own (`XPackageObject`).
pub trait IXPackageImpl {}

/// `IXPackageImpl2`: a marker for the second interface id the class answers to. In the
/// runtime's ABI it adds mounting with a UI, which this library does not hold.
pub trait IXPackageImpl2: IXPackageImpl {}

/// `IXPackageImpl3`: a marker for the class's default interface id.
pub trait IXPackageImpl3: IXPackageImpl2 {}

/// `XPackage`: the package mounts (each a directory), and the user's locale.
pub struct XPackageObject {
    mounts: HandleTable<String>,
}

impl IXPackageImpl for XPackageObject {}

impl IXPackageImpl2 for XPackageObject {}

impl IXPackageImpl3 for XPackageObject {}

impl XPackageObject {
    #[verifier::type_invariant]
    spec fn mounts_fit(&self) -> bool {
        &&& self.mounts.wf()
        &&& forall|h: u64| #[trigger] self.mounts@.contains_key(h) ==> path_fits(self.mounts@[h]@)
    }

    /// The live mounts and the directory each resolves to.
    pub closed spec fn mount_paths(&self) -> Map<u64, String> {
        self.mounts@
    }

    /// The handle the next mount gets.
    pub closed spec fn next_mount(&self) -> u64 {
        self.mounts.next_id()
    }

    /// No mounts.
    pub fn new() -> (package: Self)
        ensures
            package.mount_paths() == Map::<u64, String>::empty(),
            package.next_mount() == 1,
    {
        XPackageObject { mounts: HandleTable::new() }
    }

    /// Whether another mount can be handed out.
    pub fn can_mount(&self) -> (ok: bool)
        ensures
            ok == (self.next_mount() < u64::MAX),
    {
        self.mounts.next_handle() < u64::MAX
    }

    /// Records a mount of the directory `path` and returns its handle.
    pub fn mount(&mut self, path: String) -> (handle: u64)
        requires
            old(self).next_mount() < u64::MAX,
            path_fits(path@),
        ensures
            handle == old(self).next_mount(),
            handle != 0,
            !old(self).mount_paths().contains_key(handle),
            final(self).mount_paths() == old(self).mount_paths().insert(handle, path),
            final(self).next_mount() == old(self).next_mount() + 1,
    {
        proof {
            use_type_invariant(&*self);
        }
        let mut mounts = HandleTable::new();
        std::mem::swap(&mut mounts, &mut self.mounts);
        let handle = mounts.create(path);
        self.mounts = mounts;
        handle
    }

    /// `XPackageCloseMountHandle`.
    pub fn close_mount(&mut self, mount: u64)
        ensures
            final(self).mount_paths() == old(self).mount_paths().remove(mount),
            final(self).next_mount() == old(self).next_mount(),
    {
        proof {
            use_type_invariant(&*self);
        }
        let mut mounts = HandleTable::new();
        std::mem::swap(&mut mounts, &mut self.mounts);
        mounts.close(mount);
        self.mounts = mounts;
    }

    /// `XPackageGetMountPathSize`: `E_INVALIDARG` for a mount that is not live, then
    /// `E_POINTER` without an out-pointer; else the path's terminated byte length.
    pub fn mount_path_size(&self, mount: u64, has_out: bool) -> (size: Result<usize, i32>)
        ensures
            handle_lookup(self.mount_paths(), mount) is None ==> size == Err::<usize, i32>(E_INVALIDARG),
            handle_lookup(self.mount_paths(), mount) is Some && !has_out ==> size == Err::<usize, i32>(
                E_POINTER,
            ),
            handle_lookup(self.mount_paths(), mount) is Some && has_out ==> (size matches Ok(n) && n
                == vstd::utf8::encode_utf8(handle_lookup(self.mount_paths(), mount)->0@).len() + 1),
    {
        proof {
            use_type_invariant(self);
        }
        let path = match self.mounts.get(mount) {
            Some(path) => path,
            None => {
                return Err(E_INVALIDARG);
            },
        };
        if !has_out {
            return Err(E_POINTER);
        }
        proof {
            assert(self.mounts@.contains_key(mount));
        }
        Ok(path.as_str().len() + 1)
    }

    /// `XPackageGetMountPath` into a buffer of `size` bytes: `E_INVALIDARG` for a mount that
    /// is not live, `E_POINTER` without a buffer; else the copy.
    pub fn mount_path(&self, mount: u64, size: usize, has_buffer: bool) -> (copy: Result<Vec<u8>, i32>)
        ensures
            handle_lookup(self.mount_paths(), mount) is None ==> copy == Err::<Vec<u8>, i32>(E_INVALIDARG),
            handle_lookup(self.mount_paths(), mount) is Some && !has_buffer ==> copy == Err::<Vec<u8>, i32>(
                E_POINTER,
            ),
            handle_lookup(self.mount_paths(), mount) is Some && has_buffer ==> (copy matches Ok(bytes)
                && bytes@ == copied_path(
                vstd::utf8::encode_utf8(handle_lookup(self.mount_paths(), mount)->0@),
                size,
            )),
    {
        proof {
            use_type_invariant(self);
        }
        let path = match self.mounts.get(mount) {
            Some(path) => path,
            None => {
                return Err(E_INVALIDARG);
            },
        };
        if !has_buffer {
            return Err(E_POINTER);
        }
        proof {
            assert(self.mounts@.contains_key(mount));
        }
        let copy = copy_path(path.as_str().as_bytes(), size);
        Ok(copy.written)
    }
}

/// The BCP-47 tag for a POSIX locale value: the part before the first `.` or `@`, with `_`
/// turned into `-`; `en-US` when that is empty, `C` or `POSIX`.
pub open spec fn locale_tag(raw: Seq<char>) -> Seq<char> {
    let end = base_end(raw);
    let tag = Seq::new(end as nat, |i: int| if raw[i] == '_' { '-' } else { raw[i] });
    if tag.len() == 0 || tag == "C"@ || tag == "POSIX"@ {
        "en-US"@
    } else {
        tag
    }
}

/// Where the base of a POSIX locale value ends: at its first `.` or `@`, or its end.
pub open spec fn base_end(raw: Seq<char>) -> int
    decreases raw.len(),
{
    if raw.len() == 0 {
        0
    } else if base_end(raw.drop_last()) < raw.len() - 1 {
        base_end(raw.drop_last())
    } else if raw.last() == '.' || raw.last() == '@' {
        raw.len() - 1
    } else {
        raw.len() as int
    }
}

/// The user's locale: the first of `LC_ALL`, `LC_MESSAGES` and `LANG` that is set (even if
/// empty), as a BCP-47 tag.
pub open spec fn user_locale_for(
    lc_all: Option<Seq<char>>,
    lc_messages: Option<Seq<char>>,
    lang: Option<Seq<char>>,
) -> Seq<char> {
    let raw = match lc_all {
        Some(v) => v,
        None => match lc_messages {
            Some(v) => v,
            None => match lang {
                Some(v) => v,
                None => Seq::empty(),
            },
        },
    };
    locale_tag(raw)
}

proof fn lemma_base_end_bounds(raw: Seq<char>)
    ensures
        0 <= base_end(raw) <= raw.len(),
        forall|i: int| 0 <= i < base_end(raw) ==> raw[i] != '.' && raw[i] != '@',
        base_end(raw) < raw.len() ==> raw[base_end(raw)] == '.' || raw[base_end(raw)] == '@',
    decreases raw.len(),
{
    if raw.len() > 0 {
        let rest = raw.drop_last();
        lemma_base_end_bounds(rest);
        assert forall|i: int| 0 <= i < base_end(raw) implies raw[i] != '.' && raw[i] != '@' by {
            if i < rest.len() {
                assert(rest[i] == raw[i]);
            }
        }
        if base_end(rest) < rest.len() {
            assert(rest[base_end(rest)] == raw[base_end(rest)]);
        }
    }
}

proof fn lemma_base_end_is_first_stop(raw: Seq<char>, k: int)
    requires
        0 <= k <= raw.len(),
        forall|i: int| 0 <= i < k ==> raw[i] != '.' && raw[i] != '@',
        k == raw.len() || raw[k] == '.' || raw[k] == '@',
    ensures
        base_end(raw) == k,
    decreases raw.len(),
{
    lemma_base_end_bounds(raw);
    if raw.len() > 0 {
        let rest = raw.drop_last();
        if k < raw.len() {
            if k < rest.len() {
                lemma_base_end_is_first_stop(rest, k);
            } else {
                lemma_base_end_bounds(rest);
                assert(forall|i: int| 0 <= i < rest.len() ==> rest[i] == raw[i]);
                if base_end(rest) < rest.len() {
                    assert(rest[base_end(rest)] == raw[base_end(rest)]);
                }
            }
        } else {
            lemma_base_end_bounds(rest);
            if base_end(rest) < rest.len() {
                assert(rest[base_end(rest)] == raw[base_end(rest)]);
            }
        }
    }
}

/// The user's locale tag from the three environment values (each `None` when unset).
pub fn user_locale(lc_all: Option<&str>, lc_messages: Option<&str>, lang: Option<&str>) -> (tag: String)
    ensures
        tag@ == user_locale_for(
            match lc_all {
                Some(v) => Some(v@),
                None => None,
            },
            match lc_messages {
                Some(v) => Some(v@),
                None => None,
            },
            match lang {
                Some(v) => Some(v@),
                None => None,
            },
        ),
{
    let raw: &str = match lc_all {
        Some(v) => v,
        None => match lc_messages {
            Some(v) => v,
            None => match lang {
                Some(v) => v,
                None => "",
            },
        },
    };
    proof {
        reveal_strlit("");
    }
    let chars = crate::text::chars_of(raw);
    let mut end: usize = 0;
    while end < chars.len() && chars[end] != '.' && chars[end] != '@'
        invariant
            0 <= end <= chars@.len(),
            forall|i: int| 0 <= i < end ==> chars@[i] != '.' && chars@[i] != '@',
        decreases chars@.len() - end,
    {
        end = end + 1;
    }
    proof {
        lemma_base_end_is_first_stop(chars@, end as int);
    }
    let mut tag = String::new();
    let mut i: usize = 0;
    let ghost want = Seq::new(end as nat, |j: int| if chars@[j] == '_' { '-' } else { chars@[j] });
    while i < end
        invariant
            0 <= i <= end <= chars@.len(),
            want == Seq::new(end as nat, |j: int| if chars@[j] == '_' { '-' } else { chars@[j] }),
            tag@ == want.take(i as int),
        decreases end - i,
    {
        let c = chars[i];
        crate::text::push_char(
            &mut tag,
            if c == '_' {
                '-'
            } else {
                c
            },
        );
        proof {
            assert(tag@ =~= want.take(i + 1));
        }
        i = i + 1;
    }
    proof {
        assert(want.take(end as int) =~= want);
    }
    if tag.as_str().is_empty() || tag == String::from_str("C") || tag == String::from_str("POSIX") {
        String::from_str("en-US")
    } else {
        tag
    }
}

/// `XPackageGetUserLocale` into a buffer of `size` bytes: `E_POINTER` without a buffer,
/// `E_NOT_SUFFICIENT_BUFFER` when the terminated tag does not fit; else its bytes.
pub fn user_locale_copy(tag: &String, size: usize, has_buffer: bool) -> (copy: Result<Vec<u8>, i32>)
    ensures
        !has_buffer ==> copy == Err::<Vec<u8>, i32>(E_POINTER),
        has_buffer && vstd::utf8::encode_utf8(tag@).len() + 1 > size ==> copy == Err::<Vec<u8>, i32>(
            E_NOT_SUFFICIENT_BUFFER,
        ),
        has_buffer && vstd::utf8::encode_utf8(tag@).len() + 1 <= size ==> (copy matches Ok(bytes)
            && bytes@ == vstd::utf8::encode_utf8(tag@).push(0u8)),
{
    if !has_buffer {
        return Err(E_POINTER);
    }
    let bytes = tag.as_str().as_bytes();
    if bytes.len() >= size {
        return Err(E_NOT_SUFFICIENT_BUFFER);
    }
    let copy = copy_path(bytes, size);
    proof {
        assert(bytes@.take(bytes@.len() as int) =~= bytes@);
    }
    Ok(copy.written)
}

} // verus!
