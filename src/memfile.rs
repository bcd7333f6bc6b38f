use vstd::prelude::*;
use std::path::PathBuf;
use crate::error::MemFileError;
use crate::layout::{NativeSizes, spec_data_offset, spec_decode_meta, spec_region_len, decode_meta, region_len, describes, lemma_meta_round_trip};
use crate::link::{spec_link_bytes, spec_parse_link, lemma_link_round_trip};
use crate::lock::{Access, LockKind, MemFileCast, NativeLock, plan_lock, slice_len, spec_plan_lock};

verus! {

/// Declares std's `PathBuf` so that a handle can hold the path of its link
/// file. Nothing is read from inside a path: it is only stored and handed back.
#[verifier::external_type_specification]
#[verifier::external_body]
pub struct ExPathBuf(PathBuf);

/// A handle on a shared mapping: who made it, where its link file is, the
/// platform's name for the shared object, the data size and the lock kind.
pub struct MemFile {
    owner: bool,
    link_path: Option<PathBuf>,
    real_path: String,
    size: usize,
    lock_kind: LockKind,
    attached: bool,
}

/// The abstract state of a handle.
pub struct MemFileModel {
    /// This handle's creation made the shared object.
    pub owner: bool,
    /// The link file, absent in raw mode.
    pub link_path: Option<PathBuf>,
    /// The platform's identifier of the shared object.
    pub real_path: Seq<char>,
    /// Length of the data section in bytes.
    pub size: nat,
    /// The lock kind in effect for the mapping.
    pub lock_kind: LockKind,
    /// The handle still holds its mapping; false once torn down.
    pub attached: bool,
}

impl View for MemFile {
    type V = MemFileModel;

    closed spec fn view(&self) -> MemFileModel {
        MemFileModel {
            owner: self.owner,
            link_path: self.link_path,
            real_path: self.real_path@,
            size: self.size as nat,
            lock_kind: self.lock_kind,
            attached: self.attached,
        }
    }
}

/// The work that releasing a handle asks of the platform and the filesystem.
#[derive(Clone, Copy, Debug, PartialEq, Eq, Structural)]
pub struct Teardown {
    /// Delete the link file.
    pub remove_link: bool,
    /// Unmap the region and close the native handle.
    pub unmap: bool,
    /// Destroy the named shared object itself.
    pub destroy_object: bool,
}

/// What releasing a handle in state `m` does, where `link_is_file` tells
/// whether its link path still names a regular file. Only an attached handle
/// does anything; every one unmaps; only the owner deletes the link and the
/// shared object.
pub open spec fn spec_teardown(m: MemFileModel, link_is_file: bool) -> Teardown {
    Teardown {
        remove_link: m.attached && m.owner && m.link_path is Some && link_is_file,
        unmap: m.attached,
        destroy_object: m.attached && m.owner,
    }
}

/// The handle that a successful linked creation gives.
pub open spec fn created_model(link_path: PathBuf, id: Seq<char>, kind: LockKind, size: nat) -> MemFileModel {
    MemFileModel {
        owner: true,
        link_path: Some(link_path),
        real_path: id,
        size,
        lock_kind: kind,
        attached: true,
    }
}

/// The outcome of the first step of a linked creation, before anything is
/// made: a size of zero, or one whose mapping does not fit in the address
/// space, is refused by the backend; an existing link file is never
/// overwritten; otherwise the length of the mapping to reserve.
pub open spec fn spec_plan_create(link_exists: bool, kind: LockKind, sizes: NativeSizes, size: nat) -> Result<nat, MemFileError> {
    let lock_len = sizes.spec_len(kind);
    if size == 0 || spec_region_len(kind, lock_len, size) > usize::MAX {
        Err(MemFileError::BackendError)
    } else if link_exists {
        Err(MemFileError::AlreadyExists)
    } else {
        Ok(spec_region_len(kind, lock_len, size))
    }
}

/// The outcome of attaching to a linked mapping of `mapped_len` bytes whose
/// metadata record is `meta`: the kind and size it records, provided the
/// whole data section lies inside the mapping.
pub open spec fn spec_open_meta(meta: Seq<u8>, sizes: NativeSizes, mapped_len: nat) -> Result<(LockKind, nat), MemFileError> {
    match spec_decode_meta(meta) {
        Err(e) => Err(e),
        Ok((kind, size)) => if spec_region_len(kind, sizes.spec_len(kind), size) > mapped_len {
            Err(MemFileError::BackendError)
        } else {
            Ok((kind, size))
        },
    }
}

/// The handle that attaching through a link file gives.
pub open spec fn opened_model(link_path: Option<PathBuf>, id: Seq<char>, kind: LockKind, size: nat) -> MemFileModel {
    MemFileModel {
        owner: false,
        link_path,
        real_path: id,
        size,
        lock_kind: kind,
        attached: true,
    }
}

/// The handle that a raw creation or a raw open gives: no link file, no lock.
pub open spec fn raw_model(owner: bool, id: Seq<char>, size: nat) -> MemFileModel {
    MemFileModel {
        owner,
        link_path: None,
        real_path: id,
        size,
        lock_kind: LockKind::Unlocked,
        attached: true,
    }
}

impl MemFile {
    /// Decides the first step of creating a linked mapping: whether to go on,
    /// and how many bytes the mapping must span (metadata, lock and data).
    pub fn plan_create(link_exists: bool, lock_type: LockKind, sizes: NativeSizes, size: usize) -> (r: Result<usize, MemFileError>)
        ensures
            r is Ok <==> spec_plan_create(link_exists, lock_type, sizes, size as nat) is Ok,
            r is Ok ==> spec_plan_create(link_exists, lock_type, sizes, size as nat)
                == Ok::<nat, MemFileError>(r->Ok_0 as nat),
            r is Err ==> spec_plan_create(link_exists, lock_type, sizes, size as nat)
                == Err::<nat, MemFileError>(r->Err_0),
    {
        if size == 0 {
            return Err(MemFileError::BackendError);
        }
        let total = match region_len(lock_type, sizes.len_of(lock_type), size) {
            Some(n) => n,
            None => {
                return Err(MemFileError::BackendError);
            },
        };
        if link_exists {
            Err(MemFileError::AlreadyExists)
        } else {
            Ok(total)
        }
    }

    /// The rollback of a linked creation that failed after its link file was
    /// made: the link file goes, and so does the shared object if `mapped`.
    /// A failed creation leaves nothing behind.
    pub fn abort_create(mapped: bool) -> (r: Teardown)
        ensures
            r == (Teardown { remove_link: true, unmap: mapped, destroy_object: mapped }),
    {
        Teardown { remove_link: true, unmap: mapped, destroy_object: mapped }
    }

    /// The owner handle of a linked mapping, once the backend has made the
    /// shared object `real_path` and its name is in the link file.
    pub fn created(link_path: PathBuf, real_path: String, lock_type: LockKind, size: usize) -> (r: MemFile)
        ensures
            r@ == created_model(link_path, real_path@, lock_type, size as nat),
    {
        MemFile { owner: true, link_path: Some(link_path), real_path, size, lock_kind: lock_type, attached: true }
    }

    /// A handle attached to the linked mapping `real_path`, whose first bytes
    /// `meta` the creator wrote and which spans `mapped_len` bytes. The size and
    /// lock kind come from the mapping, never from the caller.
    pub fn opened(link_path: Option<PathBuf>, real_path: String, meta: &[u8], sizes: NativeSizes, mapped_len: usize) -> (r: Result<MemFile, MemFileError>)
        ensures
            r is Ok <==> spec_open_meta(meta@, sizes, mapped_len as nat) is Ok,
            r is Err ==> spec_open_meta(meta@, sizes, mapped_len as nat)
                == Err::<(LockKind, nat), MemFileError>(r->Err_0),
            r is Ok ==> spec_open_meta(meta@, sizes, mapped_len as nat)
                == Ok::<(LockKind, nat), MemFileError>((r->Ok_0@.lock_kind, r->Ok_0@.size)),
            r is Ok ==> r->Ok_0@ == opened_model(link_path, real_path@, r->Ok_0@.lock_kind, r->Ok_0@.size),
    {
        let (kind, size) = match decode_meta(meta) {
            Ok(v) => v,
            Err(e) => {
                return Err(e);
            },
        };
        match region_len(kind, sizes.len_of(kind), size) {
            Some(n) => if n > mapped_len {
                return Err(MemFileError::BackendError);
            },
            None => {
                return Err(MemFileError::BackendError);
            },
        }
        Ok(MemFile { owner: false, link_path, real_path, size, lock_kind: kind, attached: true })
    }

    /// Creates a raw shared memory handle: the caller names the platform's
    /// object directly, with no link file and no lock. A size of zero is
    /// refused.
    pub fn create_raw(shmem_path: String, size: usize) -> (r: Result<MemFile, MemFileError>)
        ensures
            size == 0 ==> r == Err::<MemFile, MemFileError>(MemFileError::BackendError),
            size > 0 ==> r is Ok && r->Ok_0@ == raw_model(true, shmem_path@, size as nat),
    {
        if size == 0 {
            return Err(MemFileError::BackendError);
        }
        Ok(MemFile { owner: true, link_path: None, real_path: shmem_path, size, lock_kind: LockKind::Unlocked, attached: true })
    }

    /// Opens an existing shared object in raw mode, given the length that the
    /// platform reports for it: no link file, no lock, not the owner.
    pub fn open_raw(shmem_path: String, size: usize) -> (r: MemFile)
        ensures
            r@ == raw_model(false, shmem_path@, size as nat),
    {
        MemFile { owner: false, link_path: None, real_path: shmem_path, size, lock_kind: LockKind::Unlocked, attached: true }
    }

    /// Returns the size of the data section.
    pub fn get_size(&self) -> (r: &usize)
        ensures
            *r as nat == self@.size,
    {
        &self.size
    }

    /// Returns the path of the link file, absent in raw mode.
    pub fn get_link_path(&self) -> (r: Option<&PathBuf>)
        ensures
            r is Some <==> self@.link_path is Some,
            r is Some ==> *r->Some_0 == self@.link_path->Some_0,
    {
        match &self.link_path {
            Some(p) => Some(p),
            None => None,
        }
    }

    /// Returns the platform's identifier of the shared object.
    pub fn get_real_path(&self) -> (r: Option<&String>)
        ensures
            r is Some,
            r->Some_0@ == self@.real_path,
    {
        Some(&self.real_path)
    }

    /// Returns the lock kind in effect for the mapping.
    pub fn get_lock_kind(&self) -> (r: LockKind)
        ensures
            r == self@.lock_kind,
    {
        self.lock_kind
    }

    /// Whether this handle's creation made the shared object.
    pub fn is_owner(&self) -> (r: bool)
        ensures
            r == self@.owner,
    {
        self.owner
    }

    /// Whether the handle still holds its mapping.
    pub fn is_attached(&self) -> (r: bool)
        ensures
            r == self@.attached,
    {
        self.attached
    }

    /// Releases the handle: says what to undo, and marks it torn down, so that
    /// a second release does nothing.
    pub fn close(&mut self, link_is_file: bool) -> (r: Teardown)
        ensures
            r == spec_teardown(old(self)@, link_is_file),
            final(self)@ == (MemFileModel { attached: false, ..old(self)@ }),
    {
        let r = Teardown {
            remove_link: self.attached && self.owner && self.link_path.is_some() && link_is_file,
            unmap: self.attached,
            destroy_object: self.attached && self.owner,
        };
        self.attached = false;
        r
    }

    /// Decides how a guard over a value of type `T` is taken, or why none can
    /// be.
    pub fn lock_for<T: MemFileCast>(&self, access: Access) -> (r: Result<NativeLock, MemFileError>)
        ensures
            r == spec_plan_lock(self@.lock_kind, access, vstd::layout::size_of::<T>(), self@.size),
    {
        plan_lock(self.lock_kind, access, core::mem::size_of::<T>(), self.size)
    }

    /// Decides how a guard over a slice of `T` is taken, and how many whole
    /// elements it spans: the data size divided by the element size, with any
    /// remainder left out.
    pub fn slice_lock_for<T: MemFileCast>(&self, access: Access) -> (r: Result<(NativeLock, usize), MemFileError>)
        requires
            vstd::layout::size_of::<T>() > 0,
        ensures
            spec_plan_lock(self@.lock_kind, access, vstd::layout::size_of::<T>(), self@.size) is Err
                ==> r == Err::<(NativeLock, usize), MemFileError>(
                    spec_plan_lock(self@.lock_kind, access, vstd::layout::size_of::<T>(), self@.size)->Err_0,
                ),
            spec_plan_lock(self@.lock_kind, access, vstd::layout::size_of::<T>(), self@.size) is Ok
                ==> r is Ok && r->Ok_0.0 == spec_plan_lock(self@.lock_kind, access, vstd::layout::size_of::<T>(), self@.size)->Ok_0
                && r->Ok_0.1 as nat == self@.size / vstd::layout::size_of::<T>(),
    {
        let elem = core::mem::size_of::<T>();
        let mode = match plan_lock(self.lock_kind, access, elem, self.size) {
            Ok(m) => m,
            Err(e) => {
                return Err(e);
            },
        };
        match slice_len(self.size, elem) {
            Ok(n) => Ok((mode, n)),
            Err(e) => Err(e),
        }
    }
}

/// Creating a linked mapping and then opening it through its link file gives
/// a handle on the same shared object, with the creator's size and lock
/// kind: the identifier written to the link file reads back unchanged, and the
/// metadata record the creator wrote reads back as its kind and size.
pub proof fn lemma_create_then_open(
    link_path: PathBuf,
    id: Seq<char>,
    kind: LockKind,
    size: nat,
    meta: Seq<u8>,
    sizes: NativeSizes,
    mapped_len: nat,
)
    requires
        id.len() > 0,
        spec_plan_create(false, kind, sizes, size) is Ok,
        describes(meta, kind, size),
        mapped_len >= spec_plan_create(false, kind, sizes, size)->Ok_0,
    ensures
        spec_parse_link(spec_link_bytes(id)) == Ok::<Seq<char>, MemFileError>(id),
        spec_open_meta(meta, sizes, mapped_len) == Ok::<(LockKind, nat), MemFileError>((kind, size)),
        opened_model(Some(link_path), id, kind, size)
            == (MemFileModel { owner: false, ..created_model(link_path, id, kind, size) }),
{
    lemma_link_round_trip(id);
    lemma_meta_round_trip(meta, kind, size);
}

/// A guard granted on an opened mapping covers the first `type_size` bytes of
/// the data section, and those bytes lie inside the mapping.
pub proof fn lemma_guard_in_bounds(
    meta: Seq<u8>,
    sizes: NativeSizes,
    mapped_len: nat,
    access: Access,
    type_size: nat,
)
    requires
        spec_open_meta(meta, sizes, mapped_len) is Ok,
        spec_plan_lock(
            spec_open_meta(meta, sizes, mapped_len)->Ok_0.0,
            access,
            type_size,
            spec_open_meta(meta, sizes, mapped_len)->Ok_0.1,
        ) is Ok,
    ensures
        ({
            let kind = spec_open_meta(meta, sizes, mapped_len)->Ok_0.0;
            spec_data_offset(kind, sizes.spec_len(kind)) + type_size <= mapped_len
        }),
{
}

/// Creating over an existing link file fails with `AlreadyExists` before
/// anything is made, for every size the backend can serve.
pub proof fn lemma_create_refuses_existing_link(kind: LockKind, sizes: NativeSizes, size: nat)
    requires
        size > 0,
        spec_region_len(kind, sizes.spec_len(kind), size) <= usize::MAX,
    ensures
        spec_plan_create(true, kind, sizes, size) == Err::<nat, MemFileError>(MemFileError::AlreadyExists),
{
}

/// Releasing an owner handle of a linked mapping deletes its link file, while
/// releasing a handle that does not own the mapping never does.
pub proof fn lemma_only_owner_removes_link(m: MemFileModel, link_is_file: bool)
    ensures
        m.attached && m.owner && m.link_path is Some && link_is_file ==> spec_teardown(m, link_is_file).remove_link,
        !m.owner ==> !spec_teardown(m, link_is_file).remove_link,
        !m.owner ==> !spec_teardown(m, link_is_file).destroy_object,
{
}

/// Raw handles never involve a link file, and a raw open reports no lock.
pub proof fn lemma_raw_mode(id: Seq<char>, size: nat, mapped_len: nat, link_is_file: bool)
    ensures
        raw_model(true, id, size).link_path is None,
        !spec_teardown(raw_model(true, id, size), link_is_file).remove_link,
        !spec_teardown(raw_model(false, id, mapped_len), link_is_file).remove_link,
        raw_model(false, id, mapped_len).lock_kind == LockKind::Unlocked,
{
}

/// A handle is torn down at most once: releasing it again asks for nothing.
pub proof fn lemma_teardown_once(m: MemFileModel, link_is_file: bool)
    ensures
        spec_teardown(MemFileModel { attached: false, ..m }, link_is_file)
            == (Teardown { remove_link: false, unmap: false, destroy_object: false }),
{
}

} // verus!
