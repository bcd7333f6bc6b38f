use vstd::prelude::*;
use crate::error::MemFileError;

verus! {

/// The synchronisation placed in a mapping, chosen once by its creator.
#[derive(Clone, Copy, Debug, PartialEq, Eq, Structural)]
pub enum LockKind {
    /// No lock: only an unsynchronised view of the data exists.
    Unlocked,
    /// One exclusive lock: every access excludes every other.
    Mutex,
    /// Shared readers, exclusive writers.
    ReaderWriter,
}

/// What a guard is taken for.
#[derive(Clone, Copy, Debug, PartialEq, Eq, Structural)]
pub enum Access {
    Read,
    Write,
}

/// The mode in which the native lock of a mapping is acquired.
#[derive(Clone, Copy, Debug, PartialEq, Eq, Structural)]
pub enum NativeLock {
    /// Held by one guard at a time.
    Exclusive,
    /// Held together with other shared holders, never with an exclusive one.
    Shared,
}

/// Two guards taken in these modes may be held at the same time.
pub open spec fn may_coexist(a: NativeLock, b: NativeLock) -> bool {
    a == NativeLock::Shared && b == NativeLock::Shared
}

/// The native mode that serves `access` under `kind`, if the kind has a lock.
pub open spec fn native_mode(kind: LockKind, access: Access) -> Option<NativeLock> {
    match kind {
        LockKind::Unlocked => Option::None,
        LockKind::Mutex => Some(NativeLock::Exclusive),
        LockKind::ReaderWriter => match access {
            Access::Read => Some(NativeLock::Shared),
            Access::Write => Some(NativeLock::Exclusive),
        },
    }
}

/// The outcome of asking for a guard over a value of `type_size` bytes in a
/// data section of `data_size` bytes.
pub open spec fn spec_plan_lock(kind: LockKind, access: Access, type_size: nat, data_size: nat) -> Result<NativeLock, MemFileError> {
    match native_mode(kind, access) {
        Option::None => Err(MemFileError::NoLock),
        Some(mode) => if type_size > data_size {
            Err(MemFileError::CastSizeMismatch)
        } else {
            Ok(mode)
        },
    }
}

/// Decides which native lock mode a guard takes, or why none can be taken:
/// a mapping without a lock gives no guard, and a type larger than the data
/// section cannot be laid over it.
pub fn plan_lock(kind: LockKind, access: Access, type_size: usize, data_size: usize) -> (r: Result<NativeLock, MemFileError>)
    ensures
        r == spec_plan_lock(kind, access, type_size as nat, data_size as nat),
{
    let mode = match kind {
        LockKind::Unlocked => {
            return Err(MemFileError::NoLock);
        },
        LockKind::Mutex => NativeLock::Exclusive,
        LockKind::ReaderWriter => match access {
            Access::Read => NativeLock::Shared,
            Access::Write => NativeLock::Exclusive,
        },
    };
    if type_size > data_size {
        Err(MemFileError::CastSizeMismatch)
    } else {
        Ok(mode)
    }
}

/// The number of whole elements of `elem_size` bytes in `data_size` bytes,
/// once at least one fits.
pub fn slice_len(data_size: usize, elem_size: usize) -> (r: Result<usize, MemFileError>)
    requires
        elem_size > 0,
    ensures
        elem_size > data_size ==> r == Err::<usize, MemFileError>(MemFileError::CastSizeMismatch),
        elem_size <= data_size ==> r == Ok::<usize, MemFileError>(data_size / elem_size),
{
    if elem_size > data_size {
        Err(MemFileError::CastSizeMismatch)
    } else {
        Ok(data_size / elem_size)
    }
}

/// Under a mutex, no two guards that were granted can be held at once,
/// whatever they were asked for: writes are serialised.
pub proof fn lemma_mutex_serialises(a1: Access, a2: Access, t1: nat, t2: nat, size: nat)
    requires
        spec_plan_lock(LockKind::Mutex, a1, t1, size) is Ok,
        spec_plan_lock(LockKind::Mutex, a2, t2, size) is Ok,
    ensures
        !may_coexist(
            spec_plan_lock(LockKind::Mutex, a1, t1, size)->Ok_0,
            spec_plan_lock(LockKind::Mutex, a2, t2, size)->Ok_0,
        ),
{
}

/// Under a reader-writer lock, granted read guards may be held together,
/// while a granted write guard is held with no other guard.
pub proof fn lemma_reader_writer_exclusion(a1: Access, a2: Access, t1: nat, t2: nat, size: nat)
    requires
        spec_plan_lock(LockKind::ReaderWriter, a1, t1, size) is Ok,
        spec_plan_lock(LockKind::ReaderWriter, a2, t2, size) is Ok,
    ensures
        may_coexist(
            spec_plan_lock(LockKind::ReaderWriter, a1, t1, size)->Ok_0,
            spec_plan_lock(LockKind::ReaderWriter, a2, t2, size)->Ok_0,
        ) <==> (a1 == Access::Read && a2 == Access::Read),
{
}

/// A guard over a type is granted exactly when the mapping has a lock and the
/// type is no larger than the data section.
pub proof fn lemma_cast_size_check(kind: LockKind, access: Access, type_size: nat, size: nat)
    requires
        kind != LockKind::Unlocked,
    ensures
        type_size > size ==> spec_plan_lock(kind, access, type_size, size) == Err::<NativeLock, MemFileError>(MemFileError::CastSizeMismatch),
        type_size <= size ==> spec_plan_lock(kind, access, type_size, size) is Ok,
{
}

/// Types whose values may be laid directly over shared bytes.
///
/// An implementor promises that the type holds no pointer to memory outside
/// the shared region, never resizes storage of its own, and is valid for any
/// bytes that another process wrote, with no constructor run.
pub trait MemFileCast {}

impl MemFileCast for bool {}
impl MemFileCast for char {}
impl MemFileCast for str {}
impl MemFileCast for i8 {}
impl MemFileCast for i16 {}
impl MemFileCast for i32 {}
impl MemFileCast for i64 {}
impl MemFileCast for isize {}
impl MemFileCast for u8 {}
impl MemFileCast for u16 {}
impl MemFileCast for u32 {}
impl MemFileCast for u64 {}
impl MemFileCast for usize {}

} // verus!
