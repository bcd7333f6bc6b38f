use mem_file::{
    check_written, data_offset, decode_meta, encode_meta, link_contents, parse_link, plan_lock,
    region_len, slice_len, Access, LockKind, MemFile, MemFileError, NativeLock, NativeSizes,
    Teardown, META_LEN,
};
use std::path::PathBuf;

const SIZES: NativeSizes = NativeSizes { mutex: 40, rwlock: 56 };

fn open_linked(path: &str, id: &str, meta: &[u8], mapped_len: usize) -> Result<MemFile, MemFileError> {
    let link = link_contents(&id.to_string());
    let read_back = parse_link(link)?;
    MemFile::opened(Some(PathBuf::from(path)), read_back, meta, SIZES, mapped_len)
}

#[test]
fn create_raw_rejects_zero_size() {
    assert_eq!(MemFile::create_raw("/shm_a".to_string(), 0).err(), Some(MemFileError::BackendError));
}

#[test]
fn create_raw_makes_unlocked_owner_without_link() {
    let m = MemFile::create_raw("/shm_a".to_string(), 4096).unwrap();
    assert_eq!(*m.get_size(), 4096);
    assert!(m.get_link_path().is_none());
    assert_eq!(m.get_real_path(), Some(&"/shm_a".to_string()));
    assert_eq!(m.get_lock_kind(), LockKind::Unlocked);
    assert!(m.is_owner());
    assert!(m.is_attached());
}

#[test]
fn raw_open_of_raw_creation_reports_no_lock() {
    let mut c = MemFile::create_raw("/shm_raw".to_string(), 100).unwrap();
    let mut o = MemFile::open_raw(c.get_real_path().unwrap().clone(), 100);
    assert_eq!(o.get_lock_kind(), LockKind::Unlocked);
    assert!(!o.is_owner());
    assert_eq!(*o.get_size(), 100);
    assert!(o.get_link_path().is_none());
    let t = c.close(true);
    assert_eq!(t, Teardown { remove_link: false, unmap: true, destroy_object: true });
    let t = o.close(true);
    assert_eq!(t, Teardown { remove_link: false, unmap: true, destroy_object: false });
}

#[test]
fn raw_handles_refuse_guards() {
    let m = MemFile::create_raw("/shm_b".to_string(), 64).unwrap();
    assert_eq!(m.lock_for::<u32>(Access::Write), Err(MemFileError::NoLock));
    assert_eq!(m.lock_for::<u32>(Access::Read), Err(MemFileError::NoLock));
}

#[test]
fn plan_create_refuses_existing_link() {
    assert_eq!(MemFile::plan_create(true, LockKind::Mutex, SIZES, 4096), Err(MemFileError::AlreadyExists));
    assert_eq!(MemFile::plan_create(true, LockKind::Unlocked, SIZES, 1), Err(MemFileError::AlreadyExists));
}

#[test]
fn plan_create_rejects_unusable_sizes() {
    assert_eq!(MemFile::plan_create(false, LockKind::Mutex, SIZES, 0), Err(MemFileError::BackendError));
    assert_eq!(MemFile::plan_create(false, LockKind::Mutex, SIZES, usize::MAX), Err(MemFileError::BackendError));
}

#[test]
fn plan_create_gives_region_length() {
    assert_eq!(MemFile::plan_create(false, LockKind::Mutex, SIZES, 4096), Ok(4160));
    assert_eq!(MemFile::plan_create(false, LockKind::ReaderWriter, SIZES, 4096), Ok(128 + 4096));
    assert_eq!(MemFile::plan_create(false, LockKind::ReaderWriter, NativeSizes { mutex: 40, rwlock: 200 }, 10), Ok(256 + 10));
    assert_eq!(MemFile::plan_create(false, LockKind::Unlocked, SIZES, 4096), Ok(META_LEN + 4096));
}

#[test]
fn native_sizes_by_kind() {
    assert_eq!(SIZES.len_of(LockKind::Unlocked), 0);
    assert_eq!(SIZES.len_of(LockKind::Mutex), 40);
    assert_eq!(SIZES.len_of(LockKind::ReaderWriter), 56);
}

#[test]
fn data_offset_aligns_after_lock() {
    assert_eq!(data_offset(LockKind::Unlocked, 999), Some(16));
    assert_eq!(data_offset(LockKind::Mutex, 48), Some(64));
    assert_eq!(data_offset(LockKind::Mutex, 49), Some(128));
    assert_eq!(data_offset(LockKind::Mutex, usize::MAX), None);
    assert_eq!(region_len(LockKind::Mutex, 40, 1), Some(65));
    assert_eq!(region_len(LockKind::Unlocked, 0, usize::MAX - 16), Some(usize::MAX));
    assert_eq!(region_len(LockKind::Unlocked, 0, usize::MAX - 15), None);
}

#[test]
fn metadata_record_bytes() {
    let b = encode_meta(LockKind::Mutex, 4096);
    assert_eq!(b, vec![1, 0, 0, 0, 0, 0, 0, 0, 0, 16, 0, 0, 0, 0, 0, 0]);
    let b = encode_meta(LockKind::ReaderWriter, 0x0102_0304_0506_0708);
    assert_eq!(b, vec![2, 0, 0, 0, 0, 0, 0, 0, 8, 7, 6, 5, 4, 3, 2, 1]);
    let b = encode_meta(LockKind::Unlocked, 0);
    assert_eq!(b, vec![0; 16]);
}

#[test]
fn metadata_record_round_trip() {
    for kind in [LockKind::Unlocked, LockKind::Mutex, LockKind::ReaderWriter] {
        for size in [1usize, 255, 256, 4096, 1 << 40, usize::MAX] {
            let b = encode_meta(kind, size);
            assert_eq!(decode_meta(&b), Ok((kind, size)));
        }
    }
}

#[test]
fn metadata_record_rejects_bad_input() {
    assert_eq!(decode_meta(&[1, 0, 0]), Err(MemFileError::BackendError));
    let mut b = encode_meta(LockKind::Mutex, 10);
    b[0] = 3;
    assert_eq!(decode_meta(&b), Err(MemFileError::BackendError));
}

#[test]
fn link_contents_are_identifier_bytes() {
    assert_eq!(link_contents(&"/mem_file_1a2b".to_string()), b"/mem_file_1a2b".to_vec());
    assert_eq!(link_contents(&"é".to_string()), vec![0xc3, 0xa9]);
}

#[test]
fn link_round_trip() {
    let id = "/mem_file_0123456789abcdef".to_string();
    assert_eq!(parse_link(link_contents(&id)), Ok(id));
}

#[test]
fn link_decode_errors() {
    assert_eq!(parse_link(vec![]), Err(MemFileError::Utf8Error));
    assert_eq!(parse_link(vec![0x2f, 0xff, 0x41]), Err(MemFileError::Utf8Error));
    assert_eq!(parse_link(vec![0xc3]), Err(MemFileError::Utf8Error));
    assert_eq!(parse_link(vec![0xc3, 0xa9]), Ok("é".to_string()));
}

#[test]
fn identifier_write_outcomes() {
    assert_eq!(check_written(None, 5), Err(MemFileError::IoFailure));
    assert_eq!(check_written(Some(3), 5), Err(MemFileError::PartialWrite));
    assert_eq!(check_written(Some(5), 5), Ok(()));
}

#[test]
fn failed_creation_rolls_back_everything() {
    assert_eq!(MemFile::abort_create(false), Teardown { remove_link: true, unmap: false, destroy_object: false });
    assert_eq!(MemFile::abort_create(true), Teardown { remove_link: true, unmap: true, destroy_object: true });
}

#[test]
fn create_then_open_agree() {
    for kind in [LockKind::Unlocked, LockKind::Mutex, LockKind::ReaderWriter] {
        for size in [1usize, 7, 4096, 1 << 20] {
            let total = MemFile::plan_create(false, kind, SIZES, size).unwrap();
            let c = MemFile::created(PathBuf::from("p.link"), "/shm_x".to_string(), kind, size);
            let meta = encode_meta(kind, size);
            let o = open_linked("p.link", "/shm_x", &meta, total).unwrap();
            assert_eq!(o.get_size(), c.get_size());
            assert_eq!(o.get_real_path(), c.get_real_path());
            assert_eq!(o.get_lock_kind(), kind);
            assert_eq!(o.get_link_path(), c.get_link_path());
            assert!(c.is_owner());
            assert!(!o.is_owner());
        }
    }
}

#[test]
fn open_rejects_short_mapping() {
    let meta = encode_meta(LockKind::Mutex, 4096);
    assert_eq!(open_linked("p.link", "/shm_x", &meta, 4159).err(), Some(MemFileError::BackendError));
    assert!(open_linked("p.link", "/shm_x", &meta, 4160).is_ok());
    assert_eq!(open_linked("p.link", "/shm_x", &meta[..8], 4160).err(), Some(MemFileError::BackendError));
}

#[test]
fn owner_release_removes_link() {
    let mut c = MemFile::created(PathBuf::from("q.link"), "/shm_q".to_string(), LockKind::Mutex, 16);
    assert_eq!(c.close(true), Teardown { remove_link: true, unmap: true, destroy_object: true });
    assert!(!c.is_attached());
    assert_eq!(c.close(true), Teardown { remove_link: false, unmap: false, destroy_object: false });
}

#[test]
fn owner_release_skips_missing_link() {
    let mut c = MemFile::created(PathBuf::from("q.link"), "/shm_q".to_string(), LockKind::Mutex, 16);
    assert_eq!(c.close(false), Teardown { remove_link: false, unmap: true, destroy_object: true });
}

#[test]
fn non_owner_release_keeps_link() {
    let meta = encode_meta(LockKind::Mutex, 16);
    let mut o = open_linked("q.link", "/shm_q", &meta, 80).unwrap();
    assert_eq!(o.close(true), Teardown { remove_link: false, unmap: true, destroy_object: false });
}

#[test]
fn guard_size_check() {
    let c = MemFile::created(PathBuf::from("r.link"), "/shm_r".to_string(), LockKind::Mutex, 4);
    assert_eq!(c.lock_for::<u64>(Access::Write), Err(MemFileError::CastSizeMismatch));
    assert_eq!(c.lock_for::<u32>(Access::Write), Ok(NativeLock::Exclusive));
    assert_eq!(c.lock_for::<u16>(Access::Write), Ok(NativeLock::Exclusive));
    assert_eq!(plan_lock(LockKind::ReaderWriter, Access::Write, 9, 8), Err(MemFileError::CastSizeMismatch));
    assert_eq!(plan_lock(LockKind::ReaderWriter, Access::Write, 8, 8), Ok(NativeLock::Exclusive));
}

#[test]
fn mutex_reads_are_exclusive() {
    let c = MemFile::created(PathBuf::from("r.link"), "/shm_r".to_string(), LockKind::Mutex, 64);
    assert_eq!(c.lock_for::<u8>(Access::Read), Ok(NativeLock::Exclusive));
}

#[test]
fn reader_writer_modes() {
    let c = MemFile::created(PathBuf::from("r.link"), "/shm_r".to_string(), LockKind::ReaderWriter, 64);
    assert_eq!(c.lock_for::<u64>(Access::Read), Ok(NativeLock::Shared));
    assert_eq!(c.lock_for::<u64>(Access::Write), Ok(NativeLock::Exclusive));
}

#[test]
fn slice_guard_length_truncates() {
    let c = MemFile::created(PathBuf::from("s.link"), "/shm_s".to_string(), LockKind::ReaderWriter, 10);
    assert_eq!(c.slice_lock_for::<u32>(Access::Read), Ok((NativeLock::Shared, 2)));
    assert_eq!(c.slice_lock_for::<u8>(Access::Write), Ok((NativeLock::Exclusive, 10)));
    let small = MemFile::created(PathBuf::from("s.link"), "/shm_s".to_string(), LockKind::Mutex, 3);
    assert_eq!(small.slice_lock_for::<u32>(Access::Write), Err(MemFileError::CastSizeMismatch));
    assert_eq!(slice_len(4096, 8), Ok(512));
    assert_eq!(slice_len(7, 8), Err(MemFileError::CastSizeMismatch));
}

#[test]
fn end_to_end_mutex_link() {
    let total = MemFile::plan_create(false, LockKind::Mutex, SIZES, 4096).unwrap();
    let mut first = MemFile::created(PathBuf::from("x.link"), "/shm_e2e".to_string(), LockKind::Mutex, 4096);
    let link = link_contents(first.get_real_path().unwrap());
    assert_eq!(check_written(Some(link.len()), link.len()), Ok(()));
    let id = parse_link(link).unwrap();
    let meta = encode_meta(LockKind::Mutex, 4096);
    let mut second = MemFile::opened(Some(PathBuf::from("x.link")), id, &meta, SIZES, total).unwrap();
    assert_eq!(second.get_real_path(), first.get_real_path());
    assert_eq!(*second.get_size(), 4096);
    let src = b"hello\0";
    assert_eq!(first.slice_lock_for::<u8>(Access::Write), Ok((NativeLock::Exclusive, 4096)));
    assert!(src.len() <= 4096);
    assert_eq!(second.slice_lock_for::<u8>(Access::Write), Ok((NativeLock::Exclusive, 4096)));
    assert_eq!(second.close(true).remove_link, false);
    assert_eq!(first.close(true).remove_link, true);
}

#[test]
fn error_messages_are_distinct() {
    let all = [
        MemFileError::AlreadyExists,
        MemFileError::NotFound,
        MemFileError::IoFailure,
        MemFileError::PartialWrite,
        MemFileError::Utf8Error,
        MemFileError::BackendError,
        MemFileError::LockPoisoned,
        MemFileError::CastSizeMismatch,
        MemFileError::NoLock,
    ];
    for (i, a) in all.iter().enumerate() {
        for b in all.iter().skip(i + 1) {
            assert_ne!(a.message(), b.message());
        }
    }
}
