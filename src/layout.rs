use vstd::prelude::*;
use crate::error::MemFileError;
use crate::lock::LockKind;

verus! {

/// Length in bytes of the metadata record at the start of a linked mapping:
/// one byte for the lock kind, seven zero bytes, then the data size as eight
/// little-endian bytes.
pub const META_LEN: usize = 16;

/// Alignment of the data section that follows a lock.
pub const DATA_ALIGN: usize = 64;

/// The byte lengths of the platform's native lock objects.
#[derive(Clone, Copy, Debug, PartialEq, Eq, Structural)]
pub struct NativeSizes {
    pub mutex: usize,
    pub rwlock: usize,
}

impl NativeSizes {
    /// Length of the native lock that serves `kind`; none for no lock.
    pub open spec fn spec_len(self, kind: LockKind) -> nat {
        match kind {
            LockKind::Unlocked => 0,
            LockKind::Mutex => self.mutex as nat,
            LockKind::ReaderWriter => self.rwlock as nat,
        }
    }

    /// Returns the length of the native lock that serves `kind`.
    pub fn len_of(&self, kind: LockKind) -> (r: usize)
        ensures
            r as nat == self.spec_len(kind),
    {
        match kind {
            LockKind::Unlocked => 0,
            LockKind::Mutex => self.mutex,
            LockKind::ReaderWriter => self.rwlock,
        }
    }
}

/// The byte that records a lock kind in the metadata record.
pub open spec fn kind_tag(kind: LockKind) -> u8 {
    match kind {
        LockKind::Unlocked => 0,
        LockKind::Mutex => 1,
        LockKind::ReaderWriter => 2,
    }
}

/// The lock kind that a metadata byte records, if any.
pub open spec fn tag_kind(tag: u8) -> Option<LockKind> {
    if tag == 0 {
        Some(LockKind::Unlocked)
    } else if tag == 1 {
        Some(LockKind::Mutex)
    } else if tag == 2 {
        Some(LockKind::ReaderWriter)
    } else {
        None
    }
}

/// The number that a sequence of bytes spells, least significant first.
pub open spec fn le_value(b: Seq<u8>) -> nat
    decreases b.len(),
{
    if b.len() == 0 {
        0
    } else {
        b[0] as nat + 256 * le_value(b.drop_first())
    }
}

/// 256 to the power `n`.
pub open spec fn pow256(n: nat) -> nat
    decreases n,
{
    if n == 0 {
        1
    } else {
        256 * pow256((n - 1) as nat)
    }
}

/// The metadata record is well formed and describes `kind` and `size`.
pub open spec fn describes(b: Seq<u8>, kind: LockKind, size: nat) -> bool {
    &&& b.len() == META_LEN
    &&& b[0] == kind_tag(kind)
    &&& forall|i: int| 1 <= i < 8 ==> b[i] == 0u8
    &&& le_value(b.subrange(8, 16)) == size
}

/// What reading a metadata record gives: the lock kind and the data size, or
/// a backend error for a record that is short, names no kind, or gives a size
/// beyond the address space.
pub open spec fn spec_decode_meta(b: Seq<u8>) -> Result<(LockKind, nat), MemFileError> {
    if b.len() < META_LEN {
        Err(MemFileError::BackendError)
    } else {
        match tag_kind(b[0]) {
            None => Err(MemFileError::BackendError),
            Some(kind) => {
                let size = le_value(b.subrange(8, 16));
                if size > usize::MAX {
                    Err(MemFileError::BackendError)
                } else {
                    Ok((kind, size))
                }
            },
        }
    }
}

proof fn lemma_le_push(s: Seq<u8>, x: u8)
    ensures
        le_value(s.push(x)) == le_value(s) + pow256(s.len()) * x,
    decreases s.len(),
{
    if s.len() == 0 {
        assert(s.push(x).drop_first() =~= Seq::<u8>::empty());
        assert(le_value(Seq::<u8>::empty()) == 0);
        assert(pow256(0) == 1);
    } else {
        assert(s.push(x).drop_first() =~= s.drop_first().push(x));
        lemma_le_push(s.drop_first(), x);
        assert(pow256(s.len()) == 256 * pow256((s.len() - 1) as nat));
        assert(256 * (le_value(s.drop_first()) + pow256((s.len() - 1) as nat) * x)
            == 256 * le_value(s.drop_first()) + 256 * pow256((s.len() - 1) as nat) * x)
            by (nonlinear_arith);
    }
}

proof fn lemma_pow256_eight()
    ensures
        pow256(8) == 0x1_0000_0000_0000_0000,
{
    reveal_with_fuel(pow256, 9);
}

/// Writes the metadata record for a mapping of `size` data bytes under `kind`.
pub fn encode_meta(kind: LockKind, size: usize) -> (r: Vec<u8>)
    ensures
        describes(r@, kind, size as nat),
{
    let tag: u8 = match kind {
        LockKind::Unlocked => 0,
        LockKind::Mutex => 1,
        LockKind::ReaderWriter => 2,
    };
    let mut r: Vec<u8> = Vec::new();
    r.push(tag);
    let mut i: usize = 1;
    while i < 8
        invariant
            1 <= i <= 8,
            r@.len() == i,
            r@[0] == kind_tag(kind),
            forall|j: int| 1 <= j < i ==> r@[j] == 0u8,
        decreases 8 - i,
    {
        r.push(0u8);
        i = i + 1;
    }
    let mut v: u64 = size as u64;
    let mut k: usize = 0;
    proof {
        assert(r@.subrange(8, 8) =~= Seq::<u8>::empty());
    }
    while k < 8
        invariant
            k <= 8,
            r@.len() == 8 + k,
            r@[0] == kind_tag(kind),
            forall|j: int| 1 <= j < 8 ==> r@[j] == 0u8,
            size as nat == le_value(r@.subrange(8, 8 + k as int)) + pow256(k as nat) * v,
        decreases 8 - k,
    {
        let byte: u8 = (v % 256) as u8;
        let ghost before = r@.subrange(8, 8 + k as int);
        r.push(byte);
        proof {
            assert(r@.subrange(8, 8 + k + 1) =~= before.push(byte));
            lemma_le_push(before, byte);
            assert(pow256((k + 1) as nat) == 256 * pow256(k as nat));
            let p = pow256(k as nat);
            assert(p * (v as nat) == p * (byte as nat) + 256 * p * ((v / 256) as nat)) by (nonlinear_arith)
                requires
                    byte as nat == v % 256,
            ;
        }
        v = v / 256;
        k = k + 1;
    }
    proof {
        lemma_pow256_eight();
        assert(pow256(8) * v >= 0x1_0000_0000_0000_0000 * v) by (nonlinear_arith)
            requires
                pow256(8) == 0x1_0000_0000_0000_0000,
        ;
        if v > 0 {
            assert(0x1_0000_0000_0000_0000 * v >= 0x1_0000_0000_0000_0000) by (nonlinear_arith)
                requires
                    v > 0,
            ;
        }
    }
    r
}

proof fn lemma_le_bound(s: Seq<u8>)
    ensures
        le_value(s) < pow256(s.len()),
    decreases s.len(),
{
    if s.len() > 0 {
        lemma_le_bound(s.drop_first());
        let rest = le_value(s.drop_first());
        let p = pow256((s.len() - 1) as nat);
        assert(s[0] as nat + 256 * rest < 256 * p) by (nonlinear_arith)
            requires
                rest < p,
                s[0] < 256,
        ;
    }
}

/// Reads the metadata record at the start of a linked mapping.
pub fn decode_meta(b: &[u8]) -> (r: Result<(LockKind, usize), MemFileError>)
    ensures
        r is Ok <==> spec_decode_meta(b@) is Ok,
        r is Err ==> r == Err::<(LockKind, usize), MemFileError>(MemFileError::BackendError)
            && spec_decode_meta(b@) == Err::<(LockKind, nat), MemFileError>(MemFileError::BackendError),
        r is Ok ==> spec_decode_meta(b@) == Ok::<(LockKind, nat), MemFileError>(
            (r->Ok_0.0, r->Ok_0.1 as nat),
        ),
{
    if b.len() < META_LEN {
        return Err(MemFileError::BackendError);
    }
    let tag = b[0];
    let kind = if tag == 0 {
        LockKind::Unlocked
    } else if tag == 1 {
        LockKind::Mutex
    } else if tag == 2 {
        LockKind::ReaderWriter
    } else {
        return Err(MemFileError::BackendError);
    };
    let mut acc: u64 = 0;
    let mut i: usize = 16;
    proof {
        assert(b@.subrange(16, 16) =~= Seq::<u8>::empty());
    }
    while i > 8
        invariant
            8 <= i <= 16,
            b@.len() >= 16,
            acc as nat == le_value(b@.subrange(i as int, 16)),
        decreases i,
    {
        proof {
            let tail = b@.subrange(i as int, 16);
            let next = b@.subrange(i - 1, 16);
            assert(next.drop_first() =~= tail);
            lemma_le_bound(tail);
            assert(pow256(8) == 0x1_0000_0000_0000_0000) by {
                lemma_pow256_eight();
            }
            lemma_pow256_mono((16 - i) as nat, 7);
            assert((acc as nat) * 256 + (b[i - 1] as nat) < 0x1_0000_0000_0000_0000) by (nonlinear_arith)
                requires
                    acc < pow256((16 - i) as nat),
                    pow256((16 - i) as nat) <= pow256(7),
                    256 * pow256(7) == pow256(8),
                    pow256(8) == 0x1_0000_0000_0000_0000,
                    b[i - 1] < 256,
            ;
        }
        acc = acc * 256 + b[i - 1] as u64;
        i = i - 1;
    }
    if acc > usize::MAX as u64 {
        Err(MemFileError::BackendError)
    } else {
        Ok((kind, acc as usize))
    }
}

proof fn lemma_pow256_mono(a: nat, b: nat)
    requires
        a <= b,
    ensures
        pow256(a) <= pow256(b),
    decreases b,
{
    if a < b {
        lemma_pow256_mono(a, (b - 1) as nat);
        assert(pow256(b) == 256 * pow256((b - 1) as nat));
    }
}

/// A metadata record reads back as the lock kind and size it was written for.
pub proof fn lemma_meta_round_trip(b: Seq<u8>, kind: LockKind, size: nat)
    requires
        describes(b, kind, size),
        size <= usize::MAX,
    ensures
        spec_decode_meta(b) == Ok::<(LockKind, nat), MemFileError>((kind, size)),
{
}

/// The smallest multiple of `a` that is at least `n`.
pub open spec fn round_up(n: nat, a: nat) -> nat
    recommends
        a > 0,
{
    if n % a == 0 {
        n
    } else {
        (n + (a - n % a)) as nat
    }
}

/// Offset of the data section in a linked mapping: after the metadata record,
/// and after the native lock of `lock_len` bytes when there is a lock.
pub open spec fn spec_data_offset(kind: LockKind, lock_len: nat) -> nat {
    match kind {
        LockKind::Unlocked => META_LEN as nat,
        _ => round_up((META_LEN + lock_len) as nat, DATA_ALIGN as nat),
    }
}

/// Computes the offset of the data section, or `None` where it does not fit
/// in the address space.
pub fn data_offset(kind: LockKind, lock_len: usize) -> (r: Option<usize>)
    ensures
        r == (if spec_data_offset(kind, lock_len as nat) <= usize::MAX {
            Some(spec_data_offset(kind, lock_len as nat) as usize)
        } else {
            None::<usize>
        }),
{
    match kind {
        LockKind::Unlocked => Some(META_LEN),
        _ => {
            if lock_len > usize::MAX - META_LEN {
                return None;
            }
            let n = META_LEN + lock_len;
            let rem = n % DATA_ALIGN;
            if rem == 0 {
                Some(n)
            } else if n > usize::MAX - (DATA_ALIGN - rem) {
                None
            } else {
                Some(n + (DATA_ALIGN - rem))
            }
        },
    }
}

/// Length of a linked mapping with a data section of `size` bytes.
pub open spec fn spec_region_len(kind: LockKind, lock_len: nat, size: nat) -> nat {
    spec_data_offset(kind, lock_len) + size
}

/// Computes the length to reserve for a linked mapping, or `None` where it
/// does not fit in the address space.
pub fn region_len(kind: LockKind, lock_len: usize, size: usize) -> (r: Option<usize>)
    ensures
        r == (if spec_region_len(kind, lock_len as nat, size as nat) <= usize::MAX {
            Some(spec_region_len(kind, lock_len as nat, size as nat) as usize)
        } else {
            None::<usize>
        }),
{
    match data_offset(kind, lock_len) {
        None => None,
        Some(off) => {
            if off > usize::MAX - size {
                None
            } else {
                Some(off + size)
            }
        },
    }
}

} // verus!
