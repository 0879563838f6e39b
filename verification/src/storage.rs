//! Tier storage: owned contiguous regions with a tier tag, a base address,
//! byte contents, a registration side-table and a lifecycle flag.
//!
//! Each region's contents are modelled as plain bytes so that every
//! operation on them is executable and verified; the base address is an
//! opaque integer that is non-null and aligned to the tier's native
//! alignment.

use vstd::prelude::*;

verus! {

/// The tier tag of a storage region: one address space with its own
/// allocation and access semantics.
#[derive(Debug, Clone, Copy, PartialEq, Eq, Structural)]
pub enum StorageType {
    /// Ordinary pageable host memory.
    System,
    /// Page-locked host memory, addressable by both the host and the GPU.
    Pinned,
    /// GPU device memory, allocated under the given device id.
    Device(u32),
    /// File-backed storage; the payload is the file descriptor.
    Disk(u64),
    /// A remote region known only through a fabric descriptor.
    Nixl,
}

/// The memory type carried by a fabric descriptor.
#[derive(Debug, Clone, Copy, PartialEq, Eq, Structural)]
pub enum MemType {
    /// Pageable host memory.
    Host,
    /// Page-locked host memory.
    HostPinned,
    /// GPU device memory.
    Gpu,
    /// A file region.
    File,
}

impl StorageType {
    /// True for the tiers whose regions live in this process's address spaces.
    pub open spec fn spec_is_local(self) -> bool {
        self != StorageType::Nixl
    }

    /// True for the tiers whose regions live in this process's address spaces.
    pub fn is_local(&self) -> (r: bool)
        ensures
            r == self.spec_is_local(),
    {
        !(matches!(self, StorageType::Nixl))
    }

    /// The fabric memory type a region of this tier is described as.
    /// Only local tiers can source a fabric descriptor.
    pub open spec fn spec_nixl_mem_type(self) -> MemType {
        match self {
            StorageType::System => MemType::Host,
            StorageType::Pinned => MemType::HostPinned,
            StorageType::Device(_) => MemType::Gpu,
            StorageType::Disk(_) => MemType::File,
            StorageType::Nixl => MemType::Host,
        }
    }

    /// The fabric memory type a region of this tier is described as.
    pub fn nixl_mem_type(&self) -> (m: MemType)
        requires
            self.spec_is_local(),
        ensures
            m == self.spec_nixl_mem_type(),
    {
        match self {
            StorageType::System => MemType::Host,
            StorageType::Pinned => MemType::HostPinned,
            StorageType::Device(_) => MemType::Gpu,
            StorageType::Disk(_) => MemType::File,
            StorageType::Nixl => MemType::Host,
        }
    }

    /// The device-id field carried by a fabric descriptor for this tier:
    /// zero for host tiers, the GPU device id for device memory, and the
    /// file descriptor for disk regions.
    pub open spec fn spec_descriptor_device_id(self) -> u64 {
        match self {
            StorageType::System => 0,
            StorageType::Pinned => 0,
            StorageType::Device(device_id) => device_id as u64,
            StorageType::Disk(fd) => fd,
            StorageType::Nixl => 0,
        }
    }

    /// The native alignment of the tier, in bytes.
    pub open spec fn spec_alignment(self) -> u64 {
        match self {
            StorageType::System => 8,
            StorageType::Pinned => 4096,
            StorageType::Device(_) => 256,
            StorageType::Disk(_) => 1,
            StorageType::Nixl => 1,
        }
    }

    /// The native alignment of the tier, in bytes.
    pub fn alignment(&self) -> (a: u64)
        ensures
            a == self.spec_alignment(),
            1 <= a <= 4096,
    {
        match self {
            StorageType::System => 8,
            StorageType::Pinned => 4096,
            StorageType::Device(_) => 256,
            StorageType::Disk(_) => 1,
            StorageType::Nixl => 1,
        }
    }
}

/// Errors raised by allocation, registration and raw region operations.
#[derive(Debug, PartialEq, Eq)]
pub enum StorageError {
    /// A GPU driver operation failed; the payload describes it.
    Cuda(String),
    /// A region operation (bounds, exhaustion, double registration) failed.
    OperationFailed(String),
    /// A configuration was rejected, e.g. a foreign tensor on the wrong device.
    InvalidConfig(String),
}

/// Marker for storage tiers owned by this process.
pub trait Local {}

/// Marker for storage tiers reached only through the fabric.
pub trait Remote {}

/// Marker for storage tiers directly addressable by host code.
pub trait SystemAccessible {}

/// An opaque handle returned by an external registration (e.g. a fabric pin),
/// held in a storage's registration table until the storage is released.
#[derive(Debug, Clone, Copy, PartialEq, Eq, Structural)]
pub struct RegistrationHandle {
    /// The opaque token.
    pub id: u64,
}

impl RegistrationHandle {
    /// Wrap an opaque registration token.
    pub fn new(id: u64) -> (h: RegistrationHandle)
        ensures
            h.id == id,
    {
        RegistrationHandle { id }
    }

    /// The opaque token this handle carries.
    pub fn id(&self) -> (r: u64)
        ensures
            r == self.id,
    {
        self.id
    }
}

/// A per-storage side-table of named opaque registrations.
/// Insertion is idempotent by key: a second insert under the same key fails.
pub struct RegistrationHandles {
    entries: Vec<(String, RegistrationHandle)>,
}

impl RegistrationHandles {
    /// The keys currently registered, in insertion order.
    pub closed spec fn spec_keys(self) -> Seq<Seq<char>> {
        self.entries@.map(|i: int, e: (String, RegistrationHandle)| e.0@)
    }

    /// The (key, handle id) pairs currently registered, in insertion order.
    pub closed spec fn spec_entries(self) -> Seq<(Seq<char>, u64)> {
        self.entries@.map(|i: int, e: (String, RegistrationHandle)| (e.0@, e.1.id))
    }

    /// Whether `key` is registered.
    pub open spec fn spec_contains(self, key: Seq<char>) -> bool {
        self.spec_keys().contains(key)
    }

    /// Keys are pairwise distinct.
    pub open spec fn inv(self) -> bool {
        forall|i: int, j: int|
            0 <= i < j < self.spec_keys().len() ==> self.spec_keys()[i] != self.spec_keys()[j]
    }

    /// An empty table.
    pub fn new() -> (t: RegistrationHandles)
        ensures
            t.inv(),
            t.spec_keys() == Seq::<Seq<char>>::empty(),
            t.spec_entries() == Seq::<(Seq<char>, u64)>::empty(),
    {
        let t = RegistrationHandles { entries: Vec::new() };
        proof {
            assert(t.spec_keys() =~= Seq::<Seq<char>>::empty());
            assert(t.spec_entries() =~= Seq::<(Seq<char>, u64)>::empty());
        }
        t
    }

    /// Whether `key` is registered.
    pub fn is_registered(&self, key: &str) -> (r: bool)
        ensures
            r == self.spec_contains(key@),
    {
        let key_string: String = key.to_owned();
        let mut i: usize = 0;
        let n = self.entries.len();
        while i < n
            invariant
                key_string@ == key@,
                n == self.entries.len(),
                i <= n,
                forall|j: int| 0 <= j < i ==> self.spec_keys()[j] != key@,
            decreases n - i,
        {
            if self.entries[i].0 == key_string {
                assert(self.spec_keys()[i as int] == key@);
                return true;
            }
            assert(self.spec_keys()[i as int] != key@);
            i = i + 1;
        }
        proof {
            assert(forall|j: int| 0 <= j < self.spec_keys().len() ==> self.spec_keys()[j] != key@);
        }
        false
    }

    /// Register `handle` under `key`; fails if `key` is already present,
    /// leaving the table unchanged.
    pub fn register(&mut self, key: &str, handle: RegistrationHandle) -> (r: Result<
        (),
        StorageError,
    >)
        requires
            old(self).inv(),
        ensures
            final(self).inv(),
            match r {
                Ok(()) => !old(self).spec_contains(key@) && final(self).spec_entries()
                    == old(self).spec_entries().push((key@, handle.id)),
                Err(StorageError::OperationFailed(_)) => old(self).spec_contains(key@)
                    && *final(self) == *old(self),
                Err(_) => false,
            },
    {
        if self.is_registered(key) {
            return Err(
                StorageError::OperationFailed("a handle is already registered under this key".to_owned()),
            );
        }
        let ghost old_entries = self.spec_entries();
        let ghost old_keys = self.spec_keys();
        self.entries.push((key.to_owned(), handle));
        proof {
            assert(self.spec_entries() =~= old_entries.push((key@, handle.id)));
            assert(self.spec_keys() =~= old_keys.push(key@));
            assert forall|i: int, j: int|
                0 <= i < j < self.spec_keys().len() implies self.spec_keys()[i]
                != self.spec_keys()[j] by {
                if j == self.spec_keys().len() - 1 {
                    assert(self.spec_keys()[i] == old_keys[i]);
                    assert(!old_keys.contains(key@));
                }
            }
        }
        Ok(())
    }

    /// Look up the handle registered under `key`.
    pub fn registration_handle(&self, key: &str) -> (r: Option<&RegistrationHandle>)
        ensures
            match r {
                Some(h) => self.spec_contains(key@) && self.spec_entries().contains((key@, h.id)),
                None => !self.spec_contains(key@),
            },
    {
        let key_string: String = key.to_owned();
        let mut i: usize = 0;
        let n = self.entries.len();
        while i < n
            invariant
                key_string@ == key@,
                n == self.entries.len(),
                i <= n,
                forall|j: int| 0 <= j < i ==> self.spec_keys()[j] != key@,
            decreases n - i,
        {
            if self.entries[i].0 == key_string {
                assert(self.spec_keys()[i as int] == key@);
                assert(self.spec_entries()[i as int] == (key@, self.entries@[i as int].1.id));
                return Some(&self.entries[i].1);
            }
            assert(self.spec_keys()[i as int] != key@);
            i = i + 1;
        }
        None
    }

    /// Release every handle, in insertion-independent order, emptying the table.
    pub fn release(&mut self)
        ensures
            final(self).inv(),
            final(self).spec_keys() == Seq::<Seq<char>>::empty(),
            final(self).spec_entries() == Seq::<(Seq<char>, u64)>::empty(),
    {
        self.entries.clear();
        proof {
            assert(self.spec_keys() =~= Seq::<Seq<char>>::empty());
            assert(self.spec_entries() =~= Seq::<(Seq<char>, u64)>::empty());
        }
    }

    /// The number of registered handles.
    pub fn len(&self) -> (n: usize)
        ensures
            n == self.spec_keys().len(),
    {
        self.entries.len()
    }

    /// The key sequence is the first projection of the entry sequence.
    pub proof fn lemma_entries_keys(self)
        ensures
            self.spec_entries().len() == self.spec_keys().len(),
            forall|i: int|
                0 <= i < self.spec_entries().len() ==> self.spec_entries()[i].0
                    == self.spec_keys()[i],
            forall|key: Seq<char>|
                spec_regs_contains(self.spec_entries(), key) == self.spec_contains(key),
    {
        assert forall|key: Seq<char>|
            spec_regs_contains(self.spec_entries(), key) == self.spec_contains(key) by {
            if spec_regs_contains(self.spec_entries(), key) {
                let i = choose|i: int|
                    0 <= i < self.spec_entries().len() && self.spec_entries()[i].0 == key;
                assert(self.spec_keys()[i] == key);
            }
            if self.spec_contains(key) {
                let i = choose|i: int|
                    0 <= i < self.spec_keys().len() && self.spec_keys()[i] == key;
                assert(self.spec_entries()[i].0 == key);
            }
        }
    }
}


/// `orig` with the `len` bytes from `off` on overwritten by `v`.
pub open spec fn overwritten(orig: Seq<u8>, off: int, len: int, v: u8) -> Seq<u8> {
    Seq::new(orig.len(), |i: int| if off <= i < off + len { v } else { orig[i] })
}

/// Whether `key` appears in a registration entry sequence.
pub open spec fn spec_regs_contains(regs: Seq<(Seq<char>, u64)>, key: Seq<char>) -> bool {
    exists|i: int| 0 <= i < regs.len() && regs[i].0 == key
}

/// The backing state shared by every locally owned region: model byte
/// contents, base address, registration table and lifecycle flag.
pub(crate) struct RegionInner {
    pub(crate) bytes: Vec<u8>,
    pub(crate) addr: u64,
    pub(crate) regs: RegistrationHandles,
    pub(crate) released: bool,
}

/// `len` bytes of freshly allocated model memory.
pub(crate) fn fresh_bytes(len: usize) -> (v: Vec<u8>)
    ensures
        v@.len() == len,
{
    let mut v: Vec<u8> = Vec::new();
    let mut i: usize = 0;
    while i < len
        invariant
            i <= len,
            v@.len() == i,
        decreases len - i,
    {
        v.push(0);
        i = i + 1;
    }
    v
}

/// A contiguous owned region in one storage tier.
///
/// The region is created by an allocator, mutated only through `memset`
/// or a memory view, and ends its life with `release`, which drops all
/// registrations first; whether the backing memory itself is freed then
/// depends on the owner record (adopted foreign regions are not freed).
pub trait Storage: Sized {
    /// The region's byte contents.
    spec fn spec_bytes(&self) -> Seq<u8>;

    /// The region's base address (for disk regions, the file descriptor).
    spec fn spec_addr(&self) -> u64;

    /// The region's tier tag.
    spec fn spec_storage_type(&self) -> StorageType;

    /// Whether the region has reached the end of its lifecycle.
    spec fn spec_released(&self) -> bool;

    /// The registration table's (key, handle id) entries, in insertion order.
    spec fn spec_regs(&self) -> Seq<(Seq<char>, u64)>;

    /// Whether releasing this storage frees the backing memory
    /// (false for adopted foreign regions and for remote regions).
    spec fn spec_frees_on_release(&self) -> bool;

    /// Well-formedness: non-null tier-aligned base address, bounded size,
    /// distinct registration keys.
    spec fn inv(&self) -> bool;

    /// Every well-formed region has a non-null base address aligned to its
    /// tier's native alignment, and a size below the signed-size limit.
    proof fn inv_properties(&self)
        requires
            self.inv(),
        ensures
            self.spec_addr() != 0,
            self.spec_addr() % self.spec_storage_type().spec_alignment() == 0,
            self.spec_bytes().len() < 0x8000_0000_0000_0000,
            self.spec_addr() + self.spec_bytes().len() <= u64::MAX,
    ;

    /// The region's tier tag.
    fn storage_type(&self) -> (t: StorageType)
        ensures
            t == self.spec_storage_type(),
    ;

    /// The region's base address.
    fn addr(&self) -> (a: u64)
        ensures
            a == self.spec_addr(),
    ;

    /// The region's size in bytes.
    fn size(&self) -> (n: usize)
        ensures
            n == self.spec_bytes().len(),
    ;

    /// Whether the region has been released.
    fn released(&self) -> (r: bool)
        ensures
            r == self.spec_released(),
    ;

    /// Read the byte at `offset`.
    fn read_byte(&self, offset: usize) -> (b: u8)
        requires
            self.inv(),
            !self.spec_released(),
            offset < self.spec_bytes().len(),
        ensures
            b == self.spec_bytes()[offset as int],
    ;

    /// Overwrite the byte at `offset`.
    fn write_byte(&mut self, offset: usize, value: u8)
        requires
            old(self).inv(),
            !old(self).spec_released(),
            offset < old(self).spec_bytes().len(),
        ensures
            final(self).inv(),
            final(self).spec_bytes() == old(self).spec_bytes().update(offset as int, value),
            final(self).spec_addr() == old(self).spec_addr(),
            final(self).spec_storage_type() == old(self).spec_storage_type(),
            !final(self).spec_released(),
            final(self).spec_regs() == old(self).spec_regs(),
            final(self).spec_frees_on_release() == old(self).spec_frees_on_release(),
    ;

    /// End the region's lifecycle: drop every registration, then give the
    /// backing memory back to its owner (the tier deallocator, or the
    /// external owner for adopted regions). Irreversible.
    fn release(&mut self)
        requires
            old(self).inv(),
        ensures
            final(self).inv(),
            final(self).spec_released(),
            final(self).spec_regs() == Seq::<(Seq<char>, u64)>::empty(),
            final(self).spec_addr() == old(self).spec_addr(),
            final(self).spec_storage_type() == old(self).spec_storage_type(),
            final(self).spec_frees_on_release() == old(self).spec_frees_on_release(),
    ;

    /// Whether releasing this storage frees the backing memory.
    fn frees_on_release(&self) -> (r: bool)
        ensures
            r == self.spec_frees_on_release(),
    ;
}

/// Bounded byte-fill over a storage region.
pub trait StorageMemset: Storage {
    /// Set the `size` bytes from `offset` on to `value`. Fails, leaving
    /// the contents unchanged, if the range is out of bounds or the
    /// region was already released.
    fn memset(&mut self, value: u8, offset: usize, size: usize) -> (r: Result<(), StorageError>)
        requires
            old(self).inv(),
        ensures
            final(self).inv(),
            final(self).spec_addr() == old(self).spec_addr(),
            final(self).spec_storage_type() == old(self).spec_storage_type(),
            final(self).spec_released() == old(self).spec_released(),
            final(self).spec_regs() == old(self).spec_regs(),
            final(self).spec_frees_on_release() == old(self).spec_frees_on_release(),
            match r {
                Ok(()) => !old(self).spec_released() && offset + size <= old(
                    self,
                ).spec_bytes().len() && final(self).spec_bytes() == overwritten(
                    old(self).spec_bytes(),
                    offset as int,
                    size as int,
                    value,
                ),
                Err(StorageError::OperationFailed(_)) => (old(self).spec_released() || offset
                    + size > old(self).spec_bytes().len()) && final(self).spec_bytes() == old(
                    self,
                ).spec_bytes(),
                Err(_) => false,
            },
    {
        if self.released() {
            return Err(StorageError::OperationFailed("memset: storage already released".to_owned()));
        }
        let n = self.size();
        if offset > n || size > n - offset {
            return Err(StorageError::OperationFailed("memset: offset + size > storage size".to_owned()));
        }
        let mut i: usize = 0;
        while i < size
            invariant
                self.inv(),
                !self.spec_released(),
                i <= size,
                offset + size <= usize::MAX,
                offset + size <= self.spec_bytes().len(),
                self.spec_bytes().len() == old(self).spec_bytes().len(),
                self.spec_addr() == old(self).spec_addr(),
                self.spec_storage_type() == old(self).spec_storage_type(),
                self.spec_regs() == old(self).spec_regs(),
                self.spec_frees_on_release() == old(self).spec_frees_on_release(),
                self.spec_bytes() == overwritten(
                    old(self).spec_bytes(),
                    offset as int,
                    i as int,
                    value,
                ),
            decreases size - i,
        {
            let ghost prev = self.spec_bytes();
            self.write_byte(offset + i, value);
            proof {
                assert(self.spec_bytes() =~= overwritten(
                    old(self).spec_bytes(),
                    offset as int,
                    (i + 1) as int,
                    value,
                ));
            }
            i = i + 1;
        }
        Ok(())
    }
}

/// Named opaque registration of a storage region (e.g. a fabric pin).
pub trait RegisterableStorage: Storage {
    /// Register `handle` under `key`; fails if `key` is already present
    /// or the region was released, leaving the table unchanged.
    fn register(&mut self, key: &str, handle: RegistrationHandle) -> (r: Result<(), StorageError>)
        requires
            old(self).inv(),
        ensures
            final(self).inv(),
            final(self).spec_bytes() == old(self).spec_bytes(),
            final(self).spec_addr() == old(self).spec_addr(),
            final(self).spec_storage_type() == old(self).spec_storage_type(),
            final(self).spec_released() == old(self).spec_released(),
            final(self).spec_frees_on_release() == old(self).spec_frees_on_release(),
            match r {
                Ok(()) => !old(self).spec_released() && !spec_regs_contains(
                    old(self).spec_regs(),
                    key@,
                ) && final(self).spec_regs() == old(self).spec_regs().push((key@, handle.id)),
                Err(StorageError::OperationFailed(_)) => (old(self).spec_released()
                    || spec_regs_contains(old(self).spec_regs(), key@)) && final(self).spec_regs()
                    == old(self).spec_regs(),
                Err(_) => false,
            },
    ;

    /// Whether a handle is registered under `key`.
    fn is_registered(&self, key: &str) -> (r: bool)
        ensures
            r == spec_regs_contains(self.spec_regs(), key@),
    ;

    /// The handle registered under `key`, if any.
    fn registration_handle(&self, key: &str) -> (r: Option<&RegistrationHandle>)
        ensures
            match r {
                Some(h) => self.spec_regs().contains((key@, h.id)),
                None => !spec_regs_contains(self.spec_regs(), key@),
            },
    ;
}

/// One allocator per tier: `allocate(size)` yields a fresh region of that
/// tier or an error.
pub trait StorageAllocator<S: Storage>: Sized {
    /// The allocator's internal state is well formed.
    spec fn inv(&self) -> bool;

    /// The tier tag the next allocation will carry.
    spec fn spec_tier(&self) -> StorageType;

    /// Whether the allocator can still serve `size` bytes (the model
    /// address space is not exhausted and `size` is below the signed-size
    /// limit).
    spec fn spec_can_allocate(&self, size: usize) -> bool;

    /// Allocate a fresh region of `size` bytes.
    fn allocate(&mut self, size: usize) -> (r: Result<S, StorageError>)
        requires
            old(self).inv(),
        ensures
            final(self).inv(),
            match r {
                Ok(s) => old(self).spec_can_allocate(size) && s.inv() && !s.spec_released()
                    && s.spec_bytes().len() == size && s.spec_addr() != 0 && s.spec_addr()
                    % s.spec_storage_type().spec_alignment() == 0 && s.spec_storage_type() == old(
                    self,
                ).spec_tier() && s.spec_regs() == Seq::<(Seq<char>, u64)>::empty(),
                Err(StorageError::OperationFailed(_)) => !old(self).spec_can_allocate(size),
                Err(_) => false,
            },
    ;
}


/// Round `x` up to the next multiple of `align`.
pub(crate) fn round_up(x: u64, align: u64) -> (r: u64)
    requires
        1 <= align,
        x + align <= u64::MAX,
    ensures
        x <= r < x + align,
        r % align == 0,
{
    let rem = x % align;
    if rem == 0 {
        x
    } else {
        proof {
            let q = x as int / align as int;
            vstd::arithmetic::div_mod::lemma_fundamental_div_mod(x as int, align as int);
            assert((q + 1) * align as int == q * align as int + align as int) by (nonlinear_arith);
            vstd::arithmetic::div_mod::lemma_mod_multiples_basic(q + 1, align as int);
            assert((x + (align - rem)) as int == (q + 1) * align as int);
        }
        x + (align - rem)
    }
}

/// Ordinary pageable host memory.
///
/// Participates in plain byte copies; a GPU copy from or to it must run
/// on the blocking path because the pager may move it mid-transfer.
pub struct SystemStorage {
    pub(crate) inner: RegionInner,
}

impl Local for SystemStorage {}

impl SystemAccessible for SystemStorage {}

impl Storage for SystemStorage {
    closed spec fn spec_bytes(&self) -> Seq<u8> {
        self.inner.bytes@
    }

    closed spec fn spec_addr(&self) -> u64 {
        self.inner.addr
    }

    open spec fn spec_storage_type(&self) -> StorageType {
        StorageType::System
    }

    closed spec fn spec_released(&self) -> bool {
        self.inner.released
    }

    closed spec fn spec_regs(&self) -> Seq<(Seq<char>, u64)> {
        self.inner.regs.spec_entries()
    }

    open spec fn spec_frees_on_release(&self) -> bool {
        true
    }

    closed spec fn inv(&self) -> bool {
        &&& self.inner.addr != 0
        &&& self.inner.addr % 8 == 0
        &&& self.inner.bytes@.len() < 0x8000_0000_0000_0000
        &&& self.inner.addr + self.inner.bytes@.len() <= u64::MAX
        &&& self.inner.regs.inv()
    }

    proof fn inv_properties(&self) {
    }

    fn storage_type(&self) -> StorageType {
        StorageType::System
    }

    fn addr(&self) -> u64 {
        self.inner.addr
    }

    fn size(&self) -> usize {
        self.inner.bytes.len()
    }

    fn released(&self) -> bool {
        self.inner.released
    }

    fn read_byte(&self, offset: usize) -> u8 {
        self.inner.bytes[offset]
    }

    fn write_byte(&mut self, offset: usize, value: u8) {
        self.inner.bytes.set(offset, value);
    }

    fn release(&mut self) {
        self.inner.regs.release();
        self.inner.released = true;
    }

    fn frees_on_release(&self) -> bool {
        true
    }
}

impl StorageMemset for SystemStorage {

}

impl RegisterableStorage for SystemStorage {
    fn register(&mut self, key: &str, handle: RegistrationHandle) -> Result<(), StorageError> {
        proof {
            self.inner.regs.lemma_entries_keys();
        }
        if self.inner.released {
            return Err(
                StorageError::OperationFailed("register: storage already released".to_owned()),
            );
        }
        let r = self.inner.regs.register(key, handle);
        r
    }

    fn is_registered(&self, key: &str) -> bool {
        proof {
            self.inner.regs.lemma_entries_keys();
        }
        self.inner.regs.is_registered(key)
    }

    fn registration_handle(&self, key: &str) -> Option<&RegistrationHandle> {
        proof {
            self.inner.regs.lemma_entries_keys();
        }
        self.inner.regs.registration_handle(key)
    }
}

/// Allocator for ordinary host memory regions.
pub struct SystemAllocator {
    next_addr: u64,
}

impl SystemAllocator {
    /// A fresh allocator over the whole model address space.
    pub fn new() -> (a: SystemAllocator)
        ensures
            a.inv(),
            a.spec_tier() == StorageType::System,
            forall|s: usize| (s as int) < (isize::MAX as int) ==> a.spec_can_allocate(s),
    {
        SystemAllocator { next_addr: 0x1000 }
    }
}

impl Default for SystemAllocator {
    fn default() -> (a: SystemAllocator)
        ensures
            a.inv(),
            a.spec_tier() == StorageType::System,
            forall|s: usize| (s as int) < (isize::MAX as int) ==> a.spec_can_allocate(s),
    {
        SystemAllocator::new()
    }
}

impl StorageAllocator<SystemStorage> for SystemAllocator {
    closed spec fn inv(&self) -> bool {
        self.next_addr != 0 && self.next_addr % 8 == 0
    }

    open spec fn spec_tier(&self) -> StorageType {
        StorageType::System
    }

    closed spec fn spec_can_allocate(&self, size: usize) -> bool {
        (size as int) < (isize::MAX as int) && self.next_addr + size + 8 <= u64::MAX
    }

    fn allocate(&mut self, size: usize) -> Result<SystemStorage, StorageError> {
        if size >= (isize::MAX as usize) {
            return Err(
                StorageError::OperationFailed("allocate: size exceeds the signed-size limit".to_owned()),
            );
        }
        let size64 = size as u64;
        if self.next_addr > u64::MAX - 8 - size64 {
            return Err(
                StorageError::OperationFailed("allocate: model address space exhausted".to_owned()),
            );
        }
        let addr = self.next_addr;
        self.next_addr = round_up(addr + size64, 8);
        Ok(
            SystemStorage {
                inner: RegionInner {
                    bytes: fresh_bytes(size),
                    addr,
                    regs: RegistrationHandles::new(),
                    released: false,
                },
            },
        )
    }
}

/// File-backed storage: the address is the file descriptor and the size
/// is the file length.
pub struct DiskStorage {
    pub(crate) inner: RegionInner,
}

impl Local for DiskStorage {}

impl Storage for DiskStorage {
    closed spec fn spec_bytes(&self) -> Seq<u8> {
        self.inner.bytes@
    }

    closed spec fn spec_addr(&self) -> u64 {
        self.inner.addr
    }

    closed spec fn spec_storage_type(&self) -> StorageType {
        StorageType::Disk(self.inner.addr)
    }

    closed spec fn spec_released(&self) -> bool {
        self.inner.released
    }

    closed spec fn spec_regs(&self) -> Seq<(Seq<char>, u64)> {
        self.inner.regs.spec_entries()
    }

    open spec fn spec_frees_on_release(&self) -> bool {
        true
    }

    closed spec fn inv(&self) -> bool {
        &&& self.inner.addr != 0
        &&& self.inner.bytes@.len() < 0x8000_0000_0000_0000
        &&& self.inner.addr + self.inner.bytes@.len() <= u64::MAX
        &&& self.inner.regs.inv()
    }

    proof fn inv_properties(&self) {
    }

    fn storage_type(&self) -> StorageType {
        StorageType::Disk(self.inner.addr)
    }

    fn addr(&self) -> u64 {
        self.inner.addr
    }

    fn size(&self) -> usize {
        self.inner.bytes.len()
    }

    fn released(&self) -> bool {
        self.inner.released
    }

    fn read_byte(&self, offset: usize) -> u8 {
        self.inner.bytes[offset]
    }

    fn write_byte(&mut self, offset: usize, value: u8) {
        self.inner.bytes.set(offset, value);
    }

    fn release(&mut self) {
        self.inner.regs.release();
        self.inner.released = true;
    }

    fn frees_on_release(&self) -> bool {
        true
    }
}

impl StorageMemset for DiskStorage {

}

impl RegisterableStorage for DiskStorage {
    fn register(&mut self, key: &str, handle: RegistrationHandle) -> Result<(), StorageError> {
        proof {
            self.inner.regs.lemma_entries_keys();
        }
        if self.inner.released {
            return Err(
                StorageError::OperationFailed("register: storage already released".to_owned()),
            );
        }
        let r = self.inner.regs.register(key, handle);
        r
    }

    fn is_registered(&self, key: &str) -> bool {
        proof {
            self.inner.regs.lemma_entries_keys();
        }
        self.inner.regs.is_registered(key)
    }

    fn registration_handle(&self, key: &str) -> Option<&RegistrationHandle> {
        proof {
            self.inner.regs.lemma_entries_keys();
        }
        self.inner.regs.registration_handle(key)
    }
}

/// Allocator for file-backed regions; each allocation takes a fresh
/// model file descriptor.
pub struct DiskAllocator {
    next_fd: u64,
}

impl DiskAllocator {
    /// A fresh allocator; descriptors start past the standard streams.
    pub fn new() -> (a: DiskAllocator)
        ensures
            a.inv(),
            forall|s: usize| (s as int) < (isize::MAX as int) ==> a.spec_can_allocate(s),
    {
        DiskAllocator { next_fd: 3 }
    }
}

impl Default for DiskAllocator {
    fn default() -> (a: DiskAllocator)
        ensures
            a.inv(),
            forall|s: usize| (s as int) < (isize::MAX as int) ==> a.spec_can_allocate(s),
    {
        DiskAllocator::new()
    }
}

impl StorageAllocator<DiskStorage> for DiskAllocator {
    closed spec fn inv(&self) -> bool {
        self.next_fd != 0
    }

    closed spec fn spec_tier(&self) -> StorageType {
        StorageType::Disk(self.next_fd)
    }

    closed spec fn spec_can_allocate(&self, size: usize) -> bool {
        (size as int) < (isize::MAX as int) && self.next_fd + size + 1 <= u64::MAX
    }

    fn allocate(&mut self, size: usize) -> Result<DiskStorage, StorageError> {
        if size >= (isize::MAX as usize) {
            return Err(
                StorageError::OperationFailed("allocate: size exceeds the signed-size limit".to_owned()),
            );
        }
        let size64 = size as u64;
        if self.next_fd > u64::MAX - 1 - size64 {
            return Err(
                StorageError::OperationFailed("allocate: model descriptor space exhausted".to_owned()),
            );
        }
        let fd = self.next_fd;
        self.next_fd = fd + 1;
        Ok(
            DiskStorage {
                inner: RegionInner {
                    bytes: fresh_bytes(size),
                    addr: fd,
                    regs: RegistrationHandles::new(),
                    released: false,
                },
            },
        )
    }
}


/// Law: after a bounded fill of `len` bytes at `off` with `v`, reading
/// back any byte inside the range yields `v`, and any byte outside it
/// is unchanged; the region's length does not change.
pub proof fn lemma_memset_readback(orig: Seq<u8>, off: int, len: int, v: u8, i: int)
    requires
        0 <= i < orig.len(),
    ensures
        off <= i < off + len ==> overwritten(orig, off, len, v)[i] == v,
        !(off <= i < off + len) ==> overwritten(orig, off, len, v)[i] == orig[i],
        overwritten(orig, off, len, v).len() == orig.len(),
{
}

} // verus!
