//! Typed memory views: bounded, kind-tagged windows into a storage
//! region, and their conversion into fabric memory descriptors.
//!
//! A view carries the storage's tier tag so it can be used as a fabric
//! descriptor without consulting the storage again. The kind tag
//! distinguishes whole-block views from single-layer views; the two have
//! the same representation but must not be mixed at the strategy
//! boundary.

use vstd::prelude::*;

use crate::storage::{MemType, Storage, StorageType};

verus! {

/// Errors raised by view construction and per-block copies.
#[derive(Debug, PartialEq, Eq)]
pub enum BlockError {
    /// The requested window `(offset, size)` does not fit a region of the
    /// given length.
    InvalidRange(usize, usize, usize),
    /// The backing storage was already released.
    StorageReleased,
    /// A copy was requested between blocks of the given unequal sizes.
    SizeMismatch(usize, usize),
}

/// The granularity tag of a view.
pub trait Kind: Sized + core::marker::Copy {}

/// A view of one whole block.
#[derive(Debug, Clone, Copy)]
pub struct BlockKind;

impl Kind for BlockKind {}

/// A view of a single layer slice of a block.
#[derive(Debug, Clone, Copy)]
pub struct LayerKind;

impl Kind for LayerKind {}

/// The mutability tag of a fabric descriptor.
pub trait MutabilityKind: Sized + core::marker::Copy {}

/// Descriptor over memory that is only read.
#[derive(Debug, Clone, Copy)]
pub struct IsImmutable;

impl MutabilityKind for IsImmutable {}

/// Descriptor over memory that may be written.
#[derive(Debug, Clone, Copy)]
pub struct IsMutable;

impl MutabilityKind for IsMutable {}

/// A fabric memory descriptor: the memory type, device id, address and
/// size under which a region is posted to the fabric.
#[derive(Debug)]
pub struct NixlMemoryDescriptor<K: Kind, M: MutabilityKind> {
    addr: u64,
    size: usize,
    mem_type: MemType,
    device_id: u64,
    kind: core::marker::PhantomData<K>,
    mutability: core::marker::PhantomData<M>,
}

impl<K: Kind, M: MutabilityKind> NixlMemoryDescriptor<K, M> {
    /// The described address.
    pub closed spec fn spec_addr(&self) -> u64 {
        self.addr
    }

    /// The described size in bytes.
    pub closed spec fn spec_size(&self) -> usize {
        self.size
    }

    /// The described memory type.
    pub closed spec fn spec_mem_type(&self) -> MemType {
        self.mem_type
    }

    /// The described device id (or file descriptor).
    pub closed spec fn spec_device_id(&self) -> u64 {
        self.device_id
    }

    /// Build a descriptor from its four fields.
    pub fn new(addr: u64, size: usize, mem_type: MemType, device_id: u64) -> (d:
        NixlMemoryDescriptor<K, M>)
        ensures
            d.spec_addr() == addr,
            d.spec_size() == size,
            d.spec_mem_type() == mem_type,
            d.spec_device_id() == device_id,
    {
        NixlMemoryDescriptor {
            addr,
            size,
            mem_type,
            device_id,
            kind: core::marker::PhantomData,
            mutability: core::marker::PhantomData,
        }
    }

    /// The described address.
    pub fn addr(&self) -> (a: u64)
        ensures
            a == self.spec_addr(),
    {
        self.addr
    }

    /// The described size in bytes.
    pub fn size(&self) -> (s: usize)
        ensures
            s == self.spec_size(),
    {
        self.size
    }

    /// The described memory type.
    pub fn mem_type(&self) -> (m: MemType)
        ensures
            m == self.spec_mem_type(),
    {
        self.mem_type
    }

    /// The described device id (or file descriptor).
    pub fn device_id(&self) -> (d: u64)
        ensures
            d == self.spec_device_id(),
    {
        self.device_id
    }
}

/// A read-only window into a storage region: immutable views may alias.
#[derive(Debug)]
pub struct MemoryView<S: Storage, K: Kind> {
    addr: u64,
    offset: usize,
    size: usize,
    storage_type: StorageType,
    storage: core::marker::PhantomData<S>,
    kind: core::marker::PhantomData<K>,
}

/// A writable window into a storage region: at most one mutable view per
/// overlapping range at a time.
#[derive(Debug)]
pub struct MemoryViewMut<S: Storage, K: Kind> {
    addr: u64,
    offset: usize,
    size: usize,
    storage_type: StorageType,
    storage: core::marker::PhantomData<S>,
    kind: core::marker::PhantomData<K>,
}

/// A read-only view of one whole block.
pub type BlockView<S> = MemoryView<S, BlockKind>;

/// A writable view of one whole block.
pub type BlockViewMut<S> = MemoryViewMut<S, BlockKind>;

/// A read-only view of a single layer.
pub type LayerView<S> = MemoryView<S, LayerKind>;

/// A writable view of a single layer.
pub type LayerViewMut<S> = MemoryViewMut<S, LayerKind>;

impl<S: Storage, K: Kind> MemoryView<S, K> {
    /// The view's absolute base address.
    pub closed spec fn spec_addr(&self) -> u64 {
        self.addr
    }

    /// The view's offset from the storage's base address.
    pub closed spec fn spec_offset(&self) -> usize {
        self.offset
    }

    /// The view's length in bytes.
    pub closed spec fn spec_size(&self) -> usize {
        self.size
    }

    /// The tier tag carried over from the storage.
    pub closed spec fn spec_storage_type(&self) -> StorageType {
        self.storage_type
    }

    /// The view denotes a window of `storage`: same tier tag, address
    /// inside the region, and in bounds.
    pub open spec fn wf_for(&self, storage: S) -> bool {
        &&& self.spec_storage_type() == storage.spec_storage_type()
        &&& self.spec_addr() == storage.spec_addr() + self.spec_offset()
        &&& self.spec_offset() + self.spec_size() <= storage.spec_bytes().len()
        &&& self.spec_offset() + self.spec_size() <= usize::MAX
    }

    /// Create a view of the `size` bytes of `storage` starting `offset`
    /// bytes into the region. Fails if the window is out of bounds or
    /// the storage was released.
    pub fn new(storage: &S, offset: usize, size: usize) -> (r: Result<MemoryView<S, K>, BlockError>)
        requires
            storage.inv(),
        ensures
            match r {
                Ok(v) => !storage.spec_released() && offset + size <= storage.spec_bytes().len()
                    && v.wf_for(*storage) && v.spec_offset() == offset && v.spec_size() == size,
                Err(BlockError::StorageReleased) => storage.spec_released(),
                Err(BlockError::InvalidRange(o, s, n)) => !storage.spec_released() && o == offset
                    && s == size && n == storage.spec_bytes().len() && offset + size > n,
                Err(_) => false,
            },
    {
        if storage.released() {
            return Err(BlockError::StorageReleased);
        }
        let n = storage.size();
        if offset > n || size > n - offset {
            return Err(BlockError::InvalidRange(offset, size, n));
        }
        proof {
            storage.inv_properties();
        }
        Ok(
            MemoryView {
                addr: storage.addr() + offset as u64,
                offset,
                size,
                storage_type: storage.storage_type(),
                storage: core::marker::PhantomData,
                kind: core::marker::PhantomData,
            },
        )
    }

    /// Size of the view in bytes.
    pub fn size(&self) -> (s: usize)
        ensures
            s == self.spec_size(),
    {
        self.size
    }

    /// The fabric memory type of the viewed region's tier.
    pub fn mem_type(&self) -> (m: MemType)
        requires
            self.spec_storage_type().spec_is_local(),
        ensures
            m == self.spec_storage_type().spec_nixl_mem_type(),
    {
        self.storage_type.nixl_mem_type()
    }

    /// The device-id field a fabric descriptor of this view carries:
    /// zero for host tiers, the GPU device id for device memory, the
    /// file descriptor for disk regions. A remote view cannot source a
    /// descriptor.
    pub fn device_id(&self) -> (d: u64)
        requires
            self.spec_storage_type().spec_is_local(),
        ensures
            d == self.spec_storage_type().spec_descriptor_device_id(),
    {
        match self.storage_type {
            StorageType::System => 0,
            StorageType::Pinned => 0,
            StorageType::Device(device_id) => device_id as u64,
            StorageType::Disk(fd) => fd,
            StorageType::Nixl => 0,
        }
    }

    /// Creates an immutable fabric memory descriptor from this view.
    pub fn as_nixl_descriptor(&self) -> (d: NixlMemoryDescriptor<K, IsImmutable>)
        requires
            self.spec_storage_type().spec_is_local(),
        ensures
            d.spec_addr() == self.spec_addr(),
            d.spec_size() == self.spec_size(),
            d.spec_mem_type() == self.spec_storage_type().spec_nixl_mem_type(),
            d.spec_device_id() == self.spec_storage_type().spec_descriptor_device_id(),
    {
        NixlMemoryDescriptor::new(self.addr, self.size, self.mem_type(), self.device_id())
    }

    /// Read the byte `i` bytes into the window of `storage` this view
    /// denotes.
    pub fn read_byte(&self, storage: &S, i: usize) -> (b: u8)
        requires
            storage.inv(),
            !storage.spec_released(),
            self.wf_for(*storage),
            i < self.spec_size(),
        ensures
            b == storage.spec_bytes()[self.spec_offset() + i],
    {
        storage.read_byte(self.offset + i)
    }
}

impl<S: Storage, K: Kind> MemoryViewMut<S, K> {
    /// The view's absolute base address.
    pub closed spec fn spec_addr(&self) -> u64 {
        self.addr
    }

    /// The view's offset from the storage's base address.
    pub closed spec fn spec_offset(&self) -> usize {
        self.offset
    }

    /// The view's length in bytes.
    pub closed spec fn spec_size(&self) -> usize {
        self.size
    }

    /// The tier tag carried over from the storage.
    pub closed spec fn spec_storage_type(&self) -> StorageType {
        self.storage_type
    }

    /// The view denotes a window of `storage`: same tier tag, address
    /// inside the region, and in bounds.
    pub open spec fn wf_for(&self, storage: S) -> bool {
        &&& self.spec_storage_type() == storage.spec_storage_type()
        &&& self.spec_addr() == storage.spec_addr() + self.spec_offset()
        &&& self.spec_offset() + self.spec_size() <= storage.spec_bytes().len()
        &&& self.spec_offset() + self.spec_size() <= usize::MAX
    }

    /// Create a writable view of the `size` bytes of `storage` starting
    /// `offset` bytes into the region. Fails if the window is out of
    /// bounds or the storage was released.
    pub fn new(storage: &S, offset: usize, size: usize) -> (r: Result<
        MemoryViewMut<S, K>,
        BlockError,
    >)
        requires
            storage.inv(),
        ensures
            match r {
                Ok(v) => !storage.spec_released() && offset + size <= storage.spec_bytes().len()
                    && v.wf_for(*storage) && v.spec_offset() == offset && v.spec_size() == size,
                Err(BlockError::StorageReleased) => storage.spec_released(),
                Err(BlockError::InvalidRange(o, s, n)) => !storage.spec_released() && o == offset
                    && s == size && n == storage.spec_bytes().len() && offset + size > n,
                Err(_) => false,
            },
    {
        if storage.released() {
            return Err(BlockError::StorageReleased);
        }
        let n = storage.size();
        if offset > n || size > n - offset {
            return Err(BlockError::InvalidRange(offset, size, n));
        }
        proof {
            storage.inv_properties();
        }
        Ok(
            MemoryViewMut {
                addr: storage.addr() + offset as u64,
                offset,
                size,
                storage_type: storage.storage_type(),
                storage: core::marker::PhantomData,
                kind: core::marker::PhantomData,
            },
        )
    }

    /// Size of the view in bytes.
    pub fn size(&self) -> (s: usize)
        ensures
            s == self.spec_size(),
    {
        self.size
    }

    /// The fabric memory type of the viewed region's tier.
    pub fn mem_type(&self) -> (m: MemType)
        requires
            self.spec_storage_type().spec_is_local(),
        ensures
            m == self.spec_storage_type().spec_nixl_mem_type(),
    {
        self.storage_type.nixl_mem_type()
    }

    /// The device-id field a fabric descriptor of this view carries.
    pub fn device_id(&self) -> (d: u64)
        requires
            self.spec_storage_type().spec_is_local(),
        ensures
            d == self.spec_storage_type().spec_descriptor_device_id(),
    {
        match self.storage_type {
            StorageType::System => 0,
            StorageType::Pinned => 0,
            StorageType::Device(device_id) => device_id as u64,
            StorageType::Disk(fd) => fd,
            StorageType::Nixl => 0,
        }
    }

    /// Creates a mutable fabric memory descriptor from this view.
    pub fn as_nixl_descriptor_mut(&mut self) -> (d: NixlMemoryDescriptor<K, IsMutable>)
        requires
            old(self).spec_storage_type().spec_is_local(),
        ensures
            *final(self) == *old(self),
            d.spec_addr() == old(self).spec_addr(),
            d.spec_size() == old(self).spec_size(),
            d.spec_mem_type() == old(self).spec_storage_type().spec_nixl_mem_type(),
            d.spec_device_id() == old(self).spec_storage_type().spec_descriptor_device_id(),
    {
        NixlMemoryDescriptor::new(
            self.addr,
            self.size,
            self.storage_type.nixl_mem_type(),
            self.device_id(),
        )
    }

    /// Read the byte `i` bytes into the window of `storage` this view
    /// denotes.
    pub fn read_byte(&self, storage: &S, i: usize) -> (b: u8)
        requires
            storage.inv(),
            !storage.spec_released(),
            self.wf_for(*storage),
            i < self.spec_size(),
        ensures
            b == storage.spec_bytes()[self.spec_offset() + i],
    {
        storage.read_byte(self.offset + i)
    }

    /// Overwrite the byte `i` bytes into the window of `storage` this
    /// view denotes.
    pub fn write_byte(&self, storage: &mut S, i: usize, value: u8)
        requires
            old(storage).inv(),
            !old(storage).spec_released(),
            self.wf_for(*old(storage)),
            i < self.spec_size(),
        ensures
            final(storage).inv(),
            self.wf_for(*final(storage)),
            !final(storage).spec_released(),
            final(storage).spec_bytes() == old(storage).spec_bytes().update(
                self.spec_offset() + i,
                value,
            ),
            final(storage).spec_addr() == old(storage).spec_addr(),
            final(storage).spec_storage_type() == old(storage).spec_storage_type(),
            final(storage).spec_regs() == old(storage).spec_regs(),
            final(storage).spec_frees_on_release() == old(storage).spec_frees_on_release(),
    {
        storage.write_byte(self.offset + i, value);
    }
}

} // verus!
