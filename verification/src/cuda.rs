//! GPU-backed storage: page-locked host memory, device memory, the
//! per-process context registry and adoption of externally owned tensors.
//!
//! A GPU context is modelled as the pair of a device id and the region
//! addresses it hands out; the registry maps device ids to initialised
//! contexts and creates them lazily, idempotently per id.

use vstd::prelude::*;

use crate::storage::{
    fresh_bytes, round_up, Local, RegionInner, RegisterableStorage, RegistrationHandle,
    RegistrationHandles, Storage, StorageAllocator, StorageError, StorageMemset, StorageType,
};

verus! {

/// Trait for [`Storage`] types whose regions the GPU can address.
pub trait CudaAccessible: Storage {}

/// An initialised GPU context for one device.
#[derive(Debug, Clone, Copy, PartialEq, Eq, Structural)]
pub struct CudaContext {
    device_id: u32,
}

impl CudaContext {
    /// The device this context was initialised for.
    pub closed spec fn spec_device(&self) -> u32 {
        self.device_id
    }

    pub(crate) fn new_for_device(device_id: u32) -> (c: CudaContext)
        ensures
            c.spec_device() == device_id,
    {
        CudaContext { device_id }
    }

    /// The device this context was initialised for.
    pub fn cu_device(&self) -> (d: u32)
        ensures
            d == self.spec_device(),
    {
        self.device_id
    }
}

/// Trait for types that carry an initialised GPU context.
pub trait CudaContextProivder {
    /// The context carried.
    spec fn spec_cuda_context(&self) -> CudaContext;

    /// Get a reference to the carried [`CudaContext`].
    fn cuda_context(&self) -> (c: &CudaContext)
        ensures
            *c == self.spec_cuda_context(),
    ;
}

/// The per-process registry of GPU contexts: device id to initialised
/// context, created lazily and idempotently per id under one lock.
pub struct Cuda {
    device_count: usize,
    contexts: Vec<(usize, CudaContext)>,
}

impl Cuda {
    /// The ids that hold an initialised context.
    pub closed spec fn spec_ids(&self) -> Seq<usize> {
        self.contexts@.map(|i: int, e: (usize, CudaContext)| e.0)
    }

    /// Whether a context exists for `device_id`.
    pub open spec fn spec_has(&self, device_id: usize) -> bool {
        self.spec_ids().contains(device_id)
    }

    /// How many devices the machine offers.
    pub closed spec fn spec_device_count(&self) -> usize {
        self.device_count
    }

    /// Ids are unique, in range, and each context matches its id.
    pub closed spec fn inv(&self) -> bool {
        &&& self.device_count <= u32::MAX
        &&& forall|i: int, j: int|
            0 <= i < j < self.contexts@.len() ==> self.contexts@[i].0 != self.contexts@[j].0
        &&& forall|i: int|
            0 <= i < self.contexts@.len() ==> #[trigger] self.contexts@[i].0 < self.device_count
                && self.contexts@[i].1.spec_device() == self.contexts@[i].0 as u32
    }

    /// An empty registry for a machine with `device_count` GPUs.
    pub fn new(device_count: usize) -> (c: Cuda)
        requires
            device_count <= u32::MAX,
        ensures
            c.inv(),
            c.spec_device_count() == device_count,
            forall|id: usize| !c.spec_has(id),
    {
        let c = Cuda { device_count, contexts: Vec::new() };
        proof {
            assert(c.spec_ids() =~= Seq::<usize>::empty());
        }
        c
    }

    /// Get the context for `device_id` if one was already initialised;
    /// never creates one.
    pub fn device(&self, device_id: usize) -> (r: Option<CudaContext>)
        requires
            self.inv(),
        ensures
            match r {
                Some(c) => self.spec_has(device_id) && c.spec_device() == device_id as u32,
                None => !self.spec_has(device_id),
            },
    {
        self.get_existing_context(device_id)
    }

    /// Get a context if it exists, without creating one.
    pub fn get_existing_context(&self, device_id: usize) -> (r: Option<CudaContext>)
        requires
            self.inv(),
        ensures
            match r {
                Some(c) => self.spec_has(device_id) && c.spec_device() == device_id as u32,
                None => !self.spec_has(device_id),
            },
    {
        let mut i: usize = 0;
        let n = self.contexts.len();
        while i < n
            invariant
                self.inv(),
                n == self.contexts@.len(),
                i <= n,
                forall|j: int| 0 <= j < i ==> self.spec_ids()[j] != device_id,
            decreases n - i,
        {
            if self.contexts[i].0 == device_id {
                assert(self.spec_ids()[i as int] == device_id);
                return Some(self.contexts[i].1);
            }
            assert(self.spec_ids()[i as int] != device_id);
            i = i + 1;
        }
        None
    }

    /// Get or lazily initialise the context for `device_id`; fails with a
    /// driver error exactly when the device does not exist. Idempotent
    /// per id: an existing context is returned unchanged.
    pub fn device_or_create(&mut self, device_id: usize) -> (r: Result<CudaContext, StorageError>)
        requires
            old(self).inv(),
        ensures
            final(self).inv(),
            final(self).spec_device_count() == old(self).spec_device_count(),
            forall|id: usize| old(self).spec_has(id) ==> final(self).spec_has(id),
            forall|id: usize|
                final(self).spec_has(id) ==> old(self).spec_has(id) || id == device_id,
            match r {
                Ok(c) => c.spec_device() == device_id as u32 && final(self).spec_has(device_id)
                    && (old(self).spec_has(device_id) || device_id < old(
                    self,
                ).spec_device_count()),
                Err(StorageError::Cuda(_)) => !old(self).spec_has(device_id) && device_id >= old(
                    self,
                ).spec_device_count() && *final(self) == *old(self),
                Err(_) => false,
            },
    {
        if let Some(existing) = self.get_existing_context(device_id) {
            return Ok(existing);
        }
        if device_id >= self.device_count {
            return Err(StorageError::Cuda("no such device".to_owned()));
        }
        let ctx = CudaContext::new_for_device(device_id as u32);
        let ghost old_ids = self.spec_ids();
        self.contexts.push((device_id, ctx));
        proof {
            assert(self.spec_ids() =~= old_ids.push(device_id));
            assert(self.spec_ids()[old_ids.len() as int] == device_id);
            assert(self.spec_has(device_id));
            assert forall|id: usize| old(self).spec_has(id) implies self.spec_has(id) by {
                let j = choose|j: int| 0 <= j < old_ids.len() && old_ids[j] == id;
                assert(self.spec_ids()[j] == id);
            }
            assert forall|id: usize|
                self.spec_has(id) implies old(self).spec_has(id) || id == device_id by {
                let j = choose|j: int|
                    0 <= j < self.spec_ids().len() && self.spec_ids()[j] == id;
                if j < old_ids.len() {
                    assert(old_ids[j] == id);
                }
            }
            assert forall|i: int, j: int|
                0 <= i < j < self.contexts@.len() implies self.contexts@[i].0
                != self.contexts@[j].0 by {
                if j == self.contexts@.len() - 1 {
                    assert(!old_ids.contains(device_id));
                    assert(old_ids[i] == self.contexts@[i].0);
                }
            }
        }
        Ok(ctx)
    }

    /// Whether a context has been initialised for `device_id`.
    pub fn is_initialized(&self, device_id: usize) -> (r: bool)
        requires
            self.inv(),
        ensures
            r == self.spec_has(device_id),
    {
        self.has_context(device_id)
    }

    /// Whether a context exists for `device_id`.
    pub fn has_context(&self, device_id: usize) -> (r: bool)
        requires
            self.inv(),
        ensures
            r == self.spec_has(device_id),
    {
        match self.get_existing_context(device_id) {
            Some(_) => true,
            None => false,
        }
    }
}


/// Page-locked host memory, tagged write-combining, addressable by both
/// the host and the GPU.
pub struct PinnedStorage {
    pub(crate) inner: RegionInner,
    pub(crate) ctx: CudaContext,
}

impl Local for PinnedStorage {}

impl crate::storage::SystemAccessible for PinnedStorage {}

impl CudaAccessible for PinnedStorage {}

impl PinnedStorage {
    /// Build a pinned region of `size` bytes at `addr` under `ctx`.
    /// Rejects a null or page-misaligned base address and an over-large
    /// size.
    pub fn new(ctx: &CudaContext, addr: u64, size: usize) -> (r: Result<
        PinnedStorage,
        StorageError,
    >)
        ensures
            match r {
                Ok(s) => addr != 0 && addr % 4096 == 0 && (size as int) < (isize::MAX as int)
                    && addr + size <= u64::MAX && s.inv() && !s.spec_released()
                    && s.spec_addr() == addr && s.spec_bytes().len() == size
                    && s.spec_storage_type() == StorageType::Pinned && s.spec_regs() == Seq::<
                    (Seq<char>, u64),
                >::empty() && s.spec_cuda_context() == *ctx,
                Err(StorageError::InvalidConfig(_)) => addr == 0 || addr % 4096 != 0 || (
                size as int) >= (isize::MAX as int) || addr + size > u64::MAX,
                Err(_) => false,
            },
    {
        if addr == 0 || addr % 4096 != 0 {
            return Err(
                StorageError::InvalidConfig("pinned region base address is null or misaligned".to_owned()),
            );
        }
        if size >= (isize::MAX as usize) {
            return Err(
                StorageError::InvalidConfig("pinned region size exceeds the signed-size limit".to_owned()),
            );
        }
        if (size as u64) > u64::MAX - addr {
            return Err(
                StorageError::InvalidConfig("pinned region overflows the address space".to_owned()),
            );
        }
        Ok(
            PinnedStorage {
                inner: RegionInner {
                    bytes: fresh_bytes(size),
                    addr,
                    regs: RegistrationHandles::new(),
                    released: false,
                },
                ctx: *ctx,
            },
        )
    }
}

impl Storage for PinnedStorage {
    closed spec fn spec_bytes(&self) -> Seq<u8> {
        self.inner.bytes@
    }

    closed spec fn spec_addr(&self) -> u64 {
        self.inner.addr
    }

    open spec fn spec_storage_type(&self) -> StorageType {
        StorageType::Pinned
    }

    closed spec fn spec_released(&self) -> bool {
        self.inner.released
    }

    closed spec fn spec_regs(&self) -> Seq<(Seq<char>, u64)> {
        self.inner.regs.spec_entries()
    }

    open spec fn spec_frees_on_release(&self) -> bool {
        true
    }

    closed spec fn inv(&self) -> bool {
        &&& self.inner.addr != 0
        &&& self.inner.addr % 4096 == 0
        &&& self.inner.bytes@.len() < 0x8000_0000_0000_0000
        &&& self.inner.addr + self.inner.bytes@.len() <= u64::MAX
        &&& self.inner.regs.inv()
    }

    proof fn inv_properties(&self) {
    }

    fn storage_type(&self) -> StorageType {
        StorageType::Pinned
    }

    fn addr(&self) -> u64 {
        self.inner.addr
    }

    fn size(&self) -> usize {
        self.inner.bytes.len()
    }

    fn released(&self) -> bool {
        self.inner.released
    }

    fn read_byte(&self, offset: usize) -> u8 {
        self.inner.bytes[offset]
    }

    fn write_byte(&mut self, offset: usize, value: u8) {
        self.inner.bytes.set(offset, value);
    }

    fn release(&mut self) {
        self.inner.regs.release();
        self.inner.released = true;
    }

    fn frees_on_release(&self) -> bool {
        true
    }
}

impl CudaContextProivder for PinnedStorage {
    closed spec fn spec_cuda_context(&self) -> CudaContext {
        self.ctx
    }

    fn cuda_context(&self) -> &CudaContext {
        &self.ctx
    }
}

impl StorageMemset for PinnedStorage {

}

impl RegisterableStorage for PinnedStorage {
    fn register(&mut self, key: &str, handle: RegistrationHandle) -> Result<(), StorageError> {
        proof {
            self.inner.regs.lemma_entries_keys();
        }
        if self.inner.released {
            return Err(
                StorageError::OperationFailed("register: storage already released".to_owned()),
            );
        }
        let r = self.inner.regs.register(key, handle);
        r
    }

    fn is_registered(&self, key: &str) -> bool {
        proof {
            self.inner.regs.lemma_entries_keys();
        }
        self.inner.regs.is_registered(key)
    }

    fn registration_handle(&self, key: &str) -> Option<&RegistrationHandle> {
        proof {
            self.inner.regs.lemma_entries_keys();
        }
        self.inner.regs.registration_handle(key)
    }
}

/// Allocator for [`PinnedStorage`]; binds the device-0 context once and
/// hands out page-aligned regions.
pub struct PinnedAllocator {
    ctx: CudaContext,
    next_addr: u64,
}

impl PinnedAllocator {
    /// Create a pinned allocator over the device-0 context, initialising
    /// it through the registry if needed.
    pub fn new(cuda: &mut Cuda) -> (r: Result<PinnedAllocator, StorageError>)
        requires
            old(cuda).inv(),
        ensures
            final(cuda).inv(),
            match r {
                Ok(a) => a.inv() && a.spec_tier() == StorageType::Pinned && forall|s: usize|
                    (s as int) < (isize::MAX as int) ==> a.spec_can_allocate(s),
                Err(StorageError::Cuda(_)) => !old(cuda).spec_has(0) && old(
                    cuda,
                ).spec_device_count() == 0,
                Err(_) => false,
            },
    {
        let ctx = cuda.device_or_create(0)?;
        Ok(PinnedAllocator { ctx, next_addr: 0x10_0000 })
    }
}

impl StorageAllocator<PinnedStorage> for PinnedAllocator {
    closed spec fn inv(&self) -> bool {
        self.next_addr != 0 && self.next_addr % 4096 == 0
    }

    open spec fn spec_tier(&self) -> StorageType {
        StorageType::Pinned
    }

    closed spec fn spec_can_allocate(&self, size: usize) -> bool {
        (size as int) < (isize::MAX as int) && self.next_addr + size + 4096 <= u64::MAX
    }

    fn allocate(&mut self, size: usize) -> Result<PinnedStorage, StorageError> {
        if size >= (isize::MAX as usize) {
            return Err(
                StorageError::OperationFailed("allocate: size exceeds the signed-size limit".to_owned()),
            );
        }
        let size64 = size as u64;
        if self.next_addr > u64::MAX - 4096 - size64 {
            return Err(
                StorageError::OperationFailed("allocate: model address space exhausted".to_owned()),
            );
        }
        let addr = self.next_addr;
        self.next_addr = round_up(addr + size64, 4096);
        Ok(
            PinnedStorage {
                inner: RegionInner {
                    bytes: fresh_bytes(size),
                    addr,
                    regs: RegistrationHandles::new(),
                    released: false,
                },
                ctx: self.ctx,
            },
        )
    }
}

/// The device a foreign tensor lives on.
#[derive(Debug, Clone, PartialEq, Eq)]
pub enum TorchDevice {
    /// A GPU device with its id.
    Cuda(usize),
    /// Any other device, named (e.g. a host tensor).
    Other(String),
}

/// A descriptor of an externally owned tensor: the device it lives on,
/// its base address and its size. Adopting it into a [`DeviceStorage`]
/// pins the external owner's memory for the storage's lifetime.
#[derive(Debug, Clone, PartialEq, Eq)]
pub struct TorchTensor {
    /// The device the tensor lives on.
    pub device: TorchDevice,
    /// The tensor's base address in device memory.
    pub data_ptr: u64,
    /// The tensor's size in bytes.
    pub size_bytes: usize,
}

impl TorchTensor {
    /// Build a descriptor of an externally owned tensor.
    pub fn new(device: TorchDevice, data_ptr: u64, size_bytes: usize) -> (t: TorchTensor)
        ensures
            t.device == device,
            t.data_ptr == data_ptr,
            t.size_bytes == size_bytes,
    {
        TorchTensor { device, data_ptr, size_bytes }
    }

    /// The device the tensor lives on.
    pub fn device(&self) -> (d: &TorchDevice)
        ensures
            *d == self.device,
    {
        &self.device
    }

    /// The tensor's base address.
    pub fn data_ptr(&self) -> (p: u64)
        ensures
            p == self.data_ptr,
    {
        self.data_ptr
    }

    /// The tensor's size in bytes.
    pub fn size_bytes(&self) -> (s: usize)
        ensures
            s == self.size_bytes,
    {
        self.size_bytes
    }
}

/// The owner record of a device region: either memory this library
/// allocated itself, or an adopted foreign tensor that must stay alive
/// until the storage is released and whose memory is never freed here.
pub(crate) enum DeviceStorageOwner {
    Owned,
    Torch(TorchTensor),
}

/// GPU device memory under a specific device id.
pub struct DeviceStorage {
    pub(crate) inner: RegionInner,
    pub(crate) ctx: CudaContext,
    pub(crate) owner: DeviceStorageOwner,
}

impl Local for DeviceStorage {}

impl CudaAccessible for DeviceStorage {}

impl DeviceStorage {
    /// Whether this region was adopted from a foreign tensor; releasing
    /// such a region never frees the memory, it only drops the reference
    /// that kept the external owner alive.
    pub closed spec fn spec_is_foreign(&self) -> bool {
        self.owner is Torch
    }

    /// Whether this region was adopted from a foreign tensor.
    pub fn is_foreign(&self) -> (r: bool)
        ensures
            r == self.spec_is_foreign(),
    {
        match &self.owner {
            DeviceStorageOwner::Owned => false,
            DeviceStorageOwner::Torch(_) => true,
        }
    }

    /// Build an owned device region of `size` bytes at `addr` under `ctx`.
    /// Rejects a null or misaligned base address and an over-large size.
    pub fn new(ctx: &CudaContext, addr: u64, size: usize) -> (r: Result<
        DeviceStorage,
        StorageError,
    >)
        ensures
            match r {
                Ok(s) => addr != 0 && addr % 256 == 0 && (size as int) < (isize::MAX as int)
                    && addr + size <= u64::MAX && s.inv() && !s.spec_released()
                    && s.spec_addr() == addr && s.spec_bytes().len() == size
                    && s.spec_storage_type() == StorageType::Device(ctx.spec_device())
                    && s.spec_regs() == Seq::<(Seq<char>, u64)>::empty() && !s.spec_is_foreign()
                    && s.spec_cuda_context() == *ctx,
                Err(StorageError::InvalidConfig(_)) => addr == 0 || addr % 256 != 0 || (
                size as int) >= (isize::MAX as int) || addr + size > u64::MAX,
                Err(_) => false,
            },
    {
        if addr == 0 || addr % 256 != 0 {
            return Err(
                StorageError::InvalidConfig("device region base address is null or misaligned".to_owned()),
            );
        }
        if size >= (isize::MAX as usize) {
            return Err(
                StorageError::InvalidConfig("device region size exceeds the signed-size limit".to_owned()),
            );
        }
        if (size as u64) > u64::MAX - addr {
            return Err(
                StorageError::InvalidConfig("device region overflows the address space".to_owned()),
            );
        }
        Ok(
            DeviceStorage {
                inner: RegionInner {
                    bytes: fresh_bytes(size),
                    addr,
                    regs: RegistrationHandles::new(),
                    released: false,
                },
                ctx: *ctx,
                owner: DeviceStorageOwner::Owned,
            },
        )
    }

    /// Adopt an externally owned tensor as a device region. Fails with
    /// `InvalidConfig` if the tensor is not on a GPU, if its device does
    /// not match the adopting context, or if its address or size breaks
    /// the device-region invariant. The adopted region is foreign: it is
    /// never freed by this library.
    pub fn new_from_torch(ctx: &CudaContext, tensor: TorchTensor) -> (r: Result<
        DeviceStorage,
        StorageError,
    >)
        ensures
            match r {
                Ok(s) => tensor.device == TorchDevice::Cuda(ctx.spec_device() as usize) && s.inv()
                    && !s.spec_released() && s.spec_addr() == tensor.data_ptr
                    && s.spec_bytes().len() == tensor.size_bytes && s.spec_storage_type()
                    == StorageType::Device(ctx.spec_device()) && s.spec_regs() == Seq::<
                    (Seq<char>, u64),
                >::empty() && s.spec_is_foreign() && !s.spec_frees_on_release()
                    && s.spec_cuda_context() == *ctx,
                Err(StorageError::InvalidConfig(_)) => !(tensor.device == TorchDevice::Cuda(
                    ctx.spec_device() as usize,
                )) || tensor.data_ptr == 0 || tensor.data_ptr % 256 != 0 || (
                tensor.size_bytes as int) >= (isize::MAX as int) || tensor.data_ptr
                    + tensor.size_bytes > u64::MAX,
                Err(_) => false,
            },
    {
        let device_id: usize = match &tensor.device {
            TorchDevice::Cuda(device_id) => *device_id,
            TorchDevice::Other(_) => {
                return Err(StorageError::InvalidConfig("Tensor is not CUDA!".to_owned()));
            },
        };
        if device_id != ctx.cu_device() as usize {
            return Err(
                StorageError::InvalidConfig("Tensor is not on the same device as the context!".to_owned()),
            );
        }
        let addr = tensor.data_ptr;
        let size = tensor.size_bytes;
        if addr == 0 || addr % 256 != 0 {
            return Err(
                StorageError::InvalidConfig("Tensor base address is null or misaligned".to_owned()),
            );
        }
        if size >= (isize::MAX as usize) {
            return Err(
                StorageError::InvalidConfig("Tensor size exceeds the signed-size limit".to_owned()),
            );
        }
        if (size as u64) > u64::MAX - addr {
            return Err(
                StorageError::InvalidConfig("Tensor overflows the address space".to_owned()),
            );
        }
        Ok(
            DeviceStorage {
                inner: RegionInner {
                    bytes: fresh_bytes(size),
                    addr,
                    regs: RegistrationHandles::new(),
                    released: false,
                },
                ctx: *ctx,
                owner: DeviceStorageOwner::Torch(tensor),
            },
        )
    }

    /// The context this region was allocated (or adopted) under.
    pub fn context(&self) -> (c: &CudaContext)
        ensures
            *c == self.spec_cuda_context(),
    {
        &self.ctx
    }
}

impl Storage for DeviceStorage {
    closed spec fn spec_bytes(&self) -> Seq<u8> {
        self.inner.bytes@
    }

    closed spec fn spec_addr(&self) -> u64 {
        self.inner.addr
    }

    closed spec fn spec_storage_type(&self) -> StorageType {
        StorageType::Device(self.ctx.spec_device())
    }

    closed spec fn spec_released(&self) -> bool {
        self.inner.released
    }

    closed spec fn spec_regs(&self) -> Seq<(Seq<char>, u64)> {
        self.inner.regs.spec_entries()
    }

    closed spec fn spec_frees_on_release(&self) -> bool {
        !self.spec_is_foreign()
    }

    closed spec fn inv(&self) -> bool {
        &&& self.inner.addr != 0
        &&& self.inner.addr % 256 == 0
        &&& self.inner.bytes@.len() < 0x8000_0000_0000_0000
        &&& self.inner.addr + self.inner.bytes@.len() <= u64::MAX
        &&& self.inner.regs.inv()
    }

    proof fn inv_properties(&self) {
    }

    fn storage_type(&self) -> StorageType {
        StorageType::Device(self.ctx.cu_device())
    }

    fn addr(&self) -> u64 {
        self.inner.addr
    }

    fn size(&self) -> usize {
        self.inner.bytes.len()
    }

    fn released(&self) -> bool {
        self.inner.released
    }

    fn read_byte(&self, offset: usize) -> u8 {
        self.inner.bytes[offset]
    }

    fn write_byte(&mut self, offset: usize, value: u8) {
        self.inner.bytes.set(offset, value);
    }

    fn release(&mut self) {
        self.inner.regs.release();
        self.inner.released = true;
    }

    fn frees_on_release(&self) -> bool {
        !self.is_foreign()
    }
}

impl CudaContextProivder for DeviceStorage {
    closed spec fn spec_cuda_context(&self) -> CudaContext {
        self.ctx
    }

    fn cuda_context(&self) -> &CudaContext {
        &self.ctx
    }
}

impl StorageMemset for DeviceStorage {

}

impl RegisterableStorage for DeviceStorage {
    fn register(&mut self, key: &str, handle: RegistrationHandle) -> Result<(), StorageError> {
        proof {
            self.inner.regs.lemma_entries_keys();
        }
        if self.inner.released {
            return Err(
                StorageError::OperationFailed("register: storage already released".to_owned()),
            );
        }
        let r = self.inner.regs.register(key, handle);
        r
    }

    fn is_registered(&self, key: &str) -> bool {
        proof {
            self.inner.regs.lemma_entries_keys();
        }
        self.inner.regs.is_registered(key)
    }

    fn registration_handle(&self, key: &str) -> Option<&RegistrationHandle> {
        proof {
            self.inner.regs.lemma_entries_keys();
        }
        self.inner.regs.registration_handle(key)
    }
}

/// Allocator for [`DeviceStorage`] under a specific device id.
pub struct DeviceAllocator {
    ctx: CudaContext,
    next_addr: u64,
}

impl DeviceAllocator {
    /// Create a device allocator for `device_id`, initialising the
    /// context through the registry if needed.
    pub fn new(cuda: &mut Cuda, device_id: usize) -> (r: Result<DeviceAllocator, StorageError>)
        requires
            old(cuda).inv(),
        ensures
            final(cuda).inv(),
            match r {
                Ok(a) => a.inv() && a.spec_tier() == StorageType::Device(device_id as u32)
                    && forall|s: usize|
                    (s as int) < (isize::MAX as int) ==> a.spec_can_allocate(s),
                Err(StorageError::Cuda(_)) => !old(cuda).spec_has(device_id) && device_id >= old(
                    cuda,
                ).spec_device_count(),
                Err(_) => false,
            },
    {
        let ctx = cuda.device_or_create(device_id)?;
        Ok(DeviceAllocator { ctx, next_addr: 0x1000_0000 })
    }

    /// The context this allocator allocates under.
    pub fn ctx(&self) -> (c: &CudaContext)
        ensures
            c.spec_device() == self.spec_tier()->Device_0,
    {
        &self.ctx
    }
}

impl StorageAllocator<DeviceStorage> for DeviceAllocator {
    closed spec fn inv(&self) -> bool {
        self.next_addr != 0 && self.next_addr % 256 == 0
    }

    closed spec fn spec_tier(&self) -> StorageType {
        StorageType::Device(self.ctx.spec_device())
    }

    closed spec fn spec_can_allocate(&self, size: usize) -> bool {
        (size as int) < (isize::MAX as int) && self.next_addr + size + 256 <= u64::MAX
    }

    fn allocate(&mut self, size: usize) -> Result<DeviceStorage, StorageError> {
        if size >= (isize::MAX as usize) {
            return Err(
                StorageError::OperationFailed("allocate: size exceeds the signed-size limit".to_owned()),
            );
        }
        let size64 = size as u64;
        if self.next_addr > u64::MAX - 256 - size64 {
            return Err(
                StorageError::OperationFailed("allocate: model address space exhausted".to_owned()),
            );
        }
        let addr = self.next_addr;
        self.next_addr = round_up(addr + size64, 256);
        Ok(
            DeviceStorage {
                inner: RegionInner {
                    bytes: fresh_bytes(size),
                    addr,
                    regs: RegistrationHandles::new(),
                    released: false,
                },
                ctx: self.ctx,
                owner: DeviceStorageOwner::Owned,
            },
        )
    }
}

} // verus!
