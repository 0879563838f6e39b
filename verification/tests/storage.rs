use block_manager::cuda::{Cuda, DeviceAllocator, PinnedAllocator};
use block_manager::nixl::NixlStorage;
use block_manager::storage::{
    DiskAllocator, MemType, RegisterableStorage, RegistrationHandle, Storage, StorageAllocator,
    StorageError, StorageMemset, StorageType, SystemAllocator,
};
use block_manager::view::{BlockError, BlockKind, BlockView, BlockViewMut, MemoryView};

#[test]
fn system_allocation_properties() {
    let mut alloc = SystemAllocator::new();
    let storage = alloc.allocate(1024).unwrap();
    assert_eq!(storage.size(), 1024);
    assert_ne!(storage.addr(), 0);
    assert_eq!(storage.addr() % 8, 0);
    assert_eq!(storage.storage_type(), StorageType::System);
    assert!(!storage.released());
    let other = alloc.allocate(16).unwrap();
    assert_ne!(other.addr(), storage.addr());
}

#[test]
fn pinned_allocation_properties() {
    let mut cuda = Cuda::new(1);
    let mut alloc = PinnedAllocator::new(&mut cuda).unwrap();
    let storage = alloc.allocate(4096).unwrap();
    assert_eq!(storage.size(), 4096);
    assert_ne!(storage.addr(), 0);
    assert_eq!(storage.addr() % 4096, 0);
    assert_eq!(storage.storage_type(), StorageType::Pinned);
}

#[test]
fn device_allocation_properties() {
    let mut cuda = Cuda::new(2);
    let mut alloc = DeviceAllocator::new(&mut cuda, 1).unwrap();
    let storage = alloc.allocate(2048).unwrap();
    assert_eq!(storage.size(), 2048);
    assert_ne!(storage.addr(), 0);
    assert_eq!(storage.addr() % 256, 0);
    assert_eq!(storage.storage_type(), StorageType::Device(1));
    assert_eq!(alloc.ctx().cu_device(), 1);
}

#[test]
fn disk_allocation_properties() {
    let mut alloc = DiskAllocator::new();
    let a = alloc.allocate(100).unwrap();
    let b = alloc.allocate(100).unwrap();
    assert_eq!(a.size(), 100);
    assert_ne!(a.addr(), 0);
    assert_eq!(a.storage_type(), StorageType::Disk(a.addr()));
    assert_ne!(a.addr(), b.addr());
}

#[test]
fn zero_sized_allocation() {
    let mut alloc = SystemAllocator::new();
    let storage = alloc.allocate(0).unwrap();
    assert_eq!(storage.size(), 0);
    assert_ne!(storage.addr(), 0);
}

#[test]
fn memset_fills_range_and_leaves_rest() {
    let mut alloc = SystemAllocator::new();
    let mut storage = alloc.allocate(64).unwrap();
    let mut before = Vec::new();
    for i in 0..64 {
        before.push(storage.read_byte(i));
    }
    storage.memset(0x7f, 8, 16).unwrap();
    let view: BlockView<_> = MemoryView::new(&storage, 0, 64).unwrap();
    for i in 0..64 {
        let b = view.read_byte(&storage, i);
        if (8..24).contains(&i) {
            assert_eq!(b, 0x7f);
        } else {
            assert_eq!(b, before[i]);
        }
    }
}

#[test]
fn memset_out_of_bounds_fails() {
    let mut alloc = SystemAllocator::new();
    let mut storage = alloc.allocate(64).unwrap();
    let r = storage.memset(1, 60, 8);
    assert!(matches!(r, Err(StorageError::OperationFailed(_))));
    // the contents are untouched by the failed call
    for i in 0..64 {
        assert_eq!(storage.read_byte(i), 0);
    }
    // filling up to the exact end still works
    storage.memset(2, 60, 4).unwrap();
    assert_eq!(storage.read_byte(63), 2);
}

#[test]
fn memset_after_release_fails() {
    let mut alloc = SystemAllocator::new();
    let mut storage = alloc.allocate(8).unwrap();
    storage.release();
    assert!(storage.released());
    let r = storage.memset(1, 0, 4);
    assert!(matches!(r, Err(StorageError::OperationFailed(_))));
}

#[test]
fn registration_is_idempotent_by_key() {
    let mut alloc = SystemAllocator::new();
    let mut storage = alloc.allocate(8).unwrap();
    assert!(!storage.is_registered("fabric"));
    storage.register("fabric", RegistrationHandle::new(11)).unwrap();
    assert!(storage.is_registered("fabric"));
    assert_eq!(storage.registration_handle("fabric").unwrap().id(), 11);
    let again = storage.register("fabric", RegistrationHandle::new(12));
    assert!(matches!(again, Err(StorageError::OperationFailed(_))));
    assert_eq!(storage.registration_handle("fabric").unwrap().id(), 11);
    storage.register("pin", RegistrationHandle::new(7)).unwrap();
    assert!(storage.is_registered("pin"));
    assert!(storage.registration_handle("absent").is_none());
}

#[test]
fn release_drops_registrations_first() {
    let mut alloc = SystemAllocator::new();
    let mut storage = alloc.allocate(8).unwrap();
    storage.register("fabric", RegistrationHandle::new(1)).unwrap();
    storage.release();
    assert!(storage.released());
    assert!(!storage.is_registered("fabric"));
    let r = storage.register("late", RegistrationHandle::new(2));
    assert!(matches!(r, Err(StorageError::OperationFailed(_))));
    assert!(storage.frees_on_release());
}

#[test]
fn context_registry_lazy_and_idempotent() {
    let mut cuda = Cuda::new(2);
    assert!(!cuda.is_initialized(0));
    assert!(cuda.device(0).is_none());
    let c0 = cuda.device_or_create(0).unwrap();
    assert_eq!(c0.cu_device(), 0);
    assert!(cuda.is_initialized(0));
    assert!(cuda.has_context(0));
    let c0_again = cuda.device_or_create(0).unwrap();
    assert_eq!(c0_again.cu_device(), 0);
    let c1 = cuda.device_or_create(1).unwrap();
    assert_eq!(c1.cu_device(), 1);
    assert_eq!(cuda.get_existing_context(1).unwrap().cu_device(), 1);
    assert!(!cuda.is_initialized(7));
}

#[test]
fn context_registry_missing_device_is_cuda_error() {
    let mut cuda = Cuda::new(1);
    let r = cuda.device_or_create(3);
    assert!(matches!(r, Err(StorageError::Cuda(_))));
    assert!(!cuda.is_initialized(3));
}

#[test]
fn view_bounds_are_checked() {
    let mut alloc = SystemAllocator::new();
    let storage = alloc.allocate(32).unwrap();
    let ok: Result<BlockView<_>, _> = MemoryView::new(&storage, 8, 24);
    let view = ok.unwrap();
    assert_eq!(view.size(), 24);
    let too_far: Result<BlockView<_>, _> = MemoryView::new(&storage, 8, 25);
    assert!(matches!(too_far, Err(BlockError::InvalidRange(8, 25, 32))));
    let mut released = alloc.allocate(8).unwrap();
    released.release();
    let r: Result<BlockView<_>, _> = MemoryView::new(&released, 0, 4);
    assert!(matches!(r, Err(BlockError::StorageReleased)));
}

#[test]
fn view_writes_land_in_storage() {
    let mut alloc = SystemAllocator::new();
    let mut storage = alloc.allocate(16).unwrap();
    let view: BlockViewMut<_> = block_manager::view::MemoryViewMut::new(&storage, 4, 8).unwrap();
    for i in 0..8 {
        view.write_byte(&mut storage, i, (i as u8) + 1);
    }
    for i in 0..8 {
        assert_eq!(storage.read_byte(4 + i), (i as u8) + 1);
    }
    assert_eq!(storage.read_byte(0), 0);
    assert_eq!(storage.read_byte(12), 0);
}

#[test]
fn fabric_descriptor_fields_follow_the_tier() {
    let mut alloc = SystemAllocator::new();
    let storage = alloc.allocate(32).unwrap();
    let view: BlockView<_> = MemoryView::new(&storage, 8, 16).unwrap();
    let d = view.as_nixl_descriptor();
    assert_eq!(d.mem_type(), MemType::Host);
    assert_eq!(d.device_id(), 0);
    assert_eq!(d.addr(), storage.addr() + 8);
    assert_eq!(d.size(), 16);

    let mut cuda = Cuda::new(4);
    let mut dev_alloc = DeviceAllocator::new(&mut cuda, 3).unwrap();
    let dev = dev_alloc.allocate(64).unwrap();
    let dev_view: BlockView<_> = MemoryView::new(&dev, 0, 64).unwrap();
    let dd = dev_view.as_nixl_descriptor();
    assert_eq!(dd.mem_type(), MemType::Gpu);
    assert_eq!(dd.device_id(), 3);

    let mut pin_alloc = PinnedAllocator::new(&mut cuda).unwrap();
    let pin = pin_alloc.allocate(64).unwrap();
    let pin_view: BlockView<_> = MemoryView::new(&pin, 0, 64).unwrap();
    let pd = pin_view.as_nixl_descriptor();
    assert_eq!(pd.mem_type(), MemType::HostPinned);
    assert_eq!(pd.device_id(), 0);

    let mut disk_alloc = DiskAllocator::new();
    let disk = disk_alloc.allocate(64).unwrap();
    let disk_view: BlockView<_> = MemoryView::new(&disk, 0, 64).unwrap();
    let fd = disk_view.as_nixl_descriptor();
    assert_eq!(fd.mem_type(), MemType::File);
    assert_eq!(fd.device_id(), disk.addr());
}

#[test]
fn mutable_view_descriptor_matches() {
    let mut alloc = SystemAllocator::new();
    let storage = alloc.allocate(32).unwrap();
    let mut view: BlockViewMut<_> =
        block_manager::view::MemoryViewMut::new(&storage, 0, 32).unwrap();
    assert_eq!(view.size(), 32);
    let d = view.as_nixl_descriptor_mut();
    assert_eq!(d.mem_type(), MemType::Host);
    assert_eq!(d.addr(), storage.addr());
    assert_eq!(d.size(), 32);
    assert_eq!(d.device_id(), 0);
}

#[test]
fn remote_region_from_descriptor() {
    let remote = NixlStorage::new_from_descriptor(MemType::Gpu, 2, 0x9000, 256).unwrap();
    assert_eq!(remote.storage_type(), StorageType::Nixl);
    assert_eq!(remote.addr(), 0x9000);
    assert_eq!(remote.size(), 256);
    assert_eq!(remote.mem_type(), MemType::Gpu);
    assert_eq!(remote.device_id(), 2);
    assert!(!remote.frees_on_release());
    let bad = NixlStorage::new_from_descriptor(MemType::Host, 0, 0, 16);
    assert!(matches!(bad, Err(StorageError::InvalidConfig(_))));
}

#[test]
fn kind_tags_exist_for_block_and_layer() {
    // The two granularities share one representation; only the tag
    // differs, and it is erased at run time.
    let mut alloc = SystemAllocator::new();
    let storage = alloc.allocate(16).unwrap();
    let block: Result<MemoryView<_, BlockKind>, _> = MemoryView::new(&storage, 0, 16);
    let layer: Result<block_manager::view::LayerView<_>, _> = MemoryView::new(&storage, 4, 4);
    assert_eq!(block.unwrap().size(), 16);
    assert_eq!(layer.unwrap().size(), 4);
}

#[test]
fn disk_memset_and_readback() {
    let mut alloc = DiskAllocator::new();
    let mut storage = alloc.allocate(32).unwrap();
    storage.memset(9, 16, 16).unwrap();
    for i in 0..16 {
        assert_eq!(storage.read_byte(i), 0);
    }
    for i in 16..32 {
        assert_eq!(storage.read_byte(i), 9);
    }
}
