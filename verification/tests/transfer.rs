use block_manager::context::{FabricPost, StreamOp, TransferContext};
use block_manager::cuda::{Cuda, DeviceAllocator, DeviceStorage, PinnedAllocator, PinnedStorage};
use block_manager::nixl::NixlStorage;
use block_manager::storage::{
    MemType, Storage, StorageAllocator, StorageMemset, SystemAllocator, SystemStorage,
};
use block_manager::strategy::NixlTransfer;
use block_manager::transfer::{
    handle_local_transfer, Block, BlockTarget, TransferError, WriteTo,
};
use block_manager::view::BlockError;
use tokio::sync::oneshot::error::TryRecvError;

fn pinned_block(
    alloc: &mut PinnedAllocator,
    size: usize,
    fill: Option<u8>,
) -> Block<PinnedStorage> {
    let mut storage = alloc.allocate(size).unwrap();
    if let Some(v) = fill {
        storage.memset(v, 0, size).unwrap();
    }
    Block::new(storage, 0, 0, true)
}

fn device_block(
    alloc: &mut DeviceAllocator,
    size: usize,
    contiguous: bool,
) -> Block<DeviceStorage> {
    let storage = alloc.allocate(size).unwrap();
    Block::new(storage, 0, 0, contiguous)
}

fn system_block(alloc: &mut SystemAllocator, size: usize) -> Block<SystemStorage> {
    let storage = alloc.allocate(size).unwrap();
    Block::new(storage, 0, 0, true)
}

/// Pinned to pinned is a plain byte copy: the channel is fulfilled
/// before the call returns, and every byte arrives.
#[test]
fn pinned_round_copy_completes_synchronously() {
    let mut cuda = Cuda::new(1);
    let mut alloc = PinnedAllocator::new(&mut cuda).unwrap();
    let a = pinned_block(&mut alloc, 4096, Some(0xab));
    let b = pinned_block(&mut alloc, 4096, None);

    let sources = vec![a];
    let mut targets = vec![b];
    let mut ctx = TransferContext::new();

    let mut rx = sources.write_to(&mut targets, &mut ctx).unwrap();
    assert_eq!(rx.try_recv(), Ok(()));
    assert_eq!(ctx.stream_len(), 0);
    assert_eq!(ctx.pending_len(), 0);

    let out = targets.pop().unwrap().into_storage();
    for i in 0..4096 {
        assert_eq!(out.read_byte(i), 0xab);
    }
}

/// Pinned -> Device -> fresh Pinned, through the asynchronous GPU
/// paths; after both streams drain, the round trip preserves content.
#[test]
fn pinned_device_round_trip_preserves_content() {
    let mut cuda = Cuda::new(1);
    let mut pin_alloc = PinnedAllocator::new(&mut cuda).unwrap();
    let mut dev_alloc = DeviceAllocator::new(&mut cuda, 0).unwrap();
    let size = 1 << 20;

    let p = pinned_block(&mut pin_alloc, size, Some(0x5c));
    let d = device_block(&mut dev_alloc, size, true);

    let mut ctx = TransferContext::new();

    let sources = vec![p];
    let mut device_targets = vec![d];
    let mut rx1 = sources.write_to(&mut device_targets, &mut ctx).unwrap();
    assert_eq!(rx1.try_recv(), Err(TryRecvError::Empty));
    ctx.synchronize();
    assert_eq!(rx1.try_recv(), Ok(()));

    let p_prime = pinned_block(&mut pin_alloc, size, None);
    let mut pinned_targets = vec![p_prime];
    let mut rx2 = device_targets.write_to(&mut pinned_targets, &mut ctx).unwrap();
    assert_eq!(rx2.try_recv(), Err(TryRecvError::Empty));
    ctx.synchronize();
    assert_eq!(rx2.try_recv(), Ok(()));

    let out = pinned_targets.pop().unwrap().into_storage();
    for i in 0..size {
        assert_eq!(out.read_byte(i), 0x5c);
    }
}

/// System -> Pinned -> System round trip over the byte-copy path with a
/// varied pattern.
#[test]
fn system_pinned_round_trip_preserves_content() {
    let mut cuda = Cuda::new(1);
    let mut sys_alloc = SystemAllocator::new();
    let mut pin_alloc = PinnedAllocator::new(&mut cuda).unwrap();
    let size = 1024;

    let mut src_storage = sys_alloc.allocate(size).unwrap();
    for i in 0..size {
        // build a varied pattern via single-byte fills
        src_storage.memset((i % 251) as u8, i, 1).unwrap();
    }
    let original: Vec<u8> = (0..size).map(|i| src_storage.read_byte(i)).collect();

    let sources = vec![Block::new(src_storage, 0, 0, true)];
    let mut pinned_targets = vec![pinned_block(&mut pin_alloc, size, None)];
    let mut ctx = TransferContext::new();
    sources.write_to(&mut pinned_targets, &mut ctx).unwrap();

    let mut back_targets = vec![system_block(&mut sys_alloc, size)];
    pinned_targets.write_to(&mut back_targets, &mut ctx).unwrap();

    let out = back_targets.pop().unwrap().into_storage();
    for i in 0..size {
        assert_eq!(out.read_byte(i), original[i]);
    }
}

/// Unequal sequence lengths fail with the two lengths, before any work
/// is enqueued: the stream stays idle.
#[test]
fn count_mismatch_enqueues_nothing() {
    let mut cuda = Cuda::new(1);
    let mut alloc = PinnedAllocator::new(&mut cuda).unwrap();
    let sources = vec![
        pinned_block(&mut alloc, 64, None),
        pinned_block(&mut alloc, 64, None),
        pinned_block(&mut alloc, 64, None),
    ];
    let mut targets = vec![
        pinned_block(&mut alloc, 64, None),
        pinned_block(&mut alloc, 64, None),
        pinned_block(&mut alloc, 64, None),
        pinned_block(&mut alloc, 64, None),
    ];
    let mut ctx = TransferContext::new();
    let r = sources.write_to(&mut targets, &mut ctx);
    assert!(matches!(r, Err(TransferError::CountMismatch(3, 4))));
    assert_eq!(ctx.stream_len(), 0);
    assert_eq!(ctx.pending_len(), 0);
    assert_eq!(ctx.fabric_posts_len(), 0);
}

/// An empty batch is rejected.
#[test]
fn empty_batch_is_rejected() {
    let sources: Vec<Block<SystemStorage>> = Vec::new();
    let mut targets: Vec<Block<SystemStorage>> = Vec::new();
    let mut ctx = TransferContext::new();
    let r = sources.write_to(&mut targets, &mut ctx);
    assert!(matches!(r, Err(TransferError::NoBlocksProvided)));
    assert_eq!(ctx.stream_len(), 0);
}

/// Blocks of one side must share a block set and a worker.
#[test]
fn mixed_batches_are_rejected() {
    let mut sys_alloc = SystemAllocator::new();
    let mut ctx = TransferContext::new();

    let s0 = sys_alloc.allocate(16).unwrap();
    let s1 = sys_alloc.allocate(16).unwrap();
    let t0 = sys_alloc.allocate(16).unwrap();
    let t1 = sys_alloc.allocate(16).unwrap();
    let sources = vec![Block::new(s0, 1, 0, true), Block::new(s1, 2, 0, true)];
    let mut targets = vec![Block::new(t0, 1, 0, true), Block::new(t1, 1, 0, true)];
    let r = handle_local_transfer(&sources, &mut targets, &mut ctx);
    assert!(matches!(
        r,
        Err(TransferError::MismatchedBlockSetIndex(BlockTarget::Source, 1, 2))
    ));

    let s0 = sys_alloc.allocate(16).unwrap();
    let s1 = sys_alloc.allocate(16).unwrap();
    let sources = vec![Block::new(s0, 1, 3, true), Block::new(s1, 1, 4, true)];
    let t0 = sys_alloc.allocate(16).unwrap();
    let t1 = sys_alloc.allocate(16).unwrap();
    let mut targets = vec![Block::new(t0, 1, 3, true), Block::new(t1, 1, 3, true)];
    let r = handle_local_transfer(&sources, &mut targets, &mut ctx);
    assert!(matches!(
        r,
        Err(TransferError::MismatchedWorkerID(BlockTarget::Source, 3, 4))
    ));

    let s0 = sys_alloc.allocate(16).unwrap();
    let s1 = sys_alloc.allocate(16).unwrap();
    let sources = vec![Block::new(s0, 1, 3, true), Block::new(s1, 1, 3, true)];
    let t0 = sys_alloc.allocate(16).unwrap();
    let t1 = sys_alloc.allocate(16).unwrap();
    let mut targets = vec![Block::new(t0, 5, 3, true), Block::new(t1, 6, 3, true)];
    let r = handle_local_transfer(&sources, &mut targets, &mut ctx);
    assert!(matches!(
        r,
        Err(TransferError::MismatchedBlockSetIndex(BlockTarget::Destination, 5, 6))
    ));
    assert_eq!(ctx.stream_len(), 0);
}

/// A pair of different sizes is a block error carrying both sizes.
#[test]
fn size_mismatch_is_a_block_error() {
    let mut sys_alloc = SystemAllocator::new();
    let sources = vec![system_block(&mut sys_alloc, 32)];
    let mut targets = vec![system_block(&mut sys_alloc, 48)];
    let mut ctx = TransferContext::new();
    let r = sources.write_to(&mut targets, &mut ctx);
    assert!(matches!(
        r,
        Err(TransferError::BlockError(BlockError::SizeMismatch(32, 48)))
    ));
}

/// A contiguous host/device pair uses one driver copy per block; a
/// non-contiguous one uses a single scatter/gather kernel launch. The
/// event comes last either way.
#[test]
fn contiguity_picks_copy_or_kernel() {
    let mut cuda = Cuda::new(1);
    let mut pin_alloc = PinnedAllocator::new(&mut cuda).unwrap();
    let mut dev_alloc = DeviceAllocator::new(&mut cuda, 0).unwrap();

    // contiguous: two per-block copies, then the event
    let sources = vec![
        pinned_block(&mut pin_alloc, 128, None),
        pinned_block(&mut pin_alloc, 128, None),
    ];
    let mut targets = vec![
        device_block(&mut dev_alloc, 128, true),
        device_block(&mut dev_alloc, 128, true),
    ];
    let mut ctx = TransferContext::new();
    sources.write_to(&mut targets, &mut ctx).unwrap();
    assert_eq!(ctx.stream_len(), 3);
    assert_eq!(ctx.stream_op_at(0), StreamOp::CopyAsync(128));
    assert_eq!(ctx.stream_op_at(1), StreamOp::CopyAsync(128));
    assert_eq!(ctx.stream_op_at(2), StreamOp::EventRecord);
    assert_eq!(ctx.pending_len(), 1);

    // non-contiguous: one kernel launch covering the batch, then the event
    let mut storage = pin_alloc.allocate(128).unwrap();
    storage.memset(1, 0, 128).unwrap();
    let sources = vec![Block::new(storage, 0, 0, false)];
    let mut targets = vec![device_block(&mut dev_alloc, 128, true)];
    let mut ctx = TransferContext::new();
    sources.write_to(&mut targets, &mut ctx).unwrap();
    assert_eq!(ctx.stream_len(), 2);
    assert_eq!(ctx.stream_op_at(0), StreamOp::KernelLaunch(1));
    assert_eq!(ctx.stream_op_at(1), StreamOp::EventRecord);
}

/// Device-to-device always takes the per-block path, contiguous or not.
#[test]
fn device_to_device_skips_contiguity_refinement() {
    let mut cuda = Cuda::new(1);
    let mut dev_alloc = DeviceAllocator::new(&mut cuda, 0).unwrap();
    let sources = vec![device_block(&mut dev_alloc, 64, false)];
    let mut targets = vec![device_block(&mut dev_alloc, 64, false)];
    let mut ctx = TransferContext::new();
    let mut rx = sources.write_to(&mut targets, &mut ctx).unwrap();
    assert_eq!(ctx.stream_len(), 2);
    assert_eq!(ctx.stream_op_at(0), StreamOp::CopyAsync(64));
    assert_eq!(ctx.stream_op_at(1), StreamOp::EventRecord);
    assert_eq!(rx.try_recv(), Err(TryRecvError::Empty));
    ctx.synchronize();
    assert_eq!(rx.try_recv(), Ok(()));
}

/// The blocking host/device paths complete before returning and leave
/// the context's stream untouched.
#[test]
fn blocking_paths_complete_before_returning() {
    let mut cuda = Cuda::new(1);
    let mut sys_alloc = SystemAllocator::new();
    let mut dev_alloc = DeviceAllocator::new(&mut cuda, 0).unwrap();

    let mut storage = sys_alloc.allocate(256).unwrap();
    storage.memset(0x11, 0, 256).unwrap();
    let sources = vec![Block::new(storage, 0, 0, true)];
    let mut targets = vec![device_block(&mut dev_alloc, 256, true)];
    let mut ctx = TransferContext::new();
    let mut rx = sources.write_to(&mut targets, &mut ctx).unwrap();
    assert_eq!(rx.try_recv(), Ok(()));
    assert_eq!(ctx.stream_len(), 0);
    assert_eq!(ctx.pending_len(), 0);

    let mut back = vec![system_block(&mut sys_alloc, 256)];
    let mut rx2 = targets.write_to(&mut back, &mut ctx).unwrap();
    assert_eq!(rx2.try_recv(), Ok(()));
    let out = back.pop().unwrap().into_storage();
    for i in 0..256 {
        assert_eq!(out.read_byte(i), 0x11);
    }
}

/// A fabric write posts one batch to the agent and completes when the
/// fabric reports it done.
#[test]
fn fabric_write_posts_one_batch() {
    let mut cuda = Cuda::new(1);
    let mut pin_alloc = PinnedAllocator::new(&mut cuda).unwrap();
    let sources = vec![
        pinned_block(&mut pin_alloc, 512, Some(0x42)),
        pinned_block(&mut pin_alloc, 512, Some(0x42)),
    ];
    let remote_a = NixlStorage::new_from_descriptor(MemType::Gpu, 1, 0x7000, 512).unwrap();
    let remote_b = NixlStorage::new_from_descriptor(MemType::Gpu, 1, 0x7200, 512).unwrap();
    let mut targets = vec![Block::new(remote_a, 0, 0, true), Block::new(remote_b, 0, 0, true)];
    let mut ctx = TransferContext::new();
    let mut rx = sources.write_to(&mut targets, &mut ctx).unwrap();
    assert_eq!(ctx.fabric_posts_len(), 1);
    assert_eq!(
        ctx.fabric_post_at(0),
        FabricPost { op: NixlTransfer::Write, pairs: 2 }
    );
    assert_eq!(ctx.stream_len(), 0);
    assert_eq!(rx.try_recv(), Err(TryRecvError::Empty));
    ctx.synchronize();
    assert_eq!(rx.try_recv(), Ok(()));
    let out = targets.pop().unwrap().into_storage();
    for i in 0..512 {
        assert_eq!(out.read_byte(i), 0x42);
    }
}

/// Ordering is per context: draining one context fires its completions
/// and leaves another context's pending.
#[test]
fn completion_order_is_per_context() {
    let mut cuda = Cuda::new(1);
    let mut pin_alloc = PinnedAllocator::new(&mut cuda).unwrap();
    let mut dev_alloc = DeviceAllocator::new(&mut cuda, 0).unwrap();

    let mut ctx_x = TransferContext::new();
    let mut ctx_y = TransferContext::new();

    // a long transfer on X
    let long_sources = vec![pinned_block(&mut pin_alloc, 1 << 16, Some(1))];
    let mut long_targets = vec![device_block(&mut dev_alloc, 1 << 16, true)];
    let mut rx_x = long_sources.write_to(&mut long_targets, &mut ctx_x).unwrap();

    // a short transfer on Y
    let short_sources = vec![pinned_block(&mut pin_alloc, 64, Some(2))];
    let mut short_targets = vec![device_block(&mut dev_alloc, 64, true)];
    let mut rx_y = short_sources.write_to(&mut short_targets, &mut ctx_y).unwrap();

    ctx_y.synchronize();
    assert_eq!(rx_y.try_recv(), Ok(()));
    assert_eq!(rx_x.try_recv(), Err(TryRecvError::Empty));
    ctx_x.synchronize();
    assert_eq!(rx_x.try_recv(), Ok(()));
}

/// Batched copies move every pair.
#[test]
fn batched_memcpy_copies_every_pair() {
    let mut sys_alloc = SystemAllocator::new();
    let mut sources = Vec::new();
    let mut targets = Vec::new();
    for k in 0..5u8 {
        let mut s = sys_alloc.allocate(16).unwrap();
        s.memset(k + 1, 0, 16).unwrap();
        sources.push(Block::new(s, 0, 0, true));
        targets.push(system_block(&mut sys_alloc, 16));
    }
    let mut ctx = TransferContext::new();
    let mut rx = sources.write_to(&mut targets, &mut ctx).unwrap();
    assert_eq!(rx.try_recv(), Ok(()));
    for (k, t) in targets.iter().enumerate() {
        for i in 0..16 {
            assert_eq!(t.storage().read_byte(i), (k as u8) + 1);
        }
    }
}

/// Device 0 -> Device 1 -> Device 0 round trip across two devices.
#[test]
fn cross_device_round_trip_preserves_content() {
    let mut cuda = Cuda::new(2);
    let mut pin_alloc = PinnedAllocator::new(&mut cuda).unwrap();
    let mut dev0_alloc = DeviceAllocator::new(&mut cuda, 0).unwrap();
    let mut dev1_alloc = DeviceAllocator::new(&mut cuda, 1).unwrap();
    let size = 4096;
    let mut ctx = TransferContext::new();

    // seed device 0 from a pinned staging buffer
    let staged = vec![pinned_block(&mut pin_alloc, size, Some(0x3c))];
    let mut on_dev0 = vec![device_block(&mut dev0_alloc, size, true)];
    staged.write_to(&mut on_dev0, &mut ctx).unwrap();
    ctx.synchronize();

    let mut on_dev1 = vec![device_block(&mut dev1_alloc, size, true)];
    on_dev0.write_to(&mut on_dev1, &mut ctx).unwrap();
    ctx.synchronize();

    let mut back_on_dev0 = vec![device_block(&mut dev0_alloc, size, true)];
    on_dev1.write_to(&mut back_on_dev0, &mut ctx).unwrap();
    ctx.synchronize();

    let out = back_on_dev0.pop().unwrap().into_storage();
    for i in 0..size {
        assert_eq!(out.read_byte(i), 0x3c);
    }
}
