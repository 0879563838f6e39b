use block_manager::cuda::{DeviceStorage, PinnedStorage};
use block_manager::nixl::NixlStorage;
use block_manager::storage::{StorageType, SystemStorage};
use block_manager::strategy::{
    resolve_cuda_transfer_mode, resolve_write_strategy, CudaTransferMode, NixlTransfer,
    ReadFromStrategy, TransferStrategy, WriteToStrategy,
};
use block_manager::transfer::Block;

#[test]
fn write_to_strategy() {
    // System to ...
    assert_eq!(
        <SystemStorage as WriteToStrategy<SystemStorage>>::write_to_strategy(),
        TransferStrategy::Memcpy
    );

    assert_eq!(
        <SystemStorage as WriteToStrategy<PinnedStorage>>::write_to_strategy(),
        TransferStrategy::Memcpy
    );

    assert_eq!(
        <SystemStorage as WriteToStrategy<DeviceStorage>>::write_to_strategy(),
        TransferStrategy::CudaBlockingH2D
    );

    assert_eq!(
        <SystemStorage as WriteToStrategy<NixlStorage>>::write_to_strategy(),
        TransferStrategy::Nixl(NixlTransfer::Write)
    );

    // Pinned to ...
    assert_eq!(
        <PinnedStorage as WriteToStrategy<SystemStorage>>::write_to_strategy(),
        TransferStrategy::Memcpy
    );
    assert_eq!(
        <PinnedStorage as WriteToStrategy<PinnedStorage>>::write_to_strategy(),
        TransferStrategy::Memcpy
    );
    assert_eq!(
        <PinnedStorage as WriteToStrategy<DeviceStorage>>::write_to_strategy(),
        TransferStrategy::CudaAsyncH2D
    );
    assert_eq!(
        <PinnedStorage as WriteToStrategy<NixlStorage>>::write_to_strategy(),
        TransferStrategy::Nixl(NixlTransfer::Write)
    );

    // Device to ...
    assert_eq!(
        <DeviceStorage as WriteToStrategy<SystemStorage>>::write_to_strategy(),
        TransferStrategy::CudaBlockingD2H
    );
    assert_eq!(
        <DeviceStorage as WriteToStrategy<PinnedStorage>>::write_to_strategy(),
        TransferStrategy::CudaAsyncD2H
    );
    assert_eq!(
        <DeviceStorage as WriteToStrategy<DeviceStorage>>::write_to_strategy(),
        TransferStrategy::CudaAsyncD2D
    );
    assert_eq!(
        <DeviceStorage as WriteToStrategy<NixlStorage>>::write_to_strategy(),
        TransferStrategy::Nixl(NixlTransfer::Write)
    );

    // Nixl as a local source does not compile: NixlStorage implements no
    // WriteToStrategy. The run-time resolver rejects the same pairs below.

    // the association lifts from the storage types to whole blocks
    assert_eq!(
        <Block<PinnedStorage> as WriteToStrategy<Block<DeviceStorage>>>::write_to_strategy(),
        TransferStrategy::CudaAsyncH2D
    );
}

#[test]
fn fabric_source_resolves_invalid() {
    assert_eq!(
        resolve_write_strategy(StorageType::Nixl, StorageType::System),
        TransferStrategy::Invalid
    );
    assert_eq!(
        resolve_write_strategy(StorageType::Nixl, StorageType::Pinned),
        TransferStrategy::Invalid
    );
    assert_eq!(
        resolve_write_strategy(StorageType::Nixl, StorageType::Device(0)),
        TransferStrategy::Invalid
    );
    assert_eq!(
        resolve_write_strategy(StorageType::Nixl, StorageType::Nixl),
        TransferStrategy::Invalid
    );
    assert_eq!(
        resolve_write_strategy(StorageType::Disk(3), StorageType::System),
        TransferStrategy::Invalid
    );
    assert_eq!(
        resolve_write_strategy(StorageType::System, StorageType::Disk(3)),
        TransferStrategy::Invalid
    );
}

#[test]
fn resolver_matches_type_level_table() {
    let tiers = [
        StorageType::System,
        StorageType::Pinned,
        StorageType::Device(0),
        StorageType::Nixl,
    ];
    let expected = [
        [
            TransferStrategy::Memcpy,
            TransferStrategy::Memcpy,
            TransferStrategy::CudaBlockingH2D,
            TransferStrategy::Nixl(NixlTransfer::Write),
        ],
        [
            TransferStrategy::Memcpy,
            TransferStrategy::Memcpy,
            TransferStrategy::CudaAsyncH2D,
            TransferStrategy::Nixl(NixlTransfer::Write),
        ],
        [
            TransferStrategy::CudaBlockingD2H,
            TransferStrategy::CudaAsyncD2H,
            TransferStrategy::CudaAsyncD2D,
            TransferStrategy::Nixl(NixlTransfer::Write),
        ],
        [
            TransferStrategy::Invalid,
            TransferStrategy::Invalid,
            TransferStrategy::Invalid,
            TransferStrategy::Invalid,
        ],
    ];
    for (i, src) in tiers.iter().enumerate() {
        for (j, dst) in tiers.iter().enumerate() {
            assert_eq!(resolve_write_strategy(*src, *dst), expected[i][j]);
        }
    }
}

#[test]
fn read_from_fabric_resolves_to_fabric_read() {
    assert_eq!(
        <SystemStorage as ReadFromStrategy<NixlStorage>>::read_from_strategy(),
        TransferStrategy::Nixl(NixlTransfer::Read)
    );
    assert_eq!(
        <PinnedStorage as ReadFromStrategy<NixlStorage>>::read_from_strategy(),
        TransferStrategy::Nixl(NixlTransfer::Read)
    );
    assert_eq!(
        <DeviceStorage as ReadFromStrategy<NixlStorage>>::read_from_strategy(),
        TransferStrategy::Nixl(NixlTransfer::Read)
    );
}

#[test]
fn cuda_transfer_mode_follows_contiguity() {
    assert_eq!(
        resolve_cuda_transfer_mode(TransferStrategy::CudaAsyncH2D, true),
        CudaTransferMode::Default
    );
    assert_eq!(
        resolve_cuda_transfer_mode(TransferStrategy::CudaAsyncH2D, false),
        CudaTransferMode::Custom
    );
    assert_eq!(
        resolve_cuda_transfer_mode(TransferStrategy::CudaAsyncD2H, true),
        CudaTransferMode::Default
    );
    assert_eq!(
        resolve_cuda_transfer_mode(TransferStrategy::CudaAsyncD2H, false),
        CudaTransferMode::Custom
    );
}
