//! Transfer strategy resolution: a pure function of the source and
//! destination tier types, refined per contiguity for the asynchronous
//! GPU paths.
//!
//! A pageable-host buffer must not take part in an asynchronous GPU
//! copy, because the pager may move it mid-transfer; such pairs resolve
//! to the blocking strategies, which run on the null stream and complete
//! before the call returns.

use vstd::prelude::*;

use crate::cuda::{DeviceStorage, PinnedStorage};
use crate::nixl::NixlStorage;
use crate::storage::{DiskStorage, StorageType, SystemStorage};

verus! {

/// The direction of a fabric transfer.
#[derive(Debug, Clone, Copy, PartialEq, Eq, Structural)]
pub enum NixlTransfer {
    /// Pull bytes from the remote region into the local one.
    Read,
    /// Push bytes from the local region into the remote one.
    Write,
}

/// How an asynchronous GPU transfer is issued.
#[derive(Debug, Clone, Copy, PartialEq, Eq, Structural)]
pub enum CudaTransferMode {
    /// Use the scatter/gather GPU kernel that walks a descriptor list.
    Custom,
    /// Use the driver's native asynchronous memcpy.
    Default,
}

/// The closed set of transfer strategies. `Invalid` is a sentinel for
/// unsupported tier pairs: it must be rejected at construction or at the
/// dispatch boundary.
#[derive(Debug, Clone, Copy, PartialEq, Eq, Structural)]
pub enum TransferStrategy {
    /// Plain byte copy on the calling thread.
    Memcpy,
    /// Asynchronous host-to-device copy on the context's stream.
    CudaAsyncH2D,
    /// Asynchronous device-to-host copy on the context's stream.
    CudaAsyncD2H,
    /// Asynchronous device-to-device copy on the context's stream.
    CudaAsyncD2D,
    /// Blocking host-to-device copy on the null stream.
    CudaBlockingH2D,
    /// Blocking device-to-host copy on the null stream.
    CudaBlockingD2H,
    /// A fabric post of the given direction.
    Nixl(NixlTransfer),
    /// The tier pair is unsupported.
    Invalid,
}

/// The strategy table of the engine, as a function of the source and
/// destination tier tags. Fabric can never be a local source, and disk
/// regions do not take part in local transfers.
pub open spec fn spec_write_strategy(src: StorageType, dst: StorageType) -> TransferStrategy {
    match (src, dst) {
        (StorageType::System, StorageType::System) => TransferStrategy::Memcpy,
        (StorageType::System, StorageType::Pinned) => TransferStrategy::Memcpy,
        (StorageType::System, StorageType::Device(_)) => TransferStrategy::CudaBlockingH2D,
        (StorageType::System, StorageType::Nixl) => TransferStrategy::Nixl(NixlTransfer::Write),
        (StorageType::Pinned, StorageType::System) => TransferStrategy::Memcpy,
        (StorageType::Pinned, StorageType::Pinned) => TransferStrategy::Memcpy,
        (StorageType::Pinned, StorageType::Device(_)) => TransferStrategy::CudaAsyncH2D,
        (StorageType::Pinned, StorageType::Nixl) => TransferStrategy::Nixl(NixlTransfer::Write),
        (StorageType::Device(_), StorageType::System) => TransferStrategy::CudaBlockingD2H,
        (StorageType::Device(_), StorageType::Pinned) => TransferStrategy::CudaAsyncD2H,
        (StorageType::Device(_), StorageType::Device(_)) => TransferStrategy::CudaAsyncD2D,
        (StorageType::Device(_), StorageType::Nixl) => TransferStrategy::Nixl(NixlTransfer::Write),
        _ => TransferStrategy::Invalid,
    }
}

/// The strategy table of the engine, resolved at run time from tier
/// tags. A fabric source or a disk endpoint resolves to `Invalid`.
pub fn resolve_write_strategy(src: StorageType, dst: StorageType) -> (s: TransferStrategy)
    ensures
        s == spec_write_strategy(src, dst),
{
    match (src, dst) {
        (StorageType::System, StorageType::System) => TransferStrategy::Memcpy,
        (StorageType::System, StorageType::Pinned) => TransferStrategy::Memcpy,
        (StorageType::System, StorageType::Device(_)) => TransferStrategy::CudaBlockingH2D,
        (StorageType::System, StorageType::Nixl) => TransferStrategy::Nixl(NixlTransfer::Write),
        (StorageType::Pinned, StorageType::System) => TransferStrategy::Memcpy,
        (StorageType::Pinned, StorageType::Pinned) => TransferStrategy::Memcpy,
        (StorageType::Pinned, StorageType::Device(_)) => TransferStrategy::CudaAsyncH2D,
        (StorageType::Pinned, StorageType::Nixl) => TransferStrategy::Nixl(NixlTransfer::Write),
        (StorageType::Device(_), StorageType::System) => TransferStrategy::CudaBlockingD2H,
        (StorageType::Device(_), StorageType::Pinned) => TransferStrategy::CudaAsyncD2H,
        (StorageType::Device(_), StorageType::Device(_)) => TransferStrategy::CudaAsyncD2D,
        (StorageType::Device(_), StorageType::Nixl) => TransferStrategy::Nixl(NixlTransfer::Write),
        _ => TransferStrategy::Invalid,
    }
}

/// Trait for determining the transfer strategy for writing from a local
/// source to a target destination which could be local or remote.
pub trait WriteToStrategy<Target> {
    /// The strategy for writing `Self` to `Target`.
    spec fn write_to_strategy_spec() -> TransferStrategy;

    /// The strategy for writing `Self` to `Target`.
    fn write_to_strategy() -> (s: TransferStrategy)
        ensures
            s == Self::write_to_strategy_spec(),
    ;
}

/// Trait for determining the transfer strategy for reading from a
/// `Source` which could be local or remote into `Self`, which must be
/// local and writable.
pub trait ReadFromStrategy<Source> {
    /// The strategy for filling `Self` from `Source`.
    spec fn read_from_strategy_spec() -> TransferStrategy;

    /// The strategy for filling `Self` from `Source`.
    fn read_from_strategy() -> (s: TransferStrategy)
        ensures
            s == Self::read_from_strategy_spec(),
    ;
}

impl WriteToStrategy<SystemStorage> for SystemStorage {
    open spec fn write_to_strategy_spec() -> TransferStrategy {
        TransferStrategy::Memcpy
    }

    fn write_to_strategy() -> TransferStrategy {
        TransferStrategy::Memcpy
    }
}

impl WriteToStrategy<PinnedStorage> for SystemStorage {
    open spec fn write_to_strategy_spec() -> TransferStrategy {
        TransferStrategy::Memcpy
    }

    fn write_to_strategy() -> TransferStrategy {
        TransferStrategy::Memcpy
    }
}

impl WriteToStrategy<DeviceStorage> for SystemStorage {
    open spec fn write_to_strategy_spec() -> TransferStrategy {
        TransferStrategy::CudaBlockingH2D
    }

    fn write_to_strategy() -> TransferStrategy {
        TransferStrategy::CudaBlockingH2D
    }
}

impl WriteToStrategy<NixlStorage> for SystemStorage {
    open spec fn write_to_strategy_spec() -> TransferStrategy {
        TransferStrategy::Nixl(NixlTransfer::Write)
    }

    fn write_to_strategy() -> TransferStrategy {
        TransferStrategy::Nixl(NixlTransfer::Write)
    }
}

impl WriteToStrategy<SystemStorage> for PinnedStorage {
    open spec fn write_to_strategy_spec() -> TransferStrategy {
        TransferStrategy::Memcpy
    }

    fn write_to_strategy() -> TransferStrategy {
        TransferStrategy::Memcpy
    }
}

impl WriteToStrategy<PinnedStorage> for PinnedStorage {
    open spec fn write_to_strategy_spec() -> TransferStrategy {
        TransferStrategy::Memcpy
    }

    fn write_to_strategy() -> TransferStrategy {
        TransferStrategy::Memcpy
    }
}

impl WriteToStrategy<DeviceStorage> for PinnedStorage {
    open spec fn write_to_strategy_spec() -> TransferStrategy {
        TransferStrategy::CudaAsyncH2D
    }

    fn write_to_strategy() -> TransferStrategy {
        TransferStrategy::CudaAsyncH2D
    }
}

impl WriteToStrategy<NixlStorage> for PinnedStorage {
    open spec fn write_to_strategy_spec() -> TransferStrategy {
        TransferStrategy::Nixl(NixlTransfer::Write)
    }

    fn write_to_strategy() -> TransferStrategy {
        TransferStrategy::Nixl(NixlTransfer::Write)
    }
}

impl WriteToStrategy<SystemStorage> for DeviceStorage {
    open spec fn write_to_strategy_spec() -> TransferStrategy {
        TransferStrategy::CudaBlockingD2H
    }

    fn write_to_strategy() -> TransferStrategy {
        TransferStrategy::CudaBlockingD2H
    }
}

impl WriteToStrategy<PinnedStorage> for DeviceStorage {
    open spec fn write_to_strategy_spec() -> TransferStrategy {
        TransferStrategy::CudaAsyncD2H
    }

    fn write_to_strategy() -> TransferStrategy {
        TransferStrategy::CudaAsyncD2H
    }
}

impl WriteToStrategy<DeviceStorage> for DeviceStorage {
    open spec fn write_to_strategy_spec() -> TransferStrategy {
        TransferStrategy::CudaAsyncD2D
    }

    fn write_to_strategy() -> TransferStrategy {
        TransferStrategy::CudaAsyncD2D
    }
}

impl WriteToStrategy<NixlStorage> for DeviceStorage {
    open spec fn write_to_strategy_spec() -> TransferStrategy {
        TransferStrategy::Nixl(NixlTransfer::Write)
    }

    fn write_to_strategy() -> TransferStrategy {
        TransferStrategy::Nixl(NixlTransfer::Write)
    }
}

impl ReadFromStrategy<NixlStorage> for SystemStorage {
    open spec fn read_from_strategy_spec() -> TransferStrategy {
        TransferStrategy::Nixl(NixlTransfer::Read)
    }

    fn read_from_strategy() -> TransferStrategy {
        TransferStrategy::Nixl(NixlTransfer::Read)
    }
}

impl ReadFromStrategy<NixlStorage> for PinnedStorage {
    open spec fn read_from_strategy_spec() -> TransferStrategy {
        TransferStrategy::Nixl(NixlTransfer::Read)
    }

    fn read_from_strategy() -> TransferStrategy {
        TransferStrategy::Nixl(NixlTransfer::Read)
    }
}

impl ReadFromStrategy<NixlStorage> for DeviceStorage {
    open spec fn read_from_strategy_spec() -> TransferStrategy {
        TransferStrategy::Nixl(NixlTransfer::Read)
    }

    fn read_from_strategy() -> TransferStrategy {
        TransferStrategy::Nixl(NixlTransfer::Read)
    }
}

impl ReadFromStrategy<NixlStorage> for DiskStorage {
    open spec fn read_from_strategy_spec() -> TransferStrategy {
        TransferStrategy::Nixl(NixlTransfer::Read)
    }

    fn read_from_strategy() -> TransferStrategy {
        TransferStrategy::Nixl(NixlTransfer::Read)
    }
}

/// For an asynchronous host/device copy, pick the driver's native
/// memcpy when both blocks are fully contiguous, and the scatter/gather
/// kernel otherwise. Only the asynchronous host-to-device and
/// device-to-host strategies take this refinement.
#[inline]
pub fn resolve_cuda_transfer_mode(base_strategy: TransferStrategy, is_contiguous: bool) -> (m:
    CudaTransferMode)
    requires
        base_strategy == TransferStrategy::CudaAsyncH2D || base_strategy
            == TransferStrategy::CudaAsyncD2H,
    ensures
        m == if is_contiguous {
            CudaTransferMode::Default
        } else {
            CudaTransferMode::Custom
        },
{
    match base_strategy {
        TransferStrategy::CudaAsyncH2D => {
            if is_contiguous {
                CudaTransferMode::Default
            } else {
                CudaTransferMode::Custom
            }
        },
        TransferStrategy::CudaAsyncD2H => {
            if is_contiguous {
                CudaTransferMode::Default
            } else {
                CudaTransferMode::Custom
            }
        },
        _ => {
            proof {
                assert(false);
            }
            CudaTransferMode::Default
        },
    }
}

/// The resolved strategy matches the strategy table for every pair in
/// the tier matrix: both the type-level associations on the storage
/// types and the run-time resolver agree with it, and a fabric source
/// always resolves to `Invalid`.
pub proof fn lemma_strategy_matrix(device_a: u32, device_b: u32)
    ensures
        <SystemStorage as WriteToStrategy<SystemStorage>>::write_to_strategy_spec()
            == spec_write_strategy(StorageType::System, StorageType::System),
        <SystemStorage as WriteToStrategy<PinnedStorage>>::write_to_strategy_spec()
            == spec_write_strategy(StorageType::System, StorageType::Pinned),
        <SystemStorage as WriteToStrategy<DeviceStorage>>::write_to_strategy_spec()
            == spec_write_strategy(StorageType::System, StorageType::Device(device_a)),
        <SystemStorage as WriteToStrategy<NixlStorage>>::write_to_strategy_spec()
            == spec_write_strategy(StorageType::System, StorageType::Nixl),
        <PinnedStorage as WriteToStrategy<SystemStorage>>::write_to_strategy_spec()
            == spec_write_strategy(StorageType::Pinned, StorageType::System),
        <PinnedStorage as WriteToStrategy<PinnedStorage>>::write_to_strategy_spec()
            == spec_write_strategy(StorageType::Pinned, StorageType::Pinned),
        <PinnedStorage as WriteToStrategy<DeviceStorage>>::write_to_strategy_spec()
            == spec_write_strategy(StorageType::Pinned, StorageType::Device(device_a)),
        <PinnedStorage as WriteToStrategy<NixlStorage>>::write_to_strategy_spec()
            == spec_write_strategy(StorageType::Pinned, StorageType::Nixl),
        <DeviceStorage as WriteToStrategy<SystemStorage>>::write_to_strategy_spec()
            == spec_write_strategy(StorageType::Device(device_a), StorageType::System),
        <DeviceStorage as WriteToStrategy<PinnedStorage>>::write_to_strategy_spec()
            == spec_write_strategy(StorageType::Device(device_a), StorageType::Pinned),
        <DeviceStorage as WriteToStrategy<DeviceStorage>>::write_to_strategy_spec()
            == spec_write_strategy(StorageType::Device(device_a), StorageType::Device(device_b)),
        <DeviceStorage as WriteToStrategy<NixlStorage>>::write_to_strategy_spec()
            == spec_write_strategy(StorageType::Device(device_a), StorageType::Nixl),
        spec_write_strategy(StorageType::System, StorageType::System) == TransferStrategy::Memcpy,
        spec_write_strategy(StorageType::System, StorageType::Pinned) == TransferStrategy::Memcpy,
        spec_write_strategy(StorageType::System, StorageType::Device(device_a))
            == TransferStrategy::CudaBlockingH2D,
        spec_write_strategy(StorageType::System, StorageType::Nixl) == TransferStrategy::Nixl(
            NixlTransfer::Write,
        ),
        spec_write_strategy(StorageType::Pinned, StorageType::System) == TransferStrategy::Memcpy,
        spec_write_strategy(StorageType::Pinned, StorageType::Pinned) == TransferStrategy::Memcpy,
        spec_write_strategy(StorageType::Pinned, StorageType::Device(device_a))
            == TransferStrategy::CudaAsyncH2D,
        spec_write_strategy(StorageType::Pinned, StorageType::Nixl) == TransferStrategy::Nixl(
            NixlTransfer::Write,
        ),
        spec_write_strategy(StorageType::Device(device_a), StorageType::System)
            == TransferStrategy::CudaBlockingD2H,
        spec_write_strategy(StorageType::Device(device_a), StorageType::Pinned)
            == TransferStrategy::CudaAsyncD2H,
        spec_write_strategy(StorageType::Device(device_a), StorageType::Device(device_b))
            == TransferStrategy::CudaAsyncD2D,
        spec_write_strategy(StorageType::Device(device_a), StorageType::Nixl)
            == TransferStrategy::Nixl(NixlTransfer::Write),
        forall|dst: StorageType|
            spec_write_strategy(StorageType::Nixl, dst) == TransferStrategy::Invalid,
        <SystemStorage as ReadFromStrategy<NixlStorage>>::read_from_strategy_spec()
            == TransferStrategy::Nixl(NixlTransfer::Read),
        <PinnedStorage as ReadFromStrategy<NixlStorage>>::read_from_strategy_spec()
            == TransferStrategy::Nixl(NixlTransfer::Read),
        <DeviceStorage as ReadFromStrategy<NixlStorage>>::read_from_strategy_spec()
            == TransferStrategy::Nixl(NixlTransfer::Read),
        <DiskStorage as ReadFromStrategy<NixlStorage>>::read_from_strategy_spec()
            == TransferStrategy::Nixl(NixlTransfer::Read),
{
}

} // verus!
