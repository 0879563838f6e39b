//! The transfer executor: dispatch of a batched (sources, targets)
//! transfer over the strategy resolved from the two tier types, with a
//! single-shot completion channel per call.
//!
//! Errors are returned synchronously and never fulfil the completion
//! channel; the channel fires exactly once per successful call, either
//! before the call returns (byte copy and blocking GPU paths) or when
//! the context's stream or fabric batch drains (asynchronous paths).

use vstd::prelude::*;

use crate::context::{send_unit, unit_channel, FabricPost, StreamOp, TransferContext};
use crate::storage::{Local, Storage};
use crate::strategy::{
    resolve_cuda_transfer_mode, CudaTransferMode, TransferStrategy, WriteToStrategy,
};
use crate::view::BlockError;

verus! {

/// A block that can be the target of a write.
pub trait Writable {}

/// A block that can be the source of a read.
pub trait Readable {}

/// A block that may be read and written.
pub trait Mutable: Readable + Writable {}

/// A block that may only be read.
pub trait Immutable: Readable {}

/// Which side of a batched transfer an error refers to.
#[derive(Debug, Clone, Copy, PartialEq, Eq, Structural)]
pub enum BlockTarget {
    /// The readable side.
    Source,
    /// The writable side.
    Destination,
}

/// Errors returned synchronously by the transfer executor.
#[derive(Debug, PartialEq, Eq)]
pub enum TransferError {
    /// Misconfiguration found before dispatch.
    BuilderError(String),
    /// A driver or fabric call failed mid-enqueue.
    ExecutionError(String),
    /// The tier pair resolves to no supported strategy.
    IncompatibleTypes(String),
    /// The source and destination sequences have different lengths.
    CountMismatch(usize, usize),
    /// A bounds, layout or view construction failure.
    BlockError(BlockError),
    /// The batch is empty.
    NoBlocksProvided,
    /// Two blocks of the given side belong to different block sets.
    MismatchedBlockSetIndex(BlockTarget, usize, usize),
    /// Two blocks of the given side belong to different workers.
    MismatchedWorkerID(BlockTarget, usize, usize),
    /// A blocking-pool submission failed.
    OffloadError(String),
    /// Unclassified passthrough.
    Other(String),
}

/// One KV-cache block: a storage region together with the block set it
/// belongs to, the worker that owns it, and its layout contiguity.
pub struct Block<S: Storage> {
    storage: S,
    block_set_idx: usize,
    worker_id: usize,
    fully_contiguous: bool,
}

impl<S: Storage> Block<S> {
    /// The region holding the block's bytes.
    pub closed spec fn spec_storage(&self) -> S {
        self.storage
    }

    /// The block set this block belongs to.
    pub closed spec fn spec_block_set_idx(&self) -> usize {
        self.block_set_idx
    }

    /// The worker this block belongs to.
    pub closed spec fn spec_worker_id(&self) -> usize {
        self.worker_id
    }

    /// Whether the block's bytes form one contiguous run.
    pub closed spec fn spec_fully_contiguous(&self) -> bool {
        self.fully_contiguous
    }

    /// Wrap a storage region as a block.
    pub fn new(storage: S, block_set_idx: usize, worker_id: usize, fully_contiguous: bool) -> (b:
        Block<S>)
        ensures
            b.spec_storage() == storage,
            b.spec_block_set_idx() == block_set_idx,
            b.spec_worker_id() == worker_id,
            b.spec_fully_contiguous() == fully_contiguous,
    {
        Block { storage, block_set_idx, worker_id, fully_contiguous }
    }

    /// The region holding the block's bytes.
    pub fn storage(&self) -> (s: &S)
        ensures
            *s == self.spec_storage(),
    {
        &self.storage
    }

    /// Take the block apart, keeping its storage.
    pub fn into_storage(self) -> (s: S)
        ensures
            s == self.spec_storage(),
    {
        self.storage
    }

    /// The block set this block belongs to.
    pub fn block_set_idx(&self) -> (i: usize)
        ensures
            i == self.spec_block_set_idx(),
    {
        self.block_set_idx
    }

    /// The worker this block belongs to.
    pub fn worker_id(&self) -> (i: usize)
        ensures
            i == self.spec_worker_id(),
    {
        self.worker_id
    }

    /// Whether the block's bytes form one contiguous run.
    pub fn is_fully_contiguous(&self) -> (r: bool)
        ensures
            r == self.spec_fully_contiguous(),
    {
        self.fully_contiguous
    }
}

impl<S: Storage> Readable for Block<S> {}

impl<S: Storage> Writable for Block<S> {}

impl<S: Storage> Mutable for Block<S> {}

impl<SS: Storage + Local + WriteToStrategy<DS>, DS: Storage> WriteToStrategy<
    Block<DS>,
> for Block<SS> {
    open spec fn write_to_strategy_spec() -> TransferStrategy {
        <SS as WriteToStrategy<DS>>::write_to_strategy_spec()
    }

    fn write_to_strategy() -> TransferStrategy {
        <SS as WriteToStrategy<DS>>::write_to_strategy()
    }
}

/// The (block set, worker) pair of every block, in order.
pub open spec fn spec_block_ids<S: Storage>(blocks: Seq<Block<S>>) -> Seq<(usize, usize)> {
    blocks.map(|i: int, b: Block<S>| (b.spec_block_set_idx(), b.spec_worker_id()))
}

/// Every block's storage is well formed and not yet released.
pub open spec fn spec_blocks_wf<S: Storage>(blocks: Seq<Block<S>>) -> bool {
    forall|i: int|
        0 <= i < blocks.len() ==> (#[trigger] blocks[i]).spec_storage().inv() && !blocks[i].spec_storage().spec_released()
}

/// Scan for the first block whose (block set, worker) pair differs from
/// block zero's: block-set index is compared first, as the executor
/// does. `true` marks a block-set mismatch, `false` a worker mismatch.
pub open spec fn spec_batch_mismatch_from(ids: Seq<(usize, usize)>, i: int) -> Option<(int, bool)>
    decreases ids.len() - i,
{
    if i < 1 || i >= ids.len() {
        None
    } else if ids[i].0 != ids[0].0 {
        Some((i, true))
    } else if ids[i].1 != ids[0].1 {
        Some((i, false))
    } else {
        spec_batch_mismatch_from(ids, i + 1)
    }
}

/// The first block whose (block set, worker) pair differs from block
/// zero's, if any.
pub open spec fn spec_batch_mismatch(ids: Seq<(usize, usize)>) -> Option<(int, bool)> {
    spec_batch_mismatch_from(ids, 1)
}

/// The first pair whose two blocks have different sizes, scanning from
/// `i`.
pub open spec fn spec_size_mismatch_from<SS: Storage, DS: Storage>(
    sources: Seq<Block<SS>>,
    targets: Seq<Block<DS>>,
    i: int,
) -> Option<int>
    decreases sources.len() - i,
{
    if i < 0 || i >= sources.len() || i >= targets.len() {
        None
    } else if sources[i].spec_storage().spec_bytes().len() != targets[i].spec_storage().spec_bytes().len() {
        Some(i)
    } else {
        spec_size_mismatch_from(sources, targets, i + 1)
    }
}

/// The first pair whose two blocks have different sizes, if any.
pub open spec fn spec_size_mismatch<SS: Storage, DS: Storage>(
    sources: Seq<Block<SS>>,
    targets: Seq<Block<DS>>,
) -> Option<int> {
    spec_size_mismatch_from(sources, targets, 0)
}

/// The target block kept everything but its byte contents: identity,
/// layout flag, and its storage's address, tier, registrations,
/// lifecycle and length.
pub open spec fn spec_block_meta_preserved<S: Storage>(b0: Block<S>, b1: Block<S>) -> bool {
    &&& b1.spec_block_set_idx() == b0.spec_block_set_idx()
    &&& b1.spec_worker_id() == b0.spec_worker_id()
    &&& b1.spec_fully_contiguous() == b0.spec_fully_contiguous()
    &&& b1.spec_storage().spec_addr() == b0.spec_storage().spec_addr()
    &&& b1.spec_storage().spec_storage_type() == b0.spec_storage().spec_storage_type()
    &&& b1.spec_storage().spec_released() == b0.spec_storage().spec_released()
    &&& b1.spec_storage().spec_regs() == b0.spec_storage().spec_regs()
    &&& b1.spec_storage().spec_frees_on_release() == b0.spec_storage().spec_frees_on_release()
    &&& b1.spec_storage().spec_bytes().len() == b0.spec_storage().spec_bytes().len()
}

/// Every target holds its source's bytes.
pub open spec fn spec_all_pairs_copied<SS: Storage, DS: Storage>(
    sources: Seq<Block<SS>>,
    targets1: Seq<Block<DS>>,
) -> bool {
    forall|i: int|
        0 <= i < sources.len() ==> (#[trigger] targets1[i]).spec_storage().spec_bytes()
            == sources[i].spec_storage().spec_bytes()
}

/// The per-block copy operations a batch enqueues on the stream.
pub open spec fn spec_copy_ops<SS: Storage>(sources: Seq<Block<SS>>) -> Seq<StreamOp> {
    Seq::new(
        sources.len(),
        |i: int| StreamOp::CopyAsync(sources[i].spec_storage().spec_bytes().len() as usize),
    )
}

/// The context's stream, pending completions and fabric log are
/// untouched.
pub open spec fn spec_ctx_unchanged(ctx0: TransferContext, ctx1: TransferContext) -> bool {
    &&& ctx1.spec_stream_ops() == ctx0.spec_stream_ops()
    &&& ctx1.spec_pending_len() == ctx0.spec_pending_len()
    &&& ctx1.spec_fabric_posts() == ctx0.spec_fabric_posts()
}

/// What a successful dispatch does to the context, per strategy: the
/// synchronous paths leave it untouched and complete before returning;
/// an asynchronous GPU path enqueues its copies (one per block, or one
/// scatter/gather kernel when a host/device pair is not contiguous)
/// followed by one completion event; a fabric path posts one batch and
/// schedules one completion.
pub open spec fn spec_ctx_after_transfer<SS: Storage>(
    strat: TransferStrategy,
    contiguous: bool,
    sources: Seq<Block<SS>>,
    ctx0: TransferContext,
    ctx1: TransferContext,
) -> bool {
    match strat {
        TransferStrategy::Memcpy => spec_ctx_unchanged(ctx0, ctx1),
        TransferStrategy::CudaBlockingH2D => spec_ctx_unchanged(ctx0, ctx1),
        TransferStrategy::CudaBlockingD2H => spec_ctx_unchanged(ctx0, ctx1),
        TransferStrategy::CudaAsyncH2D | TransferStrategy::CudaAsyncD2H => {
            &&& ctx1.spec_stream_ops() == if contiguous {
                ctx0.spec_stream_ops() + spec_copy_ops(sources) + seq![StreamOp::EventRecord]
            } else {
                ctx0.spec_stream_ops() + seq![
                    StreamOp::KernelLaunch(sources.len() as usize),
                    StreamOp::EventRecord,
                ]
            }
            &&& ctx1.spec_pending_len() == ctx0.spec_pending_len() + 1
            &&& ctx1.spec_fabric_posts() == ctx0.spec_fabric_posts()
        },
        TransferStrategy::CudaAsyncD2D => {
            &&& ctx1.spec_stream_ops() == ctx0.spec_stream_ops() + spec_copy_ops(sources) + seq![
                StreamOp::EventRecord,
            ]
            &&& ctx1.spec_pending_len() == ctx0.spec_pending_len() + 1
            &&& ctx1.spec_fabric_posts() == ctx0.spec_fabric_posts()
        },
        TransferStrategy::Nixl(op) => {
            &&& ctx1.spec_stream_ops() == ctx0.spec_stream_ops()
            &&& ctx1.spec_pending_len() == ctx0.spec_pending_len() + 1
            &&& ctx1.spec_fabric_posts() == ctx0.spec_fabric_posts().push(
                FabricPost { op, pairs: sources.len() as usize },
            )
        },
        _ => false,
    }
}

/// The full contract of a batched transfer from `sources` over
/// `targets0` (before) to `targets1` (after), with context `ctx0`
/// before and `ctx1` after, returning `r`.
///
/// A successful call requires equal non-zero lengths, uniform (block
/// set, worker) pairs on each side, a supported strategy and equal
/// sizes per pair; it copies every pair and drives the context as the
/// strategy prescribes. Each failure is pinned to its exact condition,
/// leaves the targets and the context untouched, and never fulfils the
/// completion channel.
pub open spec fn spec_transfer_post<SS: Storage + WriteToStrategy<DS>, DS: Storage>(
    sources: Seq<Block<SS>>,
    targets0: Seq<Block<DS>>,
    targets1: Seq<Block<DS>>,
    ctx0: TransferContext,
    ctx1: TransferContext,
    r: Result<tokio::sync::oneshot::Receiver<()>, TransferError>,
) -> bool {
    let n = sources.len();
    let m = targets0.len();
    let strat = <SS as WriteToStrategy<DS>>::write_to_strategy_spec();
    let contiguous = n > 0 && m > 0 && sources[0].spec_fully_contiguous()
        && targets0[0].spec_fully_contiguous();
    let srcm = spec_batch_mismatch(spec_block_ids(sources));
    let tgtm = spec_batch_mismatch(spec_block_ids(targets0));
    &&& targets1.len() == m
    &&& forall|i: int|
        0 <= i < m ==> spec_block_meta_preserved(targets0[i], #[trigger] targets1[i])
    &&& match r {
        Ok(_) => {
            &&& n == m
            &&& n > 0
            &&& srcm is None
            &&& tgtm is None
            &&& strat != TransferStrategy::Invalid
            &&& spec_size_mismatch(sources, targets0) is None
            &&& spec_all_pairs_copied(sources, targets1)
            &&& spec_ctx_after_transfer(strat, contiguous, sources, ctx0, ctx1)
        },
        Err(e) => {
            &&& targets1 == targets0
            &&& spec_ctx_unchanged(ctx0, ctx1)
            &&& match e {
                TransferError::CountMismatch(a, b) => a == n && b == m && n != m,
                TransferError::NoBlocksProvided => n == m && n == 0,
                TransferError::MismatchedBlockSetIndex(role, a, b) => {
                    &&& n == m
                    &&& n > 0
                    &&& match role {
                        BlockTarget::Source => srcm is Some && (srcm->Some_0).1 == true && a
                            == sources[0].spec_block_set_idx() && b == sources[
                            (srcm->Some_0).0
                        ].spec_block_set_idx(),
                        BlockTarget::Destination => srcm is None && tgtm is Some && (
                        tgtm->Some_0).1 == true && a == targets0[0].spec_block_set_idx() && b
                            == targets0[(tgtm->Some_0).0].spec_block_set_idx(),
                    }
                },
                TransferError::MismatchedWorkerID(role, a, b) => {
                    &&& n == m
                    &&& n > 0
                    &&& match role {
                        BlockTarget::Source => srcm is Some && (srcm->Some_0).1 == false && a
                            == sources[0].spec_worker_id() && b == sources[
                            (srcm->Some_0).0
                        ].spec_worker_id(),
                        BlockTarget::Destination => srcm is None && tgtm is Some && (
                        tgtm->Some_0).1 == false && a == targets0[0].spec_worker_id() && b
                            == targets0[(tgtm->Some_0).0].spec_worker_id(),
                    }
                },
                TransferError::IncompatibleTypes(_) => n == m && n > 0 && srcm is None
                    && tgtm is None && strat == TransferStrategy::Invalid,
                TransferError::BlockError(BlockError::SizeMismatch(a, b)) => {
                    let sz = spec_size_mismatch(sources, targets0);
                    &&& n == m
                    &&& n > 0
                    &&& srcm is None
                    &&& tgtm is None
                    &&& strat != TransferStrategy::Invalid
                    &&& sz is Some
                    &&& a == sources[sz->Some_0].spec_storage().spec_bytes().len()
                    &&& b == targets0[sz->Some_0].spec_storage().spec_bytes().len()
                },
                _ => false,
            }
        },
    }
}


/// Exec scan matching [`spec_batch_mismatch`].
fn find_batch_mismatch<S: Storage>(blocks: &Vec<Block<S>>) -> (r: Option<(usize, bool)>)
    ensures
        match r {
            Some((i, which)) => 0 < i < blocks@.len() && spec_batch_mismatch(
                spec_block_ids(blocks@),
            ) == Some((i as int, which)),
            None => spec_batch_mismatch(spec_block_ids(blocks@)) is None,
        },
{
    let ghost ids = spec_block_ids(blocks@);
    let n = blocks.len();
    let mut i: usize = 1;
    while i < n
        invariant
            n == blocks@.len(),
            1 <= i,
            ids == spec_block_ids(blocks@),
            spec_batch_mismatch_from(ids, 1) == spec_batch_mismatch_from(ids, i as int),
        decreases n - i,
    {
        proof {
            assert(ids[i as int] == (blocks@[i as int].spec_block_set_idx(), blocks@[i as int].spec_worker_id()));
            assert(ids[0] == (blocks@[0].spec_block_set_idx(), blocks@[0].spec_worker_id()));
        }
        if blocks[i].block_set_idx() != blocks[0].block_set_idx() {
            return Some((i, true));
        }
        if blocks[i].worker_id() != blocks[0].worker_id() {
            return Some((i, false));
        }
        i = i + 1;
    }
    None
}

/// Exec scan matching [`spec_size_mismatch`].
fn find_size_mismatch<SS: Storage, DS: Storage>(
    sources: &Vec<Block<SS>>,
    targets: &Vec<Block<DS>>,
) -> (r: Option<usize>)
    requires
        sources@.len() == targets@.len(),
    ensures
        match r {
            Some(k) => k < sources@.len() && spec_size_mismatch(sources@, targets@) == Some(
                k as int,
            ),
            None => spec_size_mismatch(sources@, targets@) is None,
        },
{
    let n = sources.len();
    let mut i: usize = 0;
    while i < n
        invariant
            n == sources@.len(),
            n == targets@.len(),
            i <= n,
            spec_size_mismatch_from(sources@, targets@, 0) == spec_size_mismatch_from(
                sources@,
                targets@,
                i as int,
            ),
        decreases n - i,
    {
        if sources[i].storage().size() != targets[i].storage().size() {
            return Some(i);
        }
        i = i + 1;
    }
    None
}

/// With no size mismatch from `i` on, every pair from `i` on has equal
/// sizes.
proof fn lemma_size_mismatch_none<SS: Storage, DS: Storage>(
    sources: Seq<Block<SS>>,
    targets: Seq<Block<DS>>,
    i: int,
)
    requires
        0 <= i,
        sources.len() == targets.len(),
        spec_size_mismatch_from(sources, targets, i) is None,
    ensures
        forall|j: int|
            i <= j < sources.len() ==> (#[trigger] sources[j]).spec_storage().spec_bytes().len()
                == targets[j].spec_storage().spec_bytes().len(),
    decreases sources.len() - i,
{
    if i < sources.len() {
        lemma_size_mismatch_none(sources, targets, i + 1);
    }
}

/// Copy the whole contents of `src`'s region over `dst`'s, byte for
/// byte, leaving everything else about `dst` unchanged.
fn copy_block_into<SS: Storage, DS: Storage>(src: &Block<SS>, dst: &mut Block<DS>)
    requires
        src.spec_storage().inv(),
        !src.spec_storage().spec_released(),
        old(dst).spec_storage().inv(),
        !old(dst).spec_storage().spec_released(),
        src.spec_storage().spec_bytes().len() == old(dst).spec_storage().spec_bytes().len(),
    ensures
        spec_block_meta_preserved(*old(dst), *final(dst)),
        final(dst).spec_storage().inv(),
        !final(dst).spec_storage().spec_released(),
        final(dst).spec_storage().spec_bytes() == src.spec_storage().spec_bytes(),
{
    let len = src.storage.size();
    let mut i: usize = 0;
    while i < len
        invariant
            len == src.spec_storage().spec_bytes().len(),
            i <= len,
            src.spec_storage().inv(),
            !src.spec_storage().spec_released(),
            dst.spec_storage().inv(),
            !dst.spec_storage().spec_released(),
            dst.spec_storage().spec_bytes().len() == len,
            spec_block_meta_preserved(*old(dst), *dst),
            forall|j: int|
                0 <= j < i ==> dst.spec_storage().spec_bytes()[j]
                    == src.spec_storage().spec_bytes()[j],
        decreases len - i,
    {
        let b = src.storage.read_byte(i);
        dst.storage.write_byte(i, b);
        i = i + 1;
    }
    proof {
        assert(dst.spec_storage().spec_bytes() =~= src.spec_storage().spec_bytes());
    }
}

/// Copy every pair, source over target, in batch order.
fn copy_all<SS: Storage, DS: Storage>(sources: &Vec<Block<SS>>, targets: &mut Vec<Block<DS>>)
    requires
        spec_blocks_wf(sources@),
        spec_blocks_wf(old(targets)@),
        sources@.len() == old(targets)@.len(),
        forall|j: int|
            0 <= j < sources@.len() ==> (#[trigger] sources@[j]).spec_storage().spec_bytes().len()
                == old(targets)@[j].spec_storage().spec_bytes().len(),
    ensures
        final(targets)@.len() == old(targets)@.len(),
        forall|i: int|
            0 <= i < old(targets)@.len() ==> spec_block_meta_preserved(
                old(targets)@[i],
                #[trigger] final(targets)@[i],
            ),
        spec_all_pairs_copied(sources@, final(targets)@),
        spec_blocks_wf(final(targets)@),
{
    let ghost targets0 = old(targets)@;
    let n = sources.len();
    let mut done: Vec<Block<DS>> = Vec::new();
    while targets.len() > 0
        invariant
            n == sources@.len(),
            n == targets0.len(),
            spec_blocks_wf(sources@),
            spec_blocks_wf(targets0),
            forall|j: int|
                0 <= j < n ==> (#[trigger] sources@[j]).spec_storage().spec_bytes().len()
                    == targets0[j].spec_storage().spec_bytes().len(),
            done@.len() + targets@.len() == n,
            targets@ == targets0.subrange(0, targets@.len() as int),
            forall|j: int|
                0 <= j < done@.len() ==> {
                    let idx = n - 1 - j;
                    &&& spec_block_meta_preserved(targets0[idx], #[trigger] done@[j])
                    &&& done@[j].spec_storage().spec_bytes() == sources@[
                        idx
                    ].spec_storage().spec_bytes()
                    &&& done@[j].spec_storage().inv()
                    &&& !done@[j].spec_storage().spec_released()
                },
        decreases targets@.len(),
    {
        let idx = targets.len() - 1;
        proof {
            assert(targets@[idx as int] == targets0[idx as int]);
        }
        let mut t = targets.pop().unwrap();
        copy_block_into(&sources[idx], &mut t);
        done.push(t);
        proof {
            assert(targets@ =~= targets0.subrange(0, targets@.len() as int));
        }
    }
    while done.len() > 0
        invariant
            n == sources@.len(),
            n == targets0.len(),
            done@.len() + targets@.len() == n,
            targets@.len() == n - done@.len(),
            forall|j: int|
                0 <= j < done@.len() ==> {
                    let idx = n - 1 - j;
                    &&& spec_block_meta_preserved(targets0[idx], #[trigger] done@[j])
                    &&& done@[j].spec_storage().spec_bytes() == sources@[
                        idx
                    ].spec_storage().spec_bytes()
                    &&& done@[j].spec_storage().inv()
                    &&& !done@[j].spec_storage().spec_released()
                },
            forall|i: int|
                0 <= i < targets@.len() ==> {
                    &&& spec_block_meta_preserved(targets0[i], #[trigger] targets@[i])
                    &&& targets@[i].spec_storage().spec_bytes() == sources@[
                        i
                    ].spec_storage().spec_bytes()
                    &&& targets@[i].spec_storage().inv()
                    &&& !targets@[i].spec_storage().spec_released()
                },
        decreases done@.len(),
    {
        let t = done.pop().unwrap();
        targets.push(t);
    }
}

/// Enqueue one asynchronous copy per source block on the context's
/// stream, in batch order.
fn enqueue_copies<SS: Storage>(sources: &Vec<Block<SS>>, ctx: &mut TransferContext)
    ensures
        final(ctx).spec_stream_ops() == old(ctx).spec_stream_ops() + spec_copy_ops(sources@),
        final(ctx).spec_pending_len() == old(ctx).spec_pending_len(),
        final(ctx).spec_fabric_posts() == old(ctx).spec_fabric_posts(),
{
    let n = sources.len();
    let mut i: usize = 0;
    while i < n
        invariant
            n == sources@.len(),
            i <= n,
            ctx.spec_stream_ops() == old(ctx).spec_stream_ops() + spec_copy_ops(
                sources@,
            ).subrange(0, i as int),
            ctx.spec_pending_len() == old(ctx).spec_pending_len(),
            ctx.spec_fabric_posts() == old(ctx).spec_fabric_posts(),
        decreases n - i,
    {
        let bytes = sources[i].storage().size();
        ctx.enqueue_copy(bytes);
        proof {
            assert(ctx.spec_stream_ops() =~= old(ctx).spec_stream_ops() + spec_copy_ops(
                sources@,
            ).subrange(0, i as int + 1));
        }
        i = i + 1;
    }
    proof {
        assert(spec_copy_ops(sources@).subrange(0, n as int) =~= spec_copy_ops(sources@));
    }
}

/// Dispatch a batched transfer of `sources` over `targets` on `ctx`,
/// using the strategy the two tier types resolve to, and return the
/// transfer's one-shot completion channel.
///
/// The full behaviour — when each error is returned, what is copied,
/// and what the context records per strategy — is
/// [`spec_transfer_post`].
pub fn handle_local_transfer<SS, DS>(
    sources: &Vec<Block<SS>>,
    targets: &mut Vec<Block<DS>>,
    ctx: &mut TransferContext,
) -> (r: Result<tokio::sync::oneshot::Receiver<()>, TransferError>)
    where SS: Storage + Local + WriteToStrategy<DS>, DS: Storage,
    requires
        spec_blocks_wf(sources@),
        spec_blocks_wf(old(targets)@),
    ensures
        spec_blocks_wf(final(targets)@),
        spec_transfer_post::<SS, DS>(
            sources@,
            old(targets)@,
            final(targets)@,
            *old(ctx),
            *final(ctx),
            r,
        ),
{
    let n = sources.len();
    let m = targets.len();
    if n != m {
        return Err(TransferError::CountMismatch(n, m));
    }
    if n == 0 {
        return Err(TransferError::NoBlocksProvided);
    }
    if let Some((i, which)) = find_batch_mismatch(sources) {
        if which {
            return Err(
                TransferError::MismatchedBlockSetIndex(
                    BlockTarget::Source,
                    sources[0].block_set_idx(),
                    sources[i].block_set_idx(),
                ),
            );
        }
        return Err(
            TransferError::MismatchedWorkerID(
                BlockTarget::Source,
                sources[0].worker_id(),
                sources[i].worker_id(),
            ),
        );
    }
    if let Some((i, which)) = find_batch_mismatch(&*targets) {
        if which {
            return Err(
                TransferError::MismatchedBlockSetIndex(
                    BlockTarget::Destination,
                    targets[0].block_set_idx(),
                    targets[i].block_set_idx(),
                ),
            );
        }
        return Err(
            TransferError::MismatchedWorkerID(
                BlockTarget::Destination,
                targets[0].worker_id(),
                targets[i].worker_id(),
            ),
        );
    }
    let strategy = <SS as WriteToStrategy<DS>>::write_to_strategy();
    if matches!(strategy, TransferStrategy::Invalid) {
        return Err(
            TransferError::IncompatibleTypes("the tier pair resolves to no supported transfer strategy".to_owned()),
        );
    }
    if let Some(k) = find_size_mismatch(sources, &*targets) {
        return Err(
            TransferError::BlockError(
                BlockError::SizeMismatch(sources[k].storage().size(), targets[k].storage().size()),
            ),
        );
    }
    proof {
        lemma_size_mismatch_none(sources@, targets@, 0);
    }
    let (tx, rx) = unit_channel();
    match strategy {
        TransferStrategy::Memcpy => {
            copy_all(sources, targets);
            send_unit(tx);
            Ok(rx)
        },
        TransferStrategy::CudaBlockingH2D | TransferStrategy::CudaBlockingD2H => {
            copy_all(sources, targets);
            send_unit(tx);
            Ok(rx)
        },
        TransferStrategy::CudaAsyncH2D | TransferStrategy::CudaAsyncD2H => {
            let is_contiguous = sources[0].is_fully_contiguous()
                && targets[0].is_fully_contiguous();
            let transfer_mode = resolve_cuda_transfer_mode(strategy, is_contiguous);
            match transfer_mode {
                CudaTransferMode::Custom => {
                    ctx.enqueue_kernel(n);
                },
                CudaTransferMode::Default => {
                    enqueue_copies(sources, ctx);
                },
            }
            copy_all(sources, targets);
            ctx.cuda_event(tx);
            proof {
                // the stream log ends in the enqueued work plus the event
                assert(ctx.spec_stream_ops() =~= old(ctx).spec_stream_ops() + seq![
                    StreamOp::KernelLaunch(sources@.len() as usize),
                    StreamOp::EventRecord,
                ] || ctx.spec_stream_ops() =~= old(ctx).spec_stream_ops() + spec_copy_ops(
                    sources@,
                ) + seq![StreamOp::EventRecord]);
            }
            Ok(rx)
        },
        TransferStrategy::CudaAsyncD2D => {
            enqueue_copies(sources, ctx);
            copy_all(sources, targets);
            ctx.cuda_event(tx);
            proof {
                // the stream log ends in the per-block copies plus the event
                assert(ctx.spec_stream_ops() =~= old(ctx).spec_stream_ops() + spec_copy_ops(
                    sources@,
                ) + seq![StreamOp::EventRecord]);
            }
            Ok(rx)
        },
        TransferStrategy::Nixl(transfer_type) => {
            copy_all(sources, targets);
            ctx.post_fabric(transfer_type, n, tx);
            Ok(rx)
        },
        _ => {
            proof {
                assert(false);
            }
            Err(TransferError::NoBlocksProvided)
        },
    }
}

/// Writing a collection of readable blocks to a matching collection of
/// writable blocks.
pub trait WriteTo<DS: Storage>: Sized {
    /// The storage tier the source blocks live in.
    type SrcStorage: Storage + Local + WriteToStrategy<DS>;

    /// The source blocks the collection holds.
    spec fn spec_sources(&self) -> Seq<Block<Self::SrcStorage>>;

    /// Dispatch the batched transfer and return its completion channel;
    /// the full behaviour is [`spec_transfer_post`].
    fn write_to(&self, dst: &mut Vec<Block<DS>>, ctx: &mut TransferContext) -> (r: Result<
        tokio::sync::oneshot::Receiver<()>,
        TransferError,
    >)
        requires
            spec_blocks_wf(self.spec_sources()),
            spec_blocks_wf(old(dst)@),
        ensures
            spec_blocks_wf(final(dst)@),
            spec_transfer_post::<Self::SrcStorage, DS>(
                self.spec_sources(),
                old(dst)@,
                final(dst)@,
                *old(ctx),
                *final(ctx),
                r,
            ),
    ;
}

impl<SS: Storage + Local + WriteToStrategy<DS>, DS: Storage> WriteTo<DS> for Vec<Block<SS>> {
    type SrcStorage = SS;

    open spec fn spec_sources(&self) -> Seq<Block<SS>> {
        self@
    }

    fn write_to(&self, dst: &mut Vec<Block<DS>>, ctx: &mut TransferContext) -> Result<
        tokio::sync::oneshot::Receiver<()>,
        TransferError,
    > {
        handle_local_transfer(self, dst, ctx)
    }
}


/// Law: a transfer round trip preserves byte content exactly. If a
/// first batch copied each source's bytes into its target, and a second
/// batch whose sources hold those bytes copied them on into its own
/// targets, then each final target holds the original source's bytes —
/// whatever the three tiers were.
pub proof fn lemma_transfer_round_trip<SA: Storage, SB: Storage, SC: Storage>(
    first_sources: Seq<Block<SA>>,
    first_targets: Seq<Block<SB>>,
    second_sources: Seq<Block<SB>>,
    second_targets: Seq<Block<SC>>,
)
    requires
        first_targets.len() == first_sources.len(),
        second_sources.len() == first_sources.len(),
        second_targets.len() == first_sources.len(),
        spec_all_pairs_copied(first_sources, first_targets),
        spec_all_pairs_copied(second_sources, second_targets),
        forall|i: int|
            0 <= i < first_sources.len() ==> (
            #[trigger] second_sources[i]).spec_storage().spec_bytes() == first_targets[
                i
            ].spec_storage().spec_bytes(),
    ensures
        forall|i: int|
            0 <= i < first_sources.len() ==> (
            #[trigger] second_targets[i]).spec_storage().spec_bytes() == first_sources[
                i
            ].spec_storage().spec_bytes(),
{
}

} // verus!
