//! Transfer context: the GPU stream on which copies and completion
//! events are enqueued, the fabric agent that batched posts go to, and
//! the pending completion signals.
//!
//! All transfers through one context share its stream, so they
//! serialize in enqueue order; callers who want parallelism allocate
//! more contexts. Completion is delivered through a one-shot channel:
//! exactly one signal per transfer, and never on a failed one.

use vstd::prelude::*;

use crate::strategy::NixlTransfer;

verus! {

/// Declares `tokio::sync::oneshot::Sender` to the verifier; the library
/// holds senders of pending completion events and fulfills each exactly
/// once.
#[verifier::external_type_specification]
#[verifier::external_body]
#[verifier::reject_recursive_types(T)]
pub struct ExSender<T>(tokio::sync::oneshot::Sender<T>);

/// Declares `tokio::sync::oneshot::Receiver` to the verifier; the
/// library returns one receiver per transfer for the caller to await.
#[verifier::external_type_specification]
#[verifier::external_body]
#[verifier::reject_recursive_types(T)]
pub struct ExReceiver<T>(tokio::sync::oneshot::Receiver<T>);

/// Declares the error a dropped sender leaves in the receiver's future;
/// it appears in `Receiver`'s `Future` impl, which the library never
/// relies on.
#[verifier::external_type_specification]
#[verifier::external_body]
pub struct ExRecvError(tokio::sync::oneshot::error::RecvError);

/// Relies on tokio::sync::oneshot::channel: returns the two connected
/// halves of a fresh one-shot channel.
#[verifier::external_body]
pub(crate) fn unit_channel() -> (tokio::sync::oneshot::Sender<()>, tokio::sync::oneshot::Receiver<
    (),
>) {
    tokio::sync::oneshot::channel()
}

/// Relies on tokio::sync::oneshot::Sender::send: consumes the sender and
/// fulfills the channel, unless the receiver was already dropped, which
/// the engine treats as a no-op.
#[verifier::external_body]
pub(crate) fn send_unit(tx: tokio::sync::oneshot::Sender<()>) -> bool {
    tx.send(()).is_ok()
}

/// One operation enqueued on a context's GPU stream.
#[derive(Debug, Clone, Copy, PartialEq, Eq, Structural)]
pub enum StreamOp {
    /// An asynchronous per-block copy of the given length.
    CopyAsync(usize),
    /// One scatter/gather kernel launch covering the given number of blocks.
    KernelLaunch(usize),
    /// A completion event recorded on the stream.
    EventRecord,
}

/// One batched transfer posted to the fabric agent.
#[derive(Debug, Clone, Copy, PartialEq, Eq, Structural)]
pub struct FabricPost {
    /// The direction of the post.
    pub op: NixlTransfer,
    /// How many block pairs the batch covers.
    pub pairs: usize,
}

/// Bundles the GPU stream, the fabric agent and the pending completion
/// signals of one transfer context.
///
/// The stream is modelled as the log of operations enqueued on it since
/// the context was created; a completion signal enqueued behind them
/// fires when the stream drains past it (see [`TransferContext::synchronize`]).
pub struct TransferContext {
    stream_ops: Vec<StreamOp>,
    pending: Vec<tokio::sync::oneshot::Sender<()>>,
    fabric_posts: Vec<FabricPost>,
}

impl TransferContext {
    /// The log of operations enqueued on this context's stream.
    pub closed spec fn spec_stream_ops(&self) -> Seq<StreamOp> {
        self.stream_ops@
    }

    /// How many completion signals are pending (enqueued, not yet fired).
    pub closed spec fn spec_pending_len(&self) -> nat {
        self.pending@.len()
    }

    /// The log of batched transfers posted to the fabric agent.
    pub closed spec fn spec_fabric_posts(&self) -> Seq<FabricPost> {
        self.fabric_posts@
    }

    /// A fresh context with an idle stream, no pending completion and no
    /// fabric post.
    pub fn new() -> (c: TransferContext)
        ensures
            c.spec_stream_ops() == Seq::<StreamOp>::empty(),
            c.spec_pending_len() == 0,
            c.spec_fabric_posts() == Seq::<FabricPost>::empty(),
    {
        let c = TransferContext {
            stream_ops: Vec::new(),
            pending: Vec::new(),
            fabric_posts: Vec::new(),
        };
        proof {
            assert(c.spec_stream_ops() =~= Seq::<StreamOp>::empty());
            assert(c.spec_fabric_posts() =~= Seq::<FabricPost>::empty());
        }
        c
    }

    /// How many operations the stream has seen.
    pub fn stream_len(&self) -> (n: usize)
        ensures
            n == self.spec_stream_ops().len(),
    {
        self.stream_ops.len()
    }

    /// The `i`-th operation enqueued on the stream.
    pub fn stream_op_at(&self, i: usize) -> (op: StreamOp)
        requires
            i < self.spec_stream_ops().len(),
        ensures
            op == self.spec_stream_ops()[i as int],
    {
        self.stream_ops[i]
    }

    /// How many completion signals are pending.
    pub fn pending_len(&self) -> (n: usize)
        ensures
            n == self.spec_pending_len(),
    {
        self.pending.len()
    }

    /// How many batched transfers were posted to the fabric agent.
    pub fn fabric_posts_len(&self) -> (n: usize)
        ensures
            n == self.spec_fabric_posts().len(),
    {
        self.fabric_posts.len()
    }

    /// The `i`-th batched transfer posted to the fabric agent.
    pub fn fabric_post_at(&self, i: usize) -> (p: FabricPost)
        requires
            i < self.spec_fabric_posts().len(),
        ensures
            p == self.spec_fabric_posts()[i as int],
    {
        self.fabric_posts[i]
    }

    /// Enqueue one asynchronous per-block copy of `bytes` bytes on the
    /// stream.
    pub(crate) fn enqueue_copy(&mut self, bytes: usize)
        ensures
            final(self).spec_stream_ops() == old(self).spec_stream_ops().push(
                StreamOp::CopyAsync(bytes),
            ),
            final(self).spec_pending_len() == old(self).spec_pending_len(),
            final(self).spec_fabric_posts() == old(self).spec_fabric_posts(),
    {
        self.stream_ops.push(StreamOp::CopyAsync(bytes));
    }

    /// Enqueue one scatter/gather kernel launch covering `blocks` blocks.
    pub(crate) fn enqueue_kernel(&mut self, blocks: usize)
        ensures
            final(self).spec_stream_ops() == old(self).spec_stream_ops().push(
                StreamOp::KernelLaunch(blocks),
            ),
            final(self).spec_pending_len() == old(self).spec_pending_len(),
            final(self).spec_fabric_posts() == old(self).spec_fabric_posts(),
    {
        self.stream_ops.push(StreamOp::KernelLaunch(blocks));
    }

    /// Record a completion event on the stream: `tx` fires when the
    /// stream drains past everything enqueued before it.
    pub fn cuda_event(&mut self, tx: tokio::sync::oneshot::Sender<()>)
        ensures
            final(self).spec_stream_ops() == old(self).spec_stream_ops().push(
                StreamOp::EventRecord,
            ),
            final(self).spec_pending_len() == old(self).spec_pending_len() + 1,
            final(self).spec_fabric_posts() == old(self).spec_fabric_posts(),
    {
        self.stream_ops.push(StreamOp::EventRecord);
        self.pending.push(tx);
    }

    /// Post a batched transfer of `pairs` block pairs to the fabric
    /// agent; `tx` fires when the fabric reports the batch complete.
    pub(crate) fn post_fabric(
        &mut self,
        op: NixlTransfer,
        pairs: usize,
        tx: tokio::sync::oneshot::Sender<()>,
    )
        ensures
            final(self).spec_stream_ops() == old(self).spec_stream_ops(),
            final(self).spec_pending_len() == old(self).spec_pending_len() + 1,
            final(self).spec_fabric_posts() == old(self).spec_fabric_posts().push(
                FabricPost { op, pairs },
            ),
    {
        self.fabric_posts.push(FabricPost { op, pairs });
        self.pending.push(tx);
    }

    /// Drain the stream and the fabric: every pending completion signal
    /// fires, in the order it was enqueued. Work already enqueued stays
    /// in the log.
    pub fn synchronize(&mut self)
        ensures
            final(self).spec_stream_ops() == old(self).spec_stream_ops(),
            final(self).spec_pending_len() == 0,
            final(self).spec_fabric_posts() == old(self).spec_fabric_posts(),
    {
        while self.pending.len() > 0
            invariant
                self.spec_stream_ops() == old(self).spec_stream_ops(),
                self.spec_fabric_posts() == old(self).spec_fabric_posts(),
            decreases self.pending@.len(),
        {
            let tx = self.pending.remove(0);
            send_unit(tx);
        }
    }
}

} // verus!
