//! The runtime's channels, locks and buffers, as far as this layer calls
//! them. The types are opaque here: their values are carried, never looked
//! into. The contracts are taken from the documentation and the source of
//! `tokio`, `tokio-stream`, `futures`, `bytes` and `std`; they are assumed,
//! not proved. Where a call's outcome depends on what other tasks do with
//! the same channel, its contract promises nothing.

use vstd::prelude::*;
use std::pin::Pin;
use std::sync::Arc;
use std::task::{Context, Poll};
use bytes::Bytes;
use futures::stream::Stream;
use crate::error::RpcError;
use crate::wire::{NetworkMessage, ReceivedMessage};

verus! {

/// `tokio::sync::mpsc::Sender`: the sending side of a bounded queue.
#[verifier::external_type_specification]
#[verifier::external_body]
#[verifier::reject_recursive_types(T)]
pub struct ExMpscSender<T>(tokio::sync::mpsc::Sender<T>);

/// `tokio::sync::mpsc::Receiver`: the receiving side of a bounded queue.
#[verifier::external_type_specification]
#[verifier::external_body]
#[verifier::reject_recursive_types(T)]
pub struct ExMpscReceiver<T>(tokio::sync::mpsc::Receiver<T>);

/// `tokio::sync::watch::Sender`: the writing side of a watched value.
#[verifier::external_type_specification]
#[verifier::external_body]
#[verifier::reject_recursive_types(T)]
pub struct ExWatchSender<T>(tokio::sync::watch::Sender<T>);

/// `tokio::sync::watch::Receiver`: a reading side of a watched value.
#[verifier::external_type_specification]
#[verifier::external_body]
#[verifier::reject_recursive_types(T)]
pub struct ExWatchReceiver<T>(tokio::sync::watch::Receiver<T>);

/// `tokio::sync::Mutex`: a lock whose holders wait without blocking a thread.
#[verifier::external_type_specification]
#[verifier::external_body]
#[verifier::reject_recursive_types(T)]
pub struct ExAsyncMutex<T: ?Sized>(tokio::sync::Mutex<T>);

/// `futures::channel::oneshot::Sender`: the side of a one-value channel that
/// fills it.
#[verifier::external_type_specification]
#[verifier::external_body]
#[verifier::reject_recursive_types(T)]
pub struct ExOneshotSender<T>(futures::channel::oneshot::Sender<T>);

/// `futures::channel::oneshot::Receiver`: the side of a one-value channel
/// that waits for the value.
#[verifier::external_type_specification]
#[verifier::external_body]
#[verifier::reject_recursive_types(T)]
pub struct ExOneshotReceiver<T>(futures::channel::oneshot::Receiver<T>);

/// `futures::channel::oneshot::Canceled`: what waiting on a dropped sender
/// yields.
#[verifier::external_type_specification]
#[verifier::external_body]
pub struct ExCanceled(futures::channel::oneshot::Canceled);

/// `tokio_stream::wrappers::ReceiverStream`: a queue's receiving side as a
/// stream.
#[verifier::external_type_specification]
#[verifier::external_body]
#[verifier::reject_recursive_types(T)]
pub struct ExReceiverStream<T>(tokio_stream::wrappers::ReceiverStream<T>);

/// `futures::stream::SelectAll`: many streams as one.
#[verifier::external_type_specification]
#[verifier::external_body]
#[verifier::reject_recursive_types(St)]
pub struct ExSelectAll<St>(futures::stream::SelectAll<St>);

/// `bytes::Bytes`: a shared, immutable buffer of bytes.
#[verifier::external_type_specification]
#[verifier::external_body]
pub struct ExBytes(bytes::Bytes);

/// `std::sync::Mutex`.
#[verifier::external_type_specification]
#[verifier::external_body]
#[verifier::reject_recursive_types(T)]
pub struct ExMutex<T: ?Sized>(std::sync::Mutex<T>);

/// `std::sync::MutexGuard`: the hold on a locked `Mutex`.
#[verifier::external_type_specification]
#[verifier::external_body]
#[verifier::reject_recursive_types(T)]
pub struct ExMutexGuard<'a, T: ?Sized + 'a>(std::sync::MutexGuard<'a, T>);

/// `std::task::Context`: what a poll is given to wake its task later.
#[verifier::external_type_specification]
#[verifier::external_body]
pub struct ExContext<'a>(std::task::Context<'a>);

/// `std::task::Poll`: ready with a value, or pending.
#[verifier::external_type_specification]
#[verifier::reject_recursive_types(T)]
pub struct ExPoll<T>(std::task::Poll<T>);

/// The sending side of a peer's bounded outbound queue.
pub type PeerChannel = tokio::sync::mpsc::Sender<NetworkMessage>;

/// What fills a completion slot: the response bytes, or why there are none.
pub type RpcResult = Result<Bytes, RpcError>;

/// The side of a completion slot that fills it.
pub type CompletionSender = futures::channel::oneshot::Sender<RpcResult>;

/// The side of a completion slot that waits for it.
pub type CompletionReceiver = futures::channel::oneshot::Receiver<RpcResult>;

/// One peer's inbound queue as a stream.
pub type InboundStream = tokio_stream::wrappers::ReceiverStream<ReceivedMessage>;

/// How a non-blocking enqueue ended.
#[derive(Clone, Copy, Debug, PartialEq, Eq, Structural)]
pub enum TrySend {
    /// The message is in the queue.
    Sent,
    /// The queue is at its capacity; the message was dropped.
    Full,
    /// The receiving side is gone; the message was dropped.
    Closed,
}

/// The bytes that a `bytes::Bytes` buffer holds.
pub uninterp spec fn bytes_of(buffer: Bytes) -> Seq<u8>;

/// The number of streams that a `SelectAll` holds: those it was given that
/// have not ended yet.
pub uninterp spec fn merged_count(merged: futures::stream::SelectAll<InboundStream>) -> nat;

/// `Clone::clone` of `tokio::sync::watch::Receiver`: another reader of the
/// same flag. Nothing is claimed about it.
pub assume_specification<T>[ <tokio::sync::watch::Receiver<T> as Clone>::clone ](
    receiver: &tokio::sync::watch::Receiver<T>,
) -> tokio::sync::watch::Receiver<T>;

/// `Clone::clone` of `tokio::sync::mpsc::Sender`: another sending side of
/// the same queue. Nothing is claimed about it.
pub assume_specification<T>[ <tokio::sync::mpsc::Sender<T> as Clone>::clone ](
    sender: &tokio::sync::mpsc::Sender<T>,
) -> tokio::sync::mpsc::Sender<T>;

/// `tokio::sync::mpsc::Sender::try_send`: enqueues without waiting. Which of
/// the three outcomes comes back depends on the queue's state, which the
/// receiving task changes; nothing is claimed about it.
#[verifier::external_body]
pub(crate) fn try_send(channel: &PeerChannel, message: NetworkMessage) -> TrySend {
    match channel.try_send(message) {
        Ok(()) => TrySend::Sent,
        Err(tokio::sync::mpsc::error::TrySendError::Full(_)) => TrySend::Full,
        Err(tokio::sync::mpsc::error::TrySendError::Closed(_)) => TrySend::Closed,
    }
}

/// `futures::channel::oneshot::channel`: a fresh completion slot.
#[verifier::external_body]
pub(crate) fn completion_slot() -> (CompletionSender, CompletionReceiver) {
    futures::channel::oneshot::channel()
}

/// `futures::channel::oneshot::Sender::send`: fills the slot. It hands the
/// value back as the error when the waiting side is gone, which only that
/// side decides.
#[verifier::external_body]
pub(crate) fn fill_slot(slot: CompletionSender, value: RpcResult) -> Result<(), RpcResult> {
    slot.send(value)
}

/// `AsRef<[u8]>::as_ref` of `Bytes`: the buffer's bytes as a slice.
#[verifier::external_body]
pub(crate) fn bytes_as_slice(buffer: &Bytes) -> (slice: &[u8])
    ensures
        slice@ == bytes_of(*buffer),
{
    buffer.as_ref()
}

/// `tokio::sync::watch::channel`: a watched flag with its initial value.
#[verifier::external_body]
pub(crate) fn watch_channel(initial: bool) -> (
    tokio::sync::watch::Sender<bool>,
    tokio::sync::watch::Receiver<bool>,
) {
    tokio::sync::watch::channel(initial)
}

/// `tokio::sync::Mutex::new`.
#[verifier::external_body]
pub(crate) fn async_mutex_new(
    value: tokio::sync::watch::Sender<bool>,
) -> tokio::sync::Mutex<tokio::sync::watch::Sender<bool>> {
    tokio::sync::Mutex::new(value)
}

/// `tokio::sync::watch::Receiver::borrow`: the flag's value at this moment.
/// The writing side may change it at any time; nothing is claimed about it.
#[verifier::external_body]
pub(crate) fn watch_current(flag: &tokio::sync::watch::Receiver<bool>) -> bool {
    *flag.borrow()
}

/// `tokio_stream::wrappers::ReceiverStream::new`.
#[verifier::external_body]
pub(crate) fn receiver_stream(receiver: tokio::sync::mpsc::Receiver<ReceivedMessage>) -> InboundStream {
    tokio_stream::wrappers::ReceiverStream::new(receiver)
}

/// `futures::stream::select_all`: one stream that yields what any of the
/// given streams yields. It starts out holding every one of them.
#[verifier::external_body]
pub(crate) fn select_all(streams: Vec<InboundStream>) -> (merged: futures::stream::SelectAll<
    InboundStream,
>)
    ensures
        merged_count(merged) == streams@.len(),
{
    futures::stream::select_all(streams)
}

/// `Stream::poll_next` of `ReceiverStream`. What comes out depends on what
/// the sending tasks have queued; nothing is claimed about it.
#[verifier::external_body]
pub(crate) fn poll_receiver_stream(stream: &mut InboundStream, cx: &mut Context<'_>) -> Poll<
    Option<ReceivedMessage>,
> {
    Pin::new(stream).poll_next(cx)
}

/// `Stream::poll_next` of `SelectAll`. What comes out depends on what the
/// sending tasks have queued. A poll takes no stream in: it drops those
/// that have ended and puts back the one that yielded. And it reports the
/// end only when no stream is left.
#[verifier::external_body]
pub(crate) fn poll_select_all(
    stream: &mut futures::stream::SelectAll<InboundStream>,
    cx: &mut Context<'_>,
) -> (r: Poll<Option<ReceivedMessage>>)
    ensures
        merged_count(*final(stream)) <= merged_count(*old(stream)),
        r matches Poll::Ready(None) ==> merged_count(*final(stream)) == 0,
{
    Pin::new(stream).poll_next(cx)
}

/// `std::sync::Mutex::new`.
#[verifier::external_body]
pub(crate) fn mutex_new<T>(value: T) -> std::sync::Mutex<T> {
    std::sync::Mutex::new(value)
}

/// `std::sync::Mutex::lock`: waits for the lock; `None` when the lock is
/// poisoned. A thread that holds the lock must not ask for it again: every
/// caller here lets go of the lock before it returns, and asks once.
#[verifier::external_body]
pub(crate) fn mutex_lock<'a, T>(mutex: &'a std::sync::Mutex<T>) -> Option<
    std::sync::MutexGuard<'a, T>,
> {
    match mutex.lock() {
        Ok(guard) => Some(guard),
        Err(_) => None,
    }
}

/// `DerefMut::deref_mut` of `std::sync::MutexGuard`: the value under the
/// lock. Other holders of the lock may have changed it since it was last
/// seen; nothing is claimed about it.
#[verifier::external_body]
pub(crate) fn guarded<'a, 'b, T>(guard: &'b mut std::sync::MutexGuard<'a, T>) -> &'b mut T {
    &mut **guard
}

/// `Arc::clone`: another pointer to the same allocation, so to an equal
/// value.
#[verifier::external_body]
pub(crate) fn arc_clone<T>(pointer: &Arc<T>) -> (other: Arc<T>)
    ensures
        other == *pointer,
{
    Arc::clone(pointer)
}

} // verus!
