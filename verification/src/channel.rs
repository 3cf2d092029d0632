//! The channels the pool is built on: the bounded queues that carry
//! commands to workers and the one-shot channels that carry replies back.
//!
//! Both are shared with other threads, so what a call here returns depends
//! on what those threads did. The contracts below therefore promise nothing
//! about a result; callers are verified for every value of it.

use vstd::prelude::*;

verus! {

/// Sending half of a bounded queue.
#[verifier::external_type_specification]
#[verifier::external_body]
#[verifier::reject_recursive_types(T)]
pub struct ExQueueSender<T>(async_channel::Sender<T>);

/// Receiving half of a bounded queue.
#[verifier::external_type_specification]
#[verifier::external_body]
#[verifier::reject_recursive_types(T)]
pub struct ExQueueReceiver<T>(async_channel::Receiver<T>);

/// What a send into a closed queue hands back.
#[verifier::external_type_specification]
#[verifier::external_body]
#[verifier::reject_recursive_types(T)]
pub struct ExQueueSendError<T>(async_channel::SendError<T>);

/// Sending half of a one-shot reply channel.
#[verifier::external_type_specification]
#[verifier::external_body]
#[verifier::reject_recursive_types(T)]
pub struct ExReplySender<T>(futures::channel::oneshot::Sender<T>);

/// Receiving half of a one-shot reply channel.
#[verifier::external_type_specification]
#[verifier::external_body]
#[verifier::reject_recursive_types(T)]
pub struct ExReplyReceiver<T>(futures::channel::oneshot::Receiver<T>);

/// What awaiting a reply gives when the sending half was dropped unused.
#[verifier::external_type_specification]
#[verifier::external_body]
pub struct ExReplyCanceled(futures::channel::oneshot::Canceled);

/// `async_channel::bounded`: a new queue that holds at most `cap` items.
/// It panics on a capacity of zero, which the precondition rules out.
#[verifier::external_body]
pub(crate) fn queue_bounded<T>(cap: usize) -> (pair: (
    async_channel::Sender<T>,
    async_channel::Receiver<T>,
))
    requires
        cap > 0,
{
    async_channel::bounded(cap)
}

/// `Sender::close`: closes the queue; `true` if this call closed it, `false`
/// if it was closed before. Which of the two depends on other threads.
#[verifier::external_body]
pub(crate) fn queue_close<T>(queue: &async_channel::Sender<T>) -> (closed_now: bool) {
    queue.close()
}

/// `Sender::is_closed`: whether the queue is closed at the moment of the
/// call.
#[verifier::external_body]
pub(crate) fn queue_is_closed<T>(queue: &async_channel::Sender<T>) -> (closed: bool) {
    queue.is_closed()
}

/// `Sender::is_empty`: whether the queue holds no item at the moment of the
/// call.
#[verifier::external_body]
pub(crate) fn queue_is_empty<T>(queue: &async_channel::Sender<T>) -> (empty: bool) {
    queue.is_empty()
}

/// `Receiver::recv_blocking`: blocks the thread until an item arrives or the
/// queue is closed and empty; the item, or `None` for the closed queue.
#[verifier::external_body]
pub(crate) fn queue_recv_blocking<T>(receiver: &async_channel::Receiver<T>) -> (item: Option<T>) {
    receiver.recv_blocking().ok()
}

/// `Receiver::clone`: one more receiving half of the same queue.
#[verifier::external_body]
pub(crate) fn queue_receiver_clone<T>(receiver: &async_channel::Receiver<T>) -> (other:
    async_channel::Receiver<T>) {
    receiver.clone()
}

/// `oneshot::channel`: a new reply channel.
#[verifier::external_body]
pub(crate) fn reply_channel<T>() -> (pair: (
    futures::channel::oneshot::Sender<T>,
    futures::channel::oneshot::Receiver<T>,
)) {
    futures::channel::oneshot::channel()
}

/// `oneshot::Sender::is_canceled`: whether the receiving half is gone at
/// the moment of the call.
#[verifier::external_body]
pub(crate) fn reply_is_canceled<T>(reply: &futures::channel::oneshot::Sender<T>) -> (canceled:
    bool) {
    reply.is_canceled()
}

/// `oneshot::Sender::send`: hands `value` to the receiving half; `false` if
/// that half was gone, in which case the value is dropped.
#[verifier::external_body]
pub(crate) fn reply_send<T>(reply: futures::channel::oneshot::Sender<T>, value: T) -> (sent: bool) {
    reply.send(value).is_ok()
}

} // verus!
