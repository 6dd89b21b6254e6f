//! The early-packet mailbox: a bounded channel of futures, carrying datagrams.
use futures::channel::mpsc::{Receiver, Sender};

use vstd::prelude::*;

verus! {

#[verifier::external_type_specification]
#[verifier::external_body]
#[verifier::reject_recursive_types(T)]
pub struct ExSender<T>(Sender<T>);

#[verifier::external_type_specification]
#[verifier::external_body]
#[verifier::reject_recursive_types(T)]
pub struct ExReceiver<T>(Receiver<T>);

/// The datagram that `r` yields first, if its mailbox holds one.
pub uninterp spec fn mailbox_head(r: Receiver<Vec<u8>>) -> Option<Seq<u8>>;

/// The datagram most recently queued through `s`, if any.
pub uninterp spec fn queued_last(s: Sender<Vec<u8>>) -> Option<Seq<u8>>;

/// No datagram can be queued through `s` any more: the receiving end of its
/// mailbox was dropped or closed. Once closed, a mailbox stays closed.
pub uninterp spec fn mailbox_closed(s: Sender<Vec<u8>>) -> bool;

/// `s` feeds the mailbox that `r` receives from.
pub uninterp spec fn feeds(s: Sender<Vec<u8>>, r: Receiver<Vec<u8>>) -> bool;

/// Two senders feed the same mailboxes.
pub open spec fn same_mailbox(a: Sender<Vec<u8>>, b: Sender<Vec<u8>>) -> bool {
    forall|r: Receiver<Vec<u8>>| #[trigger] feeds(a, r) == feeds(b, r)
}

/// What an attempt to put a datagram into a mailbox came to.
pub enum TrySend {
    /// The datagram was queued.
    Sent,
    /// The mailbox was full; the datagram is handed back.
    Full(Vec<u8>),
    /// The mailbox is closed; the datagram is handed back.
    Disconnected(Vec<u8>),
}

/// Relies on futures::channel::mpsc::channel and Sender::try_send: `channel`
/// panics unless `buffer` is below its `MAX_BUFFER`, `usize::MAX >> 2`
/// (`usize::MAX / 4`); the new sender is not parked and its receiver is held
/// here, so the first `try_send` queues the datagram.
#[verifier::external_body]
pub(crate) fn open_mailbox(buffer: usize, first: Vec<u8>) -> (r: (Sender<Vec<u8>>, Receiver<Vec<u8>>))
    requires
        buffer < usize::MAX / 4,
    ensures
        mailbox_head(r.1) == Some(first@),
        queued_last(r.0) == Some(first@),
        feeds(r.0, r.1),
{
    let (mut sender, receiver) = futures::channel::mpsc::channel(buffer);
    let _ = sender.try_send(first);
    (sender, receiver)
}

/// Relies on futures::channel::mpsc::Sender::try_send: it never blocks; on
/// success the message is queued; on failure its error tells a full channel
/// from a closed one (receiver dropped or closed, or sender disconnected) and
/// hands the message back (`TrySendError::into_inner`). It keeps the sender
/// tied to the same channel.
#[verifier::external_body]
pub(crate) fn try_send(sender: &mut Sender<Vec<u8>>, msg: Vec<u8>) -> (r: TrySend)
    ensures
        r is Sent ==> queued_last(*final(sender)) == Some(msg@),
        r matches TrySend::Full(m) ==> m == msg,
        r matches TrySend::Disconnected(m) ==> m == msg && mailbox_closed(*old(sender)),
        forall|rx: Receiver<Vec<u8>>| #[trigger]
            feeds(*final(sender), rx) == feeds(*old(sender), rx),
{
    match sender.try_send(msg) {
        Ok(()) => TrySend::Sent,
        Err(e) => if e.is_full() {
            TrySend::Full(e.into_inner())
        } else {
            TrySend::Disconnected(e.into_inner())
        },
    }
}

/// Relies on futures::channel::mpsc::Sender::is_connected_to: whether the
/// sender and the receiver belong to the same channel.
#[verifier::external_body]
pub(crate) fn is_connected_to(sender: &Sender<Vec<u8>>, receiver: &Receiver<Vec<u8>>) -> (r: bool)
    ensures
        r == feeds(*sender, *receiver),
{
    sender.is_connected_to(receiver)
}

} // verus!
