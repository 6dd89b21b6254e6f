//! The decision a listener makes for each datagram read on its wildcard socket.
use futures::channel::mpsc::Receiver;

use vstd::prelude::*;

use crate::addr::FourTuple;
use crate::early_pkt::mailbox::{feeds, mailbox_closed, mailbox_head, open_mailbox, queued_last};
use crate::early_pkt::map::{kept_mailbox, EarlyPktMap, SendRes, Slot};
use crate::filter::IpFilter;

verus! {

/// The shared slots of a new mailbox. The channel gives each sender one slot
/// of its own besides these, so a mailbox holds one datagram.
pub const MAILBOX_BUFFER: usize = 0;

/// What a listener does with a datagram.
pub enum Admission {
    /// The local address does not pass the filter; the datagram is dropped.
    Filtered,
    /// The 4-tuple has a live connection; the datagram went to its mailbox,
    /// or was dropped if the mailbox was full.
    ConnAlreadyExists,
    /// A mailbox was opened for the 4-tuple, holding the datagram; here is its
    /// receiving end, for the new connection.
    New(Receiver<Vec<u8>>),
}

/// What a call of [`accept_raw`] for `four_tuple` and payload `buf` does,
/// given the filter, the outcome `r`, and the view of the map and its count of
/// opened mailboxes before (`before`, `opened`) and after (`after`,
/// `opened_after`) the call.
pub open spec fn accept_step(
    filter: IpFilter,
    four_tuple: FourTuple,
    buf: Seq<u8>,
    before: Map<FourTuple, Slot>,
    opened: nat,
    r: Admission,
    after: Map<FourTuple, Slot>,
    opened_after: nat,
) -> bool {
    &&& (r is Filtered) == !filter.spec_pass(four_tuple.local_addr.ip)
    &&& r is Filtered ==> after == before && opened_after == opened
    &&& r is ConnAlreadyExists ==> kept_mailbox(before, four_tuple, after) && opened_after
        == opened
    &&& r is New ==> after == before.insert(four_tuple, (opened, after[four_tuple].1))
        && opened_after == opened + 1
    &&& r matches Admission::New(rx) ==> mailbox_head(rx) == Some(buf) && feeds(
        after[four_tuple].1,
        rx,
    ) && queued_last(after[four_tuple].1) == Some(buf)
    &&& r is New ==> forall|k: FourTuple| #[trigger]
        before.contains_key(k) ==> before[k].0 != after[four_tuple].0
    &&& r is New && before.contains_key(four_tuple) ==> mailbox_closed(before[four_tuple].1)
    &&& filter.spec_pass(four_tuple.local_addr.ip) && !before.contains_key(four_tuple)
        ==> r is New
}

/// Decides what becomes of a datagram with the given 4-tuple and payload, and
/// updates the early-packet map accordingly. The caller holds the map for the
/// whole call, so no other datagram of the same 4-tuple can slip in between
/// the lookup and the opening of the mailbox.
///
/// A datagram that passes the filter and has no entry in the map opens a
/// mailbox whose first datagram it is. One for a 4-tuple with a live entry is
/// offered to that entry's mailbox and reported as `ConnAlreadyExists`; an
/// entry is replaced only when its mailbox is closed (its connection was
/// dropped).
pub fn accept_raw(
    filter: &IpFilter,
    map: &mut EarlyPktMap,
    four_tuple: &FourTuple,
    buf: Vec<u8>,
) -> (r: Admission)
    ensures
        accept_step(
            *filter,
            *four_tuple,
            buf@,
            old(map)@,
            old(map).opened(),
            r,
            final(map)@,
            final(map).opened(),
        ),
{
    proof {
        use_type_invariant(&*map);
        map.lemma_serials_below_opened();
    }
    if !filter.pass(&four_tuple.local_addr.ip) {
        return Admission::Filtered;
    }
    match map.send_early_pkt(four_tuple, buf) {
        SendRes::Sent => Admission::ConnAlreadyExists,
        SendRes::Full(_) => Admission::ConnAlreadyExists,
        SendRes::NotExist(buf) => {
            let (sender, receiver) = open_mailbox(MAILBOX_BUFFER, buf);
            map.insert(*four_tuple, sender);
            assert(map@ =~= old(map)@.insert(*four_tuple, (old(map).opened(), sender)));
            Admission::New(receiver)
        },
    }
}

/// A live connection is never replaced: a datagram for a 4-tuple whose mailbox
/// is in the map and not closed does not open a new connection, and is
/// reported as going to the existing one if it passes the filter. A map entry
/// thus yields one connection over its lifetime.
pub proof fn lemma_one_conn_per_entry(
    filter: IpFilter,
    four_tuple: FourTuple,
    buf: Seq<u8>,
    before: Map<FourTuple, Slot>,
    opened: nat,
    r: Admission,
    after: Map<FourTuple, Slot>,
    opened_after: nat,
)
    requires
        accept_step(filter, four_tuple, buf, before, opened, r, after, opened_after),
        before.contains_key(four_tuple),
        !mailbox_closed(before[four_tuple].1),
    ensures
        !(r is New),
        filter.spec_pass(four_tuple.local_addr.ip) ==> r is ConnAlreadyExists,
        r is ConnAlreadyExists ==> after[four_tuple].0 == before[four_tuple].0,
{
}

} // verus!
