//! The early-packet map: for each 4-tuple with a connection, the sending end of
//! that connection's mailbox.
use futures::channel::mpsc::{Receiver, Sender};

use vstd::prelude::*;

use crate::addr::FourTuple;
use crate::early_pkt::mailbox::{
    feeds, is_connected_to, mailbox_closed, queued_last, same_mailbox, try_send, TrySend,
};

verus! {

/// What handing a datagram to the map came to.
pub enum SendRes {
    /// It was queued in the mailbox of the 4-tuple.
    Sent,
    /// The mailbox of the 4-tuple is full; the datagram is handed back.
    Full(Vec<u8>),
    /// No live mailbox for the 4-tuple; the datagram is handed back.
    NotExist(Vec<u8>),
}

struct Entry {
    key: FourTuple,
    sender: Sender<Vec<u8>>,
    serial: Ghost<nat>,
}

/// A mailbox as the map sees it: its serial number and its sending end.
pub type Slot = (nat, Sender<Vec<u8>>);

// The entries are kept in a vector with unique keys: vstd specifies std's hash
// map for integer keys only, and a 4-tuple does not fit in one.
struct Entries {
    list: Vec<Entry>,
    model: Ghost<Map<FourTuple, Slot>>,
    opened: Ghost<nat>,
}

impl Entries {
    spec fn wf(&self) -> bool {
        &&& forall|i: int|
            0 <= i < self.list@.len() ==> {
                &&& self.model@.contains_key(#[trigger] self.list@[i].key)
                &&& self.model@[self.list@[i].key] == (
                    self.list@[i].serial@,
                    self.list@[i].sender,
                )
                &&& self.list@[i].serial@ < self.opened@
            }
        &&& forall|k: FourTuple| #[trigger]
            self.model@.contains_key(k) ==> exists|i: int|
                0 <= i < self.list@.len() && #[trigger] self.list@[i].key == k
        &&& forall|i: int, j: int|
            #![trigger self.list@[i], self.list@[j]]
            0 <= i < j < self.list@.len() ==> self.list@[i].key != self.list@[j].key
    }

    fn empty() -> (r: Entries)
        ensures
            r.wf(),
            r.model@ == Map::<FourTuple, Slot>::empty(),
            r.opened@ == 0,
    {
        Entries { list: Vec::new(), model: Ghost(Map::empty()), opened: Ghost(0) }
    }

    fn find(&self, key: &FourTuple) -> (r: Option<usize>)
        requires
            self.wf(),
        ensures
            match r {
                Some(i) => i < self.list@.len() && self.list@[i as int].key == *key,
                None => !self.model@.contains_key(*key),
            },
    {
        let mut i: usize = 0;
        while i < self.list.len()
            invariant
                self.wf(),
                i <= self.list@.len(),
                forall|j: int| 0 <= j < i ==> self.list@[j].key != *key,
            decreases self.list@.len() - i,
        {
            if self.list[i].key == *key {
                return Some(i);
            }
            i = i + 1;
        }
        None
    }

    fn take(&mut self, i: usize) -> (e: Entry)
        requires
            old(self).wf(),
            i < old(self).list@.len(),
        ensures
            final(self).wf(),
            e == old(self).list@[i as int],
            final(self).model@ == old(self).model@.remove(e.key),
            final(self).opened@ == old(self).opened@,
    {
        let ghost old_list = self.list@;
        let e = self.list.remove(i);
        self.model = Ghost(self.model@.remove(e.key));
        assert forall|k: FourTuple| #[trigger]
            self.model@.contains_key(k) implies exists|n: int|
                0 <= n < self.list@.len() && #[trigger] self.list@[n].key == k by {
            let m = choose|m: int| 0 <= m < old_list.len() && #[trigger] old_list[m].key == k;
            if m < i {
                assert(self.list@[m].key == k);
            } else {
                assert(m != i);
                assert(self.list@[m - 1].key == k);
            }
        }
        assert forall|a: int, b: int|
            #![trigger self.list@[a], self.list@[b]]
            0 <= a < b < self.list@.len() implies self.list@[a].key != self.list@[b].key by {
            let oa = if a < i { a } else { a + 1 };
            let ob = if b < i { b } else { b + 1 };
            assert(old_list[oa] == self.list@[a]);
            assert(old_list[ob] == self.list@[b]);
        }
        assert forall|n: int| 0 <= n < self.list@.len() implies {
            &&& self.model@.contains_key(#[trigger] self.list@[n].key)
            &&& self.model@[self.list@[n].key] == (self.list@[n].serial@, self.list@[n].sender)
            &&& self.list@[n].serial@ < self.opened@
        } by {
            let on = if n < i { n } else { n + 1 };
            assert(old_list[on] == self.list@[n]);
            assert(old_list[i as int] == e);
        }
        e
    }

    fn put(&mut self, e: Entry)
        requires
            old(self).wf(),
            !old(self).model@.contains_key(e.key),
            e.serial@ < old(self).opened@,
        ensures
            final(self).wf(),
            final(self).model@ == old(self).model@.insert(e.key, (e.serial@, e.sender)),
            final(self).opened@ == old(self).opened@,
    {
        let ghost old_list = self.list@;
        self.model = Ghost(self.model@.insert(e.key, (e.serial@, e.sender)));
        self.list.push(e);
        assert forall|k: FourTuple| #[trigger]
            self.model@.contains_key(k) implies exists|n: int|
                0 <= n < self.list@.len() && #[trigger] self.list@[n].key == k by {
            if k == e.key {
                assert(self.list@[old_list.len() as int].key == k);
            } else {
                let m = choose|m: int| 0 <= m < old_list.len() && #[trigger] old_list[m].key == k;
                assert(self.list@[m].key == k);
            }
        }
        assert forall|a: int, b: int|
            #![trigger self.list@[a], self.list@[b]]
            0 <= a < b < self.list@.len() implies self.list@[a].key != self.list@[b].key by {
            assert(self.list@[a] == old_list[a]);
            if b < old_list.len() {
                assert(self.list@[b] == old_list[b]);
            }
        }
        assert forall|n: int| 0 <= n < self.list@.len() implies {
            &&& self.model@.contains_key(#[trigger] self.list@[n].key)
            &&& self.model@[self.list@[n].key] == (self.list@[n].serial@, self.list@[n].sender)
            &&& self.list@[n].serial@ < self.opened@
        } by {
            if n < old_list.len() {
                assert(self.list@[n] == old_list[n]);
            }
        }
    }
}

/// The slot of `four_tuple` in `after` is that of `before` but for the value
/// of its sender, which still feeds the same mailbox; the rest is unchanged.
pub open spec fn kept_mailbox(
    before: Map<FourTuple, Slot>,
    four_tuple: FourTuple,
    after: Map<FourTuple, Slot>,
) -> bool {
    &&& before.contains_key(four_tuple)
    &&& after == before.insert(four_tuple, (before[four_tuple].0, after[four_tuple].1))
    &&& same_mailbox(before[four_tuple].1, after[four_tuple].1)
}

/// The early-packet map of a listener. Its view maps each 4-tuple that has a
/// mailbox to its [`Slot`]: the serial number of the mailbox (how many
/// mailboxes the map had opened before it, see [`EarlyPktMap::opened`]) and
/// the sending end stored for it. A mailbox that replaces an earlier one for
/// the same 4-tuple thus has another number.
pub struct EarlyPktMap {
    state: Entries,
}

impl View for EarlyPktMap {
    type V = Map<FourTuple, Slot>;

    closed spec fn view(&self) -> Map<FourTuple, Slot> {
        self.state.model@
    }
}

impl EarlyPktMap {
    #[verifier::type_invariant]
    pub closed spec fn inv(&self) -> bool {
        self.state.wf()
    }

    /// How many mailboxes the map has opened in all.
    pub closed spec fn opened(&self) -> nat {
        self.state.opened@
    }

    /// Every mailbox in the map was opened before the next one to be opened.
    pub proof fn lemma_serials_below_opened(&self)
        requires
            self.inv(),
        ensures
            forall|k: FourTuple| #[trigger] self@.contains_key(k) ==> self@[k].0 < self.opened(),
    {
        assert forall|k: FourTuple| #[trigger] self@.contains_key(k) implies self@[k].0
            < self.opened() by {
            let i = choose|i: int|
                0 <= i < self.state.list@.len() && #[trigger] self.state.list@[i].key == k;
            assert(self.state.list@[i].key == k);
        }
    }

    pub fn new() -> (r: EarlyPktMap)
        ensures
            r@ == Map::<FourTuple, Slot>::empty(),
            r.opened() == 0,
    {
        EarlyPktMap { state: Entries::empty() }
    }

    /// Whether the 4-tuple has a mailbox.
    pub fn contains(&self, four_tuple: &FourTuple) -> (r: bool)
        ensures
            r == self@.contains_key(*four_tuple),
    {
        proof {
            use_type_invariant(self);
        }
        self.state.find(four_tuple).is_some()
    }

    /// Stores the sending end of a new mailbox for the 4-tuple, in place of any
    /// mailbox it had.
    pub fn insert(&mut self, four_tuple: FourTuple, sender: Sender<Vec<u8>>)
        ensures
            final(self)@ == old(self)@.insert(four_tuple, (old(self).opened(), sender)),
            final(self).opened() == old(self).opened() + 1,
    {
        proof {
            use_type_invariant(&*self);
        }
        let mut state = Entries::empty();
        std::mem::swap(&mut state, &mut self.state);
        match state.find(&four_tuple) {
            Some(i) => {
                let _ = state.take(i);
            },
            None => {},
        }
        let ghost serial = state.opened@;
        state.opened = Ghost(serial + 1);
        state.put(Entry { key: four_tuple, sender, serial: Ghost(serial) });
        self.state = state;
        assert(self@ =~= old(self)@.insert(four_tuple, (old(self).opened(), sender)));
    }

    /// Removes the mailbox of the 4-tuple, if it has one.
    pub fn remove(&mut self, four_tuple: &FourTuple)
        ensures
            final(self)@ == old(self)@.remove(*four_tuple),
            final(self).opened() == old(self).opened(),
    {
        proof {
            use_type_invariant(&*self);
        }
        let mut state = Entries::empty();
        std::mem::swap(&mut state, &mut self.state);
        match state.find(four_tuple) {
            Some(i) => {
                let _ = state.take(i);
            },
            None => {
                assert(state.model@.remove(*four_tuple) =~= state.model@);
            },
        }
        self.state = state;
    }

    /// Removes the mailbox of the 4-tuple if it is the one `receiver` receives
    /// from, so that a connection removes its own mailbox and never one that
    /// replaced it.
    pub fn remove_mailbox(&mut self, four_tuple: &FourTuple, receiver: &Receiver<Vec<u8>>)
        ensures
            final(self)@ == (if old(self)@.contains_key(*four_tuple) && feeds(
                old(self)@[*four_tuple].1,
                *receiver,
            ) {
                old(self)@.remove(*four_tuple)
            } else {
                old(self)@
            }),
            final(self).opened() == old(self).opened(),
    {
        proof {
            use_type_invariant(&*self);
        }
        let mut state = Entries::empty();
        std::mem::swap(&mut state, &mut self.state);
        match state.find(four_tuple) {
            Some(i) => {
                if is_connected_to(&state.list[i].sender, receiver) {
                    let _ = state.take(i);
                }
            },
            None => {},
        }
        self.state = state;
    }

    /// Hands a datagram to the mailbox of the 4-tuple without blocking. A
    /// mailbox that is closed (its connection is gone) is removed, and the
    /// datagram comes back as if there had been none.
    pub fn send_early_pkt(&mut self, four_tuple: &FourTuple, buf: Vec<u8>) -> (r: SendRes)
        ensures
            final(self).opened() == old(self).opened(),
            !old(self)@.contains_key(*four_tuple) ==> r == SendRes::NotExist(buf),
            r is Sent ==> kept_mailbox(old(self)@, *four_tuple, final(self)@),
            r is Sent ==> queued_last(final(self)@[*four_tuple].1) == Some(buf@),
            r matches SendRes::Full(b) ==> b == buf && kept_mailbox(
                old(self)@,
                *four_tuple,
                final(self)@,
            ),
            r matches SendRes::NotExist(b) ==> b == buf && final(self)@ == old(self)@.remove(
                *four_tuple,
            ),
            r is NotExist && old(self)@.contains_key(*four_tuple) ==> mailbox_closed(
                old(self)@[*four_tuple].1,
            ),
    {
        proof {
            use_type_invariant(&*self);
        }
        let mut state = Entries::empty();
        std::mem::swap(&mut state, &mut self.state);
        let r = match state.find(four_tuple) {
            None => {
                assert(state.model@.remove(*four_tuple) =~= state.model@);
                SendRes::NotExist(buf)
            },
            Some(i) => {
                let mut entry = state.take(i);
                match try_send(&mut entry.sender, buf) {
                    TrySend::Sent => {
                        state.put(entry);
                        assert(state.model@ =~= old(self)@.insert(
                            *four_tuple,
                            (old(self)@[*four_tuple].0, state.model@[*four_tuple].1),
                        ));
                        SendRes::Sent
                    },
                    TrySend::Full(b) => {
                        state.put(entry);
                        assert(state.model@ =~= old(self)@.insert(
                            *four_tuple,
                            (old(self)@[*four_tuple].0, state.model@[*four_tuple].1),
                        ));
                        SendRes::Full(b)
                    },
                    TrySend::Disconnected(b) => SendRes::NotExist(b),
                }
            },
        };
        self.state = state;
        r
    }
}

} // verus!
