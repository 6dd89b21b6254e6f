//! What a connection makes of a datagram read from its own socket.
use vstd::prelude::*;

use crate::addr::FourTuple;

verus! {

/// Whom a datagram read from a connection's socket is for.
pub enum RecvRes {
    /// The datagram has the connection's own 4-tuple.
    ThisConn,
    /// The datagram has another 4-tuple: it is meant for the listener.
    ListenerPkt(FourTuple),
}

/// Sorts a datagram with 4-tuple `got`, read on the connection of `expected`.
pub fn classify_recv(expected: &FourTuple, got: FourTuple) -> (r: RecvRes)
    ensures
        got == *expected ==> r is ThisConn,
        got != *expected ==> r == RecvRes::ListenerPkt(got),
{
    if got == *expected {
        RecvRes::ThisConn
    } else {
        RecvRes::ListenerPkt(got)
    }
}

} // verus!
