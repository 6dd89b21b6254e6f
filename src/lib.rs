//! Demultiplexing of a wildcard-bound UDP socket into per-peer connections.
//!
//! The verified core: the address model and its wire decoding, the parsing of
//! what `recvmsg` returns, the local-address filter, the early-packet map and
//! the decision that a listener makes for each datagram.
pub mod addr;
pub mod conn;
pub mod early_pkt;
pub mod filter;
pub mod listener;
pub mod recv;

pub use addr::{FourTuple, IpAddr, SocketAddr};
pub use conn::{classify_recv, RecvRes};
pub use early_pkt::map::{EarlyPktMap, SendRes};
pub use filter::{IpFilter, IpFilterConfig};
pub use listener::{accept_raw, Admission, MAILBOX_BUFFER};
pub use recv::{four_tuple_from_msg, ControlMessage, RawSockAddr, RecvError};
