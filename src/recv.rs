//! Recovery of the 4-tuple of a received datagram from what `recvmsg` returned:
//! the packet-info control messages and the sender's address.
use vstd::prelude::*;

use crate::addr::{
    be_value, ipv4_from_octets, ipv6_from_octets, port_from_net, FourTuple, IpAddr, SocketAddr,
};

verus! {

/// A control message attached to a received datagram, reduced to what matters
/// here. Addresses are the octets as the kernel laid them out (network order).
#[derive(Clone, Copy, Debug, PartialEq, Eq)]
pub enum ControlMessage {
    /// `IP_PKTINFO`: the `ipi_addr` field, the datagram's destination.
    Ipv4PacketInfo { ipi_addr: [u8; 4] },
    /// `IPV6_PKTINFO`: the `ipi6_addr` field, the datagram's destination.
    Ipv6PacketInfo { ipi6_addr: [u8; 16] },
    /// Any other control message.
    Other,
}

/// The sender's address (`msg_name`) as the kernel laid it out.
#[derive(Clone, Copy, Debug, PartialEq, Eq)]
pub enum RawSockAddr {
    /// `sockaddr_in`: `sin_addr` and `sin_port`, in network order.
    Inet { sin_addr: [u8; 4], sin_port: [u8; 2] },
    /// `sockaddr_in6`: `sin6_addr` and `sin6_port`, in network order.
    Inet6 { sin6_addr: [u8; 16], sin6_port: [u8; 2] },
    /// An address of any other family.
    Unsupported,
}

/// Why the 4-tuple of a received datagram could not be recovered.
#[derive(Clone, Copy, Debug, PartialEq, Eq, Structural)]
pub enum RecvError {
    /// No packet-info control message came with the datagram.
    NoLocalAddress,
    /// The kernel returned no sender address.
    NoRemoteAddress,
    /// The sender address is neither IPv4 nor IPv6, or not of the family of
    /// the local address.
    InvalidRemoteAddress,
}

impl RecvError {
    /// A description of the error.
    pub fn message(&self) -> (r: &'static str) {
        match self {
            RecvError::NoLocalAddress => "no local address",
            RecvError::NoRemoteAddress => "no remote address",
            RecvError::InvalidRemoteAddress => "invalid remote address",
        }
    }
}

/// The destination IP that one control message carries, if it is packet info.
pub open spec fn cmsg_ip(c: ControlMessage) -> Option<IpAddr> {
    match c {
        ControlMessage::Ipv4PacketInfo { ipi_addr } => Some(IpAddr::V4(be_value(ipi_addr@) as u32)),
        ControlMessage::Ipv6PacketInfo { ipi6_addr } => Some(IpAddr::V6(be_value(ipi6_addr@) as u128)),
        ControlMessage::Other => None,
    }
}

/// The destination IP of a datagram: that of the last packet-info message.
pub open spec fn local_ip_of(cmsgs: Seq<ControlMessage>) -> Option<IpAddr>
    decreases cmsgs.len(),
{
    if cmsgs.len() == 0 {
        None
    } else {
        match cmsg_ip(cmsgs.last()) {
            Some(ip) => Some(ip),
            None => local_ip_of(cmsgs.drop_last()),
        }
    }
}

/// The socket address that a raw sender address denotes, if it is IPv4 or IPv6.
pub open spec fn sockaddr_of(ss: RawSockAddr) -> Option<SocketAddr> {
    match ss {
        RawSockAddr::Inet { sin_addr, sin_port } => Some(
            SocketAddr {
                ip: IpAddr::V4(be_value(sin_addr@) as u32),
                port: be_value(sin_port@) as u16,
            },
        ),
        RawSockAddr::Inet6 { sin6_addr, sin6_port } => Some(
            SocketAddr {
                ip: IpAddr::V6(be_value(sin6_addr@) as u128),
                port: be_value(sin6_port@) as u16,
            },
        ),
        RawSockAddr::Unsupported => None,
    }
}

/// What recovering the 4-tuple yields, given the control messages, the sender
/// address and the port the listener is bound to.
pub open spec fn four_tuple_of(
    cmsgs: Seq<ControlMessage>,
    address: Option<RawSockAddr>,
    listen_port: u16,
) -> Result<FourTuple, RecvError> {
    match local_ip_of(cmsgs) {
        None => Err(RecvError::NoLocalAddress),
        Some(ip) => match address {
            None => Err(RecvError::NoRemoteAddress),
            Some(ss) => match sockaddr_of(ss) {
                None => Err(RecvError::InvalidRemoteAddress),
                Some(remote) => if (remote.ip is V6) != (ip is V6) {
                    Err(RecvError::InvalidRemoteAddress)
                } else {
                    Ok(
                        FourTuple {
                            local_addr: SocketAddr { ip, port: listen_port },
                            remote_addr: remote,
                        },
                    )
                },
            },
        },
    }
}

/// The destination IP carried by one control message, if it is packet info.
pub fn cmsg_local_ip(c: &ControlMessage) -> (r: Option<IpAddr>)
    ensures
        r == cmsg_ip(*c),
{
    match c {
        ControlMessage::Ipv4PacketInfo { ipi_addr } => Some(IpAddr::V4(ipv4_from_octets(*ipi_addr))),
        ControlMessage::Ipv6PacketInfo { ipi6_addr } => Some(IpAddr::V6(ipv6_from_octets(*ipi6_addr))),
        ControlMessage::Other => None,
    }
}

/// Scans the control messages of a datagram for its destination IP.
pub fn local_ip_from_cmsgs(cmsgs: &Vec<ControlMessage>) -> (r: Option<IpAddr>)
    ensures
        r == local_ip_of(cmsgs@),
{
    let mut found: Option<IpAddr> = None;
    let mut i: usize = 0;
    while i < cmsgs.len()
        invariant
            i <= cmsgs@.len(),
            found == local_ip_of(cmsgs@.take(i as int)),
        decreases cmsgs@.len() - i,
    {
        proof {
            assert(cmsgs@.take(i as int + 1).drop_last() =~= cmsgs@.take(i as int));
        }
        match cmsg_local_ip(&cmsgs[i]) {
            Some(ip) => {
                found = Some(ip);
            },
            None => {},
        }
        i = i + 1;
    }
    assert(cmsgs@.take(i as int) =~= cmsgs@);
    found
}

/// Converts an IPv4 sender address.
pub fn sockaddr_in_to_addr(addr: [u8; 4], port: [u8; 2]) -> (r: SocketAddr)
    ensures
        r == (SocketAddr { ip: IpAddr::V4(be_value(addr@) as u32), port: be_value(port@) as u16 }),
{
    SocketAddr { ip: IpAddr::V4(ipv4_from_octets(addr)), port: port_from_net(port) }
}

/// Converts an IPv6 sender address.
pub fn sockaddr_in6_to_addr(addr: [u8; 16], port: [u8; 2]) -> (r: SocketAddr)
    ensures
        r == (SocketAddr {
            ip: IpAddr::V6(be_value(addr@) as u128),
            port: be_value(port@) as u16,
        }),
{
    SocketAddr { ip: IpAddr::V6(ipv6_from_octets(addr)), port: port_from_net(port) }
}

/// Converts a sender address of either IP family; `None` for any other family.
pub fn storage_to_addr(ss: &RawSockAddr) -> (r: Option<SocketAddr>)
    ensures
        r == sockaddr_of(*ss),
{
    match ss {
        RawSockAddr::Inet { sin_addr, sin_port } => Some(sockaddr_in_to_addr(*sin_addr, *sin_port)),
        RawSockAddr::Inet6 { sin6_addr, sin6_port } => Some(
            sockaddr_in6_to_addr(*sin6_addr, *sin6_port),
        ),
        RawSockAddr::Unsupported => None,
    }
}

/// Builds the 4-tuple of a received datagram. The local IP comes from the
/// packet-info control message, not from the socket's (wildcard) address; the
/// local port is the one the listener is bound to, which the kernel does not
/// report. Both addresses of a 4-tuple are of one family.
pub fn four_tuple_from_msg(
    cmsgs: &Vec<ControlMessage>,
    address: Option<RawSockAddr>,
    listen_port: u16,
) -> (r: Result<FourTuple, RecvError>)
    ensures
        r == four_tuple_of(cmsgs@, address, listen_port),
        r matches Ok(t) ==> local_ip_of(cmsgs@) == Some(t.local_addr.ip) && t.local_addr.port
            == listen_port,
        r matches Ok(t) ==> (t.local_addr.ip is V6) == (t.remote_addr.ip is V6),
{
    let local_ip = match local_ip_from_cmsgs(cmsgs) {
        Some(ip) => ip,
        None => {
            return Err(RecvError::NoLocalAddress);
        },
    };
    let raw = match address {
        Some(raw) => raw,
        None => {
            return Err(RecvError::NoRemoteAddress);
        },
    };
    let remote_addr = match storage_to_addr(&raw) {
        Some(remote) => remote,
        None => {
            return Err(RecvError::InvalidRemoteAddress);
        },
    };
    if local_ip.is_v6() != remote_addr.ip.is_v6() {
        return Err(RecvError::InvalidRemoteAddress);
    }
    Ok(FourTuple { local_addr: SocketAddr::new(local_ip, listen_port), remote_addr })
}

} // verus!
