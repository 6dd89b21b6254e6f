//! Addresses as plain values, and their decoding from network byte order.
use vstd::prelude::*;

verus! {

/// An IP address: IPv4 as its 32-bit value, IPv6 as its 128-bit value, both in
/// host order (the first octet is the most significant).
#[derive(Clone, Copy, Debug, PartialEq, Eq, Hash, Structural)]
pub enum IpAddr {
    V4(u32),
    V6(u128),
}

impl IpAddr {
    pub fn is_v4(&self) -> (r: bool)
        ensures
            r == (*self is V4),
    {
        match self {
            IpAddr::V4(_) => true,
            IpAddr::V6(_) => false,
        }
    }

    pub fn is_v6(&self) -> (r: bool)
        ensures
            r == (*self is V6),
    {
        match self {
            IpAddr::V4(_) => false,
            IpAddr::V6(_) => true,
        }
    }
}

/// An IP address together with a port.
#[derive(Clone, Copy, Debug, PartialEq, Eq, Hash, Structural)]
pub struct SocketAddr {
    pub ip: IpAddr,
    pub port: u16,
}

impl SocketAddr {
    pub fn new(ip: IpAddr, port: u16) -> (r: SocketAddr)
        ensures
            r.ip == ip,
            r.port == port,
    {
        SocketAddr { ip, port }
    }

    pub fn ip(&self) -> (r: IpAddr)
        ensures
            r == self.ip,
    {
        self.ip
    }

    pub fn port(&self) -> (r: u16)
        ensures
            r == self.port,
    {
        self.port
    }
}

/// The key by which datagrams are demultiplexed: the local endpoint the
/// datagram arrived on and the peer it came from.
#[derive(Clone, Copy, Debug, PartialEq, Eq, Hash, Structural)]
pub struct FourTuple {
    pub local_addr: SocketAddr,
    pub remote_addr: SocketAddr,
}

/// The number that a byte string denotes in big-endian (network) order.
pub open spec fn be_value(s: Seq<u8>) -> nat
    decreases s.len(),
{
    if s.len() == 0 {
        0
    } else {
        be_value(s.drop_last()) * 256 + s.last() as nat
    }
}

/// `256` to the power `n`: one more than the largest value of `n` bytes.
pub open spec fn byte_range(n: nat) -> nat
    decreases n,
{
    if n == 0 {
        1
    } else {
        256 * byte_range((n - 1) as nat)
    }
}

proof fn lemma_be_value_bound(s: Seq<u8>)
    ensures
        be_value(s) < byte_range(s.len()),
    decreases s.len(),
{
    if s.len() > 0 {
        let p = s.drop_last();
        lemma_be_value_bound(p);
        let v = be_value(p);
        let b = byte_range(p.len());
        let l = s.last() as nat;
        assert(v * 256 + l < 256 * b) by (nonlinear_arith)
            requires
                v < b,
                l < 256,
        ;
    }
}

/// Decodes up to sixteen bytes in network order.
fn be_decode(bytes: &[u8]) -> (r: u128)
    requires
        bytes@.len() <= 16,
    ensures
        r as nat == be_value(bytes@),
{
    let mut acc: u128 = 0;
    let mut i: usize = 0;
    while i < bytes.len()
        invariant
            i <= bytes@.len() <= 16,
            acc as nat == be_value(bytes@.take(i as int)),
        decreases bytes@.len() - i,
    {
        proof {
            assert(bytes@.take(i as int + 1).drop_last() =~= bytes@.take(i as int));
            lemma_be_value_bound(bytes@.take(i as int));
            lemma_byte_range_mono(i as nat, 15);
            reveal_with_fuel(byte_range, 16);
        }
        acc = acc * 256 + bytes[i] as u128;
        i = i + 1;
    }
    assert(bytes@.take(i as int) =~= bytes@);
    acc
}

proof fn lemma_byte_range_mono(a: nat, b: nat)
    requires
        a <= b,
    ensures
        byte_range(a) <= byte_range(b),
    decreases b,
{
    if a < b {
        lemma_byte_range_mono(a, (b - 1) as nat);
    }
}

/// The IPv4 address whose four octets, in network order, are `octets`.
pub fn ipv4_from_octets(octets: [u8; 4]) -> (r: u32)
    ensures
        r as nat == be_value(octets@),
{
    proof {
        lemma_be_value_bound(octets@);
        reveal_with_fuel(byte_range, 5);
    }
    be_decode(&octets) as u32
}

/// The IPv6 address whose sixteen octets, in network order, are `octets`.
pub fn ipv6_from_octets(octets: [u8; 16]) -> (r: u128)
    ensures
        r as nat == be_value(octets@),
{
    be_decode(&octets)
}

/// A port given as its two bytes in network order.
pub fn port_from_net(bytes: [u8; 2]) -> (r: u16)
    ensures
        r as nat == be_value(bytes@),
{
    proof {
        lemma_be_value_bound(bytes@);
        reveal_with_fuel(byte_range, 3);
    }
    be_decode(&bytes) as u16
}

} // verus!
