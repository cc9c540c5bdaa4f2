//! Raw IP sockets: socket options, the decision of how a write is sent, and
//! the IPv4 datagram that a write without an included header sends.
//!
//! The socket set of the network stack, its lock and the interfaces are
//! outside this crate; a socket here holds the stack's handle for its
//! socket, of type `H`, and what the socket logic reads.
use vstd::prelude::*;
use crate::error::SysError;
use smoltcp::wire::Ipv4Packet;

verus! {

/// A link-level endpoint: an interface.
#[derive(Clone, Copy, Debug, PartialEq, Eq)]
pub struct LinkLevelEndpoint {
    pub interface_index: usize,
}

impl LinkLevelEndpoint {
    pub fn new(ifindex: usize) -> (e: Self)
        ensures
            e.interface_index == ifindex,
    {
        LinkLevelEndpoint { interface_index: ifindex }
    }
}

/// A netlink endpoint: a port and a mask of multicast groups.
#[derive(Clone, Copy, Debug, PartialEq, Eq)]
pub struct NetlinkEndpoint {
    pub port_id: u32,
    pub multicast_groups_mask: u32,
}

impl NetlinkEndpoint {
    pub fn new(port_id: u32, multicast_groups_mask: u32) -> (e: Self)
        ensures
            e.port_id == port_id,
            e.multicast_groups_mask == multicast_groups_mask,
    {
        NetlinkEndpoint { port_id, multicast_groups_mask }
    }
}

/// An IP address.
#[derive(Clone, Copy, Debug, PartialEq, Eq)]
pub enum IpAddress {
    Unspecified,
    Ipv4([u8; 4]),
    Ipv6([u8; 16]),
}

/// An IP address and a port.
#[derive(Clone, Copy, Debug, PartialEq, Eq)]
pub struct IpEndpoint {
    pub addr: IpAddress,
    pub port: u16,
}

/// The address a socket sends to or receives from.
#[derive(Clone, Copy, Debug, PartialEq, Eq)]
pub enum Endpoint {
    Ip(IpEndpoint),
    LinkLevel(LinkLevelEndpoint),
    Netlink(NetlinkEndpoint),
}

/// The result of a socket operation: a count, or an error.
pub type SysResult = Result<usize, SysError>;

/// How a write on a raw socket is carried out.
#[derive(Clone, Copy, Debug, PartialEq, Eq)]
pub enum RawWrite {
    /// The data already holds its IP header: send it as it is.
    AsIs,
    /// Wrap the data in an IPv4 header addressed to `dst` and send it.
    Ipv4 { dst: [u8; 4] },
    /// The destination is an IP address of another family, which the socket
    /// does not support (the kernel stops).
    UnsupportedFamily,
    /// There is no IP destination: the write fails with `ENOTCONN`.
    NotConnected,
}

/// A raw IP socket.
pub struct RawSocketState<H> {
    handle: H,
    protocol: u8,
    header_included: bool,
}

impl<H> RawSocketState<H> {
    /// The stack's handle of the socket.
    pub closed spec fn handle_spec(&self) -> H {
        self.handle
    }

    /// The IP protocol number the socket carries.
    pub closed spec fn protocol_spec(&self) -> u8 {
        self.protocol
    }

    /// Whether written data already holds its IP header.
    pub closed spec fn header_included_spec(&self) -> bool {
        self.header_included
    }

    /// A raw socket for protocol `protocol` over the stack's socket `handle`;
    /// written data does not hold its header.
    pub fn new(handle: H, protocol: u8) -> (s: Self)
        ensures
            s.handle_spec() == handle,
            s.protocol_spec() == protocol,
            !s.header_included_spec(),
    {
        RawSocketState { handle, protocol, header_included: false }
    }

    /// The stack's handle of the socket.
    pub fn handle(&self) -> (h: &H)
        ensures
            *h == self.handle_spec(),
    {
        &self.handle
    }

    /// The IP protocol number the socket carries.
    pub fn protocol(&self) -> (p: u8)
        ensures
            p == self.protocol_spec(),
    {
        self.protocol
    }

    /// Whether written data already holds its IP header.
    pub fn header_included(&self) -> (b: bool)
        ensures
            b == self.header_included_spec(),
    {
        self.header_included
    }

    /// Decides how a write to `sendto_endpoint` is carried out.
    pub fn write(&self, sendto_endpoint: Option<Endpoint>) -> (w: RawWrite)
        ensures
            self.header_included_spec() ==> w == RawWrite::AsIs,
            !self.header_included_spec() ==> w == (match sendto_endpoint {
                Some(Endpoint::Ip(e)) => match e.addr {
                    IpAddress::Ipv4(dst) => RawWrite::Ipv4 { dst },
                    _ => RawWrite::UnsupportedFamily,
                },
                _ => RawWrite::NotConnected,
            }),
    {
        if self.header_included {
            RawWrite::AsIs
        } else {
            match sendto_endpoint {
                Some(Endpoint::Ip(e)) => match e.addr {
                    IpAddress::Ipv4(dst) => RawWrite::Ipv4 { dst },
                    _ => RawWrite::UnsupportedFamily,
                },
                _ => RawWrite::NotConnected,
            }
        }
    }
}

/// The operations common to sockets, with the answers of a socket that does
/// not support them.
pub trait Socket {
    /// Binds the socket to `endpoint`.
    fn bind(&mut self, endpoint: Endpoint) -> (r: SysResult)
        default_ensures
            r == Err::<usize, SysError>(SysError::EINVAL),
    {
        Err(SysError::EINVAL)
    }

    /// Starts listening for connections.
    fn listen(&mut self) -> (r: SysResult)
        default_ensures
            r == Err::<usize, SysError>(SysError::EINVAL),
    {
        Err(SysError::EINVAL)
    }

    /// Shuts the socket down.
    fn shutdown(&self) -> (r: SysResult)
        default_ensures
            r == Err::<usize, SysError>(SysError::EINVAL),
    {
        Err(SysError::EINVAL)
    }

    /// The local endpoint.
    fn endpoint(&self) -> (r: Option<Endpoint>)
        default_ensures
            r is None,
    {
        None
    }

    /// The remote endpoint.
    fn remote_endpoint(&self) -> (r: Option<Endpoint>)
        default_ensures
            r is None,
    {
        None
    }

    /// Sets a socket option; without support, accepted and ignored.
    fn setsockopt(&mut self, level: usize, opt: usize, data: &[u8]) -> (r: SysResult)
        default_ensures
            r == Ok::<usize, SysError>(0),
    {
        Ok(0)
    }

    /// A device control request; without support, accepted and ignored.
    fn ioctl(&mut self, request: usize, arg1: usize, arg2: usize, arg3: usize) -> (r: SysResult)
        default_ensures
            r == Ok::<usize, SysError>(0),
    {
        Ok(0)
    }
}

impl<H> Socket for RawSocketState<H> {
    /// Sets a socket option.  Whatever the level and the option, a non-empty
    /// `data` sets whether written data holds its header to whether its first
    /// byte is non-zero; empty data changes nothing.  Succeeds with 0.
    fn setsockopt(&mut self, level: usize, opt: usize, data: &[u8]) -> (r: SysResult)
        ensures
            r == Ok::<usize, SysError>(0),
            final(self).handle_spec() == old(self).handle_spec(),
            final(self).protocol_spec() == old(self).protocol_spec(),
            data@.len() > 0 ==> final(self).header_included_spec() == (data@[0] > 0),
            data@.len() == 0 ==> final(self).header_included_spec()
                == old(self).header_included_spec(),
    {
        if data.len() > 0 {
            self.header_included = data[0] > 0;
        }
        Ok(0)
    }

}

impl RawWrite {
    /// The result of a write of `len` bytes carried out as `self`; `sent`
    /// tells whether the stack accepted the packet (an IPv4 packet the stack
    /// refuses stops the kernel, so `sent` holds for it).
    pub fn result(&self, len: usize, sent: bool) -> (r: SysResult)
        requires
            !(*self is UnsupportedFamily),
        ensures
            *self matches RawWrite::AsIs ==> r == (if sent {
                Ok::<usize, SysError>(len)
            } else {
                Err(SysError::ENOBUFS)
            }),
            *self matches RawWrite::Ipv4 { .. } ==> r == Ok::<usize, SysError>(len),
            *self matches RawWrite::NotConnected ==> r == Err::<usize, SysError>(SysError::ENOTCONN),
    {
        match self {
            RawWrite::AsIs => if sent {
                Ok(len)
            } else {
                Err(SysError::ENOBUFS)
            },
            RawWrite::Ipv4 { .. } => Ok(len),
            _ => Err(SysError::ENOTCONN),
        }
    }
}

/// The endpoint that a datagram received on a raw IPv4 socket came from: the
/// source address of its header, port 0.
pub fn read_endpoint(data: &[u8]) -> (e: Endpoint)
    requires
        data@.len() >= 16,
    ensures
        e matches Endpoint::Ip(ip) && ip.port == 0 && (ip.addr matches IpAddress::Ipv4(a)
            && a@ == data@.subrange(12, 16)),
{
    let a: [u8; 4] = [data[12], data[13], data[14], data[15]];
    assert(a@ =~= data@.subrange(12, 16));
    Endpoint::Ip(IpEndpoint { addr: IpAddress::Ipv4(a), port: 0 })
}

/// Length of the IPv4 header the socket writes, without options.
pub const IPV4_HEADER_LEN: usize = 20;

/// The sum of the first `n` big-endian 16-bit words of `h`.
pub open spec fn word_sum(h: Seq<u8>, n: nat) -> int
    decreases n,
{
    if n == 0 {
        0
    } else {
        word_sum(h, (n - 1) as nat) + h[2 * (n - 1)] * 256 + h[2 * (n - 1) + 1]
    }
}

/// A 32-bit sum folded twice into 16 bits, carries added back in.
pub open spec fn fold_carries(w: int) -> int {
    let s = w / 65536 + w % 65536;
    s / 65536 + s % 65536
}

/// The IPv4 header checksum of the 20-byte header `h` whose checksum field
/// is zero: the complement of the folded sum of its ten 16-bit words.
pub open spec fn ipv4_checksum_spec(h: Seq<u8>) -> int {
    65535 - fold_carries(word_sum(h, 10))
}

/// The sum of `n` 16-bit words lies between 0 and `n` times 0xffff.
pub proof fn lemma_word_sum_bounds(h: Seq<u8>, n: nat)
    requires
        2 * n <= h.len(),
    ensures
        0 <= word_sum(h, n) <= n * 65535,
    decreases n,
{
    if n > 0 {
        lemma_word_sum_bounds(h, (n - 1) as nat);
        let a = h[2 * (n - 1)];
        let b = h[2 * (n - 1) + 1];
        assert(a * 256 + b <= 65535) by (nonlinear_arith)
            requires
                a <= 255,
                b <= 255,
        ;
    }
}

/// `Ipv4Packet::fill_checksum` of `smoltcp`, on a buffer whose header is 20
/// bytes long (version 4, header length 5 words): sets the checksum field,
/// bytes 10 and 11, big-endian, to the complement of the folded sum of the
/// header's words computed with the field zeroed, and changes no other
/// byte.
#[verifier::external_body]
fn fill_checksum(buf: &mut Vec<u8>)
    requires
        old(buf)@.len() >= 20,
        old(buf)@[0] == 0x45,
    ensures
        final(buf)@.len() == old(buf)@.len(),
        forall|i: int| 0 <= i < old(buf)@.len() && i != 10 && i != 11 ==> final(buf)@[i] == old(buf)@[i],
        final(buf)@[10] * 256 + final(buf)@[11] == ipv4_checksum_spec(
            old(buf)@.subrange(0, 20).update(10, 0).update(11, 0),
        ),
{
    Ipv4Packet::new_unchecked(&mut buf[..]).fill_checksum();
}

/// The 20-byte IPv4 header, checksum field zero, of a datagram of protocol
/// `protocol` from `src` to `dst` carrying `payload_len` bytes.
pub open spec fn ipv4_header_spec(protocol: u8, src: [u8; 4], dst: [u8; 4], payload_len: nat) -> Seq<u8> {
    let total = payload_len + 20;
    seq![
        0x45u8, 0, (total / 256) as u8, (total % 256) as u8, 0, 0, 0, 0, 0, protocol, 0, 0,
        src[0], src[1], src[2], src[3], dst[0], dst[1], dst[2], dst[3],
    ]
}

/// Header `h` with its checksum field filled in.
pub open spec fn with_checksum(h: Seq<u8>) -> Seq<u8> {
    let c = ipv4_checksum_spec(h);
    h.update(10, (c / 256) as u8).update(11, (c % 256) as u8)
}

/// The IPv4 datagram that a raw socket of protocol `protocol` sends for
/// `data` from `src` to `dst`: version 4, a 20-byte header, total length
/// `20 + data.len()`, no fragmentation, hop limit 0, the checksum filled in,
/// then the data.
pub fn build_ipv4_packet(protocol: u8, src: [u8; 4], dst: [u8; 4], data: &[u8]) -> (p: Vec<u8>)
    requires
        data@.len() + 20 <= 65535,
    ensures
        p@ == with_checksum(ipv4_header_spec(protocol, src, dst, data@.len())) + data@,
{
    let len = data.len();
    let total = len + IPV4_HEADER_LEN;
    let mut buffer: Vec<u8> = Vec::new();
    buffer.push(0x45);
    buffer.push(0);
    buffer.push((total / 256) as u8);
    buffer.push((total % 256) as u8);
    buffer.push(0);
    buffer.push(0);
    buffer.push(0);
    buffer.push(0);
    buffer.push(0);
    buffer.push(protocol);
    buffer.push(0);
    buffer.push(0);
    buffer.push(src[0]);
    buffer.push(src[1]);
    buffer.push(src[2]);
    buffer.push(src[3]);
    buffer.push(dst[0]);
    buffer.push(dst[1]);
    buffer.push(dst[2]);
    buffer.push(dst[3]);
    let ghost header = ipv4_header_spec(protocol, src, dst, len as nat);
    assert(buffer@ =~= header);
    let mut i: usize = 0;
    while i < len
        invariant
            i <= len,
            len == data@.len(),
            buffer@ =~= header + data@.subrange(0, i as int),
        decreases len - i,
    {
        buffer.push(data[i]);
        assert(data@.subrange(0, i as int + 1) =~= data@.subrange(0, i as int).push(data@[i as int]));
        i = i + 1;
    }
    assert(data@.subrange(0, len as int) =~= data@);
    assert(buffer@.subrange(0, 20) =~= header);
    assert(header.update(10, 0).update(11, 0) =~= header);
    fill_checksum(&mut buffer);
    let ghost c = ipv4_checksum_spec(header);
    assert(0 <= c <= 65535) by {
        lemma_word_sum_bounds(header, 10);
    }
    let ghost hi = buffer@[10];
    let ghost lo = buffer@[11];
    assert(hi == c / 256 && lo == c % 256) by (nonlinear_arith)
        requires
            hi * 256 + lo == c,
            0 <= hi <= 255,
            0 <= lo <= 255,
    ;
    assert(buffer@ =~= with_checksum(header) + data@);
    buffer
}

} // verus!
