//! Socket-facing data: packet-socket constants, socket-type bit patterns,
//! the link-layer bind address and the receive-ring request.
//!
//! Multi-byte fields that cross into a kernel structure describing a wire
//! protocol travel in network byte order; the conversion is pinned down here
//! so no caller gets it silently wrong.

use vstd::prelude::*;

verus! {

/// The packet address/protocol family.
pub const AF_PACKET: i32 = 17;

/// The "every protocol" ethernet protocol number, in host order.
pub const ETH_P_ALL: u16 = 3;

/// Socket-type flag requesting nonblocking reads, as the kernel encodes it.
pub const SOCK_NONBLOCK_BIT: u32 = 0o4000;

/// Socket-type flag requesting close-on-exec, as the kernel encodes it.
pub const SOCK_CLOEXEC_BIT: u32 = 0o2000000;

/// A six-octet link-layer address.
#[derive(Clone, Copy, Debug, PartialEq, Eq)]
pub struct MacAddress(pub [u8; 6]);

/// The uppercase hexadecimal digit for a value below sixteen.
pub open spec fn spec_hex_char(n: int) -> char {
    if n == 0 {
        '0'
    } else if n == 1 {
        '1'
    } else if n == 2 {
        '2'
    } else if n == 3 {
        '3'
    } else if n == 4 {
        '4'
    } else if n == 5 {
        '5'
    } else if n == 6 {
        '6'
    } else if n == 7 {
        '7'
    } else if n == 8 {
        '8'
    } else if n == 9 {
        '9'
    } else if n == 10 {
        'A'
    } else if n == 11 {
        'B'
    } else if n == 12 {
        'C'
    } else if n == 13 {
        'D'
    } else if n == 14 {
        'E'
    } else {
        'F'
    }
}

/// An octet in unpadded uppercase hexadecimal: one digit below sixteen, two
/// digits otherwise.
pub open spec fn spec_hex_octet(b: u8) -> Seq<char> {
    if b < 16 {
        seq![spec_hex_char(b as int)]
    } else {
        seq![spec_hex_char(b as int / 16), spec_hex_char(b as int % 16)]
    }
}

/// Appends one hexadecimal digit.
fn push_hex_digit(s: &mut String, n: u8)
    requires
        n < 16,
    ensures
        final(s)@ == old(s)@.push(spec_hex_char(n as int)),
{
    proof {
        reveal_strlit("0");
        reveal_strlit("1");
        reveal_strlit("2");
        reveal_strlit("3");
        reveal_strlit("4");
        reveal_strlit("5");
        reveal_strlit("6");
        reveal_strlit("7");
        reveal_strlit("8");
        reveal_strlit("9");
        reveal_strlit("A");
        reveal_strlit("B");
        reveal_strlit("C");
        reveal_strlit("D");
        reveal_strlit("E");
        reveal_strlit("F");
    }
    match n {
        0 => s.append("0"),
        1 => s.append("1"),
        2 => s.append("2"),
        3 => s.append("3"),
        4 => s.append("4"),
        5 => s.append("5"),
        6 => s.append("6"),
        7 => s.append("7"),
        8 => s.append("8"),
        9 => s.append("9"),
        10 => s.append("A"),
        11 => s.append("B"),
        12 => s.append("C"),
        13 => s.append("D"),
        14 => s.append("E"),
        _ => s.append("F"),
    }
    proof {
        assert(s@ =~= old(s)@.push(spec_hex_char(n as int)));
    }
}

/// Appends an octet in unpadded uppercase hexadecimal.
fn push_hex_octet(s: &mut String, b: u8)
    ensures
        final(s)@ == old(s)@ + spec_hex_octet(b),
{
    if b < 16 {
        push_hex_digit(s, b);
    } else {
        push_hex_digit(s, b / 16);
        push_hex_digit(s, b % 16);
    }
    proof {
        assert(s@ =~= old(s)@ + spec_hex_octet(b));
    }
}

impl MacAddress {
    /// Renders the address as six colon-separated uppercase hexadecimal
    /// octets, without zero padding.
    pub fn to_hex_string(&self) -> (r: String)
        ensures
            r@ == spec_hex_octet(self.0@[0]) + seq![':'] + spec_hex_octet(self.0@[1]) + seq![':']
                + spec_hex_octet(self.0@[2]) + seq![':'] + spec_hex_octet(self.0@[3]) + seq![':']
                + spec_hex_octet(self.0@[4]) + seq![':'] + spec_hex_octet(self.0@[5]),
    {
        proof {
            reveal_strlit(":");
        }
        let mut s = String::new();
        push_hex_octet(&mut s, self.0[0]);
        s.append(":");
        push_hex_octet(&mut s, self.0[1]);
        s.append(":");
        push_hex_octet(&mut s, self.0[2]);
        s.append(":");
        push_hex_octet(&mut s, self.0[3]);
        s.append(":");
        push_hex_octet(&mut s, self.0[4]);
        s.append(":");
        push_hex_octet(&mut s, self.0[5]);
        proof {
            assert(s@ =~= spec_hex_octet(self.0@[0]) + seq![':'] + spec_hex_octet(self.0@[1])
                + seq![':'] + spec_hex_octet(self.0@[2]) + seq![':'] + spec_hex_octet(self.0@[3])
                + seq![':'] + spec_hex_octet(self.0@[4]) + seq![':'] + spec_hex_octet(self.0@[5]));
        }
        s
    }
}

/// Swaps a 16-bit word between host order and network order.
pub fn htons(x: u16) -> (r: u16)
    ensures
        r == (x % 256) * 256 + x / 256,
{
    (x % 256) * 256 + x / 256
}

/// Kernel codes of the socket types.
#[allow(non_camel_case_types)]
#[derive(Clone, Copy, Debug, PartialEq, Eq, Structural)]
pub enum sock_type {
    SOCK_STREAM,
    SOCK_DGRAM,
    SOCK_RAW,
    SOCK_RDM,
    SOCK_SEQPACKET,
    SOCK_DCCP,
    SOCK_PACKET,
}

impl sock_type {
    /// The integer the kernel assigns to this socket type.
    pub fn code(&self) -> (r: u32)
        ensures
            r == (match *self {
                sock_type::SOCK_STREAM => 1u32,
                sock_type::SOCK_DGRAM => 2u32,
                sock_type::SOCK_RAW => 3u32,
                sock_type::SOCK_RDM => 4u32,
                sock_type::SOCK_SEQPACKET => 5u32,
                sock_type::SOCK_DCCP => 6u32,
                sock_type::SOCK_PACKET => 10u32,
            }),
    {
        match *self {
            sock_type::SOCK_STREAM => 1,
            sock_type::SOCK_DGRAM => 2,
            sock_type::SOCK_RAW => 3,
            sock_type::SOCK_RDM => 4,
            sock_type::SOCK_SEQPACKET => 5,
            sock_type::SOCK_DCCP => 6,
            sock_type::SOCK_PACKET => 10,
        }
    }
}

/// The socket types, under friendlier names.
#[derive(Clone, Copy, Debug, PartialEq, Eq, Structural)]
pub enum SockType {
    /// Stream (connection) socket.
    Stream,
    /// Datagram (connectionless) socket.
    Datagram,
    /// Raw socket.
    Raw,
    /// Reliably delivered message.
    Rdm,
    /// Sequential packet socket.
    SequentialPacket,
    /// Datagram congestion control protocol socket.
    Dccp,
    /// Device-level packet socket.
    Packet,
}

impl SockType {
    /// The integer the kernel assigns to this socket type.
    pub fn code(&self) -> (r: u32)
        ensures
            r == (match *self {
                SockType::Stream => 1u32,
                SockType::Datagram => 2u32,
                SockType::Raw => 3u32,
                SockType::Rdm => 4u32,
                SockType::SequentialPacket => 5u32,
                SockType::Dccp => 6u32,
                SockType::Packet => 10u32,
            }),
    {
        match *self {
            SockType::Stream => 1,
            SockType::Datagram => 2,
            SockType::Raw => 3,
            SockType::Rdm => 4,
            SockType::SequentialPacket => 5,
            SockType::Dccp => 6,
            SockType::Packet => 10,
        }
    }
}

/// What to ask of a new socket: its type and the two creation flags.
#[derive(Clone, Copy, Debug, PartialEq, Eq, Structural)]
pub struct SocketDescription {
    pub sock_type: SockType,
    pub nonblock: bool,
    pub close_on_exec: bool,
}

impl SocketDescription {
    /// The socket-type word handed to the create-socket call: the type code
    /// with the nonblocking and close-on-exec bits folded in.
    pub fn type_bits(&self) -> (r: u32)
        ensures
            r == (match self.sock_type {
                SockType::Stream => 1u32,
                SockType::Datagram => 2u32,
                SockType::Raw => 3u32,
                SockType::Rdm => 4u32,
                SockType::SequentialPacket => 5u32,
                SockType::Dccp => 6u32,
                SockType::Packet => 10u32,
            }) + (if self.nonblock {
                SOCK_NONBLOCK_BIT as int
            } else {
                0int
            }) + (if self.close_on_exec {
                SOCK_CLOEXEC_BIT as int
            } else {
                0int
            }),
    {
        let mut bits: u32 = self.sock_type.code();
        if self.nonblock {
            bits = bits + SOCK_NONBLOCK_BIT;
        }
        if self.close_on_exec {
            bits = bits + SOCK_CLOEXEC_BIT;
        }
        bits
    }
}

/// How a raw capture socket is opened: packet type, nonblocking,
/// close-on-exec.
pub fn raw_capture_description() -> (r: SocketDescription)
    ensures
        r == (SocketDescription { sock_type: SockType::Raw, nonblock: true, close_on_exec: true }),
{
    SocketDescription { sock_type: SockType::Raw, nonblock: true, close_on_exec: true }
}

/// The protocol argument of the create-socket call for a capture socket:
/// the every-protocol number, already swapped to network order.
pub fn capture_protocol_arg() -> (r: u32)
    ensures
        r == 768,
{
    htons(ETH_P_ALL) as u32
}

/// Packet types reported with captured frames.
#[derive(Clone, Copy, Debug, PartialEq, Eq, Structural)]
pub enum PacketType {
    PacketHost,
    PacketBroadcast,
    PacketMulticast,
    PacketOtherhost,
    PacketOutgoing,
    PacketLoopback,
    PacketUser,
    PacketKernel,
}

impl PacketType {
    /// The integer the kernel assigns to this packet type.
    pub fn code(&self) -> (r: u32)
        ensures
            r == (match *self {
                PacketType::PacketHost => 0u32,
                PacketType::PacketBroadcast => 1u32,
                PacketType::PacketMulticast => 2u32,
                PacketType::PacketOtherhost => 3u32,
                PacketType::PacketOutgoing => 4u32,
                PacketType::PacketLoopback => 5u32,
                PacketType::PacketUser => 6u32,
                PacketType::PacketKernel => 7u32,
            }),
    {
        match *self {
            PacketType::PacketHost => 0,
            PacketType::PacketBroadcast => 1,
            PacketType::PacketMulticast => 2,
            PacketType::PacketOtherhost => 3,
            PacketType::PacketOutgoing => 4,
            PacketType::PacketLoopback => 5,
            PacketType::PacketUser => 6,
            PacketType::PacketKernel => 7,
        }
    }
}

/// Options of the packet-socket option level.
#[derive(Clone, Copy, Debug, PartialEq, Eq, Structural)]
pub enum PacketOption {
    AddMembership,
    DropMembership,
    RecvOutput,
    RxRing,
    Statistics,
    CopyThresh,
    AuxData,
    OrigDev,
    Version,
    HdrLen,
    Reserve,
    TxRing,
    Loss,
    VnetHdr,
    TxTimestamp,
    Timestamp,
    Fanout,
    TxHasOff,
    QdiscBypass,
    RolloverStats,
    FanoutData,
}

impl PacketOption {
    /// The option code the kernel assigns; the value four is skipped, being
    /// held by an obsolete interface.
    pub fn code(&self) -> (r: u32)
        ensures
            r == (match *self {
                PacketOption::AddMembership => 1u32,
                PacketOption::DropMembership => 2u32,
                PacketOption::RecvOutput => 3u32,
                PacketOption::RxRing => 5u32,
                PacketOption::Statistics => 6u32,
                PacketOption::CopyThresh => 7u32,
                PacketOption::AuxData => 8u32,
                PacketOption::OrigDev => 9u32,
                PacketOption::Version => 10u32,
                PacketOption::HdrLen => 11u32,
                PacketOption::Reserve => 12u32,
                PacketOption::TxRing => 13u32,
                PacketOption::Loss => 14u32,
                PacketOption::VnetHdr => 15u32,
                PacketOption::TxTimestamp => 16u32,
                PacketOption::Timestamp => 17u32,
                PacketOption::Fanout => 18u32,
                PacketOption::TxHasOff => 19u32,
                PacketOption::QdiscBypass => 20u32,
                PacketOption::RolloverStats => 21u32,
                PacketOption::FanoutData => 22u32,
            }),
    {
        match *self {
            PacketOption::AddMembership => 1,
            PacketOption::DropMembership => 2,
            PacketOption::RecvOutput => 3,
            PacketOption::RxRing => 5,
            PacketOption::Statistics => 6,
            PacketOption::CopyThresh => 7,
            PacketOption::AuxData => 8,
            PacketOption::OrigDev => 9,
            PacketOption::Version => 10,
            PacketOption::HdrLen => 11,
            PacketOption::Reserve => 12,
            PacketOption::TxRing => 13,
            PacketOption::Loss => 14,
            PacketOption::VnetHdr => 15,
            PacketOption::TxTimestamp => 16,
            PacketOption::Timestamp => 17,
            PacketOption::Fanout => 18,
            PacketOption::TxHasOff => 19,
            PacketOption::QdiscBypass => 20,
            PacketOption::RolloverStats => 21,
            PacketOption::FanoutData => 22,
        }
    }
}

/// Load-balancing modes of a packet-socket fanout group.
#[derive(Clone, Copy, Debug, PartialEq, Eq, Structural)]
pub enum FanoutOption {
    Hash,
    LB,
    CPU,
    Rollover,
    RND,
    QM,
    Cbpf,
    Ebpf,
}

impl FanoutOption {
    /// The integer the kernel assigns to this fanout mode.
    pub fn code(&self) -> (r: u32)
        ensures
            r == (match *self {
                FanoutOption::Hash => 0u32,
                FanoutOption::LB => 1u32,
                FanoutOption::CPU => 2u32,
                FanoutOption::Rollover => 3u32,
                FanoutOption::RND => 4u32,
                FanoutOption::QM => 5u32,
                FanoutOption::Cbpf => 6u32,
                FanoutOption::Ebpf => 7u32,
            }),
    {
        match *self {
            FanoutOption::Hash => 0,
            FanoutOption::LB => 1,
            FanoutOption::CPU => 2,
            FanoutOption::Rollover => 3,
            FanoutOption::RND => 4,
            FanoutOption::QM => 5,
            FanoutOption::Cbpf => 6,
            FanoutOption::Ebpf => 7,
        }
    }
}

/// Membership kinds of a packet-socket multicast request.
#[derive(Clone, Copy, Debug, PartialEq, Eq, Structural)]
pub enum PacketMr {
    Multicast,
    Promisc,
    AllMulti,
    Unicast,
}

impl PacketMr {
    /// The integer the kernel assigns to this membership kind.
    pub fn code(&self) -> (r: u32)
        ensures
            r == (match *self {
                PacketMr::Multicast => 0u32,
                PacketMr::Promisc => 1u32,
                PacketMr::AllMulti => 2u32,
                PacketMr::Unicast => 3u32,
            }),
    {
        match *self {
            PacketMr::Multicast => 0,
            PacketMr::Promisc => 1,
            PacketMr::AllMulti => 2,
            PacketMr::Unicast => 3,
        }
    }
}

/// Versions of the packet-ring header format.
#[allow(non_camel_case_types)]
#[derive(Clone, Copy, Debug, PartialEq, Eq, Structural)]
pub enum tpacket_versions {
    TPACKET_V1,
    TPACKET_V2,
    TPACKET_V3,
}

impl tpacket_versions {
    /// The integer the kernel assigns to this ring version.
    pub fn code(&self) -> (r: u32)
        ensures
            r == (match *self {
                tpacket_versions::TPACKET_V1 => 0u32,
                tpacket_versions::TPACKET_V2 => 1u32,
                tpacket_versions::TPACKET_V3 => 2u32,
            }),
    {
        match *self {
            tpacket_versions::TPACKET_V1 => 0,
            tpacket_versions::TPACKET_V2 => 1,
            tpacket_versions::TPACKET_V3 => 2,
        }
    }
}

/// A network-interface index.
#[derive(Clone, Copy, Debug, PartialEq, Eq, Structural)]
pub struct Interface(pub u32);

impl Interface {
    /// Wraps an interface index.
    pub fn from_fd(fd: i32) -> (r: Interface)
        requires
            fd >= 0,
        ensures
            r.0 == fd,
    {
        Interface(fd as u32)
    }

    /// The raw index value.
    pub fn get_fd(&self) -> (r: i32)
        requires
            self.0 <= i32::MAX,
        ensures
            r == self.0,
    {
        self.0 as i32
    }
}

/// A socket descriptor.
#[derive(Clone, Copy, Debug, PartialEq, Eq, Structural)]
pub struct Socket(pub u32);

impl Socket {
    /// Wraps a socket descriptor.
    pub fn from_fd(fd: i32) -> (r: Socket)
        requires
            fd >= 0,
        ensures
            r.0 == fd,
    {
        Socket(fd as u32)
    }

    /// The raw descriptor value.
    pub fn get_fd(&self) -> (r: i32)
        requires
            self.0 <= i32::MAX,
        ensures
            r == self.0,
    {
        self.0 as i32
    }
}

/// The link-layer socket address, laid out as the kernel reads it.
#[derive(Clone, Copy, Debug, PartialEq, Eq)]
pub struct SockAddrLl {
    pub sll_family: u16,
    pub sll_protocol: u16,
    pub sll_ifindex: i32,
    pub sll_hatype: u16,
    pub sll_pkttype: u8,
    pub sll_halen: u8,
    pub sll_addr: [u8; 8],
}

/// Builds the address that binds a capture socket to one interface: packet
/// family, the every-protocol number already in network order, the
/// interface's index, everything else zero.
pub fn bind_address(interface_index: i32) -> (r: SockAddrLl)
    ensures
        r.sll_family == AF_PACKET,
        r.sll_protocol == 768,
        r.sll_ifindex == interface_index,
        r.sll_hatype == 0,
        r.sll_pkttype == 0,
        r.sll_halen == 0,
        r.sll_addr@ =~= Seq::new(8, |i: int| 0u8),
{
    SockAddrLl {
        sll_family: AF_PACKET as u16,
        sll_protocol: htons(ETH_P_ALL),
        sll_ifindex: interface_index,
        sll_hatype: 0,
        sll_pkttype: 0,
        sll_halen: 0,
        sll_addr: [0, 0, 0, 0, 0, 0, 0, 0],
    }
}

/// The receive-ring request, laid out as the kernel reads it.
#[derive(Clone, Copy, Debug, PartialEq, Eq, Structural)]
pub struct TPacketReq3 {
    pub tp_block_size: u32,
    pub tp_block_nr: u32,
    pub tp_frame_size: u32,
    pub tp_frame_nr: u32,
    pub tp_retire_blk_tov: u32,
    pub tp_sizeof_priv: u32,
    pub tp_feature_req_word: u32,
}

/// Builds the receive-ring request: one frame per block of the same size,
/// the retire timeout in milliseconds, no private area and no extra
/// features.
pub fn rx_ring_request(block_size: u32, block_number: u32, block_timeout: u32) -> (r: TPacketReq3)
    ensures
        r == (TPacketReq3 {
            tp_block_size: block_size,
            tp_block_nr: block_number,
            tp_frame_size: block_size,
            tp_frame_nr: block_number,
            tp_retire_blk_tov: block_timeout,
            tp_sizeof_priv: 0u32,
            tp_feature_req_word: 0u32,
        }),
{
    TPacketReq3 {
        tp_block_size: block_size,
        tp_block_nr: block_number,
        tp_frame_size: block_size,
        tp_frame_nr: block_number,
        tp_retire_blk_tov: block_timeout,
        tp_sizeof_priv: 0,
        tp_feature_req_word: 0,
    }
}

/// Is `n` a power of two?
pub open spec fn spec_is_power_of_two(n: int) -> bool
    decreases n,
{
    if n <= 0 {
        false
    } else if n == 1 {
        true
    } else {
        n % 2 == 0 && spec_is_power_of_two(n / 2)
    }
}

/// Checks the ring geometry the kernel enforces: the block size a positive
/// multiple of the page size, the block count a power of two.
pub fn ring_geometry_ok(block_size: u32, block_number: u32, page_size: u32) -> (r: bool)
    requires
        page_size > 0,
    ensures
        r == (block_size > 0 && block_size % page_size == 0 && spec_is_power_of_two(
            block_number as int,
        )),
{
    if block_size == 0 || block_size % page_size != 0 {
        return false;
    }
    let mut n: u32 = block_number;
    while n > 1 && n % 2 == 0
        invariant
            spec_is_power_of_two(block_number as int) == spec_is_power_of_two(n as int),
        decreases n,
    {
        n = n / 2;
    }
    n == 1
}

} // verus!
