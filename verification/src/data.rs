//! Actions, payload structures and error values of the eBPF syscall surface.
//!
//! The kernel reads every payload positionally, so each structure here comes
//! with an encoder whose contract pins down the exact byte image that the
//! kernel will see: all fields little endian, in declaration order, with the
//! alignment padding the kernel-side layout inserts.

use vstd::bytes::{spec_u32_to_le_bytes, spec_u64_to_le_bytes, u32_to_le_bytes, u64_to_le_bytes};
use vstd::prelude::*;

verus! {

/// Operation not permitted.
pub const EPERM: i32 = 1;

/// No such entry.
pub const ENOENT: i32 = 2;

/// Argument list (here: a map) too long / full.
pub const E2BIG: i32 = 7;

/// Out of memory.
pub const ENOMEM: i32 = 12;

/// Entry already exists.
pub const EEXIST: i32 = 17;

/// Invalid argument.
pub const EINVAL: i32 = 22;

/// An operating-system error code as the kernel reports it (a positive
/// `errno` value).
#[derive(Clone, Copy, Debug, PartialEq, Eq, Structural)]
pub struct RawOsError(pub i32);

impl RawOsError {
    /// Wraps a raw `errno` value.
    pub fn new(n: i32) -> (r: RawOsError)
        ensures
            r.0 == n,
    {
        RawOsError(n)
    }

    /// Reads the error code the last failed call left behind.
    ///
    /// Relies on `std::io::Error::last_os_error` for the thread's current
    /// `errno` value; nothing can be promised of which code that is.
    #[verifier::external_body]
    pub fn get_last() -> RawOsError {
        match std::io::Error::last_os_error().raw_os_error() {
            Some(n) => RawOsError(n),
            None => RawOsError(0),
        }
    }

    /// True exactly for the code the kernel uses for a missing entry.
    pub fn is_not_found(&self) -> (r: bool)
        ensures
            r == (self.0 == ENOENT),
    {
        self.0 == ENOENT
    }
}

/// Coarse classification of an operating-system error.
#[derive(Clone, Copy, Debug, PartialEq, Eq, Structural)]
pub enum EbpfError {
    Unknown,
    NotPermitted,
    InvalidArgument,
    OutOfMemory,
}

/// The classification applied by [`classify_os_error`].
pub open spec fn spec_classify(e: RawOsError) -> EbpfError {
    if e.0 == EPERM {
        EbpfError::NotPermitted
    } else if e.0 == EINVAL {
        EbpfError::InvalidArgument
    } else if e.0 == ENOMEM {
        EbpfError::OutOfMemory
    } else {
        EbpfError::Unknown
    }
}

/// Sorts an error code into the classified enumeration; codes without a
/// variant of their own come back as `Unknown`.
pub fn classify_os_error(e: RawOsError) -> (r: EbpfError)
    ensures
        r == spec_classify(e),
{
    if e.0 == EPERM {
        EbpfError::NotPermitted
    } else if e.0 == EINVAL {
        EbpfError::InvalidArgument
    } else if e.0 == ENOMEM {
        EbpfError::OutOfMemory
    } else {
        EbpfError::Unknown
    }
}

/// Actions of the `bpf` syscall.
#[derive(Clone, Copy, Debug, PartialEq, Eq, Structural)]
pub enum Action {
    MapCreate,
    MapLookupElem,
    MapUpdateElem,
    MapDeleteElem,
    MapGetNextKey,
    ProgLoad,
    ObjPin,
    ObjGet,
    ProgAttach,
    ProgDetach,
}

impl Action {
    /// The integer the kernel assigns to this action.
    pub fn code(&self) -> (r: u32)
        ensures
            r == (match *self {
                Action::MapCreate => 0u32,
                Action::MapLookupElem => 1u32,
                Action::MapUpdateElem => 2u32,
                Action::MapDeleteElem => 3u32,
                Action::MapGetNextKey => 4u32,
                Action::ProgLoad => 5u32,
                Action::ObjPin => 6u32,
                Action::ObjGet => 7u32,
                Action::ProgAttach => 8u32,
                Action::ProgDetach => 9u32,
            }),
    {
        match *self {
            Action::MapCreate => 0,
            Action::MapLookupElem => 1,
            Action::MapUpdateElem => 2,
            Action::MapDeleteElem => 3,
            Action::MapGetNextKey => 4,
            Action::ProgLoad => 5,
            Action::ObjPin => 6,
            Action::ObjGet => 7,
            Action::ProgAttach => 8,
            Action::ProgDetach => 9,
        }
    }

    /// The action word's little-endian bytes rendered as a binary table,
    /// four bytes per row.
    pub fn binary_table(&self) -> (r: String)
        ensures
            r@ == crate::diag::spec_binary_table(
                spec_u32_to_le_bytes(
                    (match *self {
                        Action::MapCreate => 0u32,
                        Action::MapLookupElem => 1u32,
                        Action::MapUpdateElem => 2u32,
                        Action::MapDeleteElem => 3u32,
                        Action::MapGetNextKey => 4u32,
                        Action::ProgLoad => 5u32,
                        Action::ObjPin => 6u32,
                        Action::ObjGet => 7u32,
                        Action::ProgAttach => 8u32,
                        Action::ProgDetach => 9u32,
                    }),
                ),
                4,
            ),
    {
        let bytes = u32_to_le_bytes(self.code());
        crate::diag::generate_binary_table(&bytes, 4)
    }
}

/// Kinds of kernel-resident maps.
#[derive(Clone, Copy, Debug, PartialEq, Eq, Structural)]
pub enum MapType {
    Unspec,
    Hash,
    Array,
    ProgArray,
    PerfEventArray,
    PerCpuHash,
    PerCpuArray,
    StackTrace,
    CgroupArray,
    LruHash,
    LruPerCpuHash,
    LpmTrie,
    ArrayOfMaps,
    HashOfMaps,
}

impl MapType {
    /// The integer the kernel assigns to this map kind.
    pub fn code(&self) -> (r: u32)
        ensures
            r == (match *self {
                MapType::Unspec => 0u32,
                MapType::Hash => 1u32,
                MapType::Array => 2u32,
                MapType::ProgArray => 3u32,
                MapType::PerfEventArray => 4u32,
                MapType::PerCpuHash => 5u32,
                MapType::PerCpuArray => 6u32,
                MapType::StackTrace => 7u32,
                MapType::CgroupArray => 8u32,
                MapType::LruHash => 9u32,
                MapType::LruPerCpuHash => 10u32,
                MapType::LpmTrie => 11u32,
                MapType::ArrayOfMaps => 12u32,
                MapType::HashOfMaps => 13u32,
            }),
    {
        match *self {
            MapType::Unspec => 0,
            MapType::Hash => 1,
            MapType::Array => 2,
            MapType::ProgArray => 3,
            MapType::PerfEventArray => 4,
            MapType::PerCpuHash => 5,
            MapType::PerCpuArray => 6,
            MapType::StackTrace => 7,
            MapType::CgroupArray => 8,
            MapType::LruHash => 9,
            MapType::LruPerCpuHash => 10,
            MapType::LpmTrie => 11,
            MapType::ArrayOfMaps => 12,
            MapType::HashOfMaps => 13,
        }
    }
}

/// Kinds of eBPF programs the verifier accepts.
#[derive(Clone, Copy, Debug, PartialEq, Eq, Structural)]
pub enum ProgramType {
    Unspec,
    SocketFilter,
    Kprobe,
    SchedCls,
    SchedAct,
    Tracepoint,
    Xdp,
    PerfEvent,
    CgroupSkb,
    CgroupSock,
    LwtIn,
    LwtOut,
    LwtXmit,
}

impl ProgramType {
    /// The integer the kernel assigns to this program kind.
    pub fn code(&self) -> (r: u32)
        ensures
            r == (match *self {
                ProgramType::Unspec => 0u32,
                ProgramType::SocketFilter => 1u32,
                ProgramType::Kprobe => 2u32,
                ProgramType::SchedCls => 3u32,
                ProgramType::SchedAct => 4u32,
                ProgramType::Tracepoint => 5u32,
                ProgramType::Xdp => 6u32,
                ProgramType::PerfEvent => 7u32,
                ProgramType::CgroupSkb => 8u32,
                ProgramType::CgroupSock => 9u32,
                ProgramType::LwtIn => 10u32,
                ProgramType::LwtOut => 11u32,
                ProgramType::LwtXmit => 12u32,
            }),
    {
        match *self {
            ProgramType::Unspec => 0,
            ProgramType::SocketFilter => 1,
            ProgramType::Kprobe => 2,
            ProgramType::SchedCls => 3,
            ProgramType::SchedAct => 4,
            ProgramType::Tracepoint => 5,
            ProgramType::Xdp => 6,
            ProgramType::PerfEvent => 7,
            ProgramType::CgroupSkb => 8,
            ProgramType::CgroupSock => 9,
            ProgramType::LwtIn => 10,
            ProgramType::LwtOut => 11,
            ProgramType::LwtXmit => 12,
        }
    }
}

/// Behaviour requested when writing to a map.
#[derive(Clone, Copy, Debug, PartialEq, Eq, Structural)]
pub enum WriteOption {
    /// Writes the value whether or not the key is present.
    CreateOrUpdate,
    /// Writes only if the key is absent.
    CreateEntry,
    /// Writes only if the key is present.
    UpdateEntry,
}

impl WriteOption {
    /// The flag word the kernel expects for this write behaviour.
    pub fn flag(&self) -> (r: u64)
        ensures
            r == (match *self {
                WriteOption::CreateOrUpdate => 0u64,
                WriteOption::CreateEntry => 1u64,
                WriteOption::UpdateEntry => 2u64,
            }),
    {
        match *self {
            WriteOption::CreateOrUpdate => 0,
            WriteOption::CreateEntry => 1,
            WriteOption::UpdateEntry => 2,
        }
    }
}

/// Verbosity of the verifier log captured while loading a program.
#[derive(Clone, Copy, Debug, PartialEq, Eq, Structural)]
pub enum EbpfProgLoadLogLevel {
    Off,
    Normal,
    Verbose,
    VeryVerbose,
}

impl EbpfProgLoadLogLevel {
    /// The log-level word handed to the kernel.
    pub fn code(&self) -> (r: u32)
        ensures
            r == (match *self {
                EbpfProgLoadLogLevel::Off => 0u32,
                EbpfProgLoadLogLevel::Normal => 1u32,
                EbpfProgLoadLogLevel::Verbose => 2u32,
                EbpfProgLoadLogLevel::VeryVerbose => 3u32,
            }),
    {
        match *self {
            EbpfProgLoadLogLevel::Off => 0,
            EbpfProgLoadLogLevel::Normal => 1,
            EbpfProgLoadLogLevel::Verbose => 2,
            EbpfProgLoadLogLevel::VeryVerbose => 3,
        }
    }
}

/// Marker for the closed set of payload structures the syscall accepts.
pub trait Attr: Sized {

}

/// The payload shapes of the syscall's closed set.
#[derive(Clone, Copy, Debug, PartialEq, Eq, Structural)]
pub enum PayloadKind {
    MapCreate,
    MapElem,
    ProgLoad,
    Obj,
    ProgDeAttach,
}

/// The payload shape each action takes.  The kernel interprets the bytes
/// positionally with no type checking, so pairing an action with any other
/// shape is undefined behaviour kernel-side, not a reported error; callers
/// building requests hold to this table.
pub fn payload_kind_of(action: Action) -> (r: PayloadKind)
    ensures
        r == (match action {
            Action::MapCreate => PayloadKind::MapCreate,
            Action::MapLookupElem => PayloadKind::MapElem,
            Action::MapUpdateElem => PayloadKind::MapElem,
            Action::MapDeleteElem => PayloadKind::MapElem,
            Action::MapGetNextKey => PayloadKind::MapElem,
            Action::ProgLoad => PayloadKind::ProgLoad,
            Action::ObjPin => PayloadKind::Obj,
            Action::ObjGet => PayloadKind::Obj,
            Action::ProgAttach => PayloadKind::ProgDeAttach,
            Action::ProgDetach => PayloadKind::ProgDeAttach,
        }),
{
    match action {
        Action::MapCreate => PayloadKind::MapCreate,
        Action::MapLookupElem => PayloadKind::MapElem,
        Action::MapUpdateElem => PayloadKind::MapElem,
        Action::MapDeleteElem => PayloadKind::MapElem,
        Action::MapGetNextKey => PayloadKind::MapElem,
        Action::ProgLoad => PayloadKind::ProgLoad,
        Action::ObjPin => PayloadKind::Obj,
        Action::ObjGet => PayloadKind::Obj,
        Action::ProgAttach => PayloadKind::ProgDeAttach,
        Action::ProgDetach => PayloadKind::ProgDeAttach,
    }
}

/// A sequence of `n` zero bytes, as the kernel-side padding holes contain.
pub open spec fn spec_zero_bytes(n: nat) -> Seq<u8> {
    Seq::new(n, |i: int| 0u8)
}

/// Builds the zero padding that sits in the alignment holes of a payload.
fn zero_pad(n: usize) -> (r: Vec<u8>)
    ensures
        r@ == spec_zero_bytes(n as nat),
{
    let mut v: Vec<u8> = Vec::new();
    let mut i: usize = 0;
    while i < n
        invariant
            i <= n,
            v@ =~= spec_zero_bytes(i as nat),
        decreases n - i,
    {
        v.push(0u8);
        i = i + 1;
        assert(v@ =~= spec_zero_bytes(i as nat));
    }
    v
}

/// Payload of a map-create action.
#[derive(Clone, Copy, Debug, PartialEq, Eq, Structural)]
pub struct MapCreateAttr {
    pub map_type: u32,
    pub key_size: u32,
    pub value_size: u32,
    pub max_entries: u32,
    pub map_flags: u32,
}

/// Byte image of a map-create payload: five little-endian words in
/// declaration order, 20 bytes in all.
pub open spec fn spec_map_create_attr_bytes(a: MapCreateAttr) -> Seq<u8> {
    spec_u32_to_le_bytes(a.map_type) + spec_u32_to_le_bytes(a.key_size) + spec_u32_to_le_bytes(
        a.value_size,
    ) + spec_u32_to_le_bytes(a.max_entries) + spec_u32_to_le_bytes(a.map_flags)
}

impl MapCreateAttr {
    /// Encodes the payload exactly as the kernel lays it out.
    pub fn into_byte_vec(self) -> (r: Vec<u8>)
        ensures
            r@ == spec_map_create_attr_bytes(self),
            r@.len() == 20,
    {
        let mut v = u32_to_le_bytes(self.map_type);
        let mut b = u32_to_le_bytes(self.key_size);
        v.append(&mut b);
        let mut b = u32_to_le_bytes(self.value_size);
        v.append(&mut b);
        let mut b = u32_to_le_bytes(self.max_entries);
        v.append(&mut b);
        let mut b = u32_to_le_bytes(self.map_flags);
        v.append(&mut b);
        v
    }

    /// The payload bytes rendered as a binary table, four bytes per row.
    pub fn binary_table(&self) -> (r: String)
        ensures
            r@ == crate::diag::spec_binary_table(spec_map_create_attr_bytes(*self), 4),
    {
        let bytes = self.into_byte_vec();
        crate::diag::generate_binary_table(&bytes, 4)
    }
}

impl Attr for MapCreateAttr {

}

/// Payload of the per-element map actions.  `key` and `value_or_next_key`
/// carry userspace addresses the kernel reads from or writes to.
#[derive(Clone, Copy, Debug, PartialEq, Eq, Structural)]
pub struct MapElemAttr {
    pub map_fd: u32,
    pub key: u64,
    pub value_or_next_key: u64,
    pub flags: u64,
}

/// Byte image of a per-element payload: the descriptor word, four bytes of
/// alignment padding, then three little-endian 64-bit words; 32 bytes.
pub open spec fn spec_map_elem_attr_bytes(a: MapElemAttr) -> Seq<u8> {
    spec_u32_to_le_bytes(a.map_fd) + spec_zero_bytes(4) + spec_u64_to_le_bytes(a.key)
        + spec_u64_to_le_bytes(a.value_or_next_key) + spec_u64_to_le_bytes(a.flags)
}

impl MapElemAttr {
    /// Encodes the payload exactly as the kernel lays it out.
    pub fn into_byte_vec(self) -> (r: Vec<u8>)
        ensures
            r@ == spec_map_elem_attr_bytes(self),
            r@.len() == 32,
    {
        let mut v = u32_to_le_bytes(self.map_fd);
        let mut b = zero_pad(4);
        v.append(&mut b);
        let mut b = u64_to_le_bytes(self.key);
        v.append(&mut b);
        let mut b = u64_to_le_bytes(self.value_or_next_key);
        v.append(&mut b);
        let mut b = u64_to_le_bytes(self.flags);
        v.append(&mut b);
        v
    }
}

impl Attr for MapElemAttr {

}

/// Payload of a program-load action.  The pointer fields carry the userspace
/// addresses of the instruction words, the license bytes and the log buffer.
#[derive(Clone, Copy, Debug, PartialEq, Eq, Structural)]
pub struct ProgLoadAttr {
    pub prog_type: u32,
    pub insn_cnt: u32,
    pub insns: u64,
    pub license: u64,
    pub log_level: u32,
    pub log_size: u32,
    pub log_buf: u64,
    pub kern_version: u32,
}

/// Byte image of a program-load payload: fields little endian in declaration
/// order, closed by four bytes of tail padding; 48 bytes.
pub open spec fn spec_prog_load_attr_bytes(a: ProgLoadAttr) -> Seq<u8> {
    spec_u32_to_le_bytes(a.prog_type) + spec_u32_to_le_bytes(a.insn_cnt) + spec_u64_to_le_bytes(
        a.insns,
    ) + spec_u64_to_le_bytes(a.license) + spec_u32_to_le_bytes(a.log_level) + spec_u32_to_le_bytes(
        a.log_size,
    ) + spec_u64_to_le_bytes(a.log_buf) + spec_u32_to_le_bytes(a.kern_version) + spec_zero_bytes(4)
}

impl ProgLoadAttr {
    /// Encodes the payload exactly as the kernel lays it out.
    pub fn into_byte_vec(self) -> (r: Vec<u8>)
        ensures
            r@ == spec_prog_load_attr_bytes(self),
            r@.len() == 48,
    {
        let mut v = u32_to_le_bytes(self.prog_type);
        let mut b = u32_to_le_bytes(self.insn_cnt);
        v.append(&mut b);
        let mut b = u64_to_le_bytes(self.insns);
        v.append(&mut b);
        let mut b = u64_to_le_bytes(self.license);
        v.append(&mut b);
        let mut b = u32_to_le_bytes(self.log_level);
        v.append(&mut b);
        let mut b = u32_to_le_bytes(self.log_size);
        v.append(&mut b);
        let mut b = u64_to_le_bytes(self.log_buf);
        v.append(&mut b);
        let mut b = u32_to_le_bytes(self.kern_version);
        v.append(&mut b);
        let mut b = zero_pad(4);
        v.append(&mut b);
        v
    }
}

impl Attr for ProgLoadAttr {

}

/// Payload of the object pin and get actions.
#[derive(Clone, Copy, Debug, PartialEq, Eq, Structural)]
pub struct ObjAttr {
    pub pathname: u64,
    pub bpf_fd: u32,
}

/// Byte image of an object payload: the path address, the descriptor word and
/// four bytes of tail padding; 16 bytes.
pub open spec fn spec_obj_attr_bytes(a: ObjAttr) -> Seq<u8> {
    spec_u64_to_le_bytes(a.pathname) + spec_u32_to_le_bytes(a.bpf_fd) + spec_zero_bytes(4)
}

impl ObjAttr {
    /// Encodes the payload exactly as the kernel lays it out.
    pub fn into_byte_vec(self) -> (r: Vec<u8>)
        ensures
            r@ == spec_obj_attr_bytes(self),
            r@.len() == 16,
    {
        let mut v = u64_to_le_bytes(self.pathname);
        let mut b = u32_to_le_bytes(self.bpf_fd);
        v.append(&mut b);
        let mut b = zero_pad(4);
        v.append(&mut b);
        v
    }
}

/// Payload of the program attach and detach actions.
#[derive(Clone, Copy, Debug, PartialEq, Eq, Structural)]
pub struct ProgDeAttachAttr {
    pub target_fd: u32,
    pub attach_bpf_fd: u32,
    pub attach_type: u32,
    pub attach_flags: u32,
}

/// Byte image of an attach/detach payload: four little-endian words; 16
/// bytes.
pub open spec fn spec_prog_de_attach_attr_bytes(a: ProgDeAttachAttr) -> Seq<u8> {
    spec_u32_to_le_bytes(a.target_fd) + spec_u32_to_le_bytes(a.attach_bpf_fd) + spec_u32_to_le_bytes(
        a.attach_type,
    ) + spec_u32_to_le_bytes(a.attach_flags)
}

impl ProgDeAttachAttr {
    /// Encodes the payload exactly as the kernel lays it out.
    pub fn into_byte_vec(self) -> (r: Vec<u8>)
        ensures
            r@ == spec_prog_de_attach_attr_bytes(self),
            r@.len() == 16,
    {
        let mut v = u32_to_le_bytes(self.target_fd);
        let mut b = u32_to_le_bytes(self.attach_bpf_fd);
        v.append(&mut b);
        let mut b = u32_to_le_bytes(self.attach_type);
        v.append(&mut b);
        let mut b = u32_to_le_bytes(self.attach_flags);
        v.append(&mut b);
        v
    }
}

/// Holds the file descriptor of an eBPF map.
#[derive(Clone, Copy, Debug, PartialEq, Eq, Structural)]
pub struct MapFd(pub i32);

impl MapFd {
    /// Wraps a raw descriptor; the caller vouches that it names an eBPF map.
    pub fn new(fd: i32) -> (r: MapFd)
        ensures
            r.0 == fd,
    {
        MapFd(fd)
    }

    /// The raw descriptor value.
    pub fn get_fd(&self) -> (r: i32)
        ensures
            r == self.0,
    {
        self.0
    }
}

/// Holds the file descriptor of a loaded eBPF program.
#[derive(Clone, Copy, Debug, PartialEq, Eq, Structural)]
pub struct ProgramFd(pub i32);

impl ProgramFd {
    /// Wraps a raw descriptor; the caller vouches that it names a loaded
    /// program.
    pub fn new(fd: i32) -> (r: ProgramFd)
        ensures
            r.0 == fd,
    {
        ProgramFd(fd)
    }

    /// The raw descriptor value.
    pub fn get_fd(&self) -> (r: i32)
        ensures
            r == self.0,
    {
        self.0
    }
}

} // verus!
