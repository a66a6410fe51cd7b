//! Userspace support library for the Linux kernel's eBPF subsystem and its
//! packet-capture fast path.
//!
//! The crate holds the compute layers of that interface: the kernel-ABI
//! encoding of syscall payloads, the key/value map semantics (create, read,
//! write, delete, iterate), extraction of bytecode and license text from an
//! object file's section table, assembly of the program-load request together
//! with verifier-log capture, and the block-ownership protocol of the
//! TPACKET_V3 shared-memory ring.  Everything here is plain data in, plain
//! data out; the raw syscalls that carry these bytes into the kernel live in
//! the surrounding application.

pub mod data;
pub mod diag;
pub mod elf;
pub mod map;
pub mod net;
pub mod program;
pub mod release;
pub mod ring;
