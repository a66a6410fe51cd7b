//! Assembly of the program-load request and of the loaded-program handle.
//!
//! Loading splits into three compute steps around the raw syscall: building
//! the load payload (instruction count, pointer words, log-buffer geometry
//! and the packed kernel version), reading the raw result, and trimming the
//! verifier log that the kernel wrote into the caller's buffer.  The log is
//! kept on failure too: it is usually the only readable explanation of a
//! rejection.

use crate::data::{EbpfProgLoadLogLevel, ProgLoadAttr, ProgramFd, ProgramType, RawOsError};
use crate::release::KernelRelease;
use vstd::prelude::*;

verus! {

/// Bytecode and license text extracted from an object file.  The
/// instruction stream is kept as 8-byte words, so its byte length is a
/// multiple of eight by construction.
#[derive(Debug, PartialEq, Eq)]
pub struct ProgramData {
    pub instructions: Vec<u64>,
    pub license: Vec<u8>,
}

/// Length of the verifier log once trailing zero bytes are dropped.
pub open spec fn spec_trimmed_len(s: Seq<u8>) -> int
    decreases s.len(),
{
    if s.len() > 0 && s.last() == 0 {
        spec_trimmed_len(s.drop_last())
    } else {
        s.len() as int
    }
}

/// The trimmed prefix keeps every nonzero byte: what is dropped is zero,
/// and the prefix does not end in zero.
pub proof fn lemma_trimmed_len(s: Seq<u8>)
    ensures
        0 <= spec_trimmed_len(s) <= s.len(),
        forall|j: int| spec_trimmed_len(s) <= j < s.len() ==> s[j] == 0,
        spec_trimmed_len(s) > 0 ==> s[spec_trimmed_len(s) - 1] != 0,
    decreases s.len(),
{
    if s.len() > 0 && s.last() == 0 {
        lemma_trimmed_len(s.drop_last());
        assert forall|j: int| spec_trimmed_len(s) <= j < s.len() implies s[j] == 0 by {
            if j < s.len() - 1 {
                assert(s.drop_last()[j] == s[j]);
            }
        }
        if spec_trimmed_len(s) > 0 {
            assert(s.drop_last()[spec_trimmed_len(s) - 1] == s[spec_trimmed_len(s) - 1]);
        }
    }
}

/// Drops the trailing zero padding the kernel leaves in the log buffer.
pub fn trim_trailing_nul(log: &Vec<u8>) -> (r: Vec<u8>)
    ensures
        r@ == log@.take(spec_trimmed_len(log@)),
        forall|j: int| r@.len() <= j < log@.len() ==> log@[j] == 0,
        r@.len() > 0 ==> r@.last() != 0,
{
    proof {
        lemma_trimmed_len(log@);
    }
    let mut end: usize = log.len();
    proof {
        assert(log@.take(end as int) =~= log@);
    }
    while end > 0 && log[end - 1] == 0
        invariant
            end <= log@.len(),
            spec_trimmed_len(log@) == spec_trimmed_len(log@.take(end as int)),
        decreases end,
    {
        proof {
            assert(log@.take(end as int).drop_last() =~= log@.take(end - 1));
            assert(log@.take(end as int).last() == log@[end - 1]);
        }
        end = end - 1;
    }
    proof {
        assert(log@.take(end as int).len() == end);
        if end > 0 {
            assert(log@.take(end as int).last() == log@[end - 1]);
        }
        assert(spec_trimmed_len(log@.take(end as int)) == end);
    }
    let mut out: Vec<u8> = Vec::new();
    let mut i: usize = 0;
    while i < end
        invariant
            end <= log@.len(),
            i <= end,
            out@ =~= log@.take(i as int),
        decreases end - i,
    {
        out.push(log[i]);
        i = i + 1;
        assert(out@ =~= log@.take(i as int));
    }
    proof {
        lemma_trimmed_len(log@);
    }
    out
}

/// Builds the program-load payload for a socket-filter program: the
/// instruction count, the caller's pointer words, the log geometry and the
/// kernel version packed as `major<<16 | minor<<8 | patch`.
pub fn build_load_request(
    prog_data: &ProgramData,
    log_level: EbpfProgLoadLogLevel,
    kernel_release: &KernelRelease,
    insns_ptr: u64,
    license_ptr: u64,
    log_buf_ptr: u64,
    log_size: u32,
) -> (r: ProgLoadAttr)
    requires
        prog_data.instructions@.len() <= u32::MAX,
    ensures
        r == (ProgLoadAttr {
            prog_type: 1u32,
            insn_cnt: prog_data.instructions@.len() as u32,
            insns: insns_ptr,
            license: license_ptr,
            log_level: (match log_level {
                EbpfProgLoadLogLevel::Off => 0u32,
                EbpfProgLoadLogLevel::Normal => 1u32,
                EbpfProgLoadLogLevel::Verbose => 2u32,
                EbpfProgLoadLogLevel::VeryVerbose => 3u32,
            }),
            log_size: log_size,
            log_buf: log_buf_ptr,
            kern_version: (kernel_release.major * 0x10000 + kernel_release.minor * 0x100
                + kernel_release.patch) as u32,
        }),
{
    ProgLoadAttr {
        prog_type: ProgramType::SocketFilter.code(),
        insn_cnt: prog_data.instructions.len() as u32,
        insns: insns_ptr,
        license: license_ptr,
        log_level: log_level.code(),
        log_size,
        log_buf: log_buf_ptr,
        kern_version: kernel_release.pack(),
    }
}

/// Reads the raw result of a program-load action as a typed program
/// descriptor.
pub fn interpret_load_result(ret: i64, err: RawOsError) -> (r: Result<ProgramFd, RawOsError>)
    requires
        ret == -1 || 0 < ret <= i32::MAX,
    ensures
        ret > 0 ==> r == Ok::<ProgramFd, RawOsError>(ProgramFd(ret as i32)),
        ret == -1 ==> r == Err::<ProgramFd, RawOsError>(err),
{
    if ret == -1 {
        Err(err)
    } else {
        Ok(ProgramFd::new(ret as i32))
    }
}

/// A loaded socket-filter program: the bytes it was built from, the load
/// parameters, the kernel's descriptor for it and the verifier's log text.
pub struct SocketFilter {
    pub instructions: Vec<u64>,
    pub license: Vec<u8>,
    pub log_level: EbpfProgLoadLogLevel,
    pub kernel_release: KernelRelease,
    pub fd: ProgramFd,
    pub log_output: Vec<u8>,
}

impl SocketFilter {
    /// The program kind this handle always carries.
    pub fn program_type() -> (r: ProgramType)
        ensures
            r == ProgramType::SocketFilter,
    {
        ProgramType::SocketFilter
    }

    /// The license bytes the program was loaded with.
    pub fn license(&self) -> (r: &Vec<u8>)
        ensures
            r@ == self.license@,
    {
        &self.license
    }

    /// The instruction words the program was loaded from.
    pub fn instructions(&self) -> (r: &Vec<u64>)
        ensures
            r@ == self.instructions@,
    {
        &self.instructions
    }

    /// The kernel's descriptor for the loaded program.  Attaching it to a
    /// socket does not transfer ownership: the descriptor must stay valid
    /// for the socket's lifetime.
    pub fn file_descriptor(&self) -> (r: ProgramFd)
        ensures
            r == self.fd,
    {
        self.fd
    }

    /// The verifier log captured while loading, trailing padding trimmed.
    pub fn log_output(&self) -> (r: &Vec<u8>)
        ensures
            r@ == self.log_output@,
    {
        &self.log_output
    }

    /// Finishes a load from the raw syscall result: a positive result
    /// becomes the loaded handle, minus one hands back the error code
    /// together with whatever log text the verifier produced before
    /// rejecting.  Other results break the syscall's stated protocol and
    /// are left out by precondition.
    pub fn complete_load(
        prog_data: ProgramData,
        log_level: EbpfProgLoadLogLevel,
        kernel_release: KernelRelease,
        ret: i64,
        err: RawOsError,
        log_buf: &Vec<u8>,
    ) -> (r: Result<SocketFilter, (RawOsError, Vec<u8>)>)
        requires
            ret == -1 || 0 < ret <= i32::MAX,
        ensures
            ret > 0 ==> (match r {
                Ok(sf) => {
                    &&& sf.fd == ProgramFd(ret as i32)
                    &&& sf.instructions@ == prog_data.instructions@
                    &&& sf.license@ == prog_data.license@
                    &&& sf.log_level == log_level
                    &&& sf.kernel_release == kernel_release
                    &&& sf.log_output@ == log_buf@.take(spec_trimmed_len(log_buf@))
                },
                Err(_) => false,
            }),
            ret == -1 ==> (match r {
                Ok(_) => false,
                Err(e) => e.0 == err && e.1@ == log_buf@.take(spec_trimmed_len(log_buf@)),
            }),
    {
        let log = trim_trailing_nul(log_buf);
        if ret == -1 {
            Err((err, log))
        } else {
            Ok(
                SocketFilter {
                    instructions: prog_data.instructions,
                    license: prog_data.license,
                    log_level,
                    kernel_release,
                    fd: ProgramFd::new(ret as i32),
                    log_output: log,
                },
            )
        }
    }
}

} // verus!
