//! Numbers that the kernel interface fixes on x86-64 Linux: system calls, filter
//! instructions, address families and trace events.
//!
//! The numbers themselves are taken from `libc` and `nix`. Each group has a spec function
//! that writes the values out, and a function that fetches them.
use vstd::prelude::*;

verus! {

/// The system calls that the tracee is stopped at.
#[derive(Clone, Copy, Debug, PartialEq, Eq, Structural)]
pub struct SyscallNumbers {
    pub sendmsg: i64,
    pub recvmsg: i64,
    pub sendto: i64,
    pub recvfrom: i64,
    pub read: i64,
    pub write: i64,
    pub readv: i64,
    pub writev: i64,
    pub sendfile: i64,
    pub splice: i64,
    pub vmsplice: i64,
    pub tee: i64,
    pub copy_file_range: i64,
    pub bind: i64,
    pub connect: i64,
    pub close: i64,
}

/// The system call numbers of x86-64 Linux.
pub open spec fn syscall_table() -> SyscallNumbers {
    SyscallNumbers {
        sendmsg: 46,
        recvmsg: 47,
        sendto: 44,
        recvfrom: 45,
        read: 0,
        write: 1,
        readv: 19,
        writev: 20,
        sendfile: 40,
        splice: 275,
        vmsplice: 278,
        tee: 276,
        copy_file_range: 326,
        bind: 49,
        connect: 42,
        close: 3,
    }
}

/// Reads the `SYS_*` constants of `libc`. The contract claims that on x86-64 Linux (with
/// 64-bit pointers, the only target whose `user_regs_struct` the tracer understands) each
/// has the value that `syscall_table` gives.
#[verifier::external_body]
pub(crate) fn syscall_numbers() -> (numbers: SyscallNumbers)
    ensures
        numbers == syscall_table(),
{
    SyscallNumbers {
        sendmsg: libc::SYS_sendmsg, recvmsg: libc::SYS_recvmsg,
        sendto: libc::SYS_sendto, recvfrom: libc::SYS_recvfrom,
        read: libc::SYS_read, write: libc::SYS_write,
        readv: libc::SYS_readv, writev: libc::SYS_writev,
        sendfile: libc::SYS_sendfile, splice: libc::SYS_splice,
        vmsplice: libc::SYS_vmsplice, tee: libc::SYS_tee,
        copy_file_range: libc::SYS_copy_file_range,
        bind: libc::SYS_bind, connect: libc::SYS_connect, close: libc::SYS_close,
    }
}

/// The pieces that the operation codes of a classic BPF program are made of.
#[derive(Clone, Copy, Debug, PartialEq, Eq, Structural)]
pub struct BpfCodes {
    pub ld: u32,
    pub w: u32,
    pub abs: u32,
    pub jmp: u32,
    pub jeq: u32,
    pub k: u32,
    pub ret: u32,
}

/// The values of the BPF code pieces.
pub open spec fn bpf_table() -> BpfCodes {
    BpfCodes { ld: 0x00, w: 0x00, abs: 0x20, jmp: 0x05, jeq: 0x10, k: 0x00, ret: 0x06 }
}

/// Reads the `BPF_*` constants of `libc`. The contract claims that each has the value that
/// `bpf_table` gives.
#[verifier::external_body]
pub(crate) fn bpf_codes() -> (codes: BpfCodes)
    ensures
        codes == bpf_table(),
{
    BpfCodes {
        ld: libc::BPF_LD,
        w: libc::BPF_W,
        abs: libc::BPF_ABS,
        jmp: libc::BPF_JMP,
        jeq: libc::BPF_JEQ,
        k: libc::BPF_K,
        ret: libc::BPF_RET,
    }
}

/// What a seccomp filter answers to the kernel.
#[derive(Clone, Copy, Debug, PartialEq, Eq, Structural)]
pub struct SeccompActions {
    /// Stop the task and tell its tracer.
    pub trace: u32,
    /// Let the system call through.
    pub allow: u32,
}

/// The values of the seccomp answers.
pub open spec fn seccomp_table() -> SeccompActions {
    SeccompActions { trace: 0x7ff0_0000, allow: 0x7fff_0000 }
}

/// Reads `SECCOMP_RET_TRACE` and `SECCOMP_RET_ALLOW` of `libc`. The contract claims that
/// they have the values that `seccomp_table` gives.
#[verifier::external_body]
pub(crate) fn seccomp_actions() -> (actions: SeccompActions)
    ensures
        actions == seccomp_table(),
{
    SeccompActions { trace: libc::SECCOMP_RET_TRACE, allow: libc::SECCOMP_RET_ALLOW }
}

/// The address family of Unix-domain sockets.
pub open spec fn unix_family() -> i32 {
    1
}

/// Reads `AF_UNIX` of `libc`. The contract claims that it is `unix_family()`.
#[verifier::external_body]
pub(crate) fn af_unix() -> (family: i32)
    ensures
        family == unix_family(),
{
    libc::AF_UNIX
}

/// The trace events that the tracer acts on.
#[derive(Clone, Copy, Debug, PartialEq, Eq, Structural)]
pub struct EventCodes {
    pub fork: i32,
    pub vfork: i32,
    pub clone: i32,
    pub execve: i32,
    pub seccomp: i32,
}

/// The values of the trace events.
pub open spec fn event_table() -> EventCodes {
    EventCodes { fork: 1, vfork: 2, clone: 3, execve: 4, seccomp: 7 }
}

/// Reads the numbers of five variants of `nix::sys::ptrace::Event`. The contract claims that
/// they have the values that `event_table` gives.
#[verifier::external_body]
pub(crate) fn event_codes() -> (codes: EventCodes)
    ensures
        codes == event_table(),
{
    EventCodes {
        fork: nix::sys::ptrace::Event::PTRACE_EVENT_FORK as i32,
        vfork: nix::sys::ptrace::Event::PTRACE_EVENT_VFORK as i32,
        clone: nix::sys::ptrace::Event::PTRACE_EVENT_CLONE as i32,
        execve: nix::sys::ptrace::Event::PTRACE_EVENT_EXEC as i32,
        seccomp: nix::sys::ptrace::Event::PTRACE_EVENT_SECCOMP as i32,
    }
}

} // verus!
