//! Typed view of the operating-system surface the driver relies on: the
//! process-tracing request alphabet, the signal numbers the protocol uses,
//! `waitpid` status-word decoding, and the architectural register snapshot
//! retrieved after every single step.
//!
//! Nothing in this module performs a system call.  The surrounding binary
//! owns the raw calls; it passes the status words and register blocks it
//! obtained from the kernel into the functions here as plain values.
use vstd::prelude::*;

verus! {

/// Process-tracing requests understood by the kernel.  The numeric code of
/// each request is given by [`PTraceRequest::code`].
#[derive(Clone, Copy, PartialEq, Eq, Debug)]
pub enum PTraceRequest {
    PTRACE_TRACEME,
    PTRACE_PEEKTEXT,
    PTRACE_PEEKDATA,
    PTRACE_PEEKUSER,
    PTRACE_POKETEXT,
    PTRACE_POKEDATA,
    PTRACE_POKEUSER,
    PTRACE_CONT,
    PTRACE_KILL,
    PTRACE_SINGLESTEP,
    PTRACE_GETREGS,
    PTRACE_SETREGS,
    PTRACE_GETFPREGS,
    PTRACE_SETFPREGS,
    PTRACE_ATTACH,
    PTRACE_DETACH,
    PTRACE_GETFPXREGS,
    PTRACE_SETFPXREGS,
    PTRACE_SYSCALL,
    PTRACE_SETOPTIONS,
    PTRACE_GETEVENTMSG,
    PTRACE_GETSIGINFO,
    PTRACE_SETSIGINFO,
    PTRACE_GETREGSET,
    PTRACE_SETREGSET,
    PTRACE_SEIZE,
    PTRACE_INTERRUPT,
    PTRACE_LISTEN,
    PTRACE_PEEKSIGINFO,
}

/// The numeric request code the kernel expects for each tracing request.
pub open spec fn request_code(r: PTraceRequest) -> u32 {
    match r {
        PTraceRequest::PTRACE_TRACEME => 0,
        PTraceRequest::PTRACE_PEEKTEXT => 1,
        PTraceRequest::PTRACE_PEEKDATA => 2,
        PTraceRequest::PTRACE_PEEKUSER => 3,
        PTraceRequest::PTRACE_POKETEXT => 4,
        PTraceRequest::PTRACE_POKEDATA => 5,
        PTraceRequest::PTRACE_POKEUSER => 6,
        PTraceRequest::PTRACE_CONT => 7,
        PTraceRequest::PTRACE_KILL => 8,
        PTraceRequest::PTRACE_SINGLESTEP => 9,
        PTraceRequest::PTRACE_GETREGS => 12,
        PTraceRequest::PTRACE_SETREGS => 13,
        PTraceRequest::PTRACE_GETFPREGS => 14,
        PTraceRequest::PTRACE_SETFPREGS => 15,
        PTraceRequest::PTRACE_ATTACH => 16,
        PTraceRequest::PTRACE_DETACH => 17,
        PTraceRequest::PTRACE_GETFPXREGS => 18,
        PTraceRequest::PTRACE_SETFPXREGS => 19,
        PTraceRequest::PTRACE_SYSCALL => 24,
        PTraceRequest::PTRACE_SETOPTIONS => 0x4200,
        PTraceRequest::PTRACE_GETEVENTMSG => 0x4201,
        PTraceRequest::PTRACE_GETSIGINFO => 0x4202,
        PTraceRequest::PTRACE_SETSIGINFO => 0x4203,
        PTraceRequest::PTRACE_GETREGSET => 0x4204,
        PTraceRequest::PTRACE_SETREGSET => 0x4205,
        PTraceRequest::PTRACE_SEIZE => 0x4206,
        PTraceRequest::PTRACE_INTERRUPT => 0x4207,
        PTraceRequest::PTRACE_LISTEN => 0x4208,
        PTraceRequest::PTRACE_PEEKSIGINFO => 0x4209,
    }
}

impl PTraceRequest {
    /// The numeric request code to hand to the raw `ptrace` call.
    pub fn code(self) -> (v: u32)
        ensures
            v == request_code(self),
    {
        match self {
            PTraceRequest::PTRACE_TRACEME => 0,
            PTraceRequest::PTRACE_PEEKTEXT => 1,
            PTraceRequest::PTRACE_PEEKDATA => 2,
            PTraceRequest::PTRACE_PEEKUSER => 3,
            PTraceRequest::PTRACE_POKETEXT => 4,
            PTraceRequest::PTRACE_POKEDATA => 5,
            PTraceRequest::PTRACE_POKEUSER => 6,
            PTraceRequest::PTRACE_CONT => 7,
            PTraceRequest::PTRACE_KILL => 8,
            PTraceRequest::PTRACE_SINGLESTEP => 9,
            PTraceRequest::PTRACE_GETREGS => 12,
            PTraceRequest::PTRACE_SETREGS => 13,
            PTraceRequest::PTRACE_GETFPREGS => 14,
            PTraceRequest::PTRACE_SETFPREGS => 15,
            PTraceRequest::PTRACE_ATTACH => 16,
            PTraceRequest::PTRACE_DETACH => 17,
            PTraceRequest::PTRACE_GETFPXREGS => 18,
            PTraceRequest::PTRACE_SETFPXREGS => 19,
            PTraceRequest::PTRACE_SYSCALL => 24,
            PTraceRequest::PTRACE_SETOPTIONS => 0x4200,
            PTraceRequest::PTRACE_GETEVENTMSG => 0x4201,
            PTraceRequest::PTRACE_GETSIGINFO => 0x4202,
            PTraceRequest::PTRACE_SETSIGINFO => 0x4203,
            PTraceRequest::PTRACE_GETREGSET => 0x4204,
            PTraceRequest::PTRACE_SETREGSET => 0x4205,
            PTraceRequest::PTRACE_SEIZE => 0x4206,
            PTraceRequest::PTRACE_INTERRUPT => 0x4207,
            PTraceRequest::PTRACE_LISTEN => 0x4208,
            PTraceRequest::PTRACE_PEEKSIGINFO => 0x4209,
        }
    }
}

/// Signal that a single step completed.
pub const SIGTRAP: i32 = 5;

/// Signal used to abort a leaking child.
pub const SIGKILL: i32 = 9;

/// Signal the child raises immediately before a measured window.
pub const SIGUSR1: i32 = 10;

/// Signal the kernel delivers when a child changes state.
pub const SIGCHLD: i32 = 17;

/// Signal the child raises to synchronise at start-up and to close a window.
pub const SIGSTOP: i32 = 19;

/// `waitpid` option asking for events from all children regardless of
/// thread group, so that stops raised by the tracee's kernel threads are
/// not missed.
pub const __WALL: i32 = 0x40000000;

/// A status word reports a stopped child when its low byte is 0x7f.
pub open spec fn spec_stopped(status: i32) -> bool {
    status & 0xff == 0x7f
}

/// A status word reports an exited child when its low seven bits are clear.
pub open spec fn spec_exited(status: i32) -> bool {
    status & 0x7f == 0
}

/// The signal that stopped the child: the byte above the low status byte.
pub open spec fn spec_stop_signal(status: i32) -> i32 {
    (status >> 8) & 0xff
}

/// Whether a `waitpid` status word reports a stopped child.
pub fn wifstopped(status: i32) -> (r: bool)
    ensures
        r == spec_stopped(status),
{
    (status & 0xff) == 0x7f
}

/// Whether a `waitpid` status word reports an exited child.
pub fn wifexited(status: i32) -> (r: bool)
    ensures
        r == spec_exited(status),
{
    (status & 0x7f) == 0
}

/// The stop signal carried by a `waitpid` status word.
pub fn wstopsig(status: i32) -> (sig: i32)
    ensures
        sig == spec_stop_signal(status),
{
    (status >> 8) & 0xff
}

/// The architectural general-purpose register file of the traced child, in
/// the fixed order the kernel uses when filling a register-retrieval
/// request.  A snapshot is meaningful only immediately after a single-step
/// stop.
#[derive(Clone, Copy, PartialEq, Eq, Debug)]
pub struct UserRegs {
    pub r15: u64,
    pub r14: u64,
    pub r13: u64,
    pub r12: u64,
    pub rbp: u64,
    pub rbx: u64,
    pub r11: u64,
    pub r10: u64,
    pub r9: u64,
    pub r8: u64,
    pub rax: u64,
    pub rcx: u64,
    pub rdx: u64,
    pub rsi: u64,
    pub rdi: u64,
    pub orig_rax: u64,
    pub rip: u64,
    pub cs: u64,
    pub eflags: u64,
    pub rsp: u64,
    pub ss: u64,
    pub fs_base: u64,
    pub gs_base: u64,
    pub ds: u64,
    pub es: u64,
    pub fs: u64,
    pub gs: u64,
}

/// A register snapshot with every field zero.
pub open spec fn zeroed_regs() -> UserRegs {
    UserRegs {
        r15: 0,
        r14: 0,
        r13: 0,
        r12: 0,
        rbp: 0,
        rbx: 0,
        r11: 0,
        r10: 0,
        r9: 0,
        r8: 0,
        rax: 0,
        rcx: 0,
        rdx: 0,
        rsi: 0,
        rdi: 0,
        orig_rax: 0,
        rip: 0,
        cs: 0,
        eflags: 0,
        rsp: 0,
        ss: 0,
        fs_base: 0,
        gs_base: 0,
        ds: 0,
        es: 0,
        fs: 0,
        gs: 0,
    }
}

impl UserRegs {
    /// An all-zero snapshot, used as the out-buffer a register-retrieval
    /// request fills.
    pub fn new() -> (r: UserRegs)
        ensures
            r == zeroed_regs(),
    {
        UserRegs {
            r15: 0,
            r14: 0,
            r13: 0,
            r12: 0,
            rbp: 0,
            rbx: 0,
            r11: 0,
            r10: 0,
            r9: 0,
            r8: 0,
            rax: 0,
            rcx: 0,
            rdx: 0,
            rsi: 0,
            rdi: 0,
            orig_rax: 0,
            rip: 0,
            cs: 0,
            eflags: 0,
            rsp: 0,
            ss: 0,
            fs_base: 0,
            gs_base: 0,
            ds: 0,
            es: 0,
            fs: 0,
            gs: 0,
        }
    }
}

} // verus!
