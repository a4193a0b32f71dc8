//! The signal-driven tracer state machine and the trace comparator.
//!
//! The parent process owns one [`DriverState`] for the lifetime of a traced
//! child.  Each `waitpid` result is classified into a [`WaitEvent`] and fed
//! to [`DriverState::on_event`], which returns the [`Directive`] the caller
//! must carry out: resume the child, request a single step, collect the
//! registers of a completed step, report a sealed window, finish, or abort
//! on a protocol fault.  The state machine never performs a system call
//! itself, so every decision it takes is verified here for every possible
//! event sequence.
use vstd::prelude::*;

use crate::distorm::DInst;
use crate::effaddr::{find_mem_access, mem_addresses, ops_resolvable};
use crate::sys::{
    spec_exited, spec_stop_signal, spec_stopped, wifexited, wifstopped, wstopsig, UserRegs,
    SIGSTOP, SIGTRAP, SIGUSR1,
};

verus! {

/// Where the driver stands in the tracing protocol: before the child's
/// synchronising first stop, between windows, or single-stepping inside a
/// window.
#[derive(Clone, Copy, PartialEq, Eq, Debug)]
pub enum Phase {
    Init,
    Idle,
    Tracing,
}

/// A `waitpid` result reduced to what the protocol distinguishes: the wrong
/// process reported, the child gone, the child stopped by a signal, or a
/// report that is neither a stop nor an exit.
#[derive(Clone, Copy, PartialEq, Eq, Debug)]
pub enum WaitEvent {
    WrongPid,
    Exited,
    Stopped(i32),
    NoStopNoExit,
}

/// How a window seals: adopted as the first baseline, equal to the previous
/// window, or diverging from it in the instruction-pointer channel or in
/// the memory-address channel.
#[derive(Clone, Copy, PartialEq, Eq, Debug)]
pub enum SealOutcome {
    Baseline,
    Match,
    IpLeak,
    MemLeak,
}

/// A violation of the tracing protocol.  Every one of these is fatal: the
/// determinism the driver checks for cannot be re-established once the
/// signal discipline is broken.
#[derive(Clone, Copy, PartialEq, Eq, Debug)]
pub enum ProtocolFault {
    WrongPid,
    NoStopNoExit,
    WrongFirstStop,
    UnexpectedSignal,
}

/// What the caller must do after an event: resume the child, request a
/// single step, read the registers of the step that just completed (and
/// then request the next step), act on a sealed window (kill the child on a
/// leak, resume it otherwise), report totals and finish, or abort on a
/// protocol fault.
#[derive(Clone, Copy, PartialEq, Eq, Debug)]
pub enum Directive {
    Resume,
    StepInto,
    CollectStep,
    Sealed(SealOutcome),
    Finish,
    Fault(ProtocolFault),
}

/// The driver's whole mutable state: the protocol phase, the trace being
/// recorded in the current window, and the sealed trace of the previous
/// window, if any, kept as the comparison baseline.
#[derive(Debug)]
pub struct DriverState {
    pub phase: Phase,
    pub instruction_count: usize,
    pub ip_list: Vec<u64>,
    pub mem_access_list: Vec<u64>,
    pub last_ip_list: Option<Vec<u64>>,
    pub last_mem_access_list: Option<Vec<u64>>,
}

/// The sequence a recorded trace holds, lifted out of its `Option`.
pub open spec fn opt_trace(o: Option<Vec<u64>>) -> Option<Seq<u64>> {
    match o {
        Some(v) => Some(v@),
        None => None,
    }
}

impl DriverState {
    /// Both baseline lists are present or absent together, and the step
    /// counter always equals the number of instruction pointers recorded in
    /// the current window.
    pub open spec fn wf(self) -> bool {
        &&& (self.last_ip_list is Some <==> self.last_mem_access_list is Some)
        &&& self.instruction_count == self.ip_list@.len()
    }

    /// Whether a previous window has been sealed and kept as baseline.
    pub open spec fn has_baseline(self) -> bool {
        self.last_ip_list is Some
    }

    /// The baseline instruction-pointer sequence (empty when none is kept).
    pub open spec fn baseline_ips(self) -> Seq<u64> {
        match self.last_ip_list {
            Some(v) => v@,
            None => Seq::empty(),
        }
    }

    /// The baseline memory-address sequence (empty when none is kept).
    pub open spec fn baseline_mems(self) -> Seq<u64> {
        match self.last_mem_access_list {
            Some(v) => v@,
            None => Seq::empty(),
        }
    }
}

/// How a window seals against the baseline: the first window becomes the
/// baseline; otherwise the instruction-pointer sequences are compared
/// first, then the memory-address sequences; the first inequality names the
/// leaking channel.
pub open spec fn seal_outcome(s: DriverState) -> SealOutcome {
    if !s.has_baseline() {
        SealOutcome::Baseline
    } else if s.baseline_ips() != s.ip_list@ {
        SealOutcome::IpLeak
    } else if s.baseline_mems() != s.mem_access_list@ {
        SealOutcome::MemLeak
    } else {
        SealOutcome::Match
    }
}

/// The two states record the same traces: same step count, same current
/// window, same baseline.
pub open spec fn same_records(a: DriverState, b: DriverState) -> bool {
    &&& a.instruction_count == b.instruction_count
    &&& a.ip_list@ == b.ip_list@
    &&& a.mem_access_list@ == b.mem_access_list@
    &&& opt_trace(a.last_ip_list) == opt_trace(b.last_ip_list)
    &&& opt_trace(a.last_mem_access_list) == opt_trace(b.last_mem_access_list)
}

/// The two states are indistinguishable to the protocol: same phase, same
/// records.
pub open spec fn same_state(a: DriverState, b: DriverState) -> bool {
    a.phase == b.phase && same_records(a, b)
}

/// `post` is `pre` with the current window sealed: the recorded trace has
/// become the baseline, the current window and step counter are empty, and
/// the driver is idle between windows.
pub open spec fn sealed_rel(pre: DriverState, post: DriverState) -> bool {
    &&& post.phase is Idle
    &&& post.instruction_count == 0
    &&& post.ip_list@ == Seq::<u64>::empty()
    &&& post.mem_access_list@ == Seq::<u64>::empty()
    &&& opt_trace(post.last_ip_list) == Some(pre.ip_list@)
    &&& opt_trace(post.last_mem_access_list) == Some(pre.mem_access_list@)
}

/// The transition relation of the tracer state machine: for a state `pre`
/// and an event `ev`, the state `post` the driver moves to and the
/// directive `d` it hands back.  A wrong pid, a report that is neither stop
/// nor exit, a wrong synchronising first signal, and any signal outside the
/// protocol alphabet are protocol faults; an exit finishes the session in
/// any phase without sealing a possibly half-recorded window.
pub open spec fn step_rel(pre: DriverState, ev: WaitEvent, post: DriverState, d: Directive) -> bool {
    match ev {
        WaitEvent::WrongPid => same_state(pre, post) && d == Directive::Fault(
            ProtocolFault::WrongPid,
        ),
        WaitEvent::Exited => same_state(pre, post) && d == Directive::Finish,
        WaitEvent::NoStopNoExit => same_state(pre, post) && d == Directive::Fault(
            ProtocolFault::NoStopNoExit,
        ),
        WaitEvent::Stopped(sig) => match pre.phase {
            Phase::Init => if sig == SIGSTOP {
                same_records(pre, post) && post.phase is Idle && d == Directive::Resume
            } else {
                same_state(pre, post) && d == Directive::Fault(ProtocolFault::WrongFirstStop)
            },
            Phase::Idle => if sig == SIGUSR1 {
                same_records(pre, post) && post.phase is Tracing && d == Directive::StepInto
            } else {
                same_state(pre, post) && d == Directive::Fault(ProtocolFault::UnexpectedSignal)
            },
            Phase::Tracing => if sig == SIGTRAP {
                same_state(pre, post) && d == Directive::CollectStep
            } else if sig == SIGSTOP {
                &&& d == Directive::Sealed(seal_outcome(pre))
                &&& if seal_outcome(pre) is IpLeak || seal_outcome(pre) is MemLeak {
                    same_state(pre, post)
                } else {
                    sealed_rel(pre, post)
                }
            } else {
                same_state(pre, post) && d == Directive::Fault(ProtocolFault::UnexpectedSignal)
            },
        },
    }
}

/// Element-wise equality of two recorded sequences.
pub fn traces_equal(a: &Vec<u64>, b: &Vec<u64>) -> (r: bool)
    ensures
        r <==> a@ == b@,
{
    if a.len() != b.len() {
        return false;
    }
    let mut k: usize = 0;
    while k < a.len()
        invariant
            k <= a.len(),
            a@.len() == b@.len(),
            forall|j: int| 0 <= j < k ==> a@[j] == b@[j],
        decreases a.len() - k,
    {
        if a[k] != b[k] {
            return false;
        }
        k = k + 1;
    }
    proof {
        assert(a@ =~= b@);
    }
    true
}

/// Classification a `waitpid` result receives before it is fed to the
/// state machine: the wrong pid dominates, then an exit, then a stop with
/// its signal, and last the report that is neither.
pub open spec fn classify_wait_spec(ret_pid: i32, expected_pid: i32, status: i32) -> WaitEvent {
    if ret_pid != expected_pid {
        WaitEvent::WrongPid
    } else if spec_exited(status) {
        WaitEvent::Exited
    } else if spec_stopped(status) {
        WaitEvent::Stopped(spec_stop_signal(status))
    } else {
        WaitEvent::NoStopNoExit
    }
}

/// Reduces a raw `waitpid` result to the event the state machine consumes.
pub fn classify_wait(ret_pid: i32, expected_pid: i32, status: i32) -> (e: WaitEvent)
    ensures
        e == classify_wait_spec(ret_pid, expected_pid, status),
{
    if ret_pid != expected_pid {
        WaitEvent::WrongPid
    } else if wifexited(status) {
        WaitEvent::Exited
    } else if wifstopped(status) {
        WaitEvent::Stopped(wstopsig(status))
    } else {
        WaitEvent::NoStopNoExit
    }
}

impl DriverState {
    /// A fresh driver, before the child's synchronising first stop.
    pub fn new() -> (s: DriverState)
        ensures
            s.wf(),
            s.phase is Init,
            s.instruction_count == 0,
            s.ip_list@ == Seq::<u64>::empty(),
            s.mem_access_list@ == Seq::<u64>::empty(),
            !s.has_baseline(),
    {
        DriverState {
            phase: Phase::Init,
            instruction_count: 0,
            ip_list: Vec::new(),
            mem_access_list: Vec::new(),
            last_ip_list: None,
            last_mem_access_list: None,
        }
    }

    /// Records one completed single step: appends the stopped instruction
    /// pointer to the window's instruction-pointer trace and the effective
    /// addresses of the instruction's memory operands, in operand order, to
    /// its memory trace, and counts the step.
    pub fn record_step(&mut self, regs: &UserRegs, inst: &DInst)
        requires
            old(self).wf(),
            old(self).phase is Tracing,
            ops_resolvable(*inst),
        ensures
            final(self).wf(),
            final(self).phase == old(self).phase,
            final(self).instruction_count == old(self).instruction_count + 1,
            final(self).ip_list@ == old(self).ip_list@.push(regs.rip),
            final(self).mem_access_list@ == old(self).mem_access_list@ + mem_addresses(
                *inst,
                *regs,
            ),
            opt_trace(final(self).last_ip_list) == opt_trace(old(self).last_ip_list),
            opt_trace(final(self).last_mem_access_list) == opt_trace(
                old(self).last_mem_access_list,
            ),
    {
        self.ip_list.push(regs.rip);
        find_mem_access(regs, inst, &mut self.mem_access_list);
        self.instruction_count = self.ip_list.len();
    }

    /// Seals the current window: compares it with the baseline
    /// (instruction pointers first, then memory addresses), and on a match
    /// or a first window adopts it as the new baseline and resets the
    /// window.  On a leak the state is left as it stands; the session is
    /// over.
    fn seal_window(&mut self) -> (o: SealOutcome)
        requires
            old(self).wf(),
        ensures
            final(self).wf(),
            o == seal_outcome(*old(self)),
            (o is IpLeak || o is MemLeak) ==> same_state(*old(self), *final(self)),
            (o is Baseline || o is Match) ==> sealed_rel(*old(self), *final(self)),
    {
        let outcome: SealOutcome = match (&self.last_ip_list, &self.last_mem_access_list) {
            (Some(prev_ips), Some(prev_mems)) => {
                if !traces_equal(prev_ips, &self.ip_list) {
                    SealOutcome::IpLeak
                } else if !traces_equal(prev_mems, &self.mem_access_list) {
                    SealOutcome::MemLeak
                } else {
                    SealOutcome::Match
                }
            },
            _ => SealOutcome::Baseline,
        };
        match outcome {
            SealOutcome::IpLeak | SealOutcome::MemLeak => outcome,
            _ => {
                let mut ips: Vec<u64> = Vec::new();
                let mut mems: Vec<u64> = Vec::new();
                core::mem::swap(&mut ips, &mut self.ip_list);
                core::mem::swap(&mut mems, &mut self.mem_access_list);
                self.last_ip_list = Some(ips);
                self.last_mem_access_list = Some(mems);
                self.instruction_count = 0;
                self.phase = Phase::Idle;
                outcome
            },
        }
    }

    /// Advances the state machine by one event and returns the directive
    /// the caller must carry out.  The full transition relation is
    /// [`step_rel`].
    pub fn on_event(&mut self, ev: WaitEvent) -> (d: Directive)
        requires
            old(self).wf(),
        ensures
            final(self).wf(),
            step_rel(*old(self), ev, *final(self), d),
    {
        match ev {
            WaitEvent::WrongPid => Directive::Fault(ProtocolFault::WrongPid),
            WaitEvent::Exited => Directive::Finish,
            WaitEvent::NoStopNoExit => Directive::Fault(ProtocolFault::NoStopNoExit),
            WaitEvent::Stopped(sig) => match self.phase {
                Phase::Init => if sig == SIGSTOP {
                    self.phase = Phase::Idle;
                    Directive::Resume
                } else {
                    Directive::Fault(ProtocolFault::WrongFirstStop)
                },
                Phase::Idle => if sig == SIGUSR1 {
                    self.phase = Phase::Tracing;
                    Directive::StepInto
                } else {
                    Directive::Fault(ProtocolFault::UnexpectedSignal)
                },
                Phase::Tracing => if sig == SIGTRAP {
                    Directive::CollectStep
                } else if sig == SIGSTOP {
                    let o = self.seal_window();
                    Directive::Sealed(o)
                } else {
                    Directive::Fault(ProtocolFault::UnexpectedSignal)
                },
            },
        }
    }
}

/// The state machine is a function of its inputs: a state and an event fix
/// the successor's phase and records and the directive handed back, so a
/// traced run is reproducible from its event sequence alone.
pub proof fn lemma_step_deterministic(
    pre: DriverState,
    ev: WaitEvent,
    post1: DriverState,
    d1: Directive,
    post2: DriverState,
    d2: Directive,
)
    requires
        step_rel(pre, ev, post1, d1),
        step_rel(pre, ev, post2, d2),
    ensures
        d1 == d2,
        same_state(post1, post2),
{
}

/// Determinism law: a window whose recorded instruction-pointer and
/// memory-address sequences both equal the baseline's seals as a match, so
/// a tracee whose measured section executes only value-independent code is
/// never reported as leaking.
pub proof fn lemma_equal_traces_match(s: DriverState)
    requires
        s.has_baseline(),
        s.baseline_ips() == s.ip_list@,
        s.baseline_mems() == s.mem_access_list@,
    ensures
        seal_outcome(s) is Match,
{
}

/// Leak-detection law: a window that differs from the baseline in either
/// sequence seals as a leak, and the reported channel names the divergence:
/// the instruction-pointer channel exactly when the instruction-pointer
/// sequences differ, the memory channel exactly when the instruction
/// pointers agree and the memory-address sequences differ.
pub proof fn lemma_divergence_detected(s: DriverState)
    requires
        s.has_baseline(),
        s.baseline_ips() != s.ip_list@ || s.baseline_mems() != s.mem_access_list@,
    ensures
        seal_outcome(s) is IpLeak || seal_outcome(s) is MemLeak,
        seal_outcome(s) is IpLeak <==> s.baseline_ips() != s.ip_list@,
        seal_outcome(s) is MemLeak <==> (s.baseline_ips() == s.ip_list@ && s.baseline_mems()
            != s.mem_access_list@),
{
}

} // verus!
