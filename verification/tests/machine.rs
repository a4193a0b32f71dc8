use ctrace::distorm::{DInst, Operand, OperandType, RegisterType};
use ctrace::driver::{
    classify_wait, Directive, DriverState, ProtocolFault, SealOutcome, WaitEvent,
};
use ctrace::sys::{SIGSTOP, SIGTRAP, SIGUSR1};

const PID: i32 = 1234;

/// A stopped-status word carrying the given signal, as the kernel encodes it.
fn stopped_status(sig: i32) -> i32 {
    (sig << 8) | 0x7f
}

/// An instruction with one simple memory operand based on RBX.
fn load_through_rbx() -> DInst {
    let mut inst = DInst::default();
    inst.ops[0] = Operand { typ: OperandType::O_SMEM, index: RegisterType::R_RBX, size: 64 };
    inst
}

/// Runs the synchronising handshake: the child's first STOP, answered with a resume.
fn handshake(state: &mut DriverState) {
    let ev = classify_wait(PID, PID, stopped_status(SIGSTOP));
    assert_eq!(state.on_event(ev), Directive::Resume);
}

/// Plays one window: USR1, then one recorded step per (rip, rbx) pair, then STOP.
fn play_window(state: &mut DriverState, steps: &[(u64, u64)]) -> Directive {
    let ev = classify_wait(PID, PID, stopped_status(SIGUSR1));
    assert_eq!(state.on_event(ev), Directive::StepInto);
    let inst = load_through_rbx();
    for &(rip, rbx) in steps {
        let ev = classify_wait(PID, PID, stopped_status(SIGTRAP));
        assert_eq!(state.on_event(ev), Directive::CollectStep);
        let mut regs = ctrace::sys::UserRegs::new();
        regs.rip = rip;
        regs.rbx = rbx;
        state.record_step(&regs, &inst);
    }
    let ev = classify_wait(PID, PID, stopped_status(SIGSTOP));
    state.on_event(ev)
}

#[test]
fn equal_windows_report_match() {
    // Two windows with identical instruction pointers and identical memory
    // accesses, as a fixed-key fixed-block cipher run twice produces.
    let mut state = DriverState::new();
    handshake(&mut state);
    let trace = [(0x4000u64, 0x1000u64), (0x4003, 0x1008), (0x4007, 0x1010)];
    assert_eq!(play_window(&mut state, &trace), Directive::Sealed(SealOutcome::Baseline));
    assert_eq!(state.instruction_count, 0);
    assert_eq!(state.last_ip_list, Some(vec![0x4000, 0x4003, 0x4007]));
    assert_eq!(state.last_mem_access_list, Some(vec![0x1000, 0x1008, 0x1010]));
    assert_eq!(play_window(&mut state, &trace), Directive::Sealed(SealOutcome::Match));
    // The child then exits cleanly.
    let ev = classify_wait(PID, PID, 0);
    assert_eq!(state.on_event(ev), Directive::Finish);
}

#[test]
fn branching_comparator_reports_ip_leak() {
    // An early-exit comparator executes fewer instructions once a byte
    // differs: the instruction-pointer sequences diverge.
    let mut state = DriverState::new();
    handshake(&mut state);
    let equal_inputs = [(0x4000u64, 0x1000u64), (0x4003, 0x1001), (0x4006, 0x1002)];
    let early_exit = [(0x4000u64, 0x1000u64), (0x4003, 0x1001), (0x4010, 0x1002)];
    assert_eq!(play_window(&mut state, &equal_inputs), Directive::Sealed(SealOutcome::Baseline));
    assert_eq!(play_window(&mut state, &early_exit), Directive::Sealed(SealOutcome::IpLeak));
    // On a leak the window is not adopted: the baseline still holds the
    // first window's trace.
    assert_eq!(state.last_ip_list, Some(vec![0x4000, 0x4003, 0x4006]));
}

#[test]
fn key_dependent_addresses_report_mem_leak() {
    // A key-dependent swap touches different table slots under a different
    // key while executing the same instructions: only the memory-address
    // sequences diverge.
    let mut state = DriverState::new();
    handshake(&mut state);
    let key_one = [(0x4000u64, 0x2000u64), (0x4003, 0x2004)];
    let key_two = [(0x4000u64, 0x2000u64), (0x4003, 0x2090)];
    assert_eq!(play_window(&mut state, &key_one), Directive::Sealed(SealOutcome::Baseline));
    assert_eq!(play_window(&mut state, &key_two), Directive::Sealed(SealOutcome::MemLeak));
}

#[test]
fn unexpected_signal_is_protocol_fault() {
    // A SIGSEGV in the middle of a window breaks the protocol.
    let mut state = DriverState::new();
    handshake(&mut state);
    let ev = classify_wait(PID, PID, stopped_status(SIGUSR1));
    assert_eq!(state.on_event(ev), Directive::StepInto);
    let segv = classify_wait(PID, PID, stopped_status(11));
    assert_eq!(
        state.on_event(segv),
        Directive::Fault(ProtocolFault::UnexpectedSignal)
    );
}

#[test]
fn exit_during_window_finishes_without_comparing() {
    // The child calls _exit between USR1 and STOP: the driver finishes
    // cleanly and the half-recorded window is never compared.
    let mut state = DriverState::new();
    handshake(&mut state);
    let full = [(0x4000u64, 0x1000u64), (0x4003, 0x1008)];
    assert_eq!(play_window(&mut state, &full), Directive::Sealed(SealOutcome::Baseline));
    let ev = classify_wait(PID, PID, stopped_status(SIGUSR1));
    assert_eq!(state.on_event(ev), Directive::StepInto);
    let ev = classify_wait(PID, PID, stopped_status(SIGTRAP));
    assert_eq!(state.on_event(ev), Directive::CollectStep);
    let mut regs = ctrace::sys::UserRegs::new();
    regs.rip = 0x4000;
    state.record_step(&regs, &DInst::default());
    // waitpid now reports an exit (low seven bits clear).
    let ev = classify_wait(PID, PID, 0);
    assert_eq!(state.on_event(ev), Directive::Finish);
    // No leak was reported and the baseline still holds the full window.
    assert_eq!(state.last_ip_list, Some(vec![0x4000, 0x4003]));
}

#[test]
fn wrong_first_signal_is_protocol_fault() {
    let mut state = DriverState::new();
    let ev = classify_wait(PID, PID, stopped_status(SIGTRAP));
    assert_eq!(state.on_event(ev), Directive::Fault(ProtocolFault::WrongFirstStop));
}

#[test]
fn wrong_pid_is_protocol_fault() {
    let mut state = DriverState::new();
    let ev = classify_wait(PID + 1, PID, stopped_status(SIGSTOP));
    assert_eq!(ev, WaitEvent::WrongPid);
    assert_eq!(state.on_event(ev), Directive::Fault(ProtocolFault::WrongPid));
}

#[test]
fn stray_stop_between_windows_is_protocol_fault() {
    let mut state = DriverState::new();
    handshake(&mut state);
    let ev = classify_wait(PID, PID, stopped_status(SIGSTOP));
    assert_eq!(state.on_event(ev), Directive::Fault(ProtocolFault::UnexpectedSignal));
}

#[test]
fn neither_stop_nor_exit_is_protocol_fault() {
    // A status word that reports neither a stop nor an exit, e.g. a
    // termination by signal 9 (low bits 0x09).
    let mut state = DriverState::new();
    let ev = classify_wait(PID, PID, 0x09);
    assert_eq!(ev, WaitEvent::NoStopNoExit);
    assert_eq!(state.on_event(ev), Directive::Fault(ProtocolFault::NoStopNoExit));
}
