//! Register projection and effective-address computation.
//!
//! Given the register snapshot taken after a single step and the decoded
//! instruction at the stopped program counter, this module computes the
//! ordered list of linear addresses the instruction's memory operands
//! resolve to.  All address arithmetic wraps modulo 2^64, as the CPU's
//! does.
use vstd::prelude::*;

use crate::distorm::{DInst, Operand, OperandType, RegisterType};
use crate::sys::UserRegs;

verus! {

/// Register identifiers the driver can project onto a snapshot: the 64-,
/// 32-, 16- and 8-bit views of the sixteen general-purpose registers, the
/// instruction pointer, and the `R_NONE` sentinel (which reads as zero).
/// Segment, x87, vector, control and debug registers have no value in a
/// general-purpose snapshot.
pub open spec fn addressable(r: RegisterType) -> bool {
    match r {
        RegisterType::R_RAX | RegisterType::R_RCX | RegisterType::R_RDX | RegisterType::R_RBX
        | RegisterType::R_RSP | RegisterType::R_RBP | RegisterType::R_RSI | RegisterType::R_RDI
        | RegisterType::R_R8 | RegisterType::R_R9 | RegisterType::R_R10 | RegisterType::R_R11
        | RegisterType::R_R12 | RegisterType::R_R13 | RegisterType::R_R14 | RegisterType::R_R15
        | RegisterType::R_EAX | RegisterType::R_ECX | RegisterType::R_EDX | RegisterType::R_EBX
        | RegisterType::R_ESP | RegisterType::R_EBP | RegisterType::R_ESI | RegisterType::R_EDI
        | RegisterType::R_R8D | RegisterType::R_R9D | RegisterType::R_R10D | RegisterType::R_R11D
        | RegisterType::R_R12D | RegisterType::R_R13D | RegisterType::R_R14D | RegisterType::R_R15D
        | RegisterType::R_AX | RegisterType::R_CX | RegisterType::R_DX | RegisterType::R_BX
        | RegisterType::R_SP | RegisterType::R_BP | RegisterType::R_SI | RegisterType::R_DI
        | RegisterType::R_R8W | RegisterType::R_R9W | RegisterType::R_R10W | RegisterType::R_R11W
        | RegisterType::R_R12W | RegisterType::R_R13W | RegisterType::R_R14W | RegisterType::R_R15W
        | RegisterType::R_AL | RegisterType::R_CL | RegisterType::R_DL | RegisterType::R_BL
        | RegisterType::R_AH | RegisterType::R_CH | RegisterType::R_DH | RegisterType::R_BH
        | RegisterType::R_R8B | RegisterType::R_R9B | RegisterType::R_R10B | RegisterType::R_R11B
        | RegisterType::R_R12B | RegisterType::R_R13B | RegisterType::R_R14B | RegisterType::R_R15B
        | RegisterType::R_SPL | RegisterType::R_BPL | RegisterType::R_SIL | RegisterType::R_DIL
        | RegisterType::R_RIP | RegisterType::R_NONE => true,
        _ => false,
    }
}

/// Projection of a register identifier onto a snapshot: the full 64-bit
/// register for the 64-bit names and the instruction pointer, the low 32,
/// 16 or 8 bits for the narrower views, bits 8..16 for the high-byte
/// names, and zero for `R_NONE`.  Identifiers outside [`addressable`]
/// project to zero here; the executable projection refuses them.
pub open spec fn reg_value(regs: UserRegs, r: RegisterType) -> u64 {
    match r {
        RegisterType::R_RAX => regs.rax,
        RegisterType::R_RCX => regs.rcx,
        RegisterType::R_RDX => regs.rdx,
        RegisterType::R_RBX => regs.rbx,
        RegisterType::R_RSP => regs.rsp,
        RegisterType::R_RBP => regs.rbp,
        RegisterType::R_RSI => regs.rsi,
        RegisterType::R_RDI => regs.rdi,
        RegisterType::R_R8 => regs.r8,
        RegisterType::R_R9 => regs.r9,
        RegisterType::R_R10 => regs.r10,
        RegisterType::R_R11 => regs.r11,
        RegisterType::R_R12 => regs.r12,
        RegisterType::R_R13 => regs.r13,
        RegisterType::R_R14 => regs.r14,
        RegisterType::R_R15 => regs.r15,
        RegisterType::R_EAX => regs.rax & 0xffffffff,
        RegisterType::R_ECX => regs.rcx & 0xffffffff,
        RegisterType::R_EDX => regs.rdx & 0xffffffff,
        RegisterType::R_EBX => regs.rbx & 0xffffffff,
        RegisterType::R_ESP => regs.rsp & 0xffffffff,
        RegisterType::R_EBP => regs.rbp & 0xffffffff,
        RegisterType::R_ESI => regs.rsi & 0xffffffff,
        RegisterType::R_EDI => regs.rdi & 0xffffffff,
        RegisterType::R_R8D => regs.r8 & 0xffffffff,
        RegisterType::R_R9D => regs.r9 & 0xffffffff,
        RegisterType::R_R10D => regs.r10 & 0xffffffff,
        RegisterType::R_R11D => regs.r11 & 0xffffffff,
        RegisterType::R_R12D => regs.r12 & 0xffffffff,
        RegisterType::R_R13D => regs.r13 & 0xffffffff,
        RegisterType::R_R14D => regs.r14 & 0xffffffff,
        RegisterType::R_R15D => regs.r15 & 0xffffffff,
        RegisterType::R_AX => regs.rax & 0xffff,
        RegisterType::R_CX => regs.rcx & 0xffff,
        RegisterType::R_DX => regs.rdx & 0xffff,
        RegisterType::R_BX => regs.rbx & 0xffff,
        RegisterType::R_SP => regs.rsp & 0xffff,
        RegisterType::R_BP => regs.rbp & 0xffff,
        RegisterType::R_SI => regs.rsi & 0xffff,
        RegisterType::R_DI => regs.rdi & 0xffff,
        RegisterType::R_R8W => regs.r8 & 0xffff,
        RegisterType::R_R9W => regs.r9 & 0xffff,
        RegisterType::R_R10W => regs.r10 & 0xffff,
        RegisterType::R_R11W => regs.r11 & 0xffff,
        RegisterType::R_R12W => regs.r12 & 0xffff,
        RegisterType::R_R13W => regs.r13 & 0xffff,
        RegisterType::R_R14W => regs.r14 & 0xffff,
        RegisterType::R_R15W => regs.r15 & 0xffff,
        RegisterType::R_AL => regs.rax & 0xff,
        RegisterType::R_CL => regs.rcx & 0xff,
        RegisterType::R_DL => regs.rdx & 0xff,
        RegisterType::R_BL => regs.rbx & 0xff,
        RegisterType::R_AH => (regs.rax >> 8) & 0xff,
        RegisterType::R_CH => (regs.rcx >> 8) & 0xff,
        RegisterType::R_DH => (regs.rdx >> 8) & 0xff,
        RegisterType::R_BH => (regs.rbx >> 8) & 0xff,
        RegisterType::R_R8B => regs.r8 & 0xff,
        RegisterType::R_R9B => regs.r9 & 0xff,
        RegisterType::R_R10B => regs.r10 & 0xff,
        RegisterType::R_R11B => regs.r11 & 0xff,
        RegisterType::R_R12B => regs.r12 & 0xff,
        RegisterType::R_R13B => regs.r13 & 0xff,
        RegisterType::R_R14B => regs.r14 & 0xff,
        RegisterType::R_R15B => regs.r15 & 0xff,
        RegisterType::R_SPL => regs.rsp & 0xff,
        RegisterType::R_BPL => regs.rbp & 0xff,
        RegisterType::R_SIL => regs.rsi & 0xff,
        RegisterType::R_DIL => regs.rdi & 0xff,
        RegisterType::R_RIP => regs.rip,
        RegisterType::R_NONE => 0,
        _ => 0,
    }
}

/// Executable register projection.  Identifiers outside [`addressable`]
/// have no defined value in a general-purpose snapshot and are excluded.
pub fn get_reg_value(regs: &UserRegs, reg: RegisterType) -> (v: u64)
    requires
        addressable(reg),
    ensures
        v == reg_value(*regs, reg),
{
    match reg {
        RegisterType::R_RAX => regs.rax,
        RegisterType::R_RCX => regs.rcx,
        RegisterType::R_RDX => regs.rdx,
        RegisterType::R_RBX => regs.rbx,
        RegisterType::R_RSP => regs.rsp,
        RegisterType::R_RBP => regs.rbp,
        RegisterType::R_RSI => regs.rsi,
        RegisterType::R_RDI => regs.rdi,
        RegisterType::R_R8 => regs.r8,
        RegisterType::R_R9 => regs.r9,
        RegisterType::R_R10 => regs.r10,
        RegisterType::R_R11 => regs.r11,
        RegisterType::R_R12 => regs.r12,
        RegisterType::R_R13 => regs.r13,
        RegisterType::R_R14 => regs.r14,
        RegisterType::R_R15 => regs.r15,
        RegisterType::R_EAX => regs.rax & 0xffffffff,
        RegisterType::R_ECX => regs.rcx & 0xffffffff,
        RegisterType::R_EDX => regs.rdx & 0xffffffff,
        RegisterType::R_EBX => regs.rbx & 0xffffffff,
        RegisterType::R_ESP => regs.rsp & 0xffffffff,
        RegisterType::R_EBP => regs.rbp & 0xffffffff,
        RegisterType::R_ESI => regs.rsi & 0xffffffff,
        RegisterType::R_EDI => regs.rdi & 0xffffffff,
        RegisterType::R_R8D => regs.r8 & 0xffffffff,
        RegisterType::R_R9D => regs.r9 & 0xffffffff,
        RegisterType::R_R10D => regs.r10 & 0xffffffff,
        RegisterType::R_R11D => regs.r11 & 0xffffffff,
        RegisterType::R_R12D => regs.r12 & 0xffffffff,
        RegisterType::R_R13D => regs.r13 & 0xffffffff,
        RegisterType::R_R14D => regs.r14 & 0xffffffff,
        RegisterType::R_R15D => regs.r15 & 0xffffffff,
        RegisterType::R_AX => regs.rax & 0xffff,
        RegisterType::R_CX => regs.rcx & 0xffff,
        RegisterType::R_DX => regs.rdx & 0xffff,
        RegisterType::R_BX => regs.rbx & 0xffff,
        RegisterType::R_SP => regs.rsp & 0xffff,
        RegisterType::R_BP => regs.rbp & 0xffff,
        RegisterType::R_SI => regs.rsi & 0xffff,
        RegisterType::R_DI => regs.rdi & 0xffff,
        RegisterType::R_R8W => regs.r8 & 0xffff,
        RegisterType::R_R9W => regs.r9 & 0xffff,
        RegisterType::R_R10W => regs.r10 & 0xffff,
        RegisterType::R_R11W => regs.r11 & 0xffff,
        RegisterType::R_R12W => regs.r12 & 0xffff,
        RegisterType::R_R13W => regs.r13 & 0xffff,
        RegisterType::R_R14W => regs.r14 & 0xffff,
        RegisterType::R_R15W => regs.r15 & 0xffff,
        RegisterType::R_AL => regs.rax & 0xff,
        RegisterType::R_CL => regs.rcx & 0xff,
        RegisterType::R_DL => regs.rdx & 0xff,
        RegisterType::R_BL => regs.rbx & 0xff,
        RegisterType::R_AH => (regs.rax >> 8) & 0xff,
        RegisterType::R_CH => (regs.rcx >> 8) & 0xff,
        RegisterType::R_DH => (regs.rdx >> 8) & 0xff,
        RegisterType::R_BH => (regs.rbx >> 8) & 0xff,
        RegisterType::R_R8B => regs.r8 & 0xff,
        RegisterType::R_R9B => regs.r9 & 0xff,
        RegisterType::R_R10B => regs.r10 & 0xff,
        RegisterType::R_R11B => regs.r11 & 0xff,
        RegisterType::R_R12B => regs.r12 & 0xff,
        RegisterType::R_R13B => regs.r13 & 0xff,
        RegisterType::R_R14B => regs.r14 & 0xff,
        RegisterType::R_R15B => regs.r15 & 0xff,
        RegisterType::R_SPL => regs.rsp & 0xff,
        RegisterType::R_BPL => regs.rbp & 0xff,
        RegisterType::R_SIL => regs.rsi & 0xff,
        RegisterType::R_DIL => regs.rdi & 0xff,
        RegisterType::R_RIP => regs.rip,
        _ => 0,
    }
}

/// Executable test for [`addressable`].
fn reg_addressable(reg: RegisterType) -> (r: bool)
    ensures
        r == addressable(reg),
{
    match reg {
        RegisterType::R_RAX | RegisterType::R_RCX | RegisterType::R_RDX | RegisterType::R_RBX
        | RegisterType::R_RSP | RegisterType::R_RBP | RegisterType::R_RSI | RegisterType::R_RDI
        | RegisterType::R_R8 | RegisterType::R_R9 | RegisterType::R_R10 | RegisterType::R_R11
        | RegisterType::R_R12 | RegisterType::R_R13 | RegisterType::R_R14 | RegisterType::R_R15
        | RegisterType::R_EAX | RegisterType::R_ECX | RegisterType::R_EDX | RegisterType::R_EBX
        | RegisterType::R_ESP | RegisterType::R_EBP | RegisterType::R_ESI | RegisterType::R_EDI
        | RegisterType::R_R8D | RegisterType::R_R9D | RegisterType::R_R10D | RegisterType::R_R11D
        | RegisterType::R_R12D | RegisterType::R_R13D | RegisterType::R_R14D
        | RegisterType::R_R15D | RegisterType::R_AX | RegisterType::R_CX | RegisterType::R_DX
        | RegisterType::R_BX | RegisterType::R_SP | RegisterType::R_BP | RegisterType::R_SI
        | RegisterType::R_DI | RegisterType::R_R8W | RegisterType::R_R9W | RegisterType::R_R10W
        | RegisterType::R_R11W | RegisterType::R_R12W | RegisterType::R_R13W
        | RegisterType::R_R14W | RegisterType::R_R15W | RegisterType::R_AL | RegisterType::R_CL
        | RegisterType::R_DL | RegisterType::R_BL | RegisterType::R_AH | RegisterType::R_CH
        | RegisterType::R_DH | RegisterType::R_BH | RegisterType::R_R8B | RegisterType::R_R9B
        | RegisterType::R_R10B | RegisterType::R_R11B | RegisterType::R_R12B
        | RegisterType::R_R13B | RegisterType::R_R14B | RegisterType::R_R15B
        | RegisterType::R_SPL | RegisterType::R_BPL | RegisterType::R_SIL | RegisterType::R_DIL
        | RegisterType::R_RIP | RegisterType::R_NONE => true,
        _ => false,
    }
}

/// Executable test for [`ops_resolvable`], so that the boundary feeding
/// decoded instructions in can refuse one the recorder cannot resolve
/// before handing it over.
pub fn ops_resolvable_check(inst: &DInst) -> (r: bool)
    ensures
        r == ops_resolvable(*inst),
{
    let mut i: usize = 0;
    while i < 4
        invariant
            i <= 4,
            forall|j: int| 0 <= j < i ==> !((#[trigger] inst.ops[j]).typ is O_NONE),
            forall|j: int|
                0 <= j < i ==> match (#[trigger] inst.ops[j]).typ {
                    OperandType::O_SMEM => addressable(inst.ops[j].index),
                    OperandType::O_MEM => addressable(inst.ops[j].index) && addressable(
                        inst.base,
                    ),
                    _ => true,
                },
        decreases 4 - i,
    {
        let op = inst.ops[i];
        match op.typ {
            OperandType::O_NONE => {
                proof {
                    assert forall|k: int| 0 <= k < 4 && live_op(*inst, k) implies match (
                    inst.ops[k]).typ {
                        OperandType::O_SMEM => addressable(inst.ops[k].index),
                        OperandType::O_MEM => addressable(inst.ops[k].index) && addressable(
                            inst.base,
                        ),
                        _ => true,
                    } by {
                        if k >= i {
                            assert((inst.ops[i as int]).typ is O_NONE);
                            assert(!live_op(*inst, k));
                        }
                    }
                }
                return true;
            },
            OperandType::O_SMEM => {
                if !reg_addressable(op.index) {
                    proof {
                        assert(live_op(*inst, i as int));
                    }
                    return false;
                }
            },
            OperandType::O_MEM => {
                if !reg_addressable(op.index) || !reg_addressable(inst.base) {
                    proof {
                        assert(live_op(*inst, i as int));
                    }
                    return false;
                }
            },
            _ => {},
        }
        i = i + 1;
    }
    true
}

/// The effective address of a simple memory operand: the value of its base
/// register, plus the displacement when the instruction carries one.
pub open spec fn smem_addr(inst: DInst, regs: UserRegs, op: Operand) -> u64 {
    let base = reg_value(regs, op.index);
    if inst.disp_size == 0 {
        base
    } else {
        base.wrapping_add(inst.disp)
    }
}

/// The effective address of an indexed memory operand: the value of the
/// instruction's base register (zero for `R_NONE`), plus the displacement
/// when the instruction carries one, plus the index register scaled by the
/// instruction's scale factor.
pub open spec fn mem_addr(inst: DInst, regs: UserRegs, op: Operand) -> u64 {
    let index = reg_value(regs, op.index);
    let base = reg_value(regs, inst.base);
    let scaled = index.wrapping_mul(inst.scale as u64);
    if inst.disp_size == 0 {
        base.wrapping_add(scaled)
    } else {
        base.wrapping_add(inst.disp).wrapping_add(scaled)
    }
}

/// Whether operand slot `i` comes before the end of the operand list, that
/// is, no slot up to and including `i` is `O_NONE`.
pub open spec fn live_op(inst: DInst, i: int) -> bool {
    forall|j: int| 0 <= j <= i ==> !((#[trigger] inst.ops[j]).typ is O_NONE)
}

/// Whether every live memory operand of the instruction names registers
/// the driver can project: the operand's own register, and for indexed
/// operands also the instruction's base register.  The disassembler
/// guarantees this for general-purpose code; an instruction outside it
/// (a vector gather, say) has no defined trace here.
pub open spec fn ops_resolvable(inst: DInst) -> bool {
    forall|i: int| 0 <= i < 4 && live_op(inst, i) ==> match (#[trigger] inst.ops[i]).typ {
        OperandType::O_SMEM => addressable(inst.ops[i].index),
        OperandType::O_MEM => addressable(inst.ops[i].index) && addressable(inst.base),
        _ => true,
    }
}

/// The ordered effective addresses contributed by operand slots `i` and
/// later, stopping at the first `O_NONE` slot.  Operand kinds other than
/// the two memory kinds contribute no address.
pub open spec fn addrs_from(inst: DInst, regs: UserRegs, i: int) -> Seq<u64>
    decreases 4 - i,
{
    if i < 0 || i >= 4 {
        Seq::empty()
    } else {
        match inst.ops[i].typ {
            OperandType::O_NONE => Seq::empty(),
            OperandType::O_SMEM => seq![smem_addr(inst, regs, inst.ops[i])] + addrs_from(
                inst,
                regs,
                i + 1,
            ),
            OperandType::O_MEM => seq![mem_addr(inst, regs, inst.ops[i])] + addrs_from(
                inst,
                regs,
                i + 1,
            ),
            _ => addrs_from(inst, regs, i + 1),
        }
    }
}

/// The ordered list of effective linear addresses the instruction's memory
/// operands resolve to under the given register snapshot.
pub open spec fn mem_addresses(inst: DInst, regs: UserRegs) -> Seq<u64> {
    addrs_from(inst, regs, 0)
}

/// Appends to `mem_access`, in operand order, the effective address of
/// every memory operand of the decoded instruction, computed from the live
/// register snapshot with wrapping 64-bit arithmetic.
pub fn find_mem_access(regs: &UserRegs, inst: &DInst, mem_access: &mut Vec<u64>)
    requires
        ops_resolvable(*inst),
    ensures
        final(mem_access)@ == old(mem_access)@ + mem_addresses(*inst, *regs),
{
    let ghost pre = mem_access@;
    let ghost mut acc = Seq::<u64>::empty();
    let mut i: usize = 0;
    let mut stopped: bool = false;
    while i < 4 && !stopped
        invariant
            i <= 4,
            ops_resolvable(*inst),
            mem_access@ == pre + acc,
            !stopped ==> forall|j: int| 0 <= j < i ==> !((#[trigger] inst.ops[j]).typ is O_NONE),
            !stopped ==> mem_addresses(*inst, *regs) == acc + addrs_from(*inst, *regs, i as int),
            stopped ==> mem_addresses(*inst, *regs) == acc,
        decreases 4 - i,
    {
        let op = inst.ops[i];
        match op.typ {
            OperandType::O_NONE => {
                stopped = true;
                proof {
                    assert(mem_addresses(*inst, *regs) =~= acc);
                }
            },
            OperandType::O_SMEM => {
                proof {
                    assert(live_op(*inst, i as int));
                }
                let base_value = get_reg_value(regs, op.index);
                let mem_location = if inst.disp_size == 0 {
                    base_value
                } else {
                    base_value.wrapping_add(inst.disp)
                };
                mem_access.push(mem_location);
                proof {
                    let rest = addrs_from(*inst, *regs, i as int + 1);
                    assert(acc + (seq![mem_location] + rest) =~= (acc + seq![mem_location]) + rest);
                    acc = acc + seq![mem_location];
                    assert(mem_access@ =~= pre + acc);
                }
            },
            OperandType::O_MEM => {
                proof {
                    assert(live_op(*inst, i as int));
                }
                let index_value = get_reg_value(regs, op.index);
                let base_value = get_reg_value(regs, inst.base);
                let scaled = index_value.wrapping_mul(inst.scale as u64);
                let mem_location = if inst.disp_size == 0 {
                    base_value.wrapping_add(scaled)
                } else {
                    base_value.wrapping_add(inst.disp).wrapping_add(scaled)
                };
                mem_access.push(mem_location);
                proof {
                    let rest = addrs_from(*inst, *regs, i as int + 1);
                    assert(acc + (seq![mem_location] + rest) =~= (acc + seq![mem_location]) + rest);
                    acc = acc + seq![mem_location];
                    assert(mem_access@ =~= pre + acc);
                }
            },
            _ => {},
        }
        i = i + 1;
    }
    proof {
        if !stopped {
            assert(addrs_from(*inst, *regs, 4) =~= Seq::<u64>::empty());
            assert(acc + addrs_from(*inst, *regs, 4) =~= acc);
        }
        assert(mem_access@ =~= pre + mem_addresses(*inst, *regs));
    }
}

} // verus!
