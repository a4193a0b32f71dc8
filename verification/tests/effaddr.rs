use ctrace::distorm::{DInst, Operand, OperandType, RegisterType};
use ctrace::effaddr::{find_mem_access, get_reg_value, ops_resolvable_check};
use ctrace::sys::UserRegs;

#[test]
fn indexed_memory_address() {
    // base + displacement + index * scale: 0x1000 + 0x20 + 0x3 * 4 = 0x102c.
    let mut regs = UserRegs::new();
    regs.rbx = 0x1000;
    regs.r10 = 0x3;
    let mut inst = DInst::default();
    inst.base = RegisterType::R_RBX;
    inst.scale = 4;
    inst.disp = 0x20;
    inst.disp_size = 1;
    inst.ops[0] = Operand { typ: OperandType::O_MEM, index: RegisterType::R_R10, size: 64 };
    let mut mem: Vec<u64> = Vec::new();
    find_mem_access(&regs, &inst, &mut mem);
    assert_eq!(mem, vec![0x102c]);
}

#[test]
fn indexed_memory_without_displacement() {
    let mut regs = UserRegs::new();
    regs.rbx = 0x1000;
    regs.r10 = 0x3;
    let mut inst = DInst::default();
    inst.base = RegisterType::R_RBX;
    inst.scale = 8;
    inst.disp = 0x20;
    inst.disp_size = 0;
    inst.ops[0] = Operand { typ: OperandType::O_MEM, index: RegisterType::R_R10, size: 64 };
    let mut mem: Vec<u64> = Vec::new();
    find_mem_access(&regs, &inst, &mut mem);
    assert_eq!(mem, vec![0x1000 + 0x3 * 8]);
}

#[test]
fn indexed_memory_scale_zero_and_no_base() {
    // With scale 0 the index contributes nothing; with base R_NONE the base
    // reads as zero.
    let mut regs = UserRegs::new();
    regs.r10 = 0x3;
    let mut inst = DInst::default();
    inst.base = RegisterType::R_NONE;
    inst.scale = 0;
    inst.disp = 0x40;
    inst.disp_size = 4;
    inst.ops[0] = Operand { typ: OperandType::O_MEM, index: RegisterType::R_R10, size: 64 };
    let mut mem: Vec<u64> = Vec::new();
    find_mem_access(&regs, &inst, &mut mem);
    assert_eq!(mem, vec![0x40]);
}

#[test]
fn simple_memory_address() {
    let mut regs = UserRegs::new();
    regs.rsi = 0x7000_0000;
    let mut inst = DInst::default();
    inst.disp = 0x10;
    inst.disp_size = 1;
    inst.ops[0] = Operand { typ: OperandType::O_SMEM, index: RegisterType::R_RSI, size: 8 };
    let mut mem: Vec<u64> = Vec::new();
    find_mem_access(&regs, &inst, &mut mem);
    assert_eq!(mem, vec![0x7000_0010]);
}

#[test]
fn simple_memory_without_displacement() {
    let mut regs = UserRegs::new();
    regs.rsi = 0x7000_0000;
    let mut inst = DInst::default();
    inst.disp = 0x10;
    inst.disp_size = 0;
    inst.ops[0] = Operand { typ: OperandType::O_SMEM, index: RegisterType::R_RSI, size: 8 };
    let mut mem: Vec<u64> = Vec::new();
    find_mem_access(&regs, &inst, &mut mem);
    assert_eq!(mem, vec![0x7000_0000]);
}

#[test]
fn address_arithmetic_wraps() {
    let mut regs = UserRegs::new();
    regs.rsi = u64::MAX;
    let mut inst = DInst::default();
    inst.disp = 2;
    inst.disp_size = 1;
    inst.ops[0] = Operand { typ: OperandType::O_SMEM, index: RegisterType::R_RSI, size: 8 };
    let mut mem: Vec<u64> = Vec::new();
    find_mem_access(&regs, &inst, &mut mem);
    assert_eq!(mem, vec![1]);
}

#[test]
fn operands_in_order_and_stop_at_none() {
    // Two memory operands contribute in operand order; slots after the
    // first O_NONE are ignored even if they look like memory operands.
    let mut regs = UserRegs::new();
    regs.rsi = 0x100;
    regs.rdi = 0x200;
    regs.rbx = 0x300;
    let mut inst = DInst::default();
    inst.ops[0] = Operand { typ: OperandType::O_SMEM, index: RegisterType::R_RSI, size: 8 };
    inst.ops[1] = Operand { typ: OperandType::O_SMEM, index: RegisterType::R_RDI, size: 8 };
    inst.ops[2] = Operand { typ: OperandType::O_NONE, index: RegisterType::R_RAX, size: 0 };
    inst.ops[3] = Operand { typ: OperandType::O_SMEM, index: RegisterType::R_RBX, size: 8 };
    let mut mem: Vec<u64> = vec![0xAA];
    find_mem_access(&regs, &inst, &mut mem);
    assert_eq!(mem, vec![0xAA, 0x100, 0x200]);
}

#[test]
fn register_operands_contribute_no_address() {
    let regs = UserRegs::new();
    let mut inst = DInst::default();
    inst.ops[0] = Operand { typ: OperandType::O_REG, index: RegisterType::R_RAX, size: 64 };
    inst.ops[1] = Operand { typ: OperandType::O_IMM, index: RegisterType::R_RAX, size: 32 };
    let mut mem: Vec<u64> = Vec::new();
    find_mem_access(&regs, &inst, &mut mem);
    assert!(mem.is_empty());
}

#[test]
fn resolvable_operands_are_recognised() {
    let mut inst = DInst::default();
    assert!(ops_resolvable_check(&inst));
    inst.ops[0] = Operand { typ: OperandType::O_SMEM, index: RegisterType::R_RSI, size: 8 };
    assert!(ops_resolvable_check(&inst));
    // A memory operand through a segment register cannot be resolved from
    // a general-purpose snapshot.
    inst.ops[1] = Operand { typ: OperandType::O_SMEM, index: RegisterType::R_FS, size: 8 };
    assert!(!ops_resolvable_check(&inst));
    // Behind the end of the operand list the same slot does not matter.
    inst.ops[0] = Operand { typ: OperandType::O_NONE, index: RegisterType::R_RAX, size: 0 };
    assert!(ops_resolvable_check(&inst));
    // An indexed operand needs a resolvable base register as well.
    let mut indexed = DInst::default();
    indexed.base = RegisterType::R_XMM0;
    indexed.ops[0] = Operand { typ: OperandType::O_MEM, index: RegisterType::R_R10, size: 64 };
    assert!(!ops_resolvable_check(&indexed));
    indexed.base = RegisterType::R_NONE;
    assert!(ops_resolvable_check(&indexed));
}

#[test]
fn register_projection_widths() {
    // value_of on every width of RAX.
    let mut regs = UserRegs::new();
    regs.rax = 0xDEAD_BEEF_CAFE_BABE;
    assert_eq!(get_reg_value(&regs, RegisterType::R_RAX), 0xDEAD_BEEF_CAFE_BABE);
    assert_eq!(get_reg_value(&regs, RegisterType::R_EAX), 0xCAFE_BABE);
    assert_eq!(get_reg_value(&regs, RegisterType::R_AX), 0xBABE);
    assert_eq!(get_reg_value(&regs, RegisterType::R_AL), 0xBE);
    assert_eq!(get_reg_value(&regs, RegisterType::R_AH), 0xBA);
}

#[test]
fn register_projection_distinct_fields() {
    // Every 32-bit view projects from its own 64-bit register; R9D in
    // particular comes from R9, not R8.
    let mut regs = UserRegs::new();
    regs.r8 = 0x8888_8888_8888_8888;
    regs.r9 = 0x9999_9999_1234_5678;
    assert_eq!(get_reg_value(&regs, RegisterType::R_R8D), 0x8888_8888);
    assert_eq!(get_reg_value(&regs, RegisterType::R_R9D), 0x1234_5678);
    assert_eq!(get_reg_value(&regs, RegisterType::R_R9W), 0x5678);
    assert_eq!(get_reg_value(&regs, RegisterType::R_R9B), 0x78);
    regs.rsp = 0xABCD;
    regs.rip = 0x0040_1000;
    assert_eq!(get_reg_value(&regs, RegisterType::R_SPL), 0xCD);
    assert_eq!(get_reg_value(&regs, RegisterType::R_RIP), 0x0040_1000);
    assert_eq!(get_reg_value(&regs, RegisterType::R_NONE), 0);
}
