//! Model of the native disassembler's output: the decode outcome, the
//! operand descriptors, and the register identifier alphabet.
//!
//! The disassembler itself runs behind FFI in the surrounding binary; the
//! driver only ever reads the plain fields modelled here.  A decoded
//! instruction carries up to four operands in order; the operand list ends
//! at the first `O_NONE`.
use vstd::prelude::*;

verus! {

/// Decoding mode of the disassembler.  This driver always decodes 64-bit
/// code.
#[derive(Clone, Copy, PartialEq, Eq, Debug)]
pub enum DecodeType {
    Decode16Bits,
    Decode32Bits,
    Decode64Bits,
}

/// Outcome of a decode request.  `DECRES_SUCCESS` is a complete decode;
/// `DECRES_MEMORYERR` reports that the instruction is valid but its
/// immediate or displacement needed bytes beyond the supplied window, which
/// happens near the end of a mapped page and is benign: the decoded fields
/// are still correct.  Every other outcome is a decoding fault.
#[derive(Clone, Copy, PartialEq, Eq, Debug)]
pub enum DecodeResult {
    DECRES_NONE,
    DECRES_SUCCESS,
    DECRES_MEMORYERR,
    DECRES_INPUTERR,
    DECRES_FILTERED,
}

/// Kind of one operand of a decoded instruction.  Only `O_SMEM` (base
/// register plus optional displacement) and `O_MEM` (base plus scaled index
/// plus optional displacement) touch memory at the level this driver
/// models.
#[derive(Clone, Copy, PartialEq, Eq, Debug)]
pub enum OperandType {
    O_NONE,
    O_REG,
    O_IMM,
    O_IMM1,
    O_IMM2,
    O_DISP,
    O_SMEM,
    O_MEM,
    O_PC,
    O_PTR,
}

/// Register identifiers at every operand-relevant width, in the
/// disassembler's order, plus the `R_NONE` sentinel for "no register".
#[derive(Clone, Copy, PartialEq, Eq, Debug)]
pub enum RegisterType {
    R_RAX, R_RCX, R_RDX, R_RBX, R_RSP, R_RBP, R_RSI, R_RDI,
    R_R8, R_R9, R_R10, R_R11, R_R12, R_R13, R_R14, R_R15,
    R_EAX, R_ECX, R_EDX, R_EBX, R_ESP, R_EBP, R_ESI, R_EDI,
    R_R8D, R_R9D, R_R10D, R_R11D, R_R12D, R_R13D, R_R14D, R_R15D,
    R_AX, R_CX, R_DX, R_BX, R_SP, R_BP, R_SI, R_DI,
    R_R8W, R_R9W, R_R10W, R_R11W, R_R12W, R_R13W, R_R14W, R_R15W,
    R_AL, R_CL, R_DL, R_BL, R_AH, R_CH, R_DH, R_BH,
    R_R8B, R_R9B, R_R10B, R_R11B, R_R12B, R_R13B, R_R14B, R_R15B,
    R_SPL, R_BPL, R_SIL, R_DIL,
    R_ES, R_CS, R_SS, R_DS, R_FS, R_GS,
    R_RIP,
    R_ST0, R_ST1, R_ST2, R_ST3, R_ST4, R_ST5, R_ST6, R_ST7,
    R_MM0, R_MM1, R_MM2, R_MM3, R_MM4, R_MM5, R_MM6, R_MM7,
    R_XMM0, R_XMM1, R_XMM2, R_XMM3, R_XMM4, R_XMM5, R_XMM6, R_XMM7,
    R_XMM8, R_XMM9, R_XMM10, R_XMM11, R_XMM12, R_XMM13, R_XMM14, R_XMM15,
    R_YMM0, R_YMM1, R_YMM2, R_YMM3, R_YMM4, R_YMM5, R_YMM6, R_YMM7,
    R_YMM8, R_YMM9, R_YMM10, R_YMM11, R_YMM12, R_YMM13, R_YMM14, R_YMM15,
    R_CR0, R_UNUSED0, R_CR2, R_CR3, R_CR4, R_UNUSED1, R_UNUSED2, R_UNUSED3, R_CR8,
    R_DR0, R_DR1, R_DR2, R_DR3, R_UNUSED4, R_UNUSED5, R_DR6, R_DR7,
    R_NONE,
}

/// One operand of a decoded instruction: its kind, the register identifier
/// whose role depends on the kind, and the operand size in bits.
#[derive(Clone, Copy, PartialEq, Eq, Debug)]
pub struct Operand {
    pub typ: OperandType,
    pub index: RegisterType,
    pub size: u16,
}

/// The value `Operand::default` returns: an empty operand slot.
pub open spec fn default_operand() -> Operand {
    Operand { typ: OperandType::O_NONE, index: RegisterType::R_RAX, size: 0 }
}

impl Default for Operand {
    /// An empty operand slot, as the disassembler leaves unused slots.
    fn default() -> (r: Operand)
        ensures
            r == default_operand(),
    {
        Operand { typ: OperandType::O_NONE, index: RegisterType::R_RAX, size: 0 }
    }
}

/// A decoded instruction.  The driver reads the operand list, the base
/// register, the scale, and the displacement; the remaining fields are
/// preserved from the disassembler but not interpreted here.
#[derive(Clone, Copy, Debug)]
pub struct DInst {
    pub imm: u64,
    pub disp: u64,
    pub addr: u64,
    pub flags: u16,
    pub unused_prefixes_mask: u16,
    pub used_register_mask: u16,
    pub opcode: u16,
    pub ops: [Operand; 4],
    pub size: u8,
    pub segment: u8,
    pub base: RegisterType,
    pub scale: u8,
    pub disp_size: u8,
    pub meta: u8,
    pub modified_flags_mask: u8,
    pub tested_flags_mask: u8,
    pub undefined_flags_mask: u8,
}

impl Default for DInst {
    /// An all-empty instruction, used as the out-buffer a decode request
    /// fills.
    fn default() -> (r: DInst)
        ensures
            r.imm == 0,
            r.disp == 0,
            r.addr == 0,
            r.flags == 0,
            r.unused_prefixes_mask == 0,
            r.used_register_mask == 0,
            r.opcode == 0,
            forall|i: int| 0 <= i < 4 ==> r.ops[i] == default_operand(),
            r.size == 0,
            r.segment == 0,
            r.base == RegisterType::R_RAX,
            r.scale == 0,
            r.disp_size == 0,
            r.meta == 0,
            r.modified_flags_mask == 0,
            r.tested_flags_mask == 0,
            r.undefined_flags_mask == 0,
    {
        DInst {
            imm: 0,
            disp: 0,
            addr: 0,
            flags: 0,
            unused_prefixes_mask: 0,
            used_register_mask: 0,
            opcode: 0,
            ops: [
                Operand { typ: OperandType::O_NONE, index: RegisterType::R_RAX, size: 0 },
                Operand { typ: OperandType::O_NONE, index: RegisterType::R_RAX, size: 0 },
                Operand { typ: OperandType::O_NONE, index: RegisterType::R_RAX, size: 0 },
                Operand { typ: OperandType::O_NONE, index: RegisterType::R_RAX, size: 0 },
            ],
            size: 0,
            segment: 0,
            base: RegisterType::R_RAX,
            scale: 0,
            disp_size: 0,
            meta: 0,
            modified_flags_mask: 0,
            tested_flags_mask: 0,
            undefined_flags_mask: 0,
        }
    }
}

/// Whether a decode outcome is usable.  A decode is accepted exactly when
/// the disassembler consumed one instruction and reported either a complete
/// decode or the benign near-page-end outcome `DECRES_MEMORYERR`; anything
/// else is a decoding fault.
pub fn decode_accepted(result: DecodeResult, used_count: i32) -> (ok: bool)
    ensures
        ok <==> ((result is DECRES_SUCCESS || result is DECRES_MEMORYERR) && used_count == 1),
{
    match result {
        DecodeResult::DECRES_SUCCESS | DecodeResult::DECRES_MEMORYERR => used_count == 1,
        _ => false,
    }
}

} // verus!
