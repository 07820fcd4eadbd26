//! Saved CPU state of a task on x86_64.
use vstd::prelude::*;

verus! {

/// Saved registers when a trap (interrupt or exception) occurs.
#[allow(missing_docs)]
#[derive(Debug, Default, Clone)]
pub struct TrapFrame {
    pub rax: u64,
    pub rcx: u64,
    pub rdx: u64,
    pub rbx: u64,
    pub rbp: u64,
    pub rsi: u64,
    pub rdi: u64,
    pub r8: u64,
    pub r9: u64,
    pub r10: u64,
    pub r11: u64,
    pub r12: u64,
    pub r13: u64,
    pub r14: u64,
    pub r15: u64,
    pub vector: u64,
    pub error_code: u64,
    pub rip: u64,
    pub cs: u64,
    pub rflags: u64,
    pub rsp: u64,
    pub ss: u64,
}

impl TrapFrame {
    /// Whether the trap came from user space: the privilege level in the
    /// low two bits of the code segment selector is 3.
    pub fn is_user(&self) -> (r: bool)
        ensures
            r == (self.cs % 4 == 3),
    {
        let cs = self.cs;
        assert(cs & 0b11 == cs % 4) by (bit_vector);
        cs & 0b11 == 3
    }
}

/// The 512-byte memory region that the FXSAVE and FXRSTOR instructions save
/// and restore the x87 FPU, MMX, XMM and MXCSR registers to and from.
#[allow(missing_docs)]
#[derive(Debug)]
pub struct FxsaveArea {
    pub fcw: u16,
    pub fsw: u16,
    pub ftw: u16,
    pub fop: u16,
    pub fip: u64,
    pub fdp: u64,
    pub mxcsr: u32,
    pub mxcsr_mask: u32,
    pub st: [u64; 16],
    pub xmm: [u64; 32],
    pub _padding: [u64; 12],
}

/// Extended state of a task, such as FP/SIMD states.
#[derive(Debug)]
pub struct ExtendedState {
    /// Memory region for the FXSAVE/FXRSTOR instructions.
    pub fxsave_area: FxsaveArea,
}

impl Default for ExtendedState {
    /// The state after reset: all zero but the x87 control word, the tag
    /// word and MXCSR, which hold their power-on values.
    fn default() -> (r: ExtendedState)
        ensures
            r.fxsave_area.fcw == 0x37f,
            r.fxsave_area.fsw == 0,
            r.fxsave_area.ftw == 0xffff,
            r.fxsave_area.fop == 0,
            r.fxsave_area.fip == 0,
            r.fxsave_area.fdp == 0,
            r.fxsave_area.mxcsr == 0x1f80,
            r.fxsave_area.mxcsr_mask == 0,
            forall|i: int| 0 <= i < 16 ==> r.fxsave_area.st@[i] == 0,
            forall|i: int| 0 <= i < 32 ==> r.fxsave_area.xmm@[i] == 0,
    {
        ExtendedState {
            fxsave_area: FxsaveArea {
                fcw: 0x37f,
                fsw: 0,
                ftw: 0xffff,
                fop: 0,
                fip: 0,
                fdp: 0,
                mxcsr: 0x1f80,
                mxcsr_mask: 0,
                st: [0u64; 16],
                xmm: [0u64; 32],
                _padding: [0u64; 12],
            },
        }
    }
}

} // verus!
