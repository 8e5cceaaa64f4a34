//! Descriptor for x86-64, in the numbering of `gimli::X86_64`.
use vstd::prelude::*;
use gimli::Register;

verus! {

/// The word the generic unwinder stores per register.
pub type UnwindWord = usize;

/// Pointer-sized values exchanged with the unwinder.
pub type UnwindPtr = usize;

/// DWARF number of the stack pointer, `rsp`.
pub const SP_NUM: u16 = 7;

/// DWARF number of the return address.
pub const RA_NUM: u16 = 16;

/// DWARF numbers of `rax` and `rdx`, through which the exception
/// object pointer and the handler selector are delivered.
pub const UNWIND_DATA_REG0_NUM: u16 = 0;

pub const UNWIND_DATA_REG1_NUM: u16 = 1;

/// Special-register table for x86-64.
pub struct Arch;

impl Arch {
    /// Words of private bookkeeping space the unwinder reserves per
    /// propagation on x86-64.
    pub const UNWIND_PRIVATE_DATA_SIZE: usize = 6;

    /// The stack-pointer register, `rsp`.
    pub fn sp() -> (r: Register)
        ensures
            r.0 == SP_NUM,
    {
        Register(SP_NUM)
    }

    /// The return-address register.
    pub fn ra() -> (r: Register)
        ensures
            r.0 == RA_NUM,
    {
        Register(RA_NUM)
    }

    /// The pair of registers that deliver exception data to a resumed
    /// handler frame: `rax` and `rdx`, the integer return registers,
    /// as the platform's exception ABI fixes them.
    pub fn unwind_data_reg() -> (r: (Register, Register))
        ensures
            r.0.0 == UNWIND_DATA_REG0_NUM,
            r.1.0 == UNWIND_DATA_REG1_NUM,
    {
        (Register(UNWIND_DATA_REG0_NUM), Register(UNWIND_DATA_REG1_NUM))
    }
}

/// Neither exception-data register coincides with the stack pointer
/// or the return address.
pub proof fn lemma_unwind_data_regs_distinct()
    ensures
        UNWIND_DATA_REG0_NUM != SP_NUM,
        UNWIND_DATA_REG0_NUM != RA_NUM,
        UNWIND_DATA_REG1_NUM != SP_NUM,
        UNWIND_DATA_REG1_NUM != RA_NUM,
        UNWIND_DATA_REG0_NUM != UNWIND_DATA_REG1_NUM,
{
}

} // verus!
