//! Descriptor for the MIPS family (MIPS32, MIPS64, and their r6
//! revisions), in the numbering of `gimli::MIPS`.
use vstd::prelude::*;
use gimli::Register;

verus! {

/// The word the generic unwinder stores per register. The MIPS
/// exception-handling ABI fixes this at 64 bits even on the n32 ABI,
/// whose pointers are 32 bits wide.
pub type UnwindWord = u64;

/// Pointer-sized values exchanged with the unwinder.
pub type UnwindPtr = usize;

/// DWARF number of the stack pointer, `$sp`.
pub const SP_NUM: u16 = 29;

/// DWARF number of the return address, `$ra`.
pub const RA_NUM: u16 = 31;

/// DWARF numbers of `$a0` and `$a1`, through which the exception
/// object pointer and the handler selector are delivered.
pub const UNWIND_DATA_REG0_NUM: u16 = 4;

pub const UNWIND_DATA_REG1_NUM: u16 = 5;

/// Special-register table for MIPS.
pub struct Arch;

impl Arch {
    /// Words of private bookkeeping space the unwinder reserves per
    /// propagation on MIPS.
    pub const UNWIND_PRIVATE_DATA_SIZE: usize = 2;

    /// The stack-pointer register, `$sp`.
    pub fn sp() -> (r: Register)
        ensures
            r.0 == SP_NUM,
    {
        Register(SP_NUM)
    }

    /// The return-address register, `$ra`.
    pub fn ra() -> (r: Register)
        ensures
            r.0 == RA_NUM,
    {
        Register(RA_NUM)
    }

    /// The pair of registers that deliver exception data to a resumed
    /// handler frame: `$a0` and `$a1`, the first two argument
    /// registers, as the platform's exception ABI fixes them.
    pub fn unwind_data_reg() -> (r: (Register, Register))
        ensures
            r.0.0 == UNWIND_DATA_REG0_NUM,
            r.1.0 == UNWIND_DATA_REG1_NUM,
    {
        (Register(UNWIND_DATA_REG0_NUM), Register(UNWIND_DATA_REG1_NUM))
    }
}

/// Neither exception-data register coincides with the stack pointer
/// or the return address.
pub proof fn lemma_unwind_data_regs_distinct()
    ensures
        UNWIND_DATA_REG0_NUM != SP_NUM,
        UNWIND_DATA_REG0_NUM != RA_NUM,
        UNWIND_DATA_REG1_NUM != SP_NUM,
        UNWIND_DATA_REG1_NUM != RA_NUM,
        UNWIND_DATA_REG0_NUM != UNWIND_DATA_REG1_NUM,
{
}

} // verus!
