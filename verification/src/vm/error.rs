//! Virtual machine errors.

use vstd::prelude::*;

verus! {

/// A virtual machine error.
#[derive(Clone, Copy, Debug, PartialEq, Eq, Structural)]
pub enum VmError {
    /// An instruction attempted to access a register that does not exist.
    BadReg(u8),
    /// An invalid instruction was found.
    BadInsn(u16),
    /// An instruction attempted to overflow the stack.
    StackOverflow,
    /// An instruction attempted to underflow the stack.
    StackUnderflow,
    /// A program is too large to fit in memory; carries the actual length
    /// and the largest length that fits.
    BadProgramTooLarge(usize, usize),
}

impl VmError {
    /// A short description of the error.
    pub fn describe(&self) -> (r: &'static str)
        ensures
            r@ =~= match self {
                VmError::BadReg(_) => "bad register"@,
                VmError::BadInsn(_) => "bad instruction"@,
                VmError::StackOverflow => "stack overflow"@,
                VmError::StackUnderflow => "stack underflow"@,
                VmError::BadProgramTooLarge(_, _) => "program too large"@,
            },
    {
        match self {
            VmError::BadReg(_) => "bad register",
            VmError::BadInsn(_) => "bad instruction",
            VmError::StackOverflow => "stack overflow",
            VmError::StackUnderflow => "stack underflow",
            VmError::BadProgramTooLarge(_, _) => "program too large",
        }
    }
}

} // verus!
