//! Instruction definitions.
//!
//! Operand fields follow the conventional opcode notation: `x` and `y` name
//! one of the sixteen 8-bit registers, `addr` is a 12-bit address, and
//! 8-bit immediates are written out as plain bytes.

use vstd::prelude::*;

verus! {

/// Instruction that clears the display.
#[derive(Clone, Copy, Debug, PartialEq, Eq, Structural)]
pub struct ClsInsn;

/// Instruction that returns from a subroutine.
#[derive(Clone, Copy, Debug, PartialEq, Eq, Structural)]
pub struct RetInsn;

/// Instruction that jumps to a machine code routine at the specified address.
/// Modern interpreters treat it as a no-op.
#[derive(Clone, Copy, Debug, PartialEq, Eq, Structural)]
pub struct SysInsn {
    pub addr: u16,
}

/// Instruction that calls a subroutine at the specified address.
#[derive(Clone, Copy, Debug, PartialEq, Eq, Structural)]
pub struct CallInsn {
    pub addr: u16,
}

/// Instruction that jumps to an instruction at the specified address.
#[derive(Clone, Copy, Debug, PartialEq, Eq, Structural)]
pub enum JpInsn {
    /// Jump to the specified address.
    Addr(u16),
    /// Jump to the specified address, offset by the value in register V0.
    AddrReg(u16),
}

/// Instruction that skips the next instruction if two values are equal.
#[derive(Clone, Copy, Debug, PartialEq, Eq, Structural)]
pub enum SeInsn {
    /// Skip the next instruction if the value in register Vx equals a constant.
    RegVal(u8, u8),
    /// Skip the next instruction if the values in registers Vx and Vy are equal.
    RegReg(u8, u8),
}

/// Instruction that skips the next instruction if two values are not equal.
#[derive(Clone, Copy, Debug, PartialEq, Eq, Structural)]
pub enum SneInsn {
    /// Skip the next instruction if the value in register Vx differs from a constant.
    RegVal(u8, u8),
    /// Skip the next instruction if the values in registers Vx and Vy differ.
    RegReg(u8, u8),
}

/// Instruction that loads a value from a source into a destination.
#[derive(Clone, Copy, Debug, PartialEq, Eq, Structural)]
pub enum LdInsn {
    /// Loads a constant into register Vx.
    RegVal(u8, u8),
    /// Loads the value of register Vy into register Vx.
    RegReg(u8, u8),
    /// Loads a constant address into register I.
    MemAddr(u16),
    /// Loads the delay timer into register Vx.
    RegDt(u8),
    /// Waits for a key press and stores the key code into register Vx.
    RegKey(u8),
    /// Loads the value of register Vx into the delay timer.
    DtReg(u8),
    /// Loads the value of register Vx into the sound timer.
    StReg(u8),
    /// Loads the address of the glyph sprite for the digit in register Vx into I.
    SpriteReg(u8),
    /// Stores the BCD representation of Vx at memory locations I, I+1 and I+2.
    BcdReg(u8),
    /// Stores registers V0 through Vx at memory starting at location I.
    PtrReg(u8),
    /// Loads registers V0 through Vx from memory starting at location I.
    RegPtr(u8),
}

/// Instruction that adds two values.
#[derive(Clone, Copy, Debug, PartialEq, Eq, Structural)]
pub enum AddInsn {
    /// Adds a constant to register Vx, wrapping, without touching VF.
    RegVal(u8, u8),
    /// Adds register Vy to register Vx, setting VF to the carry.
    RegReg(u8, u8),
    /// Adds register Vx to register I, wrapping.
    MemReg(u8),
}

/// Instruction that ORs registers Vx and Vy into Vx.
#[derive(Clone, Copy, Debug, PartialEq, Eq, Structural)]
pub struct OrInsn {
    pub x: u8,
    pub y: u8,
}

/// Instruction that ANDs registers Vx and Vy into Vx.
#[derive(Clone, Copy, Debug, PartialEq, Eq, Structural)]
pub struct AndInsn {
    pub x: u8,
    pub y: u8,
}

/// Instruction that XORs registers Vx and Vy into Vx.
#[derive(Clone, Copy, Debug, PartialEq, Eq, Structural)]
pub struct XorInsn {
    pub x: u8,
    pub y: u8,
}

/// Instruction that subtracts register Vy from register Vx into Vx,
/// setting VF to the no-borrow flag.
#[derive(Clone, Copy, Debug, PartialEq, Eq, Structural)]
pub struct SubInsn {
    pub x: u8,
    pub y: u8,
}

/// Instruction that shifts register Vx right by one, setting VF to the
/// bit shifted out.
#[derive(Clone, Copy, Debug, PartialEq, Eq, Structural)]
pub struct ShrInsn {
    pub x: u8,
    pub y: u8,
}

/// Instruction that subtracts register Vx from register Vy into Vx,
/// setting VF to the no-borrow flag.
#[derive(Clone, Copy, Debug, PartialEq, Eq, Structural)]
pub struct SubNInsn {
    pub x: u8,
    pub y: u8,
}

/// Instruction that shifts register Vx left by one, setting VF to the
/// bit shifted out.
#[derive(Clone, Copy, Debug, PartialEq, Eq, Structural)]
pub struct ShlInsn {
    pub x: u8,
    pub y: u8,
}

/// Instruction that ANDs a random byte with a constant into register Vx.
#[derive(Clone, Copy, Debug, PartialEq, Eq, Structural)]
pub struct RndInsn {
    pub x: u8,
    pub val: u8,
}

/// Instruction that XOR-draws an n-byte sprite from memory location I at
/// the screen position held by registers (Vx, Vy).
#[derive(Clone, Copy, Debug, PartialEq, Eq, Structural)]
pub struct DrwInsn {
    pub x: u8,
    pub y: u8,
    pub n: u8,
}

/// Instruction that skips the next instruction if the key named by Vx is pressed.
#[derive(Clone, Copy, Debug, PartialEq, Eq, Structural)]
pub struct SkpInsn {
    pub x: u8,
}

/// Instruction that skips the next instruction if the key named by Vx is not pressed.
#[derive(Clone, Copy, Debug, PartialEq, Eq, Structural)]
pub struct SkpNpInsn {
    pub x: u8,
}

} // verus!
