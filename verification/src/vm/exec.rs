//! Per-instruction execution.
//!
//! Each handler applies one decoded instruction to the machine state and
//! reports a [`Step`]: how the program counter should move afterwards. The
//! handlers never touch the program counter themselves; applying the step
//! is the engine's job.
//!
//! All 8-bit arithmetic wraps modulo 256. The shift instructions operate
//! on `Vx` alone, ignoring `Vy` (the other common dialect reads `Vy`; this
//! implementation uses the `Vx` form throughout).

use vstd::prelude::*;

use super::error::VmError;
use super::flags::{key_down, VmKey};
use super::{advance, zero_rows, Vm, VmView, MEM_SIZE};

verus! {

/// A virtual machine step: what the program counter should do after an
/// instruction executes.
#[derive(Clone, Copy, Debug, PartialEq, Eq, Structural)]
pub enum Step {
    /// Next cycle should execute the next instruction in the program.
    Next,
    /// Next cycle should execute the instruction after the next one.
    Skip,
    /// Next cycle should execute the instruction at the supplied offset.
    Jump(u16),
    /// Next cycle should be executed only after a key is pressed; the
    /// payload names the register that receives the key code.
    WaitKey(u8),
}

impl Step {
    /// The [Step] that skips the next instruction when the condition
    /// holds and falls through to it otherwise.
    pub open spec fn spec_skip_if(condition: bool) -> Step {
        if condition {
            Step::Skip
        } else {
            Step::Next
        }
    }

    /// Creates a [Step] that indicates the next instruction should be
    /// skipped if the supplied condition is true.
    #[verifier::when_used_as_spec(spec_skip_if)]
    pub fn skip_if(condition: bool) -> (r: Self)
        ensures
            r == Step::spec_skip_if(condition),
    {
        if condition {
            Step::Skip
        } else {
            Step::Next
        }
    }
}

/// Relies on rand::random: a value of the asked type drawn from the thread
/// random generator. Nothing can be promised of the value.
pub assume_specification<T>[ rand::random::<T> ]() -> (r: T)
    where
        rand::distributions::Standard: rand::distributions::Distribution<T>,
;

impl Vm {
    /// Gets the value of register `reg`.
    pub fn get_reg(&self, reg: u8) -> (r: Result<u8, VmError>)
        ensures
            r == (if reg < 16 {
                Ok::<u8, VmError>(self@.reg8[reg as int])
            } else {
                Err::<u8, VmError>(VmError::BadReg(reg))
            }),
    {
        if reg < 16 {
            Ok(self.reg8[reg as usize])
        } else {
            Err(VmError::BadReg(reg))
        }
    }

    /// Sets the value of register `reg`.
    pub fn set_reg(&mut self, reg: u8, val: u8) -> (r: Result<(), VmError>)
        ensures
            reg < 16 ==> r == Ok::<(), VmError>(()) && final(self)@ == (VmView {
                reg8: old(self)@.reg8.update(reg as int, val),
                ..old(self)@
            }),
            reg >= 16 ==> r == Err::<(), VmError>(VmError::BadReg(reg)) && final(self)@ == old(self)@,
    {
        if reg < 16 {
            self.reg8[reg as usize] = val;
            proof {
                assert(self@ =~= (VmView {
                    reg8: old(self)@.reg8.update(reg as int, val),
                    ..old(self)@
                }));
            }
            Ok(())
        } else {
            Err(VmError::BadReg(reg))
        }
    }

    /// Pops a return address from the top of the stack.
    pub fn stack_pop(&mut self) -> (r: Result<u16, VmError>)
        requires
            old(self).wf(),
        ensures
            final(self).wf(),
            old(self)@.reg_sp == 0 ==> r == Err::<u16, VmError>(VmError::StackUnderflow) && final(self)@ == old(self)@,
            old(self)@.reg_sp > 0 ==> r == Ok::<u16, VmError>(
                old(self)@.stack[old(self)@.reg_sp - 1],
            ) && final(self)@ == (VmView {
                reg_sp: (old(self)@.reg_sp - 1) as u8,
                ..old(self)@
            }),
    {
        if self.reg_sp == 0 {
            return Err(VmError::StackUnderflow);
        }
        self.reg_sp = self.reg_sp - 1;
        let val = self.stack[self.reg_sp as usize];
        proof {
            assert(self@ =~= (VmView { reg_sp: (old(self)@.reg_sp - 1) as u8, ..old(self)@ }));
        }
        Ok(val)
    }

    /// Pushes a return address onto the top of the stack.
    pub fn stack_push(&mut self, val: u16) -> (r: Result<(), VmError>)
        requires
            old(self).wf(),
        ensures
            final(self).wf(),
            old(self)@.reg_sp == 16 ==> r == Err::<(), VmError>(VmError::StackOverflow) && final(self)@ == old(self)@,
            old(self)@.reg_sp < 16 ==> r == Ok::<(), VmError>(()) && final(self)@ == (VmView {
                stack: old(self)@.stack.update(old(self)@.reg_sp as int, val),
                reg_sp: (old(self)@.reg_sp + 1) as u8,
                ..old(self)@
            }),
    {
        if self.reg_sp == 16 {
            return Err(VmError::StackOverflow);
        }
        self.stack[self.reg_sp as usize] = val;
        self.reg_sp = self.reg_sp + 1;
        proof {
            assert(self@ =~= (VmView {
                stack: old(self)@.stack.update(old(self)@.reg_sp as int, val),
                reg_sp: (old(self)@.reg_sp + 1) as u8,
                ..old(self)@
            }));
        }
        Ok(())
    }

    /// Does nothing.
    pub fn nop(&mut self) -> (r: Result<Step, VmError>)
        ensures
            r == Ok::<Step, VmError>(Step::Next),
            final(self)@ == old(self)@,
    {
        Ok(Step::Next)
    }

    /// Clears the display: afterwards every framebuffer pixel is unset.
    pub fn cls(&mut self) -> (r: Result<Step, VmError>)
        ensures
            r == Ok::<Step, VmError>(Step::Next),
            final(self)@ == (VmView { vram: zero_rows(), ..old(self)@ }),
    {
        self.vram = [0u64; 32];
        proof {
            assert(self@ =~= (VmView { vram: zero_rows(), ..old(self)@ }));
        }
        Ok(Step::Next)
    }

    /// Returns from a subroutine: jumps to the address popped from the
    /// stack, or fails with [`VmError::StackUnderflow`] when the stack is
    /// empty.
    pub fn ret(&mut self) -> (r: Result<Step, VmError>)
        requires
            old(self).wf(),
        ensures
            final(self).wf(),
            old(self)@.reg_sp == 0 ==> r == Err::<Step, VmError>(VmError::StackUnderflow) && final(self)@ == old(self)@,
            old(self)@.reg_sp > 0 ==> r == Ok::<Step, VmError>(
                Step::Jump(old(self)@.stack[old(self)@.reg_sp - 1]),
            ) && final(self)@ == (VmView {
                reg_sp: (old(self)@.reg_sp - 1) as u8,
                ..old(self)@
            }),
    {
        let addr = self.stack_pop()?;
        Ok(Step::Jump(addr))
    }

    /// Jump to a machine code routine: a legacy instruction, ignored by
    /// modern interpreters, so it behaves as a no-op.
    pub fn sys_nnn(&mut self, _nnn: u16) -> (r: Result<Step, VmError>)
        ensures
            r == Ok::<Step, VmError>(Step::Next),
            final(self)@ == old(self)@,
    {
        Ok(Step::Next)
    }

    /// Jumps to the supplied address.
    pub fn jp_nnn(&mut self, nnn: u16) -> (r: Result<Step, VmError>)
        ensures
            r == Ok::<Step, VmError>(Step::Jump(nnn)),
            final(self)@ == old(self)@,
    {
        Ok(Step::Jump(nnn))
    }

    /// Calls a subroutine: pushes the address of the following instruction
    /// and jumps, or fails with [`VmError::StackOverflow`] when all 16
    /// stack slots are in use.
    pub fn call_nnn(&mut self, nnn: u16) -> (r: Result<Step, VmError>)
        requires
            old(self).wf(),
        ensures
            final(self).wf(),
            old(self)@.reg_sp == 16 ==> r == Err::<Step, VmError>(VmError::StackOverflow) && final(self)@ == old(self)@,
            old(self)@.reg_sp < 16 ==> r == Ok::<Step, VmError>(Step::Jump(nnn)) && final(self)@
                == (VmView {
                stack: old(self)@.stack.update(
                    old(self)@.reg_sp as int,
                    advance(old(self)@.reg_pc, 2),
                ),
                reg_sp: (old(self)@.reg_sp + 1) as u8,
                ..old(self)@
            }),
    {
        let ret_addr = self.reg_pc.wrapping_add(2);
        self.stack_push(ret_addr)?;
        Ok(Step::Jump(nnn))
    }

    /// Skips the next instruction if register Vx equals the constant.
    pub fn se_x_kk(&mut self, x: u8, kk: u8) -> (r: Result<Step, VmError>)
        ensures
            final(self)@ == old(self)@,
            x < 16 ==> r == Ok::<Step, VmError>(
                Step::skip_if(old(self)@.reg8[x as int] == kk),
            ),
            x >= 16 ==> r == Err::<Step, VmError>(VmError::BadReg(x)),
    {
        Ok(Step::skip_if(self.get_reg(x)? == kk))
    }

    /// Skips the next instruction if register Vx differs from the constant.
    pub fn sne_x_kk(&mut self, x: u8, kk: u8) -> (r: Result<Step, VmError>)
        ensures
            final(self)@ == old(self)@,
            x < 16 ==> r == Ok::<Step, VmError>(
                Step::skip_if(old(self)@.reg8[x as int] != kk),
            ),
            x >= 16 ==> r == Err::<Step, VmError>(VmError::BadReg(x)),
    {
        Ok(Step::skip_if(self.get_reg(x)? != kk))
    }

    /// Skips the next instruction if registers Vx and Vy are equal.
    pub fn se_x_y(&mut self, x: u8, y: u8) -> (r: Result<Step, VmError>)
        ensures
            final(self)@ == old(self)@,
            x < 16 && y < 16 ==> r == Ok::<Step, VmError>(
                Step::skip_if(old(self)@.reg8[x as int] == old(self)@.reg8[y as int]),
            ),
            !(x < 16 && y < 16) ==> r == Err::<Step, VmError>(
                VmError::BadReg(if x < 16 { y } else { x }),
            ),
    {
        Ok(Step::skip_if(self.get_reg(x)? == self.get_reg(y)?))
    }

    /// Loads the constant into register Vx.
    pub fn ld_x_kk(&mut self, x: u8, kk: u8) -> (r: Result<Step, VmError>)
        ensures
            x < 16 ==> r == Ok::<Step, VmError>(Step::Next) && final(self)@ == (VmView {
                reg8: old(self)@.reg8.update(x as int, kk),
                ..old(self)@
            }),
            x >= 16 ==> r == Err::<Step, VmError>(VmError::BadReg(x)) && final(self)@ == old(self)@,
    {
        self.set_reg(x, kk)?;
        Ok(Step::Next)
    }

    /// Adds the constant to register Vx, wrapping modulo 256; VF is left
    /// alone.
    pub fn add_x_kk(&mut self, x: u8, kk: u8) -> (r: Result<Step, VmError>)
        ensures
            x < 16 ==> r == Ok::<Step, VmError>(Step::Next) && final(self)@ == (VmView {
                reg8: old(self)@.reg8.update(
                    x as int,
                    ((old(self)@.reg8[x as int] + kk) % 256) as u8,
                ),
                ..old(self)@
            }),
            x >= 16 ==> r == Err::<Step, VmError>(VmError::BadReg(x)) && final(self)@ == old(self)@,
    {
        let val = self.get_reg(x)?.wrapping_add(kk);
        self.set_reg(x, val)?;
        Ok(Step::Next)
    }

    /// Loads the value of register Vy into register Vx.
    pub fn ld_x_y(&mut self, x: u8, y: u8) -> (r: Result<Step, VmError>)
        ensures
            x < 16 && y < 16 ==> r == Ok::<Step, VmError>(Step::Next) && final(self)@ == (VmView {
                reg8: old(self)@.reg8.update(x as int, old(self)@.reg8[y as int]),
                ..old(self)@
            }),
            !(x < 16 && y < 16) ==> r == Err::<Step, VmError>(
                VmError::BadReg(if y < 16 { x } else { y }),
            ) && final(self)@ == old(self)@,
    {
        let val = self.get_reg(y)?;
        self.set_reg(x, val)?;
        Ok(Step::Next)
    }

    /// ORs register Vy into register Vx.
    pub fn or_x_y(&mut self, x: u8, y: u8) -> (r: Result<Step, VmError>)
        ensures
            x < 16 && y < 16 ==> r == Ok::<Step, VmError>(Step::Next) && final(self)@ == (VmView {
                reg8: old(self)@.reg8.update(
                    x as int,
                    old(self)@.reg8[x as int] | old(self)@.reg8[y as int],
                ),
                ..old(self)@
            }),
            !(x < 16 && y < 16) ==> r == Err::<Step, VmError>(
                VmError::BadReg(if x < 16 { y } else { x }),
            ) && final(self)@ == old(self)@,
    {
        let val = self.get_reg(x)? | self.get_reg(y)?;
        self.set_reg(x, val)?;
        Ok(Step::Next)
    }

    /// ANDs register Vy into register Vx.
    pub fn and_x_y(&mut self, x: u8, y: u8) -> (r: Result<Step, VmError>)
        ensures
            x < 16 && y < 16 ==> r == Ok::<Step, VmError>(Step::Next) && final(self)@ == (VmView {
                reg8: old(self)@.reg8.update(
                    x as int,
                    old(self)@.reg8[x as int] & old(self)@.reg8[y as int],
                ),
                ..old(self)@
            }),
            !(x < 16 && y < 16) ==> r == Err::<Step, VmError>(
                VmError::BadReg(if x < 16 { y } else { x }),
            ) && final(self)@ == old(self)@,
    {
        let val = self.get_reg(x)? & self.get_reg(y)?;
        self.set_reg(x, val)?;
        Ok(Step::Next)
    }

    /// XORs register Vy into register Vx.
    pub fn xor_x_y(&mut self, x: u8, y: u8) -> (r: Result<Step, VmError>)
        ensures
            x < 16 && y < 16 ==> r == Ok::<Step, VmError>(Step::Next) && final(self)@ == (VmView {
                reg8: old(self)@.reg8.update(
                    x as int,
                    old(self)@.reg8[x as int] ^ old(self)@.reg8[y as int],
                ),
                ..old(self)@
            }),
            !(x < 16 && y < 16) ==> r == Err::<Step, VmError>(
                VmError::BadReg(if x < 16 { y } else { x }),
            ) && final(self)@ == old(self)@,
    {
        let val = self.get_reg(x)? ^ self.get_reg(y)?;
        self.set_reg(x, val)?;
        Ok(Step::Next)
    }

    /// Adds register Vy into register Vx, wrapping modulo 256; VF becomes
    /// 1 exactly when the unsigned sum exceeds 255, else 0.
    pub fn add_x_y(&mut self, x: u8, y: u8) -> (r: Result<Step, VmError>)
        ensures
            x < 16 && y < 16 ==> r == Ok::<Step, VmError>(Step::Next) && final(self)@ == (VmView {
                reg8: old(self)@.reg8.update(
                    x as int,
                    ((old(self)@.reg8[x as int] + old(self)@.reg8[y as int]) % 256) as u8,
                ).update(
                    15,
                    (if old(self)@.reg8[x as int] + old(self)@.reg8[y as int] > 255 {
                        1u8
                    } else {
                        0u8
                    }),
                ),
                ..old(self)@
            }),
            x < 16 && y < 16 ==> final(self)@.reg8[15] == (if old(self)@.reg8[x as int] + old(self)@.reg8[y as int] > 255 {
                1u8
            } else {
                0u8
            }),
            !(x < 16 && y < 16) ==> r == Err::<Step, VmError>(
                VmError::BadReg(if x < 16 { y } else { x }),
            ) && final(self)@ == old(self)@,
    {
        let a = self.get_reg(x)?;
        let b = self.get_reg(y)?;
        let val = a.wrapping_add(b);
        let carry: u8 = if (a as u16) + (b as u16) > 255 {
            1
        } else {
            0
        };
        self.set_reg(x, val)?;
        self.set_reg(0xf, carry)?;
        Ok(Step::Next)
    }

    /// Subtracts register Vy from register Vx, wrapping modulo 256; VF
    /// becomes 1 exactly when Vx was at least Vy (no borrow), else 0.
    pub fn sub_x_y(&mut self, x: u8, y: u8) -> (r: Result<Step, VmError>)
        ensures
            x < 16 && y < 16 ==> r == Ok::<Step, VmError>(Step::Next) && final(self)@ == (VmView {
                reg8: old(self)@.reg8.update(
                    x as int,
                    ((old(self)@.reg8[x as int] - old(self)@.reg8[y as int]) % 256) as u8,
                ).update(
                    15,
                    (if old(self)@.reg8[x as int] >= old(self)@.reg8[y as int] {
                        1u8
                    } else {
                        0u8
                    }),
                ),
                ..old(self)@
            }),
            x < 16 && y < 16 ==> final(self)@.reg8[15] == (if old(self)@.reg8[x as int] >= old(self)@.reg8[y as int] {
                1u8
            } else {
                0u8
            }),
            !(x < 16 && y < 16) ==> r == Err::<Step, VmError>(
                VmError::BadReg(if x < 16 { y } else { x }),
            ) && final(self)@ == old(self)@,
    {
        let a = self.get_reg(x)?;
        let b = self.get_reg(y)?;
        let val = a.wrapping_sub(b);
        let no_borrow: u8 = if a >= b {
            1
        } else {
            0
        };
        self.set_reg(x, val)?;
        self.set_reg(0xf, no_borrow)?;
        Ok(Step::Next)
    }

    /// Shifts register Vx right by one; VF receives the bit shifted out.
    pub fn shr_x_y(&mut self, x: u8, _y: u8) -> (r: Result<Step, VmError>)
        ensures
            x < 16 ==> r == Ok::<Step, VmError>(Step::Next) && final(self)@ == (VmView {
                reg8: old(self)@.reg8.update(x as int, old(self)@.reg8[x as int] >> 1).update(
                    15,
                    old(self)@.reg8[x as int] & 1,
                ),
                ..old(self)@
            }),
            x >= 16 ==> r == Err::<Step, VmError>(VmError::BadReg(x)) && final(self)@ == old(self)@,
    {
        let val = self.get_reg(x)?;
        self.set_reg(x, val >> 1)?;
        self.set_reg(0xf, val & 0x1)?;
        Ok(Step::Next)
    }

    /// Subtracts register Vx from register Vy into Vx, wrapping modulo
    /// 256; VF becomes 1 exactly when Vy was at least Vx (no borrow).
    pub fn subn_x_y(&mut self, x: u8, y: u8) -> (r: Result<Step, VmError>)
        ensures
            x < 16 && y < 16 ==> r == Ok::<Step, VmError>(Step::Next) && final(self)@ == (VmView {
                reg8: old(self)@.reg8.update(
                    x as int,
                    ((old(self)@.reg8[y as int] - old(self)@.reg8[x as int]) % 256) as u8,
                ).update(
                    15,
                    (if old(self)@.reg8[y as int] >= old(self)@.reg8[x as int] {
                        1u8
                    } else {
                        0u8
                    }),
                ),
                ..old(self)@
            }),
            !(x < 16 && y < 16) ==> r == Err::<Step, VmError>(
                VmError::BadReg(if x < 16 { y } else { x }),
            ) && final(self)@ == old(self)@,
    {
        let a = self.get_reg(x)?;
        let b = self.get_reg(y)?;
        let val = b.wrapping_sub(a);
        let no_borrow: u8 = if b >= a {
            1
        } else {
            0
        };
        self.set_reg(x, val)?;
        self.set_reg(0xf, no_borrow)?;
        Ok(Step::Next)
    }

    /// Shifts register Vx left by one; VF receives the bit shifted out.
    pub fn shl_x_y(&mut self, x: u8, _y: u8) -> (r: Result<Step, VmError>)
        ensures
            x < 16 ==> r == Ok::<Step, VmError>(Step::Next) && final(self)@ == (VmView {
                reg8: old(self)@.reg8.update(
                    x as int,
                    ((old(self)@.reg8[x as int] * 2) % 256) as u8,
                ).update(15, old(self)@.reg8[x as int] >> 7),
                ..old(self)@
            }),
            x >= 16 ==> r == Err::<Step, VmError>(VmError::BadReg(x)) && final(self)@ == old(self)@,
    {
        let val = self.get_reg(x)?;
        let shifted = val.wrapping_mul(2);
        self.set_reg(x, shifted)?;
        self.set_reg(0xf, val >> 7)?;
        Ok(Step::Next)
    }

    /// Skips the next instruction if registers Vx and Vy differ.
    pub fn sne_x_y(&mut self, x: u8, y: u8) -> (r: Result<Step, VmError>)
        ensures
            final(self)@ == old(self)@,
            x < 16 && y < 16 ==> r == Ok::<Step, VmError>(
                Step::skip_if(old(self)@.reg8[x as int] != old(self)@.reg8[y as int]),
            ),
            !(x < 16 && y < 16) ==> r == Err::<Step, VmError>(
                VmError::BadReg(if x < 16 { y } else { x }),
            ),
    {
        if self.get_reg(x)? != self.get_reg(y)? {
            Ok(Step::Skip)
        } else {
            Ok(Step::Next)
        }
    }

    /// Loads the constant address into register I.
    pub fn ld_i_nnn(&mut self, nnn: u16) -> (r: Result<Step, VmError>)
        ensures
            r == Ok::<Step, VmError>(Step::Next),
            final(self)@ == (VmView { reg_i: nnn, ..old(self)@ }),
    {
        self.reg_i = nnn;
        proof {
            assert(self@ =~= (VmView { reg_i: nnn, ..old(self)@ }));
        }
        Ok(Step::Next)
    }

    /// Jumps to the constant address offset by register V0.
    pub fn jp_0_nnn(&mut self, nnn: u16) -> (r: Result<Step, VmError>)
        requires
            nnn < 0x1000,
        ensures
            r == Ok::<Step, VmError>(Step::Jump((old(self)@.reg8[0] + nnn) as u16)),
            final(self)@ == old(self)@,
    {
        let v0 = self.get_reg(0)?;
        Ok(Step::Jump(v0 as u16 + nnn))
    }

    /// Stores a random byte ANDed with the constant into register Vx. The
    /// byte comes from the thread random generator; whatever it is, every
    /// bit of Vx outside the constant ends up clear.
    pub fn rnd(&mut self, x: u8, kk: u8) -> (r: Result<Step, VmError>)
        ensures
            x < 16 ==> r == Ok::<Step, VmError>(Step::Next) && (exists|b: u8|
                final(self)@ == (VmView {
                    reg8: old(self)@.reg8.update(x as int, #[trigger] (b & kk)),
                    ..old(self)@
                })),
            x >= 16 ==> r == Err::<Step, VmError>(VmError::BadReg(x)) && final(self)@ == old(self)@,
    {
        let byte = rand::random::<u8>();
        self.rnd_with(x, kk, byte)
    }

    /// Stores the supplied byte ANDed with the constant into register Vx:
    /// the deterministic core of the random instruction, usable with any
    /// byte source.
    pub fn rnd_with(&mut self, x: u8, kk: u8, byte: u8) -> (r: Result<Step, VmError>)
        ensures
            x < 16 ==> r == Ok::<Step, VmError>(Step::Next) && final(self)@ == (VmView {
                reg8: old(self)@.reg8.update(x as int, byte & kk),
                ..old(self)@
            }),
            x >= 16 ==> r == Err::<Step, VmError>(VmError::BadReg(x)) && final(self)@ == old(self)@,
    {
        self.set_reg(x, byte & kk)?;
        Ok(Step::Next)
    }

    /// Skips the next instruction if the key named by register Vx is
    /// pressed.
    pub fn skp_x(&mut self, x: u8) -> (r: Result<Step, VmError>)
        ensures
            final(self)@ == old(self)@,
            x < 16 ==> r == Ok::<Step, VmError>(
                Step::skip_if(key_down(old(self)@.keys, old(self)@.reg8[x as int])),
            ),
            x >= 16 ==> r == Err::<Step, VmError>(VmError::BadReg(x)),
    {
        let vx = self.get_reg(x)?;
        let key = VmKey::from(vx);
        if self.keys.contains(key) {
            Ok(Step::Skip)
        } else {
            Ok(Step::Next)
        }
    }

    /// Skips the next instruction if the key named by register Vx is not
    /// pressed.
    pub fn sknp_x(&mut self, x: u8) -> (r: Result<Step, VmError>)
        ensures
            final(self)@ == old(self)@,
            x < 16 ==> r == Ok::<Step, VmError>(
                Step::skip_if(!key_down(old(self)@.keys, old(self)@.reg8[x as int])),
            ),
            x >= 16 ==> r == Err::<Step, VmError>(VmError::BadReg(x)),
    {
        let vx = self.get_reg(x)?;
        let key = VmKey::from(vx);
        if !self.keys.contains(key) {
            Ok(Step::Skip)
        } else {
            Ok(Step::Next)
        }
    }

    /// Loads the delay timer into register Vx.
    pub fn ld_x_dt(&mut self, x: u8) -> (r: Result<Step, VmError>)
        ensures
            x < 16 ==> r == Ok::<Step, VmError>(Step::Next) && final(self)@ == (VmView {
                reg8: old(self)@.reg8.update(x as int, old(self)@.reg_dt),
                ..old(self)@
            }),
            x >= 16 ==> r == Err::<Step, VmError>(VmError::BadReg(x)) && final(self)@ == old(self)@,
    {
        let dt = self.reg_dt;
        self.set_reg(x, dt)?;
        Ok(Step::Next)
    }

    /// Starts a blocking key read: the machine will make no progress until
    /// a key-down signal arrives and stores the key code into register Vx.
    pub fn ld_x_k(&mut self, x: u8) -> (r: Result<Step, VmError>)
        ensures
            r == Ok::<Step, VmError>(Step::WaitKey(x)),
            final(self)@ == old(self)@,
    {
        Ok(Step::WaitKey(x))
    }

    /// Loads register Vx into the delay timer.
    pub fn ld_dt_x(&mut self, x: u8) -> (r: Result<Step, VmError>)
        ensures
            x < 16 ==> r == Ok::<Step, VmError>(Step::Next) && final(self)@ == (VmView {
                reg_dt: old(self)@.reg8[x as int],
                ..old(self)@
            }),
            x >= 16 ==> r == Err::<Step, VmError>(VmError::BadReg(x)) && final(self)@ == old(self)@,
    {
        self.reg_dt = self.get_reg(x)?;
        proof {
            assert(self@ =~= (VmView { reg_dt: old(self)@.reg8[x as int], ..old(self)@ }));
        }
        Ok(Step::Next)
    }

    /// Loads register Vx into the sound timer.
    pub fn ld_st_x(&mut self, x: u8) -> (r: Result<Step, VmError>)
        ensures
            x < 16 ==> r == Ok::<Step, VmError>(Step::Next) && final(self)@ == (VmView {
                reg_st: old(self)@.reg8[x as int],
                ..old(self)@
            }),
            x >= 16 ==> r == Err::<Step, VmError>(VmError::BadReg(x)) && final(self)@ == old(self)@,
    {
        self.reg_st = self.get_reg(x)?;
        proof {
            assert(self@ =~= (VmView { reg_st: old(self)@.reg8[x as int], ..old(self)@ }));
        }
        Ok(Step::Next)
    }

    /// Adds register Vx into register I, wrapping modulo 65536.
    pub fn add_i_x(&mut self, x: u8) -> (r: Result<Step, VmError>)
        ensures
            x < 16 ==> r == Ok::<Step, VmError>(Step::Next) && final(self)@ == (VmView {
                reg_i: ((old(self)@.reg_i + old(self)@.reg8[x as int]) % 0x10000) as u16,
                ..old(self)@
            }),
            x >= 16 ==> r == Err::<Step, VmError>(VmError::BadReg(x)) && final(self)@ == old(self)@,
    {
        let vx = self.get_reg(x)?;
        self.reg_i = self.reg_i.wrapping_add(vx as u16);
        proof {
            assert(self@ =~= (VmView {
                reg_i: ((old(self)@.reg_i + old(self)@.reg8[x as int]) % 0x10000) as u16,
                ..old(self)@
            }));
        }
        Ok(Step::Next)
    }

    /// Loads into register I the address of the built-in glyph sprite for
    /// the digit held by register Vx: five bytes per glyph from the bottom
    /// of memory.
    pub fn ld_f_x(&mut self, x: u8) -> (r: Result<Step, VmError>)
        ensures
            x < 16 ==> r == Ok::<Step, VmError>(Step::Next) && final(self)@ == (VmView {
                reg_i: (old(self)@.reg8[x as int] * 5) as u16,
                ..old(self)@
            }),
            x >= 16 ==> r == Err::<Step, VmError>(VmError::BadReg(x)) && final(self)@ == old(self)@,
    {
        let vx = self.get_reg(x)?;
        self.reg_i = (vx as u16) * 5;
        proof {
            assert(self@ =~= (VmView {
                reg_i: (old(self)@.reg8[x as int] * 5) as u16,
                ..old(self)@
            }));
        }
        Ok(Step::Next)
    }

    /// Stores the three decimal digits of register Vx at memory locations
    /// I, I+1 and I+2, each address taken modulo the memory size.
    pub fn ld_b_x(&mut self, x: u8) -> (r: Result<Step, VmError>)
        requires
            old(self).wf(),
        ensures
            final(self).wf(),
            x < 16 ==> r == Ok::<Step, VmError>(Step::Next) && final(self)@ == (VmView {
                mem: old(self)@.mem.update(
                    (old(self)@.reg_i as int) % 4096,
                    old(self)@.reg8[x as int] / 100,
                ).update(
                    (old(self)@.reg_i + 1) % 4096,
                    (old(self)@.reg8[x as int] / 10) % 10,
                ).update((old(self)@.reg_i + 2) % 4096, old(self)@.reg8[x as int] % 10),
                ..old(self)@
            }),
            x >= 16 ==> r == Err::<Step, VmError>(VmError::BadReg(x)) && final(self)@ == old(self)@,
    {
        let vx = self.get_reg(x)?;
        let i = self.reg_i as usize;
        self.mem[i % MEM_SIZE] = vx / 100;
        self.mem[(i + 1) % MEM_SIZE] = (vx % 100) / 10;
        self.mem[(i + 2) % MEM_SIZE] = vx % 10;
        proof {
            assert((vx % 100) / 10 == (vx / 10) % 10) by (nonlinear_arith);
            assert(self@ =~= (VmView {
                mem: old(self)@.mem.update(
                    (old(self)@.reg_i as int) % 4096,
                    old(self)@.reg8[x as int] / 100,
                ).update(
                    (old(self)@.reg_i + 1) % 4096,
                    (old(self)@.reg8[x as int] / 10) % 10,
                ).update((old(self)@.reg_i + 2) % 4096, old(self)@.reg8[x as int] % 10),
                ..old(self)@
            }));
        }
        Ok(Step::Next)
    }

    /// Stores registers V0 through Vx inclusive into memory starting at
    /// location I, each address taken modulo the memory size.
    pub fn ld_deref_i_x(&mut self, x: u8) -> (r: Result<Step, VmError>)
        requires
            old(self).wf(),
        ensures
            final(self).wf(),
            x < 16 ==> r == Ok::<Step, VmError>(Step::Next) && final(self)@ == (VmView {
                mem: super::draw::store_bytes(
                    old(self)@.mem,
                    old(self)@.reg_i as int,
                    old(self)@.reg8.take(x as int + 1),
                ),
                ..old(self)@
            }),
            x >= 16 ==> r == Err::<Step, VmError>(VmError::BadReg(x)) && final(self)@ == old(self)@,
    {
        if x >= 16 {
            return Err(VmError::BadReg(x));
        }
        let base = self.reg_i as usize;
        let mut k: usize = 0;
        while k < x as usize + 1
            invariant
                old(self).wf(),
                self.wf(),
                x < 16,
                k as int <= x as int + 1,
                base as int == old(self)@.reg_i as int,
                self@ == (VmView {
                    mem: super::draw::store_bytes(
                        old(self)@.mem,
                        old(self)@.reg_i as int,
                        old(self)@.reg8.take(k as int),
                    ),
                    ..old(self)@
                }),
            decreases x as int + 1 - k,
        {
            proof {
                super::draw::lemma_store_bytes_push(
                    old(self)@.mem,
                    old(self)@.reg_i as int,
                    old(self)@.reg8.take(k as int),
                    old(self)@.reg8[k as int],
                );
                assert(old(self)@.reg8.take(k as int).push(old(self)@.reg8[k as int]) =~= old(self)@.reg8.take(k as int + 1));
            }
            let val = self.reg8[k];
            self.mem[(base + k) % MEM_SIZE] = val;
            proof {
                assert(self@ =~= (VmView {
                    mem: super::draw::store_bytes(
                        old(self)@.mem,
                        old(self)@.reg_i as int,
                        old(self)@.reg8.take(k as int + 1),
                    ),
                    ..old(self)@
                }));
            }
            k = k + 1;
        }
        Ok(Step::Next)
    }

    /// Loads registers V0 through Vx inclusive from memory starting at
    /// location I, each address taken modulo the memory size.
    pub fn ld_x_deref_i(&mut self, x: u8) -> (r: Result<Step, VmError>)
        requires
            old(self).wf(),
        ensures
            final(self).wf(),
            x < 16 ==> r == Ok::<Step, VmError>(Step::Next) && final(self)@ == (VmView {
                reg8: Seq::new(
                    16,
                    |i: int|
                        if 0 <= i <= x {
                            old(self)@.mem[(old(self)@.reg_i + i) % 4096]
                        } else {
                            old(self)@.reg8[i]
                        },
                ),
                ..old(self)@
            }),
            x >= 16 ==> r == Err::<Step, VmError>(VmError::BadReg(x)) && final(self)@ == old(self)@,
    {
        if x >= 16 {
            return Err(VmError::BadReg(x));
        }
        let base = self.reg_i as usize;
        let mut k: usize = 0;
        while k < x as usize + 1
            invariant
                old(self).wf(),
                self.wf(),
                x < 16,
                k as int <= x as int + 1,
                base as int == old(self)@.reg_i as int,
                self@ == (VmView {
                    reg8: Seq::new(
                        16,
                        |i: int|
                            if 0 <= i < k {
                                old(self)@.mem[(old(self)@.reg_i + i) % 4096]
                            } else {
                                old(self)@.reg8[i]
                            },
                    ),
                    ..old(self)@
                }),
            decreases x as int + 1 - k,
        {
            let val = self.mem[(base + k) % MEM_SIZE];
            self.reg8[k] = val;
            proof {
                assert(self@.reg8 =~= Seq::new(
                    16,
                    |i: int|
                        if 0 <= i < k + 1 {
                            old(self)@.mem[(old(self)@.reg_i + i) % 4096]
                        } else {
                            old(self)@.reg8[i]
                        },
                ));
                assert(self@ =~= (VmView {
                    reg8: Seq::new(
                        16,
                        |i: int|
                            if 0 <= i < k + 1 {
                                old(self)@.mem[(old(self)@.reg_i + i) % 4096]
                            } else {
                                old(self)@.reg8[i]
                            },
                    ),
                    ..old(self)@
                }));
            }
            k = k + 1;
        }
        proof {
            assert(self@.reg8 =~= Seq::new(
                16,
                |i: int|
                    if 0 <= i <= x {
                        old(self)@.mem[(old(self)@.reg_i + i) % 4096]
                    } else {
                        old(self)@.reg8[i]
                    },
            ));
            assert(self@ =~= (VmView {
                reg8: Seq::new(
                    16,
                    |i: int|
                        if 0 <= i <= x {
                            old(self)@.mem[(old(self)@.reg_i + i) % 4096]
                        } else {
                            old(self)@.reg8[i]
                        },
                ),
                ..old(self)@
            }));
        }
        Ok(Step::Next)
    }

    /// Fails with [`VmError::BadInsn`] carrying the opcode word that did
    /// not decode.
    pub fn invalid(&mut self, hi: u8, lo: u8) -> (r: Result<Step, VmError>)
        ensures
            r == Err::<Step, VmError>(VmError::BadInsn(((hi as u16) << 8) | (lo as u16))),
            final(self)@ == old(self)@,
    {
        Err(VmError::BadInsn(((hi as u16) << 8) | (lo as u16)))
    }
}

} // verus!
