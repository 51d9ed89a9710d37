//! Virtual machine state snapshot.
//!
//! [`VmState`] is the register-machine core without framebuffer or
//! keyboard: memory, registers, stack and timers. It serves drivers that
//! only need to load and inspect a program image — a disassembly view,
//! for instance — without carrying the whole machine.

use vstd::prelude::*;

use crate::insn::{decode, Insn};

use super::error::VmError;
use super::{fetch_opt, sprites, MEM_SIZE, PROG_MAX, PROG_OFF};

verus! {

/// The register-machine core: memory, registers, stack and timers.
#[derive(Clone, Debug)]
pub struct VmState {
    pub mem: Vec<u8>,
    pub reg8: [u8; 16],
    pub reg_i: u16,
    pub reg_dt: u8,
    pub reg_st: u8,
    pub reg_pc: u16,
    pub reg_sp: u8,
    pub stack: [u16; 16],
}

impl VmState {
    /// Loads a program into memory and resets all registers and stack:
    /// the glyph font goes to the bottom of memory, the program to the
    /// program offset, zero fills the rest, and the program counter
    /// starts at the program offset. Fails with
    /// [`VmError::BadProgramTooLarge`] — leaving the state untouched —
    /// exactly when the program is longer than the memory past the
    /// program offset can hold.
    pub fn load_program(&mut self, program: &[u8]) -> (r: Result<(), VmError>)
        ensures
            program@.len() > PROG_MAX ==> r == Err::<(), VmError>(
                VmError::BadProgramTooLarge(program@.len() as usize, PROG_MAX as usize),
            ) && final(self).mem@ == old(self).mem@ && final(self).reg8@ == old(self).reg8@
                && final(self).reg_i == old(self).reg_i && final(self).reg_dt == old(self).reg_dt
                && final(self).reg_st == old(self).reg_st && final(self).reg_pc == old(
                self,
            ).reg_pc && final(self).reg_sp == old(self).reg_sp && final(self).stack@ == old(
                self,
            ).stack@,
            program@.len() <= PROG_MAX ==> r == Ok::<(), VmError>(()) && final(self).mem@
                == Seq::new(
                MEM_SIZE as nat,
                |i: int|
                    if 0 <= i < 80 {
                        sprites::font()[i]
                    } else if PROG_OFF <= i < PROG_OFF + program@.len() {
                        program@[i - PROG_OFF]
                    } else {
                        0u8
                    },
            ) && final(self).reg8@ == Seq::new(16, |i: int| 0u8) && final(self).reg_i == 0
                && final(self).reg_dt == 0 && final(self).reg_st == 0 && final(self).reg_pc
                == PROG_OFF as u16 && final(self).reg_sp == 0 && final(self).stack@ == Seq::new(
                16,
                |i: int| 0u16,
            ),
    {
        if program.len() > PROG_MAX {
            return Err(VmError::BadProgramTooLarge(program.len(), PROG_MAX));
        }
        let mut mem = super::zeroed(MEM_SIZE);
        sprites::copy_to(&mut mem);
        let mut i: usize = 0;
        while i < program.len()
            invariant
                i <= program@.len(),
                program@.len() <= PROG_MAX,
                mem@.len() == MEM_SIZE,
                forall|j: int| 0 <= j < 80 ==> mem@[j] == sprites::font()[j],
                forall|j: int| 80 <= j < PROG_OFF ==> mem@[j] == 0u8,
                forall|j: int| PROG_OFF <= j < PROG_OFF + i ==> mem@[j] == program@[j - PROG_OFF],
                forall|j: int| PROG_OFF + i <= j < MEM_SIZE ==> mem@[j] == 0u8,
            decreases program@.len() - i,
        {
            mem[PROG_OFF + i] = program[i];
            i = i + 1;
        }
        self.mem = mem;
        self.reg8 = [0u8; 16];
        self.reg_i = 0;
        self.reg_dt = 0;
        self.reg_st = 0;
        self.reg_pc = PROG_OFF as u16;
        self.reg_sp = 0;
        self.stack = [0u16; 16];
        proof {
            assert(self.mem@ =~= Seq::new(
                MEM_SIZE as nat,
                |i: int|
                    if 0 <= i < 80 {
                        sprites::font()[i]
                    } else if PROG_OFF <= i < PROG_OFF + program@.len() {
                        program@[i - PROG_OFF]
                    } else {
                        0u8
                    },
            ));
        }
        Ok(())
    }

    /// The two big-endian instruction bytes at the program counter, if
    /// both lie inside memory.
    pub fn get_insn_bytes(&self) -> (r: Option<(u8, u8)>)
        ensures
            r == fetch_opt(self.mem@, self.reg_pc as int),
    {
        self.get_insn_bytes_at(self.reg_pc as usize)
    }

    /// The decoded instruction at offset `i`: `None` when the bytes lie
    /// outside memory or do not decode.
    pub fn get_insn_at(&self, i: usize) -> (r: Option<Insn>)
        ensures
            r == (match fetch_opt(self.mem@, i as int) {
                Some(b) => decode(b.0, b.1),
                None => None,
            }),
    {
        let (hi, lo) = match self.get_insn_bytes_at(i) {
            Some(b) => b,
            None => {
                return None;
            },
        };
        Insn::from_bytes(hi, lo)
    }

    /// The two big-endian instruction bytes at offset `i`, if both lie
    /// inside memory.
    pub fn get_insn_bytes_at(&self, i: usize) -> (r: Option<(u8, u8)>)
        ensures
            r == fetch_opt(self.mem@, i as int),
    {
        if self.mem.len() < 2 || i > self.mem.len() - 2 {
            None
        } else {
            Some((self.mem[i], self.mem[i + 1]))
        }
    }
}

impl Default for VmState {
    /// Creates a [VmState] in its startup state: the glyph font at the
    /// bottom of memory, zero everywhere else, and the program counter at
    /// the program offset.
    fn default() -> (r: Self)
        ensures
            r.mem@ == Seq::new(
                MEM_SIZE as nat,
                |i: int|
                    if 0 <= i < 80 {
                        sprites::font()[i]
                    } else {
                        0u8
                    },
            ),
            r.reg8@ == Seq::new(16, |i: int| 0u8),
            r.reg_i == 0,
            r.reg_dt == 0,
            r.reg_st == 0,
            r.reg_pc == PROG_OFF as u16,
            r.reg_sp == 0,
            r.stack@ == Seq::new(16, |i: int| 0u16),
    {
        let mut mem = super::zeroed(MEM_SIZE);
        sprites::copy_to(&mut mem);
        let r = VmState {
            mem,
            reg8: [0u8; 16],
            reg_i: 0,
            reg_dt: 0,
            reg_st: 0,
            reg_pc: PROG_OFF as u16,
            reg_sp: 0,
            stack: [0u16; 16],
        };
        proof {
            assert(r.mem@ =~= Seq::new(
                MEM_SIZE as nat,
                |i: int|
                    if 0 <= i < 80 {
                        sprites::font()[i]
                    } else {
                        0u8
                    },
            ));
            assert(r.reg8@ =~= Seq::new(16, |i: int| 0u8));
            assert(r.stack@ =~= Seq::new(16, |i: int| 0u16));
        }
        r
    }
}

} // verus!
