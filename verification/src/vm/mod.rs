//! Virtual machine.
//!
//! [`Vm`] is the whole machine state: memory, registers, stack, timers,
//! framebuffer, key mask and the keyboard-wait flag. The state is owned by
//! whoever drives the machine and is mutated only by the engine functions
//! here; an external driver calls [`Vm::update`] at the CPU cadence,
//! [`Vm::update_timers`] at the timer cadence, and the two key signals
//! when the host keyboard changes.
//!
//! The contract of every engine function is stated against [`VmView`],
//! the mathematical image of the state; [`step_rel`] is the machine's
//! whole small-step semantics in one specification.

use vstd::prelude::*;

use crate::insn::{decode, insns::AddInsn, insns::JpInsn, insns::LdInsn, insns::SeInsn,
    insns::SneInsn, lemma_decode_wf, Insn};

use self::draw::{draw_hits, draw_rows, sprite_at, store_bytes};
use self::error::VmError;
use self::exec::Step;
use self::flags::{key_code_of, key_down, VmKey};

pub mod draw;
pub mod error;
pub mod exec;
pub mod flags;
pub mod laws;
pub mod sprites;
pub mod state;
pub mod support;

verus! {

/// Offset of program space in memory.
pub const PROG_OFF: usize = 0x200;

/// Size of the addressable memory in bytes.
pub const MEM_SIZE: usize = 4096;

/// Largest program length that fits in memory.
pub const PROG_MAX: usize = MEM_SIZE - PROG_OFF;

/// Size of an instruction in bytes.
pub const INSN_SIZE: u16 = 2;

/// Width of the vram buffer in pixels.
pub const VRAM_WIDTH: usize = 64;

/// Height of the vram buffer in pixels.
pub const VRAM_HEIGHT: usize = 32;

/// A CHIP-8 virtual machine.
pub struct Vm {
    pub mem: Vec<u8>,
    pub reg8: [u8; 16],
    pub reg_i: u16,
    pub reg_dt: u8,
    pub reg_st: u8,
    pub reg_pc: u16,
    pub reg_sp: u8,
    pub stack: [u16; 16],
    pub vram: [u64; 32],
    pub keys: VmKey,
    pub wait_key: bool,
    pub wait_key_reg: u8,
}

/// The mathematical image of a [`Vm`]: the same fields over sequences and
/// plain integers.
#[verifier::ext_equal]
pub struct VmView {
    pub mem: Seq<u8>,
    pub reg8: Seq<u8>,
    pub reg_i: u16,
    pub reg_dt: u8,
    pub reg_st: u8,
    pub reg_pc: u16,
    pub reg_sp: u8,
    pub stack: Seq<u16>,
    pub vram: Seq<u64>,
    pub keys: u16,
    pub wait_key: bool,
    pub wait_key_reg: u8,
}

impl View for Vm {
    type V = VmView;

    open spec fn view(&self) -> VmView {
        VmView {
            mem: self.mem@,
            reg8: self.reg8@,
            reg_i: self.reg_i,
            reg_dt: self.reg_dt,
            reg_st: self.reg_st,
            reg_pc: self.reg_pc,
            reg_sp: self.reg_sp,
            stack: self.stack@,
            vram: self.vram@,
            keys: self.keys.bits,
            wait_key: self.wait_key,
            wait_key_reg: self.wait_key_reg,
        }
    }
}

impl VmView {
    /// Well-formedness of the machine state: every buffer has its fixed
    /// size, the stack pointer stays within the 16 slots, and a pending
    /// key wait names a real register.
    pub open spec fn wf(self) -> bool {
        &&& self.mem.len() == MEM_SIZE
        &&& self.reg8.len() == 16
        &&& self.stack.len() == 16
        &&& self.vram.len() == 32
        &&& self.reg_sp <= 16
        &&& self.wait_key_reg < 16
    }
}

/// The program counter moved forward by `k` bytes, wrapping at the 16-bit
/// boundary.
pub open spec fn advance(pc: u16, k: u16) -> u16 {
    ((pc + k) % 0x10000) as u16
}

/// A framebuffer with every pixel unset.
pub open spec fn zero_rows() -> Seq<u64> {
    Seq::new(32, |i: int| 0u64)
}

/// The two big-endian instruction bytes at offset `i` of memory, if both
/// lie inside it.
pub open spec fn fetch_opt(mem: Seq<u8>, i: int) -> Option<(u8, u8)> {
    if 0 <= i && i + 1 < mem.len() {
        Some((mem[i], mem[i + 1]))
    } else {
        None
    }
}

/// The machine state as it comes out of [`Vm::new`]: the glyph font at
/// the bottom of memory and zero everywhere else, every register, the
/// stack, the framebuffer and the key mask cleared, and the program
/// counter at the program offset — the same state that loading an empty
/// program produces.
pub open spec fn initial() -> VmView {
    VmView {
        mem: Seq::new(
            MEM_SIZE as nat,
            |i: int|
                if 0 <= i < 80 {
                    sprites::font()[i]
                } else {
                    0u8
                },
        ),
        reg8: Seq::new(16, |i: int| 0u8),
        reg_i: 0,
        reg_dt: 0,
        reg_st: 0,
        reg_pc: PROG_OFF as u16,
        reg_sp: 0,
        stack: Seq::new(16, |i: int| 0u16),
        vram: zero_rows(),
        keys: 0,
        wait_key: false,
        wait_key_reg: 0,
    }
}

/// The machine state after a program is loaded: the glyph font at the
/// bottom of memory, the program at the program offset, zero everywhere
/// else, all registers and the framebuffer reset, and the program counter
/// at the program offset. The key mask is left as it was.
pub open spec fn loaded(pre: VmView, program: Seq<u8>) -> VmView {
    VmView {
        mem: Seq::new(
            MEM_SIZE as nat,
            |i: int|
                if 0 <= i < 80 {
                    sprites::font()[i]
                } else if PROG_OFF <= i < PROG_OFF + program.len() {
                    program[i - PROG_OFF]
                } else {
                    0u8
                },
        ),
        reg8: Seq::new(16, |i: int| 0u8),
        reg_i: 0,
        reg_dt: 0,
        reg_st: 0,
        reg_pc: PROG_OFF as u16,
        reg_sp: 0,
        stack: Seq::new(16, |i: int| 0u16),
        vram: zero_rows(),
        keys: pre.keys,
        wait_key: false,
        wait_key_reg: 0,
    }
}

/// What executing one decoded instruction does to the machine state,
/// program counter movement included: the relation between the state
/// before, the state after, and the reported result. It is a relation
/// rather than a function only because of the random instruction.
pub open spec fn insn_step(pre: VmView, insn: Insn, post: VmView, r: Result<(), VmError>) -> bool {
    match insn {
        Insn::Nop => r == Ok::<(), VmError>(()) && post == stepped(pre, Step::Next),
        Insn::Cls(_) => r == Ok::<(), VmError>(()) && post == stepped(
            (VmView { vram: zero_rows(), ..pre }),
            Step::Next,
        ),
        Insn::Ret(_) => if pre.reg_sp == 0 {
            r == Err::<(), VmError>(VmError::StackUnderflow) && post == pre
        } else {
            r == Ok::<(), VmError>(()) && post == stepped(
                (VmView { reg_sp: (pre.reg_sp - 1) as u8, ..pre }),
                Step::Jump(pre.stack[pre.reg_sp - 1]),
            )
        },
        Insn::Sys(_) => r == Ok::<(), VmError>(()) && post == stepped(pre, Step::Next),
        Insn::Jp(JpInsn::Addr(nnn)) => r == Ok::<(), VmError>(()) && post == stepped(
            pre,
            Step::Jump(nnn),
        ),
        Insn::Jp(JpInsn::AddrReg(nnn)) => r == Ok::<(), VmError>(()) && post == stepped(
            pre,
            Step::Jump((pre.reg8[0] + nnn) as u16),
        ),
        Insn::Call(c) => if pre.reg_sp == 16 {
            r == Err::<(), VmError>(VmError::StackOverflow) && post == pre
        } else {
            r == Ok::<(), VmError>(()) && post == stepped(
                (VmView {
                    stack: pre.stack.update(pre.reg_sp as int, advance(pre.reg_pc, 2)),
                    reg_sp: (pre.reg_sp + 1) as u8,
                    ..pre
                }),
                Step::Jump(c.addr),
            )
        },
        Insn::Se(SeInsn::RegVal(x, kk)) => r == Ok::<(), VmError>(()) && post == stepped(
            pre,
            (if pre.reg8[x as int] == kk {
                Step::Skip
            } else {
                Step::Next
            }),
        ),
        Insn::Se(SeInsn::RegReg(x, y)) => r == Ok::<(), VmError>(()) && post == stepped(
            pre,
            (if pre.reg8[x as int] == pre.reg8[y as int] {
                Step::Skip
            } else {
                Step::Next
            }),
        ),
        Insn::SNe(SneInsn::RegVal(x, kk)) => r == Ok::<(), VmError>(()) && post == stepped(
            pre,
            (if pre.reg8[x as int] != kk {
                Step::Skip
            } else {
                Step::Next
            }),
        ),
        Insn::SNe(SneInsn::RegReg(x, y)) => r == Ok::<(), VmError>(()) && post == stepped(
            pre,
            (if pre.reg8[x as int] != pre.reg8[y as int] {
                Step::Skip
            } else {
                Step::Next
            }),
        ),
        Insn::Ld(LdInsn::RegVal(x, kk)) => r == Ok::<(), VmError>(()) && post == stepped(
            (VmView { reg8: pre.reg8.update(x as int, kk), ..pre }),
            Step::Next,
        ),
        Insn::Ld(LdInsn::RegReg(x, y)) => r == Ok::<(), VmError>(()) && post == stepped(
            (VmView { reg8: pre.reg8.update(x as int, pre.reg8[y as int]), ..pre }),
            Step::Next,
        ),
        Insn::Ld(LdInsn::MemAddr(nnn)) => r == Ok::<(), VmError>(()) && post == stepped(
            (VmView { reg_i: nnn, ..pre }),
            Step::Next,
        ),
        Insn::Ld(LdInsn::RegDt(x)) => r == Ok::<(), VmError>(()) && post == stepped(
            (VmView { reg8: pre.reg8.update(x as int, pre.reg_dt), ..pre }),
            Step::Next,
        ),
        Insn::Ld(LdInsn::RegKey(x)) => r == Ok::<(), VmError>(()) && post == stepped(
            pre,
            Step::WaitKey(x),
        ),
        Insn::Ld(LdInsn::DtReg(x)) => r == Ok::<(), VmError>(()) && post == stepped(
            (VmView { reg_dt: pre.reg8[x as int], ..pre }),
            Step::Next,
        ),
        Insn::Ld(LdInsn::StReg(x)) => r == Ok::<(), VmError>(()) && post == stepped(
            (VmView { reg_st: pre.reg8[x as int], ..pre }),
            Step::Next,
        ),
        Insn::Ld(LdInsn::SpriteReg(x)) => r == Ok::<(), VmError>(()) && post == stepped(
            (VmView { reg_i: (pre.reg8[x as int] * 5) as u16, ..pre }),
            Step::Next,
        ),
        Insn::Ld(LdInsn::BcdReg(x)) => r == Ok::<(), VmError>(()) && post == stepped(
            (VmView {
                mem: pre.mem.update((pre.reg_i as int) % 4096, pre.reg8[x as int] / 100).update(
                    (pre.reg_i + 1) % 4096,
                    (pre.reg8[x as int] / 10) % 10,
                ).update((pre.reg_i + 2) % 4096, pre.reg8[x as int] % 10),
                ..pre
            }),
            Step::Next,
        ),
        Insn::Ld(LdInsn::PtrReg(x)) => r == Ok::<(), VmError>(()) && post == stepped(
            (VmView {
                mem: store_bytes(pre.mem, pre.reg_i as int, pre.reg8.take(x as int + 1)),
                ..pre
            }),
            Step::Next,
        ),
        Insn::Ld(LdInsn::RegPtr(x)) => r == Ok::<(), VmError>(()) && post == stepped(
            (VmView {
                reg8: Seq::new(
                    16,
                    |i: int|
                        if 0 <= i <= x {
                            pre.mem[(pre.reg_i + i) % 4096]
                        } else {
                            pre.reg8[i]
                        },
                ),
                ..pre
            }),
            Step::Next,
        ),
        Insn::Add(AddInsn::RegVal(x, kk)) => r == Ok::<(), VmError>(()) && post == stepped(
            (VmView {
                reg8: pre.reg8.update(x as int, ((pre.reg8[x as int] + kk) % 256) as u8),
                ..pre
            }),
            Step::Next,
        ),
        Insn::Add(AddInsn::RegReg(x, y)) => r == Ok::<(), VmError>(()) && post == stepped(
            (VmView {
                reg8: pre.reg8.update(
                    x as int,
                    ((pre.reg8[x as int] + pre.reg8[y as int]) % 256) as u8,
                ).update(
                    15,
                    (if pre.reg8[x as int] + pre.reg8[y as int] > 255 {
                        1u8
                    } else {
                        0u8
                    }),
                ),
                ..pre
            }),
            Step::Next,
        ),
        Insn::Add(AddInsn::MemReg(x)) => r == Ok::<(), VmError>(()) && post == stepped(
            (VmView { reg_i: ((pre.reg_i + pre.reg8[x as int]) % 0x10000) as u16, ..pre }),
            Step::Next,
        ),
        Insn::Or(i) => r == Ok::<(), VmError>(()) && post == stepped(
            (VmView {
                reg8: pre.reg8.update(i.x as int, pre.reg8[i.x as int] | pre.reg8[i.y as int]),
                ..pre
            }),
            Step::Next,
        ),
        Insn::And(i) => r == Ok::<(), VmError>(()) && post == stepped(
            (VmView {
                reg8: pre.reg8.update(i.x as int, pre.reg8[i.x as int] & pre.reg8[i.y as int]),
                ..pre
            }),
            Step::Next,
        ),
        Insn::Xor(i) => r == Ok::<(), VmError>(()) && post == stepped(
            (VmView {
                reg8: pre.reg8.update(i.x as int, pre.reg8[i.x as int] ^ pre.reg8[i.y as int]),
                ..pre
            }),
            Step::Next,
        ),
        Insn::Sub(i) => r == Ok::<(), VmError>(()) && post == stepped(
            (VmView {
                reg8: pre.reg8.update(
                    i.x as int,
                    ((pre.reg8[i.x as int] - pre.reg8[i.y as int]) % 256) as u8,
                ).update(
                    15,
                    (if pre.reg8[i.x as int] >= pre.reg8[i.y as int] {
                        1u8
                    } else {
                        0u8
                    }),
                ),
                ..pre
            }),
            Step::Next,
        ),
        Insn::Shr(i) => r == Ok::<(), VmError>(()) && post == stepped(
            (VmView {
                reg8: pre.reg8.update(i.x as int, pre.reg8[i.x as int] >> 1).update(
                    15,
                    pre.reg8[i.x as int] & 1,
                ),
                ..pre
            }),
            Step::Next,
        ),
        Insn::SubN(i) => r == Ok::<(), VmError>(()) && post == stepped(
            (VmView {
                reg8: pre.reg8.update(
                    i.x as int,
                    ((pre.reg8[i.y as int] - pre.reg8[i.x as int]) % 256) as u8,
                ).update(
                    15,
                    (if pre.reg8[i.y as int] >= pre.reg8[i.x as int] {
                        1u8
                    } else {
                        0u8
                    }),
                ),
                ..pre
            }),
            Step::Next,
        ),
        Insn::Shl(i) => r == Ok::<(), VmError>(()) && post == stepped(
            (VmView {
                reg8: pre.reg8.update(i.x as int, ((pre.reg8[i.x as int] * 2) % 256) as u8).update(
                    15,
                    pre.reg8[i.x as int] >> 7,
                ),
                ..pre
            }),
            Step::Next,
        ),
        Insn::Rnd(i) => r == Ok::<(), VmError>(()) && (exists|b: u8|
            post == stepped(
                (VmView { reg8: pre.reg8.update(i.x as int, #[trigger] (b & i.val)), ..pre }),
                Step::Next,
            )),
        Insn::Drw(d) => r == Ok::<(), VmError>(()) && post == stepped(
            (VmView {
                vram: draw_rows(
                    pre.vram,
                    (pre.reg8[d.x as int] % 64) as u64,
                    pre.reg8[d.y as int] as int,
                    sprite_at(pre.mem, pre.reg_i as int, d.n as int),
                ),
                reg8: pre.reg8.update(
                    15,
                    (if draw_hits(
                        pre.vram,
                        (pre.reg8[d.x as int] % 64) as u64,
                        pre.reg8[d.y as int] as int,
                        sprite_at(pre.mem, pre.reg_i as int, d.n as int),
                    ) {
                        1u8
                    } else {
                        0u8
                    }),
                ),
                ..pre
            }),
            Step::Next,
        ),
        Insn::Skp(i) => r == Ok::<(), VmError>(()) && post == stepped(
            pre,
            (if key_down(pre.keys, pre.reg8[i.x as int]) {
                Step::Skip
            } else {
                Step::Next
            }),
        ),
        Insn::SkpNp(i) => r == Ok::<(), VmError>(()) && post == stepped(
            pre,
            (if !key_down(pre.keys, pre.reg8[i.x as int]) {
                Step::Skip
            } else {
                Step::Next
            }),
        ),
    }
}

/// How a [`Step`] moves the program counter: `Next` advances one
/// instruction, `Skip` two, `Jump` goes to the address. A beginning key
/// wait also advances past its instruction, so that the machine resumes
/// at the following one once a key arrives; while the wait is pending,
/// steps leave the counter alone.
pub open spec fn stepped(pre: VmView, s: Step) -> VmView {
    match s {
        Step::Next => VmView { reg_pc: advance(pre.reg_pc, 2), ..pre },
        Step::Skip => VmView { reg_pc: advance(pre.reg_pc, 4), ..pre },
        Step::Jump(a) => VmView { reg_pc: a, ..pre },
        Step::WaitKey(reg) => VmView {
            reg_pc: advance(pre.reg_pc, 2),
            wait_key: true,
            wait_key_reg: reg,
            ..pre
        },
    }
}

/// The machine's whole step semantics: what one call of [`Vm::update`]
/// does. While a key wait is pending the step is a no-op. Otherwise the
/// two bytes at the program counter are fetched (reading past the end of
/// memory yields zero bytes) and decoded; an undecodable word fails with
/// [`VmError::BadInsn`] and leaves the state alone, and a decoded
/// instruction acts as [`insn_step`] says.
pub open spec fn step_rel(pre: VmView, post: VmView, r: Result<(), VmError>) -> bool {
    if pre.wait_key {
        post == pre && r == Ok::<(), VmError>(())
    } else {
        let bytes = fetch_opt(pre.mem, pre.reg_pc as int);
        let hi = match bytes {
            Some(b) => b.0,
            None => 0u8,
        };
        let lo = match bytes {
            Some(b) => b.1,
            None => 0u8,
        };
        match decode(hi, lo) {
            None => post == pre && r == Err::<(), VmError>(
                VmError::BadInsn(((hi as u16) << 8) | (lo as u16)),
            ),
            Some(insn) => insn_step(pre, insn, post, r),
        }
    }
}

/// A vector of `len` zero bytes.
pub(crate) fn zeroed(len: usize) -> (r: Vec<u8>)
    ensures
        r@ == Seq::new(len as nat, |i: int| 0u8),
{
    let mut r: Vec<u8> = Vec::new();
    let mut i: usize = 0;
    while i < len
        invariant
            i <= len,
            r@ == Seq::new(i as nat, |j: int| 0u8),
        decreases len - i,
    {
        r.push(0);
        proof {
            assert(r@ =~= Seq::new((i + 1) as nat, |j: int| 0u8));
        }
        i = i + 1;
    }
    r
}

impl Vm {
    /// Well-formedness of the machine state; see [`VmView::wf`].
    pub open spec fn wf(&self) -> bool {
        self@.wf()
    }

    /// Creates a [Vm] in its startup state: the glyph font copied into
    /// the bottom of memory, every other field zeroed, and the program
    /// counter at the program offset. [`Vm::load_program`] puts a program
    /// behind it.
    pub fn new() -> (r: Self)
        ensures
            r@ == initial(),
            r.wf(),
    {
        Self::default()
    }

    /// Loads a program into memory and resets registers, stack, memory,
    /// and vram. Fails with [`VmError::BadProgramTooLarge`] — leaving the
    /// machine untouched — exactly when the program is longer than the
    /// memory past the program offset can hold.
    pub fn load_program(&mut self, program: &[u8]) -> (r: Result<(), VmError>)
        ensures
            program@.len() <= PROG_MAX ==> final(self).wf(),
            old(self).wf() ==> final(self).wf(),
            program@.len() > PROG_MAX ==> r == Err::<(), VmError>(
                VmError::BadProgramTooLarge(program@.len() as usize, PROG_MAX as usize),
            ) && final(self)@ == old(self)@,
            program@.len() <= PROG_MAX ==> r == Ok::<(), VmError>(()) && final(self)@ == loaded(
                old(self)@,
                program@,
            ),
    {
        if program.len() > PROG_MAX {
            return Err(VmError::BadProgramTooLarge(program.len(), PROG_MAX));
        }
        let mut mem = zeroed(MEM_SIZE);
        sprites::copy_to(&mut mem);
        let mut i: usize = 0;
        while i < program.len()
            invariant
                i <= program@.len(),
                program@.len() <= PROG_MAX,
                mem@.len() == MEM_SIZE,
                forall|j: int| 0 <= j < 80 ==> mem@[j] == sprites::font()[j],
                forall|j: int| 80 <= j < PROG_OFF ==> mem@[j] == 0u8,
                forall|j: int|
                    PROG_OFF <= j < PROG_OFF + i ==> mem@[j] == program@[j - PROG_OFF],
                forall|j: int| PROG_OFF + i <= j < MEM_SIZE ==> mem@[j] == 0u8,
            decreases program@.len() - i,
        {
            mem[PROG_OFF + i] = program[i];
            i = i + 1;
        }
        self.mem = mem;
        self.reg8 = [0u8; 16];
        self.reg_i = 0;
        self.reg_dt = 0;
        self.reg_st = 0;
        self.reg_pc = PROG_OFF as u16;
        self.reg_sp = 0;
        self.stack = [0u16; 16];
        self.vram = [0u64; 32];
        self.wait_key = false;
        self.wait_key_reg = 0;
        proof {
            assert(self@.mem =~= loaded(old(self)@, program@).mem);
            assert(self@ =~= loaded(old(self)@, program@));
        }
        Ok(())
    }

    /// Updates the virtual machine: executes one fetch-decode-execute
    /// step, or makes no progress while a key wait is pending. Ideally
    /// this should be executed at 500Hz.
    pub fn update(&mut self) -> (r: Result<(), VmError>)
        requires
            old(self).wf(),
        ensures
            final(self).wf(),
            step_rel(old(self)@, final(self)@, r),
    {
        if self.wait_key {
            return Ok(());
        }
        let (hi, lo) = match self.get_insn_bytes() {
            Some(b) => b,
            None => (0, 0),
        };
        proof {
            lemma_decode_wf(hi, lo);
        }
        let insn = match Insn::from_bytes(hi, lo) {
            Some(insn) => insn,
            None => {
                return Err(VmError::BadInsn(((hi as u16) << 8) | (lo as u16)));
            },
        };
        let step = match insn {
            Insn::Nop => self.nop(),
            Insn::Cls(_) => self.cls(),
            Insn::Ret(_) => self.ret(),
            Insn::Sys(i) => self.sys_nnn(i.addr),
            Insn::Jp(JpInsn::Addr(nnn)) => self.jp_nnn(nnn),
            Insn::Jp(JpInsn::AddrReg(nnn)) => self.jp_0_nnn(nnn),
            Insn::Call(c) => self.call_nnn(c.addr),
            Insn::Se(SeInsn::RegVal(x, kk)) => self.se_x_kk(x, kk),
            Insn::Se(SeInsn::RegReg(x, y)) => self.se_x_y(x, y),
            Insn::SNe(SneInsn::RegVal(x, kk)) => self.sne_x_kk(x, kk),
            Insn::SNe(SneInsn::RegReg(x, y)) => self.sne_x_y(x, y),
            Insn::Ld(LdInsn::RegVal(x, kk)) => self.ld_x_kk(x, kk),
            Insn::Ld(LdInsn::RegReg(x, y)) => self.ld_x_y(x, y),
            Insn::Ld(LdInsn::MemAddr(nnn)) => self.ld_i_nnn(nnn),
            Insn::Ld(LdInsn::RegDt(x)) => self.ld_x_dt(x),
            Insn::Ld(LdInsn::RegKey(x)) => self.ld_x_k(x),
            Insn::Ld(LdInsn::DtReg(x)) => self.ld_dt_x(x),
            Insn::Ld(LdInsn::StReg(x)) => self.ld_st_x(x),
            Insn::Ld(LdInsn::SpriteReg(x)) => self.ld_f_x(x),
            Insn::Ld(LdInsn::BcdReg(x)) => self.ld_b_x(x),
            Insn::Ld(LdInsn::PtrReg(x)) => self.ld_deref_i_x(x),
            Insn::Ld(LdInsn::RegPtr(x)) => self.ld_x_deref_i(x),
            Insn::Add(AddInsn::RegVal(x, kk)) => self.add_x_kk(x, kk),
            Insn::Add(AddInsn::RegReg(x, y)) => self.add_x_y(x, y),
            Insn::Add(AddInsn::MemReg(x)) => self.add_i_x(x),
            Insn::Or(i) => self.or_x_y(i.x, i.y),
            Insn::And(i) => self.and_x_y(i.x, i.y),
            Insn::Xor(i) => self.xor_x_y(i.x, i.y),
            Insn::Sub(i) => self.sub_x_y(i.x, i.y),
            Insn::Shr(i) => self.shr_x_y(i.x, i.y),
            Insn::SubN(i) => self.subn_x_y(i.x, i.y),
            Insn::Shl(i) => self.shl_x_y(i.x, i.y),
            Insn::Rnd(i) => self.rnd(i.x, i.val),
            Insn::Drw(d) => self.drw(d.x, d.y, d.n),
            Insn::Skp(i) => self.skp_x(i.x),
            Insn::SkpNp(i) => self.sknp_x(i.x),
        }?;
        let ghost mid = self@;
        match step {
            Step::Next => {
                self.reg_pc = self.reg_pc.wrapping_add(INSN_SIZE);
            },
            Step::Skip => {
                self.reg_pc = self.reg_pc.wrapping_add(INSN_SIZE * 2);
            },
            Step::Jump(addr) => {
                self.reg_pc = addr;
            },
            Step::WaitKey(reg) => {
                self.reg_pc = self.reg_pc.wrapping_add(INSN_SIZE);
                self.wait_key = true;
                self.wait_key_reg = reg;
            },
        }
        proof {
            assert(self@ =~= stepped(mid, step));
        }
        Ok(())
    }

    /// Updates the virtual machine timers: each counts down toward zero
    /// and stops there. Ideally this should be executed at 60Hz,
    /// independently of the instruction rate.
    pub fn update_timers(&mut self)
        ensures
            final(self)@ == (VmView {
                reg_dt: (if old(self)@.reg_dt > 0 {
                    (old(self)@.reg_dt - 1) as u8
                } else {
                    0u8
                }),
                reg_st: (if old(self)@.reg_st > 0 {
                    (old(self)@.reg_st - 1) as u8
                } else {
                    0u8
                }),
                ..old(self)@
            }),
    {
        self.reg_dt = self.reg_dt.saturating_sub(1);
        self.reg_st = self.reg_st.saturating_sub(1);
        proof {
            assert(self@ =~= (VmView {
                reg_dt: (if old(self)@.reg_dt > 0 {
                    (old(self)@.reg_dt - 1) as u8
                } else {
                    0u8
                }),
                reg_st: (if old(self)@.reg_st > 0 {
                    (old(self)@.reg_st - 1) as u8
                } else {
                    0u8
                }),
                ..old(self)@
            }));
        }
    }

    /// Sends a signal to the virtual machine that a key has been released:
    /// the key leaves the mask and nothing else changes.
    pub fn signal_key_up(&mut self, key: VmKey)
        ensures
            final(self)@ == (VmView { keys: old(self)@.keys & !key.bits, ..old(self)@ }),
    {
        self.keys.remove(key);
        proof {
            assert(self@ =~= (VmView { keys: old(self)@.keys & !key.bits, ..old(self)@ }));
        }
    }

    /// Sends a signal to the virtual machine that a key has been pressed:
    /// the key enters the mask, and if a key wait was pending it is
    /// resolved — the waiting register receives the key code and the
    /// machine runs again from the next step on.
    pub fn signal_key_down(&mut self, key: VmKey)
        requires
            old(self).wf(),
        ensures
            final(self).wf(),
            !old(self)@.wait_key ==> final(self)@ == (VmView {
                keys: old(self)@.keys | key.bits,
                ..old(self)@
            }),
            old(self)@.wait_key ==> final(self)@ == (VmView {
                keys: old(self)@.keys | key.bits,
                wait_key: false,
                reg8: old(self)@.reg8.update(
                    old(self)@.wait_key_reg as int,
                    key_code_of(key.bits),
                ),
                ..old(self)@
            }),
    {
        self.keys.insert(key);
        if self.wait_key {
            self.wait_key = false;
            let code: u8 = key.into();
            self.reg8[self.wait_key_reg as usize] = code;
            proof {
                assert(self@ =~= (VmView {
                    keys: old(self)@.keys | key.bits,
                    wait_key: false,
                    reg8: old(self)@.reg8.update(
                        old(self)@.wait_key_reg as int,
                        key_code_of(key.bits),
                    ),
                    ..old(self)@
                }));
            }
        } else {
            proof {
                assert(self@ =~= (VmView { keys: old(self)@.keys | key.bits, ..old(self)@ }));
            }
        }
    }

    /// The two big-endian instruction bytes at the program counter, if
    /// both lie inside memory.
    pub fn get_insn_bytes(&self) -> (r: Option<(u8, u8)>)
        ensures
            r == fetch_opt(self@.mem, self@.reg_pc as int),
    {
        self.get_insn_bytes_at(self.reg_pc as usize)
    }

    /// The two big-endian instruction bytes at offset `i`, if both lie
    /// inside memory.
    pub fn get_insn_bytes_at(&self, i: usize) -> (r: Option<(u8, u8)>)
        ensures
            r == fetch_opt(self@.mem, i as int),
    {
        if self.mem.len() < 2 || i > self.mem.len() - 2 {
            None
        } else {
            Some((self.mem[i], self.mem[i + 1]))
        }
    }
}

impl Default for Vm {
    /// Creates a [Vm] in its startup state; see [`Vm::new`].
    fn default() -> (r: Self)
        ensures
            r@ == initial(),
            r.wf(),
    {
        let mut mem = zeroed(MEM_SIZE);
        sprites::copy_to(&mut mem);
        let r = Vm {
            mem,
            reg8: [0u8; 16],
            reg_i: 0,
            reg_dt: 0,
            reg_st: 0,
            reg_pc: PROG_OFF as u16,
            reg_sp: 0,
            stack: [0u16; 16],
            vram: [0u64; 32],
            keys: VmKey::empty(),
            wait_key: false,
            wait_key_reg: 0,
        };
        proof {
            assert(r@.mem =~= initial().mem);
            assert(r@ =~= initial());
        }
        r
    }
}

} // verus!
