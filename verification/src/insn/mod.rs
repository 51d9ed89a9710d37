//! Instruction parsing.
//!
//! A CHIP-8 opcode is a 16-bit word stored big-endian. Decoding splits it
//! into four 4-bit nibbles and derives the conventional operand fields:
//! `nnn` (low 12 bits), `kk` (low byte), `x` (second nibble), `y` (third
//! nibble), `n` (low nibble). Exactly 35 opcode forms are recognized; any
//! other word fails to decode, which becomes an error only if the engine
//! tries to execute it.

use vstd::prelude::*;

use self::insns::{
    AddInsn, AndInsn, CallInsn, ClsInsn, DrwInsn, JpInsn, LdInsn, OrInsn, RetInsn, RndInsn, SeInsn,
    ShlInsn, ShrInsn, SkpInsn, SkpNpInsn, SneInsn, SubInsn, SubNInsn, SysInsn, XorInsn,
};

pub mod insns;
pub mod insns_into;

verus! {

/// An instruction.
#[derive(Clone, Copy, Debug, PartialEq, Eq, Structural)]
pub enum Insn {
    Nop,
    Cls(ClsInsn),
    Ret(RetInsn),
    Sys(SysInsn),
    Jp(JpInsn),
    Call(CallInsn),
    Se(SeInsn),
    SNe(SneInsn),
    Ld(LdInsn),
    Add(AddInsn),
    Or(OrInsn),
    And(AndInsn),
    Xor(XorInsn),
    Sub(SubInsn),
    Shr(ShrInsn),
    SubN(SubNInsn),
    Shl(ShlInsn),
    Rnd(RndInsn),
    Drw(DrwInsn),
    Skp(SkpInsn),
    SkpNp(SkpNpInsn),
}

/// The meaning of a 16-bit opcode word given as its two big-endian bytes:
/// `Some` of the decoded instruction, or `None` for the 16-bit patterns
/// outside the 35 recognized forms.
pub open spec fn decode(hi: u8, lo: u8) -> Option<Insn> {
    let n0 = hi >> 4;
    let n1 = hi & 0x0f;
    let n2 = lo >> 4;
    let n3 = lo & 0x0f;
    let nnn = (((hi & 0x0f) as u16) << 8) | (lo as u16);
    match (n0, n1, n2, n3) {
        (0x0, 0x0, 0x0, 0x0) => Some(Insn::Nop),
        (0x0, 0x0, 0xe, 0x0) => Some(Insn::Cls(ClsInsn)),
        (0x0, 0x0, 0xe, 0xe) => Some(Insn::Ret(RetInsn)),
        (0x0, _, _, _) => Some(Insn::Sys(SysInsn { addr: nnn })),
        (0x1, _, _, _) => Some(Insn::Jp(JpInsn::Addr(nnn))),
        (0x2, _, _, _) => Some(Insn::Call(CallInsn { addr: nnn })),
        (0x3, _, _, _) => Some(Insn::Se(SeInsn::RegVal(n1, lo))),
        (0x4, _, _, _) => Some(Insn::SNe(SneInsn::RegVal(n1, lo))),
        (0x5, _, _, 0x0) => Some(Insn::Se(SeInsn::RegReg(n1, n2))),
        (0x6, _, _, _) => Some(Insn::Ld(LdInsn::RegVal(n1, lo))),
        (0x7, _, _, _) => Some(Insn::Add(AddInsn::RegVal(n1, lo))),
        (0x8, _, _, 0x0) => Some(Insn::Ld(LdInsn::RegReg(n1, n2))),
        (0x8, _, _, 0x1) => Some(Insn::Or(OrInsn { x: n1, y: n2 })),
        (0x8, _, _, 0x2) => Some(Insn::And(AndInsn { x: n1, y: n2 })),
        (0x8, _, _, 0x3) => Some(Insn::Xor(XorInsn { x: n1, y: n2 })),
        (0x8, _, _, 0x4) => Some(Insn::Add(AddInsn::RegReg(n1, n2))),
        (0x8, _, _, 0x5) => Some(Insn::Sub(SubInsn { x: n1, y: n2 })),
        (0x8, _, _, 0x6) => Some(Insn::Shr(ShrInsn { x: n1, y: n2 })),
        (0x8, _, _, 0x7) => Some(Insn::SubN(SubNInsn { x: n1, y: n2 })),
        (0x8, _, _, 0xe) => Some(Insn::Shl(ShlInsn { x: n1, y: n2 })),
        (0x9, _, _, 0x0) => Some(Insn::SNe(SneInsn::RegReg(n1, n2))),
        (0xa, _, _, _) => Some(Insn::Ld(LdInsn::MemAddr(nnn))),
        (0xb, _, _, _) => Some(Insn::Jp(JpInsn::AddrReg(nnn))),
        (0xc, _, _, _) => Some(Insn::Rnd(RndInsn { x: n1, val: lo })),
        (0xd, _, _, _) => Some(Insn::Drw(DrwInsn { x: n1, y: n2, n: n3 })),
        (0xe, _, 0x9, 0xe) => Some(Insn::Skp(SkpInsn { x: n1 })),
        (0xe, _, 0xa, 0x1) => Some(Insn::SkpNp(SkpNpInsn { x: n1 })),
        (0xf, _, 0x0, 0x7) => Some(Insn::Ld(LdInsn::RegDt(n1))),
        (0xf, _, 0x0, 0xa) => Some(Insn::Ld(LdInsn::RegKey(n1))),
        (0xf, _, 0x1, 0x5) => Some(Insn::Ld(LdInsn::DtReg(n1))),
        (0xf, _, 0x1, 0x8) => Some(Insn::Ld(LdInsn::StReg(n1))),
        (0xf, _, 0x1, 0xe) => Some(Insn::Add(AddInsn::MemReg(n1))),
        (0xf, _, 0x2, 0x9) => Some(Insn::Ld(LdInsn::SpriteReg(n1))),
        (0xf, _, 0x3, 0x3) => Some(Insn::Ld(LdInsn::BcdReg(n1))),
        (0xf, _, 0x5, 0x5) => Some(Insn::Ld(LdInsn::PtrReg(n1))),
        (0xf, _, 0x6, 0x5) => Some(Insn::Ld(LdInsn::RegPtr(n1))),
        _ => None,
    }
}

/// Every register operand of a decoded instruction names one of the 16
/// registers, every address fits in 12 bits, and a sprite height fits in a
/// nibble.
pub open spec fn insn_wf(insn: Insn) -> bool {
    match insn {
        Insn::Nop => true,
        Insn::Cls(_) => true,
        Insn::Ret(_) => true,
        Insn::Sys(i) => i.addr < 0x1000,
        Insn::Jp(JpInsn::Addr(nnn)) => nnn < 0x1000,
        Insn::Jp(JpInsn::AddrReg(nnn)) => nnn < 0x1000,
        Insn::Call(i) => i.addr < 0x1000,
        Insn::Se(SeInsn::RegVal(x, _)) => x < 16,
        Insn::Se(SeInsn::RegReg(x, y)) => x < 16 && y < 16,
        Insn::SNe(SneInsn::RegVal(x, _)) => x < 16,
        Insn::SNe(SneInsn::RegReg(x, y)) => x < 16 && y < 16,
        Insn::Ld(LdInsn::RegVal(x, _)) => x < 16,
        Insn::Ld(LdInsn::RegReg(x, y)) => x < 16 && y < 16,
        Insn::Ld(LdInsn::MemAddr(nnn)) => nnn < 0x1000,
        Insn::Ld(LdInsn::RegDt(x)) => x < 16,
        Insn::Ld(LdInsn::RegKey(x)) => x < 16,
        Insn::Ld(LdInsn::DtReg(x)) => x < 16,
        Insn::Ld(LdInsn::StReg(x)) => x < 16,
        Insn::Ld(LdInsn::SpriteReg(x)) => x < 16,
        Insn::Ld(LdInsn::BcdReg(x)) => x < 16,
        Insn::Ld(LdInsn::PtrReg(x)) => x < 16,
        Insn::Ld(LdInsn::RegPtr(x)) => x < 16,
        Insn::Add(AddInsn::RegVal(x, _)) => x < 16,
        Insn::Add(AddInsn::RegReg(x, y)) => x < 16 && y < 16,
        Insn::Add(AddInsn::MemReg(x)) => x < 16,
        Insn::Or(i) => i.x < 16 && i.y < 16,
        Insn::And(i) => i.x < 16 && i.y < 16,
        Insn::Xor(i) => i.x < 16 && i.y < 16,
        Insn::Sub(i) => i.x < 16 && i.y < 16,
        Insn::Shr(i) => i.x < 16 && i.y < 16,
        Insn::SubN(i) => i.x < 16 && i.y < 16,
        Insn::Shl(i) => i.x < 16 && i.y < 16,
        Insn::Rnd(i) => i.x < 16,
        Insn::Drw(i) => i.x < 16 && i.y < 16 && i.n < 16,
        Insn::Skp(i) => i.x < 16,
        Insn::SkpNp(i) => i.x < 16,
    }
}

/// The four nibbles of an opcode word are below 16 and its low 12 bits are
/// below 0x1000.
pub proof fn lemma_nibble_bounds(hi: u8, lo: u8)
    by (bit_vector)
    ensures
        hi >> 4 < 16,
        hi & 0x0f < 16,
        lo >> 4 < 16,
        lo & 0x0f < 16,
        ((((hi & 0x0f) as u16) << 8) | (lo as u16)) < 0x1000,
{
}

/// Whatever decodes, decodes well-formed.
pub proof fn lemma_decode_wf(hi: u8, lo: u8)
    ensures
        decode(hi, lo) matches Some(insn) ==> insn_wf(insn),
{
    lemma_nibble_bounds(hi, lo);
}

impl Insn {
    /// Decodes an instruction from the two big-endian bytes of its opcode
    /// word, or returns `None` for an unrecognized pattern.
    pub fn from_bytes(hi: u8, lo: u8) -> (r: Option<Self>)
        ensures
            r == decode(hi, lo),
    {
        let n0 = hi >> 4;
        let n1 = hi & 0x0f;
        let n2 = lo >> 4;
        let n3 = lo & 0x0f;
        let nnn = (((hi & 0x0f) as u16) << 8) | (lo as u16);
        match (n0, n1, n2, n3) {
            (0x0, 0x0, 0x0, 0x0) => Some(Insn::Nop),
            (0x0, 0x0, 0xe, 0x0) => Some(Insn::Cls(ClsInsn)),
            (0x0, 0x0, 0xe, 0xe) => Some(Insn::Ret(RetInsn)),
            (0x0, _, _, _) => Some(Insn::Sys(SysInsn { addr: nnn })),
            (0x1, _, _, _) => Some(Insn::Jp(JpInsn::Addr(nnn))),
            (0x2, _, _, _) => Some(Insn::Call(CallInsn { addr: nnn })),
            (0x3, _, _, _) => Some(Insn::Se(SeInsn::RegVal(n1, lo))),
            (0x4, _, _, _) => Some(Insn::SNe(SneInsn::RegVal(n1, lo))),
            (0x5, _, _, 0x0) => Some(Insn::Se(SeInsn::RegReg(n1, n2))),
            (0x6, _, _, _) => Some(Insn::Ld(LdInsn::RegVal(n1, lo))),
            (0x7, _, _, _) => Some(Insn::Add(AddInsn::RegVal(n1, lo))),
            (0x8, _, _, 0x0) => Some(Insn::Ld(LdInsn::RegReg(n1, n2))),
            (0x8, _, _, 0x1) => Some(Insn::Or(OrInsn { x: n1, y: n2 })),
            (0x8, _, _, 0x2) => Some(Insn::And(AndInsn { x: n1, y: n2 })),
            (0x8, _, _, 0x3) => Some(Insn::Xor(XorInsn { x: n1, y: n2 })),
            (0x8, _, _, 0x4) => Some(Insn::Add(AddInsn::RegReg(n1, n2))),
            (0x8, _, _, 0x5) => Some(Insn::Sub(SubInsn { x: n1, y: n2 })),
            (0x8, _, _, 0x6) => Some(Insn::Shr(ShrInsn { x: n1, y: n2 })),
            (0x8, _, _, 0x7) => Some(Insn::SubN(SubNInsn { x: n1, y: n2 })),
            (0x8, _, _, 0xe) => Some(Insn::Shl(ShlInsn { x: n1, y: n2 })),
            (0x9, _, _, 0x0) => Some(Insn::SNe(SneInsn::RegReg(n1, n2))),
            (0xa, _, _, _) => Some(Insn::Ld(LdInsn::MemAddr(nnn))),
            (0xb, _, _, _) => Some(Insn::Jp(JpInsn::AddrReg(nnn))),
            (0xc, _, _, _) => Some(Insn::Rnd(RndInsn { x: n1, val: lo })),
            (0xd, _, _, _) => Some(Insn::Drw(DrwInsn { x: n1, y: n2, n: n3 })),
            (0xe, _, 0x9, 0xe) => Some(Insn::Skp(SkpInsn { x: n1 })),
            (0xe, _, 0xa, 0x1) => Some(Insn::SkpNp(SkpNpInsn { x: n1 })),
            (0xf, _, 0x0, 0x7) => Some(Insn::Ld(LdInsn::RegDt(n1))),
            (0xf, _, 0x0, 0xa) => Some(Insn::Ld(LdInsn::RegKey(n1))),
            (0xf, _, 0x1, 0x5) => Some(Insn::Ld(LdInsn::DtReg(n1))),
            (0xf, _, 0x1, 0x8) => Some(Insn::Ld(LdInsn::StReg(n1))),
            (0xf, _, 0x1, 0xe) => Some(Insn::Add(AddInsn::MemReg(n1))),
            (0xf, _, 0x2, 0x9) => Some(Insn::Ld(LdInsn::SpriteReg(n1))),
            (0xf, _, 0x3, 0x3) => Some(Insn::Ld(LdInsn::BcdReg(n1))),
            (0xf, _, 0x5, 0x5) => Some(Insn::Ld(LdInsn::PtrReg(n1))),
            (0xf, _, 0x6, 0x5) => Some(Insn::Ld(LdInsn::RegPtr(n1))),
            _ => None,
        }
    }
}

} // verus!
