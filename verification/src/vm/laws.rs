//! Laws of the execution engine: consequences of the step semantics that
//! hold for every machine state, written out as proof functions.

use vstd::prelude::*;

use crate::insn::{insns::AddInsn, insns::DrwInsn, insns::SubInsn, Insn};

use super::draw::{lemma_draw_twice, row_mask, sprite_at};
use super::error::VmError;
use super::flags::{key_code_of, key_mask_of, lemma_key_code_roundtrip};
use super::{insn_step, VmView};

verus! {

/// For all register values `a` and `b`: executing AddReg and then
/// inspecting VF matches whether the unsigned sum `a + b` exceeds 255,
/// and the destination register receives the sum modulo 256.
pub proof fn lemma_add_reg_carry(pre: VmView, post: VmView, x: u8, y: u8, r: Result<(), VmError>)
    requires
        pre.wf(),
        x < 16,
        y < 16,
        insn_step(pre, Insn::Add(AddInsn::RegReg(x, y)), post, r),
    ensures
        r == Ok::<(), VmError>(()),
        post.reg8[15] == (if pre.reg8[x as int] + pre.reg8[y as int] > 255 {
            1u8
        } else {
            0u8
        }),
        x != 15 ==> post.reg8[x as int] == ((pre.reg8[x as int] + pre.reg8[y as int]) % 256) as u8,
{
}

/// For all register values `a` in Vx and `b` in Vy: executing SubtractReg
/// sets VF to 1 exactly when `a >= b` (no borrow), and — as long as Vx is
/// not VF itself, which the flag overwrites — leaves `(a - b) mod 256` in
/// Vx.
pub proof fn lemma_sub_reg_no_borrow(pre: VmView, post: VmView, x: u8, y: u8, r: Result<
    (),
    VmError,
>)
    requires
        pre.wf(),
        x < 16,
        y < 16,
        insn_step(pre, Insn::Sub(SubInsn { x, y }), post, r),
    ensures
        r == Ok::<(), VmError>(()),
        post.reg8[15] == (if pre.reg8[x as int] >= pre.reg8[y as int] {
            1u8
        } else {
            0u8
        }),
        x != 15 ==> post.reg8[x as int] == ((pre.reg8[x as int] - pre.reg8[y as int]) % 256) as u8,
{
}

/// Executing DrawSprite twice in a row with the same operands — so the
/// same sprite bytes, the same position registers, neither of them VF —
/// restores every framebuffer pixel to what it was before the first
/// draw, and the second draw reports a collision in VF exactly when the
/// first draw turned some pixel on.
pub proof fn lemma_draw_twice_machine(
    pre: VmView,
    mid: VmView,
    post: VmView,
    x: u8,
    y: u8,
    n: u8,
    r1: Result<(), VmError>,
    r2: Result<(), VmError>,
)
    requires
        pre.wf(),
        x < 16,
        y < 16,
        n < 16,
        x != 15,
        y != 15,
        insn_step(pre, Insn::Drw(DrwInsn { x, y, n }), mid, r1),
        insn_step(mid, Insn::Drw(DrwInsn { x, y, n }), post, r2),
    ensures
        post.vram == pre.vram,
        post.reg8[15] == (if exists|i: int|
            0 <= i < n && (row_mask(
                sprite_at(pre.mem, pre.reg_i as int, n as int)[i],
                (pre.reg8[x as int] % 64) as u64,
            ) & !pre.vram[(pre.reg8[y as int] + i) % 32]) != 0 {
            1u8
        } else {
            0u8
        }),
{
    let xc = (pre.reg8[x as int] % 64) as u64;
    let y0 = pre.reg8[y as int] as int;
    let sprite = sprite_at(pre.mem, pre.reg_i as int, n as int);
    assert(mid.mem == pre.mem);
    assert(mid.reg_i == pre.reg_i);
    assert(mid.reg8[x as int] == pre.reg8[x as int]);
    assert(mid.reg8[y as int] == pre.reg8[y as int]);
    assert(sprite_at(mid.mem, mid.reg_i as int, n as int) == sprite);
    lemma_draw_twice(pre.vram, xc, y0, sprite);
}

/// A key-down signal that resolves a pending wait stores the very key
/// code that was pressed into the waited-for register: what
/// [`super::Vm::signal_key_down`] promises, read back through the key
/// mask conversions.
pub proof fn lemma_wait_resolution_stores_key(pre: VmView, post: VmView, key: u8)
    requires
        pre.wf(),
        pre.wait_key,
        key < 16,
        post == (VmView {
            keys: pre.keys | key_mask_of(key),
            wait_key: false,
            reg8: pre.reg8.update(pre.wait_key_reg as int, key_code_of(key_mask_of(key))),
            ..pre
        }),
    ensures
        post.reg8[pre.wait_key_reg as int] == key,
{
    lemma_key_code_roundtrip(key);
}

} // verus!
