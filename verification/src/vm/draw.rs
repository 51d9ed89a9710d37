//! Sprite drawing.
//!
//! The framebuffer is 64×32 monochrome pixels, held as 32 rows of one
//! `u64` each; the pixel at column `px` of a row is bit `63 - px` of the
//! row word, so column 0 is the most significant bit.
//!
//! A sprite is `n` bytes read from memory; byte `i` is row `i` of the
//! sprite, its most significant bit leftmost. Drawing XORs each sprite bit
//! into the pixel at `((Vx + col) mod 64, (Vy + row) mod 32)` — wraparound
//! on both axes, not clipping — and reports a collision when any pixel
//! goes from set to unset.

use vstd::prelude::*;

use super::error::VmError;
use super::exec::Step;
use super::{Vm, VmView, MEM_SIZE};

verus! {

/// True when the pixel at column `px` of the framebuffer row `row` is set.
pub open spec fn vram_bit(row: u64, px: int) -> bool {
    (row >> ((63 - px) as u64)) & 1 == 1
}

/// True when bit `c` of a sprite byte is set, counting its leftmost
/// (most significant) bit as 0.
pub open spec fn byte_bit(b: u8, c: int) -> bool {
    (b >> ((7 - c) as u8)) & 1 == 1
}

/// The framebuffer row holding sprite byte `b` at column offset `x`: bit
/// `c` of `b` lands on column `(x + c) mod 64`. This is the eight bits of
/// `b` placed leftmost and then rotated right by `x`.
pub open spec fn row_mask(b: u8, x: u64) -> u64 {
    if x == 0 {
        (b as u64) << 56
    } else {
        (((b as u64) << 56) >> x) | (((b as u64) << 56) << ((64 - x) as u64))
    }
}

/// The `n` sprite bytes starting at memory address `addr`, each address
/// taken modulo the memory size.
pub open spec fn sprite_at(mem: Seq<u8>, addr: int, n: int) -> Seq<u8> {
    Seq::new(n as nat, |i: int| mem[(addr + i) % 4096])
}

/// The framebuffer after XOR-drawing the sprite rows, one per row from
/// `y` downward with wraparound.
pub open spec fn draw_rows(vram: Seq<u64>, x: u64, y: int, sprite: Seq<u8>) -> Seq<u64>
    decreases sprite.len(),
{
    if sprite.len() == 0 {
        vram
    } else {
        let r = y % 32;
        let updated = vram.update(r, vram[r] ^ row_mask(sprite[0], x));
        draw_rows(updated, x, y + 1, sprite.subrange(1, sprite.len() as int))
    }
}

/// True when drawing the sprite turns some set pixel unset: the collision
/// that the draw instruction reports in VF.
pub open spec fn draw_hits(vram: Seq<u64>, x: u64, y: int, sprite: Seq<u8>) -> bool
    decreases sprite.len(),
{
    if sprite.len() == 0 {
        false
    } else {
        let r = y % 32;
        let updated = vram.update(r, vram[r] ^ row_mask(sprite[0], x));
        (vram[r] & row_mask(sprite[0], x)) != 0 || draw_hits(
            updated,
            x,
            y + 1,
            sprite.subrange(1, sprite.len() as int),
        )
    }
}

/// The memory after storing the bytes `vals` in order starting at address
/// `addr`, each address taken modulo the memory size.
pub open spec fn store_bytes(mem: Seq<u8>, addr: int, vals: Seq<u8>) -> Seq<u8>
    decreases vals.len(),
{
    if vals.len() == 0 {
        mem
    } else {
        store_bytes(mem.update(addr % 4096, vals[0]), addr + 1, vals.subrange(1, vals.len() as int))
    }
}

/// Storing one more byte stores the shorter run first and then the byte,
/// at the address just past the run.
pub proof fn lemma_store_bytes_push(mem: Seq<u8>, addr: int, vals: Seq<u8>, b: u8)
    ensures
        store_bytes(mem, addr, vals.push(b)) == store_bytes(mem, addr, vals).update(
            (addr + vals.len()) % 4096,
            b,
        ),
    decreases vals.len(),
{
    if vals.len() == 0 {
        reveal_with_fuel(store_bytes, 3);
        assert(vals.push(b)[0] == b);
        assert(vals.push(b).subrange(1, 1) =~= Seq::<u8>::empty());
        assert(store_bytes(mem, addr, vals.push(b)) == mem.update(addr % 4096, b));
    } else {
        let rest = vals.subrange(1, vals.len() as int);
        assert(vals.push(b).subrange(1, vals.len() as int + 1) =~= rest.push(b));
        assert(vals.push(b)[0] == vals[0]);
        lemma_store_bytes_push(mem.update(addr % 4096, vals[0]), addr + 1, rest, b);
    }
}

/// Drawing one more sprite row draws the shorter sprite first and then
/// XORs the extra row in, at the row just past the sprite.
pub proof fn lemma_draw_push(vram: Seq<u64>, x: u64, y: int, sprite: Seq<u8>, b: u8)
    ensures
        draw_rows(vram, x, y, sprite.push(b)) == ({
            let w = draw_rows(vram, x, y, sprite);
            let r = (y + sprite.len()) % 32;
            w.update(r, w[r] ^ row_mask(b, x))
        }),
        draw_hits(vram, x, y, sprite.push(b)) == (draw_hits(vram, x, y, sprite) || (draw_rows(
            vram,
            x,
            y,
            sprite,
        )[(y + sprite.len()) % 32] & row_mask(b, x)) != 0),
    decreases sprite.len(),
{
    if sprite.len() == 0 {
        reveal_with_fuel(draw_rows, 3);
        reveal_with_fuel(draw_hits, 3);
        assert(sprite.push(b)[0] == b);
        assert(sprite.push(b).subrange(1, 1) =~= Seq::<u8>::empty());
    } else {
        let rest = sprite.subrange(1, sprite.len() as int);
        assert(sprite.push(b).subrange(1, sprite.len() as int + 1) =~= rest.push(b));
        assert(sprite.push(b)[0] == sprite[0]);
        let r0 = y % 32;
        let updated = vram.update(r0, vram[r0] ^ row_mask(sprite[0], x));
        lemma_draw_push(updated, x, y + 1, rest, b);
    }
}

/// The length of the framebuffer is unchanged by a draw.
pub proof fn lemma_draw_rows_len(vram: Seq<u64>, x: u64, y: int, sprite: Seq<u8>)
    requires
        vram.len() == 32,
    ensures
        draw_rows(vram, x, y, sprite).len() == 32,
    decreases sprite.len(),
{
    if sprite.len() > 0 {
        let r = y % 32;
        let updated = vram.update(r, vram[r] ^ row_mask(sprite[0], x));
        lemma_draw_rows_len(updated, x, y + 1, sprite.subrange(1, sprite.len() as int));
    }
}

/// What a draw leaves in each framebuffer row: a sprite of at most 32
/// rows touches each row at most once, so row `r` is either XORed with
/// the mask of the one sprite byte that lands on it, or left alone.
pub proof fn lemma_draw_rows_index(vram: Seq<u64>, x: u64, y: int, sprite: Seq<u8>, r: int)
    requires
        vram.len() == 32,
        0 <= y,
        sprite.len() <= 32,
        0 <= r < 32,
    ensures
        draw_rows(vram, x, y, sprite)[r] == ({
            let d = (r - y) % 32;
            if d < sprite.len() {
                vram[r] ^ row_mask(sprite[d], x)
            } else {
                vram[r]
            }
        }),
    decreases sprite.len(),
{
    lemma_draw_rows_len(vram, x, y, sprite);
    if sprite.len() > 0 {
        let r0 = y % 32;
        let updated = vram.update(r0, vram[r0] ^ row_mask(sprite[0], x));
        let rest = sprite.subrange(1, sprite.len() as int);
        lemma_draw_rows_index(updated, x, y + 1, rest, r);
        let d = (r - y) % 32;
        let d1 = (r - (y + 1)) % 32;
        if d == 0 {
            assert(r == r0);
            assert(d1 == 31);
        } else {
            assert(r != r0);
            assert(d1 == d - 1);
        }
    }
}

/// When a draw reports a collision: exactly when some sprite row overlaps
/// a set pixel of the framebuffer as it stood before the draw (a sprite
/// of at most 32 rows never overlaps its own freshly drawn rows).
pub proof fn lemma_draw_hits_iff(vram: Seq<u64>, x: u64, y: int, sprite: Seq<u8>)
    requires
        vram.len() == 32,
        0 <= y,
        sprite.len() <= 32,
    ensures
        draw_hits(vram, x, y, sprite) == (exists|i: int|
            0 <= i < sprite.len() && (vram[(y + i) % 32] & row_mask(sprite[i], x)) != 0),
    decreases sprite.len(),
{
    if sprite.len() == 0 {
        assert(!(exists|i: int|
            0 <= i < sprite.len() && (vram[(y + i) % 32] & row_mask(sprite[i], x)) != 0));
    } else {
        let r0 = y % 32;
        let m0 = row_mask(sprite[0], x);
        let updated = vram.update(r0, vram[r0] ^ m0);
        let rest = sprite.subrange(1, sprite.len() as int);
        lemma_draw_hits_iff(updated, x, y + 1, rest);
        assert forall|j: int| 0 <= j < rest.len() implies (updated[(y + 1 + j) % 32] & row_mask(
            rest[j],
            x,
        )) == (vram[(y + 1 + j) % 32] & row_mask(sprite[j + 1], x)) by {
            assert((y + 1 + j) % 32 != r0);
        }
        if draw_hits(vram, x, y, sprite) {
            if (vram[r0] & m0) != 0 {
                assert(0 <= 0 < sprite.len() && (vram[(y + 0) % 32] & row_mask(sprite[0], x))
                    != 0);
            } else {
                let j = choose|j: int|
                    0 <= j < rest.len() && (updated[(y + 1 + j) % 32] & row_mask(rest[j], x)) != 0;
                assert(0 <= j + 1 < sprite.len() && (vram[(y + (j + 1)) % 32] & row_mask(
                    sprite[j + 1],
                    x,
                )) != 0);
            }
        }
        if exists|i: int|
            0 <= i < sprite.len() && (vram[(y + i) % 32] & row_mask(sprite[i], x)) != 0 {
            let i = choose|i: int|
                0 <= i < sprite.len() && (vram[(y + i) % 32] & row_mask(sprite[i], x)) != 0;
            if i == 0 {
                assert(draw_hits(vram, x, y, sprite));
            } else {
                assert(0 <= i - 1 < rest.len() && (updated[(y + 1 + (i - 1)) % 32] & row_mask(
                    rest[i - 1],
                    x,
                )) != 0);
                assert(draw_hits(vram, x, y, sprite));
            }
        }
    }
}

/// XORing a mask into a word twice gives the word back.
pub proof fn lemma_xor_cancel(a: u64, m: u64)
    by (bit_vector)
    ensures
        (a ^ m) ^ m == a,
{
}

/// After a mask is XORed in, it overlaps the result exactly where it
/// overlaps the cleared bits of the original word.
pub proof fn lemma_xor_overlap(a: u64, m: u64)
    by (bit_vector)
    ensures
        ((a ^ m) & m) == (m & !a),
{
}

/// Which framebuffer bit a sprite byte reaches: the mask of byte `b` at
/// column offset `x` has the bit for column `p` set exactly when `p` is
/// one of the eight wrapped columns `(x + c) mod 64` and bit `c` of `b`
/// is set.
pub proof fn lemma_row_mask_bit(b: u8, x: u64, p: u64)
    by (bit_vector)
    requires
        x < 64,
        p < 64,
    ensures
        ((row_mask(b, x) >> ((63 - p) as u64)) & 1 == 1) == ({
            let c = (p + 64 - x) % 64;
            c < 8 && ((b >> ((7 - c) as u8)) & 1 == 1)
        }),
{
}

/// After the display is cleared, reading any pixel of the framebuffer
/// yields unset.
pub proof fn lemma_cleared_pixels_dark(px: int, py: int)
    requires
        0 <= px < 64,
        0 <= py < 32,
    ensures
        !vram_bit(super::zero_rows()[py], px),
{
    let sh = (63 - px) as u64;
    assert((0u64 >> sh) & 1 == 0) by (bit_vector);
}

/// Which pixel a sprite byte reaches, in pixel terms: drawing byte `b` at
/// column offset `x` puts its bit `c` on column `(x + c) mod 64` and
/// nothing anywhere else.
pub proof fn lemma_row_mask_pixel(b: u8, x: u64, p: int)
    requires
        x < 64,
        0 <= p < 64,
    ensures
        vram_bit(row_mask(b, x), p) == ({
            let c = (p + 64 - x) % 64;
            c < 8 && byte_bit(b, c)
        }),
{
    lemma_row_mask_bit(b, x, p as u64);
}

/// Drawing the identical sprite twice at the identical position restores
/// the framebuffer, and the second draw reports a collision exactly when
/// the first draw turned some pixel on.
pub proof fn lemma_draw_twice(vram: Seq<u64>, x: u64, y: int, sprite: Seq<u8>)
    requires
        vram.len() == 32,
        0 <= y,
        sprite.len() <= 32,
    ensures
        draw_rows(draw_rows(vram, x, y, sprite), x, y, sprite) == vram,
        draw_hits(draw_rows(vram, x, y, sprite), x, y, sprite) == (exists|i: int|
            0 <= i < sprite.len() && (row_mask(sprite[i], x) & !vram[(y + i) % 32]) != 0),
{
    let v1 = draw_rows(vram, x, y, sprite);
    lemma_draw_rows_len(vram, x, y, sprite);
    assert forall|r: int| 0 <= r < 32 implies draw_rows(v1, x, y, sprite)[r] == vram[r] by {
        lemma_draw_rows_index(vram, x, y, sprite, r);
        lemma_draw_rows_index(v1, x, y, sprite, r);
        let d = (r - y) % 32;
        if d < sprite.len() {
            lemma_xor_cancel(vram[r], row_mask(sprite[d], x));
        }
    }
    lemma_draw_rows_len(v1, x, y, sprite);
    assert(draw_rows(v1, x, y, sprite) =~= vram);
    lemma_draw_hits_iff(v1, x, y, sprite);
    assert forall|i: int| 0 <= i < sprite.len() implies ((v1[(y + i) % 32] & row_mask(
        sprite[i],
        x,
    )) != 0) == ((row_mask(sprite[i], x) & !vram[(y + i) % 32]) != 0) by {
        let r = (y + i) % 32;
        lemma_draw_rows_index(vram, x, y, sprite, r);
        assert((r - y) % 32 == i % 32);
        assert(i % 32 == i);
        lemma_xor_overlap(vram[r], row_mask(sprite[i], x));
    }
    assert(draw_hits(v1, x, y, sprite) == (exists|i: int|
        0 <= i < sprite.len() && (row_mask(sprite[i], x) & !vram[(y + i) % 32]) != 0)) by {
        if draw_hits(v1, x, y, sprite) {
            let i = choose|i: int|
                0 <= i < sprite.len() && (v1[(y + i) % 32] & row_mask(sprite[i], x)) != 0;
            assert(0 <= i < sprite.len() && (row_mask(sprite[i], x) & !vram[(y + i) % 32]) != 0);
        }
        if exists|i: int|
            0 <= i < sprite.len() && (row_mask(sprite[i], x) & !vram[(y + i) % 32]) != 0 {
            let i = choose|i: int|
                0 <= i < sprite.len() && (row_mask(sprite[i], x) & !vram[(y + i) % 32]) != 0;
            assert(0 <= i < sprite.len() && (v1[(y + i) % 32] & row_mask(sprite[i], x)) != 0);
        }
    }
}

/// The exact mask of [`row_mask`], computed with shifts.
fn make_row_mask(b: u8, x: u8) -> (m: u64)
    requires
        x < 64,
    ensures
        m == row_mask(b, x as u64),
{
    let base = (b as u64) << 56u64;
    if x == 0 {
        base
    } else {
        (base >> (x as u64)) | (base << ((64 - x) as u64))
    }
}

impl Vm {
    /// Draws the `n`-byte sprite at memory location I at the screen
    /// position held by registers (Vx, Vy): every sprite bit is XORed
    /// into the framebuffer with wraparound, and VF reports whether any
    /// pixel went from set to unset.
    pub fn drw(&mut self, x: u8, y: u8, n: u8) -> (r: Result<Step, VmError>)
        requires
            old(self).wf(),
        ensures
            final(self).wf(),
            x < 16 && y < 16 ==> r == Ok::<Step, VmError>(Step::Next) && final(self)@ == (VmView {
                vram: draw_rows(
                    old(self)@.vram,
                    (old(self)@.reg8[x as int] % 64) as u64,
                    old(self)@.reg8[y as int] as int,
                    sprite_at(old(self)@.mem, old(self)@.reg_i as int, n as int),
                ),
                reg8: old(self)@.reg8.update(
                    15,
                    (if draw_hits(
                        old(self)@.vram,
                        (old(self)@.reg8[x as int] % 64) as u64,
                        old(self)@.reg8[y as int] as int,
                        sprite_at(old(self)@.mem, old(self)@.reg_i as int, n as int),
                    ) {
                        1u8
                    } else {
                        0u8
                    }),
                ),
                ..old(self)@
            }),
            !(x < 16 && y < 16) ==> r == Err::<Step, VmError>(
                VmError::BadReg(if x < 16 { y } else { x }),
            ) && final(self)@ == old(self)@,
    {
        let vx = self.get_reg(x)?;
        let vy = self.get_reg(y)?;
        let xc = vx % 64;
        let base = self.reg_i as usize;
        let ghost sprite = sprite_at(old(self)@.mem, old(self)@.reg_i as int, n as int);
        self.reg8[15] = 0;
        proof {
            assert(sprite.take(0) =~= Seq::<u8>::empty());
            assert(self@ =~= (VmView {
                vram: draw_rows(old(self)@.vram, xc as u64, vy as int, sprite.take(0)),
                reg8: old(self)@.reg8.update(
                    15,
                    (if draw_hits(old(self)@.vram, xc as u64, vy as int, sprite.take(0)) {
                        1u8
                    } else {
                        0u8
                    }),
                ),
                ..old(self)@
            }));
        }
        let mut i: usize = 0;
        while i < n as usize
            invariant
                old(self).wf(),
                self.wf(),
                x < 16,
                y < 16,
                i <= n,
                vx == old(self)@.reg8[x as int],
                vy == old(self)@.reg8[y as int],
                xc == vx % 64,
                base as int == old(self)@.reg_i as int,
                sprite == sprite_at(old(self)@.mem, old(self)@.reg_i as int, n as int),
                sprite.len() == n,
                self@ == (VmView {
                    vram: draw_rows(old(self)@.vram, xc as u64, vy as int, sprite.take(i as int)),
                    reg8: old(self)@.reg8.update(
                        15,
                        (if draw_hits(old(self)@.vram, xc as u64, vy as int, sprite.take(i as int)) {
                            1u8
                        } else {
                            0u8
                        }),
                    ),
                    ..old(self)@
                }),
            decreases n - i,
        {
            proof {
                lemma_draw_rows_len(old(self)@.vram, xc as u64, vy as int, sprite.take(i as int));
            }
            let byte = self.mem[(base + i) % MEM_SIZE];
            let mask = make_row_mask(byte, xc);
            let row_idx = (vy as usize + i) % 32;
            let row = self.vram[row_idx];
            proof {
                assert(byte == sprite[i as int]);
                lemma_draw_push(old(self)@.vram, xc as u64, vy as int, sprite.take(i as int), byte);
                assert(sprite.take(i as int).push(byte) =~= sprite.take(i as int + 1));
                assert(row_idx as int == (vy as int + i as int) % 32);
            }
            if row & mask != 0 {
                self.reg8[15] = 1;
            }
            self.vram[row_idx] = row ^ mask;
            proof {
                assert(self@ =~= (VmView {
                    vram: draw_rows(
                        old(self)@.vram,
                        xc as u64,
                        vy as int,
                        sprite.take(i as int + 1),
                    ),
                    reg8: old(self)@.reg8.update(
                        15,
                        (if draw_hits(
                            old(self)@.vram,
                            xc as u64,
                            vy as int,
                            sprite.take(i as int + 1),
                        ) {
                            1u8
                        } else {
                            0u8
                        }),
                    ),
                    ..old(self)@
                }));
            }
            i = i + 1;
        }
        proof {
            assert(sprite.take(n as int) =~= sprite);
        }
        Ok(Step::Next)
    }
}

} // verus!
