use vstd::arithmetic::div_mod::{
    lemma_fundamental_div_mod, lemma_fundamental_div_mod_converse, lemma_mod_bound,
};
use vstd::prelude::*;

use crate::DISPLAY_PIXEL_HEIGHT;
use crate::DISPLAY_PIXEL_WIDTH;

verus! {

/// Whether bit `i` of sprite row byte `b` is set, counting from the most
/// significant bit.
pub open spec fn sprite_bit(b: u8, i: int) -> bool {
    ((b >> ((7 - i) as u8)) & 1) == 1
}

/// Whether the set sprite bit at row `j`, bit `i` lands on the framebuffer
/// cell `(col, row)` when the sprite is drawn at `(x, y)` with wraparound.
pub open spec fn hits(
    sprite: Seq<u8>,
    x: int,
    y: int,
    j: int,
    i: int,
    col: int,
    row: int,
) -> bool {
    &&& sprite_bit(sprite[j], i)
    &&& col == (x + i) % 64
    &&& row == (y + j) % 32
}

/// Whether some set sprite bit among the first `cnt` bit positions, in
/// row-major order, lands on cell `(col, row)`.
pub open spec fn covers_within(
    sprite: Seq<u8>,
    x: int,
    y: int,
    cnt: int,
    col: int,
    row: int,
) -> bool {
    exists|j: int, i: int|
        0 <= j < sprite.len() && 0 <= i < 8 && 8 * j + i < cnt && #[trigger] hits(
            sprite,
            x,
            y,
            j,
            i,
            col,
            row,
        )
}

/// Whether some set sprite bit lands on cell `(col, row)` when the sprite is
/// drawn at `(x, y)`.
pub open spec fn sprite_covers(sprite: Seq<u8>, x: int, y: int, col: int, row: int) -> bool {
    exists|j: int, i: int|
        0 <= j < sprite.len() && 0 <= i < 8 && #[trigger] hits(sprite, x, y, j, i, col, row)
}

/// Whether some set sprite bit among the first `cnt` bit positions lands on a
/// cell that is already on in `vram`.
pub open spec fn collides_within(
    vram: Seq<bool>,
    sprite: Seq<u8>,
    x: int,
    y: int,
    cnt: int,
) -> bool {
    exists|j: int, i: int|
        0 <= j < sprite.len() && 0 <= i < 8 && 8 * j + i < cnt && #[trigger] sprite_bit(
            sprite[j],
            i,
        ) && vram[((y + j) % 32) * 64 + ((x + i) % 64)]
}

/// Whether drawing the sprite at `(x, y)` toggles off at least one pixel that
/// `vram` already has on: the draw's collision flag.
pub open spec fn blit_collision(vram: Seq<bool>, sprite: Seq<u8>, x: int, y: int) -> bool {
    collides_within(vram, sprite, x, y, 8 * sprite.len() as int)
}

/// The framebuffer after the sprite is drawn at `(x, y)`: each cell is XORed
/// with the sprite bit that lands on it, and cells no set bit lands on keep
/// their value.
pub open spec fn blit_vram(vram: Seq<bool>, sprite: Seq<u8>, x: int, y: int) -> Seq<bool> {
    Seq::new(vram.len(), |p: int| vram[p] != sprite_covers(sprite, x, y, p % 64, p / 64))
}

/// The framebuffer as flat bytes, row-major, 1 for an on pixel and 0 for an
/// off pixel.
pub open spec fn vram_to_bytes(vram: Seq<bool>) -> Seq<u8> {
    Seq::new(vram.len(), |p: int| if vram[p] { 1u8 } else { 0u8 })
}

/// Two in-range offsets that wrap to the same residue are equal.
proof fn lemma_wrap_inj(base: int, a: int, b: int, m: int)
    requires
        m > 0,
        base >= 0,
        0 <= a < m,
        0 <= b < m,
        (base + a) % m == (base + b) % m,
    ensures
        a == b,
{
    lemma_fundamental_div_mod(base + a, m);
    lemma_fundamental_div_mod(base + b, m);
    let qa = (base + a) / m;
    let qb = (base + b) / m;
    assert(a - b == m * qa - m * qb);
    assert(m * qa - m * qb == m * (qa - qb)) by (nonlinear_arith);
    assert(qa != qb ==> m * (qa - qb) >= m || m * (qa - qb) <= -m) by (nonlinear_arith)
        requires
            m > 0,
    ;
}

/// Counting a sprite's bit positions to the end is the same as not counting
/// at all.
proof fn lemma_covers_full(sprite: Seq<u8>, x: int, y: int, col: int, row: int)
    ensures
        covers_within(sprite, x, y, 8 * sprite.len() as int, col, row) == sprite_covers(
            sprite,
            x,
            y,
            col,
            row,
        ),
{
    if sprite_covers(sprite, x, y, col, row) {
        let (j, i) = choose|j: int, i: int|
            0 <= j < sprite.len() && 0 <= i < 8 && #[trigger] hits(sprite, x, y, j, i, col, row);
        assert(8 * j + i < 8 * sprite.len() as int);
        assert(hits(sprite, x, y, j, i, col, row));
    }
}

/// Drawing the same sprite twice at the same spot restores the framebuffer:
/// the second draw toggles back exactly the pixels the first one toggled.
pub proof fn lemma_draw_twice_restores(vram: Seq<bool>, sprite: Seq<u8>, x: int, y: int)
    ensures
        blit_vram(blit_vram(vram, sprite, x, y), sprite, x, y) == vram,
{
    assert(blit_vram(blit_vram(vram, sprite, x, y), sprite, x, y) =~= vram);
}

/// The 64x32 monochrome framebuffer.
pub struct Display {
    vram: Vec<bool>,
}

impl View for Display {
    type V = Seq<bool>;

    closed spec fn view(&self) -> Seq<bool> {
        self.vram@
    }
}

impl Display {
    /// The framebuffer always holds exactly 64 * 32 pixels.
    pub open spec fn wf(&self) -> bool {
        self@.len() == 2048
    }

    /// A fresh framebuffer with every pixel off.
    pub fn new() -> (r: Display)
        ensures
            r.wf(),
            r@ == Seq::new(2048, |p: int| false),
    {
        let r = Display { vram: vec![false; 2048] };
        proof {
            assert(r@ =~= Seq::new(2048, |p: int| false));
        }
        r
    }

    /// Turns every pixel off.
    pub fn clear(&mut self)
        ensures
            final(self).wf(),
            final(self)@ == Seq::new(2048, |p: int| false),
    {
        self.vram = vec![false; 2048];
        proof {
            assert(self@ =~= Seq::new(2048, |p: int| false));
        }
    }

    fn is_pixel_on(&self, x: usize, y: usize) -> (r: bool)
        requires
            self.wf(),
            x < 64,
            y < 32,
        ensures
            r == self@[y * 64 + x],
    {
        let scaled = y * DISPLAY_PIXEL_WIDTH;
        self.vram[x + scaled]
    }

    fn set_pixel_to(&mut self, x: usize, y: usize, is_on: bool)
        requires
            old(self).wf(),
            x < 64,
            y < 32,
        ensures
            final(self).wf(),
            final(self)@ == old(self)@.update(y * 64 + x, is_on),
    {
        let scaled = y * DISPLAY_PIXEL_WIDTH;
        self.vram[x + scaled] = is_on;
    }

    /// Draws the sprite at `(x, y)`: each set bit toggles the pixel it lands
    /// on, wrapping at both edges; reports whether any toggled pixel was
    /// already on.
    pub fn draw_sprite(&mut self, x: usize, y: usize, sprite: &[u8]) -> (collision: bool)
        requires
            old(self).wf(),
            sprite@.len() <= 32,
            x <= usize::MAX - 7,
            y <= usize::MAX - 31,
        ensures
            final(self).wf(),
            final(self)@ == blit_vram(old(self)@, sprite@, x as int, y as int),
            collision == blit_collision(old(self)@, sprite@, x as int, y as int),
    {
        let ghost v0 = self@;
        let ghost xs = x as int;
        let ghost ys = y as int;
        let ghost s = sprite@;
        let rows = sprite.len();
        let mut collision = false;
        let mut j: usize = 0;
        while j < rows
            invariant
                self.wf(),
                rows == s.len(),
                s == sprite@,
                s.len() <= 32,
                x <= usize::MAX - 7,
                y <= usize::MAX - 31,
                xs == x as int,
                ys == y as int,
                v0.len() == 2048,
                0 <= j <= rows,
                forall|p: int|
                    0 <= p < 2048 ==> #[trigger] self@[p] == (v0[p] != covers_within(
                        s,
                        xs,
                        ys,
                        8 * j,
                        p % 64,
                        p / 64,
                    )),
                collision == collides_within(v0, s, xs, ys, 8 * j),
            decreases rows - j,
        {
            let row = sprite[j];
            let mut i: usize = 0;
            while i < 8
                invariant
                    self.wf(),
                    rows == s.len(),
                    s == sprite@,
                    s.len() <= 32,
                    x <= usize::MAX - 7,
                    y <= usize::MAX - 31,
                    xs == x as int,
                    ys == y as int,
                    v0.len() == 2048,
                    0 <= j < rows,
                    0 <= i <= 8,
                    row == s[j as int],
                    forall|p: int|
                        0 <= p < 2048 ==> #[trigger] self@[p] == (v0[p] != covers_within(
                            s,
                            xs,
                            ys,
                            8 * j + i,
                            p % 64,
                            p / 64,
                        )),
                    collision == collides_within(v0, s, xs, ys, 8 * j + i),
                decreases 8 - i,
            {
                let ghost cnt = 8 * (j as int) + (i as int);
                let shift: u8 = (7 - i) as u8;
                let new_value = (row >> shift) & 0x01;
                proof {
                    assert(new_value == 1 <==> sprite_bit(s[j as int], i as int));
                }
                if new_value == 1 {
                    let xi = (x + i) % DISPLAY_PIXEL_WIDTH;
                    let yj = (y + j) % DISPLAY_PIXEL_HEIGHT;
                    proof {
                        lemma_mod_bound(xs + i, 64);
                        lemma_mod_bound(ys + j, 32);
                    }
                    let ghost p = (yj as int) * 64 + (xi as int);
                    proof {
                        lemma_fundamental_div_mod_converse(p, 64, yj as int, xi as int);
                        assert(0 <= p < 2048);
                        // No earlier bit position lands on this cell, so it
                        // still holds its original value.
                        assert(!covers_within(s, xs, ys, cnt, xi as int, yj as int)) by {
                            if covers_within(s, xs, ys, cnt, xi as int, yj as int) {
                                let (j2, i2) = choose|j2: int, i2: int|
                                    0 <= j2 < s.len() && 0 <= i2 < 8 && 8 * j2 + i2 < cnt
                                        && #[trigger] hits(s, xs, ys, j2, i2, xi as int, yj as int);
                                lemma_wrap_inj(xs, i2, i as int, 64);
                                lemma_wrap_inj(ys, j2, j as int, 32);
                            }
                        }
                    }
                    let old_value = self.is_pixel_on(xi, yj);
                    proof {
                        assert(old_value == v0[p]);
                    }
                    if old_value {
                        collision = true;
                    }
                    let is_on = (new_value == 1) ^ old_value;
                    self.set_pixel_to(xi, yj, is_on);
                    proof {
                        assert(hits(s, xs, ys, j as int, i as int, xi as int, yj as int));
                        assert(covers_within(s, xs, ys, cnt + 1, xi as int, yj as int));
                        assert(collides_within(v0, s, xs, ys, cnt + 1) == (collides_within(
                            v0,
                            s,
                            xs,
                            ys,
                            cnt,
                        ) || v0[p])) by {
                            if collides_within(v0, s, xs, ys, cnt + 1) {
                                let (j2, i2) = choose|j2: int, i2: int|
                                    0 <= j2 < s.len() && 0 <= i2 < 8 && 8 * j2 + i2 < cnt + 1
                                        && #[trigger] sprite_bit(s[j2], i2) && v0[((ys + j2) % 32)
                                        * 64 + ((xs + i2) % 64)];
                                if 8 * j2 + i2 == cnt {
                                    assert(j2 == j as int && i2 == i as int);
                                }
                            }
                            if v0[p] {
                                assert(sprite_bit(s[j as int], i as int) && v0[((ys + j) % 32) * 64
                                    + ((xs + i) % 64)]);
                            }
                        }
                        assert forall|q: int| 0 <= q < 2048 implies #[trigger] self@[q] == (v0[q]
                            != covers_within(s, xs, ys, cnt + 1, q % 64, q / 64)) by {
                            lemma_fundamental_div_mod(q, 64);
                            lemma_mod_bound(q, 64);
                            if q == p {
                                assert(self@[q] == (v0[q] != true));
                            } else {
                                assert(covers_within(s, xs, ys, cnt + 1, q % 64, q / 64)
                                    == covers_within(s, xs, ys, cnt, q % 64, q / 64)) by {
                                    if covers_within(s, xs, ys, cnt + 1, q % 64, q / 64) {
                                        let (j2, i2) = choose|j2: int, i2: int|
                                            0 <= j2 < s.len() && 0 <= i2 < 8 && 8 * j2 + i2 < cnt
                                                + 1 && #[trigger] hits(
                                                s,
                                                xs,
                                                ys,
                                                j2,
                                                i2,
                                                q % 64,
                                                q / 64,
                                            );
                                        if 8 * j2 + i2 == cnt {
                                            assert(j2 == j as int && i2 == i as int);
                                            assert(q == p);
                                            assert(false);
                                        }
                                        assert(hits(s, xs, ys, j2, i2, q % 64, q / 64));
                                    }
                                }
                            }
                        }
                    }
                } else {
                    proof {
                        // A clear bit toggles nothing and collides with
                        // nothing.
                        assert forall|q: int| 0 <= q < 2048 implies #[trigger] self@[q] == (v0[q]
                            != covers_within(s, xs, ys, cnt + 1, q % 64, q / 64)) by {
                            assert(covers_within(s, xs, ys, cnt + 1, q % 64, q / 64)
                                == covers_within(s, xs, ys, cnt, q % 64, q / 64)) by {
                                if covers_within(s, xs, ys, cnt + 1, q % 64, q / 64) {
                                    let (j2, i2) = choose|j2: int, i2: int|
                                        0 <= j2 < s.len() && 0 <= i2 < 8 && 8 * j2 + i2 < cnt + 1
                                            && #[trigger] hits(s, xs, ys, j2, i2, q % 64, q / 64);
                                    if 8 * j2 + i2 == cnt {
                                        assert(j2 == j as int && i2 == i as int);
                                        assert(false);
                                    }
                                    assert(hits(s, xs, ys, j2, i2, q % 64, q / 64));
                                }
                            }
                        }
                        assert(collides_within(v0, s, xs, ys, cnt + 1) == collides_within(
                            v0,
                            s,
                            xs,
                            ys,
                            cnt,
                        )) by {
                            if collides_within(v0, s, xs, ys, cnt + 1) {
                                let (j2, i2) = choose|j2: int, i2: int|
                                    0 <= j2 < s.len() && 0 <= i2 < 8 && 8 * j2 + i2 < cnt + 1
                                        && #[trigger] sprite_bit(s[j2], i2) && v0[((ys + j2) % 32)
                                        * 64 + ((xs + i2) % 64)];
                                if 8 * j2 + i2 == cnt {
                                    assert(j2 == j as int && i2 == i as int);
                                    assert(false);
                                }
                            }
                        }
                    }
                }
                i = i + 1;
            }
            j = j + 1;
        }
        proof {
            assert forall|p: int| 0 <= p < 2048 implies #[trigger] self@[p] == blit_vram(
                v0,
                s,
                xs,
                ys,
            )[p] by {
                lemma_covers_full(s, xs, ys, p % 64, p / 64);
            }
            assert(self@ =~= blit_vram(v0, s, xs, ys));
        }
        collision
    }

    /// The framebuffer, row-major, one byte per pixel: 1 on, 0 off.
    pub fn get_vram_copy(&self) -> (r: Vec<u8>)
        requires
            self.wf(),
        ensures
            r@ == vram_to_bytes(self@),
    {
        let mut out: Vec<u8> = Vec::new();
        let mut p: usize = 0;
        while p < 2048
            invariant
                self.wf(),
                0 <= p <= 2048,
                out@.len() == p,
                forall|q: int| 0 <= q < p ==> #[trigger] out@[q] == (if self@[q] {
                    1u8
                } else {
                    0u8
                }),
            decreases 2048 - p,
        {
            if self.vram[p] {
                out.push(1);
            } else {
                out.push(0);
            }
            p = p + 1;
        }
        proof {
            assert(out@ =~= vram_to_bytes(self@));
        }
        out
    }
}

} // verus!
