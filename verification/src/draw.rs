use vstd::prelude::*;

verus! {

use crate::cpu::{advance, Cpu, Fault};
use vstd::arithmetic::div_mod::{
    lemma_fundamental_div_mod, lemma_fundamental_div_mod_converse, lemma_mod_bound,
    lemma_mod_multiples_vanish, lemma_small_mod,
};

/// The place value of sprite column `c` within a row byte: column 0 is
/// the most significant bit.
pub open spec fn col_weight(c: int) -> int {
    if c == 0 {
        128
    } else if c == 1 {
        64
    } else if c == 2 {
        32
    } else if c == 3 {
        16
    } else if c == 4 {
        8
    } else if c == 5 {
        4
    } else if c == 6 {
        2
    } else {
        1
    }
}

/// Whether column `c` of a sprite row byte is set, most significant bit
/// first.
pub open spec fn sprite_px(row: u8, c: int) -> bool {
    (row as int / col_weight(c)) % 2 == 1
}

/// The framebuffer index that sprite row `r`, column `c` lands on when a
/// sprite is drawn at (vx, vy): coordinates wrap modulo the screen's 64
/// columns and 32 rows.
pub open spec fn target(vx: int, vy: int, r: int, c: int) -> int {
    ((vy + r) % 32) * 64 + (vx + c) % 64
}

/// The sprite row a framebuffer index falls in, counted from the draw
/// position: screen row of `i`, minus vy, modulo 32.
pub open spec fn row_of(vy: int, i: int) -> int {
    (i / 64 - vy) % 32
}

/// The sprite column a framebuffer index falls in: screen column of `i`,
/// minus vx, modulo 64.
pub open spec fn col_of(vx: int, i: int) -> int {
    (i % 64 - vx) % 64
}

/// Whether framebuffer index `i` is hit by a set sprite pixel when
/// `sprite` is drawn at (vx, vy). A sprite is at most 15 rows tall and 8
/// columns wide, so row and column within it are recovered uniquely from
/// the wrapped screen position.
pub open spec fn covered(sprite: Seq<u8>, vx: int, vy: int, i: int) -> bool {
    &&& row_of(vy, i) < sprite.len()
    &&& col_of(vx, i) < 8
    &&& sprite_px(sprite[row_of(vy, i)], col_of(vx, i))
}

/// A pixel flipped by the XOR blit: defined for pixel values 0 and 1.
pub open spec fn flip(p: u8) -> u8 {
    if p == 0 {
        1u8
    } else {
        0u8
    }
}

/// The framebuffer after drawing `sprite` at (vx, vy): every covered
/// pixel is flipped, every other pixel keeps its value.
pub open spec fn draw_fb(fb: Seq<u8>, sprite: Seq<u8>, vx: int, vy: int) -> Seq<u8> {
    Seq::new(fb.len(), |i: int| if covered(sprite, vx, vy, i) { flip(fb[i]) } else { fb[i] })
}

/// Whether drawing `sprite` at (vx, vy) turns any set pixel off: the
/// collision the draw instruction reports in VF.
pub open spec fn collision(fb: Seq<u8>, sprite: Seq<u8>, vx: int, vy: int) -> bool {
    exists|i: int| 0 <= i < fb.len() && covered(sprite, vx, vy, i) && fb[i] == 1
}

/// Coverage restricted to the sprite pixels before row `rl`, column `cl`
/// in row-major order: the part of the blit a partially run loop has
/// already applied.
pub open spec fn covered_upto(sprite: Seq<u8>, vx: int, vy: int, i: int, rl: int, cl: int) -> bool {
    &&& covered(sprite, vx, vy, i)
    &&& (row_of(vy, i) < rl || (row_of(vy, i) == rl && col_of(vx, i) < cl))
}

/// Collision restricted in the same way.
pub open spec fn collision_upto(fb: Seq<u8>, sprite: Seq<u8>, vx: int, vy: int, rl: int, cl: int) -> bool {
    exists|i: int| 0 <= i < fb.len() && covered_upto(sprite, vx, vy, i, rl, cl) && fb[i] == 1
}

/// DXYN: the sprite read from memory at I..I+N is XOR-blitted at
/// position (VX, VY) with wraparound; VF reports whether any pixel went
/// from set to unset; the program counter advances by 2. A sprite read
/// that would run past the end of memory faults and changes nothing.
pub open spec fn draw_effect(pre: Cpu, post: Cpu, x: int, y: int, n: int, r: Result<(), Fault>) -> bool {
    let i0 = pre.address_register as int;
    if i0 + n > 4096 {
        &&& r == Err::<(), Fault>(Fault::OutOfBounds)
        &&& post == pre
    } else {
        let sprite = pre.memory@.subrange(i0, i0 + n);
        let vx = pre.register@[x] as int;
        let vy = pre.register@[y] as int;
        &&& r == Ok::<(), Fault>(())
        &&& post == (Cpu {
            graphics: post.graphics,
            register: post.register,
            program_counter: advance(pre.program_counter, 2),
            ..pre
        })
        &&& post.graphics@ == draw_fb(pre.graphics@, sprite, vx, vy)
        &&& post.register@ == pre.register@.update(
            15,
            if collision(pre.graphics@, sprite, vx, vy) { 1u8 } else { 0u8 },
        )
    }
}

/// Wrapping a coordinate forward and subtracting the base recovers the
/// offset: the screen position of sprite column (or row) `c` maps back
/// to `c`.
proof fn lemma_wrap_recover(a: int, c: int, m: int)
    requires
        0 <= c < m,
        0 <= a,
    ensures
        ((a + c) % m - a) % m == c,
{
    let q = (a + c) / m;
    lemma_fundamental_div_mod(a + c, m);
    assert(m * (-q) == -(m * q)) by (nonlinear_arith);
    assert((a + c) % m - a == m * (-q) + c) by {
        assert(a + c == m * q + (a + c) % m);
    }
    lemma_mod_multiples_vanish(-q, c, m);
    lemma_small_mod(c as nat, m as nat);
}

/// The converse: a screen coordinate whose recovered offset is known
/// is exactly the wrapped position of that offset.
proof fn lemma_wrap_unique(a: int, p: int, m: int)
    requires
        0 < m,
        0 <= p < m,
        0 <= a,
    ensures
        (a + ((p - a) % m)) % m == p,
{
    let q = (p - a) / m;
    lemma_fundamental_div_mod(p - a, m);
    assert(m * (-q) == -(m * q)) by (nonlinear_arith);
    assert(a + ((p - a) % m) == m * (-q) + p) by {
        assert(p - a == m * q + (p - a) % m);
    }
    lemma_mod_multiples_vanish(-q, p, m);
    lemma_small_mod(p as nat, m as nat);
}

/// The screen index a sprite pixel lands on is in range, and its
/// recovered row and column are that pixel's row and column.
proof fn lemma_target_fields(vx: int, vy: int, r: int, c: int)
    requires
        0 <= vx,
        0 <= vy,
        0 <= r < 32,
        0 <= c < 64,
    ensures
        0 <= target(vx, vy, r, c) < 2048,
        row_of(vy, target(vx, vy, r, c)) == r,
        col_of(vx, target(vx, vy, r, c)) == c,
{
    let px = (vx + c) % 64;
    let py = (vy + r) % 32;
    lemma_mod_bound(vx + c, 64);
    lemma_mod_bound(vy + r, 32);
    let i = target(vx, vy, r, c);
    lemma_fundamental_div_mod_converse(i, 64, py, px);
    lemma_wrap_recover(vx, c, 64);
    lemma_wrap_recover(vy, r, 32);
}

/// Only one screen index recovers a given sprite row and column: the
/// blit touches each framebuffer pixel at most once.
proof fn lemma_target_unique(vx: int, vy: int, r: int, c: int, i: int)
    requires
        0 <= vx,
        0 <= vy,
        0 <= r < 32,
        0 <= c < 64,
        0 <= i < 2048,
        row_of(vy, i) == r,
        col_of(vx, i) == c,
    ensures
        i == target(vx, vy, r, c),
{
    let px = i % 64;
    let py = i / 64;
    lemma_mod_bound(i, 64);
    assert(0 <= py < 32);
    lemma_wrap_unique(vx, px, 64);
    lemma_wrap_unique(vy, py, 32);
    lemma_fundamental_div_mod(i, 64);
}

/// The bit weight of sprite column `c`.
fn col_mask(c: usize) -> (d: u8)
    requires
        c < 8,
    ensures
        d as int == col_weight(c as int),
        d >= 1,
{
    if c == 0 {
        128
    } else if c == 1 {
        64
    } else if c == 2 {
        32
    } else if c == 3 {
        16
    } else if c == 4 {
        8
    } else if c == 5 {
        4
    } else if c == 6 {
        2
    } else {
        1
    }
}

impl Cpu {
    /// DXYN: draw the N-row sprite at memory I..I+N at position
    /// (VX, VY). Sprite pixels are XORed onto the framebuffer, positions
    /// wrap at the screen edges, and VF becomes 1 exactly when some
    /// pixel was turned off.
    pub fn draw(&mut self, x: usize, y: usize, n: usize) -> (r: Result<(), Fault>)
        requires
            old(self).wf(),
            x < 16,
            y < 16,
            n < 16,
        ensures
            final(self).wf(),
            draw_effect(*old(self), *final(self), x as int, y as int, n as int, r),
    {
        if self.address_register as usize + n > 4096 {
            return Err(Fault::OutOfBounds);
        }
        let i0 = self.address_register as usize;
        let vx = self.register[x] as usize;
        let vy = self.register[y] as usize;
        let ghost vxi: int = vx as int;
        let ghost vyi: int = vy as int;
        let ghost sprite: Seq<u8> = self.memory@.subrange(i0 as int, i0 as int + n as int);
        let ghost fb0: Seq<u8> = self.graphics@;
        let mut collided: bool = false;
        let mut rr: usize = 0;
        while rr < n
            invariant
                old(self).wf(),
                x < 16,
                y < 16,
                n < 16,
                rr <= n,
                i0 == old(self).address_register as usize,
                i0 + n <= 4096,
                vxi == old(self).register@[x as int] as int,
                vyi == old(self).register@[y as int] as int,
                vx == vxi,
                vy == vyi,
                sprite == old(self).memory@.subrange(i0 as int, i0 as int + n as int),
                sprite.len() == n,
                fb0 == old(self).graphics@,
                fb0.len() == 2048,
                forall|i: int| 0 <= i < 2048 ==> fb0[i] <= 1,
                *self == (Cpu { graphics: self.graphics, ..*old(self) }),
                self.graphics@.len() == 2048,
                forall|i: int| 0 <= i < 2048 ==> self.graphics@[i] <= 1,
                forall|i: int|
                    0 <= i < 2048 ==> self.graphics@[i] == (if covered_upto(
                        sprite,
                        vxi,
                        vyi,
                        i,
                        rr as int,
                        0,
                    ) {
                        flip(fb0[i])
                    } else {
                        fb0[i]
                    }),
                collided == collision_upto(fb0, sprite, vxi, vyi, rr as int, 0),
            decreases n - rr,
        {
            let row: u8 = self.memory[i0 + rr];
            proof {
                assert(row == sprite[rr as int]);
            }
            let mut cc: usize = 0;
            while cc < 8
                invariant
                    old(self).wf(),
                    x < 16,
                    y < 16,
                    n < 16,
                    rr < n,
                    cc <= 8,
                    i0 == old(self).address_register as usize,
                    i0 + n <= 4096,
                    vxi == old(self).register@[x as int] as int,
                    vyi == old(self).register@[y as int] as int,
                    vx == vxi,
                    vy == vyi,
                    sprite == old(self).memory@.subrange(i0 as int, i0 as int + n as int),
                    sprite.len() == n,
                    row == sprite[rr as int],
                    fb0 == old(self).graphics@,
                    fb0.len() == 2048,
                    forall|i: int| 0 <= i < 2048 ==> fb0[i] <= 1,
                    *self == (Cpu { graphics: self.graphics, ..*old(self) }),
                    self.graphics@.len() == 2048,
                    forall|i: int| 0 <= i < 2048 ==> self.graphics@[i] <= 1,
                    forall|i: int|
                        0 <= i < 2048 ==> self.graphics@[i] == (if covered_upto(
                            sprite,
                            vxi,
                            vyi,
                            i,
                            rr as int,
                            cc as int,
                        ) {
                            flip(fb0[i])
                        } else {
                            fb0[i]
                        }),
                    collided == collision_upto(fb0, sprite, vxi, vyi, rr as int, cc as int),
                decreases 8 - cc,
            {
                let ghost gpre: Seq<u8> = self.graphics@;
                let ghost rri: int = rr as int;
                let ghost cci: int = cc as int;
                let d: u8 = col_mask(cc);
                if (row / d) % 2 == 1 {
                    let px: usize = (vx + cc) % 64;
                    let py: usize = (vy + rr) % 32;
                    let idx: usize = py * 64 + px;
                    proof {
                        lemma_target_fields(vxi, vyi, rri, cci);
                        assert(idx as int == target(vxi, vyi, rri, cci));
                        assert(row_of(vyi, idx as int) == rri);
                        assert(col_of(vxi, idx as int) == cci);
                        assert(sprite_px(sprite[rri], cci));
                        assert(covered(sprite, vxi, vyi, idx as int));
                        assert(!covered_upto(sprite, vxi, vyi, idx as int, rri, cci));
                        assert(gpre[idx as int] == fb0[idx as int]);
                    }
                    if self.graphics[idx] == 1 {
                        collided = true;
                        self.graphics[idx] = 0;
                    } else {
                        self.graphics[idx] = 1;
                    }
                    proof {
                        assert forall|i: int| 0 <= i < 2048 implies self.graphics@[i] == (
                        if covered_upto(sprite, vxi, vyi, i, rri, cci + 1) {
                            flip(fb0[i])
                        } else {
                            fb0[i]
                        }) by {
                            if i == idx as int {
                                assert(covered_upto(sprite, vxi, vyi, i, rri, cci + 1));
                            } else {
                                if row_of(vyi, i) == rri && col_of(vxi, i) == cci {
                                    lemma_target_unique(vxi, vyi, rri, cci, i);
                                }
                                assert(covered_upto(sprite, vxi, vyi, i, rri, cci + 1)
                                    == covered_upto(sprite, vxi, vyi, i, rri, cci));
                            }
                        }
                        if fb0[idx as int] == 1 {
                            assert(covered_upto(sprite, vxi, vyi, idx as int, rri, cci + 1));
                            assert(collision_upto(fb0, sprite, vxi, vyi, rri, cci + 1));
                            assert(collided);
                        } else {
                            assert(collided == collision_upto(fb0, sprite, vxi, vyi, rri, cci + 1))
                                by {
                                if collision_upto(fb0, sprite, vxi, vyi, rri, cci + 1) {
                                    let w = choose|i: int|
                                        0 <= i < fb0.len() && covered_upto(
                                            sprite,
                                            vxi,
                                            vyi,
                                            i,
                                            rri,
                                            cci + 1,
                                        ) && fb0[i] == 1;
                                    if row_of(vyi, w) == rri && col_of(vxi, w) == cci {
                                        lemma_target_unique(vxi, vyi, rri, cci, w);
                                        assert(false);
                                    }
                                    assert(covered_upto(sprite, vxi, vyi, w, rri, cci));
                                    assert(collision_upto(fb0, sprite, vxi, vyi, rri, cci));
                                }
                                if collision_upto(fb0, sprite, vxi, vyi, rri, cci) {
                                    let w = choose|i: int|
                                        0 <= i < fb0.len() && covered_upto(
                                            sprite,
                                            vxi,
                                            vyi,
                                            i,
                                            rri,
                                            cci,
                                        ) && fb0[i] == 1;
                                    assert(covered_upto(sprite, vxi, vyi, w, rri, cci + 1));
                                    assert(collision_upto(fb0, sprite, vxi, vyi, rri, cci + 1));
                                }
                            }
                        }
                    }
                } else {
                    proof {
                        assert forall|i: int| 0 <= i < 2048 implies covered_upto(
                            sprite,
                            vxi,
                            vyi,
                            i,
                            rri,
                            cci + 1,
                        ) == covered_upto(sprite, vxi, vyi, i, rri, cci) by {
                            if row_of(vyi, i) == rri && col_of(vxi, i) == cci {
                                assert(!sprite_px(sprite[rri], cci));
                            }
                        }
                        if collision_upto(fb0, sprite, vxi, vyi, rri, cci + 1) {
                            let w = choose|i: int|
                                0 <= i < fb0.len() && covered_upto(sprite, vxi, vyi, i, rri, cci + 1)
                                    && fb0[i] == 1;
                            assert(covered_upto(sprite, vxi, vyi, w, rri, cci));
                        }
                        if collision_upto(fb0, sprite, vxi, vyi, rri, cci) {
                            let w = choose|i: int|
                                0 <= i < fb0.len() && covered_upto(sprite, vxi, vyi, i, rri, cci)
                                    && fb0[i] == 1;
                            assert(covered_upto(sprite, vxi, vyi, w, rri, cci + 1));
                        }
                        assert(collided == collision_upto(fb0, sprite, vxi, vyi, rri, cci + 1));
                    }
                }
                cc = cc + 1;
            }
            proof {
                let rri: int = rr as int;
                assert forall|i: int| 0 <= i < 2048 implies covered_upto(
                    sprite,
                    vxi,
                    vyi,
                    i,
                    rri + 1,
                    0,
                ) == covered_upto(sprite, vxi, vyi, i, rri, 8) by {}
                if collision_upto(fb0, sprite, vxi, vyi, rri + 1, 0) {
                    let w = choose|i: int|
                        0 <= i < fb0.len() && covered_upto(sprite, vxi, vyi, i, rri + 1, 0)
                            && fb0[i] == 1;
                    assert(covered_upto(sprite, vxi, vyi, w, rri, 8));
                }
                if collision_upto(fb0, sprite, vxi, vyi, rri, 8) {
                    let w = choose|i: int|
                        0 <= i < fb0.len() && covered_upto(sprite, vxi, vyi, i, rri, 8) && fb0[i]
                            == 1;
                    assert(covered_upto(sprite, vxi, vyi, w, rri + 1, 0));
                }
            }
            rr = rr + 1;
        }
        let flag: u8 = if collided {
            1
        } else {
            0
        };
        self.register[15] = flag;
        self.program_counter = (self.program_counter + 2) % 4096;
        proof {
            let ni: int = n as int;
            assert forall|i: int| 0 <= i < 2048 implies covered_upto(sprite, vxi, vyi, i, ni, 0)
                == covered(sprite, vxi, vyi, i) by {}
            assert(self.graphics@ =~= draw_fb(fb0, sprite, vxi, vyi));
            if collision(fb0, sprite, vxi, vyi) {
                let w = choose|i: int|
                    0 <= i < fb0.len() && covered(sprite, vxi, vyi, i) && fb0[i] == 1;
                assert(covered_upto(sprite, vxi, vyi, w, ni, 0));
                assert(collision_upto(fb0, sprite, vxi, vyi, ni, 0));
            }
            if collision_upto(fb0, sprite, vxi, vyi, ni, 0) {
                let w = choose|i: int|
                    0 <= i < fb0.len() && covered_upto(sprite, vxi, vyi, i, ni, 0) && fb0[i] == 1;
                assert(collision(fb0, sprite, vxi, vyi));
            }
            assert(collided == collision(fb0, sprite, vxi, vyi));
        }
        Ok(())
    }
}

} // verus!
