//! The display compositor: clearing the framebuffer and XOR-ing sprites onto
//! it with wrap-around and collision detection.

use vstd::prelude::*;
use crate::machine::{flag, Machine, System, PIXEL_AMOUNT, SCREEN_HEIGHT, SCREEN_WIDTH};

verus! {

/// A framebuffer with every pixel off.
pub open spec fn blank_screen() -> Seq<u8> {
    Seq::new(PIXEL_AMOUNT as nat, |i: int| 0u8)
}

/// The framebuffer cell onto which pixel number `i` of a sprite drawn at
/// `(x, y)` falls. A sprite is laid out in rows of eight pixels; both
/// coordinates wrap around the screen independently.
pub open spec fn sprite_cell(x: int, y: int, i: int) -> int {
    ((y + i / 8) % (SCREEN_HEIGHT as int)) * SCREEN_WIDTH + (x + i % 8) % (SCREEN_WIDTH as int)
}

/// A framebuffer after the pixel at `cell` was flipped.
pub open spec fn flip(pixels: Seq<u8>, cell: int) -> Seq<u8> {
    pixels.update(cell, pixels[cell] ^ 1u8)
}

/// The framebuffer after the pixels of `sprite` were drawn one after the
/// other at `(x, y)`: every pixel that is on flips the cell it falls onto,
/// every other pixel leaves the framebuffer as it is.
pub open spec fn blit_pixels(pixels: Seq<u8>, x: int, y: int, sprite: Seq<u8>) -> Seq<u8>
    decreases sprite.len(),
{
    if sprite.len() == 0 {
        pixels
    } else {
        let before = blit_pixels(pixels, x, y, sprite.drop_last());
        if sprite.last() == 1 {
            flip(before, sprite_cell(x, y, sprite.len() - 1))
        } else {
            before
        }
    }
}

/// Whether drawing `sprite` at `(x, y)` turns off a cell that was on at the
/// moment its pixel was drawn.
pub open spec fn blit_collides(pixels: Seq<u8>, x: int, y: int, sprite: Seq<u8>) -> bool
    decreases sprite.len(),
{
    if sprite.len() == 0 {
        false
    } else {
        let before = blit_pixels(pixels, x, y, sprite.drop_last());
        let target = sprite_cell(x, y, sprite.len() - 1);
        blit_collides(pixels, x, y, sprite.drop_last()) || (sprite.last() == 1 && before[target] == 1)
    }
}

/// Every sprite pixel falls onto a cell of the framebuffer.
pub proof fn lemma_sprite_cell_in_range(x: int, y: int, i: int)
    requires
        0 <= x,
        0 <= y,
        0 <= i,
    ensures
        0 <= sprite_cell(x, y, i) < PIXEL_AMOUNT,
{
}

/// Drawing keeps the size of the framebuffer.
pub proof fn lemma_blit_pixels_len(pixels: Seq<u8>, x: int, y: int, sprite: Seq<u8>)
    requires
        pixels.len() == PIXEL_AMOUNT,
        0 <= x,
        0 <= y,
    ensures
        blit_pixels(pixels, x, y, sprite).len() == PIXEL_AMOUNT,
    decreases sprite.len(),
{
    if sprite.len() > 0 {
        lemma_blit_pixels_len(pixels, x, y, sprite.drop_last());
        lemma_sprite_cell_in_range(x, y, sprite.len() - 1);
    }
}

/// Whether some pixel of `sprite` that is on falls onto `cell`.
pub open spec fn drawn_on(x: int, y: int, sprite: Seq<u8>, cell: int) -> bool {
    exists|i: int| 0 <= i < sprite.len() && sprite[i] == 1 && #[trigger] sprite_cell(x, y, i) == cell
}

/// Whether every pixel of a framebuffer is 0 or 1.
pub open spec fn binary(pixels: Seq<u8>) -> bool {
    forall|cell: int| 0 <= cell < pixels.len() ==> #[trigger] pixels[cell] <= 1
}

/// The pixels of a sprite of at most 32 rows fall onto cells that differ
/// from one another.
pub proof fn lemma_sprite_cells_differ(x: int, y: int, i: int, j: int)
    requires
        0 <= x,
        0 <= y,
        0 <= i < 256,
        0 <= j < 256,
        sprite_cell(x, y, i) == sprite_cell(x, y, j),
    ensures
        i == j,
{
    // A cell determines its row and its column.
    assert((y + i / 8) % 32 == (y + j / 8) % 32 && (x + i % 8) % 64 == (x + j % 8) % 64);
    // Fewer than 32 rows and fewer than 64 columns: no two wrap onto one.
    assert(i / 8 == j / 8);
    assert(i % 8 == j % 8);
}

/// A cell is drawn on by a sprite exactly if it is drawn on by the sprite
/// without its last pixel, or that last pixel is on and falls onto it.
pub proof fn lemma_drawn_on_last(x: int, y: int, sprite: Seq<u8>, cell: int)
    requires
        sprite.len() > 0,
    ensures
        drawn_on(x, y, sprite, cell) <==> drawn_on(x, y, sprite.drop_last(), cell) || (sprite.last()
            == 1 && sprite_cell(x, y, sprite.len() - 1) == cell),
{
    let rest = sprite.drop_last();
    let last = sprite.len() - 1;
    if drawn_on(x, y, rest, cell) {
        let i = choose|i: int|
            0 <= i < rest.len() && rest[i] == 1 && #[trigger] sprite_cell(x, y, i) == cell;
        assert(sprite[i] == 1 && sprite_cell(x, y, i) == cell);
    }
    if sprite.last() == 1 && sprite_cell(x, y, last) == cell {
        assert(sprite[last] == 1 && sprite_cell(x, y, last) == cell);
    }
    if drawn_on(x, y, sprite, cell) {
        let i = choose|i: int|
            0 <= i < sprite.len() && sprite[i] == 1 && #[trigger] sprite_cell(x, y, i) == cell;
        if i < last {
            assert(rest[i] == 1 && sprite_cell(x, y, i) == cell);
        }
    }
}

/// What a sprite of at most 32 rows does to each cell: a cell onto which a
/// pixel that is on falls is flipped, every other cell stays as it is; and
/// the sprite collides exactly if one of the flipped cells was on.
pub proof fn lemma_blit_by_cell(pixels: Seq<u8>, x: int, y: int, sprite: Seq<u8>)
    requires
        pixels.len() == PIXEL_AMOUNT,
        0 <= x,
        0 <= y,
        sprite.len() <= 256,
    ensures
        forall|cell: int|
            0 <= cell < PIXEL_AMOUNT ==> #[trigger] blit_pixels(pixels, x, y, sprite)[cell] == if drawn_on(
                x,
                y,
                sprite,
                cell,
            ) {
                pixels[cell] ^ 1u8
            } else {
                pixels[cell]
            },
        blit_collides(pixels, x, y, sprite) <==> exists|cell: int|
            0 <= cell < PIXEL_AMOUNT && #[trigger] drawn_on(x, y, sprite, cell) && pixels[cell] == 1,
    decreases sprite.len(),
{
    if sprite.len() == 0 {
        assert forall|cell: int| !drawn_on(x, y, sprite, cell) by {}
    } else {
        let rest = sprite.drop_last();
        let last = sprite.len() - 1;
        let target = sprite_cell(x, y, last);
        let before = blit_pixels(pixels, x, y, rest);
        lemma_blit_by_cell(pixels, x, y, rest);
        lemma_blit_pixels_len(pixels, x, y, rest);
        lemma_sprite_cell_in_range(x, y, last);
        assert forall|cell: int| 0 <= cell < PIXEL_AMOUNT implies (drawn_on(x, y, sprite, cell) <==> (
            drawn_on(x, y, rest, cell) || (sprite[last] == 1 && cell == target)
        )) by {
            lemma_drawn_on_last(x, y, sprite, cell);
        }
        // No earlier pixel falls onto the cell of the last one, so that
        // cell still holds what it held before the sprite was drawn.
        assert(!drawn_on(x, y, rest, target)) by {
            if drawn_on(x, y, rest, target) {
                let i = choose|i: int|
                    0 <= i < rest.len() && rest[i] == 1 && #[trigger] sprite_cell(x, y, i) == target;
                lemma_sprite_cells_differ(x, y, i, last);
            }
        }
        assert(before[target] == pixels[target]);
        assert forall|cell: int| 0 <= cell < PIXEL_AMOUNT implies #[trigger] blit_pixels(
            pixels,
            x,
            y,
            sprite,
        )[cell] == if drawn_on(x, y, sprite, cell) {
            pixels[cell] ^ 1u8
        } else {
            pixels[cell]
        } by {
            assert(before[cell] == if drawn_on(x, y, rest, cell) {
                pixels[cell] ^ 1u8
            } else {
                pixels[cell]
            });
        }
        if blit_collides(pixels, x, y, sprite) {
            if blit_collides(pixels, x, y, rest) {
                let cell = choose|cell: int|
                    0 <= cell < PIXEL_AMOUNT && #[trigger] drawn_on(x, y, rest, cell) && pixels[cell]
                        == 1;
                assert(drawn_on(x, y, sprite, cell) && pixels[cell] == 1);
            } else {
                assert(drawn_on(x, y, sprite, target) && pixels[target] == 1);
            }
        }
        if exists|cell: int|
            0 <= cell < PIXEL_AMOUNT && #[trigger] drawn_on(x, y, sprite, cell) && pixels[cell] == 1 {
            let cell = choose|cell: int|
                0 <= cell < PIXEL_AMOUNT && #[trigger] drawn_on(x, y, sprite, cell) && pixels[cell]
                    == 1;
            assert(drawn_on(x, y, rest, cell) ==> blit_collides(pixels, x, y, rest));
            assert(blit_collides(pixels, x, y, sprite));
        }
    }
}

/// Flipping a cell before a sprite is drawn or after it gives the same
/// framebuffer.
pub proof fn lemma_flip_before_or_after(pixels: Seq<u8>, cell: int, x: int, y: int, sprite: Seq<u8>)
    requires
        pixels.len() == PIXEL_AMOUNT,
        0 <= cell < PIXEL_AMOUNT,
        0 <= x,
        0 <= y,
    ensures
        blit_pixels(flip(pixels, cell), x, y, sprite) == flip(
            blit_pixels(pixels, x, y, sprite),
            cell,
        ),
    decreases sprite.len(),
{
    if sprite.len() > 0 {
        let rest = sprite.drop_last();
        let target = sprite_cell(x, y, sprite.len() - 1);
        let drawn = blit_pixels(pixels, x, y, rest);
        lemma_flip_before_or_after(pixels, cell, x, y, rest);
        lemma_blit_pixels_len(pixels, x, y, rest);
        lemma_sprite_cell_in_range(x, y, sprite.len() - 1);
        // Two flips can be made in either order.
        assert(flip(flip(drawn, cell), target) =~= flip(flip(drawn, target), cell));
    }
}

/// XOR cancellation: a sprite drawn twice at the same place leaves the
/// framebuffer as it was.
pub proof fn lemma_blit_twice_restores(pixels: Seq<u8>, x: int, y: int, sprite: Seq<u8>)
    requires
        pixels.len() == PIXEL_AMOUNT,
        0 <= x,
        0 <= y,
    ensures
        blit_pixels(blit_pixels(pixels, x, y, sprite), x, y, sprite) == pixels,
    decreases sprite.len(),
{
    if sprite.len() > 0 {
        let rest = sprite.drop_last();
        let target = sprite_cell(x, y, sprite.len() - 1);
        let once = blit_pixels(pixels, x, y, rest);
        lemma_blit_twice_restores(pixels, x, y, rest);
        lemma_blit_pixels_len(pixels, x, y, rest);
        lemma_sprite_cell_in_range(x, y, sprite.len() - 1);
        if sprite.last() == 1 {
            // The second drawing flips the last pixel's cell once more,
            // on top of the rest drawn twice.
            lemma_flip_before_or_after(once, target, x, y, rest);
            let value = pixels[target];
            assert((value ^ 1u8) ^ 1u8 == value) by (bit_vector);
            assert(flip(flip(pixels, target), target) =~= pixels);
        }
    }
}

/// Drawing keeps a framebuffer of zeros and ones one of zeros and ones.
pub proof fn lemma_blit_keeps_binary(pixels: Seq<u8>, x: int, y: int, sprite: Seq<u8>)
    requires
        pixels.len() == PIXEL_AMOUNT,
        binary(pixels),
        0 <= x,
        0 <= y,
    ensures
        binary(blit_pixels(pixels, x, y, sprite)),
    decreases sprite.len(),
{
    if sprite.len() > 0 {
        let rest = sprite.drop_last();
        let target = sprite_cell(x, y, sprite.len() - 1);
        let before = blit_pixels(pixels, x, y, rest);
        lemma_blit_keeps_binary(pixels, x, y, rest);
        lemma_blit_pixels_len(pixels, x, y, rest);
        lemma_sprite_cell_in_range(x, y, sprite.len() - 1);
        let value = before[target];
        assert(value <= 1 ==> (value ^ 1u8) <= 1) by (bit_vector);
    }
}

impl System {
    /// Turns every pixel off. Nothing else changes.
    pub fn clear_screen(&mut self)
        ensures
            final(self)@ == (Machine {
                pixels: blank_screen(),
                ..old(self)@
            }),
    {
        self.pixels = [0; PIXEL_AMOUNT];
        proof {
            assert(self.pixels@ =~= blank_screen());
        }
    }

    /// Draws `sprite`, a sequence of pixels in rows of eight, at `(x, y)`.
    /// A pixel equal to 1 flips the cell it falls onto; any other value
    /// draws nothing. `VF` becomes 1 if some cell was turned off, else 0.
    /// Nothing but the framebuffer and `VF` changes.
    pub fn blit_sprite(&mut self, x: u8, y: u8, sprite: &[u8])
        ensures
            final(self)@ == (Machine {
                pixels: blit_pixels(old(self)@.pixels, x as int, y as int, sprite@),
                registers: old(self)@.registers.update(
                    15,
                    flag(blit_collides(old(self)@.pixels, x as int, y as int, sprite@)),
                ),
                ..old(self)@
            }),
    {
        let mut collided = false;
        let mut index: usize = 0;
        while index < sprite.len()
            invariant
                index <= sprite.len(),
                self.pixels@ == blit_pixels(
                    old(self).pixels@,
                    x as int,
                    y as int,
                    sprite@.take(index as int),
                ),
                collided == blit_collides(
                    old(self).pixels@,
                    x as int,
                    y as int,
                    sprite@.take(index as int),
                ),
                self.program_counter == old(self).program_counter,
                self.stack_pointer == old(self).stack_pointer,
                self.stack == old(self).stack,
                self.memory == old(self).memory,
                self.v_registers == old(self).v_registers,
                self.i_register == old(self).i_register,
                self.time_register == old(self).time_register,
                self.sound_register == old(self).sound_register,
            decreases sprite.len() - index,
        {
            proof {
                assert(sprite@.take(index + 1).drop_last() =~= sprite@.take(index as int));
                lemma_sprite_cell_in_range(x as int, y as int, index as int);
            }
            if sprite[index] == 1 {
                let column = (x as usize + index % 8) % SCREEN_WIDTH;
                let row = (y as usize + index / 8) % SCREEN_HEIGHT;
                let cell = row * SCREEN_WIDTH + column;
                if self.pixels[cell] == 1 {
                    collided = true;
                }
                self.pixels[cell] = self.pixels[cell] ^ 1;
            }
            index += 1;
        }
        proof {
            assert(sprite@.take(sprite@.len() as int) =~= sprite@);
        }
        self.v_registers[15] = if collided {
            1
        } else {
            0
        };
    }
}

} // verus!
