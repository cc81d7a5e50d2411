//! The 64x32 two-state framebuffer.

use vstd::prelude::*;

verus! {

/// Number of pixel columns.
pub const SCREEN_WIDTH: usize = 64;

/// Number of pixel rows.
pub const SCREEN_HEIGHT: usize = 32;

/// The state of one pixel.
#[derive(Debug, Clone, Copy, PartialEq, Eq, Structural)]
pub enum PixelState {
    On,
    Off,
}

/// A grid of 32 rows by 64 columns of pixels.
pub struct Screen {
    pixels: [[PixelState; 64]; 32],
}

impl View for Screen {
    type V = Seq<Seq<PixelState>>;

    /// The rows of the grid from top to bottom, each row from left to right:
    /// the pixel at column `x` of row `y` is `self@[y][x]`.
    closed spec fn view(&self) -> Seq<Seq<PixelState>> {
        Seq::new(32, |y: int| self.pixels@[y]@)
    }
}

/// A grid of the right dimensions: 32 rows of 64 pixels each.
pub open spec fn is_grid(pixels: Seq<Seq<PixelState>>) -> bool {
    &&& pixels.len() == SCREEN_HEIGHT
    &&& forall|y: int| 0 <= y < SCREEN_HEIGHT ==> (#[trigger] pixels[y]).len() == SCREEN_WIDTH
}

/// The grid in which every pixel is off.
pub open spec fn blank_grid() -> Seq<Seq<PixelState>> {
    Seq::new(SCREEN_HEIGHT as nat, |y: int| Seq::new(SCREEN_WIDTH as nat, |x: int| PixelState::Off))
}

/// The most rows a sprite can have.
pub const MAX_SPRITE_ROWS: usize = 15;

/// The other state.
pub open spec fn toggled(pixel: PixelState) -> PixelState {
    match pixel {
        PixelState::On => PixelState::Off,
        PixelState::Off => PixelState::On,
    }
}

/// Whether the bit of `bits` for `column` is set. Column 0 is the leftmost
/// pixel of a sprite row and the most significant bit of its byte.
pub open spec fn sprite_bit(bits: u8, column: int) -> bool {
    (bits >> ((7 - column) as u8)) & 1 == 1
}

/// The column of a sprite drawn at column `x` that lands on column `px` of
/// the grid. Columns wrap: the sprite's column `c` lands on
/// `(x mod 64 + c) mod 64`, so `px` is met by column `(px - x) mod 64`.
pub open spec fn sprite_column(x: int, px: int) -> int {
    (px - x) % 64
}

/// The row of a sprite drawn at row `y` that lands on row `py` of the grid.
/// Rows wrap: the sprite's row `r` lands on `(y mod 32 + r) mod 32`, so `py`
/// is met by row `(py - y) mod 32`.
pub open spec fn sprite_row(y: int, py: int) -> int {
    (py - y) % 32
}

/// Whether a sprite row `bits` drawn at column `x` has a set bit over column
/// `px`, among its first `width` columns.
pub open spec fn row_covers(bits: u8, x: int, width: int, px: int) -> bool {
    sprite_column(x, px) < width && sprite_bit(bits, sprite_column(x, px))
}

/// Whether a sprite drawn at `(x, y)` has a set bit over pixel `(px, py)`.
pub open spec fn sprite_covers(sprite: Seq<u8>, x: int, y: int, px: int, py: int) -> bool {
    sprite_row(y, py) < sprite.len() && row_covers(sprite[sprite_row(y, py)], x, 8, px)
}

/// A pixel that is on and under a set bit of the sprite row.
pub open spec fn row_hits(row: Seq<PixelState>, bits: u8, x: int, width: int, px: int) -> bool {
    row_covers(bits, x, width, px) && row[px] == PixelState::On
}

/// A pixel that is on and under a set bit of the sprite.
pub open spec fn sprite_hits(
    pixels: Seq<Seq<PixelState>>,
    sprite: Seq<u8>,
    x: int,
    y: int,
    px: int,
    py: int,
) -> bool {
    sprite_covers(sprite, x, y, px, py) && pixels[py][px] == PixelState::On
}

/// A row of pixels after the first `width` columns of the sprite row `bits`
/// were drawn on it: the pixels under a set bit are toggled, the others kept.
pub open spec fn row_drawn(row: Seq<PixelState>, bits: u8, x: int, width: int) -> Seq<PixelState> {
    Seq::new(
        SCREEN_WIDTH as nat,
        |px: int|
            if row_covers(bits, x, width, px) {
                toggled(row[px])
            } else {
                row[px]
            },
    )
}

/// Whether drawing the first `width` columns of the sprite row `bits` turns
/// some pixel of `row` off.
pub open spec fn row_collides(row: Seq<PixelState>, bits: u8, x: int, width: int) -> bool {
    exists|px: int| 0 <= px < SCREEN_WIDTH && #[trigger] row_hits(row, bits, x, width, px)
}

/// The grid after `sprite` was drawn at `(x, y)`: the pixels under a set bit
/// are toggled, the others kept.
pub open spec fn drawn(pixels: Seq<Seq<PixelState>>, sprite: Seq<u8>, x: int, y: int) -> Seq<
    Seq<PixelState>,
> {
    Seq::new(
        SCREEN_HEIGHT as nat,
        |py: int|
            Seq::new(
                SCREEN_WIDTH as nat,
                |px: int|
                    if sprite_covers(sprite, x, y, px, py) {
                        toggled(pixels[py][px])
                    } else {
                        pixels[py][px]
                    },
            ),
    )
}

/// Whether drawing `sprite` at `(x, y)` turns some pixel off.
pub open spec fn collides(pixels: Seq<Seq<PixelState>>, sprite: Seq<u8>, x: int, y: int) -> bool {
    exists|px: int, py: int|
        0 <= px < SCREEN_WIDTH && 0 <= py < SCREEN_HEIGHT && #[trigger] sprite_hits(
            pixels,
            sprite,
            x,
            y,
            px,
            py,
        )
}

/// A pixel that is off and under a set bit of the sprite.
pub open spec fn sprite_lights(
    pixels: Seq<Seq<PixelState>>,
    sprite: Seq<u8>,
    x: int,
    y: int,
    px: int,
    py: int,
) -> bool {
    sprite_covers(sprite, x, y, px, py) && pixels[py][px] == PixelState::Off
}

/// A sprite drawn at `(x, y)` puts the bit for `column` of its row `row` on
/// the pixel at column `(x mod 64 + column) mod 64` of row
/// `(y mod 32 + row) mod 32`, and on no other pixel.
pub proof fn lemma_sprite_lands(sprite: Seq<u8>, x: int, y: int, row: int, column: int)
    requires
        0 <= row < sprite.len() <= SCREEN_HEIGHT,
        0 <= column < 8,
    ensures
        sprite_covers(sprite, x, y, (x % 64 + column) % 64, (y % 32 + row) % 32) == sprite_bit(
            sprite[row],
            column,
        ),
        forall|px: int, py: int|
            0 <= px < SCREEN_WIDTH && 0 <= py < SCREEN_HEIGHT && sprite_column(x, px) == column
                && sprite_row(y, py) == row ==> px == (x % 64 + column) % 64 && py == (y % 32
                + row) % 32,
{
    let tx = (x % 64 + column) % 64;
    let ty = (y % 32 + row) % 32;
    assert(sprite_column(x, tx) == column);
    assert(sprite_row(y, ty) == row);
    assert forall|px: int| 0 <= px < 64 && sprite_column(x, px) == column implies px == tx by {}
    assert forall|py: int| 0 <= py < 32 && sprite_row(y, py) == row implies py == ty by {}
}

/// Drawing the same sprite twice in a row at the same place gives the grid
/// back, and the second draw turns a pixel off exactly where the first one
/// turned a pixel on.
pub proof fn lemma_draw_twice_restores(pixels: Seq<Seq<PixelState>>, sprite: Seq<u8>, x: int, y: int)
    requires
        is_grid(pixels),
    ensures
        drawn(drawn(pixels, sprite, x, y), sprite, x, y) == pixels,
        collides(drawn(pixels, sprite, x, y), sprite, x, y) <==> exists|px: int, py: int|
            0 <= px < SCREEN_WIDTH && 0 <= py < SCREEN_HEIGHT && #[trigger] sprite_lights(
                pixels,
                sprite,
                x,
                y,
                px,
                py,
            ),
{
    let once = drawn(pixels, sprite, x, y);
    assert(drawn(once, sprite, x, y) =~~= pixels);
    if collides(once, sprite, x, y) {
        let (px, py) = choose|px: int, py: int|
            0 <= px < SCREEN_WIDTH && 0 <= py < SCREEN_HEIGHT && #[trigger] sprite_hits(
                once,
                sprite,
                x,
                y,
                px,
                py,
            );
        assert(sprite_lights(pixels, sprite, x, y, px, py));
    }
    if exists|px: int, py: int|
        0 <= px < SCREEN_WIDTH && 0 <= py < SCREEN_HEIGHT && #[trigger] sprite_lights(
            pixels,
            sprite,
            x,
            y,
            px,
            py,
        ) {
        let (px, py) = choose|px: int, py: int|
            0 <= px < SCREEN_WIDTH && 0 <= py < SCREEN_HEIGHT && #[trigger] sprite_lights(
                pixels,
                sprite,
                x,
                y,
                px,
                py,
            );
        assert(sprite_hits(once, sprite, x, y, px, py));
    }
}

impl Screen {
    /// Every screen is a 32 by 64 grid.
    pub proof fn lemma_is_grid(&self)
        ensures
            is_grid(self@),
    {
    }

    /// A screen with every pixel off.
    pub fn new() -> (screen: Screen)
        ensures
            screen@ == blank_grid(),
    {
        let screen = Screen { pixels: [[PixelState::Off; 64]; 32] };
        assert(screen@ =~~= blank_grid());
        screen
    }

    /// Turns every pixel off.
    pub fn clear_screen(&mut self)
        ensures
            final(self)@ == blank_grid(),
    {
        self.pixels = [[PixelState::Off; 64]; 32];
        assert(self@ =~~= blank_grid());
    }

    /// The pixel at column `x` of row `y`, or `None` when the coordinates lie
    /// outside the grid.
    pub fn get_pixel(&self, x: &u8, y: &u8) -> (pixel: Option<PixelState>)
        ensures
            pixel == (if *x < 64 && *y < 32 {
                Some(self@[*y as int][*x as int])
            } else {
                None
            }),
    {
        if *x < 64 && *y < 32 {
            Some(self.pixels[*y as usize][*x as usize])
        } else {
            None
        }
    }

    /// Sets the pixel at column `x` of row `y` to `value`.
    pub fn set_pixel(&mut self, x: &u8, y: &u8, value: PixelState)
        requires
            *x < 64,
            *y < 32,
        ensures
            final(self)@ == old(self)@.update(
                *y as int,
                old(self)@[*y as int].update(*x as int, value),
            ),
    {
        self.pixels[*y as usize][*x as usize] = value;
    }

    /// Draws the sprite row `bits` on row `py`, its leftmost pixel at column
    /// `x mod 64`, and tells whether a pixel was turned off.
    pub fn draw_row(&mut self, bits: u8, x: u8, py: u8) -> (collision: bool)
        requires
            py < 32,
        ensures
            final(self)@ == old(self)@.update(
                py as int,
                row_drawn(old(self)@[py as int], bits, x as int, 8),
            ),
            collision == row_collides(old(self)@[py as int], bits, x as int, 8),
    {
        let x_mod: u8 = x % 64;
        let mut collision = false;
        let mut column: u8 = 0;
        let ghost before = self@[py as int];
        assert(self@ =~~= old(self)@.update(py as int, row_drawn(before, bits, x as int, 0)));
        while column < 8
            invariant
                column <= 8,
                py < 32,
                x_mod == x % 64,
                before == old(self)@[py as int],
                before.len() == 64,
                self@ == old(self)@.update(
                    py as int,
                    row_drawn(before, bits, x as int, column as int),
                ),
                collision == row_collides(before, bits, x as int, column as int),
            decreases 8 - column,
        {
            let current_bit: u8 = (bits >> (7 - column)) & 1;
            let px: u8 = (x_mod + column) % 64;
            // This column of the sprite lands on `px` and on no other pixel,
            // and no earlier column has touched `px`.
            assert forall|q: int| 0 <= q < 64 implies ((#[trigger] sprite_column(x as int, q)
                == column) <==> q == px) by {}
            assert(self@[py as int][px as int] == before[px as int]);
            let ghost hit_before = row_collides(before, bits, x as int, column as int);
            let ghost previous = self@;
            if current_bit == 1 {
                match self.pixels[py as usize][px as usize] {
                    PixelState::Off => {
                        self.pixels[py as usize][px as usize] = PixelState::On;
                    },
                    PixelState::On => {
                        self.pixels[py as usize][px as usize] = PixelState::Off;
                        collision = true;
                        assert(row_hits(before, bits, x as int, column + 1, px as int));
                    },
                }
            }
            proof {
                // A pixel hit by the earlier columns is hit by these too; a
                // pixel hit by these is `px` or was hit by the earlier ones.
                if hit_before {
                    let w = choose|q: int|
                        0 <= q < 64 && #[trigger] row_hits(before, bits, x as int, column as int, q);
                    assert(row_hits(before, bits, x as int, column + 1, w));
                }
                if row_collides(before, bits, x as int, column + 1) {
                    let w = choose|q: int|
                        0 <= q < 64 && #[trigger] row_hits(before, bits, x as int, column + 1, q);
                    if w != px {
                        assert(row_hits(before, bits, x as int, column as int, w));
                    }
                }
                let target = row_drawn(before, bits, x as int, column + 1);
                assert forall|r: int| 0 <= r < 32 && r != py implies self@[r] == old(self)@[r] by {
                    assert(self@[r] =~= previous[r]);
                }
                assert(self@[py as int] =~= target);
            }
            column += 1;
        }
        collision
    }

    /// Draws `sprite`, one byte per row, with its top left pixel at column
    /// `x mod 64` of row `y mod 32`, and tells whether a pixel was turned
    /// off. Pixels under a set bit are toggled; coordinates wrap round the
    /// edges of the grid.
    pub fn draw_sprite(&mut self, sprite: &[u8], x: u8, y: u8) -> (collision: bool)
        requires
            sprite@.len() <= MAX_SPRITE_ROWS,
        ensures
            final(self)@ == drawn(old(self)@, sprite@, x as int, y as int),
            collision == collides(old(self)@, sprite@, x as int, y as int),
    {
        let y_mod: u8 = y % 32;
        let mut collision = false;
        let mut i: usize = 0;
        assert(self@ =~~= drawn(old(self)@, sprite@.take(0), x as int, y as int));
        while i < sprite.len()
            invariant
                i <= sprite@.len() <= MAX_SPRITE_ROWS,
                y_mod == y % 32,
                self@ == drawn(old(self)@, sprite@.take(i as int), x as int, y as int),
                collision == collides(old(self)@, sprite@.take(i as int), x as int, y as int),
            decreases sprite@.len() - i,
        {
            let py: u8 = (y_mod + i as u8) % 32;
            let ghost start = old(self)@;
            let ghost done = sprite@.take(i as int);
            let ghost next = sprite@.take(i + 1);
            let ghost hit_before = collides(start, done, x as int, y as int);
            // This row of the sprite lands on `py` and on no other row, and
            // no earlier row has touched `py`.
            assert forall|q: int| 0 <= q < 32 implies ((#[trigger] sprite_row(y as int, q) == i)
                <==> q == py) by {}
            assert(self@[py as int] =~= start[py as int]) by {
                assert(sprite_row(y as int, py as int) == i);
            }
            let row_collision = self.draw_row(sprite[i], x, py);
            proof {
                assert(self@ =~~= drawn(start, next, x as int, y as int));
                let row = start[py as int];
                if hit_before {
                    let (wx, wy) = choose|px: int, py: int|
                        0 <= px < 64 && 0 <= py < 32 && #[trigger] sprite_hits(
                            start,
                            done,
                            x as int,
                            y as int,
                            px,
                            py,
                        );
                    assert(sprite_hits(start, next, x as int, y as int, wx, wy));
                }
                if row_collision {
                    let w = choose|q: int|
                        0 <= q < 64 && #[trigger] row_hits(row, sprite@[i as int], x as int, 8, q);
                    assert(sprite_hits(start, next, x as int, y as int, w, py as int));
                }
                if collides(start, next, x as int, y as int) {
                    let (wx, wy) = choose|px: int, py: int|
                        0 <= px < 64 && 0 <= py < 32 && #[trigger] sprite_hits(
                            start,
                            next,
                            x as int,
                            y as int,
                            px,
                            py,
                        );
                    if wy == py {
                        assert(row_hits(row, sprite@[i as int], x as int, 8, wx));
                    } else {
                        assert(sprite_hits(start, done, x as int, y as int, wx, wy));
                    }
                }
            }
            collision = collision || row_collision;
            i += 1;
        }
        assert(sprite@.take(sprite@.len() as int) =~= sprite@);
        collision
    }
}

} // verus!
