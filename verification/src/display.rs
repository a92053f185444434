use vstd::prelude::*;

verus! {

/// Pixels in one row of the display.
pub const SCREEN_WIDTH: usize = 64;

/// Rows of the display.
pub const SCREEN_HEIGHT: usize = 32;

/// Pixels of the display. The pixel at column `x` of row `y` has the linear
/// index `x + 64 * y`.
pub const SCREEN_SIZE: usize = 2048;

/// Whether the pixel in column `col` of a sprite row is set. Column 0 is the
/// most significant bit of the byte.
pub open spec fn sprite_bit(byte: u8, col: int) -> bool {
    byte & (0x80u8 >> (col as u8)) != 0
}

/// The sprite column that falls on a pixel when the sprite's left edge is at
/// `vx`: the pixel's distance to the right of the edge, around the display.
pub open spec fn sprite_column(pixel: int, vx: u8) -> int {
    (pixel % 64 - vx) % 64
}

/// The sprite row that falls on a pixel when the sprite's top edge is at
/// `vy`: the pixel's distance below the edge, around the display.
pub open spec fn sprite_row(pixel: int, vy: u8) -> int {
    (pixel / 64 - vy) % 32
}

/// The pixel on which column `col` of row `row` of a sprite falls. Both
/// coordinates wrap around the display, each by itself.
pub open spec fn sprite_target(vx: u8, vy: u8, row: int, col: int) -> int {
    (vx + col) % 64 + ((vy + row) % 32) * 64
}

/// Whether a sprite of `rows` rows, read from `memory` at `index` and placed
/// at (`vx`, `vy`), has a set bit on `pixel`.
pub open spec fn sprite_covers(
    memory: Seq<u8>,
    index: int,
    vx: u8,
    vy: u8,
    rows: int,
    pixel: int,
) -> bool {
    let col = sprite_column(pixel, vx);
    let row = sprite_row(pixel, vy);
    col < 8 && row < rows && sprite_bit(memory[index + row], col)
}

/// The display after a sprite is drawn: each pixel under a set bit of the
/// sprite is toggled, every other pixel is kept.
pub open spec fn draw_display(
    display: Seq<bool>,
    memory: Seq<u8>,
    index: int,
    vx: u8,
    vy: u8,
    rows: int,
) -> Seq<bool> {
    Seq::new(
        display.len(),
        |pixel: int| display[pixel] != sprite_covers(memory, index, vx, vy, rows, pixel),
    )
}

/// Whether drawing a sprite turns a lit pixel off.
pub open spec fn draw_collides(
    display: Seq<bool>,
    memory: Seq<u8>,
    index: int,
    vx: u8,
    vy: u8,
    rows: int,
) -> bool {
    exists|pixel: int|
        #![trigger display[pixel]]
        0 <= pixel < display.len() && display[pixel] && sprite_covers(
            memory,
            index,
            vx,
            vy,
            rows,
            pixel,
        )
}

/// Whether a pixel lies under a part of the sprite that comes before column
/// `col` of row `row`, rows taken from the top and columns from the left.
pub open spec fn drawn_before(vx: u8, vy: u8, row: int, col: int, pixel: int) -> bool {
    sprite_row(pixel, vy) < row || (sprite_row(pixel, vy) == row && sprite_column(pixel, vx) < col)
}

/// Whether the part of a sprite before column `col` of row `row` turns a lit
/// pixel off.
pub open spec fn collides_before(
    display: Seq<bool>,
    memory: Seq<u8>,
    index: int,
    vx: u8,
    vy: u8,
    rows: int,
    row: int,
    col: int,
) -> bool {
    exists|pixel: int|
        #![trigger display[pixel]]
        0 <= pixel < display.len() && display[pixel] && sprite_covers(
            memory,
            index,
            vx,
            vy,
            rows,
            pixel,
        ) && drawn_before(vx, vy, row, col, pixel)
}

/// A sprite's bit at (`row`, `col`) falls on a pixel of the display, and of
/// all the sprite's bits only that one falls there.
pub proof fn lemma_sprite_target(vx: u8, vy: u8, row: int, col: int)
    requires
        0 <= row < 16,
        0 <= col < 8,
    ensures
        0 <= sprite_target(vx, vy, row, col) < 2048,
        sprite_row(sprite_target(vx, vy, row, col), vy) == row,
        sprite_column(sprite_target(vx, vy, row, col), vx) == col,
{
}

/// Every pixel of the display is the target of the sprite position that
/// `sprite_row` and `sprite_column` give for it.
pub proof fn lemma_sprite_source(vx: u8, vy: u8, pixel: int)
    requires
        0 <= pixel < 2048,
    ensures
        0 <= sprite_row(pixel, vy) < 32,
        0 <= sprite_column(pixel, vx) < 64,
        pixel == sprite_target(vx, vy, sprite_row(pixel, vy), sprite_column(pixel, vx)),
{
}

/// Column and row of the pixel with the linear index `index`.
pub fn pixel_position(index: usize) -> (position: (usize, usize))
    requires
        index < 2048,
    ensures
        position.0 == index % 64,
        position.1 == index / 64,
        position.0 < 64,
        position.1 < 32,
        position.0 + 64 * position.1 == index,
{
    (index % SCREEN_WIDTH, index / SCREEN_WIDTH)
}

/// Draws a sprite of `rows` rows, read from `memory` at `index`, with its top
/// left corner at column `vx` modulo 64 of row `vy` modulo 32. Each set bit
/// toggles the pixel it falls on. Returns whether a lit pixel was turned off.
pub fn draw_sprite(
    screen: &mut [bool; 2048],
    memory: &[u8; 4096],
    index: usize,
    vx: u8,
    vy: u8,
    rows: u8,
) -> (collision: bool)
    requires
        rows < 16,
        index + rows <= 4096,
    ensures
        final(screen)@ == draw_display(old(screen)@, memory@, index as int, vx, vy, rows as int),
        collision == draw_collides(old(screen)@, memory@, index as int, vx, vy, rows as int),
{
    let ghost before = screen@;
    let ghost mem = memory@;
    let ghost idx = index as int;
    let ghost n = rows as int;
    let mut flipped = false;
    let mut row: u8 = 0;
    while row < rows
        invariant
            row <= rows < 16,
            index + rows <= 4096,
            before == old(screen)@,
            mem == memory@,
            idx == index as int,
            n == rows as int,
            forall|p: int|
                0 <= p < 2048 ==> #[trigger] screen@[p] == (before[p] != (sprite_covers(
                    mem,
                    idx,
                    vx,
                    vy,
                    n,
                    p,
                ) && drawn_before(vx, vy, row as int, 0, p))),
            flipped == collides_before(before, mem, idx, vx, vy, n, row as int, 0),
        decreases rows - row,
    {
        let pixels: u8 = memory[index + row as usize];
        let mut col: u8 = 0;
        while col < 8
            invariant
                row < rows < 16,
                col <= 8,
                index + rows <= 4096,
                before == old(screen)@,
                mem == memory@,
                idx == index as int,
                n == rows as int,
                pixels == mem[idx + row],
                forall|p: int|
                    0 <= p < 2048 ==> #[trigger] screen@[p] == (before[p] != (sprite_covers(
                        mem,
                        idx,
                        vx,
                        vy,
                        n,
                        p,
                    ) && drawn_before(vx, vy, row as int, col as int, p))),
                flipped == collides_before(before, mem, idx, vx, vy, n, row as int, col as int),
            decreases 8 - col,
        {
            let x: usize = (vx as usize + col as usize) % SCREEN_WIDTH;
            let y: usize = (vy as usize + row as usize) % SCREEN_HEIGHT;
            let target: usize = x + y * SCREEN_WIDTH;
            proof {
                lemma_sprite_target(vx, vy, row as int, col as int);
                assert(target == sprite_target(vx, vy, row as int, col as int));
                assert forall|p: int| 0 <= p < 2048 && p != target implies drawn_before(
                    vx,
                    vy,
                    row as int,
                    col + 1,
                    p,
                ) == drawn_before(vx, vy, row as int, col as int, p) by {
                    lemma_sprite_source(vx, vy, p);
                }
                assert(!drawn_before(vx, vy, row as int, col as int, target as int));
                assert(drawn_before(vx, vy, row as int, col + 1, target as int));
                assert(screen@[target as int] == before[target as int]);
            }
            let ghost prior = screen@;
            if (pixels & (0x80u8 >> col)) != 0 {
                assert(sprite_covers(mem, idx, vx, vy, n, target as int));
                let lit = screen[target];
                flipped = flipped || lit;
                screen[target] = !lit;
                proof {
                    if lit {
                        assert(before[target as int]);
                    }
                }
            } else {
                assert(!sprite_covers(mem, idx, vx, vy, n, target as int));
            }
            proof {
                assert forall|p: int| 0 <= p < 2048 implies #[trigger] screen@[p] == (before[p]
                    != (sprite_covers(mem, idx, vx, vy, n, p) && drawn_before(
                    vx,
                    vy,
                    row as int,
                    col + 1,
                    p,
                ))) by {
                    assert(prior[p] == (before[p] != (sprite_covers(mem, idx, vx, vy, n, p)
                        && drawn_before(vx, vy, row as int, col as int, p))));
                }
            }
            col = col + 1;
        }
        proof {
            assert forall|p: int| 0 <= p < 2048 implies (sprite_covers(mem, idx, vx, vy, n, p)
                && drawn_before(vx, vy, row as int, 8, p)) == (sprite_covers(
                mem,
                idx,
                vx,
                vy,
                n,
                p,
            ) && drawn_before(vx, vy, row + 1, 0, p)) by {}
        }
        row = row + 1;
    }
    proof {
        assert forall|p: int| 0 <= p < 2048 implies (sprite_covers(mem, idx, vx, vy, n, p)
            && drawn_before(vx, vy, n, 0, p)) == sprite_covers(mem, idx, vx, vy, n, p) by {}
        assert(screen@ =~= draw_display(before, mem, idx, vx, vy, n));
    }
    flipped
}

} // verus!
