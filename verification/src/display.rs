//! The display: a grid of 64 by 32 pixels, stored row by row, and the one
//! way to write to it, drawing a sprite.
//!
//! A sprite is a run of bytes in memory, one byte for each of its rows, the
//! highest bit of a byte its leftmost pixel. Drawing flips every pixel that
//! lies under a set bit. Each pixel of the sprite wraps around the edges of
//! the display by itself.

use vstd::arithmetic::div_mod::{lemma_fundamental_div_mod, lemma_fundamental_div_mod_converse};
use vstd::prelude::*;

use crate::state::{RAM_SIZE, SCREEN_HEIGHT, SCREEN_SIZE, SCREEN_WIDTH};

verus! {

/// Whether a sprite row has a set bit for column `col`; column 0 is the
/// highest bit.
pub open spec fn sprite_bit(row: u8, col: u8) -> bool {
    row & (0x80u8 >> col) != 0
}

/// The sprite of `rows` rows that starts at `at` in memory.
pub open spec fn sprite_at(ram: Seq<u8>, at: int, rows: int) -> Seq<u8> {
    Seq::new(rows as nat, |r: int| ram[at + r])
}

/// Whether `sprite`, drawn with its top left corner at `(vx, vy)`, has a
/// set bit on pixel `p`.
///
/// Pixel `p` is in column `p % 64` of row `p / 64`. Going back from there
/// by `(vx, vy)` around the display gives the column and the row of the
/// sprite that fall on it, if any do.
pub open spec fn sprite_covers(sprite: Seq<u8>, vx: u8, vy: u8, p: int) -> bool {
    let col = (p % 64 - vx) % 64;
    let row = (p / 64 - vy) % 32;
    col < 8 && row < sprite.len() && sprite_bit(sprite[row], col as u8)
}

/// Whether drawing `sprite` at `(vx, vy)` switches off a pixel of `screen`
/// that was lit.
pub open spec fn sprite_collides(screen: Seq<bool>, sprite: Seq<u8>, vx: u8, vy: u8) -> bool {
    exists|p: int|
        0 <= p < screen.len() && screen[p] && #[trigger] sprite_covers(sprite, vx, vy, p)
}

/// The display after `sprite` was drawn at `(vx, vy)`: every pixel under a
/// set bit of the sprite is flipped, every other pixel is left as it is.
pub open spec fn sprite_drawn(screen: Seq<bool>, sprite: Seq<u8>, vx: u8, vy: u8) -> Seq<bool> {
    Seq::new(screen.len(), |p: int| screen[p] != sprite_covers(sprite, vx, vy, p))
}

/// The pixel that column `col` of row `row` of a sprite drawn at `(vx, vy)`
/// falls on.
spec fn pixel_index(vx: u8, vy: u8, row: int, col: int) -> int {
    (vx + col) % 64 + 64 * ((vy + row) % 32)
}

/// Whether pixel `p` lies under a set bit of the sprite that a draw has
/// reached already: in a sprite row before `row`, or in row `row` in a
/// column before `col`.
#[verifier::opaque]
spec fn covered_before(sprite: Seq<u8>, vx: u8, vy: u8, row: int, col: int, p: int) -> bool {
    let c = (p % 64 - vx) % 64;
    let r = (p / 64 - vy) % 32;
    sprite_covers(sprite, vx, vy, p) && (r < row || (r == row && c < col))
}

/// On a circle of 64 places, going back `v` places from `a` ends at `c`
/// exactly if going on `c` places from `v` ends at `a`.
proof fn lemma_wrap_64(a: int, v: int, c: int)
    requires
        0 <= a < 64,
        0 <= c < 64,
    ensures
        ((a - v) % 64 == c) <==> (a == (v + c) % 64),
{
    if (a - v) % 64 == c {
        let q = (a - v) / 64;
        lemma_fundamental_div_mod(a - v, 64);
        lemma_fundamental_div_mod_converse(v + c, 64, -q, a);
    }
    if a == (v + c) % 64 {
        let q = (v + c) / 64;
        lemma_fundamental_div_mod(v + c, 64);
        lemma_fundamental_div_mod_converse(a - v, 64, -q, c);
    }
}

/// The same on a circle of 32 places.
proof fn lemma_wrap_32(a: int, v: int, c: int)
    requires
        0 <= a < 32,
        0 <= c < 32,
    ensures
        ((a - v) % 32 == c) <==> (a == (v + c) % 32),
{
    if (a - v) % 32 == c {
        let q = (a - v) / 32;
        lemma_fundamental_div_mod(a - v, 32);
        lemma_fundamental_div_mod_converse(v + c, 32, -q, a);
    }
    if a == (v + c) % 32 {
        let q = (v + c) / 32;
        lemma_fundamental_div_mod(v + c, 32);
        lemma_fundamental_div_mod_converse(a - v, 32, -q, c);
    }
}

/// Only the pixel at `pixel_index` leads back to a given column and row of
/// the sprite.
proof fn lemma_pixel_position(vx: u8, vy: u8, row: int, col: int, p: int)
    requires
        0 <= row < 32,
        0 <= col < 64,
        0 <= p < SCREEN_SIZE,
    ensures
        ((p % 64 - vx) % 64 == col && (p / 64 - vy) % 32 == row) <==> p == pixel_index(
            vx,
            vy,
            row,
            col,
        ),
{
    let px = p % 64;
    let py = p / 64;
    let tx = (vx + col) % 64;
    let ty = (vy + row) % 32;
    lemma_fundamental_div_mod(p, 64);
    lemma_wrap_64(px, vx as int, col);
    lemma_wrap_32(py, vy as int, row);
    if p == tx + 64 * ty {
        lemma_fundamental_div_mod_converse(p, 64, ty, tx);
    }
}

/// Before a draw starts it has reached no pixel.
proof fn lemma_covered_none(sprite: Seq<u8>, vx: u8, vy: u8, p: int)
    requires
        0 <= p < SCREEN_SIZE,
    ensures
        !covered_before(sprite, vx, vy, 0, 0, p),
{
    reveal(covered_before);
}

/// One more column of a row adds at most the pixel under that column, and
/// adds it where the bit for the column is set.
proof fn lemma_covered_step(sprite: Seq<u8>, vx: u8, vy: u8, row: int, col: int, p: int)
    requires
        0 <= row < sprite.len() <= 32,
        0 <= col < 8,
        0 <= p < SCREEN_SIZE,
    ensures
        covered_before(sprite, vx, vy, row, col + 1, p) == (covered_before(
            sprite,
            vx,
            vy,
            row,
            col,
            p,
        ) || (sprite_bit(sprite[row], col as u8) && p == pixel_index(vx, vy, row, col))),
        p == pixel_index(vx, vy, row, col) ==> !covered_before(sprite, vx, vy, row, col, p),
{
    reveal(covered_before);
    lemma_pixel_position(vx, vy, row, col, p);
}

/// A row has eight columns: past them the next row begins.
proof fn lemma_covered_row_end(sprite: Seq<u8>, vx: u8, vy: u8, row: int, p: int)
    requires
        0 <= p < SCREEN_SIZE,
    ensures
        covered_before(sprite, vx, vy, row + 1, 0, p) == covered_before(sprite, vx, vy, row, 8, p),
{
    reveal(covered_before);
}

/// Past its last row a draw has reached the whole sprite.
proof fn lemma_covered_all(sprite: Seq<u8>, vx: u8, vy: u8, p: int)
    requires
        0 <= p < SCREEN_SIZE,
    ensures
        covered_before(sprite, vx, vy, sprite.len() as int, 0, p) == sprite_covers(
            sprite,
            vx,
            vy,
            p,
        ),
{
    reveal(covered_before);
}

/// Draws the sprite of `rows` rows that starts at `at` in memory onto the
/// display, its top left corner at `(vx, vy)`. Tells whether a pixel that
/// was lit went out.
///
/// The sprite has to lie inside memory and to be no higher than the
/// display, so that no two of its pixels fall on the same place.
pub(crate) fn draw_sprite(
    screen: &mut [bool; SCREEN_SIZE],
    ram: &[u8; RAM_SIZE],
    at: usize,
    rows: usize,
    vx: u8,
    vy: u8,
) -> (collision: bool)
    requires
        rows <= SCREEN_HEIGHT,
        at + rows <= RAM_SIZE,
    ensures
        final(screen)@ == sprite_drawn(old(screen)@, sprite_at(ram@, at as int, rows as int), vx, vy),
        collision == sprite_collides(old(screen)@, sprite_at(ram@, at as int, rows as int), vx, vy),
    no_unwind
{
    let ghost before = screen@;
    let ghost sprite = sprite_at(ram@, at as int, rows as int);
    let mut flipped = false;
    let mut row: usize = 0;
    proof {
        assert forall|p: int| 0 <= p < SCREEN_SIZE implies !#[trigger] covered_before(
            sprite,
            vx,
            vy,
            0,
            0,
            p,
        ) by {
            lemma_covered_none(sprite, vx, vy, p);
        }
    }
    while row < rows
        invariant
            row <= rows <= SCREEN_HEIGHT,
            at + rows <= RAM_SIZE,
            sprite == sprite_at(ram@, at as int, rows as int),
            before.len() == SCREEN_SIZE,
            forall|p: int|
                0 <= p < SCREEN_SIZE ==> screen[p] == (before[p] != #[trigger] covered_before(
                    sprite,
                    vx,
                    vy,
                    row as int,
                    0,
                    p,
                )),
            flipped <==> exists|p: int|
                0 <= p < SCREEN_SIZE && before[p] && #[trigger] covered_before(
                    sprite,
                    vx,
                    vy,
                    row as int,
                    0,
                    p,
                ),
        decreases rows - row,
    {
        let pixels = ram[at + row];
        let mut col: u8 = 0;
        while col < 8
            invariant
                row < rows <= SCREEN_HEIGHT,
                col <= 8,
                sprite.len() == rows,
                pixels == sprite[row as int],
                before.len() == SCREEN_SIZE,
                forall|p: int|
                    0 <= p < SCREEN_SIZE ==> screen[p] == (before[p] != #[trigger] covered_before(
                        sprite,
                        vx,
                        vy,
                        row as int,
                        col as int,
                        p,
                    )),
                flipped <==> exists|p: int|
                    0 <= p < SCREEN_SIZE && before[p] && #[trigger] covered_before(
                        sprite,
                        vx,
                        vy,
                        row as int,
                        col as int,
                        p,
                    ),
            decreases 8 - col,
        {
            let px = (vx as usize + col as usize) % SCREEN_WIDTH;
            let py = (vy as usize + row) % SCREEN_HEIGHT;
            let idx = px + SCREEN_WIDTH * py;
            let lit = pixels & (0x80u8 >> col) != 0;
            let ghost was_flipped = flipped;
            proof {
                assert(idx == pixel_index(vx, vy, row as int, col as int));
                assert(lit == sprite_bit(pixels, col));
                assert forall|p: int| 0 <= p < SCREEN_SIZE implies #[trigger] covered_before(
                    sprite,
                    vx,
                    vy,
                    row as int,
                    col + 1,
                    p,
                ) == (covered_before(sprite, vx, vy, row as int, col as int, p) || (lit && p
                    == idx)) by {
                    lemma_covered_step(sprite, vx, vy, row as int, col as int, p);
                }
                lemma_covered_step(sprite, vx, vy, row as int, col as int, idx as int);
            }
            if lit {
                flipped = flipped || screen[idx];
                screen[idx] = !screen[idx];
            }
            proof {
                if was_flipped {
                    let p = choose|p: int|
                        0 <= p < SCREEN_SIZE && before[p] && #[trigger] covered_before(
                            sprite,
                            vx,
                            vy,
                            row as int,
                            col as int,
                            p,
                        );
                    assert(covered_before(sprite, vx, vy, row as int, col + 1, p));
                } else if flipped {
                    assert(covered_before(sprite, vx, vy, row as int, col + 1, idx as int));
                }
            }
            col += 1;
        }
        proof {
            assert forall|p: int| 0 <= p < SCREEN_SIZE implies #[trigger] covered_before(
                sprite,
                vx,
                vy,
                row + 1,
                0,
                p,
            ) == covered_before(sprite, vx, vy, row as int, 8, p) by {
                lemma_covered_row_end(sprite, vx, vy, row as int, p);
            }
            if flipped {
                let p = choose|p: int|
                    0 <= p < SCREEN_SIZE && before[p] && #[trigger] covered_before(
                        sprite,
                        vx,
                        vy,
                        row as int,
                        8,
                        p,
                    );
                assert(covered_before(sprite, vx, vy, row + 1, 0, p));
            }
        }
        row += 1;
    }
    proof {
        assert forall|p: int| 0 <= p < SCREEN_SIZE implies #[trigger] screen[p] == (before[p]
            != sprite_covers(sprite, vx, vy, p)) by {
            lemma_covered_all(sprite, vx, vy, p);
        }
        if flipped {
            let p = choose|p: int|
                0 <= p < SCREEN_SIZE && before[p] && #[trigger] covered_before(
                    sprite,
                    vx,
                    vy,
                    rows as int,
                    0,
                    p,
                );
            lemma_covered_all(sprite, vx, vy, p);
        }
        if sprite_collides(before, sprite, vx, vy) {
            let p = choose|p: int|
                0 <= p < before.len() && before[p] && #[trigger] sprite_covers(sprite, vx, vy, p);
            lemma_covered_all(sprite, vx, vy, p);
        }
        assert(screen@ =~= sprite_drawn(before, sprite, vx, vy));
    }
    flipped
}

/// Drawing the same sprite twice at the same place gives back the display
/// as it was.
pub proof fn draw_twice_restores(screen: Seq<bool>, sprite: Seq<u8>, vx: u8, vy: u8)
    ensures
        sprite_drawn(sprite_drawn(screen, sprite, vx, vy), sprite, vx, vy) == screen,
{
    assert(sprite_drawn(sprite_drawn(screen, sprite, vx, vy), sprite, vx, vy) =~= screen);
}

/// A draw over pixels that are all off lights exactly the pixels under the
/// sprite's set bits and meets no lit pixel; the same draw again finds
/// every pixel that the sprite covers lit, so it meets one exactly if the
/// sprite has a set bit on the display at all.
pub proof fn draw_twice_collides_second_time(screen: Seq<bool>, sprite: Seq<u8>, vx: u8, vy: u8)
    requires
        forall|p: int|
            0 <= p < screen.len() && #[trigger] sprite_covers(sprite, vx, vy, p) ==> !screen[p],
    ensures
        !sprite_collides(screen, sprite, vx, vy),
        forall|p: int|
            0 <= p < screen.len() ==> sprite_drawn(screen, sprite, vx, vy)[p] == (screen[p]
                || sprite_covers(sprite, vx, vy, p)),
        sprite_collides(sprite_drawn(screen, sprite, vx, vy), sprite, vx, vy) == exists|p: int|
            0 <= p < screen.len() && #[trigger] sprite_covers(sprite, vx, vy, p),
{
    let first = sprite_drawn(screen, sprite, vx, vy);
    if exists|p: int| 0 <= p < screen.len() && #[trigger] sprite_covers(sprite, vx, vy, p) {
        let p = choose|p: int| 0 <= p < screen.len() && #[trigger] sprite_covers(sprite, vx, vy, p);
        assert(first[p] && sprite_covers(sprite, vx, vy, p));
    }
}

} // verus!
