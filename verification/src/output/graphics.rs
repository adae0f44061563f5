//! The 64x32 monochrome display and the mathematics of drawing on it.

use vstd::prelude::*;

use crate::memory::{Address, Memory};

verus! {

/// The pixels in one sprite row.
pub const SPRITE_WIDTH: usize = 8;

/// The pixels in one display row.
pub const SCREEN_WIDTH: usize = 64;

/// The rows of the display.
pub const SCREEN_HEIGHT: usize = 32;

/// The sprite rows that fit side by side in one display row.
pub const SCREEN_WIDTH_SPRITES: usize = 8;

/// The pixels of the display.
pub const SCREEN_SIZE: usize = 2048;

/// Where the pixel at column `x`, row `y` stands in row-major order. Both
/// coordinates wrap around the display.
pub open spec fn pixel_index(x: int, y: int) -> int {
    (y % 32) * 64 + (x % 64)
}

/// Whether the pixel `column` places from the left of a sprite row is set.
pub open spec fn row_bit(byte: u8, column: u8) -> bool {
    (0x80u8 >> column) & byte != 0
}

/// Whether a sprite row `byte` drawn at `(x, y)` sets a bit on the pixel at
/// index `p`, counting only the first `columns` pixels of the row.
pub open spec fn row_covers_upto(x: int, y: int, byte: u8, columns: int, p: int) -> bool {
    let column = ((p % 64) - (x % 64) + 64) % 64;
    &&& p / 64 == y % 32
    &&& column < columns
    &&& row_bit(byte, column as u8)
}

/// Whether a sprite row `byte` drawn at `(x, y)` sets a bit on the pixel at
/// index `p`.
pub open spec fn row_covers(x: int, y: int, byte: u8, p: int) -> bool {
    row_covers_upto(x, y, byte, 8, p)
}

/// The first pixel column of the display byte that holds column `x`. A
/// display row is eight bytes of eight pixels.
pub open spec fn byte_start(x: int) -> int {
    8 * ((x / 8) % 8)
}

/// The part of a sprite row drawn at column `x` that falls into the display
/// byte that holds `x`: the row shifted right to where it starts in that
/// byte.
pub open spec fn left_half(x: int, byte: u8) -> u8 {
    byte >> ((x % 8) as u8)
}

/// The part of a sprite row drawn at column `x` that falls into the display
/// byte after the one that holds `x`: the rest of the row, shifted left to
/// the start of that byte.
pub open spec fn right_half(x: int, byte: u8) -> u8 {
    byte << ((8 - x % 8) as u8)
}

/// The pixels after one sprite row was XOR-composited onto them at `(x, y)`.
pub open spec fn blit_row(pixels: Seq<bool>, x: int, y: int, byte: u8) -> Seq<bool> {
    Seq::new(pixels.len(), |p: int| pixels[p] != row_covers(x, y, byte, p))
}

/// Whether the first `columns` pixels of a sprite row drawn at `(x, y)` turn
/// a lit pixel off.
pub open spec fn row_collides_upto(
    pixels: Seq<bool>,
    x: int,
    y: int,
    byte: u8,
    columns: int,
) -> bool {
    exists|p: int|
        0 <= p < pixels.len() && pixels[p] && #[trigger] row_covers_upto(x, y, byte, columns, p)
}

/// Whether a sprite row drawn at `(x, y)` turns a lit pixel off.
pub open spec fn row_collides(pixels: Seq<bool>, x: int, y: int, byte: u8) -> bool {
    row_collides_upto(pixels, x, y, byte, 8)
}

/// Whether the first `columns` pixels of a sprite row drawn at `(x, y)`
/// change any pixel.
pub open spec fn row_touches_upto(x: int, y: int, byte: u8, columns: int) -> bool {
    exists|p: int| 0 <= p < 2048 && #[trigger] row_covers_upto(x, y, byte, columns, p)
}

/// Whether a sprite row drawn at `(x, y)` changes any pixel.
pub open spec fn row_touches(x: int, y: int, byte: u8) -> bool {
    row_touches_upto(x, y, byte, 8)
}

/// Whether a sprite drawn at `(x, y)` sets a bit on the pixel at index `p`,
/// counting only its first `count` rows. A sprite has at most 32 rows, so that
/// no two of them meet.
pub open spec fn sprite_covers_upto(x: int, y: int, rows: Seq<u8>, count: int, p: int) -> bool {
    let row = ((p / 64) - (y % 32) + 32) % 32;
    &&& row < count
    &&& row < rows.len()
    &&& row_covers(x, y + row, rows[row], p)
}

/// Whether a sprite drawn at `(x, y)` sets a bit on the pixel at index `p`.
pub open spec fn sprite_covers(x: int, y: int, rows: Seq<u8>, p: int) -> bool {
    sprite_covers_upto(x, y, rows, rows.len() as int, p)
}

/// The pixels after a sprite was XOR-composited onto them at `(x, y)`.
pub open spec fn blit(pixels: Seq<bool>, x: int, y: int, rows: Seq<u8>) -> Seq<bool> {
    Seq::new(pixels.len(), |p: int| pixels[p] != sprite_covers(x, y, rows, p))
}

/// Whether the first `count` rows of a sprite drawn at `(x, y)` turn a lit
/// pixel off.
pub open spec fn collides_upto(
    pixels: Seq<bool>,
    x: int,
    y: int,
    rows: Seq<u8>,
    count: int,
) -> bool {
    exists|p: int|
        0 <= p < pixels.len() && pixels[p] && #[trigger] sprite_covers_upto(x, y, rows, count, p)
}

/// Whether drawing the sprite at `(x, y)` turns a lit pixel off.
pub open spec fn collides(pixels: Seq<bool>, x: int, y: int, rows: Seq<u8>) -> bool {
    collides_upto(pixels, x, y, rows, rows.len() as int)
}

/// Whether the first `count` rows of a sprite drawn at `(x, y)` change any
/// pixel.
pub open spec fn touches_upto(x: int, y: int, rows: Seq<u8>, count: int) -> bool {
    exists|p: int| 0 <= p < 2048 && #[trigger] sprite_covers_upto(x, y, rows, count, p)
}

/// Whether drawing the sprite at `(x, y)` changes any pixel.
pub open spec fn touches(x: int, y: int, rows: Seq<u8>) -> bool {
    touches_upto(x, y, rows, rows.len() as int)
}

/// The pixel `column` places to the right of `(x, y)`, wrapping, is the one
/// at `(x + column, y)`, and no other.
pub proof fn lemma_column_of_pixel(x: int, y: int, column: int, p: int)
    requires
        0 <= x,
        0 <= y,
        0 <= column < 64,
        0 <= p < 2048,
    ensures
        0 <= pixel_index(x + column, y) < 2048,
        (p / 64 == y % 32 && ((p % 64) - (x % 64) + 64) % 64 == column) <==> p == pixel_index(
            x + column,
            y,
        ),
{
    let a = x % 64;
    let c = (x + column) % 64;
    assert(c == if a + column < 64 {
        a + column
    } else {
        a + column - 64
    });
    let index = (y % 32) * 64 + c;
    assert(index / 64 == y % 32 && index % 64 == c);
    assert(((c - a) + 64) % 64 == column);
    if p / 64 == y % 32 && ((p % 64) - a + 64) % 64 == column {
        assert(p % 64 == c);
        assert(p == (p / 64) * 64 + p % 64);
    }
}

/// One more column of a sprite row covers one more pixel, the one at
/// `(x + columns, y)`, if its bit is set, and nothing else.
pub proof fn lemma_row_extend(pixels: Seq<bool>, x: int, y: int, byte: u8, columns: int)
    requires
        pixels.len() == 2048,
        0 <= x,
        0 <= y,
        0 <= columns < 8,
    ensures
        0 <= pixel_index(x + columns, y) < 2048,
        !row_covers_upto(x, y, byte, columns, pixel_index(x + columns, y)),
        forall|p: int|
            0 <= p < 2048 ==> #[trigger] row_covers_upto(x, y, byte, columns + 1, p) == (
            row_covers_upto(x, y, byte, columns, p) || (p == pixel_index(x + columns, y) && row_bit(
                byte,
                columns as u8,
            ))),
        row_collides_upto(pixels, x, y, byte, columns + 1) == (row_collides_upto(
            pixels,
            x,
            y,
            byte,
            columns,
        ) || (pixels[pixel_index(x + columns, y)] && row_bit(byte, columns as u8))),
        row_touches_upto(x, y, byte, columns + 1) == (row_touches_upto(x, y, byte, columns)
            || row_bit(byte, columns as u8)),
{
    let index = pixel_index(x + columns, y);
    assert forall|p: int| 0 <= p < 2048 implies #[trigger] row_covers_upto(
        x,
        y,
        byte,
        columns + 1,
        p,
    ) == (row_covers_upto(x, y, byte, columns, p) || (p == index && row_bit(
        byte,
        columns as u8,
    ))) by {
        lemma_column_of_pixel(x, y, columns, p);
    }
    lemma_column_of_pixel(x, y, columns, index);
    if row_bit(byte, columns as u8) {
        assert(row_covers_upto(x, y, byte, columns + 1, index));
    }
    if row_collides_upto(pixels, x, y, byte, columns) {
        let p = choose|p: int|
            0 <= p < pixels.len() && pixels[p] && #[trigger] row_covers_upto(
                x,
                y,
                byte,
                columns,
                p,
            );
        assert(row_covers_upto(x, y, byte, columns + 1, p));
    }
    if row_touches_upto(x, y, byte, columns) {
        let p = choose|p: int| 0 <= p < 2048 && #[trigger] row_covers_upto(x, y, byte, columns, p);
        assert(row_covers_upto(x, y, byte, columns + 1, p));
    }
}

/// Drawing one more column of a sprite row keeps the account of the row:
/// where `before` is `shown` with the first `columns` columns drawn, and
/// `after` is `before` with the next column XORed onto its pixel, `after` is
/// `shown` with `columns + 1` columns drawn.
pub proof fn lemma_column_drawn(
    shown: Seq<bool>,
    before: Seq<bool>,
    after: Seq<bool>,
    x: int,
    y: int,
    byte: u8,
    columns: int,
)
    requires
        shown.len() == 2048,
        before.len() == 2048,
        0 <= x,
        0 <= y,
        0 <= columns < 8,
        forall|p: int|
            0 <= p < 2048 ==> before[p] == (shown[p] != #[trigger] row_covers_upto(
                x,
                y,
                byte,
                columns,
                p,
            )),
        after == before.update(
            pixel_index(x % 64 + columns, y),
            before[pixel_index(x % 64 + columns, y)] != row_bit(byte, columns as u8),
        ),
    ensures
        after.len() == 2048,
        forall|p: int|
            0 <= p < 2048 ==> after[p] == (shown[p] != #[trigger] row_covers_upto(
                x,
                y,
                byte,
                columns + 1,
                p,
            )),
        row_collides_upto(shown, x, y, byte, columns + 1) == (row_collides_upto(
            shown,
            x,
            y,
            byte,
            columns,
        ) || (before[pixel_index(x % 64 + columns, y)] && row_bit(byte, columns as u8))),
        row_touches_upto(x, y, byte, columns + 1) == (row_touches_upto(x, y, byte, columns)
            || row_bit(byte, columns as u8)),
{
    let index = pixel_index(x + columns, y);
    lemma_row_extend(shown, x, y, byte, columns);
    assert((x % 64 + columns) % 64 == (x + columns) % 64);
    assert(pixel_index(x % 64 + columns, y) == index);
    assert(before[index] == shown[index]);
    assert forall|p: int| 0 <= p < 2048 implies after[p] == (shown[p] != #[trigger] row_covers_upto(
        x,
        y,
        byte,
        columns + 1,
        p,
    )) by {
        if p == index {
            assert(after[p] == (before[p] != row_bit(byte, columns as u8)));
        } else {
            assert(after[p] == before[p]);
            assert(row_covers_upto(x, y, byte, columns + 1, p) == row_covers_upto(
                x,
                y,
                byte,
                columns,
                p,
            ));
        }
    }
}

/// No pixel is covered before the first column of a row is drawn.
pub proof fn lemma_row_empty(pixels: Seq<bool>, x: int, y: int, byte: u8)
    ensures
        forall|p: int| !#[trigger] row_covers_upto(x, y, byte, 0, p),
        !row_collides_upto(pixels, x, y, byte, 0),
        !row_touches_upto(x, y, byte, 0),
{
}

/// One more row of a sprite covers what that row covers, on a display row
/// that no earlier row of the sprite has reached.
pub proof fn lemma_sprite_extend(pixels: Seq<bool>, x: int, y: int, rows: Seq<u8>, count: int)
    requires
        pixels.len() == 2048,
        0 <= x,
        0 <= y,
        0 <= count < rows.len() <= 32,
    ensures
        forall|p: int|
            0 <= p < 2048 ==> #[trigger] sprite_covers_upto(x, y, rows, count + 1, p) == (
            sprite_covers_upto(x, y, rows, count, p) || row_covers(x, y + count, rows[count], p)),
        forall|p: int|
            0 <= p < 2048 && #[trigger] row_covers(x, y + count, rows[count], p)
                ==> !sprite_covers_upto(x, y, rows, count, p),
        collides_upto(pixels, x, y, rows, count + 1) == (collides_upto(pixels, x, y, rows, count)
            || row_collides(pixels, x, y + count, rows[count])),
        touches_upto(x, y, rows, count + 1) == (touches_upto(x, y, rows, count) || row_touches(
            x,
            y + count,
            rows[count],
        )),
{
    let byte = rows[count];
    assert forall|p: int| 0 <= p < 2048 implies #[trigger] sprite_covers_upto(
        x,
        y,
        rows,
        count + 1,
        p,
    ) == (sprite_covers_upto(x, y, rows, count, p) || row_covers(x, y + count, byte, p)) by {
        let row = ((p / 64) - (y % 32) + 32) % 32;
        if row_covers(x, y + count, byte, p) {
            assert(p / 64 == (y + count) % 32);
            assert(row == count);
        }
        if row == count {
            assert((y + row) % 32 == (y + count) % 32);
        }
    }
    assert forall|p: int|
        0 <= p < 2048 && #[trigger] row_covers(x, y + count, byte, p) implies !sprite_covers_upto(
        x,
        y,
        rows,
        count,
        p,
    ) by {
        assert(p / 64 == (y + count) % 32);
        assert(((p / 64) - (y % 32) + 32) % 32 == count);
    }
    if collides_upto(pixels, x, y, rows, count) {
        let p = choose|p: int|
            0 <= p < pixels.len() && pixels[p] && #[trigger] sprite_covers_upto(
                x,
                y,
                rows,
                count,
                p,
            );
        assert(sprite_covers_upto(x, y, rows, count + 1, p));
    }
    if row_collides(pixels, x, y + count, byte) {
        let p = choose|p: int|
            0 <= p < pixels.len() && pixels[p] && #[trigger] row_covers_upto(
                x,
                y + count,
                byte,
                8,
                p,
            );
        assert(row_covers(x, y + count, byte, p));
        assert(sprite_covers_upto(x, y, rows, count + 1, p));
    }
    if collides_upto(pixels, x, y, rows, count + 1) {
        let p = choose|p: int|
            0 <= p < pixels.len() && pixels[p] && #[trigger] sprite_covers_upto(
                x,
                y,
                rows,
                count + 1,
                p,
            );
        if !sprite_covers_upto(x, y, rows, count, p) {
            assert(row_covers_upto(x, y + count, byte, 8, p));
        }
    }
    if touches_upto(x, y, rows, count) {
        let p = choose|p: int| 0 <= p < 2048 && #[trigger] sprite_covers_upto(x, y, rows, count, p);
        assert(sprite_covers_upto(x, y, rows, count + 1, p));
    }
    if row_touches(x, y + count, byte) {
        let p = choose|p: int|
            0 <= p < 2048 && #[trigger] row_covers_upto(x, y + count, byte, 8, p);
        assert(row_covers(x, y + count, byte, p));
        assert(sprite_covers_upto(x, y, rows, count + 1, p));
    }
    if touches_upto(x, y, rows, count + 1) {
        let p = choose|p: int|
            0 <= p < 2048 && #[trigger] sprite_covers_upto(x, y, rows, count + 1, p);
        if !sprite_covers_upto(x, y, rows, count, p) {
            assert(row_covers_upto(x, y + count, byte, 8, p));
        }
    }
}

/// Drawing one more row of a sprite keeps the account of the sprite: where
/// `before` is `shown` with the first `count` rows drawn, and `after` is
/// `before` with the next row drawn, `after` is `shown` with `count + 1` rows
/// drawn, and the row collides with `before` as it would with `shown`.
pub proof fn lemma_row_drawn(
    shown: Seq<bool>,
    before: Seq<bool>,
    after: Seq<bool>,
    x: int,
    y: int,
    rows: Seq<u8>,
    count: int,
)
    requires
        shown.len() == 2048,
        before.len() == 2048,
        0 <= x,
        0 <= y,
        0 <= count < rows.len() <= 32,
        forall|p: int|
            0 <= p < 2048 ==> before[p] == (shown[p] != #[trigger] sprite_covers_upto(
                x,
                y,
                rows,
                count,
                p,
            )),
        after == blit_row(before, x, y + count, rows[count]),
    ensures
        after.len() == 2048,
        forall|p: int|
            0 <= p < 2048 ==> after[p] == (shown[p] != #[trigger] sprite_covers_upto(
                x,
                y,
                rows,
                count + 1,
                p,
            )),
        collides_upto(shown, x, y, rows, count + 1) == (collides_upto(shown, x, y, rows, count)
            || row_collides(before, x, y + count, rows[count])),
        touches_upto(x, y, rows, count + 1) == (touches_upto(x, y, rows, count) || row_touches(
            x,
            y + count,
            rows[count],
        )),
{
    let byte = rows[count];
    lemma_sprite_extend(shown, x, y, rows, count);
    assert forall|p: int|
        0 <= p < 2048 && #[trigger] row_covers_upto(x, y + count, byte, 8, p) implies before[p]
        == shown[p] by {
        assert(row_covers(x, y + count, byte, p));
        assert(!sprite_covers_upto(x, y, rows, count, p));
    }
    lemma_row_collides_same(before, shown, x, y + count, byte);
    assert forall|p: int| 0 <= p < 2048 implies after[p] == (shown[p]
        != #[trigger] sprite_covers_upto(x, y, rows, count + 1, p)) by {
        assert(after[p] == (before[p] != row_covers(x, y + count, byte, p)));
        assert(sprite_covers_upto(x, y, rows, count + 1, p) == (sprite_covers_upto(
            x,
            y,
            rows,
            count,
            p,
        ) || row_covers(x, y + count, byte, p)));
    }
}

/// A sprite row shifted right by `shift` has the bits of the row `shift`
/// columns further right, and none in its first `shift` columns; shifted
/// left by `8 - shift` it has the last `shift` bits of the row in its first
/// `shift` columns, and none after them.
pub proof fn lemma_shifted_bits(byte: u8, shift: u8, column: u8)
    by (bit_vector)
    requires
        0 < shift < 8,
        column < 8,
    ensures
        ((0x80u8 >> column) & (byte >> shift) != 0) == (column >= shift && (0x80u8 >> ((column
            - shift) as u8)) & byte != 0),
        ((0x80u8 >> column) & (byte << ((8 - shift) as u8)) != 0) == (column < shift && (0x80u8 >> ((
        column + 8 - shift) as u8)) & byte != 0),
{
}

/// Column `x` of the display is `x mod 8` pixels into its byte, and the
/// byte after that one, wrapping, starts eight pixels on.
pub proof fn lemma_byte_of_column(x: int)
    requires
        0 <= x,
    ensures
        0 <= byte_start(x) <= 56,
        x % 64 == byte_start(x) + x % 8,
        byte_start(x + 8) == (byte_start(x) + 8) % 64,
{
    vstd::arithmetic::div_mod::lemma_mod_breakdown(x, 8, 8);
    assert((x + 8) / 8 == x / 8 + 1);
}

/// How far a pixel column is from where a sprite row starts tells how far
/// it is from the starts of the two display bytes that the row falls into.
/// `byte` counts the display byte that holds the first pixel of the row,
/// `shift` the pixels of that byte before the row, and `column` is the
/// column of the pixel. A pixel of the row lies in one of the two bytes,
/// `shift` places further from its start or `8 - shift` nearer to it; any
/// other pixel lies outside both bytes, or before the row in the first byte,
/// or after it in the second.
pub proof fn lemma_split_columns(byte: u32, shift: u32, column: u32)
    by (bit_vector)
    requires
        byte < 8,
        0 < shift < 8,
        column < 64,
    ensures
        ({
            let from_row = (column + 64 - (8 * byte + shift)) % 64;
            let from_left = (column + 64 - 8 * byte) % 64;
            let from_right = (column + 64 - (8 * byte + 8) % 64) % 64;
            &&& from_row < 8 - shift ==> from_left == from_row + shift && from_right >= 8
            &&& 8 - shift <= from_row < 8 ==> from_left >= 8 && from_right == from_row + shift - 8
            &&& from_row >= 8 ==> (from_left >= 8 || from_left < shift) && (from_right >= 8
                || from_right >= shift)
        }),
{
}

/// A sprite row that does not start on a byte of the display covers what
/// its two halves cover: the row shifted right, drawn on the byte that
/// holds its first pixel, and the row shifted left, drawn on the byte after
/// it, wrapping. The two halves cover no pixel in common.
#[verifier::rlimit(40)]
pub proof fn lemma_row_splits(x: int, y: int, byte: u8, p: int)
    requires
        0 <= x,
        0 <= y,
        x % 8 != 0,
        0 <= p < 2048,
    ensures
        row_covers(x, y, byte, p) == (row_covers(byte_start(x), y, left_half(x, byte), p)
            || row_covers(byte_start(x + 8), y, right_half(x, byte), p)),
        !(row_covers(byte_start(x), y, left_half(x, byte), p) && row_covers(
            byte_start(x + 8),
            y,
            right_half(x, byte),
            p,
        )),
{
    let shift = x % 8;
    let index = (x / 8) % 8;
    let column = p % 64;
    lemma_byte_of_column(x);
    lemma_split_columns(index as u32, shift as u32, column as u32);
    let from_row = (column - (x % 64) + 64) % 64;
    let from_left = (column - (byte_start(x) % 64) + 64) % 64;
    let from_right = (column - (byte_start(x + 8) % 64) + 64) % 64;
    assert(from_row == (column + 64 - (8 * index + shift)) % 64);
    assert(from_left == (column + 64 - 8 * index) % 64);
    assert(from_right == (column + 64 - (8 * index + 8) % 64) % 64);
    if from_left < 8 {
        lemma_shifted_bits(byte, shift as u8, from_left as u8);
    }
    if from_right < 8 {
        lemma_shifted_bits(byte, shift as u8, from_right as u8);
    }
}

/// Drawing the two halves of a sprite row one after the other is drawing the
/// row, and one of the halves collides if and only if the row does.
pub proof fn lemma_halves_drawn(
    before: Seq<bool>,
    between: Seq<bool>,
    after: Seq<bool>,
    x: int,
    y: int,
    byte: u8,
)
    requires
        before.len() == 2048,
        0 <= x,
        0 <= y,
        x % 8 != 0,
        between == blit_row(before, byte_start(x), y, left_half(x, byte)),
        after == blit_row(between, byte_start(x + 8), y, right_half(x, byte)),
    ensures
        after == blit_row(before, x, y, byte),
        row_collides(before, x, y, byte) == (row_collides(
            before,
            byte_start(x),
            y,
            left_half(x, byte),
        ) || row_collides(between, byte_start(x + 8), y, right_half(x, byte))),
        row_touches(x, y, byte) == (row_touches(byte_start(x), y, left_half(x, byte)) || row_touches(
            byte_start(x + 8),
            y,
            right_half(x, byte),
        )),
{
    let start = byte_start(x);
    let next = byte_start(x + 8);
    let left = left_half(x, byte);
    let right = right_half(x, byte);
    assert forall|p: int| 0 <= p < 2048 implies {
        &&& #[trigger] row_covers_upto(x, y, byte, 8, p) == (row_covers_upto(start, y, left, 8, p)
            || row_covers_upto(next, y, right, 8, p))
        &&& !(row_covers_upto(start, y, left, 8, p) && row_covers_upto(next, y, right, 8, p))
    } by {
        lemma_row_splits(x, y, byte, p);
    }
    assert forall|p: int| 0 <= p < 2048 implies {
        &&& #[trigger] row_covers_upto(start, y, left, 8, p) ==> row_covers_upto(x, y, byte, 8, p)
    } by {
        lemma_row_splits(x, y, byte, p);
    }
    assert forall|p: int| 0 <= p < 2048 implies {
        &&& #[trigger] row_covers_upto(next, y, right, 8, p) ==> row_covers_upto(x, y, byte, 8, p)
            && between[p] == before[p]
    } by {
        lemma_row_splits(x, y, byte, p);
    }
    assert(after =~= blit_row(before, x, y, byte)) by {
        assert forall|p: int| 0 <= p < 2048 implies after[p] == (before[p] != row_covers(
            x,
            y,
            byte,
            p,
        )) by {
            lemma_row_splits(x, y, byte, p);
        }
    }
    lemma_row_collides_same(between, before, next, y, right);
    if row_collides(before, x, y, byte) {
        let p = choose|p: int|
            0 <= p < before.len() && before[p] && #[trigger] row_covers_upto(x, y, byte, 8, p);
        assert(row_covers_upto(start, y, left, 8, p) || row_covers_upto(next, y, right, 8, p));
    }
    if row_collides(before, start, y, left) {
        let p = choose|p: int|
            0 <= p < before.len() && before[p] && #[trigger] row_covers_upto(start, y, left, 8, p);
        assert(row_covers_upto(x, y, byte, 8, p));
    }
    if row_collides(before, next, y, right) {
        let p = choose|p: int|
            0 <= p < before.len() && before[p] && #[trigger] row_covers_upto(next, y, right, 8, p);
        assert(row_covers_upto(x, y, byte, 8, p));
    }
    if row_touches(x, y, byte) {
        let p = choose|p: int| 0 <= p < 2048 && #[trigger] row_covers_upto(x, y, byte, 8, p);
        assert(row_covers_upto(start, y, left, 8, p) || row_covers_upto(next, y, right, 8, p));
    }
    if row_touches(start, y, left) {
        let p = choose|p: int| 0 <= p < 2048 && #[trigger] row_covers_upto(start, y, left, 8, p);
        assert(row_covers_upto(x, y, byte, 8, p));
    }
    if row_touches(next, y, right) {
        let p = choose|p: int| 0 <= p < 2048 && #[trigger] row_covers_upto(next, y, right, 8, p);
        assert(row_covers_upto(x, y, byte, 8, p));
    }
}

/// Where a sprite row is drawn depends on its place only up to wrapping:
/// places that are the same modulo the width and the height of the display
/// are the same place.
pub proof fn lemma_row_same_place(
    pixels: Seq<bool>,
    x: int,
    y: int,
    wrapped_x: int,
    wrapped_y: int,
    byte: u8,
)
    requires
        x % 64 == wrapped_x % 64,
        y % 32 == wrapped_y % 32,
    ensures
        blit_row(pixels, x, y, byte) == blit_row(pixels, wrapped_x, wrapped_y, byte),
        row_collides(pixels, x, y, byte) == row_collides(pixels, wrapped_x, wrapped_y, byte),
        row_touches(x, y, byte) == row_touches(wrapped_x, wrapped_y, byte),
{
    assert forall|p: int|
        #[trigger] row_covers_upto(x, y, byte, 8, p) == row_covers_upto(
            wrapped_x,
            wrapped_y,
            byte,
            8,
            p,
        ) by {}
    assert(blit_row(pixels, x, y, byte) =~= blit_row(pixels, wrapped_x, wrapped_y, byte));
    if row_collides(pixels, x, y, byte) {
        let p = choose|p: int|
            0 <= p < pixels.len() && pixels[p] && #[trigger] row_covers_upto(x, y, byte, 8, p);
        assert(row_covers_upto(wrapped_x, wrapped_y, byte, 8, p));
    }
    if row_collides(pixels, wrapped_x, wrapped_y, byte) {
        let p = choose|p: int|
            0 <= p < pixels.len() && pixels[p] && #[trigger] row_covers_upto(
                wrapped_x,
                wrapped_y,
                byte,
                8,
                p,
            );
        assert(row_covers_upto(x, y, byte, 8, p));
    }
    if row_touches(x, y, byte) {
        let p = choose|p: int| 0 <= p < 2048 && #[trigger] row_covers_upto(x, y, byte, 8, p);
        assert(row_covers_upto(wrapped_x, wrapped_y, byte, 8, p));
    }
    if row_touches(wrapped_x, wrapped_y, byte) {
        let p = choose|p: int|
            0 <= p < 2048 && #[trigger] row_covers_upto(wrapped_x, wrapped_y, byte, 8, p);
        assert(row_covers_upto(x, y, byte, 8, p));
    }
}

/// Whether a row collides depends only on the pixels that it covers.
pub proof fn lemma_row_collides_same(
    before: Seq<bool>,
    entered: Seq<bool>,
    x: int,
    y: int,
    byte: u8,
)
    requires
        before.len() == 2048,
        entered.len() == 2048,
        forall|p: int|
            0 <= p < 2048 && #[trigger] row_covers_upto(x, y, byte, 8, p) ==> before[p]
                == entered[p],
    ensures
        row_collides(before, x, y, byte) == row_collides(entered, x, y, byte),
{
}

/// No pixel is covered before the first row of a sprite is drawn.
pub proof fn lemma_sprite_empty(pixels: Seq<bool>, x: int, y: int, rows: Seq<u8>)
    ensures
        forall|p: int| !#[trigger] sprite_covers_upto(x, y, rows, 0, p),
        !collides_upto(pixels, x, y, rows, 0),
        !touches_upto(x, y, rows, 0),
{
}

/// A display surface: 2048 pixels in row-major order, and a mark that says
/// whether anything changed since the surface was last presented.
#[derive(Clone, Debug, PartialEq)]
pub struct Display {
    /// Whether a pixel changed since the surface was last presented.
    pub redraw: bool,
    /// The pixels, one cell each.
    pub memory: Memory<bool>,
}

impl View for Display {
    type V = Seq<bool>;

    /// The pixels in row-major order.
    open spec fn view(&self) -> Seq<bool> {
        self.memory@
    }
}

impl Display {
    /// The pixels in one sprite row.
    pub const SPRITE_WIDTH: usize = SPRITE_WIDTH;

    /// The pixels in one display row.
    pub const SCREEN_WIDTH: usize = SCREEN_WIDTH;

    /// The rows of the display.
    pub const SCREEN_HEIGHT: usize = SCREEN_HEIGHT;

    /// The sprite rows that fit side by side in one display row.
    pub const SCREEN_WIDTH_SPRITES: usize = SCREEN_WIDTH_SPRITES;

    /// The pixels of the display.
    pub const SCREEN_SIZE: usize = SCREEN_SIZE;

    /// The surface has its 2048 pixels.
    pub open spec fn wf(&self) -> bool {
        self.memory@.len() == SCREEN_SIZE
    }

    /// A dark surface with nothing to present.
    pub fn new() -> (display: Display)
        ensures
            display.wf(),
            !display.redraw,
            display@ == Seq::new(SCREEN_SIZE as nat, |p: int| false),
    {
        Display { redraw: false, memory: Memory::new(SCREEN_SIZE, false) }
    }

    /// Whether the pixel at column `x`, row `y` is lit.
    pub fn read_pixel(&self, x: Address, y: Address) -> (lit: bool)
        requires
            self.wf(),
        ensures
            lit == self@[pixel_index(x as int, y as int)],
    {
        let x = x % SCREEN_WIDTH;
        let y = y % SCREEN_HEIGHT;
        self.memory.read(y * SCREEN_WIDTH + x)
    }

    /// XORs `val` onto the pixel at column `x`, row `y`, and says whether that
    /// turned a lit pixel off. A pixel that changes marks the surface.
    pub fn update_pixel(&mut self, x: Address, y: Address, val: bool) -> (collision: bool)
        requires
            old(self).wf(),
        ensures
            final(self).wf(),
            final(self)@ == old(self)@.update(
                pixel_index(x as int, y as int),
                old(self)@[pixel_index(x as int, y as int)] != val,
            ),
            collision == (old(self)@[pixel_index(x as int, y as int)] && val),
            final(self).redraw == (old(self).redraw || val),
    {
        let x = x % SCREEN_WIDTH;
        let y = y % SCREEN_HEIGHT;
        let before = self.memory.read(y * SCREEN_WIDTH + x);
        let collision = before && val;
        let after = before != val;
        if after != before {
            self.memory.write(y * SCREEN_WIDTH + x, after);
            self.redraw = true;
        }
        assert(self@ =~= old(self)@.update(y * 64 + x, before != val));
        collision
    }

    /// Turns every pixel off. The mark is left as it is.
    pub fn clear(&mut self)
        ensures
            final(self).wf(),
            final(self)@ == Seq::new(SCREEN_SIZE as nat, |p: int| false),
            final(self).redraw == old(self).redraw,
    {
        self.memory = Memory::new(SCREEN_SIZE, false);
    }

    /// Says whether the surface is due to be presented, and takes the mark
    /// off. The pixels stay as they are: presenting them is the caller's part.
    pub fn draw(&mut self) -> (due: bool)
        ensures
            due == old(self).redraw,
            !final(self).redraw,
            final(self).memory == old(self).memory,
    {
        let due = self.redraw;
        self.redraw = false;
        due
    }

    /// The pixels in row-major order.
    pub fn pixels(&self) -> (pixels: Vec<bool>)
        ensures
            pixels@ == self@,
    {
        let pixels = self.memory.read_range(0, self.memory.len());
        assert(self@.subrange(0, self@.len() as int) =~= self@);
        pixels
    }
}

} // verus!
