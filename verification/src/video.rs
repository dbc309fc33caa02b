//! The frame as the host's texture wants it: three bytes for each pixel,
//! red first, in rows that are `pitch` bytes apart.

use crate::ppu::{SCREEN_HEIGHT, SCREEN_LEN, SCREEN_WIDTH};
use vstd::prelude::*;

verus! {

/// Bytes of a pixel in the texture.
pub const PIXEL_BYTES: usize = 3;

/// Bytes of a row of pixels in the texture.
pub const ROW_BYTES: usize = 768;

/// Channel `c` of the pixel `pixel`, which is `0x00RRGGBB`: 0 is red, 1 is
/// green, 2 is blue.
pub open spec fn channel(pixel: u32, c: int) -> u8 {
    if c == 0 {
        ((pixel / 0x10000) % 256) as u8
    } else if c == 1 {
        ((pixel / 0x100) % 256) as u8
    } else {
        (pixel % 256) as u8
    }
}

/// Byte `k` of row `row` of the texture of the frame `screen`.
pub open spec fn texel(screen: Seq<u32>, row: int, k: int) -> u8 {
    channel(screen[row * SCREEN_WIDTH + k / 3], k % 3)
}

/// Where byte `k` of row `row` lies in a texture whose rows are `pitch`
/// bytes apart.
pub open spec fn cell(row: int, k: int, pitch: int) -> int {
    row * pitch + k
}

/// Writes row `row` of the frame into `buffer` from `start` on.
fn blit_row(screen: &Vec<u32>, buffer: &mut Vec<u8>, row: usize, start: usize)
    requires
        screen.len() == SCREEN_LEN,
        row < SCREEN_HEIGHT,
        start + ROW_BYTES <= old(buffer).len(),
    ensures
        final(buffer).len() == old(buffer).len(),
        forall|k: int| 0 <= k < ROW_BYTES ==> final(buffer)@[start + k] == texel(screen@, row as int, k),
        forall|i: int|
            0 <= i < final(buffer).len() && !(start <= i < start + ROW_BYTES) ==> final(buffer)@[i]
                == old(buffer)@[i],
{
    let mut col: usize = 0;
    while col < SCREEN_WIDTH
        invariant
            col <= SCREEN_WIDTH,
            screen.len() == SCREEN_LEN,
            row < SCREEN_HEIGHT,
            buffer.len() == old(buffer).len(),
            start + ROW_BYTES <= buffer.len(),
            forall|k: int| 0 <= k < 3 * col ==> buffer@[start + k] == texel(screen@, row as int, k),
            forall|i: int|
                0 <= i < buffer.len() && !(start <= i < start + 3 * col) ==> buffer@[i] == old(
                    buffer,
                )@[i],
        decreases SCREEN_WIDTH - col,
    {
        let pixel = screen[row * SCREEN_WIDTH + col];
        let at = start + PIXEL_BYTES * col;
        buffer[at] = ((pixel / 0x10000) % 256) as u8;
        buffer[at + 1] = ((pixel / 0x100) % 256) as u8;
        buffer[at + 2] = (pixel % 256) as u8;
        col = col + 1;
    }
}

/// Rows of a texture do not overlap: a byte of an earlier row lies before
/// the start of every later row.
proof fn lemma_rows_apart(row: int, k: int, later: int, pitch: int)
    by (nonlinear_arith)
    requires
        0 <= row < later,
        0 <= k < pitch,
    ensures
        row * pitch + k < later * pitch,
        (row + 1) * pitch == row * pitch + pitch,
{
}

/// Every row of the frame ends within the 240 rows of the texture.
proof fn lemma_row_fits(row: int, pitch: int)
    by (nonlinear_arith)
    requires
        0 <= row < 240,
        0 <= pitch,
    ensures
        row * pitch + pitch <= 240 * pitch,
        row * pitch >= 0,
{
}

/// Writes the frame `screen` into the texture memory `buffer`, whose rows
/// are `pitch` bytes apart. Bytes between the rows and behind the last row
/// stay as they are.
pub fn render_frame(screen: &Vec<u32>, buffer: &mut Vec<u8>, pitch: usize)
    requires
        screen.len() == SCREEN_LEN,
        pitch >= ROW_BYTES,
        SCREEN_HEIGHT * pitch <= old(buffer).len(),
    ensures
        final(buffer).len() == old(buffer).len(),
        forall|row: int, k: int|
            0 <= row < SCREEN_HEIGHT && 0 <= k < ROW_BYTES ==> final(buffer)@[#[trigger] cell(
                row,
                k,
                pitch as int,
            )] == texel(screen@, row, k),
        forall|row: int, k: int|
            0 <= row < SCREEN_HEIGHT && ROW_BYTES <= k < pitch ==> final(buffer)@[#[trigger] cell(
                row,
                k,
                pitch as int,
            )] == old(buffer)@[cell(row, k, pitch as int)],
        forall|i: int|
            SCREEN_HEIGHT * pitch <= i < final(buffer).len() ==> final(buffer)@[i] == old(buffer)@[i],
{
    let mut row: usize = 0;
    let mut start: usize = 0;
    while row < SCREEN_HEIGHT
        invariant
            row <= SCREEN_HEIGHT,
            start == row * pitch,
            screen.len() == SCREEN_LEN,
            pitch >= ROW_BYTES,
            buffer.len() == old(buffer).len(),
            SCREEN_HEIGHT * pitch <= buffer.len(),
            forall|r: int, k: int|
                0 <= r < row && 0 <= k < ROW_BYTES ==> buffer@[#[trigger] cell(r, k, pitch as int)]
                    == texel(screen@, r, k),
            forall|r: int, k: int|
                0 <= r < row && ROW_BYTES <= k < pitch ==> buffer@[#[trigger] cell(
                    r,
                    k,
                    pitch as int,
                )] == old(buffer)@[cell(r, k, pitch as int)],
            forall|i: int| start <= i < buffer.len() ==> buffer@[i] == old(buffer)@[i],
        decreases SCREEN_HEIGHT - row,
    {
        proof {
            lemma_row_fits(row as int, pitch as int);
            lemma_rows_apart(row as int, 0, SCREEN_HEIGHT as int, pitch as int);
        }
        let ghost before = buffer@;
        blit_row(screen, buffer, row, start);
        proof {
            assert forall|r: int, k: int| 0 <= r < row + 1 && 0 <= k < ROW_BYTES implies buffer@[#[trigger] cell(
                r,
                k,
                pitch as int,
            )] == texel(screen@, r, k) by {
                if r < row {
                    lemma_rows_apart(r, k, row as int, pitch as int);
                    assert(before[cell(r, k, pitch as int)] == texel(screen@, r, k));
                }
            }
            assert forall|r: int, k: int|
                0 <= r < row + 1 && ROW_BYTES <= k < pitch implies buffer@[#[trigger] cell(
                r,
                k,
                pitch as int,
            )] == old(buffer)@[cell(r, k, pitch as int)] by {
                if r < row {
                    lemma_rows_apart(r, k, row as int, pitch as int);
                    assert(before[cell(r, k, pitch as int)] == old(buffer)@[cell(r, k, pitch as int)]);
                } else {
                    lemma_rows_apart(r, k, SCREEN_HEIGHT as int, pitch as int);
                }
            }
        }
        start = start + pitch;
        row = row + 1;
    }
}

} // verus!
