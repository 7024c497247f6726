//! The window icon: a small keyboard, white keys on a blue ground inside a
//! dark frame, drawn pixel by pixel.

use vstd::prelude::*;

verus! {

/// The icon's width and height, in pixels.
pub const ICON_SIZE: u32 = 32;

/// An RGBA image, four bytes per pixel, row after row.
#[derive(Debug, Clone)]
pub struct IconImage {
    pub rgba: Vec<u8>,
    pub width: u32,
    pub height: u32,
}

/// The ground colour.
pub open spec fn background() -> Seq<u8> {
    seq![70u8, 130u8, 180u8, 255u8]
}

/// The colour of the frame.
pub open spec fn frame() -> Seq<u8> {
    seq![40u8, 40u8, 40u8, 255u8]
}

/// The colour of the keys.
pub open spec fn key_face() -> Seq<u8> {
    seq![240u8, 240u8, 240u8, 255u8]
}

/// The pixel is on one of the three rows of five keys, each four pixels
/// wide and five high, one pixel apart across and two apart down, the first
/// with its corner at (4, 8).
pub open spec fn on_key(x: int, y: int) -> bool {
    &&& 4 <= x < 29 && (x - 4) % 5 < 4
    &&& 8 <= y < 29 && (y - 8) % 7 < 5
}

/// The pixel is on the outermost ring of the image.
pub open spec fn on_frame(x: int, y: int) -> bool {
    x == 0 || x == 31 || y == 0 || y == 31
}

/// The colour of the pixel in column `x` and row `y`: keys are drawn over
/// the frame, which is drawn over the ground.
pub open spec fn pixel_color(x: int, y: int) -> Seq<u8> {
    if on_key(x, y) {
        key_face()
    } else if on_frame(x, y) {
        frame()
    } else {
        background()
    }
}

/// Channel `k` of pixel `p`, counting pixels row after row.
pub open spec fn channel(rgba: Seq<u8>, p: int, k: int) -> u8 {
    rgba[4 * p + k]
}

/// The colour of one pixel, as exec code computes it.
fn color_at(x: u32, y: u32) -> (color: [u8; 4])
    requires
        x < 32,
        y < 32,
    ensures
        color@ == pixel_color(x as int, y as int),
{
    let key = 4 <= x && x < 29 && (x - 4) % 5 < 4 && 8 <= y && y < 29 && (y - 8) % 7 < 5;
    if key {
        let c = [240u8, 240u8, 240u8, 255u8];
        assert(c@ =~= key_face());
        c
    } else if x == 0 || x == 31 || y == 0 || y == 31 {
        let c = [40u8, 40u8, 40u8, 255u8];
        assert(c@ =~= frame());
        c
    } else {
        let c = [70u8, 130u8, 180u8, 255u8];
        assert(c@ =~= background());
        c
    }
}

/// Draws the 32 by 32 keyboard icon.
pub fn create_icon() -> (icon: IconImage)
    ensures
        icon.width == ICON_SIZE,
        icon.height == ICON_SIZE,
        icon.rgba@.len() == 4 * 32 * 32,
        forall|p: int, k: int|
            0 <= p < 32 * 32 && 0 <= k < 4 ==> #[trigger] channel(icon.rgba@, p, k)
                == pixel_color(p % 32, p / 32)[k],
{
    let mut rgba: Vec<u8> = Vec::new();
    let mut p: u32 = 0;
    while p < 1024
        invariant
            p <= 1024,
            rgba@.len() == 4 * p,
            forall|q: int, k: int|
                0 <= q < p && 0 <= k < 4 ==> #[trigger] channel(rgba@, q, k) == pixel_color(
                    q % 32,
                    q / 32,
                )[k],
        decreases 1024 - p,
    {
        let color = color_at(p % 32, p / 32);
        let ghost before = rgba@;
        rgba.push(color[0]);
        rgba.push(color[1]);
        rgba.push(color[2]);
        rgba.push(color[3]);
        assert forall|q: int, k: int|
            0 <= q < p + 1 && 0 <= k < 4 implies #[trigger] channel(rgba@, q, k) == pixel_color(
            q % 32,
            q / 32,
        )[k] by {
            if q < p {
                assert(channel(before, q, k) == pixel_color(q % 32, q / 32)[k]);
                assert(rgba@[4 * q + k] == before[4 * q + k]);
            } else {
                assert(q == p);
                assert(rgba@[4 * q + k] == color@[k]);
            }
        }
        p = p + 1;
    }
    IconImage { rgba, width: ICON_SIZE, height: ICON_SIZE }
}

/// The icon's outermost ring of pixels, all four edges, is dark grey.
pub proof fn law_icon_frame(x: int, y: int)
    requires
        0 <= x < 32,
        0 <= y < 32,
        x == 0 || x == 31 || y == 0 || y == 31,
    ensures
        pixel_color(x, y) == seq![40u8, 40u8, 40u8, 255u8],
{
}

/// Each of the fifteen keys, in three rows of five, is a white block four
/// pixels wide and five high, the key in row `row` and column `col` having
/// its top left corner at (4 + 5 * col, 8 + 7 * row).
pub proof fn law_icon_keys(row: int, col: int, dx: int, dy: int)
    requires
        0 <= row < 3,
        0 <= col < 5,
        0 <= dx < 4,
        0 <= dy < 5,
    ensures
        pixel_color(4 + 5 * col + dx, 8 + 7 * row + dy) == seq![240u8, 240u8, 240u8, 255u8],
{
    let x = 4 + 5 * col + dx;
    let y = 8 + 7 * row + dy;
    assert((x - 4) % 5 == dx) by {
        assert(x - 4 == 5 * col + dx);
    }
    assert((y - 8) % 7 == dy) by {
        assert(y - 8 == 7 * row + dy);
    }
}

/// The pixel lies in the block of the key in row `row` and column `col`.
pub open spec fn in_key_block(x: int, y: int, row: int, col: int) -> bool {
    4 + 5 * col <= x < 8 + 5 * col && 8 + 7 * row <= y < 13 + 7 * row
}

/// Between the frame and the keys the icon is blue: a pixel inside the
/// frame that lies in no key is the ground colour.
pub proof fn law_icon_ground(x: int, y: int)
    requires
        0 < x < 31,
        0 < y < 31,
        forall|row: int, col: int|
            0 <= row < 3 && 0 <= col < 5 ==> !#[trigger] in_key_block(x, y, row, col),
    ensures
        pixel_color(x, y) == seq![70u8, 130u8, 180u8, 255u8],
{
    if on_key(x, y) {
        let col = (x - 4) / 5;
        let row = (y - 8) / 7;
        assert(in_key_block(x, y, row, col));
        assert(0 <= row < 3 && 0 <= col < 5);
    }
}

} // verus!
