use vstd::prelude::*;

verus! {

/// Width of the rotated (portrait) screen.
pub const DISPLAY_W: usize = 224;

/// Height of the rotated (portrait) screen.
pub const DISPLAY_H: usize = 256;

/// Bytes of the video memory window: one bit per pixel.
pub const VRAM_LEN: usize = 7168;

/// Unlit pixel.
pub const BACKGROUND: u32 = 0xFF00_0000;

/// Lit pixel under the green overlay.
pub const GREEN: u32 = 0xFF00_FF00;

/// Lit pixel under the red overlay.
pub const RED: u32 = 0xFF00_00FF;

/// Lit pixel elsewhere.
pub const WHITE: u32 = 0xFFFF_FFFF;

/// The pixel at native (landscape) column `x` of scan line `y` is lit:
/// scan line `y` is 32 bytes, bit 0 of each byte its leftmost pixel.
pub open spec fn lit(vram: Seq<u8>, x: int, y: int) -> bool {
    (vram[y * 32 + x / 8] >> ((x % 8) as u8)) & 1u8 == 1u8
}

/// Native position under the green overlay.
pub open spec fn in_green_zone(x: int, y: int) -> bool {
    x <= 63 && (x >= 15 || (20 <= y && y <= 120))
}

/// Native position under the red overlay.
pub open spec fn in_red_zone(x: int) -> bool {
    200 <= x && x <= 220
}

/// Colour of a lit pixel at a native position.
pub open spec fn zone_color(x: int, y: int) -> u32 {
    if in_green_zone(x, y) {
        GREEN
    } else if in_red_zone(x) {
        RED
    } else {
        WHITE
    }
}

/// Colour of the pixel at native position (`x`, `y`).
pub open spec fn native_pixel(vram: Seq<u8>, x: int, y: int) -> u32 {
    if lit(vram, x, y) {
        zone_color(x, y)
    } else {
        BACKGROUND
    }
}

/// Entry `k` of the framebuffer, row-major over the rotated screen: output row
/// `r`, column `c` shows native column `255 - r` of scan line `c`.
pub open spec fn frame_pixel(vram: Seq<u8>, k: int) -> u32 {
    native_pixel(vram, 255 - k / 224, k % 224)
}

/// The framebuffer decoded from a video memory window.
pub open spec fn frame_of(vram: Seq<u8>) -> Seq<u32> {
    Seq::new(224 * 256, |k: int| frame_pixel(vram, k))
}

/// The framebuffer of the rotated screen.
pub struct Display {
    pub raster: Vec<u32>,
}

impl Display {
    /// A framebuffer of the screen's size, every pixel white.
    pub fn power_up() -> (r: Display)
        ensures
            r.raster@ == Seq::new(224 * 256, |k: int| 0x00ff_ffffu32),
    {
        Display { raster: vec![0x00ff_ffffu32; DISPLAY_W * DISPLAY_H] }
    }

    /// Decodes the video memory window into the framebuffer, replacing it whole.
    pub fn draw_pixel(&mut self, data: &[u8])
        requires
            data@.len() == 7168,
        ensures
            final(self).raster@ == frame_of(data@),
    {
        let mut raster: Vec<u32> = Vec::with_capacity(DISPLAY_W * DISPLAY_H);
        let mut row: usize = 0;
        while row < DISPLAY_H
            invariant
                row <= 256,
                data@.len() == 7168,
                raster@.len() == row * 224,
                forall|k: int| 0 <= k < raster@.len() ==> #[trigger] raster@[k] == frame_pixel(data@, k),
            decreases 256 - row,
        {
            let x: usize = 255 - row;
            let mut col: usize = 0;
            while col < DISPLAY_W
                invariant
                    row < 256,
                    x == 255 - row,
                    col <= 224,
                    data@.len() == 7168,
                    raster@.len() == row * 224 + col,
                    forall|k: int| 0 <= k < raster@.len() ==> #[trigger] raster@[k] == frame_pixel(data@, k),
                decreases 224 - col,
            {
                assert(col * 32 + x / 8 < 7168) by (nonlinear_arith)
                    requires col < 224, x < 256;
                let byte = data[col * 32 + x / 8];
                let shift: u8 = (x % 8) as u8;
                let pixel: u32 = if (byte >> shift) & 1 == 0 {
                    BACKGROUND
                } else if x <= 63 && (x >= 15 || x <= 15 && col >= 20 && col <= 120) {
                    GREEN
                } else if x >= 200 && x <= 220 {
                    RED
                } else {
                    WHITE
                };
                proof {
                    let k = (row * 224 + col) as int;
                    assert(k / 224 == row && k % 224 == col) by (nonlinear_arith)
                        requires k == row * 224 + col, col < 224;
                    assert((byte >> shift) & 1u8 == 0u8 <==> !((byte >> shift) & 1u8 == 1u8)) by (bit_vector);
                }
                raster.push(pixel);
                col = col + 1;
            }
            row = row + 1;
        }
        assert(raster@ =~= frame_of(data@));
        self.raster = raster;
    }
}

/// Rotation: the pixel at native column `x` of scan line `y` lands at output
/// column `y` of output row `255 - x`.
pub proof fn lemma_rotation(vram: Seq<u8>, x: int, y: int)
    requires
        0 <= x < 256,
        0 <= y < 224,
    ensures
        frame_of(vram)[224 * (255 - x) + y] == native_pixel(vram, x, y),
{
    let k = 224 * (255 - x) + y;
    assert(0 <= k < 224 * 256 && k / 224 == 255 - x && k % 224 == y) by (nonlinear_arith)
        requires k == 224 * (255 - x) + y, 0 <= x < 256, 0 <= y < 224;
}

/// An all-zero video memory window decodes to an all-background frame.
pub proof fn lemma_blank_frame(vram: Seq<u8>)
    requires
        vram.len() == 7168,
        forall|i: int| 0 <= i < vram.len() ==> vram[i] == 0,
    ensures
        forall|k: int| 0 <= k < frame_of(vram).len() ==> #[trigger] frame_of(vram)[k] == BACKGROUND,
{
    assert forall|k: int| 0 <= k < frame_of(vram).len() implies #[trigger] frame_of(vram)[k]
        == BACKGROUND by {
        let x = 255 - k / 224;
        let y = k % 224;
        assert(0 <= y * 32 + x / 8 < 7168) by (nonlinear_arith)
            requires 0 <= k < 224 * 256, x == 255 - k / 224, y == k % 224;
        let s = (x % 8) as u8;
        assert((0u8 >> s) & 1u8 == 0u8) by (bit_vector);
    }
}

/// Colour zoning: a lit pixel at output row `r`, column `c` is green inside the
/// green overlay, red inside the red one and white elsewhere.
pub proof fn lemma_color_zones(vram: Seq<u8>, r: int, c: int)
    requires
        0 <= r < 256,
        0 <= c < 224,
        lit(vram, 255 - r, c),
    ensures
        in_green_zone(255 - r, c) ==> frame_of(vram)[224 * r + c] == GREEN,
        !in_green_zone(255 - r, c) && in_red_zone(255 - r) ==> frame_of(vram)[224 * r + c] == RED,
        !in_green_zone(255 - r, c) && !in_red_zone(255 - r) ==> frame_of(vram)[224 * r + c] == WHITE,
{
    lemma_rotation(vram, 255 - r, c);
}

} // verus!
