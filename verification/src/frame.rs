//! The host framebuffer and the reconstruction of the visible frame from
//! the RAM video region: 120 lines of 256 bytes starting at byte 2048, of
//! which the first 160 columns are displayed.

use vstd::prelude::*;
use vstd::arithmetic::div_mod::lemma_fundamental_div_mod_converse;
use crate::color::{makeRGB, spec_rgb, unpack_color};
use crate::machine::Gigatron;

verus! {

/// A host surface: a row-major buffer of 32-bit pixels.
pub struct Frame {
    pub width: usize,
    pub height: usize,
    pub buffer: Vec<u32>,
}

/// The RAM address a video pixel sits at: base 2048, stride 256.
pub open spec fn spec_vram_addr(x: int, y: int) -> int {
    2048 + y * 256 + x
}

/// The byte a video pixel shows, or 0 where the address leaves RAM.
pub open spec fn spec_vram_pixel(ram: Seq<u8>, x: int, y: int) -> u8 {
    if 0 <= spec_vram_addr(x, y) < 0x8000 {
        ram[spec_vram_addr(x, y)]
    } else {
        0
    }
}

/// The integer horizontal scale from the 160 source columns to a surface.
pub open spec fn spec_scale_x(width: usize) -> int {
    width as int / 160
}

/// The integer vertical scale from the 120 source rows to a surface.
pub open spec fn spec_scale_y(height: usize) -> int {
    height as int / 120
}

/// The buffer index of a surface cell in row-major order.
pub open spec fn spec_frame_index(width: usize, vx: int, vy: int) -> int {
    vy * width + vx
}

/// The 32-bit word a surface cell shows after a scaled reconstruction.
pub open spec fn spec_scaled_pixel(
    ram: Seq<u8>,
    width: usize,
    height: usize,
    vx: int,
    vy: int,
) -> u32 {
    spec_rgb(spec_vram_pixel(ram, vx / spec_scale_x(width), vy / spec_scale_y(height)))
}

/// In a row-major buffer, two in-range (column, row) pairs with the same
/// index are the same pair.
proof fn lemma_rowmajor_injective(w: int, a: int, b: int, c: int, d: int)
    requires
        w >= 1,
        0 <= a < w,
        0 <= c < w,
        b >= 0,
        d >= 0,
        b * w + a == d * w + c,
    ensures
        a == c,
        b == d,
{
    lemma_fundamental_div_mod_converse(b * w + a, w, b, a);
    lemma_fundamental_div_mod_converse(d * w + c, w, d, c);
}

impl Frame {
    /// The buffer holds exactly one pixel per surface cell.
    pub open spec fn wf(&self) -> bool {
        self.buffer@.len() == self.width * self.height
    }

    /// A cleared surface of the given size.
    pub fn new(width: usize, height: usize) -> (f: Frame)
        requires
            width * height <= usize::MAX,
        ensures
            f.wf(),
            f.width == width,
            f.height == height,
            forall|k: int| 0 <= k < f.buffer@.len() ==> f.buffer@[k] == 0u32,
    {
        let mut buffer: Vec<u32> = Vec::new();
        let n: usize = width * height;
        let mut i: usize = 0;
        while i < n
            invariant
                i <= n,
                buffer@.len() == i,
                forall|k: int| 0 <= k < i ==> buffer@[k] == 0u32,
            decreases n - i,
        {
            buffer.push(0);
            i += 1;
        }
        Frame { width, height, buffer }
    }

    /// Write one pixel, masked into view with an opaque alpha byte; writes
    /// outside the surface are dropped.
    pub fn put(&mut self, vgaX: usize, vgaY: usize, color: u32)
        requires
            old(self).wf(),
        ensures
            final(self).wf(),
            final(self).width == old(self).width,
            final(self).height == old(self).height,
            (if vgaX < old(self).width && vgaY < old(self).height {
                final(self).buffer@ == old(self).buffer@.update(
                    vgaY * old(self).width + vgaX,
                    0xFF00_0000u32 | color,
                )
            } else {
                final(self).buffer@ == old(self).buffer@
            }),
    {
        let len: usize = self.buffer.len();
        if vgaX < self.width && vgaY < self.height {
            proof {
                assert(vgaY * self.width + vgaX < self.width * self.height) by (nonlinear_arith)
                    requires
                        vgaX < self.width,
                        vgaY < self.height,
                ;
                assert(vgaY * self.width + vgaX < len);
            }
            let offset: usize = vgaY * self.width + vgaX;
            self.buffer.set(offset, 0xFF00_0000u32 | color);
        }
    }
}

impl Gigatron {
    /// Reconstruct the frame at a fixed doubling: each of the 160x120
    /// source pixels fills a 2x2 block of host pixels, written through
    /// `put`; the rest of the surface keeps its pixels.
    pub fn render(&self, video: &mut Frame)
        requires
            self.wf(),
            old(video).wf(),
        ensures
            final(video).wf(),
            final(video).width == old(video).width,
            final(video).height == old(video).height,
            forall|vx: int, vy: int|
                0 <= vx < old(video).width && 0 <= vy < old(video).height && vx < 320 && vy < 240
                    ==> final(video).buffer@[#[trigger] spec_frame_index(old(video).width, vx, vy)]
                    == (0xFF00_0000u32 | spec_rgb(spec_vram_pixel(self.RAM@, vx / 2, vy / 2))),
            forall|vx: int, vy: int|
                0 <= vx < old(video).width && 0 <= vy < old(video).height && (vx >= 320 || vy
                    >= 240) ==> final(video).buffer@[#[trigger] spec_frame_index(
                    old(video).width,
                    vx,
                    vy,
                )] == old(video).buffer@[spec_frame_index(old(video).width, vx, vy)],
    {
        let ghost buf0 = video.buffer@;
        let width: usize = video.width;
        let height: usize = video.height;
        let mut vy: usize = 0;
        while vy < 240
            invariant
                self.wf(),
                video.wf(),
                video.width == width,
                video.height == height,
                vy <= 240,
                forall|a: int, b: int|
                    0 <= a < width && 0 <= b < height && a < 320 && b < vy
                        ==> video.buffer@[#[trigger] spec_frame_index(width, a, b)] == (
                    0xFF00_0000u32 | spec_rgb(spec_vram_pixel(self.RAM@, a / 2, b / 2))),
                forall|a: int, b: int|
                    0 <= a < width && 0 <= b < height && (a >= 320 || b >= vy)
                        ==> video.buffer@[#[trigger] spec_frame_index(width, a, b)]
                        == buf0[spec_frame_index(width, a, b)],
            decreases 240 - vy,
        {
            let mut vx: usize = 0;
            while vx < 320
                invariant
                    self.wf(),
                    video.wf(),
                    video.width == width,
                    video.height == height,
                    vy < 240,
                    vx <= 320,
                    forall|a: int, b: int|
                        0 <= a < width && 0 <= b < height && a < 320 && b < vy
                            ==> video.buffer@[#[trigger] spec_frame_index(width, a, b)] == (
                        0xFF00_0000u32 | spec_rgb(spec_vram_pixel(self.RAM@, a / 2, b / 2))),
                    forall|a: int|
                        0 <= a < width && a < vx && (vy as int) < height
                            ==> video.buffer@[#[trigger] spec_frame_index(width, a, vy as int)] == (
                        0xFF00_0000u32 | spec_rgb(spec_vram_pixel(self.RAM@, a / 2, vy as int / 2))),
                    forall|a: int, b: int|
                        0 <= a < width && 0 <= b < height && (a >= 320 || b > vy || (b == vy && a
                            >= vx)) ==> video.buffer@[#[trigger] spec_frame_index(width, a, b)]
                            == buf0[spec_frame_index(width, a, b)],
                decreases 320 - vx,
            {
                let x: usize = vx / 2;
                let y: usize = vy / 2;
                proof {
                    assert(x <= 159 && y <= 119);
                }
                let addr: usize = 2048 + y * 256 + x;
                let pixel: u8 = self.RAM[addr];
                let color = unpack_color(pixel);
                let rgb = makeRGB(&color);
                let ghost before = video.buffer@;
                video.put(vx, vy, rgb);
                proof {
                    if vx < width && vy < height {
                        assert(video.buffer@ == before.update(
                            spec_frame_index(width, vx as int, vy as int),
                            0xFF00_0000u32 | rgb,
                        ));
                        assert(0 <= spec_frame_index(width, vx as int, vy as int) < width * height)
                            by (nonlinear_arith)
                            requires
                                vx < width,
                                vy < height,
                        ;
                        assert forall|a: int, b: int|
                            0 <= a < width && 0 <= b < height && !(a == vx && b == vy) implies
                        spec_frame_index(width, a, b) != spec_frame_index(
                            width,
                            vx as int,
                            vy as int,
                        ) && 0 <= spec_frame_index(width, a, b) < width * height by {
                            assert(0 <= b * width + a < width * height) by (nonlinear_arith)
                                requires
                                    0 <= a < width,
                                    0 <= b < height,
                            ;
                            if spec_frame_index(width, a, b) == spec_frame_index(
                                width,
                                vx as int,
                                vy as int,
                            ) {
                                lemma_rowmajor_injective(width as int, a, b, vx as int, vy as int);
                            }
                        }
                    }
                }
                vx += 1;
            }
            vy += 1;
        }
    }

    /// Reconstruct the whole surface from the RAM video region by integer
    /// nearest-neighbor scaling: surface column vx shows source column
    /// vx / (width / 160), surface row vy source row vy / (height / 120).
    pub fn render2(&self, video: &mut Frame)
        requires
            self.wf(),
            old(video).wf(),
            old(video).width >= 160,
            old(video).height >= 120,
            old(video).width <= 0x10000,
            old(video).height <= 0x10000,
        ensures
            final(video).wf(),
            final(video).width == old(video).width,
            final(video).height == old(video).height,
            forall|vx: int, vy: int|
                0 <= vx < old(video).width && 0 <= vy < old(video).height ==> final(
                    video
                ).buffer@[#[trigger] spec_frame_index(old(video).width, vx, vy)]
                    == spec_scaled_pixel(self.RAM@, old(video).width, old(video).height, vx, vy),
    {
        let width: usize = video.width;
        let height: usize = video.height;
        let scaleX: usize = width / 160;
        let scaleY: usize = height / 120;
        let len: usize = video.buffer.len();

        let mut vgaX: usize = 0;
        let mut vgaY: usize = 0;
        let mut k: usize = 0;
        while k < len
            invariant
                self.wf(),
                video.wf(),
                video.width == width,
                video.height == height,
                160 <= width <= 0x10000,
                120 <= height <= 0x10000,
                scaleX == spec_scale_x(width),
                scaleY == spec_scale_y(height),
                len == width * height,
                k <= len,
                vgaX < width,
                k == vgaY * width + vgaX,
                vgaY >= 0,
                video.buffer@.len() == len,
                forall|vx: int, vy: int|
                    0 <= vx < width && 0 <= vy && #[trigger] spec_frame_index(width, vx, vy) < k
                        ==> video.buffer@[spec_frame_index(width, vx, vy)] == spec_scaled_pixel(
                        self.RAM@,
                        width,
                        height,
                        vx,
                        vy,
                    ),
            decreases len - k,
        {
            proof {
                assert(vgaY < height) by (nonlinear_arith)
                    requires
                        vgaY * width + vgaX == k,
                        k < width * height,
                        0 <= vgaX,
                        0 <= vgaY,
                        width >= 1,
                ;
            }
            let x: usize = vgaX / scaleX;
            let y: usize = vgaY / scaleY;
            proof {
                assert(x <= vgaX && y <= vgaY) by (nonlinear_arith)
                    requires
                        x == vgaX / scaleX,
                        y == vgaY / scaleY,
                        scaleX >= 1,
                        scaleY >= 1,
                        vgaX >= 0,
                        vgaY >= 0,
                ;
            }
            let addr: usize = 2048 + y * 256 + x;
            let v: u8 = if addr < 32768 {
                self.RAM[addr]
            } else {
                0
            };
            let color = unpack_color(v);
            let rgb = makeRGB(&color);
            video.buffer.set(k, rgb);

            proof {
                let ghost buf = video.buffer@;
                assert forall|vx: int, vy: int|
                    0 <= vx < width && 0 <= vy && #[trigger] spec_frame_index(width, vx, vy) < k
                        + 1 implies buf[spec_frame_index(width, vx, vy)] == spec_scaled_pixel(
                    self.RAM@,
                    width,
                    height,
                    vx,
                    vy,
                ) by {
                    if vy * width + vx == k {
                        lemma_rowmajor_injective(width as int, vx, vy, vgaX as int, vgaY as int);
                    }
                }
            }
            k += 1;
            vgaX += 1;
            if vgaX == width {
                vgaX = 0;
                vgaY += 1;
                proof {
                    assert(vgaY * width == (vgaY - 1) * width + width) by (nonlinear_arith);
                }
            }
        }
        proof {
            assert forall|vx: int, vy: int|
                0 <= vx < width && 0 <= vy < height implies video.buffer@[#[trigger] spec_frame_index(
                width,
                vx,
                vy,
            )] == spec_scaled_pixel(self.RAM@, width, height, vx, vy) by {
                assert(vy * width + vx < width * height) by (nonlinear_arith)
                    requires
                        0 <= vx < width,
                        0 <= vy < height,
                ;
            }
        }
    }
}

} // verus!
