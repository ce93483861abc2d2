//! Pixel composition: once per frame the background map, the window and
//! the sprites are composited into the caller's 256 x 256 RGB565
//! framebuffer (two bytes per pixel, row-major).
//!
//! Each drawing pass is specified as a fold that applies the pass's pixel
//! writes in order; the executable functions are proved to produce exactly
//! the folded buffer.

use crate::arith::{bit_get, test_bit, wadd8};
use crate::gpu::GPU;
use crate::memory::{MemV, Memory};
use vstd::prelude::*;

verus! {

/// The low framebuffer byte of each of the four shades.
pub open spec fn color_lo(ci: u8) -> u8 {
    if ci == 0 {
        0x9c
    } else if ci == 1 {
        0x08
    } else if ci == 2 {
        0x31
    } else {
        0x6a
    }
}

/// The high framebuffer byte of each of the four shades.
pub open spec fn color_hi(ci: u8) -> u8 {
    if ci == 0 {
        0xe7
    } else if ci == 1 {
        0x97
    } else if ci == 2 {
        0x44
    } else {
        0x31
    }
}

/// The buffer with the pixel at (`px`, `py`) set to shade `ci`.
pub open spec fn pix_write(b: Seq<u8>, px: u8, py: u8, ci: u8) -> Seq<u8> {
    let off = (py * 256 + px) * 2;
    b.update(off as int, color_lo(ci)).update(off + 1, color_hi(ci))
}

/// The 2-bit shade of pixel (`r`, `c`) of the tile at `addr`: each row is
/// two bytes holding the low and high bit planes, leftmost pixel in the
/// top bit.
pub open spec fn tile_color(m: MemV, addr: u16, r: int, c: int) -> u8
    recommends
        0 <= r < 8,
        0 <= c < 8,
        addr + 16 <= 0x10000,
{
    let lo = m.read8s((addr + 2 * r) as u16);
    let hi = m.read8s((addr + 2 * r + 1) as u16);
    ((if bit_get(hi, (7 - c) as u8) {
        2int
    } else {
        0
    }) + (if bit_get(lo, (7 - c) as u8) {
        1int
    } else {
        0
    })) as u8
}

/// The first `k` pixels of a tile drawn at (`x`, `y`), row-major, each
/// position wrapping in the 256 x 256 surface.
pub open spec fn tile_fold(m: MemV, addr: u16, b: Seq<u8>, x: u8, y: u8, k: int) -> Seq<u8>
    decreases k,
{
    if k <= 0 {
        b
    } else {
        let j = k - 1;
        let r = j / 8;
        let c = j % 8;
        let prev = tile_fold(m, addr, b, x, y, j);
        pix_write(prev, ((x + c) % 256) as u8, ((y + r) % 256) as u8, tile_color(m, addr, r, c))
    }
}

/// The first `k` pixels of a sprite tile drawn at (`x`, `y`): shade 0 is
/// transparent, and attribute bits 5 and 6 flip the tile horizontally and
/// vertically.
pub open spec fn sprite_fold(
    m: MemV,
    addr: u16,
    b: Seq<u8>,
    x: u8,
    y: u8,
    attr: u8,
    k: int,
) -> Seq<u8>
    decreases k,
{
    if k <= 0 {
        b
    } else {
        let j = k - 1;
        let r = j / 8;
        let c = j % 8;
        let prev = sprite_fold(m, addr, b, x, y, attr, j);
        let ci = tile_color(m, addr, r, c);
        if ci == 0 {
            prev
        } else {
            let gc = if bit_get(attr, 5) {
                7 - c
            } else {
                c
            };
            let gr = if bit_get(attr, 6) {
                7 - r
            } else {
                r
            };
            pix_write(prev, ((x + gc) % 256) as u8, ((y + gr) % 256) as u8, ci)
        }
    }
}

/// Where the 16 bytes of tile `id` live: at 0x8000 for the unsigned
/// addressing mode (LCDC bit 4), else at 0x9000 with `id` read as signed.
pub open spec fn spec_tile_addr(lcdc: u8, id: u8) -> u16 {
    if bit_get(lcdc, 4) {
        (0x8000 + 16 * id) as u16
    } else if id < 128 {
        (0x9000 + 16 * id) as u16
    } else {
        (0x8800 + 16 * (id - 128)) as u16
    }
}

/// The tile map the background uses (LCDC bit 3).
pub open spec fn bg_base(lcdc: u8) -> u16 {
    if bit_get(lcdc, 3) {
        0x9c00
    } else {
        0x9800
    }
}

/// The tile map the window uses (LCDC bit 6).
pub open spec fn win_base(lcdc: u8) -> u16 {
    if bit_get(lcdc, 6) {
        0x9c00
    } else {
        0x9800
    }
}

/// The first `k` cells of the background map drawn: cell `j` of the 32x32
/// grid shows its tile at (8 column - SCX, 8 row - SCY), wrapping.
pub open spec fn bg_fold(m: MemV, b: Seq<u8>, k: int) -> Seq<u8>
    decreases k,
{
    if k <= 0 {
        b
    } else {
        let j = k - 1;
        let lcdc = m.data[0xff40];
        let id = m.read8s((bg_base(lcdc) + j) as u16);
        let x = ((8 * (j % 32) - m.data[0xff43]) % 256) as u8;
        let y = ((8 * (j / 32) - m.data[0xff42]) % 256) as u8;
        tile_fold(m, spec_tile_addr(lcdc, id), bg_fold(m, b, j), x, y, 64)
    }
}

/// The first `k` cells of the window map drawn: cell `j` shows its tile at
/// (8 column + WX - 7, 8 row + WY); cells whose origin falls outside the
/// visible 160 x 144 area are skipped.
pub open spec fn win_fold(m: MemV, b: Seq<u8>, k: int) -> Seq<u8>
    decreases k,
{
    if k <= 0 {
        b
    } else {
        let j = k - 1;
        let lcdc = m.data[0xff40];
        let id = m.read8s((win_base(lcdc) + j) as u16);
        let x = ((8 * (j % 32) + m.data[0xff4b] - 7) % 256) as u8;
        let y = ((8 * (j / 32) + m.data[0xff4a]) % 256) as u8;
        let prev = win_fold(m, b, j);
        if x < 160 && y < 144 {
            tile_fold(m, spec_tile_addr(lcdc, id), prev, x, y, 64)
        } else {
            prev
        }
    }
}

/// The first `k` of the 40 OAM entries drawn. An entry holds Y, X, tile
/// and attributes; it shows at (X-8, Y-16), entries with X and Y both zero
/// are skipped, sprite tiles always come from 0x8000, and in 8x16 mode
/// (LCDC bit 2) the even-masked tile pair is drawn, the second tile eight
/// lines lower.
pub open spec fn sprites_fold(m: MemV, b: Seq<u8>, k: int) -> Seq<u8>
    decreases k,
{
    if k <= 0 {
        b
    } else {
        let j = k - 1;
        let sy = m.read8s((0xfe00 + 4 * j) as u16);
        let sx = m.read8s((0xfe01 + 4 * j) as u16);
        let id = m.read8s((0xfe02 + 4 * j) as u16);
        let attr = m.read8s((0xfe03 + 4 * j) as u16);
        let prev = sprites_fold(m, b, j);
        if sx == 0 && sy == 0 {
            prev
        } else {
            let ex = ((sx - 8) % 256) as u8;
            let ey = ((sy - 16) % 256) as u8;
            if bit_get(m.data[0xff40], 2) {
                let even = (id / 2 * 2) as u8;
                let b1 = sprite_fold(m, (0x8000 + 16 * even) as u16, prev, ex, ey, attr, 64);
                sprite_fold(
                    m,
                    (0x8010 + 16 * even) as u16,
                    b1,
                    ex,
                    ((ey + 8) % 256) as u8,
                    attr,
                    64,
                )
            } else {
                sprite_fold(m, (0x8000 + 16 * id) as u16, prev, ex, ey, attr, 64)
            }
        }
    }
}

/// A full composited frame: the background map, then the window if LCDC
/// bit 5 enables it, then the sprites if LCDC bit 1 enables them.
pub open spec fn spec_screen(m: MemV, b: Seq<u8>) -> Seq<u8> {
    let lcdc = m.data[0xff40];
    let b1 = bg_fold(m, b, 1024);
    let b2 = if bit_get(lcdc, 5) {
        win_fold(m, b1, 1024)
    } else {
        b1
    };
    if bit_get(lcdc, 1) {
        sprites_fold(m, b2, 40)
    } else {
        b2
    }
}

impl GPU {
    /// Writes one pixel of shade `color_index` into the framebuffer.
    pub fn set_pixel(buffer: &mut Vec<u8>, x: u8, y: u8, color_index: u8)
        requires
            old(buffer)@.len() == 0x20000,
            color_index < 4,
        ensures
            final(buffer)@ == pix_write(old(buffer)@, x, y, color_index),
            final(buffer)@.len() == 0x20000,
    {
        let offset: usize = (y as usize * 256 + x as usize) * 2;
        let lo: u8 = if color_index == 0 {
            0x9c
        } else if color_index == 1 {
            0x08
        } else if color_index == 2 {
            0x31
        } else {
            0x6a
        };
        let hi: u8 = if color_index == 0 {
            0xe7
        } else if color_index == 1 {
            0x97
        } else if color_index == 2 {
            0x44
        } else {
            0x31
        };
        buffer[offset] = lo;
        buffer[offset + 1] = hi;
    }

    /// Draws one background or window tile at (`x`, `y`), wrapping on the
    /// 256 x 256 surface.
    fn draw_tile(&self, mem: &Memory, tile_addr: u16, buffer: &mut Vec<u8>, x: u8, y: u8)
        requires
            mem@.wf(),
            old(buffer)@.len() == 0x20000,
            tile_addr + 16 <= 0x10000,
        ensures
            final(buffer)@ == tile_fold(mem@, tile_addr, old(buffer)@, x, y, 64),
            final(buffer)@.len() == 0x20000,
    {
        let mut r: u8 = 0;
        while r < 8
            invariant
                r <= 8,
                mem@.wf(),
                tile_addr + 16 <= 0x10000,
                buffer@.len() == 0x20000,
                buffer@ == tile_fold(mem@, tile_addr, old(buffer)@, x, y, 8 * r),
            decreases 8 - r,
        {
            let lo = mem.read8(tile_addr + 2 * r as u16);
            let hi = mem.read8(tile_addr + 2 * r as u16 + 1);
            let mut c: u8 = 0;
            while c < 8
                invariant
                    r < 8,
                    c <= 8,
                    mem@.wf(),
                    tile_addr + 16 <= 0x10000,
                    lo == mem@.read8s((tile_addr + 2 * r) as u16),
                    hi == mem@.read8s((tile_addr + 2 * r + 1) as u16),
                    buffer@.len() == 0x20000,
                    buffer@ == tile_fold(mem@, tile_addr, old(buffer)@, x, y, 8 * r + c),
                decreases 8 - c,
            {
                let hb: u8 = if test_bit(hi, 7 - c) {
                    2
                } else {
                    0
                };
                let lb: u8 = if test_bit(lo, 7 - c) {
                    1
                } else {
                    0
                };
                let ci = hb + lb;
                Self::set_pixel(buffer, wadd8(x, c), wadd8(y, r), ci);
                proof {
                    assert((8 * r + c + 1 - 1) / 8 == r as int && (8 * r + c + 1 - 1) % 8
                        == c as int);
                }
                c += 1;
            }
            r += 1;
        }
    }

    /// Draws one sprite tile at (`x`, `y`): shade 0 is transparent, and
    /// the attribute bits may flip the tile.
    fn draw_sprite(
        &self,
        mem: &Memory,
        src_addr: u16,
        buffer: &mut Vec<u8>,
        x: u8,
        y: u8,
        attr: u8,
    )
        requires
            mem@.wf(),
            old(buffer)@.len() == 0x20000,
            src_addr + 16 <= 0x10000,
        ensures
            final(buffer)@ == sprite_fold(mem@, src_addr, old(buffer)@, x, y, attr, 64),
            final(buffer)@.len() == 0x20000,
    {
        let mut r: u8 = 0;
        while r < 8
            invariant
                r <= 8,
                mem@.wf(),
                src_addr + 16 <= 0x10000,
                buffer@.len() == 0x20000,
                buffer@ == sprite_fold(mem@, src_addr, old(buffer)@, x, y, attr, 8 * r),
            decreases 8 - r,
        {
            let lo = mem.read8(src_addr + 2 * r as u16);
            let hi = mem.read8(src_addr + 2 * r as u16 + 1);
            let mut c: u8 = 0;
            while c < 8
                invariant
                    r < 8,
                    c <= 8,
                    mem@.wf(),
                    src_addr + 16 <= 0x10000,
                    lo == mem@.read8s((src_addr + 2 * r) as u16),
                    hi == mem@.read8s((src_addr + 2 * r + 1) as u16),
                    buffer@.len() == 0x20000,
                    buffer@ == sprite_fold(mem@, src_addr, old(buffer)@, x, y, attr, 8 * r + c),
                decreases 8 - c,
            {
                let hb: u8 = if test_bit(hi, 7 - c) {
                    2
                } else {
                    0
                };
                let lb: u8 = if test_bit(lo, 7 - c) {
                    1
                } else {
                    0
                };
                let ci = hb + lb;
                if ci > 0 {
                    let gc: u8 = if test_bit(attr, 5) {
                        7 - c
                    } else {
                        c
                    };
                    let gr: u8 = if test_bit(attr, 6) {
                        7 - r
                    } else {
                        r
                    };
                    Self::set_pixel(buffer, wadd8(x, gc), wadd8(y, gr), ci);
                }
                proof {
                    assert((8 * r + c + 1 - 1) / 8 == r as int && (8 * r + c + 1 - 1) % 8
                        == c as int);
                }
                c += 1;
            }
            r += 1;
        }
    }

    /// Where the 16 bytes of tile `id` start, following the addressing
    /// mode LCDC bit 4 selects.
    fn get_tile_addr(&self, mem: &Memory, tile_id: u8) -> (r: u16)
        requires
            mem@.wf(),
        ensures
            r == spec_tile_addr(mem@.data[0xff40], tile_id),
            0x8000 <= r <= 0x97f0,
    {
        if test_bit(mem.reg_lcdc(), 4) {
            0x8000 + 16 * tile_id as u16
        } else if tile_id < 128 {
            0x9000 + 16 * tile_id as u16
        } else {
            0x8800 + 16 * (tile_id as u16 - 128)
        }
    }

    /// Composites the full picture — background, window, sprites — into
    /// the framebuffer.
    #[verifier::rlimit(100)]
    #[verifier::spinoff_prover]
    pub fn draw_screen(&self, mem: &Memory, buffer: &mut Vec<u8>)
        requires
            mem@.wf(),
            old(buffer)@.len() == 0x20000,
        ensures
            final(buffer)@ == spec_screen(mem@, old(buffer)@),
            final(buffer)@.len() == 0x20000,
    {
        let lcdc = mem.reg_lcdc();
        let bg: u16 = if test_bit(lcdc, 3) {
            0x9c00
        } else {
            0x9800
        };
        let scx = mem.reg_scx();
        let scy = mem.reg_scy();
        let mut j: u16 = 0;
        while j < 1024
            invariant
                j <= 1024,
                mem@.wf(),
                lcdc == mem@.data[0xff40],
                scx == mem@.data[0xff43],
                scy == mem@.data[0xff42],
                bg == bg_base(lcdc),
                buffer@.len() == 0x20000,
                buffer@ == bg_fold(mem@, old(buffer)@, j as int),
            decreases 1024 - j,
        {
            let id = mem.read8(bg + j);
            let addr = self.get_tile_addr(mem, id);
            let x: u8 = (((j % 32) as u32 * 8 + 256 - scx as u32) % 256) as u8;
            let y: u8 = (((j / 32) as u32 * 8 + 256 - scy as u32) % 256) as u8;
            proof {
                vstd::arithmetic::div_mod::lemma_mod_add_multiples_vanish(
                    8 * ((j as int) % 32) - scx,
                    256,
                );
                vstd::arithmetic::div_mod::lemma_mod_add_multiples_vanish(
                    8 * ((j as int) / 32) - scy,
                    256,
                );
            }
            self.draw_tile(mem, addr, buffer, x, y);
            j += 1;
        }
        if test_bit(lcdc, 5) {
            let win: u16 = if test_bit(lcdc, 6) {
                0x9c00
            } else {
                0x9800
            };
            let wx = mem.reg_wx();
            let wy = mem.reg_wy();
            let ghost b1 = buffer@;
            let mut j: u16 = 0;
            while j < 1024
                invariant
                    j <= 1024,
                    mem@.wf(),
                    lcdc == mem@.data[0xff40],
                    wx == mem@.data[0xff4b],
                    wy == mem@.data[0xff4a],
                    win == win_base(lcdc),
                    buffer@.len() == 0x20000,
                    buffer@ == win_fold(mem@, b1, j as int),
                decreases 1024 - j,
            {
                let id = mem.read8(win + j);
                let addr = self.get_tile_addr(mem, id);
                let x: u8 = (((j % 32) as u32 * 8 + wx as u32 + 256 - 7) % 256) as u8;
                let y: u8 = (((j / 32) as u32 * 8 + wy as u32) % 256) as u8;
                proof {
                    vstd::arithmetic::div_mod::lemma_mod_add_multiples_vanish(
                        8 * ((j as int) % 32) + wx - 7,
                        256,
                    );
                    assert((8 * ((j as int) / 32) + wy) % 256 == (8 * ((j as int) / 32) + wy as int)
                        % 256);
                }
                if x < 160 && y < 144 {
                    self.draw_tile(mem, addr, buffer, x, y);
                }
                j += 1;
            }
        }
        if test_bit(lcdc, 1) {
            let ghost b2 = buffer@;
            let mut j: u16 = 0;
            while j < 40
                invariant
                    j <= 40,
                    mem@.wf(),
                    lcdc == mem@.data[0xff40],
                    buffer@.len() == 0x20000,
                    buffer@ == sprites_fold(mem@, b2, j as int),
                decreases 40 - j,
            {
                let sy = mem.read8(0xfe00 + 4 * j);
                let sx = mem.read8(0xfe01 + 4 * j);
                let id = mem.read8(0xfe02 + 4 * j);
                let attr = mem.read8(0xfe03 + 4 * j);
                if !(sx == 0 && sy == 0) {
                    let ex: u8 = ((sx as u16 + 256 - 8) % 256) as u8;
                    let ey: u8 = ((sy as u16 + 256 - 16) % 256) as u8;
                    proof {
                        vstd::arithmetic::div_mod::lemma_mod_add_multiples_vanish(
                            sx as int - 8,
                            256,
                        );
                        vstd::arithmetic::div_mod::lemma_mod_add_multiples_vanish(
                            sy as int - 16,
                            256,
                        );
                    }
                    if test_bit(lcdc, 2) {
                        let even = id / 2 * 2;
                        self.draw_sprite(mem, 0x8000 + 16 * even as u16, buffer, ex, ey, attr);
                        self.draw_sprite(
                            mem,
                            0x8010 + 16 * even as u16,
                            buffer,
                            ex,
                            wadd8(ey, 8),
                            attr,
                        );
                    } else {
                        self.draw_sprite(mem, 0x8000 + 16 * id as u16, buffer, ex, ey, attr);
                    }
                }
                j += 1;
            }
        }
    }
}

} // verus!
