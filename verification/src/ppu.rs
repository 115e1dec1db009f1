use vstd::prelude::*;

verus! {

use crate::cartridge::fill_zero;
use crate::mmu::MmuView;
use crate::mmu::MMU;

/// Frame width in pixels.
pub const WIDTH: usize = 256;

/// Frame height in pixels.
pub const HEIGHT: usize = 240;

/// A borrowed view of one finished frame: BGRA pixel data, its pitch in
/// bytes, and its dimensions in pixels.
pub struct Frame<'a> {
    /// Pixel data
    pub data: &'a [u8],

    /// Row pitch in bytes
    pub pitch: usize,

    /// Width in pixels
    pub width: usize,

    /// Height in pixels
    pub height: usize,
}

/// RGB triple of one entry of the fixed 64-colour system palette; entries
/// past 63 are never selected because the index is masked to six bits.
pub open spec fn spec_system_palette(index: u8) -> (u8, u8, u8) {
    match index {
        0 => (0x65, 0x65, 0x65),
        1 => (0x00, 0x12, 0x7D),
        2 => (0x18, 0x00, 0x8E),
        3 => (0x36, 0x00, 0x82),
        4 => (0x56, 0x00, 0x5D),
        5 => (0x5A, 0x00, 0x18),
        6 => (0x4F, 0x05, 0x00),
        7 => (0x38, 0x19, 0x00),
        8 => (0x1D, 0x31, 0x00),
        9 => (0x00, 0x3D, 0x00),
        10 => (0x00, 0x41, 0x00),
        11 => (0x00, 0x3B, 0x17),
        12 => (0x00, 0x2E, 0x55),
        13 => (0x00, 0x00, 0x00),
        14 => (0x00, 0x00, 0x00),
        15 => (0x00, 0x00, 0x00),
        16 => (0xAF, 0xAF, 0xAF),
        17 => (0x19, 0x4E, 0xC8),
        18 => (0x47, 0x2F, 0xE3),
        19 => (0x6B, 0x1F, 0xD7),
        20 => (0x93, 0x1B, 0xAE),
        21 => (0x9E, 0x1A, 0x5E),
        22 => (0x97, 0x32, 0x00),
        23 => (0x7B, 0x4B, 0x00),
        24 => (0x5B, 0x67, 0x00),
        25 => (0x26, 0x7A, 0x00),
        26 => (0x00, 0x82, 0x00),
        27 => (0x00, 0x7A, 0x3E),
        28 => (0x00, 0x6E, 0x8A),
        29 => (0x00, 0x00, 0x00),
        30 => (0x00, 0x00, 0x00),
        31 => (0x00, 0x00, 0x00),
        32 => (0xFF, 0xFF, 0xFF),
        33 => (0x64, 0xA9, 0xFF),
        34 => (0x8E, 0x89, 0xFF),
        35 => (0xB6, 0x76, 0xFF),
        36 => (0xE0, 0x6F, 0xFF),
        37 => (0xEF, 0x6C, 0xC4),
        38 => (0xF0, 0x80, 0x6A),
        39 => (0xD8, 0x98, 0x2C),
        40 => (0xB9, 0xB4, 0x0A),
        41 => (0x83, 0xCB, 0x0C),
        42 => (0x5B, 0xD6, 0x3F),
        43 => (0x4A, 0xD1, 0x7E),
        44 => (0x4D, 0xC7, 0xCB),
        45 => (0x4C, 0x4C, 0x4C),
        46 => (0x00, 0x00, 0x00),
        47 => (0x00, 0x00, 0x00),
        48 => (0xFF, 0xFF, 0xFF),
        49 => (0xC7, 0xE5, 0xFF),
        50 => (0xD9, 0xD9, 0xFF),
        51 => (0xE9, 0xD1, 0xFF),
        52 => (0xF9, 0xCE, 0xFF),
        53 => (0xFF, 0xCC, 0xF1),
        54 => (0xFF, 0xD4, 0xCB),
        55 => (0xF8, 0xDF, 0xB1),
        56 => (0xED, 0xEA, 0xA4),
        57 => (0xD6, 0xF4, 0xA4),
        58 => (0xC5, 0xF8, 0xB8),
        59 => (0xBE, 0xF6, 0xD3),
        60 => (0xBF, 0xF1, 0xF1),
        61 => (0xB9, 0xB9, 0xB9),
        62 => (0x00, 0x00, 0x00),
        63 => (0x00, 0x00, 0x00),
        _ => (0x00, 0x00, 0x00),
    }
}

/// The fixed 64-colour system palette.
pub fn system_palette(index: u8) -> (rgb: (u8, u8, u8))
    ensures
        rgb == spec_system_palette(index),
{
    match index {
        0 => (0x65, 0x65, 0x65),
        1 => (0x00, 0x12, 0x7D),
        2 => (0x18, 0x00, 0x8E),
        3 => (0x36, 0x00, 0x82),
        4 => (0x56, 0x00, 0x5D),
        5 => (0x5A, 0x00, 0x18),
        6 => (0x4F, 0x05, 0x00),
        7 => (0x38, 0x19, 0x00),
        8 => (0x1D, 0x31, 0x00),
        9 => (0x00, 0x3D, 0x00),
        10 => (0x00, 0x41, 0x00),
        11 => (0x00, 0x3B, 0x17),
        12 => (0x00, 0x2E, 0x55),
        13 => (0x00, 0x00, 0x00),
        14 => (0x00, 0x00, 0x00),
        15 => (0x00, 0x00, 0x00),
        16 => (0xAF, 0xAF, 0xAF),
        17 => (0x19, 0x4E, 0xC8),
        18 => (0x47, 0x2F, 0xE3),
        19 => (0x6B, 0x1F, 0xD7),
        20 => (0x93, 0x1B, 0xAE),
        21 => (0x9E, 0x1A, 0x5E),
        22 => (0x97, 0x32, 0x00),
        23 => (0x7B, 0x4B, 0x00),
        24 => (0x5B, 0x67, 0x00),
        25 => (0x26, 0x7A, 0x00),
        26 => (0x00, 0x82, 0x00),
        27 => (0x00, 0x7A, 0x3E),
        28 => (0x00, 0x6E, 0x8A),
        29 => (0x00, 0x00, 0x00),
        30 => (0x00, 0x00, 0x00),
        31 => (0x00, 0x00, 0x00),
        32 => (0xFF, 0xFF, 0xFF),
        33 => (0x64, 0xA9, 0xFF),
        34 => (0x8E, 0x89, 0xFF),
        35 => (0xB6, 0x76, 0xFF),
        36 => (0xE0, 0x6F, 0xFF),
        37 => (0xEF, 0x6C, 0xC4),
        38 => (0xF0, 0x80, 0x6A),
        39 => (0xD8, 0x98, 0x2C),
        40 => (0xB9, 0xB4, 0x0A),
        41 => (0x83, 0xCB, 0x0C),
        42 => (0x5B, 0xD6, 0x3F),
        43 => (0x4A, 0xD1, 0x7E),
        44 => (0x4D, 0xC7, 0xCB),
        45 => (0x4C, 0x4C, 0x4C),
        46 => (0x00, 0x00, 0x00),
        47 => (0x00, 0x00, 0x00),
        48 => (0xFF, 0xFF, 0xFF),
        49 => (0xC7, 0xE5, 0xFF),
        50 => (0xD9, 0xD9, 0xFF),
        51 => (0xE9, 0xD1, 0xFF),
        52 => (0xF9, 0xCE, 0xFF),
        53 => (0xFF, 0xCC, 0xF1),
        54 => (0xFF, 0xD4, 0xCB),
        55 => (0xF8, 0xDF, 0xB1),
        56 => (0xED, 0xEA, 0xA4),
        57 => (0xD6, 0xF4, 0xA4),
        58 => (0xC5, 0xF8, 0xB8),
        59 => (0xBE, 0xF6, 0xD3),
        60 => (0xBF, 0xF1, 0xF1),
        61 => (0xB9, 0xB9, 0xB9),
        62 => (0x00, 0x00, 0x00),
        63 => (0x00, 0x00, 0x00),
        _ => (0x00, 0x00, 0x00),
    }
}

/// Mathematical image of the picture processor: control and mask bits,
/// V-Blank and NMI bookkeeping, the dot clock, OAM, the scrolling registers
/// `v`, `x`, `t`, `w`, the fetch latches, the rendering shift registers, and
/// the framebuffer.
#[verifier::ext_equal]
pub ghost struct PpuView {
    pub framebuffer: Seq<u8>,
    pub nmi_enable: bool,
    pub sprite_16: bool,
    pub background_pattern_table_select: bool,
    pub sprite_pattern_table_select: bool,
    pub ram_address_increment: bool,
    pub monochrome: bool,
    pub background_leftmost_enable: bool,
    pub sprite_leftmost_enable: bool,
    pub background_enable: bool,
    pub sprite_enable: bool,
    pub vblank: bool,
    pub suppress_vblank: bool,
    pub nmi_timer: u8,
    pub line: u16,
    pub frame_odd: bool,
    pub dots: u16,
    pub oam_address: u8,
    pub oam: Seq<u8>,
    pub v: u16,
    pub x: u8,
    pub t: u16,
    pub w: bool,
    pub nx_nametable: u8,
    pub nx_attribute: u8,
    pub nx_tile_lo: u8,
    pub nx_tile_hi: u8,
    pub cur_tile_hi: u16,
    pub cur_tile_lo: u16,
    pub cur_attribute: u16,
}

impl PpuView {
    /// Bounds every `reset` establishes and every operation preserves: the
    /// internal addresses are 15-bit, fine-X is 3-bit, the dot clock stays on
    /// the 341 x 262 grid, and OAM and the framebuffer have their fixed
    /// sizes.
    pub open spec fn wf(self) -> bool {
        &&& self.framebuffer.len() == 245760
        &&& self.oam.len() == 256
        &&& self.v < 0x8000
        &&& self.t < 0x8000
        &&& self.x < 8
        &&& self.line <= 261
        &&& self.dots <= 340
    }
}

/// Nametable fetch address: $2000 plus the low twelve bits of `v`.
pub open spec fn spec_nt_address(v: u16) -> u16 {
    0x2000 | (v & 0xFFF)
}

/// Attribute fetch address: the attribute table of the nametable `v`
/// selects, indexed by coarse X and coarse Y divided by four.
pub open spec fn spec_at_address(v: u16) -> u16 {
    0x23C0 | ((v & 0x0C00) | ((v & 0x1F) >> 2) | ((((v >> 5) & 0x1F) >> 2) << 3))
}

/// How far the fetched attribute byte is shifted to select the two bits of
/// the current 2x2-tile quadrant.
pub open spec fn spec_at_shift(v: u16) -> u16 {
    ((((v >> 5) & 0x1F) & 2) << 1) | ((v & 0x1F) & 2)
}

/// Pattern fetch address of the low bitplane: the selected pattern table,
/// the fetched nametable byte as tile number, and fine Y as row.
pub open spec fn spec_tile_address(v: u16, nx_nametable: u8, table_select: bool) -> u16 {
    (if table_select {
        0x1000u16
    } else {
        0x0000u16
    }) | ((v >> 12) & 7) | ((nx_nametable as u16) << 4)
}

/// Coarse X incremented, wrapping into the horizontal-nametable toggle.
pub open spec fn spec_inc_horz(v: u16) -> u16 {
    let coarse_x = v & 0x1F;
    if coarse_x == 31 {
        (((v ^ 0x0400) & !0x1Fu16) | 0) as u16
    } else {
        ((v & !0x1Fu16) | (coarse_x + 1) as u16) as u16
    }
}

/// Fine Y incremented; on overflow coarse Y advances with the special wrap
/// at 29 (toggling the vertical nametable) and the silent wrap at 31.
pub open spec fn spec_inc_vert(v: u16) -> u16 {
    if v & 0x7000 != 0x7000 {
        (v + 0x1000) as u16
    } else {
        let v0 = v & !0x7000u16;
        let coarse_y = (v0 & 0x3E0) >> 5;
        if coarse_y == 29 {
            ((v0 ^ 0x0800) & !0x3E0u16) as u16
        } else if coarse_y == 31 {
            (v0 & !0x3E0u16) as u16
        } else {
            ((v0 & !0x3E0u16) | ((((coarse_y + 1) as u16) << 5) as u16)) as u16
        }
    }
}

/// The horizontal scroll bits of `t` copied into `v`.
pub open spec fn spec_reload_horz(v: u16, t: u16) -> u16 {
    (v & !0x41Fu16) | (t & 0x41F)
}

/// The vertical scroll bits of `t` copied into `v`.
pub open spec fn spec_reload_vert(v: u16, t: u16) -> u16 {
    (v & !0x7BE0u16) | (t & 0x7BE0)
}

/// The nametable byte of the tile `v` points at, latched.
#[verifier::opaque]
pub open spec fn spec_fetch_nametable(p: PpuView, m: MmuView) -> PpuView {
    PpuView { nx_nametable: m.ppu_read_or_ff(spec_nt_address(p.v)), ..p }
}

/// The attribute bits of the tile `v` points at, latched as palette bits
/// 2-3.
#[verifier::opaque]
pub open spec fn spec_fetch_attribute(p: PpuView, m: MmuView) -> PpuView {
    let at = m.ppu_read_or_ff(spec_at_address(p.v));
    PpuView { nx_attribute: (((at >> spec_at_shift(p.v)) & 3) << 2) as u8, ..p }
}

/// The low bitplane of the tile row, latched.
#[verifier::opaque]
pub open spec fn spec_fetch_tile_lo(p: PpuView, m: MmuView) -> PpuView {
    PpuView {
        nx_tile_lo: m.ppu_read_or_ff(
            spec_tile_address(p.v, p.nx_nametable, p.background_pattern_table_select),
        ),
        ..p
    }
}

/// The high bitplane of the tile row, latched.
#[verifier::opaque]
pub open spec fn spec_fetch_tile_hi(p: PpuView, m: MmuView) -> PpuView {
    PpuView {
        nx_tile_hi: m.ppu_read_or_ff(
            spec_tile_address(p.v, p.nx_nametable, p.background_pattern_table_select) | 8,
        ),
        ..p
    }
}

/// One emitted pixel: the palette index selected by the shift registers and
/// fine X, looked up through the palette and written as BGRA into the
/// framebuffer (black when the background is disabled).
#[verifier::opaque]
pub open spec fn spec_render_pixel(p: PpuView, m: MmuView) -> PpuView {
    let offset = (p.line * 256 + (p.dots - 1)) * 4;
    let rgb = if p.background_enable {
        let a = (p.cur_attribute >> 8) as u8;
        let p1 = ((p.cur_tile_lo >> ((15 - p.x) as u16)) & 1) as u8;
        let p2 = ((((p.cur_tile_hi >> ((15 - p.x) as u16)) & 1) as u8) << 1) as u8;
        let palette_index = (a | p1 | p2) & 0x0F;
        let color = m.ppu_read_or_ff((0x3F00 + palette_index) as u16);
        spec_system_palette(color & 0x3F)
    } else {
        (0u8, 0u8, 0u8)
    };
    PpuView {
        framebuffer: p.framebuffer.update(offset, rgb.2).update(offset + 1, rgb.1).update(
            offset + 2,
            rgb.0,
        ).update(offset + 3, 0xFF),
        ..p
    }
}

/// The odd-frame short-circuit: entering pre-render dot 338 of an odd frame
/// with rendering enabled skips one dot.
#[verifier::opaque]
pub open spec fn spec_step_skip(p: PpuView) -> PpuView {
    if p.line == 261 && p.dots == 338 && p.frame_odd && (p.background_enable
        || p.sprite_enable) {
        PpuView { dots: (p.dots + 1) as u16, ..p }
    } else {
        p
    }
}

/// The delayed-NMI countdown: a live timer ticks down and raises the NMI
/// signal when it reaches zero.
#[verifier::opaque]
pub open spec fn spec_step_nmi(p: PpuView, nmi: bool) -> (PpuView, bool) {
    if p.nmi_timer > 0 {
        let t = (p.nmi_timer - 1) as u8;
        (PpuView { nmi_timer: t, ..p }, if t == 0 {
            true
        } else {
            nmi
        })
    } else {
        (p, nmi)
    }
}

/// The shifting window of the background pipeline: dots 2-257 and 322-337
/// shift the two pattern registers left once.
#[verifier::opaque]
pub open spec fn spec_bg_shift(p: PpuView) -> PpuView {
    if (2 <= p.dots && p.dots < 258) || (322 <= p.dots && p.dots < 338) {
        PpuView {
            cur_tile_lo: (p.cur_tile_lo << 1) as u16,
            cur_tile_hi: (p.cur_tile_hi << 1) as u16,
            ..p
        }
    } else {
        p
    }
}

/// The fetch window of the background pipeline: per the dot's place in its
/// 8-dot cell, a nametable, attribute or pattern fetch, or the reload of the
/// shift registers together with the coarse-X step.
#[verifier::opaque]
pub open spec fn spec_bg_phase(p: PpuView, m: MmuView) -> PpuView {
    if (1 <= p.dots && p.dots < 257) || (321 <= p.dots && p.dots < 337) {
        if p.dots & 7 == 2 {
            spec_fetch_nametable(p, m)
        } else if p.dots & 7 == 3 {
            spec_fetch_attribute(p, m)
        } else if p.dots & 7 == 5 {
            spec_fetch_tile_lo(p, m)
        } else if p.dots & 7 == 7 {
            spec_fetch_tile_hi(p, m)
        } else if p.dots & 7 == 0 {
            PpuView {
                cur_tile_hi: p.cur_tile_hi | p.nx_tile_hi as u16,
                cur_tile_lo: p.cur_tile_lo | p.nx_tile_lo as u16,
                cur_attribute: ((p.cur_attribute << 8) | p.nx_attribute as u16) as u16,
                v: spec_inc_horz(p.v),
                ..p
            }
        } else {
            p
        }
    } else {
        p
    }
}

/// The scroll updates of an active line: vert(v) steps at dot 256 and
/// horz(v) reloads from `t` at dot 257.
#[verifier::opaque]
pub open spec fn spec_bg_scroll(p: PpuView) -> PpuView {
    let q = if p.dots == 256 {
        PpuView { v: spec_inc_vert(p.v), ..p }
    } else {
        p
    };
    if q.dots == 257 {
        PpuView { v: spec_reload_horz(q.v, q.t), ..q }
    } else {
        q
    }
}

/// One background dot of an active line: shift, fetch, scroll.
#[verifier::opaque]
pub open spec fn spec_bg_line(p: PpuView, m: MmuView) -> PpuView {
    spec_bg_scroll(spec_bg_phase(spec_bg_shift(p), m))
}

/// One dot of the background fetch pipeline: the active-line work on the
/// pre-render and visible lines, and the repeated vert(v) reload during
/// dots 280-304 of the pre-render line.
#[verifier::opaque]
pub open spec fn spec_step_bg(p: PpuView, m: MmuView) -> PpuView {
    let pa = if p.line == 261 || p.line <= 239 {
        spec_bg_line(p, m)
    } else {
        p
    };
    if pa.line == 261 && 280 <= pa.dots && pa.dots < 305 {
        PpuView { v: spec_reload_vert(pa.v, pa.t), ..pa }
    } else {
        pa
    }
}

/// The V-Blank edges: dot 1 of the pre-render line clears V-Blank and
/// toggles frame parity; dot 1 of line 241 sets V-Blank (unless a $2002 read
/// one dot earlier suppressed it), arms the delayed NMI when enabled, and
/// signals a finished frame.
#[verifier::opaque]
pub open spec fn spec_step_flags(p: PpuView) -> (PpuView, bool) {
    let p1 = if p.line == 261 && p.dots == 1 {
        PpuView { vblank: false, frame_odd: !p.frame_odd, ..p }
    } else {
        p
    };
    if p1.line == 241 && p1.dots == 1 {
        if !p1.suppress_vblank {
            (
                PpuView {
                    vblank: true,
                    nmi_timer: if p1.nmi_enable {
                        2u8
                    } else {
                        p1.nmi_timer
                    },
                    ..p1
                },
                true,
            )
        } else {
            (PpuView { suppress_vblank: false, ..p1 }, false)
        }
    } else {
        (p1, false)
    }
}

/// The dot clock advanced by one, wrapping into the next line and the next
/// frame.
#[verifier::opaque]
pub open spec fn spec_step_counters(p: PpuView) -> PpuView {
    let p1 = PpuView { dots: (p.dots + 1) as u16, ..p };
    if p1.dots >= 341 {
        let l = (p1.line + 1) as u16;
        PpuView { dots: 0, line: if l >= 262 {
            0u16
        } else {
            l
        }, ..p1 }
    } else {
        p1
    }
}

/// One PPU dot: the state after the skip check, the NMI countdown, pixel
/// emission, the background fetch pipeline, the V-Blank edges, and the dot
/// clock, together with the new NMI signal and the frame-finished signal.
#[verifier::opaque]
pub open spec fn spec_ppu_step(p: PpuView, m: MmuView, nmi: bool) -> (PpuView, bool, bool) {
    let p1 = spec_step_skip(p);
    let (p2, nmi1) = spec_step_nmi(p1, nmi);
    let p3 = if p2.line <= 239 && 1 <= p2.dots && p2.dots < 257 {
        spec_render_pixel(p2, m)
    } else {
        p2
    };
    let p4 = if p3.background_enable {
        spec_step_bg(p3, m)
    } else {
        p3
    };
    let (p5, frame) = spec_step_flags(p4);
    (spec_step_counters(p5), nmi1, frame)
}

/// State and value of a $2002 (PPUSTATUS) read: the V-Blank flag is
/// returned in bit 7 and cleared, the write latch `w` is cleared, and a read
/// in the three-dot window around the V-Blank set point suppresses or
/// cancels the pending NMI.
#[verifier::opaque]
pub open spec fn spec_read_status(p: PpuView) -> (PpuView, u8) {
    let p1 = if p.line == 241 {
        if p.dots == 1 {
            PpuView { suppress_vblank: true, ..p }
        } else if p.dots <= 3 {
            PpuView { nmi_timer: 0, ..p }
        } else {
            p
        }
    } else {
        p
    };
    let r: u8 = if p1.vblank {
        0x80u8
    } else {
        0u8
    };
    (PpuView { vblank: false, w: false, ..p1 }, r)
}

/// Value and state of a $2007 (PPUDATA) read: the byte on the PPU bus at
/// `v`, which then steps by the configured increment within its 15 bits.
#[verifier::opaque]
pub open spec fn spec_read_data(p: PpuView, m: MmuView) -> (PpuView, u8) {
    let inc: u16 = if p.ram_address_increment {
        32
    } else {
        1
    };
    (PpuView { v: ((p.v + inc) as u16 & 0x7FFF) as u16, ..p }, m.ppu_read_or_ff(p.v))
}

/// Value and state of a CPU read of a PPU register port; $2002 returns the
/// status flags and $2007 the VRAM data at `v`, the rest read as zero.
#[verifier::opaque]
pub open spec fn spec_reg_read(p: PpuView, m: MmuView, address: u16) -> (PpuView, u8) {
    if address & 7 == 2 {
        spec_read_status(p)
    } else if address & 7 == 7 {
        spec_read_data(p, m)
    } else {
        (p, 0u8)
    }
}

/// A $2000 (PPUCTRL) write: control bits latched, the nametable select into
/// bits 10-11 of `t`, and the NMI re-arm/cancel edges.
#[verifier::opaque]
pub open spec fn spec_write_control(p: PpuView, value: u8) -> PpuView {
    let prev_nmi_enable = p.nmi_enable;
    let p1 = PpuView {
        nmi_enable: value & 0x80 != 0,
        sprite_16: value & 0x20 != 0,
        background_pattern_table_select: value & 0x10 != 0,
        sprite_pattern_table_select: value & 0x08 != 0,
        ram_address_increment: value & 0x04 != 0,
        t: ((p.t & !0xC00u16) | (((value & 0x03) as u16) << 10)) as u16,
        ..p
    };
    if !prev_nmi_enable && p1.nmi_enable && p1.vblank && p1.dots != 1 {
        PpuView { nmi_timer: 2, ..p1 }
    } else if prev_nmi_enable && !p1.nmi_enable {
        PpuView { nmi_timer: 0, ..p1 }
    } else {
        p1
    }
}

/// A $2001 (PPUMASK) write: the render-enable bits.
#[verifier::opaque]
pub open spec fn spec_write_mask(p: PpuView, value: u8) -> PpuView {
    PpuView {
        sprite_enable: value & 0x10 != 0,
        background_enable: value & 0x08 != 0,
        sprite_leftmost_enable: value & 0x04 != 0,
        background_leftmost_enable: value & 0x02 != 0,
        monochrome: value & 0x01 != 0,
        ..p
    }
}

/// A $2004 (OAMDATA) write: the byte stored at the OAM address, which then
/// steps with 8-bit wrap.
#[verifier::opaque]
pub open spec fn spec_write_oam_data(p: PpuView, value: u8) -> PpuView {
    PpuView {
        oam: p.oam.update(p.oam_address as int, value),
        oam_address: if p.oam_address == 255 {
            0u8
        } else {
            (p.oam_address + 1) as u8
        },
        ..p
    }
}

/// A $2005 (PPUSCROLL) write: the first write sets coarse X of `t` and fine
/// X, the second coarse Y and fine Y of `t`; each toggles `w`.
#[verifier::opaque]
pub open spec fn spec_write_scroll(p: PpuView, value: u8) -> PpuView {
    let p1 = if p.w {
        PpuView {
            t: ((p.t & !0x73E0u16) | (((value & 0x07) as u16) << 12) | (((value >> 3) as u16)
                << 5)) as u16,
            ..p
        }
    } else {
        PpuView {
            t: ((p.t & !0x1Fu16) | (((value >> 3) & 0x1F) as u16)) as u16,
            x: (value & 0x7) as u8,
            ..p
        }
    };
    PpuView { w: !p.w, ..p1 }
}

/// A $2006 (PPUADDR) write: the first write sets the high six bits of `t`
/// (bit 14 cleared), the second the low byte, upon which `v` reloads from
/// `t`; each toggles `w`.
#[verifier::opaque]
pub open spec fn spec_write_address(p: PpuView, value: u8) -> PpuView {
    let p1 = if p.w {
        let t1 = ((p.t & !0xFFu16) | value as u16) as u16;
        PpuView { t: t1, v: t1, ..p }
    } else {
        PpuView { t: ((p.t & !0xFF00u16) | (((value as u16) << 8) & 0x3F00)) as u16, ..p }
    };
    PpuView { w: !p.w, ..p1 }
}

/// A $2007 (PPUDATA) write: the byte goes out on the PPU bus at `v`, and
/// `v` steps by the configured increment within its 15 bits.
#[verifier::opaque]
pub open spec fn spec_write_data(p: PpuView, m: MmuView, value: u8) -> (PpuView, MmuView) {
    let m1 = m.ppu_write_or_drop(p.v, value);
    let inc: u16 = if p.ram_address_increment {
        32
    } else {
        1
    };
    (PpuView { v: ((p.v + inc) as u16 & 0x7FFF) as u16, ..p }, m1)
}

/// State of the PPU and its bus after a CPU write to a PPU register port.
#[verifier::opaque]
pub open spec fn spec_reg_write(p: PpuView, m: MmuView, address: u16, value: u8) -> (
    PpuView,
    MmuView,
) {
    let port = address & 7;
    if port == 0 {
        (spec_write_control(p, value), m)
    } else if port == 1 {
        (spec_write_mask(p, value), m)
    } else if port == 3 {
        (PpuView { oam_address: value, ..p }, m)
    } else if port == 4 {
        (spec_write_oam_data(p, value), m)
    } else if port == 5 {
        (spec_write_scroll(p, value), m)
    } else if port == 6 {
        (spec_write_address(p, value), m)
    } else if port == 7 {
        spec_write_data(p, m, value)
    } else {
        (p, m)
    }
}

/// The scroll helpers keep the internal addresses 15-bit.
proof fn lemma_v_ops_wf()
    by (bit_vector)
    ensures
        forall|v: u16| v < 0x8000 ==> #[trigger] spec_inc_horz(v) < 0x8000,
        forall|v: u16| v < 0x8000 ==> #[trigger] spec_inc_vert(v) < 0x8000,
        forall|v: u16, t: u16|
            v < 0x8000 && t < 0x8000 ==> #[trigger] spec_reload_horz(v, t) < 0x8000,
        forall|v: u16, t: u16|
            v < 0x8000 && t < 0x8000 ==> #[trigger] spec_reload_vert(v, t) < 0x8000,
{
}

/// A $2000 write keeps `t` 15-bit.
proof fn lemma_control_t(t: u16, value: u8)
    by (bit_vector)
    requires
        t < 0x8000,
    ensures
        ((t & !0xC00u16) | (((value & 0x03) as u16) << 10)) < 0x8000,
{
}

/// A $2005 write keeps `t` 15-bit and fine-X 3-bit.
proof fn lemma_scroll_t(t: u16, value: u8)
    by (bit_vector)
    requires
        t < 0x8000,
    ensures
        ((t & !0x73E0u16) | (((value & 0x07) as u16) << 12) | (((value >> 3) as u16) << 5))
            < 0x8000,
        ((t & !0x1Fu16) | (((value >> 3) & 0x1F) as u16)) < 0x8000,
        (value & 0x7) < 8,
{
}

/// A $2006 write keeps `t` 15-bit.
proof fn lemma_address_t(t: u16, value: u8)
    by (bit_vector)
    requires
        t < 0x8000,
    ensures
        ((t & !0xFFu16) | value as u16) < 0x8000,
        ((t & !0xFF00u16) | (((value as u16) << 8) & 0x3F00)) < 0x8000,
{
}

/// The $2007 address step keeps `v` 15-bit.
proof fn lemma_data_v(v: u16)
    by (bit_vector)
    ensures
        (v & 0x7FFF) < 0x8000,
{
}

/// Picture processing unit: a dot-stepped rendering pipeline that emits one
/// 256 x 240 BGRA frame per 89342-dot pass and raises the V-Blank/NMI
/// signal.
pub struct PPU {
    /// Framebuffer, 256 x 240 pixels, 4 bytes each (B, G, R, A)
    pub framebuffer: Vec<u8>,

    /// [PPUCTRL:7] NMI enable
    pub nmi_enable: bool,

    /// [PPUCTRL:5] sprites are 8x16 (set) or 8x8 (clear)
    pub sprite_16: bool,

    /// [PPUCTRL:4] background pattern table select (0 = $0000, 1 = $1000)
    pub background_pattern_table_select: bool,

    /// [PPUCTRL:3] sprite pattern table select (0 = $0000, 1 = $1000)
    pub sprite_pattern_table_select: bool,

    /// [PPUCTRL:2] VRAM address increment (0 = +1, 1 = +32)
    pub ram_address_increment: bool,

    /// [PPUMASK:0] monochrome
    pub monochrome: bool,

    /// [PPUMASK:1] show background in the leftmost 8 pixels
    pub background_leftmost_enable: bool,

    /// [PPUMASK:2] show sprites in the leftmost 8 pixels
    pub sprite_leftmost_enable: bool,

    /// [PPUMASK:3] show background
    pub background_enable: bool,

    /// [PPUMASK:4] show sprites
    pub sprite_enable: bool,

    /// In V-Blank (outward-facing flag)
    pub vblank: bool,

    /// Set to suppress the next V-Blank set during `step`
    pub suppress_vblank: bool,

    /// Countdown of the delayed NMI signal
    pub nmi_timer: u8,

    /// Current scanline (261 is the pre-render line)
    pub line: u16,

    /// Even/odd frame, toggled each frame whether or not rendering is on
    pub frame_odd: bool,

    /// Dot counter within the current scanline
    pub dots: u16,

    /// Current OAM address
    pub oam_address: u8,

    /// Object attribute memory ~ 256 bytes
    pub oam: Vec<u8>,

    /// "Current" VRAM address (15 bits), laid out `yyy NN YYYYY XXXXX`:
    /// fine Y, nametable select, coarse Y, coarse X.  Used for every access
    /// during rendering and for CPU reads/writes of VRAM.
    pub v: u16,

    /// "Current" fine-X scroll (3 bits)
    pub x: u8,

    /// "Temporary" VRAM address (15 bits): the register the CPU writes
    /// through $2000/$2005/$2006, copied into `v` at set points.
    pub t: u16,

    /// First/second-write latch of $2005 and $2006, cleared by $2002.
    pub w: bool,

    /// "Next" nametable byte latched by the fetch pipeline
    pub nx_nametable: u8,

    /// "Next" attribute bits (palette bits 2-3) latched by the fetch
    /// pipeline
    pub nx_attribute: u8,

    /// "Next" tile bitmap low plane latched by the fetch pipeline
    pub nx_tile_lo: u8,

    /// "Next" tile bitmap high plane latched by the fetch pipeline
    pub nx_tile_hi: u8,

    /// Tile data high plane in use by rendering; upper byte is the current
    /// tile, lower byte the next.
    pub cur_tile_hi: u16,

    /// Tile data low plane in use by rendering; upper byte is the current
    /// tile, lower byte the next.
    pub cur_tile_lo: u16,

    /// Attribute data in use by rendering; upper byte is the current tile,
    /// lower byte the next.
    pub cur_attribute: u16,
}

impl View for PPU {
    type V = PpuView;

    open spec fn view(&self) -> PpuView {
        PpuView {
            framebuffer: self.framebuffer@,
            nmi_enable: self.nmi_enable,
            sprite_16: self.sprite_16,
            background_pattern_table_select: self.background_pattern_table_select,
            sprite_pattern_table_select: self.sprite_pattern_table_select,
            ram_address_increment: self.ram_address_increment,
            monochrome: self.monochrome,
            background_leftmost_enable: self.background_leftmost_enable,
            sprite_leftmost_enable: self.sprite_leftmost_enable,
            background_enable: self.background_enable,
            sprite_enable: self.sprite_enable,
            vblank: self.vblank,
            suppress_vblank: self.suppress_vblank,
            nmi_timer: self.nmi_timer,
            line: self.line,
            frame_odd: self.frame_odd,
            dots: self.dots,
            oam_address: self.oam_address,
            oam: self.oam@,
            v: self.v,
            x: self.x,
            t: self.t,
            w: self.w,
            nx_nametable: self.nx_nametable,
            nx_attribute: self.nx_attribute,
            nx_tile_lo: self.nx_tile_lo,
            nx_tile_hi: self.nx_tile_hi,
            cur_tile_hi: self.cur_tile_hi,
            cur_tile_lo: self.cur_tile_lo,
            cur_attribute: self.cur_attribute,
        }
    }
}

/// The view `reset` leaves behind: a black frame, cleared OAM and scroll
/// state, the dot clock at the pre-render line, with the PPUMASK render
/// bits kept as they were.
pub open spec fn spec_ppu_reset(p: PpuView) -> PpuView {
    PpuView {
        framebuffer: Seq::new(245760, |i: int| 0u8),
        nmi_enable: false,
        sprite_16: false,
        background_pattern_table_select: false,
        sprite_pattern_table_select: false,
        ram_address_increment: false,
        vblank: false,
        suppress_vblank: false,
        nmi_timer: 0,
        line: 261,
        frame_odd: false,
        dots: 0,
        oam_address: 0,
        oam: Seq::new(256, |i: int| 0u8),
        v: 0,
        x: 0,
        t: 0,
        w: false,
        nx_nametable: 0,
        nx_attribute: 0,
        nx_tile_lo: 0,
        nx_tile_hi: 0,
        cur_tile_hi: 0,
        cur_tile_lo: 0,
        cur_attribute: 0,
        ..p
    }
}

impl PPU {
    /// A PPU with an unsized framebuffer; `reset` sizes it.
    pub fn new() -> (r: PPU)
        ensures
            r@.framebuffer.len() == 0,
            r@.oam.len() == 0,
            r@.line == 261,
            r@.dots == 0,
            r@.v == 0,
            r@.t == 0,
            r@.x == 0,
            !r@.w,
            !r@.vblank,
            !r@.nmi_enable,
            !r@.background_enable,
            !r@.sprite_enable,
            !r@.frame_odd,
            r@.nmi_timer == 0,
            !r@.suppress_vblank,
    {
        PPU {
            framebuffer: Vec::new(),
            nmi_enable: false,
            sprite_16: false,
            background_pattern_table_select: false,
            sprite_pattern_table_select: false,
            ram_address_increment: false,
            monochrome: false,
            background_leftmost_enable: false,
            sprite_leftmost_enable: false,
            background_enable: false,
            sprite_enable: false,
            vblank: false,
            suppress_vblank: false,
            nmi_timer: 0,
            line: 261,
            frame_odd: false,
            dots: 0,
            oam_address: 0,
            oam: Vec::new(),
            v: 0,
            x: 0,
            t: 0,
            w: false,
            nx_nametable: 0,
            nx_attribute: 0,
            nx_tile_lo: 0,
            nx_tile_hi: 0,
            cur_tile_hi: 0,
            cur_tile_lo: 0,
            cur_attribute: 0,
        }
    }

    /// Clear the rendering state and move the dot clock to the pre-render
    /// line; the PPUMASK render bits are left alone, as on the real part.
    #[verifier::rlimit(100)]
    #[verifier::spinoff_prover]
    pub fn reset(&mut self)
        ensures
            final(self)@ == spec_ppu_reset(old(self)@),
            final(self)@.wf(),
    {
        fill_zero(&mut self.framebuffer, 245760);

        self.background_pattern_table_select = false;
        self.sprite_16 = false;
        self.sprite_pattern_table_select = false;
        self.ram_address_increment = false;
        self.vblank = false;
        self.suppress_vblank = false;

        self.nmi_enable = false;
        self.nmi_timer = 0;

        fill_zero(&mut self.oam, 256);
        self.oam_address = 0;

        self.line = 261;  // pre-render scanline
        self.frame_odd = false;
        self.dots = 0;

        // The one-letter names follow the common documentation of the
        // scrolling registers.
        self.v = 0;
        self.t = 0;
        self.x = 0;
        self.w = false;

        self.nx_nametable = 0;
        self.nx_attribute = 0;
        self.nx_tile_lo = 0;
        self.nx_tile_hi = 0;

        self.cur_tile_lo = 0;
        self.cur_tile_hi = 0;
        self.cur_attribute = 0;

        proof {
            assert(self@ =~= spec_ppu_reset(old(self)@));
        }
    }

    /// Borrow the finished frame.
    pub fn frame(&self) -> (frame: Frame)
        ensures
            frame.data@ == self@.framebuffer,
            frame.pitch == 1024,
            frame.width == 256,
            frame.height == 240,
    {
        Frame { data: self.framebuffer.as_slice(), pitch: WIDTH * 4, width: WIDTH, height: HEIGHT }
    }

    #[verifier::rlimit(100)]
    #[verifier::spinoff_prover]
    fn fetch_nametable(&mut self, m: &mut MMU)
        requires
            old(self)@.wf(),
            old(m)@.wf(),
        ensures
            final(m)@ == old(m)@,
            final(self)@ == spec_fetch_nametable(old(self)@, old(m)@),
            final(self)@.wf(),
    {
        let address = 0x2000 | (self.v & 0xFFF);
        self.nx_nametable = m.ppu_read(address);
        proof {
            reveal(spec_fetch_nametable);
            assert(self@ =~= spec_fetch_nametable(old(self)@, old(m)@));
        }
    }

    #[verifier::rlimit(100)]
    #[verifier::spinoff_prover]
    fn fetch_attribute(&mut self, m: &mut MMU)
        requires
            old(self)@.wf(),
            old(m)@.wf(),
        ensures
            final(m)@ == old(m)@,
            final(self)@ == spec_fetch_attribute(old(self)@, old(m)@),
            final(self)@.wf(),
    {
        proof {
            crate::bits::lemma_mask_bounds();
        }
        // Coarse X and coarse Y, each divided by four (four tiles per
        // attribute byte), combined with the nametable bits of v.
        let coarse_x = self.v & 0x1F;
        let coarse_y = (self.v >> 5) & 0x1F;
        let address = (self.v & 0x0C00) | (coarse_x >> 2) | ((coarse_y >> 2) << 3);

        let at = m.ppu_read(0x23C0 | address);

        // Narrow to the 2x2-tile quadrant, then shift left 2 so the bits
        // drop straight into palette-index bits 2-3.
        let shift = ((coarse_y & 2) << 1) | (coarse_x & 2);
        self.nx_attribute = ((at >> shift) & 3) << 2;
        proof {
            reveal(spec_fetch_attribute);
            assert(self@ =~= spec_fetch_attribute(old(self)@, old(m)@));
        }
    }

    #[verifier::rlimit(100)]
    #[verifier::spinoff_prover]
    fn fetch_tile_lo(&mut self, m: &mut MMU)
        requires
            old(self)@.wf(),
            old(m)@.wf(),
        ensures
            final(m)@ == old(m)@,
            final(self)@ == spec_fetch_tile_lo(old(self)@, old(m)@),
            final(self)@.wf(),
    {
        let address_base: u16 = if self.background_pattern_table_select {
            0x1000
        } else {
            0x0000
        };
        let address = address_base | ((self.v >> 12) & 7) | ((self.nx_nametable as u16) << 4);
        self.nx_tile_lo = m.ppu_read(address);
        proof {
            reveal(spec_fetch_tile_lo);
            assert(self@ =~= spec_fetch_tile_lo(old(self)@, old(m)@));
        }
    }

    #[verifier::rlimit(100)]
    #[verifier::spinoff_prover]
    fn fetch_tile_hi(&mut self, m: &mut MMU)
        requires
            old(self)@.wf(),
            old(m)@.wf(),
        ensures
            final(m)@ == old(m)@,
            final(self)@ == spec_fetch_tile_hi(old(self)@, old(m)@),
            final(self)@.wf(),
    {
        let address_base: u16 = if self.background_pattern_table_select {
            0x1000
        } else {
            0x0000
        };
        let address = address_base | ((self.v >> 12) & 7) | ((self.nx_nametable as u16) << 4);
        self.nx_tile_hi = m.ppu_read(address | 8);
        proof {
            reveal(spec_fetch_tile_hi);
            assert(self@ =~= spec_fetch_tile_hi(old(self)@, old(m)@));
        }
    }

    #[verifier::rlimit(100)]
    #[verifier::spinoff_prover]
    fn increment_horz_v(&mut self)
        requires
            old(self)@.wf(),
        ensures
            final(self)@ == (PpuView { v: spec_inc_horz(old(self)@.v), ..old(self)@ }),
            final(self)@.wf(),
    {
        proof {
            lemma_v_ops_wf();
            crate::bits::lemma_mask_bounds();
        }
        let mut coarse_x = self.v & 0x1F;

        if coarse_x == 31 {
            // Coarse X overflows by toggling the horizontal nametable
            coarse_x = 0;
            self.v = self.v ^ 0x0400;
        } else {
            coarse_x = coarse_x + 1;
        }

        self.v = (self.v & !0x1Fu16) | coarse_x;
        proof {
            assert(self@ =~= (PpuView { v: spec_inc_horz(old(self)@.v), ..old(self)@ }));
        }
    }

    #[verifier::rlimit(100)]
    #[verifier::spinoff_prover]
    fn increment_vert_v(&mut self)
        requires
            old(self)@.wf(),
        ensures
            final(self)@ == (PpuView { v: spec_inc_vert(old(self)@.v), ..old(self)@ }),
            final(self)@.wf(),
    {
        proof {
            lemma_v_ops_wf();
            crate::bits::lemma_mask_bounds();
        }
        if self.v & 0x7000 != 0x7000 {
            // Increment fine Y (the row within the tile)
            self.v = self.v + 0x1000;
        } else {
            // Fine Y overflows into coarse Y (the tile row on screen)
            self.v = self.v & !0x7000u16;
            let mut coarse_y = (self.v & 0x3E0) >> 5;

            if coarse_y == 29 {
                // Coarse Y overflows by toggling the vertical nametable
                coarse_y = 0;
                self.v = self.v ^ 0x0800;
            } else if coarse_y == 31 {
                // Coarse Y was set out of bounds directly; it wraps to zero
                // without touching the nametable.
                coarse_y = 0;
            } else {
                coarse_y = coarse_y + 1;
            }

            self.v = (self.v & !0x3E0u16) | (coarse_y << 5);
        }
        proof {
            assert(self@ =~= (PpuView { v: spec_inc_vert(old(self)@.v), ..old(self)@ }));
        }
    }

    #[verifier::rlimit(100)]
    #[verifier::spinoff_prover]
    fn reload_horz_v(&mut self)
        requires
            old(self)@.wf(),
        ensures
            final(self)@ == (PpuView {
                v: spec_reload_horz(old(self)@.v, old(self)@.t),
                ..old(self)@
            }),
            final(self)@.wf(),
    {
        proof {
            lemma_v_ops_wf();
        }
        self.v = (self.v & !0x41Fu16) | (self.t & 0x41F);
    }

    #[verifier::rlimit(100)]
    #[verifier::spinoff_prover]
    fn reload_vert_v(&mut self)
        requires
            old(self)@.wf(),
        ensures
            final(self)@ == (PpuView {
                v: spec_reload_vert(old(self)@.v, old(self)@.t),
                ..old(self)@
            }),
            final(self)@.wf(),
    {
        proof {
            lemma_v_ops_wf();
        }
        self.v = (self.v & !0x7BE0u16) | (self.t & 0x7BE0);
    }

    #[verifier::rlimit(100)]
    #[verifier::spinoff_prover]
    fn render_pixel(&mut self, m: &mut MMU)
        requires
            old(self)@.wf(),
            old(m)@.wf(),
            old(self)@.line <= 239,
            1 <= old(self)@.dots < 257,
        ensures
            final(m)@ == old(m)@,
            final(self)@ == spec_render_pixel(old(self)@, old(m)@),
            final(self)@.wf(),
    {
        let offset: usize = ((self.line as usize) * WIDTH + (self.dots as usize - 1)) * 4;
        let mut r: u8 = 0;
        let mut g: u8 = 0;
        let mut b: u8 = 0;

        if self.background_enable {
            let a = (self.cur_attribute >> 8) as u8;
            let p1 = ((self.cur_tile_lo >> ((15 - self.x) as u16)) & 1) as u8;
            let p2 = (((self.cur_tile_hi >> ((15 - self.x) as u16)) & 1) as u8) << 1;
            let palette_index = (a | p1 | p2) & 0x0F;

            proof {
                crate::bits::lemma_mask_bounds();
            }
            let color = m.ppu_read(0x3F00 + palette_index as u16);

            let rgb = system_palette(color & 0x3F);
            r = rgb.0;
            g = rgb.1;
            b = rgb.2;
        }

        self.framebuffer[offset] = b;
        self.framebuffer[offset + 1] = g;
        self.framebuffer[offset + 2] = r;
        self.framebuffer[offset + 3] = 0xFF;
        proof {
            reveal(spec_render_pixel);
            assert(self@ =~= spec_render_pixel(old(self)@, old(m)@));
        }
    }

    #[verifier::rlimit(100)]
    #[verifier::spinoff_prover]
    fn step_skip(&mut self)
        requires
            old(self)@.wf(),
        ensures
            final(self)@ == spec_step_skip(old(self)@),
            final(self)@.wf() || final(self)@.dots == 339,
            final(self)@.dots <= 340,
            final(self)@.line <= 261,
            final(self)@.framebuffer.len() == 245760,
            final(self)@.oam.len() == 256,
            final(self)@.v < 0x8000,
            final(self)@.t < 0x8000,
            final(self)@.x < 8,
    {
        if self.line == 261 && self.dots == 338 && self.frame_odd && (self.background_enable
            || self.sprite_enable) {
            self.dots = self.dots + 1;
        }
        proof {
            reveal(spec_step_skip);
            assert(self@ =~= spec_step_skip(old(self)@));
        }
    }

    #[verifier::rlimit(100)]
    #[verifier::spinoff_prover]
    fn step_nmi_timer(&mut self, nmi_occurred: &mut bool)
        ensures
            final(self)@ == spec_step_nmi(old(self)@, *old(nmi_occurred)).0,
            *final(nmi_occurred) == spec_step_nmi(old(self)@, *old(nmi_occurred)).1,
            final(self)@ == (PpuView { nmi_timer: final(self)@.nmi_timer, ..old(self)@ }),
    {
        if self.nmi_timer > 0 {
            self.nmi_timer = self.nmi_timer - 1;
            if self.nmi_timer == 0 {
                *nmi_occurred = true;
            }
        }
        proof {
            reveal(spec_step_nmi);
            assert(self@ =~= spec_step_nmi(old(self)@, *old(nmi_occurred)).0);
            assert(self@ =~= (PpuView { nmi_timer: self@.nmi_timer, ..old(self)@ }));
        }
    }

    #[verifier::rlimit(100)]
    #[verifier::spinoff_prover]
    fn bg_fetch_phase(&mut self, m: &mut MMU)
        requires
            old(self)@.wf(),
            old(m)@.wf(),
        ensures
            final(m)@ == old(m)@,
            final(self)@ == spec_bg_phase(old(self)@, old(m)@),
            final(self)@.wf(),
    {
        if (1 <= self.dots && self.dots < 257) || (321 <= self.dots && self.dots < 337) {
            let phase = self.dots & 7;
            if phase == 2 {
                self.fetch_nametable(m);
            } else if phase == 3 {
                self.fetch_attribute(m);
            } else if phase == 5 {
                self.fetch_tile_lo(m);
            } else if phase == 7 {
                self.fetch_tile_hi(m);
            } else if phase == 0 {
                // Reload the shift registers and step horz(v)
                self.cur_tile_hi = self.cur_tile_hi | self.nx_tile_hi as u16;
                self.cur_tile_lo = self.cur_tile_lo | self.nx_tile_lo as u16;

                self.cur_attribute = self.cur_attribute << 8;
                self.cur_attribute = self.cur_attribute | self.nx_attribute as u16;

                self.increment_horz_v();
                proof {
                    assert(self@ =~= (PpuView {
                        cur_tile_hi: old(self)@.cur_tile_hi | old(self)@.nx_tile_hi as u16,
                        cur_tile_lo: old(self)@.cur_tile_lo | old(self)@.nx_tile_lo as u16,
                        cur_attribute: ((old(self)@.cur_attribute << 8) | old(
                            self,
                        )@.nx_attribute as u16) as u16,
                        v: spec_inc_horz(old(self)@.v),
                        ..old(self)@
                    }));
                }
            }
        }
        proof {
            reveal(spec_bg_phase);
            assert(self@ =~= spec_bg_phase(old(self)@, old(m)@));
        }
    }

    #[verifier::rlimit(100)]
    #[verifier::spinoff_prover]
    fn bg_line(&mut self, m: &mut MMU)
        requires
            old(self)@.wf(),
            old(m)@.wf(),
        ensures
            final(m)@ == old(m)@,
            final(self)@ == spec_bg_line(old(self)@, old(m)@),
            final(self)@.wf(),
    {
        let ghost p = old(self)@;
        // Each dot after a renderable dot shifts the tile registers
        if (2 <= self.dots && self.dots < 258) || (322 <= self.dots && self.dots < 338) {
            self.cur_tile_lo = self.cur_tile_lo << 1;
            self.cur_tile_hi = self.cur_tile_hi << 1;
        }
        let ghost q1 = spec_bg_shift(p);
        proof {
            reveal(spec_bg_shift);
            assert(self@ =~= q1);
        }

        self.bg_fetch_phase(m);
        let ghost q2 = spec_bg_phase(q1, old(m)@);

        // Increment vert(v)
        if self.dots == 256 {
            self.increment_vert_v();
        }

        // Reload horz(v)
        if self.dots == 257 {
            self.reload_horz_v();
        }
        proof {
            reveal(spec_bg_scroll);
            assert(self@ =~= spec_bg_scroll(q2));
            reveal(spec_bg_line);
        }
    }

    #[verifier::rlimit(100)]
    #[verifier::spinoff_prover]
    fn step_bg(&mut self, m: &mut MMU)
        requires
            old(self)@.wf(),
            old(m)@.wf(),
        ensures
            final(m)@ == old(m)@,
            final(self)@ == spec_step_bg(old(self)@, old(m)@),
            final(self)@.wf(),
    {
        // The shift/fetch/scroll work runs on the pre-render line and the
        // visible lines.
        if self.line == 261 || self.line <= 239 {
            self.bg_line(m);
        }

        // On the pre-render line, vert(v) is reloaded repeatedly
        if self.line == 261 && 280 <= self.dots && self.dots < 305 {
            self.reload_vert_v();
        }
        proof {
            reveal(spec_step_bg);
            assert(self@ =~= spec_step_bg(old(self)@, old(m)@));
        }
    }

    #[verifier::rlimit(100)]
    #[verifier::spinoff_prover]
    fn step_flags(&mut self) -> (frame: bool)
        ensures
            final(self)@ == spec_step_flags(old(self)@).0,
            frame == spec_step_flags(old(self)@).1,
            final(self)@ == (PpuView {
                vblank: final(self)@.vblank,
                frame_odd: final(self)@.frame_odd,
                nmi_timer: final(self)@.nmi_timer,
                suppress_vblank: final(self)@.suppress_vblank,
                ..old(self)@
            }),
    {
        // Clear V-Blank and toggle frame parity on the pre-render line
        if self.line == 261 && self.dots == 1 {
            self.vblank = false;
            self.frame_odd = !self.frame_odd;
        }

        // Set V-Blank on dot 1 of line 241
        let mut frame = false;
        if self.line == 241 && self.dots == 1 {
            if !self.suppress_vblank {
                self.vblank = true;

                if self.nmi_enable {
                    self.nmi_timer = 2;
                }

                // The frame is complete; the caller presents it.
                frame = true;
            } else {
                self.suppress_vblank = false;
            }
        }
        proof {
            reveal(spec_step_flags);
            assert(self@ =~= spec_step_flags(old(self)@).0);
            assert(self@ =~= (PpuView {
                vblank: self@.vblank,
                frame_odd: self@.frame_odd,
                nmi_timer: self@.nmi_timer,
                suppress_vblank: self@.suppress_vblank,
                ..old(self)@
            }));
        }
        frame
    }

    #[verifier::rlimit(100)]
    #[verifier::spinoff_prover]
    fn step_counters(&mut self)
        requires
            old(self)@.framebuffer.len() == 245760,
            old(self)@.oam.len() == 256,
            old(self)@.v < 0x8000,
            old(self)@.t < 0x8000,
            old(self)@.x < 8,
            old(self)@.dots <= 340,
            old(self)@.line <= 261,
        ensures
            final(self)@ == spec_step_counters(old(self)@),
            final(self)@.wf(),
    {
        self.dots = self.dots + 1;
        if self.dots >= 341 {
            // End of scanline
            self.line = self.line + 1;
            self.dots = 0;

            if self.line >= 262 {
                // End of frame
                self.line = 0;
            }
        }
        proof {
            reveal(spec_step_counters);
            assert(self@ =~= spec_step_counters(old(self)@));
        }
    }

    /// Advance the pipeline one dot.  The returned flag reports that this
    /// dot finished a frame (the V-Blank set point), so the caller can
    /// present the framebuffer.
    #[verifier::rlimit(100)]
    #[verifier::spinoff_prover]
    pub fn step(&mut self, m: &mut MMU, nmi_occurred: &mut bool) -> (frame: bool)
        requires
            old(self)@.wf(),
            old(m)@.wf(),
        ensures
            final(m)@ == old(m)@,
            final(self)@ == spec_ppu_step(old(self)@, old(m)@, *old(nmi_occurred)).0,
            *final(nmi_occurred) == spec_ppu_step(old(self)@, old(m)@, *old(nmi_occurred)).1,
            frame == spec_ppu_step(old(self)@, old(m)@, *old(nmi_occurred)).2,
            final(self)@.wf(),
    {
        // On odd frames, dot 338 of the pre-render line is skipped when
        // rendering is enabled.
        self.step_skip();

        // Pending NMI countdown
        self.step_nmi_timer(nmi_occurred);

        // Render
        if self.line <= 239 && 1 <= self.dots && self.dots < 257 {
            self.render_pixel(m);
        }

        // Background fetch pipeline
        if self.background_enable {
            self.step_bg(m);
        }

        // V-Blank edges
        let frame = self.step_flags();

        // Advance the dot counter, wrapping line and frame
        self.step_counters();

        proof {
            reveal(spec_ppu_step);
        }
        frame
    }

    /// $2002 (PPUSTATUS) read.
    #[verifier::rlimit(100)]
    #[verifier::spinoff_prover]
    fn read_status(&mut self) -> (r: u8)
        ensures
            final(self)@ == spec_read_status(old(self)@).0,
            r == spec_read_status(old(self)@).1,
            final(self)@ == (PpuView {
                vblank: final(self)@.vblank,
                w: final(self)@.w,
                suppress_vblank: final(self)@.suppress_vblank,
                nmi_timer: final(self)@.nmi_timer,
                ..old(self)@
            }),
    {
        if self.line == 241 {
            if self.dots == 1 {
                // Reading $2002 exactly one dot before the V-Blank set point
                // suppresses that set entirely.
                self.suppress_vblank = true;
            } else if self.dots <= 3 {
                // Reading $2002 on, or within two dots after, the set point
                // cancels the pending NMI.
                self.nmi_timer = 0;
            }
        }

        let r: u8 = if self.vblank {
            0x80
        } else {
            0
        };

        // Reading the status register clears vblank and the write latch used
        // by $2005/$2006.
        self.vblank = false;
        self.w = false;

        proof {
            reveal(spec_read_status);
            assert(self@ =~= spec_read_status(old(self)@).0);
            assert(self@ =~= (PpuView {
                vblank: self@.vblank,
                w: self@.w,
                suppress_vblank: self@.suppress_vblank,
                nmi_timer: self@.nmi_timer,
                ..old(self)@
            }));
        }
        r
    }

    /// $2007 (PPUDATA) read.
    #[verifier::rlimit(100)]
    #[verifier::spinoff_prover]
    fn read_data(&mut self, m: &mut MMU) -> (r: u8)
        requires
            old(self)@.wf(),
            old(m)@.wf(),
        ensures
            final(m)@ == old(m)@,
            final(self)@ == spec_read_data(old(self)@, old(m)@).0,
            r == spec_read_data(old(self)@, old(m)@).1,
            final(self)@.wf(),
    {
        // Read the PPU bus at v, then step v by the configured increment
        let r = m.ppu_read(self.v);
        let inc: u16 = if self.ram_address_increment {
            32
        } else {
            1
        };
        self.v = (self.v + inc) & 0x7FFF;
        proof {
            lemma_data_v((old(self).v + inc) as u16);
            reveal(spec_read_data);
            assert(self@ =~= spec_read_data(old(self)@, old(m)@).0);
        }
        r
    }

    /// CPU read of a register port ($2000-$3FFF mirrors; the port is the
    /// address mod 8).
    #[verifier::rlimit(100)]
    #[verifier::spinoff_prover]
    pub fn read(&mut self, m: &mut MMU, address: u16) -> (r: u8)
        requires
            old(self)@.wf(),
            old(m)@.wf(),
        ensures
            final(m)@ == old(m)@,
            final(self)@ == spec_reg_read(old(self)@, old(m)@, address).0,
            r == spec_reg_read(old(self)@, old(m)@, address).1,
            final(self)@.wf(),
    {
        proof {
            reveal(spec_reg_read);
        }
        let port = address & 7;
        if port == 2 {
            self.read_status()
        } else if port == 7 {
            self.read_data(m)
        } else {
            // The remaining ports are not readable.
            0
        }
    }

    /// $2000 (PPUCTRL) write.
    #[verifier::rlimit(100)]
    #[verifier::spinoff_prover]
    fn write_control(&mut self, value: u8)
        requires
            old(self)@.wf(),
        ensures
            final(self)@ == spec_write_control(old(self)@, value),
            final(self)@.wf(),
    {
        proof {
            lemma_control_t(old(self).t, value);
        }
        let prev_nmi_enable = self.nmi_enable;

        self.nmi_enable = value & 0x80 != 0;
        self.sprite_16 = value & 0x20 != 0;
        self.background_pattern_table_select = value & 0x10 != 0;
        self.sprite_pattern_table_select = value & 0x08 != 0;
        self.ram_address_increment = value & 0x04 != 0;

        // Bits 0-1 select the base nametable, bits 10-11 of t
        self.t = (self.t & !0xC00u16) | (((value & 0x03) as u16) << 10);

        // Bit 6 would enter slave mode; it has no effect in this core.

        if !prev_nmi_enable && self.nmi_enable && self.vblank && self.dots != 1 {
            // NMI went from disabled to enabled while V-Blank is still set:
            // arm it again.  Enabling it on the exact set dot keeps it from
            // going out at all.
            self.nmi_timer = 2;
        } else if prev_nmi_enable && !self.nmi_enable {
            // NMI was just disabled; cancel a pending one.
            self.nmi_timer = 0;
        }
        proof {
            reveal(spec_write_control);
            assert(self@ =~= spec_write_control(old(self)@, value));
        }
    }

    /// $2001 (PPUMASK) write.
    #[verifier::rlimit(100)]
    #[verifier::spinoff_prover]
    fn write_mask(&mut self, value: u8)
        requires
            old(self)@.wf(),
        ensures
            final(self)@ == spec_write_mask(old(self)@, value),
            final(self)@.wf(),
    {
        self.sprite_enable = value & 0x10 != 0;
        self.background_enable = value & 0x08 != 0;
        self.sprite_leftmost_enable = value & 0x04 != 0;
        self.background_leftmost_enable = value & 0x02 != 0;
        self.monochrome = value & 0x01 != 0;
        proof {
            reveal(spec_write_mask);
            assert(self@ =~= spec_write_mask(old(self)@, value));
        }
    }

    /// $2004 (OAMDATA) write.
    #[verifier::rlimit(100)]
    #[verifier::spinoff_prover]
    fn write_oam_data(&mut self, value: u8)
        requires
            old(self)@.wf(),
        ensures
            final(self)@ == spec_write_oam_data(old(self)@, value),
            final(self)@.wf(),
    {
        self.oam[self.oam_address as usize] = value;
        self.oam_address = if self.oam_address == 255 {
            0
        } else {
            self.oam_address + 1
        };
        proof {
            reveal(spec_write_oam_data);
            assert(self@ =~= spec_write_oam_data(old(self)@, value));
        }
    }

    /// $2005 (PPUSCROLL) write.
    #[verifier::rlimit(100)]
    #[verifier::spinoff_prover]
    fn write_scroll(&mut self, value: u8)
        requires
            old(self)@.wf(),
        ensures
            final(self)@ == spec_write_scroll(old(self)@, value),
            final(self)@.wf(),
    {
        proof {
            lemma_scroll_t(old(self).t, value);
        }
        if self.w {
            // Second write: coarse Y and fine Y of t
            self.t = (self.t & !0x73E0u16) | (((value & 0x07) as u16) << 12) | (((value >> 3)
                as u16) << 5);
        } else {
            // First write: coarse X of t and fine X
            self.t = (self.t & !0x1Fu16) | (((value >> 3) & 0x1F) as u16);
            self.x = value & 0x7;
        }
        self.w = !self.w;
        proof {
            reveal(spec_write_scroll);
            assert(self@ =~= spec_write_scroll(old(self)@, value));
        }
    }

    /// $2006 (PPUADDR) write.
    #[verifier::rlimit(100)]
    #[verifier::spinoff_prover]
    fn write_address(&mut self, value: u8)
        requires
            old(self)@.wf(),
        ensures
            final(self)@ == spec_write_address(old(self)@, value),
            final(self)@.wf(),
    {
        proof {
            lemma_address_t(old(self).t, value);
        }
        if self.w {
            // Second write: the low byte of t, and v reloads from t
            self.t = (self.t & !0xFFu16) | value as u16;
            self.v = self.t;
        } else {
            // First write: the high six bits of t, bit 14 cleared
            self.t = (self.t & !0xFF00u16) | (((value as u16) << 8) & 0x3F00);
        }
        self.w = !self.w;
        proof {
            reveal(spec_write_address);
            assert(self@ =~= spec_write_address(old(self)@, value));
        }
    }

    /// $2007 (PPUDATA) write.
    #[verifier::rlimit(100)]
    #[verifier::spinoff_prover]
    fn write_data(&mut self, m: &mut MMU, value: u8)
        requires
            old(self)@.wf(),
            old(m)@.wf(),
        ensures
            final(self)@ == spec_write_data(old(self)@, old(m)@, value).0,
            final(m)@ == spec_write_data(old(self)@, old(m)@, value).1,
            final(self)@.wf(),
            final(m)@.wf(),
    {
        // Write VRAM at v, then step v by the configured increment
        m.ppu_write(self.v, value);
        let inc: u16 = if self.ram_address_increment {
            32
        } else {
            1
        };
        self.v = (self.v + inc) & 0x7FFF;
        proof {
            lemma_data_v((old(self).v + inc) as u16);
            reveal(spec_write_data);
            assert(self@ =~= spec_write_data(old(self)@, old(m)@, value).0);
        }
    }

    /// CPU write to a register port ($2000-$3FFF mirrors; the port is the
    /// address mod 8).
    #[verifier::rlimit(100)]
    #[verifier::spinoff_prover]
    pub fn write(&mut self, m: &mut MMU, address: u16, value: u8)
        requires
            old(self)@.wf(),
            old(m)@.wf(),
        ensures
            final(self)@ == spec_reg_write(old(self)@, old(m)@, address, value).0,
            final(m)@ == spec_reg_write(old(self)@, old(m)@, address, value).1,
            final(self)@.wf(),
            final(m)@.wf(),
    {
        proof {
            reveal(spec_reg_write);
        }
        let port = address & 7;
        if port == 0 {
            self.write_control(value);
        } else if port == 1 {
            self.write_mask(value);
        } else if port == 3 {
            // [OAMADDR] OAM address port
            self.oam_address = value;
            proof {
                assert(self@ =~= (PpuView { oam_address: value, ..old(self)@ }));
            }
        } else if port == 4 {
            // [OAMDATA] OAM data port
            self.write_oam_data(value);
        } else if port == 5 {
            self.write_scroll(value);
        } else if port == 6 {
            self.write_address(value);
        } else if port == 7 {
            self.write_data(m, value);
        }
    }
}

} // verus!
