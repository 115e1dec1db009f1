use vstd::prelude::*;

verus! {

use crate::bits::lemma_mask_bounds;
use crate::bus::spec_bus_read;
use crate::bus::BusView;
use crate::cpu::spec_tick;
use crate::cpu::CtxView;
use crate::mmu::MmuView;
use crate::om::spec_ea_read;
use crate::om::spec_ea_write;
use crate::om::spec_om_modify;
use crate::om::spec_om_read;
use crate::om::spec_om_write;
use crate::om::spec_pc1;
use crate::om::ModifyOp;
use crate::operation::AddressingMode;
use crate::op::spec_dec8;
use crate::op::spec_inc8;
use crate::ppu::spec_ppu_step;
use crate::ppu::spec_read_data;
use crate::ppu::spec_read_status;
use crate::ppu::spec_render_pixel;
use crate::ppu::spec_step_counters;
use crate::ppu::spec_step_flags;
use crate::ppu::spec_step_nmi;
use crate::ppu::spec_step_skip;
use crate::ppu::PpuView;
use crate::ppu::spec_reg_read;
use crate::ppu::spec_reg_write;
use crate::ppu::spec_write_address;
use crate::ppu::spec_write_data;
use crate::ppu::spec_write_control;

// Laws the components obey, stated over the same transition functions the
// executable code is proved against.

/// A write to $2000 lands its two low bits in bits 10-11 of `t` and nowhere
/// else: the other bits of `t`, and `v`, `x` and `w`, are untouched, and
/// nothing else on the bus changes.
pub proof fn lemma_control_write_selects_nametable(
    p: PpuView,
    m: MmuView,
    address: u16,
    value: u8,
)
    requires
        address & 7 == 0,
    ensures
        ((spec_reg_write(p, m, address, value).0.t >> 10) & 3) == (value & 3) as u16,
        (spec_reg_write(p, m, address, value).0.t & !0xC00u16) == (p.t & !0xC00u16),
        spec_reg_write(p, m, address, value).0.v == p.v,
        spec_reg_write(p, m, address, value).0.x == p.x,
        spec_reg_write(p, m, address, value).0.w == p.w,
        spec_reg_write(p, m, address, value).1 == m,
{
    reveal(spec_reg_write);
    reveal(spec_write_control);
    let t0 = p.t;
    let t2 = ((t0 & !0xC00u16) | (((value & 0x03) as u16) << 10)) as u16;
    assert(((t2 >> 10) & 3) == (value & 3) as u16 && (t2 & !0xC00u16) == (t0 & !0xC00u16))
        by (bit_vector)
        requires
            t2 == ((t0 & !0xC00u16) | (((value & 0x03) as u16) << 10)) as u16,
    ;
}

/// Reading $2002 always clears `w` and the V-Blank flag, and returns the
/// old V-Blank flag in bit 7; so two successive reads never both observe
/// V-Blank, and the second always returns zero.
pub proof fn lemma_status_read_clears(p: PpuView, m: MmuView, address: u16)
    requires
        address & 7 == 2,
    ensures
        !spec_reg_read(p, m, address).0.w,
        !spec_reg_read(p, m, address).0.vblank,
        spec_reg_read(p, m, address).1 == (if p.vblank {
            0x80u8
        } else {
            0u8
        }),
        spec_reg_read(spec_reg_read(p, m, address).0, m, address).1 == 0,
{
    reveal(spec_reg_read);
    reveal(spec_read_status);
}

/// After a $2006 pair W1, W2 from a cleared write latch, the address
/// register holds exactly `v = (W1 & $3F) << 8 | W2`, `t` agrees with it,
/// and the latch is cleared again.
pub proof fn lemma_address_write_pair(
    p: PpuView,
    m: MmuView,
    a1: u16,
    a2: u16,
    w1: u8,
    w2: u8,
)
    requires
        a1 & 7 == 6,
        a2 & 7 == 6,
        !p.w,
    ensures
        spec_reg_write(spec_reg_write(p, m, a1, w1).0, m, a2, w2).0.v == ((((w1 & 0x3F) as u16)
            << 8) | w2 as u16),
        spec_reg_write(spec_reg_write(p, m, a1, w1).0, m, a2, w2).0.t == ((((w1 & 0x3F) as u16)
            << 8) | w2 as u16),
        !spec_reg_write(spec_reg_write(p, m, a1, w1).0, m, a2, w2).0.w,
{
    reveal(spec_reg_write);
    reveal(spec_write_address);
    let t0 = p.t;
    let t1 = ((t0 & !0xFF00u16) | (((w1 as u16) << 8) & 0x3F00)) as u16;
    let t2 = ((t1 & !0xFFu16) | w2 as u16) as u16;
    assert(t2 == ((((w1 & 0x3F) as u16) << 8) | w2 as u16)) by (bit_vector)
        requires
            t1 == ((t0 & !0xFF00u16) | (((w1 as u16) << 8) & 0x3F00)) as u16,
            t2 == ((t1 & !0xFFu16) | w2 as u16) as u16,
    ;
}

/// A PPU-bus write to any nametable address is claimed, and reading the
/// same address afterwards returns the written byte.
pub proof fn lemma_nametable_round_trip(m: MmuView, address: u16, value: u8)
    requires
        m.wf(),
        m.has_controller,
        0x2000 <= address <= 0x3EFF,
    ensures
        m.ppu_write(address, value).0,
        m.ppu_write(address, value).1.ppu_read(address) == Some(value),
{
    lemma_mask_bounds();
}

/// Two palette addresses that agree modulo $20 mirror the same entry: they
/// always read equal.
pub proof fn lemma_palette_mirror(m: MmuView, a1: u16, a2: u16)
    requires
        m.wf(),
        m.has_controller,
        0x3F00 <= a1 <= 0x3FFF,
        0x3F00 <= a2 <= 0x3FFF,
        a1 % 0x20 == a2 % 0x20,
    ensures
        m.ppu_read(a1) == m.ppu_read(a2),
{
    assert((((a1 - 0x3F00) as u16) & 0x1F) == (((a2 - 0x3F00) as u16) & 0x1F)) by (bit_vector)
        requires
            0x3F00 <= a1 <= 0x3FFF,
            0x3F00 <= a2 <= 0x3FFF,
            a1 % 0x20 == a2 % 0x20,
    ;
    lemma_mask_bounds();
}

/// CPU internal RAM is mirrored every $800: a write read back through any
/// address with the same low eleven bits returns the written byte.
pub proof fn lemma_cpu_ram_mirror(m: MmuView, a1: u16, a2: u16, value: u8)
    requires
        m.wf(),
        m.has_controller,
        a1 < 0x2000,
        a2 < 0x2000,
        a1 & 0x7FF == a2 & 0x7FF,
    ensures
        m.cpu_write(a1, value).0,
        m.cpu_write(a1, value).1.cpu_read(a2) == Some(value),
{
    lemma_mask_bounds();
}

/// With a 16-KiB PRG-ROM, CPU reads at $8000+i and $C000+i return the same
/// ROM byte, and writes to either are not claimed by the mapper: the bus
/// state is unchanged.
pub proof fn lemma_nrom_prg_mirror(m: MmuView, i: u16, value: u8)
    requires
        m.wf(),
        m.has_controller,
        m.cart.prg_rom.len() == 0x4000,
        i < 0x4000,
    ensures
        m.cpu_read((0x8000 + i) as u16) == m.cpu_read((0xC000 + i) as u16),
        m.cpu_read((0x8000 + i) as u16) == Some(m.cart.prg_rom[i as int]),
        !m.cpu_write((0x8000 + i) as u16, value).0,
        m.cpu_write((0x8000 + i) as u16, value).1 == m,
        !m.cpu_write((0xC000 + i) as u16, value).0,
        m.cpu_write((0xC000 + i) as u16, value).1 == m,
{
}

/// Writing a byte through the $2007 data port and reading the port back
/// with the same `v` (for instance after the same $2006 pair) returns the
/// written byte, for every nametable address.
pub proof fn lemma_data_port_round_trip(p: PpuView, m: MmuView, value: u8)
    requires
        p.wf(),
        m.wf(),
        m.has_controller,
        0x2000 <= p.v <= 0x3EFF,
    ensures
        spec_read_data(p, spec_write_data(p, m, value).1).1 == value,
{
    reveal(spec_write_data);
    reveal(spec_read_data);
    lemma_mask_bounds();
}

/// The sprite backdrop entries $3F10/$3F14/$3F18/$3F1C (and their $20
/// mirrors) alias the background entries $10 lower: both sides read the
/// same entry, and a write through either lands in the same entry.
pub proof fn lemma_palette_backdrop_alias(m: MmuView, address: u16, value: u8)
    requires
        m.wf(),
        m.has_controller,
        0x3F00 <= address <= 0x3FFF,
        (((address - 0x3F00) as u16) & 0x1F) == 0x10 || (((address - 0x3F00) as u16) & 0x1F)
            == 0x14 || (((address - 0x3F00) as u16) & 0x1F) == 0x18 || (((address
            - 0x3F00) as u16) & 0x1F) == 0x1C,
    ensures
        m.ppu_read(address) == m.ppu_read((address - 0x10) as u16),
        m.ppu_write(address, value).1 == m.ppu_write((address - 0x10) as u16, value).1,
{
    assert(0x3F10 <= address) by (bit_vector)
        requires
            0x3F00 <= address <= 0x3FFF,
            (((address - 0x3F00) as u16) & 0x1F) == 0x10 || (((address - 0x3F00) as u16) & 0x1F)
                == 0x14 || (((address - 0x3F00) as u16) & 0x1F) == 0x18 || (((address
                - 0x3F00) as u16) & 0x1F) == 0x1C,
    ;
    let a2 = (address - 0x10) as u16;
    assert((((a2 - 0x3F00) as u16) & 0x1F) == ((((address - 0x3F00) as u16) & 0x1F) - 0x10)
        as u16) by (bit_vector)
        requires
            0x3F10 <= address <= 0x3FFF,
            a2 == (address - 0x10) as u16,
            (((address - 0x3F00) as u16) & 0x1F) == 0x10 || (((address - 0x3F00) as u16) & 0x1F)
                == 0x14 || (((address - 0x3F00) as u16) & 0x1F) == 0x18 || (((address
                - 0x3F00) as u16) & 0x1F) == 0x1C,
    ;
}

/// With rendering disabled, each dot moves the clock forward by exactly
/// one, wrapping through 262 lines of 341 dots (89342 dots per frame); the
/// V-Blank flag is set only in the dot that processes line 241 dot 1 (and
/// only if no $2002 read suppressed it), cleared only at line 261 dot 1,
/// and the frame parity toggles exactly at line 261 dot 1 — so it toggles
/// once per 89342-dot frame.
pub proof fn lemma_dot_clock_and_vblank_edges(p: PpuView, m: MmuView, nmi: bool)
    requires
        p.wf(),
        !p.background_enable,
        !p.sprite_enable,
    ensures
        spec_ppu_step(p, m, nmi).0.dots == (if p.dots == 340 {
            0int
        } else {
            p.dots + 1
        }),
        spec_ppu_step(p, m, nmi).0.line == (if p.dots < 340 {
            p.line as int
        } else if p.line == 261 {
            0int
        } else {
            p.line + 1
        }),
        spec_ppu_step(p, m, nmi).0.frame_odd == (if p.line == 261 && p.dots == 1 {
            !p.frame_odd
        } else {
            p.frame_odd
        }),
        spec_ppu_step(p, m, nmi).0.vblank == (if p.line == 241 && p.dots == 1
            && !p.suppress_vblank {
            true
        } else if p.line == 261 && p.dots == 1 {
            false
        } else {
            p.vblank
        }),
        spec_ppu_step(p, m, nmi).0.suppress_vblank == (p.suppress_vblank && !(p.line == 241
            && p.dots == 1)),
        spec_ppu_step(p, m, nmi).0.wf(),
        !spec_ppu_step(p, m, nmi).0.background_enable,
        !spec_ppu_step(p, m, nmi).0.sprite_enable,
{
    reveal(spec_ppu_step);
    reveal(spec_step_skip);
    reveal(spec_step_nmi);
    reveal(spec_render_pixel);
    reveal(spec_step_flags);
    reveal(spec_step_counters);
}

/// The PPU after `n` dots, the NMI signal threaded through.
pub open spec fn spec_run_dots(p: PpuView, m: MmuView, nmi: bool, n: nat) -> PpuView
    decreases n,
{
    if n == 0 {
        p
    } else {
        let t = spec_ppu_step(p, m, nmi);
        spec_run_dots(t.0, m, t.1, (n - 1) as nat)
    }
}

/// Position of the dot clock within the 89342-dot frame.
pub open spec fn spec_dot_index(p: PpuView) -> int {
    p.line * 341 + p.dots
}

/// No dot among the next `n`, counted from frame position `start`, is the
/// V-Blank set point (line 241 dot 1, frame position 82182).
pub open spec fn spec_avoids_set_point(start: int, n: nat) -> bool {
    forall|k: int| 0 <= k < n ==> #[trigger] ((start + k) % 89342) != 82182
}

/// A quiet PPU — rendering off, no suppression pending, V-Blank clear —
/// stays quiet over a run of dots that avoids the set point, and its dot
/// clock advances by exactly one per dot modulo 89342.
proof fn lemma_quiet_run(p: PpuView, m: MmuView, nmi: bool, n: nat, start: int)
    requires
        p.wf(),
        !p.background_enable,
        !p.sprite_enable,
        !p.suppress_vblank,
        !p.vblank,
        0 <= start < 89342,
        spec_dot_index(p) == start,
        spec_avoids_set_point(start, n),
    ensures
        spec_run_dots(p, m, nmi, n).wf(),
        !spec_run_dots(p, m, nmi, n).background_enable,
        !spec_run_dots(p, m, nmi, n).sprite_enable,
        !spec_run_dots(p, m, nmi, n).suppress_vblank,
        !spec_run_dots(p, m, nmi, n).vblank,
        spec_dot_index(spec_run_dots(p, m, nmi, n)) == (start + n) % 89342,
    decreases n,
{
    if n == 0 {
        assert((start + 0) % 89342 == start) by (nonlinear_arith)
            requires
                0 <= start < 89342,
        ;
    } else {
        lemma_dot_clock_and_vblank_edges(p, m, nmi);
        let t = spec_ppu_step(p, m, nmi);
        assert((start + 0) % 89342 == start) by (nonlinear_arith)
            requires
                0 <= start < 89342,
        ;
        assert(start != 82182);
        assert(!(p.line == 241 && p.dots == 1)) by (nonlinear_arith)
            requires
                start == p.line * 341 + p.dots,
                start != 82182,
                0 <= p.dots <= 340,
                0 <= p.line <= 261,
        ;
        let start1 = if start == 89341 {
            0int
        } else {
            start + 1
        };
        assert(spec_dot_index(t.0) == start1) by (nonlinear_arith)
            requires
                0 <= p.line <= 261,
                0 <= p.dots <= 340,
                start == p.line * 341 + p.dots,
                start1 == (if start == 89341 {
                    0int
                } else {
                    start + 1
                }),
                spec_dot_index(t.0) == t.0.line * 341 + t.0.dots,
                t.0.dots == (if p.dots == 340 {
                    0int
                } else {
                    p.dots + 1
                }),
                t.0.line == (if p.dots < 340 {
                    p.line as int
                } else if p.line == 261 {
                    0int
                } else {
                    p.line + 1
                }),
        ;
        assert forall|k: int| 0 <= k < n - 1 implies #[trigger] ((start1 + k) % 89342)
            != 82182 by {
            assert((start + (k + 1)) % 89342 != 82182);
            assert((start1 + k) % 89342 == (start + (k + 1)) % 89342) by (nonlinear_arith)
                requires
                    0 <= start < 89342,
                    start1 == (if start == 89341 {
                        0int
                    } else {
                        start + 1
                    }),
                    k >= 0,
            ;
        }
        lemma_quiet_run(t.0, m, t.1, (n - 1) as nat, start1);
        assert((start1 + (n - 1)) % 89342 == (start + n) % 89342) by (nonlinear_arith)
            requires
                0 <= start < 89342,
                start1 == (if start == 89341 {
                    0int
                } else {
                    start + 1
                }),
                n >= 1,
        ;
    }
}

/// Starting at the reset state with rendering disabled, V-Blank is still
/// clear after every number of dots short of 82524, and rises exactly in
/// the 82524th dot — the one that processes line 241 dot 1 of the first
/// frame (the pre-render line's 341 dots, 241 full lines, and two more
/// dots).
pub proof fn lemma_first_vblank_after_reset(p: PpuView, m: MmuView, nmi: bool, n: nat)
    requires
        p.wf(),
        p.line == 261,
        p.dots == 0,
        !p.background_enable,
        !p.sprite_enable,
        !p.suppress_vblank,
        !p.vblank,
        n <= 82524,
    ensures
        n < 82524 ==> !spec_run_dots(p, m, nmi, n).vblank,
        n == 82524 ==> spec_run_dots(p, m, nmi, n).vblank,
{
    assert(spec_dot_index(p) == 89001);
    assert forall|k: int| 0 <= k < 82523 implies #[trigger] ((89001 + k) % 89342) != 82182 by {
        if k < 341 {
            assert((89001 + k) % 89342 == 89001 + k) by (nonlinear_arith)
                requires
                    0 <= k < 341,
            ;
        } else {
            assert((89001 + k) % 89342 == k - 341) by (nonlinear_arith)
                requires
                    341 <= k < 82523,
            ;
        }
    }
    if n < 82524 {
        assert forall|k: int| 0 <= k < n implies #[trigger] ((89001 + k) % 89342) != 82182 by {
            assert(0 <= k < 82523);
        }
        lemma_quiet_run(p, m, nmi, n, 89001);
    } else {
        lemma_quiet_run(p, m, nmi, 82523, 89001);
        let q = spec_run_dots(p, m, nmi, 82523);
        assert((89001 + 82523) % 89342 == 82182) by (nonlinear_arith);
        assert(q.line == 241 && q.dots == 1) by (nonlinear_arith)
            requires
                spec_dot_index(q) == q.line * 341 + q.dots,
                spec_dot_index(q) == 82182,
                0 <= q.line <= 261,
                0 <= q.dots <= 340,
        ;
        lemma_run_dots_unfold_last(p, m, nmi, q, 82524);
    }
}

/// Splitting one dot off the end of a run: the V-Blank flag after `n` dots
/// is the one a single step leaves on the state after `n - 1` dots.
proof fn lemma_run_dots_unfold_last(p: PpuView, m: MmuView, nmi: bool, q: PpuView, n: nat)
    requires
        n >= 1,
        q == spec_run_dots(p, m, nmi, (n - 1) as nat),
        q.wf(),
        !q.background_enable,
        !q.sprite_enable,
        !q.suppress_vblank,
        q.line == 241,
        q.dots == 1,
    ensures
        spec_run_dots(p, m, nmi, n).vblank,
    decreases n,
{
    if n == 1 {
        assert(spec_run_dots(p, m, nmi, 0) == p);
        assert(q == p);
        let t = spec_ppu_step(p, m, nmi);
        assert(spec_run_dots(t.0, m, t.1, 0) == t.0);
        assert(spec_run_dots(p, m, nmi, 1) == t.0);
        lemma_dot_clock_and_vblank_edges(q, m, nmi);
    } else {
        let t = spec_ppu_step(p, m, nmi);
        lemma_run_dots_unfold_last(t.0, m, t.1, q, (n - 1) as nat);
    }
}

/// The stack pointer after `n` single-push steps (each decrementing modulo
/// 256, exactly as the push operations do).
pub open spec fn spec_push_n(s: u8, n: nat) -> u8
    decreases n,
{
    if n == 0 {
        s
    } else {
        spec_dec8(spec_push_n(s, (n - 1) as nat))
    }
}

/// The stack pointer after `n` single-pull steps.
pub open spec fn spec_pull_n(s: u8, n: nat) -> u8
    decreases n,
{
    if n == 0 {
        s
    } else {
        spec_inc8(spec_pull_n(s, (n - 1) as nat))
    }
}

/// After `n` pushes the stack pointer is `S0 - n` modulo 256.
pub proof fn lemma_push_n_mod(s: u8, n: nat)
    ensures
        spec_push_n(s, n) as int == (s - n) % 256,
    decreases n,
{
    if n > 0 {
        lemma_push_n_mod(s, (n - 1) as nat);
    }
}

/// After `n` pulls the stack pointer is `S0 + n` modulo 256.
pub proof fn lemma_pull_n_mod(s: u8, n: nat)
    ensures
        spec_pull_n(s, n) as int == (s + n) % 256,
    decreases n,
{
    if n > 0 {
        lemma_pull_n_mod(s, (n - 1) as nat);
    }
}

/// The indexed address phase crosses a page: the low address byte plus the
/// index carries.
pub open spec fn spec_crossed_indexed(c: CtxView, b: BusView, index: u8) -> bool {
    let t = spec_tick(c, b);
    let r1 = spec_bus_read(t.1, t.0.pc);
    r1.1 + index >= 0x100
}

/// The indirect-indexed address phase crosses a page: the fetched low
/// address byte plus Y carries.
pub open spec fn spec_crossed_indirect(c: CtxView, b: BusView) -> bool {
    let t = spec_tick(c, b);
    let r = spec_bus_read(t.1, t.0.pc);
    let c1 = CtxView { pc: spec_pc1(t.0.pc), ..t.0 };
    let t2 = spec_tick(c1, r.0);
    let rl = spec_bus_read(t2.1, r.1 as u16);
    rl.1 + c.y >= 0x100
}

/// Bus ticks of a read operation, by addressing mode; the indexed forms pay
/// one more on a page cross.  With the one tick of the opcode fetch this is
/// the published cycle count of every read: immediate 2, zero page 3,
/// zero page indexed 4, absolute 4, absolute indexed 4 (5 crossed),
/// indexed-indirect 6, indirect-indexed 5 (6 crossed).
pub open spec fn spec_read_ticks(c: CtxView, b: BusView, mode: AddressingMode) -> int {
    match mode {
        AddressingMode::Immediate => 1,
        AddressingMode::ZeroPage => 2,
        AddressingMode::ZeroPageX => 3,
        AddressingMode::ZeroPageY => 3,
        AddressingMode::Absolute => 3,
        AddressingMode::AbsoluteX => 3 + if spec_crossed_indexed(c, b, c.x) {
            1int
        } else {
            0int
        },
        AddressingMode::AbsoluteY => 3 + if spec_crossed_indexed(c, b, c.y) {
            1int
        } else {
            0int
        },
        AddressingMode::IndexedIndirect => 5,
        AddressingMode::IndirectIndexed => 4 + if spec_crossed_indirect(c, b) {
            1int
        } else {
            0int
        },
        _ => 1,
    }
}

/// Bus ticks of a store, by addressing mode: the indexed forms always pay
/// the fix-up tick.  With the opcode fetch this is the published count of
/// every store: zero page 3, zero page indexed 4, absolute 4, absolute
/// indexed 5, indexed-indirect 6, indirect-indexed 6.
pub open spec fn spec_write_ticks(mode: AddressingMode) -> int {
    match mode {
        AddressingMode::ZeroPage => 2,
        AddressingMode::ZeroPageX => 3,
        AddressingMode::ZeroPageY => 3,
        AddressingMode::Absolute => 3,
        AddressingMode::AbsoluteX => 4,
        AddressingMode::AbsoluteY => 4,
        AddressingMode::IndexedIndirect => 5,
        AddressingMode::IndirectIndexed => 5,
        _ => 0,
    }
}

/// A read performs exactly the mode's tick count, page-cross tick included
/// if and only if the low-byte addition carried.
pub proof fn lemma_read_cycle_count(c: CtxView, b: BusView, mode: AddressingMode)
    requires
        c.total_cycles + 8 <= 0xFFFF_FFFF_FFFF_FFFF,
    ensures
        spec_om_read(c, b, mode).0.total_cycles == c.total_cycles + spec_read_ticks(c, b, mode),
{
    reveal(spec_om_read);
    reveal(spec_ea_read);
}

/// A store performs exactly the mode's tick count; the indexed fix-up tick
/// is unconditional.
pub proof fn lemma_write_cycle_count(c: CtxView, b: BusView, mode: AddressingMode, value: u8)
    requires
        c.total_cycles + 8 <= 0xFFFF_FFFF_FFFF_FFFF,
        !(mode is Implied) && !(mode is Accumulator) && !(mode is Immediate) && !(mode
            is Relative) && !(mode is Indirect),
    ensures
        spec_om_write(c, b, mode, value).0.total_cycles == c.total_cycles + spec_write_ticks(
            mode,
        ),
{
    reveal(crate::om::spec_om_write);
    reveal(spec_ea_write);
}

/// A read-modify-write performs the store's address ticks plus three: the
/// read, the write-back of the unchanged value, and the write of the new
/// one.  With the opcode fetch this is the published count: zero page 5,
/// zero page indexed 6, absolute 6, absolute indexed 7.
pub proof fn lemma_modify_cycle_count(c: CtxView, b: BusView, mode: AddressingMode, op: ModifyOp)
    requires
        c.total_cycles + 8 <= 0xFFFF_FFFF_FFFF_FFFF,
        !(mode is Implied) && !(mode is Accumulator) && !(mode is Immediate) && !(mode
            is Relative) && !(mode is Indirect),
    ensures
        spec_om_modify(c, b, mode, op).0.total_cycles == c.total_cycles + spec_write_ticks(mode)
            + 2,
{
    reveal(crate::om::spec_om_modify);
    reveal(spec_ea_write);
}

} // verus!
