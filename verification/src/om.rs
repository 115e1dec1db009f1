use vstd::prelude::*;

verus! {

use crate::bits::lemma_mask_bounds;
use crate::bus::spec_bus_read;
use crate::bus::spec_bus_write;
use crate::bus::Bus;
use crate::cpu::spec_set_flag;
use crate::cpu::spec_tick;
use crate::cpu::Context;
use crate::cpu::CtxView;
use crate::cpu::CARRY;
use crate::cpu::SIGN;
use crate::cpu::ZERO;
use crate::operation::AddressingMode;

// The addressing-mode drivers: each determines the effective address with
// the exact bus-tick sequence of the part, then performs the access.  Every
// memory access is preceded by one tick, which steps the PPU three dots.

/// 8-bit addition, wrapping in the byte.
pub open spec fn spec_wadd8(a: u8, b: u8) -> u8 {
    (((a + b) as u16) & 0xFF) as u8
}

/// 16-bit addition, wrapping.
pub open spec fn spec_wadd16(a: u16, b: u16) -> u16 {
    (((a + b) as u32) & 0xFFFF) as u16
}

/// 16-bit subtraction, wrapping.
pub open spec fn spec_wsub16(a: u16, b: u16) -> u16 {
    (((a + 0x10000 - b) as u32) & 0xFFFF) as u16
}

/// The program counter stepped past one fetched byte.
pub open spec fn spec_pc1(pc: u16) -> u16 {
    if pc == 0xFFFF {
        0u16
    } else {
        (pc + 1) as u16
    }
}

pub(crate) fn wadd8(a: u8, b: u8) -> (r: u8)
    ensures
        r == spec_wadd8(a, b),
{
    proof {
        lemma_mask_bounds();
    }
    (((a as u16) + (b as u16)) & 0xFF) as u8
}

pub(crate) fn wadd16(a: u16, b: u16) -> (r: u16)
    ensures
        r == spec_wadd16(a, b),
{
    (((a as u32) + (b as u32)) & 0xFFFF) as u16
}

pub(crate) fn wsub16(a: u16, b: u16) -> (r: u16)
    ensures
        r == spec_wsub16(a, b),
{
    (((a as u32) + 0x10000 - (b as u32)) & 0xFFFF) as u16
}

pub(crate) fn pc1(pc: u16) -> (r: u16)
    ensures
        r == spec_pc1(pc),
{
    if pc == 0xFFFF {
        0
    } else {
        pc + 1
    }
}

/// Registers, bus and effective address after the address phase of a read
/// operation.  Indexed reads pay the page-cross fix-up tick only when the
/// low-byte addition carried.
#[verifier::opaque]
pub open spec fn spec_ea_read(c: CtxView, b: crate::bus::BusView, mode: AddressingMode) -> (
    CtxView,
    crate::bus::BusView,
    u16,
) {
    match mode {
        AddressingMode::Immediate => {
            // The operand sits at PC itself
            (CtxView { pc: spec_pc1(c.pc), ..c }, b, c.pc)
        },
        AddressingMode::ZeroPage => {
            let t = spec_tick(c, b);
            let r = spec_bus_read(t.1, t.0.pc);
            (CtxView { pc: spec_pc1(t.0.pc), ..t.0 }, r.0, r.1 as u16)
        },
        AddressingMode::ZeroPageX => {
            let t = spec_tick(c, b);
            let r = spec_bus_read(t.1, t.0.pc);
            let c1 = CtxView { pc: spec_pc1(t.0.pc), ..t.0 };
            let t2 = spec_tick(c1, r.0);
            let r2 = spec_bus_read(t2.1, r.1 as u16);
            (t2.0, r2.0, spec_wadd8(r.1, c.x) as u16)
        },
        AddressingMode::ZeroPageY => {
            let t = spec_tick(c, b);
            let r = spec_bus_read(t.1, t.0.pc);
            let c1 = CtxView { pc: spec_pc1(t.0.pc), ..t.0 };
            let t2 = spec_tick(c1, r.0);
            let r2 = spec_bus_read(t2.1, r.1 as u16);
            (t2.0, r2.0, spec_wadd8(r.1, c.y) as u16)
        },
        AddressingMode::Absolute => {
            let t = spec_tick(c, b);
            let r1 = spec_bus_read(t.1, t.0.pc);
            let c1 = CtxView { pc: spec_pc1(t.0.pc), ..t.0 };
            let t2 = spec_tick(c1, r1.0);
            let r2 = spec_bus_read(t2.1, t2.0.pc);
            let c2 = CtxView { pc: spec_pc1(t2.0.pc), ..t2.0 };
            (c2, r2.0, (r1.1 as u16 | ((r2.1 as u16) << 8)) as u16)
        },
        AddressingMode::AbsoluteX => spec_ea_read_indexed(c, b, c.x, false),
        AddressingMode::AbsoluteY => spec_ea_read_indexed(c, b, c.y, false),
        AddressingMode::IndexedIndirect => {
            let t = spec_tick(c, b);
            let r = spec_bus_read(t.1, t.0.pc);
            let c1 = CtxView { pc: spec_pc1(t.0.pc), ..t.0 };
            let t2 = spec_tick(c1, r.0);
            let r2 = spec_bus_read(t2.1, r.1 as u16);
            let ptr = spec_wadd8(r.1, c.x);
            let t3 = spec_tick(t2.0, r2.0);
            let rl = spec_bus_read(t3.1, ptr as u16);
            let t4 = spec_tick(t3.0, rl.0);
            let rh = spec_bus_read(t4.1, spec_wadd8(ptr, 1) as u16);
            (t4.0, rh.0, (rl.1 as u16 | ((rh.1 as u16) << 8)) as u16)
        },
        AddressingMode::IndirectIndexed => {
            let t = spec_tick(c, b);
            let r = spec_bus_read(t.1, t.0.pc);
            let c1 = CtxView { pc: spec_pc1(t.0.pc), ..t.0 };
            let t2 = spec_tick(c1, r.0);
            let rl = spec_bus_read(t2.1, r.1 as u16);
            let t3 = spec_tick(t2.0, rl.0);
            let rh = spec_bus_read(t3.1, spec_wadd8(r.1, 1) as u16);
            let crossed = rl.1 + c.y >= 0x100;
            let address = (spec_wadd8(rl.1, c.y) as u16 | ((rh.1 as u16) << 8)) as u16;
            if crossed {
                let t4 = spec_tick(t3.0, rh.0);
                let rd = spec_bus_read(t4.1, address);
                (t4.0, rd.0, spec_wadd16(address, 0x100))
            } else {
                (t3.0, rh.0, address)
            }
        },
        _ => (c, b, 0),
    }
}

/// The absolute-indexed address phase of a read or a store: two address
/// bytes, the index added to the low byte, and the fix-up dummy read —
/// only on a page cross for reads, always for stores and modifies.
pub open spec fn spec_ea_read_indexed(
    c: CtxView,
    b: crate::bus::BusView,
    index: u8,
    always_fix: bool,
) -> (CtxView, crate::bus::BusView, u16) {
    let t = spec_tick(c, b);
    let r1 = spec_bus_read(t.1, t.0.pc);
    let c1 = CtxView { pc: spec_pc1(t.0.pc), ..t.0 };
    let t2 = spec_tick(c1, r1.0);
    let r2 = spec_bus_read(t2.1, t2.0.pc);
    let crossed = r1.1 + index >= 0x100;
    let address = (spec_wadd8(r1.1, index) as u16 | ((r2.1 as u16) << 8)) as u16;
    let c2 = CtxView { pc: spec_pc1(t2.0.pc), ..t2.0 };
    if always_fix {
        let t3 = spec_tick(c2, r2.0);
        let rd = spec_bus_read(t3.1, address);
        (t3.0, rd.0, if crossed {
            spec_wadd16(address, 0x100)
        } else {
            address
        })
    } else {
        if crossed {
            let t3 = spec_tick(c2, r2.0);
            let rd = spec_bus_read(t3.1, address);
            (t3.0, rd.0, spec_wadd16(address, 0x100))
        } else {
            (c2, r2.0, address)
        }
    }
}

/// Registers, bus and effective address after the address phase of a store
/// or a read-modify-write.  The indexed forms always pay the fix-up tick.
#[verifier::opaque]
pub open spec fn spec_ea_write(c: CtxView, b: crate::bus::BusView, mode: AddressingMode) -> (
    CtxView,
    crate::bus::BusView,
    u16,
) {
    match mode {
        AddressingMode::ZeroPage => {
            let t = spec_tick(c, b);
            let r = spec_bus_read(t.1, t.0.pc);
            (CtxView { pc: spec_pc1(t.0.pc), ..t.0 }, r.0, r.1 as u16)
        },
        AddressingMode::ZeroPageX => {
            let t = spec_tick(c, b);
            let r = spec_bus_read(t.1, t.0.pc);
            let c1 = CtxView { pc: spec_pc1(t.0.pc), ..t.0 };
            let t2 = spec_tick(c1, r.0);
            let r2 = spec_bus_read(t2.1, r.1 as u16);
            (t2.0, r2.0, spec_wadd8(r.1, c.x) as u16)
        },
        AddressingMode::ZeroPageY => {
            let t = spec_tick(c, b);
            let r = spec_bus_read(t.1, t.0.pc);
            let c1 = CtxView { pc: spec_pc1(t.0.pc), ..t.0 };
            let t2 = spec_tick(c1, r.0);
            let r2 = spec_bus_read(t2.1, r.1 as u16);
            (t2.0, r2.0, spec_wadd8(r.1, c.y) as u16)
        },
        AddressingMode::Absolute => {
            let t = spec_tick(c, b);
            let r1 = spec_bus_read(t.1, t.0.pc);
            let c1 = CtxView { pc: spec_pc1(t.0.pc), ..t.0 };
            let t2 = spec_tick(c1, r1.0);
            let r2 = spec_bus_read(t2.1, t2.0.pc);
            let c2 = CtxView { pc: spec_pc1(t2.0.pc), ..t2.0 };
            (c2, r2.0, (r1.1 as u16 | ((r2.1 as u16) << 8)) as u16)
        },
        AddressingMode::AbsoluteX => spec_ea_read_indexed(c, b, c.x, true),
        AddressingMode::AbsoluteY => spec_ea_read_indexed(c, b, c.y, true),
        AddressingMode::IndexedIndirect => {
            let t = spec_tick(c, b);
            let r = spec_bus_read(t.1, t.0.pc);
            let c1 = CtxView { pc: spec_pc1(t.0.pc), ..t.0 };
            let t2 = spec_tick(c1, r.0);
            let r2 = spec_bus_read(t2.1, r.1 as u16);
            let ptr = spec_wadd8(r.1, c.x);
            let t3 = spec_tick(t2.0, r2.0);
            let rl = spec_bus_read(t3.1, ptr as u16);
            let t4 = spec_tick(t3.0, rl.0);
            let rh = spec_bus_read(t4.1, spec_wadd8(ptr, 1) as u16);
            (t4.0, rh.0, (rl.1 as u16 | ((rh.1 as u16) << 8)) as u16)
        },
        AddressingMode::IndirectIndexed => {
            let t = spec_tick(c, b);
            let r = spec_bus_read(t.1, t.0.pc);
            let c1 = CtxView { pc: spec_pc1(t.0.pc), ..t.0 };
            let t2 = spec_tick(c1, r.0);
            let rl = spec_bus_read(t2.1, r.1 as u16);
            let t3 = spec_tick(t2.0, rl.0);
            let rh = spec_bus_read(t3.1, spec_wadd8(r.1, 1) as u16);
            let crossed = rl.1 + c.y >= 0x100;
            let address = (spec_wadd8(rl.1, c.y) as u16 | ((rh.1 as u16) << 8)) as u16;
            let t4 = spec_tick(t3.0, rh.0);
            let rd = spec_bus_read(t4.1, address);
            (t4.0, rd.0, if crossed {
                spec_wadd16(address, 0x100)
            } else {
                address
            })
        },
        _ => (c, b, 0),
    }
}

/// Registers, bus and value after a read operation: the address phase, one
/// tick, and the read at the effective address.
#[verifier::opaque]
pub open spec fn spec_om_read(c: CtxView, b: crate::bus::BusView, mode: AddressingMode) -> (
    CtxView,
    crate::bus::BusView,
    u8,
) {
    let e = spec_ea_read(c, b, mode);
    let t = spec_tick(e.0, e.1);
    let r = spec_bus_read(t.1, e.2);
    (t.0, r.0, r.1)
}

/// Registers and bus after a store: the address phase, one tick, and the
/// write at the effective address.
#[verifier::opaque]
pub open spec fn spec_om_write(
    c: CtxView,
    b: crate::bus::BusView,
    mode: AddressingMode,
    value: u8,
) -> (CtxView, crate::bus::BusView) {
    let e = spec_ea_write(c, b, mode);
    let t = spec_tick(e.0, e.1);
    (t.0, spec_bus_write(t.1, e.2, value))
}

/// The six read-modify-write operations.
#[derive(Clone, Copy, Debug, PartialEq, Eq, Structural)]
pub enum ModifyOp {
    Inc,
    Dec,
    Asl,
    Lsr,
    Rol,
    Ror,
}

/// New value and new status byte of one read-modify-write step.
pub open spec fn spec_apply_modify(op: ModifyOp, p: u8, value: u8) -> (u8, u8) {
    match op {
        ModifyOp::Inc => {
            let r = spec_wadd8(value, 1);
            (r, crate::op::spec_zn(p, r))
        },
        ModifyOp::Dec => {
            let r = crate::op::spec_dec8(value);
            (r, crate::op::spec_zn(p, r))
        },
        ModifyOp::Asl => {
            let r = (value << 1) as u8;
            (r, crate::op::spec_zn(spec_set_flag(p, CARRY, value & 0x80 != 0), r))
        },
        ModifyOp::Lsr => {
            let r = (value >> 1) as u8;
            (r, crate::op::spec_zn(spec_set_flag(p, CARRY, value & 0x1 != 0), r))
        },
        ModifyOp::Rol => {
            let cin: u8 = if p & CARRY == CARRY {
                1
            } else {
                0
            };
            let r = ((value << 1) | cin) as u8;
            (r, crate::op::spec_zn(spec_set_flag(p, CARRY, value & 0x80 != 0), r))
        },
        ModifyOp::Ror => {
            let cin: u8 = if p & CARRY == CARRY {
                1
            } else {
                0
            };
            let r = ((value >> 1) | ((cin << 7) as u8)) as u8;
            (r, crate::op::spec_zn(spec_set_flag(p, CARRY, value & 0x1 != 0), r))
        },
    }
}

/// Registers and bus after a read-modify-write: the address phase, then
/// read, write-back of the same value, and write of the new value, each
/// with its own tick.
#[verifier::opaque]
pub open spec fn spec_om_modify(
    c: CtxView,
    b: crate::bus::BusView,
    mode: AddressingMode,
    op: ModifyOp,
) -> (CtxView, crate::bus::BusView) {
    let e = spec_ea_write(c, b, mode);
    let t1 = spec_tick(e.0, e.1);
    let r = spec_bus_read(t1.1, e.2);
    let t2 = spec_tick(t1.0, r.0);
    let b2 = spec_bus_write(t2.1, e.2, r.1);
    let m = spec_apply_modify(op, t2.0.p, r.1);
    let c3 = CtxView { p: m.1, ..t2.0 };
    let t3 = spec_tick(c3, b2);
    (t3.0, spec_bus_write(t3.1, e.2, m.0))
}

/// Registers and bus after a branch: fetch the displacement; if the flag
/// matches, one tick and the displacement added to PCL; on a page cross one
/// more tick to fix PCH.
#[verifier::opaque]
pub open spec fn spec_branch(
    c: CtxView,
    b: crate::bus::BusView,
    mask: u8,
    flag_check: bool,
) -> (CtxView, crate::bus::BusView) {
    let t = spec_tick(c, b);
    let r = spec_bus_read(t.1, t.0.pc);
    let operand = r.1;
    let c1 = CtxView { pc: spec_pc1(t.0.pc), ..t.0 };
    if ((c.p & mask) == mask) == flag_check {
        let t2 = spec_tick(c1, r.0);
        let pcl = (c1.pc & 0xFF) as u8;
        let crossed = if 1 <= operand && operand <= 0x7F {
            pcl + operand >= 0x100
        } else if operand >= 0x80 {
            pcl + operand < 0x100
        } else {
            false
        };
        let pc2 = ((c1.pc & !0xFFu16) | spec_wadd8(pcl, operand) as u16) as u16;
        let c2 = CtxView { pc: pc2, ..t2.0 };
        if crossed {
            let t3 = spec_tick(c2, t2.1);
            let pc3 = if operand <= 0x7F {
                spec_wadd16(pc2, 0x100)
            } else {
                spec_wsub16(pc2, 0x100)
            };
            (CtxView { pc: pc3, ..t3.0 }, t3.1)
        } else {
            (c2, t2.1)
        }
    } else {
        (c1, r.0)
    }
}

/// Read: determine the effective address with the mode's tick sequence,
/// then read it.
#[verifier::rlimit(100)]
#[verifier::spinoff_prover]
pub fn read(c: &mut Context, b: &mut Bus, mode: AddressingMode) -> (r: u8)
    requires
        old(b)@.wf(),
    ensures
        final(c)@ == spec_om_read(old(c)@, old(b)@, mode).0,
        final(b)@ == spec_om_read(old(c)@, old(b)@, mode).1,
        r == spec_om_read(old(c)@, old(b)@, mode).2,
        final(b)@.wf(),
{
    proof {
        reveal(spec_ea_read);
        reveal(spec_om_read);
    }
    let address: u16 = match mode {
        AddressingMode::Immediate => {
            // Immediate addressing reads the operand at PC itself
            let address = c.pc;
            c.pc = pc1(c.pc);
            address
        },
        AddressingMode::ZeroPage => {
            // Fetch the address; increment PC
            c.step(b);
            let address = b.read(c.pc);
            c.pc = pc1(c.pc);
            address as u16
        },
        AddressingMode::ZeroPageX => {
            // Fetch the address; increment PC; dummy read; add X
            c.step(b);
            let address = b.read(c.pc);
            c.pc = pc1(c.pc);
            c.step(b);
            let _ = b.read(address as u16);
            wadd8(address, c.x) as u16
        },
        AddressingMode::ZeroPageY => {
            // Fetch the address; increment PC; dummy read; add Y
            c.step(b);
            let address = b.read(c.pc);
            c.pc = pc1(c.pc);
            c.step(b);
            let _ = b.read(address as u16);
            wadd8(address, c.y) as u16
        },
        AddressingMode::Absolute => {
            // Fetch the two address bytes
            c.step(b);
            let l = b.read(c.pc);
            c.pc = pc1(c.pc);
            c.step(b);
            let h = b.read(c.pc);
            c.pc = pc1(c.pc);
            l as u16 | ((h as u16) << 8)
        },
        AddressingMode::AbsoluteX => ea_indexed_read(c, b, true),
        AddressingMode::AbsoluteY => ea_indexed_read(c, b, false),
        AddressingMode::IndexedIndirect => {
            // Fetch the pointer; dummy read; add X; read the address bytes
            // from the zero page, wrapping there
            c.step(b);
            let p0 = b.read(c.pc);
            c.pc = pc1(c.pc);
            c.step(b);
            let _ = b.read(p0 as u16);
            let ptr = wadd8(p0, c.x);
            c.step(b);
            let l = b.read(ptr as u16);
            c.step(b);
            let h = b.read(wadd8(ptr, 1) as u16);
            l as u16 | ((h as u16) << 8)
        },
        AddressingMode::IndirectIndexed => {
            // Fetch the pointer; read the address bytes from the zero page;
            // add Y with the page-cross fix-up
            c.step(b);
            let p0 = b.read(c.pc);
            c.pc = pc1(c.pc);
            c.step(b);
            let l = b.read(p0 as u16);
            c.step(b);
            let h = b.read(wadd8(p0, 1) as u16);
            let crossed = (l as u16) + (c.y as u16) >= 0x100;
            let mut address = wadd8(l, c.y) as u16 | ((h as u16) << 8);
            if crossed {
                // Read the unfixed address; fix the high byte
                c.step(b);
                let _ = b.read(address);
                address = wadd16(address, 0x100);
            }
            address
        },
        _ => 0,
    };
    proof {
        assert(c@ == spec_ea_read(old(c)@, old(b)@, mode).0);
        assert(b@ == spec_ea_read(old(c)@, old(b)@, mode).1);
        assert(address == spec_ea_read(old(c)@, old(b)@, mode).2);
    }

    // Read from the effective address
    c.step(b);
    b.read(address)
}

/// The absolute-indexed address phase for reads: the fix-up dummy read
/// happens only on a page cross.
#[verifier::rlimit(100)]
#[verifier::spinoff_prover]
fn ea_indexed_read(c: &mut Context, b: &mut Bus, use_x: bool) -> (address: u16)
    requires
        old(b)@.wf(),
    ensures
        ({
            let e = spec_ea_read_indexed(
                old(c)@,
                old(b)@,
                if use_x {
                    old(c)@.x
                } else {
                    old(c)@.y
                },
                false,
            );
            final(c)@ == e.0 && final(b)@ == e.1 && address == e.2
        }),
        final(b)@.wf(),
{
    let index = if use_x {
        c.x
    } else {
        c.y
    };
    // Fetch the two address bytes; add the index to the low byte
    c.step(b);
    let l = b.read(c.pc);
    c.pc = pc1(c.pc);
    c.step(b);
    let h = b.read(c.pc);
    let crossed = (l as u16) + (index as u16) >= 0x100;
    let mut address = wadd8(l, index) as u16 | ((h as u16) << 8);
    c.pc = pc1(c.pc);

    if crossed {
        // Read the unfixed address; fix the high byte
        c.step(b);
        let _ = b.read(address);
        address = wadd16(address, 0x100);
    }
    address
}

/// The absolute-indexed address phase for stores and modifies: the fix-up
/// dummy read always happens.
#[verifier::rlimit(100)]
#[verifier::spinoff_prover]
fn ea_indexed_write(c: &mut Context, b: &mut Bus, use_x: bool) -> (address: u16)
    requires
        old(b)@.wf(),
    ensures
        ({
            let e = spec_ea_read_indexed(
                old(c)@,
                old(b)@,
                if use_x {
                    old(c)@.x
                } else {
                    old(c)@.y
                },
                true,
            );
            final(c)@ == e.0 && final(b)@ == e.1 && address == e.2
        }),
        final(b)@.wf(),
{
    let index = if use_x {
        c.x
    } else {
        c.y
    };
    // Fetch the two address bytes; add the index to the low byte
    c.step(b);
    let l = b.read(c.pc);
    c.pc = pc1(c.pc);
    c.step(b);
    let h = b.read(c.pc);
    let crossed = (l as u16) + (index as u16) >= 0x100;
    let mut address = wadd8(l, index) as u16 | ((h as u16) << 8);
    c.pc = pc1(c.pc);

    // Read the unfixed address; fix the high byte when it crossed
    c.step(b);
    let _ = b.read(address);
    if crossed {
        address = wadd16(address, 0x100);
    }
    address
}

/// The address phase of stores and modifies.
#[verifier::rlimit(100)]
#[verifier::spinoff_prover]
fn ea_write(c: &mut Context, b: &mut Bus, mode: AddressingMode) -> (address: u16)
    requires
        old(b)@.wf(),
        !(mode is Implied) && !(mode is Accumulator) && !(mode is Immediate) && !(mode
            is Relative) && !(mode is Indirect),
    ensures
        final(c)@ == spec_ea_write(old(c)@, old(b)@, mode).0,
        final(b)@ == spec_ea_write(old(c)@, old(b)@, mode).1,
        address == spec_ea_write(old(c)@, old(b)@, mode).2,
        final(b)@.wf(),
{
    proof {
        reveal(spec_ea_write);
    }
    match mode {
        AddressingMode::ZeroPage => {
            // Fetch the address; increment PC
            c.step(b);
            let address = b.read(c.pc);
            c.pc = pc1(c.pc);
            address as u16
        },
        AddressingMode::ZeroPageX => {
            // Fetch the address; increment PC; dummy read; add X
            c.step(b);
            let address = b.read(c.pc);
            c.pc = pc1(c.pc);
            c.step(b);
            let _ = b.read(address as u16);
            wadd8(address, c.x) as u16
        },
        AddressingMode::ZeroPageY => {
            // Fetch the address; increment PC; dummy read; add Y
            c.step(b);
            let address = b.read(c.pc);
            c.pc = pc1(c.pc);
            c.step(b);
            let _ = b.read(address as u16);
            wadd8(address, c.y) as u16
        },
        AddressingMode::Absolute => {
            // Fetch the two address bytes
            c.step(b);
            let l = b.read(c.pc);
            c.pc = pc1(c.pc);
            c.step(b);
            let h = b.read(c.pc);
            c.pc = pc1(c.pc);
            l as u16 | ((h as u16) << 8)
        },
        AddressingMode::AbsoluteX => ea_indexed_write(c, b, true),
        AddressingMode::AbsoluteY => ea_indexed_write(c, b, false),
        AddressingMode::IndexedIndirect => {
            // Fetch the pointer; dummy read; add X; read the address bytes
            // from the zero page, wrapping there
            c.step(b);
            let p0 = b.read(c.pc);
            c.pc = pc1(c.pc);
            c.step(b);
            let _ = b.read(p0 as u16);
            let ptr = wadd8(p0, c.x);
            c.step(b);
            let l = b.read(ptr as u16);
            c.step(b);
            let h = b.read(wadd8(ptr, 1) as u16);
            l as u16 | ((h as u16) << 8)
        },
        AddressingMode::IndirectIndexed => {
            // Fetch the pointer; read the address bytes from the zero page;
            // add Y; always read the unfixed address
            c.step(b);
            let p0 = b.read(c.pc);
            c.pc = pc1(c.pc);
            c.step(b);
            let l = b.read(p0 as u16);
            c.step(b);
            let h = b.read(wadd8(p0, 1) as u16);
            let crossed = (l as u16) + (c.y as u16) >= 0x100;
            let mut address = wadd8(l, c.y) as u16 | ((h as u16) << 8);
            c.step(b);
            let _ = b.read(address);
            if crossed {
                address = wadd16(address, 0x100);
            }
            address
        },
        _ => 0,
    }
}

/// Write: determine the effective address with the mode's tick sequence
/// (indexed forms always pay the fix-up tick), then write the value.
#[verifier::rlimit(100)]
#[verifier::spinoff_prover]
pub fn write(c: &mut Context, b: &mut Bus, mode: AddressingMode, r: u8)
    requires
        old(b)@.wf(),
        !(mode is Implied) && !(mode is Accumulator) && !(mode is Immediate) && !(mode
            is Relative) && !(mode is Indirect),
    ensures
        final(c)@ == spec_om_write(old(c)@, old(b)@, mode, r).0,
        final(b)@ == spec_om_write(old(c)@, old(b)@, mode, r).1,
        final(b)@.wf(),
{
    proof {
        reveal(spec_om_write);
    }
    let address = ea_write(c, b, mode);

    // Write to the effective address
    c.step(b);
    b.write(address, r);
}

/// Read-modify-write: read the effective address, write the same value
/// back, apply the operation, write the new value — each with its own tick,
/// so the bus observes two writes.
#[verifier::rlimit(100)]
#[verifier::spinoff_prover]
pub fn modify(c: &mut Context, b: &mut Bus, mode: AddressingMode, op: ModifyOp)
    requires
        old(b)@.wf(),
        !(mode is Implied) && !(mode is Accumulator) && !(mode is Immediate) && !(mode
            is Relative) && !(mode is Indirect),
    ensures
        final(c)@ == spec_om_modify(old(c)@, old(b)@, mode, op).0,
        final(b)@ == spec_om_modify(old(c)@, old(b)@, mode, op).1,
        final(b)@.wf(),
{
    proof {
        reveal(spec_om_modify);
    }
    let address = ea_write(c, b, mode);

    // Read from the effective address
    c.step(b);
    let value = b.read(address);

    // Write the same value back [..]
    c.step(b);
    b.write(address, value);

    // [..] and apply the operation to it
    let value2 = apply_modify(c, op, value);

    // Write the new value
    c.step(b);
    b.write(address, value2);
}

/// Apply one read-modify-write operation to a value, setting the flags.
pub(crate) fn apply_modify(c: &mut Context, op: ModifyOp, value: u8) -> (r: u8)
    ensures
        r == spec_apply_modify(op, old(c)@.p, value).0,
        final(c)@ == (CtxView { p: spec_apply_modify(op, old(c)@.p, value).1, ..old(c)@ }),
{
    let r: u8 = match op {
        ModifyOp::Inc => wadd8(value, 1),
        ModifyOp::Dec => crate::op::dec8(value),
        ModifyOp::Asl => {
            c.p.set(CARRY, value & 0x80 != 0);
            value << 1
        },
        ModifyOp::Lsr => {
            c.p.set(CARRY, value & 0x1 != 0);
            value >> 1
        },
        ModifyOp::Rol => {
            let cin: u8 = if c.p.contains(CARRY) {
                1
            } else {
                0
            };
            c.p.set(CARRY, value & 0x80 != 0);
            (value << 1) | cin
        },
        ModifyOp::Ror => {
            let cin: u8 = if c.p.contains(CARRY) {
                1
            } else {
                0
            };
            c.p.set(CARRY, value & 0x1 != 0);
            (value >> 1) | (cin << 7)
        },
    };
    c.p.set(ZERO, r == 0);
    c.p.set(SIGN, r & 0x80 != 0);
    proof {
        assert(c@ =~= (CtxView { p: spec_apply_modify(op, old(c)@.p, value).1, ..old(c)@ }));
    }
    r
}

/// Branch on a status flag: fetch the displacement; when the flag equals
/// `flag_check`, take the branch with one tick, plus one more to fix PCH on
/// a page cross.
#[verifier::rlimit(100)]
#[verifier::spinoff_prover]
pub fn branch(c: &mut Context, b: &mut Bus, flag: u8, flag_check: bool)
    requires
        old(b)@.wf(),
    ensures
        final(c)@ == spec_branch(old(c)@, old(b)@, flag, flag_check).0,
        final(b)@ == spec_branch(old(c)@, old(b)@, flag, flag_check).1,
        final(b)@.wf(),
{
    proof {
        reveal(spec_branch);
    }
    // Fetch the displacement; increment PC
    c.step(b);
    let operand = b.read(c.pc);
    c.pc = pc1(c.pc);

    if c.p.contains(flag) == flag_check {
        // The branch is taken: add the displacement to PCL
        c.step(b);
        let pcl = (c.pc & 0xFF) as u8;
        let crossed = if 1 <= operand && operand <= 0x7F {
            (pcl as u16) + (operand as u16) >= 0x100
        } else if operand >= 0x80 {
            (pcl as u16) + (operand as u16) < 0x100
        } else {
            false
        };
        c.pc = (c.pc & !0xFFu16) | wadd8(pcl, operand) as u16;

        // Fix PCH if the displacement crossed the page
        if crossed {
            c.step(b);
            if operand <= 0x7F {
                c.pc = wadd16(c.pc, 0x100);
            } else {
                c.pc = wsub16(c.pc, 0x100);
            }
        }
    }
}

} // verus!
