#![allow(non_snake_case)]
use vstd::prelude::*;

verus! {

use crate::bus::spec_bus_read;
use crate::bus::spec_bus_step;
use crate::bus::spec_bus_write;
use crate::bus::Bus;
use crate::cpu::spec_set_flag;
use crate::cpu::Context;
use crate::cpu::CtxView;
use crate::cpu::BREAK;
use crate::cpu::CARRY;
use crate::cpu::DECIMAL_MODE;
use crate::cpu::FLAG_MASK;
use crate::cpu::IRQ_DISABLE;
use crate::cpu::OVERFLOW;
use crate::cpu::SIGN;
use crate::cpu::ZERO;

// Operation handlers, one per opcode, named by the opcode byte.  Each states
// exactly how it moves the register file and what it puts on the bus.

/// The status bits Z and N set from a result byte.
pub open spec fn spec_zn(p: u8, r: u8) -> u8 {
    spec_set_flag(spec_set_flag(p, ZERO, r == 0), SIGN, r & 0x80 != 0)
}

/// The stack pointer after one push: decremented modulo 256.
pub open spec fn spec_dec8(s: u8) -> u8 {
    if s == 0 {
        255u8
    } else {
        (s - 1) as u8
    }
}

/// The stack pointer after one pull: incremented modulo 256.
pub open spec fn spec_inc8(s: u8) -> u8 {
    if s == 255 {
        0u8
    } else {
        (s + 1) as u8
    }
}

pub(crate) fn dec8(s: u8) -> (r: u8)
    ensures
        r == spec_dec8(s),
{
    if s == 0 {
        255
    } else {
        s - 1
    }
}

pub(crate) fn inc8(s: u8) -> (r: u8)
    ensures
        r == spec_inc8(s),
{
    if s == 255 {
        0
    } else {
        s + 1
    }
}

// No Operation
// ============

/// NOP
pub fn _EA(c: &mut Context, b: &mut Bus)
    ensures
        final(c)@ == old(c)@,
        final(b)@ == old(b)@,
{
}

// Set Flag
// ========

/// SEC
pub fn _38(c: &mut Context, b: &mut Bus)
    ensures
        final(c)@ == (CtxView { p: old(c)@.p | CARRY, ..old(c)@ }),
        final(b)@ == old(b)@,
{
    c.p.insert(CARRY);
    proof {
        assert(c@ =~= (CtxView { p: old(c)@.p | CARRY, ..old(c)@ }));
    }
}

/// SEI
pub fn _78(c: &mut Context, b: &mut Bus)
    ensures
        final(c)@ == (CtxView { p: old(c)@.p | IRQ_DISABLE, ..old(c)@ }),
        final(b)@ == old(b)@,
{
    c.p.insert(IRQ_DISABLE);
    proof {
        assert(c@ =~= (CtxView { p: old(c)@.p | IRQ_DISABLE, ..old(c)@ }));
    }
}

/// SED
pub fn _F8(c: &mut Context, b: &mut Bus)
    ensures
        final(c)@ == (CtxView { p: old(c)@.p | DECIMAL_MODE, ..old(c)@ }),
        final(b)@ == old(b)@,
{
    c.p.insert(DECIMAL_MODE);
    proof {
        assert(c@ =~= (CtxView { p: old(c)@.p | DECIMAL_MODE, ..old(c)@ }));
    }
}

// Clear Flag
// ==========

/// CLC
pub fn _18(c: &mut Context, b: &mut Bus)
    ensures
        final(c)@ == (CtxView { p: old(c)@.p & !CARRY, ..old(c)@ }),
        final(b)@ == old(b)@,
{
    c.p.remove(CARRY);
    proof {
        assert(c@ =~= (CtxView { p: old(c)@.p & !CARRY, ..old(c)@ }));
    }
}

/// CLI
pub fn _58(c: &mut Context, b: &mut Bus)
    ensures
        final(c)@ == (CtxView { p: old(c)@.p & !IRQ_DISABLE, ..old(c)@ }),
        final(b)@ == old(b)@,
{
    c.p.remove(IRQ_DISABLE);
    proof {
        assert(c@ =~= (CtxView { p: old(c)@.p & !IRQ_DISABLE, ..old(c)@ }));
    }
}

/// CLV
pub fn _B8(c: &mut Context, b: &mut Bus)
    ensures
        final(c)@ == (CtxView { p: old(c)@.p & !OVERFLOW, ..old(c)@ }),
        final(b)@ == old(b)@,
{
    c.p.remove(OVERFLOW);
    proof {
        assert(c@ =~= (CtxView { p: old(c)@.p & !OVERFLOW, ..old(c)@ }));
    }
}

/// CLD
pub fn _D8(c: &mut Context, b: &mut Bus)
    ensures
        final(c)@ == (CtxView { p: old(c)@.p & !DECIMAL_MODE, ..old(c)@ }),
        final(b)@ == old(b)@,
{
    c.p.remove(DECIMAL_MODE);
    proof {
        assert(c@ =~= (CtxView { p: old(c)@.p & !DECIMAL_MODE, ..old(c)@ }));
    }
}

// Transfer
// ========

/// TAX
pub fn _AA(c: &mut Context, b: &mut Bus)
    ensures
        final(c)@ == (CtxView { x: old(c)@.a, p: spec_zn(old(c)@.p, old(c)@.a), ..old(c)@ }),
        final(b)@ == old(b)@,
{
    c.x = c.a;
    c.p.set(ZERO, c.x == 0);
    c.p.set(SIGN, c.x & 0x80 != 0);
    proof {
        assert(c@ =~= (CtxView { x: old(c)@.a, p: spec_zn(old(c)@.p, old(c)@.a), ..old(c)@ }));
    }
}

/// TAY
pub fn _A8(c: &mut Context, b: &mut Bus)
    ensures
        final(c)@ == (CtxView { y: old(c)@.a, p: spec_zn(old(c)@.p, old(c)@.a), ..old(c)@ }),
        final(b)@ == old(b)@,
{
    c.y = c.a;
    c.p.set(ZERO, c.y == 0);
    c.p.set(SIGN, c.y & 0x80 != 0);
    proof {
        assert(c@ =~= (CtxView { y: old(c)@.a, p: spec_zn(old(c)@.p, old(c)@.a), ..old(c)@ }));
    }
}

/// TSX
pub fn _BA(c: &mut Context, b: &mut Bus)
    ensures
        final(c)@ == (CtxView { x: old(c)@.s, p: spec_zn(old(c)@.p, old(c)@.s), ..old(c)@ }),
        final(b)@ == old(b)@,
{
    c.x = c.s;
    c.p.set(ZERO, c.x == 0);
    c.p.set(SIGN, c.x & 0x80 != 0);
    proof {
        assert(c@ =~= (CtxView { x: old(c)@.s, p: spec_zn(old(c)@.p, old(c)@.s), ..old(c)@ }));
    }
}

/// TXA
pub fn _8A(c: &mut Context, b: &mut Bus)
    ensures
        final(c)@ == (CtxView { a: old(c)@.x, p: spec_zn(old(c)@.p, old(c)@.x), ..old(c)@ }),
        final(b)@ == old(b)@,
{
    c.a = c.x;
    c.p.set(ZERO, c.a == 0);
    c.p.set(SIGN, c.a & 0x80 != 0);
    proof {
        assert(c@ =~= (CtxView { a: old(c)@.x, p: spec_zn(old(c)@.p, old(c)@.x), ..old(c)@ }));
    }
}

/// TXS (no flags)
pub fn _9A(c: &mut Context, b: &mut Bus)
    ensures
        final(c)@ == (CtxView { s: old(c)@.x, ..old(c)@ }),
        final(b)@ == old(b)@,
{
    c.s = c.x;
    proof {
        assert(c@ =~= (CtxView { s: old(c)@.x, ..old(c)@ }));
    }
}

/// TYA
pub fn _98(c: &mut Context, b: &mut Bus)
    ensures
        final(c)@ == (CtxView { a: old(c)@.y, p: spec_zn(old(c)@.p, old(c)@.y), ..old(c)@ }),
        final(b)@ == old(b)@,
{
    c.a = c.y;
    c.p.set(ZERO, c.a == 0);
    c.p.set(SIGN, c.a & 0x80 != 0);
    proof {
        assert(c@ =~= (CtxView { a: old(c)@.y, p: spec_zn(old(c)@.p, old(c)@.y), ..old(c)@ }));
    }
}

// Increment / Decrement (register forms)
// ======================================

/// INX
pub fn _E8(c: &mut Context, b: &mut Bus)
    ensures
        final(c)@ == (CtxView {
            x: spec_inc8(old(c)@.x),
            p: spec_zn(old(c)@.p, spec_inc8(old(c)@.x)),
            ..old(c)@
        }),
        final(b)@ == old(b)@,
{
    c.x = inc8(c.x);
    c.p.set(ZERO, c.x == 0);
    c.p.set(SIGN, c.x & 0x80 != 0);
    proof {
        assert(c@ =~= (CtxView {
            x: spec_inc8(old(c)@.x),
            p: spec_zn(old(c)@.p, spec_inc8(old(c)@.x)),
            ..old(c)@
        }));
    }
}

/// INY
pub fn _C8(c: &mut Context, b: &mut Bus)
    ensures
        final(c)@ == (CtxView {
            y: spec_inc8(old(c)@.y),
            p: spec_zn(old(c)@.p, spec_inc8(old(c)@.y)),
            ..old(c)@
        }),
        final(b)@ == old(b)@,
{
    c.y = inc8(c.y);
    c.p.set(ZERO, c.y == 0);
    c.p.set(SIGN, c.y & 0x80 != 0);
    proof {
        assert(c@ =~= (CtxView {
            y: spec_inc8(old(c)@.y),
            p: spec_zn(old(c)@.p, spec_inc8(old(c)@.y)),
            ..old(c)@
        }));
    }
}

/// DEX
pub fn _CA(c: &mut Context, b: &mut Bus)
    ensures
        final(c)@ == (CtxView {
            x: spec_dec8(old(c)@.x),
            p: spec_zn(old(c)@.p, spec_dec8(old(c)@.x)),
            ..old(c)@
        }),
        final(b)@ == old(b)@,
{
    c.x = dec8(c.x);
    c.p.set(ZERO, c.x == 0);
    c.p.set(SIGN, c.x & 0x80 != 0);
    proof {
        assert(c@ =~= (CtxView {
            x: spec_dec8(old(c)@.x),
            p: spec_zn(old(c)@.p, spec_dec8(old(c)@.x)),
            ..old(c)@
        }));
    }
}

/// DEY
pub fn _88(c: &mut Context, b: &mut Bus)
    ensures
        final(c)@ == (CtxView {
            y: spec_dec8(old(c)@.y),
            p: spec_zn(old(c)@.p, spec_dec8(old(c)@.y)),
            ..old(c)@
        }),
        final(b)@ == old(b)@,
{
    c.y = dec8(c.y);
    c.p.set(ZERO, c.y == 0);
    c.p.set(SIGN, c.y & 0x80 != 0);
    proof {
        assert(c@ =~= (CtxView {
            y: spec_dec8(old(c)@.y),
            p: spec_zn(old(c)@.p, spec_dec8(old(c)@.y)),
            ..old(c)@
        }));
    }
}

// Push
// ====

/// PHA: one tick, then the accumulator goes to the stack page and S steps
/// down.
pub fn _48(c: &mut Context, b: &mut Bus)
    requires
        old(b)@.wf(),
    ensures
        final(c)@ == (CtxView {
            s: spec_dec8(old(c)@.s),
            total_cycles: crate::cpu::spec_cyc1(old(c)@.total_cycles),
            ..old(c)@
        }),
        final(b)@ == spec_bus_write(
            spec_bus_step(old(b)@).0,
            (0x100 + old(c)@.s as u16) as u16,
            old(c)@.a,
        ),
        final(b)@.wf(),
{
    // Push the register on the stack; decrement S
    c.step(b);
    b.write(0x100 + c.s as u16, c.a);
    c.s = dec8(c.s);
    proof {
        assert(c@ =~= (CtxView {
            s: spec_dec8(old(c)@.s),
            total_cycles: crate::cpu::spec_cyc1(old(c)@.total_cycles),
            ..old(c)@
        }));
    }
}

/// PHP: as PHA, but pushing P with the break and unused bits forced to one.
pub fn _08(c: &mut Context, b: &mut Bus)
    requires
        old(b)@.wf(),
    ensures
        final(c)@ == (CtxView {
            s: spec_dec8(old(c)@.s),
            total_cycles: crate::cpu::spec_cyc1(old(c)@.total_cycles),
            ..old(c)@
        }),
        final(b)@ == spec_bus_write(
            spec_bus_step(old(b)@).0,
            (0x100 + old(c)@.s as u16) as u16,
            (old(c)@.p | BREAK) | 0x20,
        ),
        final(b)@.wf(),
{
    // Push P on the stack with B and the unused bit set; decrement S
    c.step(b);
    b.write(0x100 + c.s as u16, (c.p.bits | BREAK) | 0x20);
    c.s = dec8(c.s);
    proof {
        assert(c@ =~= (CtxView {
            s: spec_dec8(old(c)@.s),
            total_cycles: crate::cpu::spec_cyc1(old(c)@.total_cycles),
            ..old(c)@
        }));
    }
}

// Pull
// ====

/// PLA: one tick, S steps up, and the accumulator loads from the stack page
/// with Z and N set.
pub fn _68(c: &mut Context, b: &mut Bus)
    requires
        old(b)@.wf(),
    ensures
        final(c)@ == (CtxView {
            s: spec_inc8(old(c)@.s),
            a: spec_bus_read(
                spec_bus_step(old(b)@).0,
                (0x100 + spec_inc8(old(c)@.s) as u16) as u16,
            ).1,
            p: spec_zn(
                old(c)@.p,
                spec_bus_read(
                    spec_bus_step(old(b)@).0,
                    (0x100 + spec_inc8(old(c)@.s) as u16) as u16,
                ).1,
            ),
            total_cycles: crate::cpu::spec_cyc1(old(c)@.total_cycles),
            ..old(c)@
        }),
        final(b)@ == spec_bus_read(
            spec_bus_step(old(b)@).0,
            (0x100 + spec_inc8(old(c)@.s) as u16) as u16,
        ).0,
        final(b)@.wf(),
{
    // Increment S; pull the register from the stack
    c.step(b);
    c.s = inc8(c.s);

    c.a = b.read(0x100 + c.s as u16);

    c.p.set(ZERO, c.a == 0);
    c.p.set(SIGN, c.a & 0x80 != 0);
    proof {
        assert(c@ =~= (CtxView {
            s: spec_inc8(old(c)@.s),
            a: spec_bus_read(
                spec_bus_step(old(b)@).0,
                (0x100 + spec_inc8(old(c)@.s) as u16) as u16,
            ).1,
            p: spec_zn(
                old(c)@.p,
                spec_bus_read(
                    spec_bus_step(old(b)@).0,
                    (0x100 + spec_inc8(old(c)@.s) as u16) as u16,
                ).1,
            ),
            total_cycles: crate::cpu::spec_cyc1(old(c)@.total_cycles),
            ..old(c)@
        }));
    }
}

/// PLP: one tick, S steps up, and P loads from the stack page with the
/// break bit cleared and the unused bit dropped.
pub fn _28(c: &mut Context, b: &mut Bus)
    requires
        old(b)@.wf(),
    ensures
        final(c)@ == (CtxView {
            s: spec_inc8(old(c)@.s),
            p: (spec_bus_read(
                spec_bus_step(old(b)@).0,
                (0x100 + spec_inc8(old(c)@.s) as u16) as u16,
            ).1 & FLAG_MASK) & !BREAK,
            total_cycles: crate::cpu::spec_cyc1(old(c)@.total_cycles),
            ..old(c)@
        }),
        final(b)@ == spec_bus_read(
            spec_bus_step(old(b)@).0,
            (0x100 + spec_inc8(old(c)@.s) as u16) as u16,
        ).0,
        final(b)@.wf(),
{
    // Increment S; pull P from the stack
    c.step(b);
    c.s = inc8(c.s);

    c.p = crate::cpu::Flags::from_bits_truncate(b.read(0x100 + c.s as u16));
    c.p.remove(BREAK);
    proof {
        assert(c@ =~= (CtxView {
            s: spec_inc8(old(c)@.s),
            p: (spec_bus_read(
                spec_bus_step(old(b)@).0,
                (0x100 + spec_inc8(old(c)@.s) as u16) as u16,
            ).1 & FLAG_MASK) & !BREAK,
            total_cycles: crate::cpu::spec_cyc1(old(c)@.total_cycles),
            ..old(c)@
        }));
    }
}


// Read operands through the addressing-mode drivers
// =================================================

use crate::om;
use crate::om::spec_apply_modify;
use crate::om::spec_branch;
use crate::om::spec_om_modify;
use crate::om::spec_om_read;
use crate::om::spec_om_write;
use crate::om::spec_pc1;
use crate::om::spec_wadd8;
use crate::om::ModifyOp;
use crate::cpu::spec_cyc1;
use crate::cpu::spec_tick;
use crate::operation::AddressingMode;
use crate::table::spec_op_defined;

/// The register an operation works on.
#[derive(Clone, Copy, Debug, PartialEq, Eq, Structural)]
pub enum Reg {
    A,
    X,
    Y,
}

/// The named register of a register file.
pub open spec fn spec_reg_of(c: CtxView, reg: Reg) -> u8 {
    match reg {
        Reg::A => c.a,
        Reg::X => c.x,
        Reg::Y => c.y,
    }
}

/// 8-bit subtraction, wrapping in the byte.
pub open spec fn spec_wsub8(a: u8, b: u8) -> u8 {
    (((a + 0x100 - b) as u16) & 0xFF) as u8
}

fn wsub8(a: u8, b: u8) -> (r: u8)
    ensures
        r == spec_wsub8(a, b),
{
    proof {
        crate::bits::lemma_mask_bounds();
    }
    (((a as u16) + 0x100 - (b as u16)) & 0xFF) as u8
}

/// A load: read the operand, store it in the register, set Z and N.
#[verifier::opaque]
pub open spec fn spec_op_load(
    c: CtxView,
    b: crate::bus::BusView,
    mode: AddressingMode,
    reg: Reg,
) -> (CtxView, crate::bus::BusView) {
    let t = spec_om_read(c, b, mode);
    let v = t.2;
    let c1 = match reg {
        Reg::A => CtxView { a: v, ..t.0 },
        Reg::X => CtxView { x: v, ..t.0 },
        Reg::Y => CtxView { y: v, ..t.0 },
    };
    (CtxView { p: spec_zn(t.0.p, v), ..c1 }, t.1)
}

/// A store: write the register at the effective address; no flags.
#[verifier::opaque]
pub open spec fn spec_op_store(
    c: CtxView,
    b: crate::bus::BusView,
    mode: AddressingMode,
    reg: Reg,
) -> (CtxView, crate::bus::BusView) {
    spec_om_write(c, b, mode, spec_reg_of(c, reg))
}

/// Add with carry, binary mode: A + operand + C, with Z, N, C and the
/// signed-overflow V set from the 9-bit sum.
#[verifier::opaque]
pub open spec fn spec_op_adc(c: CtxView, b: crate::bus::BusView, mode: AddressingMode) -> (
    CtxView,
    crate::bus::BusView,
) {
    let t = spec_om_read(c, b, mode);
    let value = c.a as u16;
    let operand = t.2 as u16;
    let cin: u16 = if c.p & CARRY == CARRY {
        1
    } else {
        0
    };
    let r = (value + operand + cin) as u16;
    let p1 = spec_set_flag(t.0.p, ZERO, r & 0xFF == 0);
    let p2 = spec_set_flag(p1, SIGN, r & 0x80 != 0);
    let p3 = spec_set_flag(p2, CARRY, (r >> 8) & 1 != 0);
    let p4 = spec_set_flag(p3, OVERFLOW, ((value ^ r) & (operand ^ r) & 0x80) != 0);
    (CtxView { a: (r & 0xFF) as u8, p: p4, ..t.0 }, t.1)
}

/// Subtract with carry: as ADC with the operand complemented.
#[verifier::opaque]
pub open spec fn spec_op_sbc(c: CtxView, b: crate::bus::BusView, mode: AddressingMode) -> (
    CtxView,
    crate::bus::BusView,
) {
    let t = spec_om_read(c, b, mode);
    let value = c.a as u16;
    let operand = ((t.2 as u16) ^ 0xFF) as u16;
    let cin: u16 = if c.p & CARRY == CARRY {
        1
    } else {
        0
    };
    let r = (value + operand + cin) as u16;
    let p1 = spec_set_flag(t.0.p, ZERO, r & 0xFF == 0);
    let p2 = spec_set_flag(p1, SIGN, r & 0x80 != 0);
    let p3 = spec_set_flag(p2, CARRY, (r >> 8) & 1 != 0);
    let p4 = spec_set_flag(p3, OVERFLOW, ((value ^ r) & (operand ^ r) & 0x80) != 0);
    (CtxView { a: (r & 0xFF) as u8, p: p4, ..t.0 }, t.1)
}

/// A compare: C when the register is not below the operand, Z on equality,
/// N from the difference.
#[verifier::opaque]
pub open spec fn spec_op_compare(
    c: CtxView,
    b: crate::bus::BusView,
    mode: AddressingMode,
    reg: Reg,
) -> (CtxView, crate::bus::BusView) {
    let t = spec_om_read(c, b, mode);
    let value = spec_reg_of(c, reg);
    let operand = t.2;
    let r = spec_wsub8(value, operand);
    let p1 = spec_set_flag(t.0.p, CARRY, value >= operand);
    let p2 = spec_set_flag(p1, ZERO, value == operand);
    let p3 = spec_set_flag(p2, SIGN, r & 0x80 != 0);
    (CtxView { p: p3, ..t.0 }, t.1)
}

/// Inclusive OR into the accumulator, with Z and N.
#[verifier::opaque]
pub open spec fn spec_op_ora(c: CtxView, b: crate::bus::BusView, mode: AddressingMode) -> (
    CtxView,
    crate::bus::BusView,
) {
    let t = spec_om_read(c, b, mode);
    let r = ((c.a as u16) | (t.2 as u16)) as u16;
    let p1 = spec_set_flag(t.0.p, ZERO, r == 0);
    let p2 = spec_set_flag(p1, SIGN, r & 0x80 != 0);
    (CtxView { a: (r & 0xFF) as u8, p: p2, ..t.0 }, t.1)
}

/// AND into the accumulator, with Z and N.
#[verifier::opaque]
pub open spec fn spec_op_and(c: CtxView, b: crate::bus::BusView, mode: AddressingMode) -> (
    CtxView,
    crate::bus::BusView,
) {
    let t = spec_om_read(c, b, mode);
    let r = (c.a & t.2) as u8;
    (CtxView { a: r, p: spec_zn(t.0.p, r), ..t.0 }, t.1)
}

/// Exclusive OR into the accumulator, with Z and N.
#[verifier::opaque]
pub open spec fn spec_op_eor(c: CtxView, b: crate::bus::BusView, mode: AddressingMode) -> (
    CtxView,
    crate::bus::BusView,
) {
    let t = spec_om_read(c, b, mode);
    let r = (c.a ^ t.2) as u8;
    (CtxView { a: r, p: spec_zn(t.0.p, r), ..t.0 }, t.1)
}

/// BIT: Z from the operand masked with A, V and N straight from the
/// operand's bits 6 and 7.
#[verifier::opaque]
pub open spec fn spec_op_bit(c: CtxView, b: crate::bus::BusView, mode: AddressingMode) -> (
    CtxView,
    crate::bus::BusView,
) {
    let t = spec_om_read(c, b, mode);
    let value = t.2;
    let p1 = spec_set_flag(t.0.p, ZERO, value & c.a == 0);
    let p2 = spec_set_flag(p1, OVERFLOW, value & 0x40 != 0);
    let p3 = spec_set_flag(p2, SIGN, value & 0x80 != 0);
    (CtxView { p: p3, ..t.0 }, t.1)
}

/// An accumulator shift or rotate: the read-modify-write step applied to A,
/// with no bus traffic.
#[verifier::opaque]
pub open spec fn spec_op_shift_a(c: CtxView, op: ModifyOp) -> CtxView {
    let m = spec_apply_modify(op, c.p, c.a);
    CtxView { a: m.0, p: m.1, ..c }
}

/// JSR: fetch the target low byte, one internal delay tick, push PCH and
/// PCL, then fetch the high byte straight into PCH.
#[verifier::opaque]
pub open spec fn spec_op_jsr(c: CtxView, b: crate::bus::BusView) -> (
    CtxView,
    crate::bus::BusView,
) {
    let t1 = spec_tick(c, b);
    let rl = spec_bus_read(t1.1, t1.0.pc);
    let c1 = CtxView { pc: spec_pc1(t1.0.pc), ..t1.0 };
    let t2 = spec_tick(c1, rl.0);
    let t3 = spec_tick(t2.0, t2.1);
    let b3 = spec_bus_write(t3.1, (0x100 + t3.0.s as u16) as u16, (t3.0.pc >> 8) as u8);
    let c3 = CtxView { s: spec_dec8(t3.0.s), ..t3.0 };
    let t4 = spec_tick(c3, b3);
    let b4 = spec_bus_write(t4.1, (0x100 + t4.0.s as u16) as u16, (t4.0.pc & 0xFF) as u8);
    let c4 = CtxView { s: spec_dec8(t4.0.s), ..t4.0 };
    let t5 = spec_tick(c4, b4);
    let rh = spec_bus_read(t5.1, t5.0.pc);
    (CtxView { pc: (rl.1 as u16 | ((rh.1 as u16) << 8)) as u16, ..t5.0 }, rh.0)
}

/// JMP absolute.
#[verifier::opaque]
pub open spec fn spec_op_jmp(c: CtxView, b: crate::bus::BusView) -> (
    CtxView,
    crate::bus::BusView,
) {
    let t1 = spec_tick(c, b);
    let rl = spec_bus_read(t1.1, t1.0.pc);
    let c1 = CtxView { pc: spec_pc1(t1.0.pc), ..t1.0 };
    let t2 = spec_tick(c1, rl.0);
    let rh = spec_bus_read(t2.1, t2.0.pc);
    (CtxView { pc: (rl.1 as u16 | ((rh.1 as u16) << 8)) as u16, ..t2.0 }, rh.0)
}

/// JMP indirect, with the part's page-wrap quirk: the high byte of the
/// target comes from the same page as the pointer's low byte.
#[verifier::opaque]
pub open spec fn spec_op_jmp_ind(c: CtxView, b: crate::bus::BusView) -> (
    CtxView,
    crate::bus::BusView,
) {
    let t1 = spec_tick(c, b);
    let rpl = spec_bus_read(t1.1, t1.0.pc);
    let c1 = CtxView { pc: spec_pc1(t1.0.pc), ..t1.0 };
    let t2 = spec_tick(c1, rpl.0);
    let rph = spec_bus_read(t2.1, t2.0.pc);
    let c2 = CtxView { pc: spec_pc1(t2.0.pc), ..t2.0 };
    let t3 = spec_tick(c2, rph.0);
    let rl = spec_bus_read(t3.1, (rpl.1 as u16 | ((rph.1 as u16) << 8)) as u16);
    let t4 = spec_tick(t3.0, rl.0);
    let rh = spec_bus_read(t4.1, (spec_wadd8(rpl.1, 1) as u16 | ((rph.1 as u16) << 8)) as u16);
    (CtxView { pc: (rl.1 as u16 | ((rh.1 as u16) << 8)) as u16, ..t4.0 }, rh.0)
}

/// RTS: pull PCL and PCH off the stack and step past the JSR operand.
#[verifier::opaque]
pub open spec fn spec_op_rts(c: CtxView, b: crate::bus::BusView) -> (
    CtxView,
    crate::bus::BusView,
) {
    let t1 = spec_tick(c, b);
    let c1 = CtxView { s: spec_inc8(t1.0.s), ..t1.0 };
    let t2 = spec_tick(c1, t1.1);
    let rl = spec_bus_read(t2.1, (0x100 + t2.0.s as u16) as u16);
    let c2 = CtxView {
        pc: ((t2.0.pc & !0xFFu16) | rl.1 as u16) as u16,
        s: spec_inc8(t2.0.s),
        ..t2.0
    };
    let t3 = spec_tick(c2, rl.0);
    let rh = spec_bus_read(t3.1, (0x100 + t3.0.s as u16) as u16);
    let c3 = CtxView { pc: ((t3.0.pc & !0xFF00u16) | ((rh.1 as u16) << 8)) as u16, ..t3.0 };
    let t4 = spec_tick(c3, rh.0);
    (CtxView { pc: spec_pc1(t4.0.pc), ..t4.0 }, t4.1)
}

/// RTI: pull P (break cleared), then PCL and PCH.
#[verifier::opaque]
pub open spec fn spec_op_rti(c: CtxView, b: crate::bus::BusView) -> (
    CtxView,
    crate::bus::BusView,
) {
    let t1 = spec_tick(c, b);
    let c1 = CtxView { s: spec_inc8(t1.0.s), ..t1.0 };
    let t2 = spec_tick(c1, t1.1);
    let rp = spec_bus_read(t2.1, (0x100 + t2.0.s as u16) as u16);
    let c2 = CtxView {
        p: ((rp.1 & FLAG_MASK) & !BREAK) as u8,
        s: spec_inc8(t2.0.s),
        ..t2.0
    };
    let t3 = spec_tick(c2, rp.0);
    let rl = spec_bus_read(t3.1, (0x100 + t3.0.s as u16) as u16);
    let c3 = CtxView {
        pc: ((t3.0.pc & !0xFFu16) | rl.1 as u16) as u16,
        s: spec_inc8(t3.0.s),
        ..t3.0
    };
    let t4 = spec_tick(c3, rl.0);
    let rh = spec_bus_read(t4.1, (0x100 + t4.0.s as u16) as u16);
    (CtxView { pc: ((t4.0.pc & !0xFF00u16) | ((rh.1 as u16) << 8)) as u16, ..t4.0 }, rh.0)
}

/// LDA #${0:X}
pub fn _A9(c: &mut Context, b: &mut Bus)
    requires
        old(b)@.wf(),
    ensures
        final(c)@ == spec_op_load(old(c)@, old(b)@, AddressingMode::Immediate, Reg::A).0,
        final(b)@ == spec_op_load(old(c)@, old(b)@, AddressingMode::Immediate, Reg::A).1,
        final(b)@.wf(),
{
    let v = om::read(c, b, AddressingMode::Immediate);
    c.a = v;
    c.p.set(ZERO, v == 0);
    c.p.set(SIGN, v & 0x80 != 0);
    proof {
        reveal(spec_op_load);
        assert(c@ == spec_op_load(old(c)@, old(b)@, AddressingMode::Immediate, Reg::A).0);
    }
}

/// LDA ${0:X}
pub fn _A5(c: &mut Context, b: &mut Bus)
    requires
        old(b)@.wf(),
    ensures
        final(c)@ == spec_op_load(old(c)@, old(b)@, AddressingMode::ZeroPage, Reg::A).0,
        final(b)@ == spec_op_load(old(c)@, old(b)@, AddressingMode::ZeroPage, Reg::A).1,
        final(b)@.wf(),
{
    let v = om::read(c, b, AddressingMode::ZeroPage);
    c.a = v;
    c.p.set(ZERO, v == 0);
    c.p.set(SIGN, v & 0x80 != 0);
    proof {
        reveal(spec_op_load);
        assert(c@ == spec_op_load(old(c)@, old(b)@, AddressingMode::ZeroPage, Reg::A).0);
    }
}

/// LDA ${0:X}, X
pub fn _B5(c: &mut Context, b: &mut Bus)
    requires
        old(b)@.wf(),
    ensures
        final(c)@ == spec_op_load(old(c)@, old(b)@, AddressingMode::ZeroPageX, Reg::A).0,
        final(b)@ == spec_op_load(old(c)@, old(b)@, AddressingMode::ZeroPageX, Reg::A).1,
        final(b)@.wf(),
{
    let v = om::read(c, b, AddressingMode::ZeroPageX);
    c.a = v;
    c.p.set(ZERO, v == 0);
    c.p.set(SIGN, v & 0x80 != 0);
    proof {
        reveal(spec_op_load);
        assert(c@ == spec_op_load(old(c)@, old(b)@, AddressingMode::ZeroPageX, Reg::A).0);
    }
}

/// LDA ${1:X}{0:X}
pub fn _AD(c: &mut Context, b: &mut Bus)
    requires
        old(b)@.wf(),
    ensures
        final(c)@ == spec_op_load(old(c)@, old(b)@, AddressingMode::Absolute, Reg::A).0,
        final(b)@ == spec_op_load(old(c)@, old(b)@, AddressingMode::Absolute, Reg::A).1,
        final(b)@.wf(),
{
    let v = om::read(c, b, AddressingMode::Absolute);
    c.a = v;
    c.p.set(ZERO, v == 0);
    c.p.set(SIGN, v & 0x80 != 0);
    proof {
        reveal(spec_op_load);
        assert(c@ == spec_op_load(old(c)@, old(b)@, AddressingMode::Absolute, Reg::A).0);
    }
}

/// LDA ${1:X}{0:X}, X
pub fn _BD(c: &mut Context, b: &mut Bus)
    requires
        old(b)@.wf(),
    ensures
        final(c)@ == spec_op_load(old(c)@, old(b)@, AddressingMode::AbsoluteX, Reg::A).0,
        final(b)@ == spec_op_load(old(c)@, old(b)@, AddressingMode::AbsoluteX, Reg::A).1,
        final(b)@.wf(),
{
    let v = om::read(c, b, AddressingMode::AbsoluteX);
    c.a = v;
    c.p.set(ZERO, v == 0);
    c.p.set(SIGN, v & 0x80 != 0);
    proof {
        reveal(spec_op_load);
        assert(c@ == spec_op_load(old(c)@, old(b)@, AddressingMode::AbsoluteX, Reg::A).0);
    }
}

/// LDA ${1:X}{0:X}, Y
pub fn _B9(c: &mut Context, b: &mut Bus)
    requires
        old(b)@.wf(),
    ensures
        final(c)@ == spec_op_load(old(c)@, old(b)@, AddressingMode::AbsoluteY, Reg::A).0,
        final(b)@ == spec_op_load(old(c)@, old(b)@, AddressingMode::AbsoluteY, Reg::A).1,
        final(b)@.wf(),
{
    let v = om::read(c, b, AddressingMode::AbsoluteY);
    c.a = v;
    c.p.set(ZERO, v == 0);
    c.p.set(SIGN, v & 0x80 != 0);
    proof {
        reveal(spec_op_load);
        assert(c@ == spec_op_load(old(c)@, old(b)@, AddressingMode::AbsoluteY, Reg::A).0);
    }
}

/// LDA (${0:X}, X)
pub fn _A1(c: &mut Context, b: &mut Bus)
    requires
        old(b)@.wf(),
    ensures
        final(c)@ == spec_op_load(old(c)@, old(b)@, AddressingMode::IndexedIndirect, Reg::A).0,
        final(b)@ == spec_op_load(old(c)@, old(b)@, AddressingMode::IndexedIndirect, Reg::A).1,
        final(b)@.wf(),
{
    let v = om::read(c, b, AddressingMode::IndexedIndirect);
    c.a = v;
    c.p.set(ZERO, v == 0);
    c.p.set(SIGN, v & 0x80 != 0);
    proof {
        reveal(spec_op_load);
        assert(c@ == spec_op_load(old(c)@, old(b)@, AddressingMode::IndexedIndirect, Reg::A).0);
    }
}

/// LDA (${0:X}), Y
pub fn _B1(c: &mut Context, b: &mut Bus)
    requires
        old(b)@.wf(),
    ensures
        final(c)@ == spec_op_load(old(c)@, old(b)@, AddressingMode::IndirectIndexed, Reg::A).0,
        final(b)@ == spec_op_load(old(c)@, old(b)@, AddressingMode::IndirectIndexed, Reg::A).1,
        final(b)@.wf(),
{
    let v = om::read(c, b, AddressingMode::IndirectIndexed);
    c.a = v;
    c.p.set(ZERO, v == 0);
    c.p.set(SIGN, v & 0x80 != 0);
    proof {
        reveal(spec_op_load);
        assert(c@ == spec_op_load(old(c)@, old(b)@, AddressingMode::IndirectIndexed, Reg::A).0);
    }
}

/// LDX #${0:X}
pub fn _A2(c: &mut Context, b: &mut Bus)
    requires
        old(b)@.wf(),
    ensures
        final(c)@ == spec_op_load(old(c)@, old(b)@, AddressingMode::Immediate, Reg::X).0,
        final(b)@ == spec_op_load(old(c)@, old(b)@, AddressingMode::Immediate, Reg::X).1,
        final(b)@.wf(),
{
    let v = om::read(c, b, AddressingMode::Immediate);
    c.x = v;
    c.p.set(ZERO, v == 0);
    c.p.set(SIGN, v & 0x80 != 0);
    proof {
        reveal(spec_op_load);
        assert(c@ == spec_op_load(old(c)@, old(b)@, AddressingMode::Immediate, Reg::X).0);
    }
}

/// LDX ${0:X}
pub fn _A6(c: &mut Context, b: &mut Bus)
    requires
        old(b)@.wf(),
    ensures
        final(c)@ == spec_op_load(old(c)@, old(b)@, AddressingMode::ZeroPage, Reg::X).0,
        final(b)@ == spec_op_load(old(c)@, old(b)@, AddressingMode::ZeroPage, Reg::X).1,
        final(b)@.wf(),
{
    let v = om::read(c, b, AddressingMode::ZeroPage);
    c.x = v;
    c.p.set(ZERO, v == 0);
    c.p.set(SIGN, v & 0x80 != 0);
    proof {
        reveal(spec_op_load);
        assert(c@ == spec_op_load(old(c)@, old(b)@, AddressingMode::ZeroPage, Reg::X).0);
    }
}

/// LDX ${0:X}, Y
pub fn _B6(c: &mut Context, b: &mut Bus)
    requires
        old(b)@.wf(),
    ensures
        final(c)@ == spec_op_load(old(c)@, old(b)@, AddressingMode::ZeroPageY, Reg::X).0,
        final(b)@ == spec_op_load(old(c)@, old(b)@, AddressingMode::ZeroPageY, Reg::X).1,
        final(b)@.wf(),
{
    let v = om::read(c, b, AddressingMode::ZeroPageY);
    c.x = v;
    c.p.set(ZERO, v == 0);
    c.p.set(SIGN, v & 0x80 != 0);
    proof {
        reveal(spec_op_load);
        assert(c@ == spec_op_load(old(c)@, old(b)@, AddressingMode::ZeroPageY, Reg::X).0);
    }
}

/// LDX ${1:X}{0:X}
pub fn _AE(c: &mut Context, b: &mut Bus)
    requires
        old(b)@.wf(),
    ensures
        final(c)@ == spec_op_load(old(c)@, old(b)@, AddressingMode::Absolute, Reg::X).0,
        final(b)@ == spec_op_load(old(c)@, old(b)@, AddressingMode::Absolute, Reg::X).1,
        final(b)@.wf(),
{
    let v = om::read(c, b, AddressingMode::Absolute);
    c.x = v;
    c.p.set(ZERO, v == 0);
    c.p.set(SIGN, v & 0x80 != 0);
    proof {
        reveal(spec_op_load);
        assert(c@ == spec_op_load(old(c)@, old(b)@, AddressingMode::Absolute, Reg::X).0);
    }
}

/// LDX ${1:X}{0:X}, Y
pub fn _BE(c: &mut Context, b: &mut Bus)
    requires
        old(b)@.wf(),
    ensures
        final(c)@ == spec_op_load(old(c)@, old(b)@, AddressingMode::AbsoluteY, Reg::X).0,
        final(b)@ == spec_op_load(old(c)@, old(b)@, AddressingMode::AbsoluteY, Reg::X).1,
        final(b)@.wf(),
{
    let v = om::read(c, b, AddressingMode::AbsoluteY);
    c.x = v;
    c.p.set(ZERO, v == 0);
    c.p.set(SIGN, v & 0x80 != 0);
    proof {
        reveal(spec_op_load);
        assert(c@ == spec_op_load(old(c)@, old(b)@, AddressingMode::AbsoluteY, Reg::X).0);
    }
}

/// LDY #${0:X}
pub fn _A0(c: &mut Context, b: &mut Bus)
    requires
        old(b)@.wf(),
    ensures
        final(c)@ == spec_op_load(old(c)@, old(b)@, AddressingMode::Immediate, Reg::Y).0,
        final(b)@ == spec_op_load(old(c)@, old(b)@, AddressingMode::Immediate, Reg::Y).1,
        final(b)@.wf(),
{
    let v = om::read(c, b, AddressingMode::Immediate);
    c.y = v;
    c.p.set(ZERO, v == 0);
    c.p.set(SIGN, v & 0x80 != 0);
    proof {
        reveal(spec_op_load);
        assert(c@ == spec_op_load(old(c)@, old(b)@, AddressingMode::Immediate, Reg::Y).0);
    }
}

/// LDX ${0:X}
pub fn _A4(c: &mut Context, b: &mut Bus)
    requires
        old(b)@.wf(),
    ensures
        final(c)@ == spec_op_load(old(c)@, old(b)@, AddressingMode::ZeroPage, Reg::Y).0,
        final(b)@ == spec_op_load(old(c)@, old(b)@, AddressingMode::ZeroPage, Reg::Y).1,
        final(b)@.wf(),
{
    let v = om::read(c, b, AddressingMode::ZeroPage);
    c.y = v;
    c.p.set(ZERO, v == 0);
    c.p.set(SIGN, v & 0x80 != 0);
    proof {
        reveal(spec_op_load);
        assert(c@ == spec_op_load(old(c)@, old(b)@, AddressingMode::ZeroPage, Reg::Y).0);
    }
}

/// LDX ${0:X}, X
pub fn _B4(c: &mut Context, b: &mut Bus)
    requires
        old(b)@.wf(),
    ensures
        final(c)@ == spec_op_load(old(c)@, old(b)@, AddressingMode::ZeroPageX, Reg::Y).0,
        final(b)@ == spec_op_load(old(c)@, old(b)@, AddressingMode::ZeroPageX, Reg::Y).1,
        final(b)@.wf(),
{
    let v = om::read(c, b, AddressingMode::ZeroPageX);
    c.y = v;
    c.p.set(ZERO, v == 0);
    c.p.set(SIGN, v & 0x80 != 0);
    proof {
        reveal(spec_op_load);
        assert(c@ == spec_op_load(old(c)@, old(b)@, AddressingMode::ZeroPageX, Reg::Y).0);
    }
}

/// LDX ${1:X}{0:X}
pub fn _AC(c: &mut Context, b: &mut Bus)
    requires
        old(b)@.wf(),
    ensures
        final(c)@ == spec_op_load(old(c)@, old(b)@, AddressingMode::Absolute, Reg::Y).0,
        final(b)@ == spec_op_load(old(c)@, old(b)@, AddressingMode::Absolute, Reg::Y).1,
        final(b)@.wf(),
{
    let v = om::read(c, b, AddressingMode::Absolute);
    c.y = v;
    c.p.set(ZERO, v == 0);
    c.p.set(SIGN, v & 0x80 != 0);
    proof {
        reveal(spec_op_load);
        assert(c@ == spec_op_load(old(c)@, old(b)@, AddressingMode::Absolute, Reg::Y).0);
    }
}

/// LDX ${1:X}{0:X}, X
pub fn _BC(c: &mut Context, b: &mut Bus)
    requires
        old(b)@.wf(),
    ensures
        final(c)@ == spec_op_load(old(c)@, old(b)@, AddressingMode::AbsoluteX, Reg::Y).0,
        final(b)@ == spec_op_load(old(c)@, old(b)@, AddressingMode::AbsoluteX, Reg::Y).1,
        final(b)@.wf(),
{
    let v = om::read(c, b, AddressingMode::AbsoluteX);
    c.y = v;
    c.p.set(ZERO, v == 0);
    c.p.set(SIGN, v & 0x80 != 0);
    proof {
        reveal(spec_op_load);
        assert(c@ == spec_op_load(old(c)@, old(b)@, AddressingMode::AbsoluteX, Reg::Y).0);
    }
}

/// STA ${0:X}
pub fn _85(c: &mut Context, b: &mut Bus)
    requires
        old(b)@.wf(),
    ensures
        final(c)@ == spec_op_store(old(c)@, old(b)@, AddressingMode::ZeroPage, Reg::A).0,
        final(b)@ == spec_op_store(old(c)@, old(b)@, AddressingMode::ZeroPage, Reg::A).1,
        final(b)@.wf(),
{
    let r = c.a;
    om::write(c, b, AddressingMode::ZeroPage, r);
    proof {
        reveal(spec_op_store);
    }
}

/// STA ${0:X}, X
pub fn _95(c: &mut Context, b: &mut Bus)
    requires
        old(b)@.wf(),
    ensures
        final(c)@ == spec_op_store(old(c)@, old(b)@, AddressingMode::ZeroPageX, Reg::A).0,
        final(b)@ == spec_op_store(old(c)@, old(b)@, AddressingMode::ZeroPageX, Reg::A).1,
        final(b)@.wf(),
{
    let r = c.a;
    om::write(c, b, AddressingMode::ZeroPageX, r);
    proof {
        reveal(spec_op_store);
    }
}

/// STA ${1:X}{0:X}
pub fn _8D(c: &mut Context, b: &mut Bus)
    requires
        old(b)@.wf(),
    ensures
        final(c)@ == spec_op_store(old(c)@, old(b)@, AddressingMode::Absolute, Reg::A).0,
        final(b)@ == spec_op_store(old(c)@, old(b)@, AddressingMode::Absolute, Reg::A).1,
        final(b)@.wf(),
{
    let r = c.a;
    om::write(c, b, AddressingMode::Absolute, r);
    proof {
        reveal(spec_op_store);
    }
}

/// STA ${1:X}{0:X}, X
pub fn _9D(c: &mut Context, b: &mut Bus)
    requires
        old(b)@.wf(),
    ensures
        final(c)@ == spec_op_store(old(c)@, old(b)@, AddressingMode::AbsoluteX, Reg::A).0,
        final(b)@ == spec_op_store(old(c)@, old(b)@, AddressingMode::AbsoluteX, Reg::A).1,
        final(b)@.wf(),
{
    let r = c.a;
    om::write(c, b, AddressingMode::AbsoluteX, r);
    proof {
        reveal(spec_op_store);
    }
}

/// STA ${1:X}{0:X}, Y
pub fn _99(c: &mut Context, b: &mut Bus)
    requires
        old(b)@.wf(),
    ensures
        final(c)@ == spec_op_store(old(c)@, old(b)@, AddressingMode::AbsoluteY, Reg::A).0,
        final(b)@ == spec_op_store(old(c)@, old(b)@, AddressingMode::AbsoluteY, Reg::A).1,
        final(b)@.wf(),
{
    let r = c.a;
    om::write(c, b, AddressingMode::AbsoluteY, r);
    proof {
        reveal(spec_op_store);
    }
}

/// STA (${0:X}, X)
pub fn _81(c: &mut Context, b: &mut Bus)
    requires
        old(b)@.wf(),
    ensures
        final(c)@ == spec_op_store(old(c)@, old(b)@, AddressingMode::IndexedIndirect, Reg::A).0,
        final(b)@ == spec_op_store(old(c)@, old(b)@, AddressingMode::IndexedIndirect, Reg::A).1,
        final(b)@.wf(),
{
    let r = c.a;
    om::write(c, b, AddressingMode::IndexedIndirect, r);
    proof {
        reveal(spec_op_store);
    }
}

/// STA (${0:X}), Y
pub fn _91(c: &mut Context, b: &mut Bus)
    requires
        old(b)@.wf(),
    ensures
        final(c)@ == spec_op_store(old(c)@, old(b)@, AddressingMode::IndirectIndexed, Reg::A).0,
        final(b)@ == spec_op_store(old(c)@, old(b)@, AddressingMode::IndirectIndexed, Reg::A).1,
        final(b)@.wf(),
{
    let r = c.a;
    om::write(c, b, AddressingMode::IndirectIndexed, r);
    proof {
        reveal(spec_op_store);
    }
}

/// STX ${0:X}
pub fn _86(c: &mut Context, b: &mut Bus)
    requires
        old(b)@.wf(),
    ensures
        final(c)@ == spec_op_store(old(c)@, old(b)@, AddressingMode::ZeroPage, Reg::X).0,
        final(b)@ == spec_op_store(old(c)@, old(b)@, AddressingMode::ZeroPage, Reg::X).1,
        final(b)@.wf(),
{
    let r = c.x;
    om::write(c, b, AddressingMode::ZeroPage, r);
    proof {
        reveal(spec_op_store);
    }
}

/// STX ${0:X}, Y
pub fn _96(c: &mut Context, b: &mut Bus)
    requires
        old(b)@.wf(),
    ensures
        final(c)@ == spec_op_store(old(c)@, old(b)@, AddressingMode::ZeroPageY, Reg::X).0,
        final(b)@ == spec_op_store(old(c)@, old(b)@, AddressingMode::ZeroPageY, Reg::X).1,
        final(b)@.wf(),
{
    let r = c.x;
    om::write(c, b, AddressingMode::ZeroPageY, r);
    proof {
        reveal(spec_op_store);
    }
}

/// STX ${1:X}{0:X}
pub fn _8E(c: &mut Context, b: &mut Bus)
    requires
        old(b)@.wf(),
    ensures
        final(c)@ == spec_op_store(old(c)@, old(b)@, AddressingMode::Absolute, Reg::X).0,
        final(b)@ == spec_op_store(old(c)@, old(b)@, AddressingMode::Absolute, Reg::X).1,
        final(b)@.wf(),
{
    let r = c.x;
    om::write(c, b, AddressingMode::Absolute, r);
    proof {
        reveal(spec_op_store);
    }
}

/// STY ${0:X}
pub fn _84(c: &mut Context, b: &mut Bus)
    requires
        old(b)@.wf(),
    ensures
        final(c)@ == spec_op_store(old(c)@, old(b)@, AddressingMode::ZeroPage, Reg::Y).0,
        final(b)@ == spec_op_store(old(c)@, old(b)@, AddressingMode::ZeroPage, Reg::Y).1,
        final(b)@.wf(),
{
    let r = c.y;
    om::write(c, b, AddressingMode::ZeroPage, r);
    proof {
        reveal(spec_op_store);
    }
}

/// STY ${0:X}, X
pub fn _94(c: &mut Context, b: &mut Bus)
    requires
        old(b)@.wf(),
    ensures
        final(c)@ == spec_op_store(old(c)@, old(b)@, AddressingMode::ZeroPageX, Reg::Y).0,
        final(b)@ == spec_op_store(old(c)@, old(b)@, AddressingMode::ZeroPageX, Reg::Y).1,
        final(b)@.wf(),
{
    let r = c.y;
    om::write(c, b, AddressingMode::ZeroPageX, r);
    proof {
        reveal(spec_op_store);
    }
}

/// STY ${1:X}{0:X}
pub fn _8C(c: &mut Context, b: &mut Bus)
    requires
        old(b)@.wf(),
    ensures
        final(c)@ == spec_op_store(old(c)@, old(b)@, AddressingMode::Absolute, Reg::Y).0,
        final(b)@ == spec_op_store(old(c)@, old(b)@, AddressingMode::Absolute, Reg::Y).1,
        final(b)@.wf(),
{
    let r = c.y;
    om::write(c, b, AddressingMode::Absolute, r);
    proof {
        reveal(spec_op_store);
    }
}

/// ADC #${0:X}
pub fn _69(c: &mut Context, b: &mut Bus)
    requires
        old(b)@.wf(),
    ensures
        final(c)@ == spec_op_adc(old(c)@, old(b)@, AddressingMode::Immediate).0,
        final(b)@ == spec_op_adc(old(c)@, old(b)@, AddressingMode::Immediate).1,
        final(b)@.wf(),
{
    let value = c.a as u16;
    let cin: u16 = if c.p.contains(CARRY) {
        1
    } else {
        0
    };
    let operand = (om::read(c, b, AddressingMode::Immediate) as u16);
    let r = value + operand + cin;

    c.p.set(ZERO, r & 0xFF == 0);
    c.p.set(SIGN, r & 0x80 != 0);
    c.p.set(CARRY, (r >> 8) & 1 != 0);
    c.p.set(OVERFLOW, ((value ^ r) & (operand ^ r) & 0x80) != 0);

    proof {
        crate::bits::lemma_mask_bounds();
    }
    c.a = (r & 0xFF) as u8;
    proof {
        reveal(spec_op_adc);
        assert(c@ == spec_op_adc(old(c)@, old(b)@, AddressingMode::Immediate).0);
    }
}

/// ADC ${0:X}
pub fn _65(c: &mut Context, b: &mut Bus)
    requires
        old(b)@.wf(),
    ensures
        final(c)@ == spec_op_adc(old(c)@, old(b)@, AddressingMode::ZeroPage).0,
        final(b)@ == spec_op_adc(old(c)@, old(b)@, AddressingMode::ZeroPage).1,
        final(b)@.wf(),
{
    let value = c.a as u16;
    let cin: u16 = if c.p.contains(CARRY) {
        1
    } else {
        0
    };
    let operand = (om::read(c, b, AddressingMode::ZeroPage) as u16);
    let r = value + operand + cin;

    c.p.set(ZERO, r & 0xFF == 0);
    c.p.set(SIGN, r & 0x80 != 0);
    c.p.set(CARRY, (r >> 8) & 1 != 0);
    c.p.set(OVERFLOW, ((value ^ r) & (operand ^ r) & 0x80) != 0);

    proof {
        crate::bits::lemma_mask_bounds();
    }
    c.a = (r & 0xFF) as u8;
    proof {
        reveal(spec_op_adc);
        assert(c@ == spec_op_adc(old(c)@, old(b)@, AddressingMode::ZeroPage).0);
    }
}

/// ADC ${0:X}, X
pub fn _75(c: &mut Context, b: &mut Bus)
    requires
        old(b)@.wf(),
    ensures
        final(c)@ == spec_op_adc(old(c)@, old(b)@, AddressingMode::ZeroPageX).0,
        final(b)@ == spec_op_adc(old(c)@, old(b)@, AddressingMode::ZeroPageX).1,
        final(b)@.wf(),
{
    let value = c.a as u16;
    let cin: u16 = if c.p.contains(CARRY) {
        1
    } else {
        0
    };
    let operand = (om::read(c, b, AddressingMode::ZeroPageX) as u16);
    let r = value + operand + cin;

    c.p.set(ZERO, r & 0xFF == 0);
    c.p.set(SIGN, r & 0x80 != 0);
    c.p.set(CARRY, (r >> 8) & 1 != 0);
    c.p.set(OVERFLOW, ((value ^ r) & (operand ^ r) & 0x80) != 0);

    proof {
        crate::bits::lemma_mask_bounds();
    }
    c.a = (r & 0xFF) as u8;
    proof {
        reveal(spec_op_adc);
        assert(c@ == spec_op_adc(old(c)@, old(b)@, AddressingMode::ZeroPageX).0);
    }
}

/// ADC ${1:X}{0:X}
pub fn _6D(c: &mut Context, b: &mut Bus)
    requires
        old(b)@.wf(),
    ensures
        final(c)@ == spec_op_adc(old(c)@, old(b)@, AddressingMode::Absolute).0,
        final(b)@ == spec_op_adc(old(c)@, old(b)@, AddressingMode::Absolute).1,
        final(b)@.wf(),
{
    let value = c.a as u16;
    let cin: u16 = if c.p.contains(CARRY) {
        1
    } else {
        0
    };
    let operand = (om::read(c, b, AddressingMode::Absolute) as u16);
    let r = value + operand + cin;

    c.p.set(ZERO, r & 0xFF == 0);
    c.p.set(SIGN, r & 0x80 != 0);
    c.p.set(CARRY, (r >> 8) & 1 != 0);
    c.p.set(OVERFLOW, ((value ^ r) & (operand ^ r) & 0x80) != 0);

    proof {
        crate::bits::lemma_mask_bounds();
    }
    c.a = (r & 0xFF) as u8;
    proof {
        reveal(spec_op_adc);
        assert(c@ == spec_op_adc(old(c)@, old(b)@, AddressingMode::Absolute).0);
    }
}

/// ADC ${1:X}{0:X}, X
pub fn _7D(c: &mut Context, b: &mut Bus)
    requires
        old(b)@.wf(),
    ensures
        final(c)@ == spec_op_adc(old(c)@, old(b)@, AddressingMode::AbsoluteX).0,
        final(b)@ == spec_op_adc(old(c)@, old(b)@, AddressingMode::AbsoluteX).1,
        final(b)@.wf(),
{
    let value = c.a as u16;
    let cin: u16 = if c.p.contains(CARRY) {
        1
    } else {
        0
    };
    let operand = (om::read(c, b, AddressingMode::AbsoluteX) as u16);
    let r = value + operand + cin;

    c.p.set(ZERO, r & 0xFF == 0);
    c.p.set(SIGN, r & 0x80 != 0);
    c.p.set(CARRY, (r >> 8) & 1 != 0);
    c.p.set(OVERFLOW, ((value ^ r) & (operand ^ r) & 0x80) != 0);

    proof {
        crate::bits::lemma_mask_bounds();
    }
    c.a = (r & 0xFF) as u8;
    proof {
        reveal(spec_op_adc);
        assert(c@ == spec_op_adc(old(c)@, old(b)@, AddressingMode::AbsoluteX).0);
    }
}

/// ADC ${1:X}{0:X}, Y
pub fn _79(c: &mut Context, b: &mut Bus)
    requires
        old(b)@.wf(),
    ensures
        final(c)@ == spec_op_adc(old(c)@, old(b)@, AddressingMode::AbsoluteY).0,
        final(b)@ == spec_op_adc(old(c)@, old(b)@, AddressingMode::AbsoluteY).1,
        final(b)@.wf(),
{
    let value = c.a as u16;
    let cin: u16 = if c.p.contains(CARRY) {
        1
    } else {
        0
    };
    let operand = (om::read(c, b, AddressingMode::AbsoluteY) as u16);
    let r = value + operand + cin;

    c.p.set(ZERO, r & 0xFF == 0);
    c.p.set(SIGN, r & 0x80 != 0);
    c.p.set(CARRY, (r >> 8) & 1 != 0);
    c.p.set(OVERFLOW, ((value ^ r) & (operand ^ r) & 0x80) != 0);

    proof {
        crate::bits::lemma_mask_bounds();
    }
    c.a = (r & 0xFF) as u8;
    proof {
        reveal(spec_op_adc);
        assert(c@ == spec_op_adc(old(c)@, old(b)@, AddressingMode::AbsoluteY).0);
    }
}

/// ADC (${0:X}, X)
pub fn _61(c: &mut Context, b: &mut Bus)
    requires
        old(b)@.wf(),
    ensures
        final(c)@ == spec_op_adc(old(c)@, old(b)@, AddressingMode::IndexedIndirect).0,
        final(b)@ == spec_op_adc(old(c)@, old(b)@, AddressingMode::IndexedIndirect).1,
        final(b)@.wf(),
{
    let value = c.a as u16;
    let cin: u16 = if c.p.contains(CARRY) {
        1
    } else {
        0
    };
    let operand = (om::read(c, b, AddressingMode::IndexedIndirect) as u16);
    let r = value + operand + cin;

    c.p.set(ZERO, r & 0xFF == 0);
    c.p.set(SIGN, r & 0x80 != 0);
    c.p.set(CARRY, (r >> 8) & 1 != 0);
    c.p.set(OVERFLOW, ((value ^ r) & (operand ^ r) & 0x80) != 0);

    proof {
        crate::bits::lemma_mask_bounds();
    }
    c.a = (r & 0xFF) as u8;
    proof {
        reveal(spec_op_adc);
        assert(c@ == spec_op_adc(old(c)@, old(b)@, AddressingMode::IndexedIndirect).0);
    }
}

/// ADC (${0:X}), Y
pub fn _71(c: &mut Context, b: &mut Bus)
    requires
        old(b)@.wf(),
    ensures
        final(c)@ == spec_op_adc(old(c)@, old(b)@, AddressingMode::IndirectIndexed).0,
        final(b)@ == spec_op_adc(old(c)@, old(b)@, AddressingMode::IndirectIndexed).1,
        final(b)@.wf(),
{
    let value = c.a as u16;
    let cin: u16 = if c.p.contains(CARRY) {
        1
    } else {
        0
    };
    let operand = (om::read(c, b, AddressingMode::IndirectIndexed) as u16);
    let r = value + operand + cin;

    c.p.set(ZERO, r & 0xFF == 0);
    c.p.set(SIGN, r & 0x80 != 0);
    c.p.set(CARRY, (r >> 8) & 1 != 0);
    c.p.set(OVERFLOW, ((value ^ r) & (operand ^ r) & 0x80) != 0);

    proof {
        crate::bits::lemma_mask_bounds();
    }
    c.a = (r & 0xFF) as u8;
    proof {
        reveal(spec_op_adc);
        assert(c@ == spec_op_adc(old(c)@, old(b)@, AddressingMode::IndirectIndexed).0);
    }
}

/// SBC #${0:X}
pub fn _E9(c: &mut Context, b: &mut Bus)
    requires
        old(b)@.wf(),
    ensures
        final(c)@ == spec_op_sbc(old(c)@, old(b)@, AddressingMode::Immediate).0,
        final(b)@ == spec_op_sbc(old(c)@, old(b)@, AddressingMode::Immediate).1,
        final(b)@.wf(),
{
    let value = c.a as u16;
    let cin: u16 = if c.p.contains(CARRY) {
        1
    } else {
        0
    };
    let operand = (om::read(c, b, AddressingMode::Immediate) as u16) ^ 0xFF;
    proof {
        crate::bits::lemma_mask_bounds();
    }
    let r = value + operand + cin;

    c.p.set(ZERO, r & 0xFF == 0);
    c.p.set(SIGN, r & 0x80 != 0);
    c.p.set(CARRY, (r >> 8) & 1 != 0);
    c.p.set(OVERFLOW, ((value ^ r) & (operand ^ r) & 0x80) != 0);

    proof {
        crate::bits::lemma_mask_bounds();
    }
    c.a = (r & 0xFF) as u8;
    proof {
        reveal(spec_op_sbc);
        assert(c@ == spec_op_sbc(old(c)@, old(b)@, AddressingMode::Immediate).0);
    }
}

/// SBC ${0:X}
pub fn _E5(c: &mut Context, b: &mut Bus)
    requires
        old(b)@.wf(),
    ensures
        final(c)@ == spec_op_sbc(old(c)@, old(b)@, AddressingMode::ZeroPage).0,
        final(b)@ == spec_op_sbc(old(c)@, old(b)@, AddressingMode::ZeroPage).1,
        final(b)@.wf(),
{
    let value = c.a as u16;
    let cin: u16 = if c.p.contains(CARRY) {
        1
    } else {
        0
    };
    let operand = (om::read(c, b, AddressingMode::ZeroPage) as u16) ^ 0xFF;
    proof {
        crate::bits::lemma_mask_bounds();
    }
    let r = value + operand + cin;

    c.p.set(ZERO, r & 0xFF == 0);
    c.p.set(SIGN, r & 0x80 != 0);
    c.p.set(CARRY, (r >> 8) & 1 != 0);
    c.p.set(OVERFLOW, ((value ^ r) & (operand ^ r) & 0x80) != 0);

    proof {
        crate::bits::lemma_mask_bounds();
    }
    c.a = (r & 0xFF) as u8;
    proof {
        reveal(spec_op_sbc);
        assert(c@ == spec_op_sbc(old(c)@, old(b)@, AddressingMode::ZeroPage).0);
    }
}

/// SBC ${0:X}, X
pub fn _F5(c: &mut Context, b: &mut Bus)
    requires
        old(b)@.wf(),
    ensures
        final(c)@ == spec_op_sbc(old(c)@, old(b)@, AddressingMode::ZeroPageX).0,
        final(b)@ == spec_op_sbc(old(c)@, old(b)@, AddressingMode::ZeroPageX).1,
        final(b)@.wf(),
{
    let value = c.a as u16;
    let cin: u16 = if c.p.contains(CARRY) {
        1
    } else {
        0
    };
    let operand = (om::read(c, b, AddressingMode::ZeroPageX) as u16) ^ 0xFF;
    proof {
        crate::bits::lemma_mask_bounds();
    }
    let r = value + operand + cin;

    c.p.set(ZERO, r & 0xFF == 0);
    c.p.set(SIGN, r & 0x80 != 0);
    c.p.set(CARRY, (r >> 8) & 1 != 0);
    c.p.set(OVERFLOW, ((value ^ r) & (operand ^ r) & 0x80) != 0);

    proof {
        crate::bits::lemma_mask_bounds();
    }
    c.a = (r & 0xFF) as u8;
    proof {
        reveal(spec_op_sbc);
        assert(c@ == spec_op_sbc(old(c)@, old(b)@, AddressingMode::ZeroPageX).0);
    }
}

/// SBC ${1:X}{0:X}
pub fn _ED(c: &mut Context, b: &mut Bus)
    requires
        old(b)@.wf(),
    ensures
        final(c)@ == spec_op_sbc(old(c)@, old(b)@, AddressingMode::Absolute).0,
        final(b)@ == spec_op_sbc(old(c)@, old(b)@, AddressingMode::Absolute).1,
        final(b)@.wf(),
{
    let value = c.a as u16;
    let cin: u16 = if c.p.contains(CARRY) {
        1
    } else {
        0
    };
    let operand = (om::read(c, b, AddressingMode::Absolute) as u16) ^ 0xFF;
    proof {
        crate::bits::lemma_mask_bounds();
    }
    let r = value + operand + cin;

    c.p.set(ZERO, r & 0xFF == 0);
    c.p.set(SIGN, r & 0x80 != 0);
    c.p.set(CARRY, (r >> 8) & 1 != 0);
    c.p.set(OVERFLOW, ((value ^ r) & (operand ^ r) & 0x80) != 0);

    proof {
        crate::bits::lemma_mask_bounds();
    }
    c.a = (r & 0xFF) as u8;
    proof {
        reveal(spec_op_sbc);
        assert(c@ == spec_op_sbc(old(c)@, old(b)@, AddressingMode::Absolute).0);
    }
}

/// SBC ${1:X}{0:X}, X
pub fn _FD(c: &mut Context, b: &mut Bus)
    requires
        old(b)@.wf(),
    ensures
        final(c)@ == spec_op_sbc(old(c)@, old(b)@, AddressingMode::AbsoluteX).0,
        final(b)@ == spec_op_sbc(old(c)@, old(b)@, AddressingMode::AbsoluteX).1,
        final(b)@.wf(),
{
    let value = c.a as u16;
    let cin: u16 = if c.p.contains(CARRY) {
        1
    } else {
        0
    };
    let operand = (om::read(c, b, AddressingMode::AbsoluteX) as u16) ^ 0xFF;
    proof {
        crate::bits::lemma_mask_bounds();
    }
    let r = value + operand + cin;

    c.p.set(ZERO, r & 0xFF == 0);
    c.p.set(SIGN, r & 0x80 != 0);
    c.p.set(CARRY, (r >> 8) & 1 != 0);
    c.p.set(OVERFLOW, ((value ^ r) & (operand ^ r) & 0x80) != 0);

    proof {
        crate::bits::lemma_mask_bounds();
    }
    c.a = (r & 0xFF) as u8;
    proof {
        reveal(spec_op_sbc);
        assert(c@ == spec_op_sbc(old(c)@, old(b)@, AddressingMode::AbsoluteX).0);
    }
}

/// SBC ${1:X}{0:X}, Y
pub fn _F9(c: &mut Context, b: &mut Bus)
    requires
        old(b)@.wf(),
    ensures
        final(c)@ == spec_op_sbc(old(c)@, old(b)@, AddressingMode::AbsoluteY).0,
        final(b)@ == spec_op_sbc(old(c)@, old(b)@, AddressingMode::AbsoluteY).1,
        final(b)@.wf(),
{
    let value = c.a as u16;
    let cin: u16 = if c.p.contains(CARRY) {
        1
    } else {
        0
    };
    let operand = (om::read(c, b, AddressingMode::AbsoluteY) as u16) ^ 0xFF;
    proof {
        crate::bits::lemma_mask_bounds();
    }
    let r = value + operand + cin;

    c.p.set(ZERO, r & 0xFF == 0);
    c.p.set(SIGN, r & 0x80 != 0);
    c.p.set(CARRY, (r >> 8) & 1 != 0);
    c.p.set(OVERFLOW, ((value ^ r) & (operand ^ r) & 0x80) != 0);

    proof {
        crate::bits::lemma_mask_bounds();
    }
    c.a = (r & 0xFF) as u8;
    proof {
        reveal(spec_op_sbc);
        assert(c@ == spec_op_sbc(old(c)@, old(b)@, AddressingMode::AbsoluteY).0);
    }
}

/// SBC (${0:X}, X)
pub fn _E1(c: &mut Context, b: &mut Bus)
    requires
        old(b)@.wf(),
    ensures
        final(c)@ == spec_op_sbc(old(c)@, old(b)@, AddressingMode::IndexedIndirect).0,
        final(b)@ == spec_op_sbc(old(c)@, old(b)@, AddressingMode::IndexedIndirect).1,
        final(b)@.wf(),
{
    let value = c.a as u16;
    let cin: u16 = if c.p.contains(CARRY) {
        1
    } else {
        0
    };
    let operand = (om::read(c, b, AddressingMode::IndexedIndirect) as u16) ^ 0xFF;
    proof {
        crate::bits::lemma_mask_bounds();
    }
    let r = value + operand + cin;

    c.p.set(ZERO, r & 0xFF == 0);
    c.p.set(SIGN, r & 0x80 != 0);
    c.p.set(CARRY, (r >> 8) & 1 != 0);
    c.p.set(OVERFLOW, ((value ^ r) & (operand ^ r) & 0x80) != 0);

    proof {
        crate::bits::lemma_mask_bounds();
    }
    c.a = (r & 0xFF) as u8;
    proof {
        reveal(spec_op_sbc);
        assert(c@ == spec_op_sbc(old(c)@, old(b)@, AddressingMode::IndexedIndirect).0);
    }
}

/// SBC (${0:X}), Y
pub fn _F1(c: &mut Context, b: &mut Bus)
    requires
        old(b)@.wf(),
    ensures
        final(c)@ == spec_op_sbc(old(c)@, old(b)@, AddressingMode::IndirectIndexed).0,
        final(b)@ == spec_op_sbc(old(c)@, old(b)@, AddressingMode::IndirectIndexed).1,
        final(b)@.wf(),
{
    let value = c.a as u16;
    let cin: u16 = if c.p.contains(CARRY) {
        1
    } else {
        0
    };
    let operand = (om::read(c, b, AddressingMode::IndirectIndexed) as u16) ^ 0xFF;
    proof {
        crate::bits::lemma_mask_bounds();
    }
    let r = value + operand + cin;

    c.p.set(ZERO, r & 0xFF == 0);
    c.p.set(SIGN, r & 0x80 != 0);
    c.p.set(CARRY, (r >> 8) & 1 != 0);
    c.p.set(OVERFLOW, ((value ^ r) & (operand ^ r) & 0x80) != 0);

    proof {
        crate::bits::lemma_mask_bounds();
    }
    c.a = (r & 0xFF) as u8;
    proof {
        reveal(spec_op_sbc);
        assert(c@ == spec_op_sbc(old(c)@, old(b)@, AddressingMode::IndirectIndexed).0);
    }
}

/// CMP #${0:X}
pub fn _C9(c: &mut Context, b: &mut Bus)
    requires
        old(b)@.wf(),
    ensures
        final(c)@ == spec_op_compare(old(c)@, old(b)@, AddressingMode::Immediate, Reg::A).0,
        final(b)@ == spec_op_compare(old(c)@, old(b)@, AddressingMode::Immediate, Reg::A).1,
        final(b)@.wf(),
{
    let value = c.a;
    let operand = om::read(c, b, AddressingMode::Immediate);
    let r = wsub8(value, operand);

    c.p.set(CARRY, value >= operand);
    c.p.set(ZERO, value == operand);
    c.p.set(SIGN, r & 0x80 != 0);
    proof {
        reveal(spec_op_compare);
        assert(c@ == spec_op_compare(old(c)@, old(b)@, AddressingMode::Immediate, Reg::A).0);
    }
}

/// CMP ${0:X}
pub fn _C5(c: &mut Context, b: &mut Bus)
    requires
        old(b)@.wf(),
    ensures
        final(c)@ == spec_op_compare(old(c)@, old(b)@, AddressingMode::ZeroPage, Reg::A).0,
        final(b)@ == spec_op_compare(old(c)@, old(b)@, AddressingMode::ZeroPage, Reg::A).1,
        final(b)@.wf(),
{
    let value = c.a;
    let operand = om::read(c, b, AddressingMode::ZeroPage);
    let r = wsub8(value, operand);

    c.p.set(CARRY, value >= operand);
    c.p.set(ZERO, value == operand);
    c.p.set(SIGN, r & 0x80 != 0);
    proof {
        reveal(spec_op_compare);
        assert(c@ == spec_op_compare(old(c)@, old(b)@, AddressingMode::ZeroPage, Reg::A).0);
    }
}

/// CMP ${0:X}, X
pub fn _D5(c: &mut Context, b: &mut Bus)
    requires
        old(b)@.wf(),
    ensures
        final(c)@ == spec_op_compare(old(c)@, old(b)@, AddressingMode::ZeroPageX, Reg::A).0,
        final(b)@ == spec_op_compare(old(c)@, old(b)@, AddressingMode::ZeroPageX, Reg::A).1,
        final(b)@.wf(),
{
    let value = c.a;
    let operand = om::read(c, b, AddressingMode::ZeroPageX);
    let r = wsub8(value, operand);

    c.p.set(CARRY, value >= operand);
    c.p.set(ZERO, value == operand);
    c.p.set(SIGN, r & 0x80 != 0);
    proof {
        reveal(spec_op_compare);
        assert(c@ == spec_op_compare(old(c)@, old(b)@, AddressingMode::ZeroPageX, Reg::A).0);
    }
}

/// CMP ${1:X}{0:X}
pub fn _CD(c: &mut Context, b: &mut Bus)
    requires
        old(b)@.wf(),
    ensures
        final(c)@ == spec_op_compare(old(c)@, old(b)@, AddressingMode::Absolute, Reg::A).0,
        final(b)@ == spec_op_compare(old(c)@, old(b)@, AddressingMode::Absolute, Reg::A).1,
        final(b)@.wf(),
{
    let value = c.a;
    let operand = om::read(c, b, AddressingMode::Absolute);
    let r = wsub8(value, operand);

    c.p.set(CARRY, value >= operand);
    c.p.set(ZERO, value == operand);
    c.p.set(SIGN, r & 0x80 != 0);
    proof {
        reveal(spec_op_compare);
        assert(c@ == spec_op_compare(old(c)@, old(b)@, AddressingMode::Absolute, Reg::A).0);
    }
}

/// CMP ${1:X}{0:X}, X
pub fn _DD(c: &mut Context, b: &mut Bus)
    requires
        old(b)@.wf(),
    ensures
        final(c)@ == spec_op_compare(old(c)@, old(b)@, AddressingMode::AbsoluteX, Reg::A).0,
        final(b)@ == spec_op_compare(old(c)@, old(b)@, AddressingMode::AbsoluteX, Reg::A).1,
        final(b)@.wf(),
{
    let value = c.a;
    let operand = om::read(c, b, AddressingMode::AbsoluteX);
    let r = wsub8(value, operand);

    c.p.set(CARRY, value >= operand);
    c.p.set(ZERO, value == operand);
    c.p.set(SIGN, r & 0x80 != 0);
    proof {
        reveal(spec_op_compare);
        assert(c@ == spec_op_compare(old(c)@, old(b)@, AddressingMode::AbsoluteX, Reg::A).0);
    }
}

/// CMP ${1:X}{0:X}, Y
pub fn _D9(c: &mut Context, b: &mut Bus)
    requires
        old(b)@.wf(),
    ensures
        final(c)@ == spec_op_compare(old(c)@, old(b)@, AddressingMode::AbsoluteY, Reg::A).0,
        final(b)@ == spec_op_compare(old(c)@, old(b)@, AddressingMode::AbsoluteY, Reg::A).1,
        final(b)@.wf(),
{
    let value = c.a;
    let operand = om::read(c, b, AddressingMode::AbsoluteY);
    let r = wsub8(value, operand);

    c.p.set(CARRY, value >= operand);
    c.p.set(ZERO, value == operand);
    c.p.set(SIGN, r & 0x80 != 0);
    proof {
        reveal(spec_op_compare);
        assert(c@ == spec_op_compare(old(c)@, old(b)@, AddressingMode::AbsoluteY, Reg::A).0);
    }
}

/// CMP (${0:X}, X)
pub fn _C1(c: &mut Context, b: &mut Bus)
    requires
        old(b)@.wf(),
    ensures
        final(c)@ == spec_op_compare(old(c)@, old(b)@, AddressingMode::IndexedIndirect, Reg::A).0,
        final(b)@ == spec_op_compare(old(c)@, old(b)@, AddressingMode::IndexedIndirect, Reg::A).1,
        final(b)@.wf(),
{
    let value = c.a;
    let operand = om::read(c, b, AddressingMode::IndexedIndirect);
    let r = wsub8(value, operand);

    c.p.set(CARRY, value >= operand);
    c.p.set(ZERO, value == operand);
    c.p.set(SIGN, r & 0x80 != 0);
    proof {
        reveal(spec_op_compare);
        assert(c@ == spec_op_compare(old(c)@, old(b)@, AddressingMode::IndexedIndirect, Reg::A).0);
    }
}

/// CMP (${0:X}), Y
pub fn _D1(c: &mut Context, b: &mut Bus)
    requires
        old(b)@.wf(),
    ensures
        final(c)@ == spec_op_compare(old(c)@, old(b)@, AddressingMode::IndirectIndexed, Reg::A).0,
        final(b)@ == spec_op_compare(old(c)@, old(b)@, AddressingMode::IndirectIndexed, Reg::A).1,
        final(b)@.wf(),
{
    let value = c.a;
    let operand = om::read(c, b, AddressingMode::IndirectIndexed);
    let r = wsub8(value, operand);

    c.p.set(CARRY, value >= operand);
    c.p.set(ZERO, value == operand);
    c.p.set(SIGN, r & 0x80 != 0);
    proof {
        reveal(spec_op_compare);
        assert(c@ == spec_op_compare(old(c)@, old(b)@, AddressingMode::IndirectIndexed, Reg::A).0);
    }
}

/// CPX #${0:X}
pub fn _E0(c: &mut Context, b: &mut Bus)
    requires
        old(b)@.wf(),
    ensures
        final(c)@ == spec_op_compare(old(c)@, old(b)@, AddressingMode::Immediate, Reg::X).0,
        final(b)@ == spec_op_compare(old(c)@, old(b)@, AddressingMode::Immediate, Reg::X).1,
        final(b)@.wf(),
{
    let value = c.x;
    let operand = om::read(c, b, AddressingMode::Immediate);
    let r = wsub8(value, operand);

    c.p.set(CARRY, value >= operand);
    c.p.set(ZERO, value == operand);
    c.p.set(SIGN, r & 0x80 != 0);
    proof {
        reveal(spec_op_compare);
        assert(c@ == spec_op_compare(old(c)@, old(b)@, AddressingMode::Immediate, Reg::X).0);
    }
}

/// CPX ${0:X}
pub fn _E4(c: &mut Context, b: &mut Bus)
    requires
        old(b)@.wf(),
    ensures
        final(c)@ == spec_op_compare(old(c)@, old(b)@, AddressingMode::ZeroPage, Reg::X).0,
        final(b)@ == spec_op_compare(old(c)@, old(b)@, AddressingMode::ZeroPage, Reg::X).1,
        final(b)@.wf(),
{
    let value = c.x;
    let operand = om::read(c, b, AddressingMode::ZeroPage);
    let r = wsub8(value, operand);

    c.p.set(CARRY, value >= operand);
    c.p.set(ZERO, value == operand);
    c.p.set(SIGN, r & 0x80 != 0);
    proof {
        reveal(spec_op_compare);
        assert(c@ == spec_op_compare(old(c)@, old(b)@, AddressingMode::ZeroPage, Reg::X).0);
    }
}

/// CPX ${1:X}{0:X}
pub fn _EC(c: &mut Context, b: &mut Bus)
    requires
        old(b)@.wf(),
    ensures
        final(c)@ == spec_op_compare(old(c)@, old(b)@, AddressingMode::Absolute, Reg::X).0,
        final(b)@ == spec_op_compare(old(c)@, old(b)@, AddressingMode::Absolute, Reg::X).1,
        final(b)@.wf(),
{
    let value = c.x;
    let operand = om::read(c, b, AddressingMode::Absolute);
    let r = wsub8(value, operand);

    c.p.set(CARRY, value >= operand);
    c.p.set(ZERO, value == operand);
    c.p.set(SIGN, r & 0x80 != 0);
    proof {
        reveal(spec_op_compare);
        assert(c@ == spec_op_compare(old(c)@, old(b)@, AddressingMode::Absolute, Reg::X).0);
    }
}

/// CPY #${0:X}
pub fn _C0(c: &mut Context, b: &mut Bus)
    requires
        old(b)@.wf(),
    ensures
        final(c)@ == spec_op_compare(old(c)@, old(b)@, AddressingMode::Immediate, Reg::Y).0,
        final(b)@ == spec_op_compare(old(c)@, old(b)@, AddressingMode::Immediate, Reg::Y).1,
        final(b)@.wf(),
{
    let value = c.y;
    let operand = om::read(c, b, AddressingMode::Immediate);
    let r = wsub8(value, operand);

    c.p.set(CARRY, value >= operand);
    c.p.set(ZERO, value == operand);
    c.p.set(SIGN, r & 0x80 != 0);
    proof {
        reveal(spec_op_compare);
        assert(c@ == spec_op_compare(old(c)@, old(b)@, AddressingMode::Immediate, Reg::Y).0);
    }
}

/// CPY ${0:X}
pub fn _C4(c: &mut Context, b: &mut Bus)
    requires
        old(b)@.wf(),
    ensures
        final(c)@ == spec_op_compare(old(c)@, old(b)@, AddressingMode::ZeroPage, Reg::Y).0,
        final(b)@ == spec_op_compare(old(c)@, old(b)@, AddressingMode::ZeroPage, Reg::Y).1,
        final(b)@.wf(),
{
    let value = c.y;
    let operand = om::read(c, b, AddressingMode::ZeroPage);
    let r = wsub8(value, operand);

    c.p.set(CARRY, value >= operand);
    c.p.set(ZERO, value == operand);
    c.p.set(SIGN, r & 0x80 != 0);
    proof {
        reveal(spec_op_compare);
        assert(c@ == spec_op_compare(old(c)@, old(b)@, AddressingMode::ZeroPage, Reg::Y).0);
    }
}

/// CPY ${1:X}{0:X}
pub fn _CC(c: &mut Context, b: &mut Bus)
    requires
        old(b)@.wf(),
    ensures
        final(c)@ == spec_op_compare(old(c)@, old(b)@, AddressingMode::Absolute, Reg::Y).0,
        final(b)@ == spec_op_compare(old(c)@, old(b)@, AddressingMode::Absolute, Reg::Y).1,
        final(b)@.wf(),
{
    let value = c.y;
    let operand = om::read(c, b, AddressingMode::Absolute);
    let r = wsub8(value, operand);

    c.p.set(CARRY, value >= operand);
    c.p.set(ZERO, value == operand);
    c.p.set(SIGN, r & 0x80 != 0);
    proof {
        reveal(spec_op_compare);
        assert(c@ == spec_op_compare(old(c)@, old(b)@, AddressingMode::Absolute, Reg::Y).0);
    }
}

/// INC ${0:X}
pub fn _E6(c: &mut Context, b: &mut Bus)
    requires
        old(b)@.wf(),
    ensures
        final(c)@ == spec_om_modify(old(c)@, old(b)@, AddressingMode::ZeroPage, ModifyOp::Inc).0,
        final(b)@ == spec_om_modify(old(c)@, old(b)@, AddressingMode::ZeroPage, ModifyOp::Inc).1,
        final(b)@.wf(),
{
    om::modify(c, b, AddressingMode::ZeroPage, ModifyOp::Inc);
}

/// INC ${0:X}, X
pub fn _F6(c: &mut Context, b: &mut Bus)
    requires
        old(b)@.wf(),
    ensures
        final(c)@ == spec_om_modify(old(c)@, old(b)@, AddressingMode::ZeroPageX, ModifyOp::Inc).0,
        final(b)@ == spec_om_modify(old(c)@, old(b)@, AddressingMode::ZeroPageX, ModifyOp::Inc).1,
        final(b)@.wf(),
{
    om::modify(c, b, AddressingMode::ZeroPageX, ModifyOp::Inc);
}

/// INC ${1:X}{0:X}
pub fn _EE(c: &mut Context, b: &mut Bus)
    requires
        old(b)@.wf(),
    ensures
        final(c)@ == spec_om_modify(old(c)@, old(b)@, AddressingMode::Absolute, ModifyOp::Inc).0,
        final(b)@ == spec_om_modify(old(c)@, old(b)@, AddressingMode::Absolute, ModifyOp::Inc).1,
        final(b)@.wf(),
{
    om::modify(c, b, AddressingMode::Absolute, ModifyOp::Inc);
}

/// INC ${1:X}{0:X}, X
pub fn _FE(c: &mut Context, b: &mut Bus)
    requires
        old(b)@.wf(),
    ensures
        final(c)@ == spec_om_modify(old(c)@, old(b)@, AddressingMode::AbsoluteX, ModifyOp::Inc).0,
        final(b)@ == spec_om_modify(old(c)@, old(b)@, AddressingMode::AbsoluteX, ModifyOp::Inc).1,
        final(b)@.wf(),
{
    om::modify(c, b, AddressingMode::AbsoluteX, ModifyOp::Inc);
}

/// DEC ${0:X}
pub fn _C6(c: &mut Context, b: &mut Bus)
    requires
        old(b)@.wf(),
    ensures
        final(c)@ == spec_om_modify(old(c)@, old(b)@, AddressingMode::ZeroPage, ModifyOp::Dec).0,
        final(b)@ == spec_om_modify(old(c)@, old(b)@, AddressingMode::ZeroPage, ModifyOp::Dec).1,
        final(b)@.wf(),
{
    om::modify(c, b, AddressingMode::ZeroPage, ModifyOp::Dec);
}

/// DEC ${0:X}, X
pub fn _D6(c: &mut Context, b: &mut Bus)
    requires
        old(b)@.wf(),
    ensures
        final(c)@ == spec_om_modify(old(c)@, old(b)@, AddressingMode::ZeroPageX, ModifyOp::Dec).0,
        final(b)@ == spec_om_modify(old(c)@, old(b)@, AddressingMode::ZeroPageX, ModifyOp::Dec).1,
        final(b)@.wf(),
{
    om::modify(c, b, AddressingMode::ZeroPageX, ModifyOp::Dec);
}

/// DEC ${1:X}{0:X}
pub fn _CE(c: &mut Context, b: &mut Bus)
    requires
        old(b)@.wf(),
    ensures
        final(c)@ == spec_om_modify(old(c)@, old(b)@, AddressingMode::Absolute, ModifyOp::Dec).0,
        final(b)@ == spec_om_modify(old(c)@, old(b)@, AddressingMode::Absolute, ModifyOp::Dec).1,
        final(b)@.wf(),
{
    om::modify(c, b, AddressingMode::Absolute, ModifyOp::Dec);
}

/// DEC ${1:X}{0:X}, X
pub fn _DE(c: &mut Context, b: &mut Bus)
    requires
        old(b)@.wf(),
    ensures
        final(c)@ == spec_om_modify(old(c)@, old(b)@, AddressingMode::AbsoluteX, ModifyOp::Dec).0,
        final(b)@ == spec_om_modify(old(c)@, old(b)@, AddressingMode::AbsoluteX, ModifyOp::Dec).1,
        final(b)@.wf(),
{
    om::modify(c, b, AddressingMode::AbsoluteX, ModifyOp::Dec);
}

/// ORA #${0:X}
pub fn _09(c: &mut Context, b: &mut Bus)
    requires
        old(b)@.wf(),
    ensures
        final(c)@ == spec_op_ora(old(c)@, old(b)@, AddressingMode::Immediate).0,
        final(b)@ == spec_op_ora(old(c)@, old(b)@, AddressingMode::Immediate).1,
        final(b)@.wf(),
{
    let value = c.a as u16;
    let operand = om::read(c, b, AddressingMode::Immediate) as u16;
    let r = value | operand;

    c.p.set(ZERO, r == 0);
    c.p.set(SIGN, r & 0x80 != 0);

    proof {
        crate::bits::lemma_mask_bounds();
    }
    c.a = (r & 0xFF) as u8;
    proof {
        reveal(spec_op_ora);
        assert(c@ == spec_op_ora(old(c)@, old(b)@, AddressingMode::Immediate).0);
    }
}

/// ORA ${0:X}
pub fn _05(c: &mut Context, b: &mut Bus)
    requires
        old(b)@.wf(),
    ensures
        final(c)@ == spec_op_ora(old(c)@, old(b)@, AddressingMode::ZeroPage).0,
        final(b)@ == spec_op_ora(old(c)@, old(b)@, AddressingMode::ZeroPage).1,
        final(b)@.wf(),
{
    let value = c.a as u16;
    let operand = om::read(c, b, AddressingMode::ZeroPage) as u16;
    let r = value | operand;

    c.p.set(ZERO, r == 0);
    c.p.set(SIGN, r & 0x80 != 0);

    proof {
        crate::bits::lemma_mask_bounds();
    }
    c.a = (r & 0xFF) as u8;
    proof {
        reveal(spec_op_ora);
        assert(c@ == spec_op_ora(old(c)@, old(b)@, AddressingMode::ZeroPage).0);
    }
}

/// ORA ${0:X}, X
pub fn _15(c: &mut Context, b: &mut Bus)
    requires
        old(b)@.wf(),
    ensures
        final(c)@ == spec_op_ora(old(c)@, old(b)@, AddressingMode::ZeroPageX).0,
        final(b)@ == spec_op_ora(old(c)@, old(b)@, AddressingMode::ZeroPageX).1,
        final(b)@.wf(),
{
    let value = c.a as u16;
    let operand = om::read(c, b, AddressingMode::ZeroPageX) as u16;
    let r = value | operand;

    c.p.set(ZERO, r == 0);
    c.p.set(SIGN, r & 0x80 != 0);

    proof {
        crate::bits::lemma_mask_bounds();
    }
    c.a = (r & 0xFF) as u8;
    proof {
        reveal(spec_op_ora);
        assert(c@ == spec_op_ora(old(c)@, old(b)@, AddressingMode::ZeroPageX).0);
    }
}

/// ORA ${1:X}{0:X}
pub fn _0D(c: &mut Context, b: &mut Bus)
    requires
        old(b)@.wf(),
    ensures
        final(c)@ == spec_op_ora(old(c)@, old(b)@, AddressingMode::Absolute).0,
        final(b)@ == spec_op_ora(old(c)@, old(b)@, AddressingMode::Absolute).1,
        final(b)@.wf(),
{
    let value = c.a as u16;
    let operand = om::read(c, b, AddressingMode::Absolute) as u16;
    let r = value | operand;

    c.p.set(ZERO, r == 0);
    c.p.set(SIGN, r & 0x80 != 0);

    proof {
        crate::bits::lemma_mask_bounds();
    }
    c.a = (r & 0xFF) as u8;
    proof {
        reveal(spec_op_ora);
        assert(c@ == spec_op_ora(old(c)@, old(b)@, AddressingMode::Absolute).0);
    }
}

/// ORA ${1:X}{0:X}, X
pub fn _1D(c: &mut Context, b: &mut Bus)
    requires
        old(b)@.wf(),
    ensures
        final(c)@ == spec_op_ora(old(c)@, old(b)@, AddressingMode::AbsoluteX).0,
        final(b)@ == spec_op_ora(old(c)@, old(b)@, AddressingMode::AbsoluteX).1,
        final(b)@.wf(),
{
    let value = c.a as u16;
    let operand = om::read(c, b, AddressingMode::AbsoluteX) as u16;
    let r = value | operand;

    c.p.set(ZERO, r == 0);
    c.p.set(SIGN, r & 0x80 != 0);

    proof {
        crate::bits::lemma_mask_bounds();
    }
    c.a = (r & 0xFF) as u8;
    proof {
        reveal(spec_op_ora);
        assert(c@ == spec_op_ora(old(c)@, old(b)@, AddressingMode::AbsoluteX).0);
    }
}

/// ORA ${1:X}{0:X}, Y
pub fn _19(c: &mut Context, b: &mut Bus)
    requires
        old(b)@.wf(),
    ensures
        final(c)@ == spec_op_ora(old(c)@, old(b)@, AddressingMode::AbsoluteY).0,
        final(b)@ == spec_op_ora(old(c)@, old(b)@, AddressingMode::AbsoluteY).1,
        final(b)@.wf(),
{
    let value = c.a as u16;
    let operand = om::read(c, b, AddressingMode::AbsoluteY) as u16;
    let r = value | operand;

    c.p.set(ZERO, r == 0);
    c.p.set(SIGN, r & 0x80 != 0);

    proof {
        crate::bits::lemma_mask_bounds();
    }
    c.a = (r & 0xFF) as u8;
    proof {
        reveal(spec_op_ora);
        assert(c@ == spec_op_ora(old(c)@, old(b)@, AddressingMode::AbsoluteY).0);
    }
}

/// ORA (${0:X}, X)
pub fn _01(c: &mut Context, b: &mut Bus)
    requires
        old(b)@.wf(),
    ensures
        final(c)@ == spec_op_ora(old(c)@, old(b)@, AddressingMode::IndexedIndirect).0,
        final(b)@ == spec_op_ora(old(c)@, old(b)@, AddressingMode::IndexedIndirect).1,
        final(b)@.wf(),
{
    let value = c.a as u16;
    let operand = om::read(c, b, AddressingMode::IndexedIndirect) as u16;
    let r = value | operand;

    c.p.set(ZERO, r == 0);
    c.p.set(SIGN, r & 0x80 != 0);

    proof {
        crate::bits::lemma_mask_bounds();
    }
    c.a = (r & 0xFF) as u8;
    proof {
        reveal(spec_op_ora);
        assert(c@ == spec_op_ora(old(c)@, old(b)@, AddressingMode::IndexedIndirect).0);
    }
}

/// ORA (${0:X}), Y
pub fn _11(c: &mut Context, b: &mut Bus)
    requires
        old(b)@.wf(),
    ensures
        final(c)@ == spec_op_ora(old(c)@, old(b)@, AddressingMode::IndirectIndexed).0,
        final(b)@ == spec_op_ora(old(c)@, old(b)@, AddressingMode::IndirectIndexed).1,
        final(b)@.wf(),
{
    let value = c.a as u16;
    let operand = om::read(c, b, AddressingMode::IndirectIndexed) as u16;
    let r = value | operand;

    c.p.set(ZERO, r == 0);
    c.p.set(SIGN, r & 0x80 != 0);

    proof {
        crate::bits::lemma_mask_bounds();
    }
    c.a = (r & 0xFF) as u8;
    proof {
        reveal(spec_op_ora);
        assert(c@ == spec_op_ora(old(c)@, old(b)@, AddressingMode::IndirectIndexed).0);
    }
}

/// AND #${0:X}
pub fn _29(c: &mut Context, b: &mut Bus)
    requires
        old(b)@.wf(),
    ensures
        final(c)@ == spec_op_and(old(c)@, old(b)@, AddressingMode::Immediate).0,
        final(b)@ == spec_op_and(old(c)@, old(b)@, AddressingMode::Immediate).1,
        final(b)@.wf(),
{
    let value = c.a;
    let operand = om::read(c, b, AddressingMode::Immediate);
    let r = value & operand;

    c.p.set(ZERO, r == 0);
    c.p.set(SIGN, r & 0x80 != 0);

    c.a = r;
    proof {
        reveal(spec_op_and);
        assert(c@ == spec_op_and(old(c)@, old(b)@, AddressingMode::Immediate).0);
    }
}

/// AND ${0:X}
pub fn _25(c: &mut Context, b: &mut Bus)
    requires
        old(b)@.wf(),
    ensures
        final(c)@ == spec_op_and(old(c)@, old(b)@, AddressingMode::ZeroPage).0,
        final(b)@ == spec_op_and(old(c)@, old(b)@, AddressingMode::ZeroPage).1,
        final(b)@.wf(),
{
    let value = c.a;
    let operand = om::read(c, b, AddressingMode::ZeroPage);
    let r = value & operand;

    c.p.set(ZERO, r == 0);
    c.p.set(SIGN, r & 0x80 != 0);

    c.a = r;
    proof {
        reveal(spec_op_and);
        assert(c@ == spec_op_and(old(c)@, old(b)@, AddressingMode::ZeroPage).0);
    }
}

/// AND ${0:X}, X
pub fn _35(c: &mut Context, b: &mut Bus)
    requires
        old(b)@.wf(),
    ensures
        final(c)@ == spec_op_and(old(c)@, old(b)@, AddressingMode::ZeroPageX).0,
        final(b)@ == spec_op_and(old(c)@, old(b)@, AddressingMode::ZeroPageX).1,
        final(b)@.wf(),
{
    let value = c.a;
    let operand = om::read(c, b, AddressingMode::ZeroPageX);
    let r = value & operand;

    c.p.set(ZERO, r == 0);
    c.p.set(SIGN, r & 0x80 != 0);

    c.a = r;
    proof {
        reveal(spec_op_and);
        assert(c@ == spec_op_and(old(c)@, old(b)@, AddressingMode::ZeroPageX).0);
    }
}

/// AND ${1:X}{0:X}
pub fn _2D(c: &mut Context, b: &mut Bus)
    requires
        old(b)@.wf(),
    ensures
        final(c)@ == spec_op_and(old(c)@, old(b)@, AddressingMode::Absolute).0,
        final(b)@ == spec_op_and(old(c)@, old(b)@, AddressingMode::Absolute).1,
        final(b)@.wf(),
{
    let value = c.a;
    let operand = om::read(c, b, AddressingMode::Absolute);
    let r = value & operand;

    c.p.set(ZERO, r == 0);
    c.p.set(SIGN, r & 0x80 != 0);

    c.a = r;
    proof {
        reveal(spec_op_and);
        assert(c@ == spec_op_and(old(c)@, old(b)@, AddressingMode::Absolute).0);
    }
}

/// AND ${1:X}{0:X}, X
pub fn _3D(c: &mut Context, b: &mut Bus)
    requires
        old(b)@.wf(),
    ensures
        final(c)@ == spec_op_and(old(c)@, old(b)@, AddressingMode::AbsoluteX).0,
        final(b)@ == spec_op_and(old(c)@, old(b)@, AddressingMode::AbsoluteX).1,
        final(b)@.wf(),
{
    let value = c.a;
    let operand = om::read(c, b, AddressingMode::AbsoluteX);
    let r = value & operand;

    c.p.set(ZERO, r == 0);
    c.p.set(SIGN, r & 0x80 != 0);

    c.a = r;
    proof {
        reveal(spec_op_and);
        assert(c@ == spec_op_and(old(c)@, old(b)@, AddressingMode::AbsoluteX).0);
    }
}

/// AND ${1:X}{0:X}, Y
pub fn _39(c: &mut Context, b: &mut Bus)
    requires
        old(b)@.wf(),
    ensures
        final(c)@ == spec_op_and(old(c)@, old(b)@, AddressingMode::AbsoluteY).0,
        final(b)@ == spec_op_and(old(c)@, old(b)@, AddressingMode::AbsoluteY).1,
        final(b)@.wf(),
{
    let value = c.a;
    let operand = om::read(c, b, AddressingMode::AbsoluteY);
    let r = value & operand;

    c.p.set(ZERO, r == 0);
    c.p.set(SIGN, r & 0x80 != 0);

    c.a = r;
    proof {
        reveal(spec_op_and);
        assert(c@ == spec_op_and(old(c)@, old(b)@, AddressingMode::AbsoluteY).0);
    }
}

/// AND (${0:X}, X)
pub fn _21(c: &mut Context, b: &mut Bus)
    requires
        old(b)@.wf(),
    ensures
        final(c)@ == spec_op_and(old(c)@, old(b)@, AddressingMode::IndexedIndirect).0,
        final(b)@ == spec_op_and(old(c)@, old(b)@, AddressingMode::IndexedIndirect).1,
        final(b)@.wf(),
{
    let value = c.a;
    let operand = om::read(c, b, AddressingMode::IndexedIndirect);
    let r = value & operand;

    c.p.set(ZERO, r == 0);
    c.p.set(SIGN, r & 0x80 != 0);

    c.a = r;
    proof {
        reveal(spec_op_and);
        assert(c@ == spec_op_and(old(c)@, old(b)@, AddressingMode::IndexedIndirect).0);
    }
}

/// AND (${0:X}), Y
pub fn _31(c: &mut Context, b: &mut Bus)
    requires
        old(b)@.wf(),
    ensures
        final(c)@ == spec_op_and(old(c)@, old(b)@, AddressingMode::IndirectIndexed).0,
        final(b)@ == spec_op_and(old(c)@, old(b)@, AddressingMode::IndirectIndexed).1,
        final(b)@.wf(),
{
    let value = c.a;
    let operand = om::read(c, b, AddressingMode::IndirectIndexed);
    let r = value & operand;

    c.p.set(ZERO, r == 0);
    c.p.set(SIGN, r & 0x80 != 0);

    c.a = r;
    proof {
        reveal(spec_op_and);
        assert(c@ == spec_op_and(old(c)@, old(b)@, AddressingMode::IndirectIndexed).0);
    }
}

/// EOR #${0:X}
pub fn _49(c: &mut Context, b: &mut Bus)
    requires
        old(b)@.wf(),
    ensures
        final(c)@ == spec_op_eor(old(c)@, old(b)@, AddressingMode::Immediate).0,
        final(b)@ == spec_op_eor(old(c)@, old(b)@, AddressingMode::Immediate).1,
        final(b)@.wf(),
{
    let value = c.a;
    let operand = om::read(c, b, AddressingMode::Immediate);
    let r = value ^ operand;

    c.p.set(ZERO, r == 0);
    c.p.set(SIGN, r & 0x80 != 0);

    c.a = r;
    proof {
        reveal(spec_op_eor);
        assert(c@ == spec_op_eor(old(c)@, old(b)@, AddressingMode::Immediate).0);
    }
}

/// EOR ${0:X}
pub fn _45(c: &mut Context, b: &mut Bus)
    requires
        old(b)@.wf(),
    ensures
        final(c)@ == spec_op_eor(old(c)@, old(b)@, AddressingMode::ZeroPage).0,
        final(b)@ == spec_op_eor(old(c)@, old(b)@, AddressingMode::ZeroPage).1,
        final(b)@.wf(),
{
    let value = c.a;
    let operand = om::read(c, b, AddressingMode::ZeroPage);
    let r = value ^ operand;

    c.p.set(ZERO, r == 0);
    c.p.set(SIGN, r & 0x80 != 0);

    c.a = r;
    proof {
        reveal(spec_op_eor);
        assert(c@ == spec_op_eor(old(c)@, old(b)@, AddressingMode::ZeroPage).0);
    }
}

/// EOR ${0:X}, X
pub fn _55(c: &mut Context, b: &mut Bus)
    requires
        old(b)@.wf(),
    ensures
        final(c)@ == spec_op_eor(old(c)@, old(b)@, AddressingMode::ZeroPageX).0,
        final(b)@ == spec_op_eor(old(c)@, old(b)@, AddressingMode::ZeroPageX).1,
        final(b)@.wf(),
{
    let value = c.a;
    let operand = om::read(c, b, AddressingMode::ZeroPageX);
    let r = value ^ operand;

    c.p.set(ZERO, r == 0);
    c.p.set(SIGN, r & 0x80 != 0);

    c.a = r;
    proof {
        reveal(spec_op_eor);
        assert(c@ == spec_op_eor(old(c)@, old(b)@, AddressingMode::ZeroPageX).0);
    }
}

/// EOR ${1:X}{0:X}
pub fn _4D(c: &mut Context, b: &mut Bus)
    requires
        old(b)@.wf(),
    ensures
        final(c)@ == spec_op_eor(old(c)@, old(b)@, AddressingMode::Absolute).0,
        final(b)@ == spec_op_eor(old(c)@, old(b)@, AddressingMode::Absolute).1,
        final(b)@.wf(),
{
    let value = c.a;
    let operand = om::read(c, b, AddressingMode::Absolute);
    let r = value ^ operand;

    c.p.set(ZERO, r == 0);
    c.p.set(SIGN, r & 0x80 != 0);

    c.a = r;
    proof {
        reveal(spec_op_eor);
        assert(c@ == spec_op_eor(old(c)@, old(b)@, AddressingMode::Absolute).0);
    }
}

/// EOR ${1:X}{0:X}, X
pub fn _5D(c: &mut Context, b: &mut Bus)
    requires
        old(b)@.wf(),
    ensures
        final(c)@ == spec_op_eor(old(c)@, old(b)@, AddressingMode::AbsoluteX).0,
        final(b)@ == spec_op_eor(old(c)@, old(b)@, AddressingMode::AbsoluteX).1,
        final(b)@.wf(),
{
    let value = c.a;
    let operand = om::read(c, b, AddressingMode::AbsoluteX);
    let r = value ^ operand;

    c.p.set(ZERO, r == 0);
    c.p.set(SIGN, r & 0x80 != 0);

    c.a = r;
    proof {
        reveal(spec_op_eor);
        assert(c@ == spec_op_eor(old(c)@, old(b)@, AddressingMode::AbsoluteX).0);
    }
}

/// EOR ${1:X}{0:X}, Y
pub fn _59(c: &mut Context, b: &mut Bus)
    requires
        old(b)@.wf(),
    ensures
        final(c)@ == spec_op_eor(old(c)@, old(b)@, AddressingMode::AbsoluteY).0,
        final(b)@ == spec_op_eor(old(c)@, old(b)@, AddressingMode::AbsoluteY).1,
        final(b)@.wf(),
{
    let value = c.a;
    let operand = om::read(c, b, AddressingMode::AbsoluteY);
    let r = value ^ operand;

    c.p.set(ZERO, r == 0);
    c.p.set(SIGN, r & 0x80 != 0);

    c.a = r;
    proof {
        reveal(spec_op_eor);
        assert(c@ == spec_op_eor(old(c)@, old(b)@, AddressingMode::AbsoluteY).0);
    }
}

/// EOR (${0:X}, X)
pub fn _41(c: &mut Context, b: &mut Bus)
    requires
        old(b)@.wf(),
    ensures
        final(c)@ == spec_op_eor(old(c)@, old(b)@, AddressingMode::IndexedIndirect).0,
        final(b)@ == spec_op_eor(old(c)@, old(b)@, AddressingMode::IndexedIndirect).1,
        final(b)@.wf(),
{
    let value = c.a;
    let operand = om::read(c, b, AddressingMode::IndexedIndirect);
    let r = value ^ operand;

    c.p.set(ZERO, r == 0);
    c.p.set(SIGN, r & 0x80 != 0);

    c.a = r;
    proof {
        reveal(spec_op_eor);
        assert(c@ == spec_op_eor(old(c)@, old(b)@, AddressingMode::IndexedIndirect).0);
    }
}

/// EOR (${0:X}), Y
pub fn _51(c: &mut Context, b: &mut Bus)
    requires
        old(b)@.wf(),
    ensures
        final(c)@ == spec_op_eor(old(c)@, old(b)@, AddressingMode::IndirectIndexed).0,
        final(b)@ == spec_op_eor(old(c)@, old(b)@, AddressingMode::IndirectIndexed).1,
        final(b)@.wf(),
{
    let value = c.a;
    let operand = om::read(c, b, AddressingMode::IndirectIndexed);
    let r = value ^ operand;

    c.p.set(ZERO, r == 0);
    c.p.set(SIGN, r & 0x80 != 0);

    c.a = r;
    proof {
        reveal(spec_op_eor);
        assert(c@ == spec_op_eor(old(c)@, old(b)@, AddressingMode::IndirectIndexed).0);
    }
}

/// ASL A
pub fn _0A(c: &mut Context, b: &mut Bus)
    ensures
        final(c)@ == spec_op_shift_a(old(c)@, ModifyOp::Asl),
        final(b)@ == old(b)@,
{
    let operand = c.a;
    let r = om::apply_modify(c, ModifyOp::Asl, operand);
    c.a = r;
    proof {
        reveal(spec_op_shift_a);
        assert(c@ == spec_op_shift_a(old(c)@, ModifyOp::Asl));
    }
}

/// ASL ${0:X}
pub fn _06(c: &mut Context, b: &mut Bus)
    requires
        old(b)@.wf(),
    ensures
        final(c)@ == spec_om_modify(old(c)@, old(b)@, AddressingMode::ZeroPage, ModifyOp::Asl).0,
        final(b)@ == spec_om_modify(old(c)@, old(b)@, AddressingMode::ZeroPage, ModifyOp::Asl).1,
        final(b)@.wf(),
{
    om::modify(c, b, AddressingMode::ZeroPage, ModifyOp::Asl);
}

/// ASL ${0:X}, X
pub fn _16(c: &mut Context, b: &mut Bus)
    requires
        old(b)@.wf(),
    ensures
        final(c)@ == spec_om_modify(old(c)@, old(b)@, AddressingMode::ZeroPageX, ModifyOp::Asl).0,
        final(b)@ == spec_om_modify(old(c)@, old(b)@, AddressingMode::ZeroPageX, ModifyOp::Asl).1,
        final(b)@.wf(),
{
    om::modify(c, b, AddressingMode::ZeroPageX, ModifyOp::Asl);
}

/// ASL ${1:X}{0:X}
pub fn _0E(c: &mut Context, b: &mut Bus)
    requires
        old(b)@.wf(),
    ensures
        final(c)@ == spec_om_modify(old(c)@, old(b)@, AddressingMode::Absolute, ModifyOp::Asl).0,
        final(b)@ == spec_om_modify(old(c)@, old(b)@, AddressingMode::Absolute, ModifyOp::Asl).1,
        final(b)@.wf(),
{
    om::modify(c, b, AddressingMode::Absolute, ModifyOp::Asl);
}

/// ASL ${1:X}{0:X}, X
pub fn _1E(c: &mut Context, b: &mut Bus)
    requires
        old(b)@.wf(),
    ensures
        final(c)@ == spec_om_modify(old(c)@, old(b)@, AddressingMode::AbsoluteX, ModifyOp::Asl).0,
        final(b)@ == spec_om_modify(old(c)@, old(b)@, AddressingMode::AbsoluteX, ModifyOp::Asl).1,
        final(b)@.wf(),
{
    om::modify(c, b, AddressingMode::AbsoluteX, ModifyOp::Asl);
}

/// LRS A
pub fn _4A(c: &mut Context, b: &mut Bus)
    ensures
        final(c)@ == spec_op_shift_a(old(c)@, ModifyOp::Lsr),
        final(b)@ == old(b)@,
{
    let operand = c.a;
    let r = om::apply_modify(c, ModifyOp::Lsr, operand);
    c.a = r;
    proof {
        reveal(spec_op_shift_a);
        assert(c@ == spec_op_shift_a(old(c)@, ModifyOp::Lsr));
    }
}

/// LRS ${0:X}
pub fn _46(c: &mut Context, b: &mut Bus)
    requires
        old(b)@.wf(),
    ensures
        final(c)@ == spec_om_modify(old(c)@, old(b)@, AddressingMode::ZeroPage, ModifyOp::Lsr).0,
        final(b)@ == spec_om_modify(old(c)@, old(b)@, AddressingMode::ZeroPage, ModifyOp::Lsr).1,
        final(b)@.wf(),
{
    om::modify(c, b, AddressingMode::ZeroPage, ModifyOp::Lsr);
}

/// LRS ${0:X}, X
pub fn _56(c: &mut Context, b: &mut Bus)
    requires
        old(b)@.wf(),
    ensures
        final(c)@ == spec_om_modify(old(c)@, old(b)@, AddressingMode::ZeroPageX, ModifyOp::Lsr).0,
        final(b)@ == spec_om_modify(old(c)@, old(b)@, AddressingMode::ZeroPageX, ModifyOp::Lsr).1,
        final(b)@.wf(),
{
    om::modify(c, b, AddressingMode::ZeroPageX, ModifyOp::Lsr);
}

/// LRS ${1:X}{0:X}
pub fn _4E(c: &mut Context, b: &mut Bus)
    requires
        old(b)@.wf(),
    ensures
        final(c)@ == spec_om_modify(old(c)@, old(b)@, AddressingMode::Absolute, ModifyOp::Lsr).0,
        final(b)@ == spec_om_modify(old(c)@, old(b)@, AddressingMode::Absolute, ModifyOp::Lsr).1,
        final(b)@.wf(),
{
    om::modify(c, b, AddressingMode::Absolute, ModifyOp::Lsr);
}

/// LRS ${1:X}{0:X}, X
pub fn _5E(c: &mut Context, b: &mut Bus)
    requires
        old(b)@.wf(),
    ensures
        final(c)@ == spec_om_modify(old(c)@, old(b)@, AddressingMode::AbsoluteX, ModifyOp::Lsr).0,
        final(b)@ == spec_om_modify(old(c)@, old(b)@, AddressingMode::AbsoluteX, ModifyOp::Lsr).1,
        final(b)@.wf(),
{
    om::modify(c, b, AddressingMode::AbsoluteX, ModifyOp::Lsr);
}

/// ROL A
pub fn _2A(c: &mut Context, b: &mut Bus)
    ensures
        final(c)@ == spec_op_shift_a(old(c)@, ModifyOp::Rol),
        final(b)@ == old(b)@,
{
    let operand = c.a;
    let r = om::apply_modify(c, ModifyOp::Rol, operand);
    c.a = r;
    proof {
        reveal(spec_op_shift_a);
        assert(c@ == spec_op_shift_a(old(c)@, ModifyOp::Rol));
    }
}

/// ROL ${0:X}
pub fn _26(c: &mut Context, b: &mut Bus)
    requires
        old(b)@.wf(),
    ensures
        final(c)@ == spec_om_modify(old(c)@, old(b)@, AddressingMode::ZeroPage, ModifyOp::Rol).0,
        final(b)@ == spec_om_modify(old(c)@, old(b)@, AddressingMode::ZeroPage, ModifyOp::Rol).1,
        final(b)@.wf(),
{
    om::modify(c, b, AddressingMode::ZeroPage, ModifyOp::Rol);
}

/// ROL ${0:X}, X
pub fn _36(c: &mut Context, b: &mut Bus)
    requires
        old(b)@.wf(),
    ensures
        final(c)@ == spec_om_modify(old(c)@, old(b)@, AddressingMode::ZeroPageX, ModifyOp::Rol).0,
        final(b)@ == spec_om_modify(old(c)@, old(b)@, AddressingMode::ZeroPageX, ModifyOp::Rol).1,
        final(b)@.wf(),
{
    om::modify(c, b, AddressingMode::ZeroPageX, ModifyOp::Rol);
}

/// ROL ${1:X}{0:X}
pub fn _2E(c: &mut Context, b: &mut Bus)
    requires
        old(b)@.wf(),
    ensures
        final(c)@ == spec_om_modify(old(c)@, old(b)@, AddressingMode::Absolute, ModifyOp::Rol).0,
        final(b)@ == spec_om_modify(old(c)@, old(b)@, AddressingMode::Absolute, ModifyOp::Rol).1,
        final(b)@.wf(),
{
    om::modify(c, b, AddressingMode::Absolute, ModifyOp::Rol);
}

/// ROL ${1:X}{0:X}, X
pub fn _3E(c: &mut Context, b: &mut Bus)
    requires
        old(b)@.wf(),
    ensures
        final(c)@ == spec_om_modify(old(c)@, old(b)@, AddressingMode::AbsoluteX, ModifyOp::Rol).0,
        final(b)@ == spec_om_modify(old(c)@, old(b)@, AddressingMode::AbsoluteX, ModifyOp::Rol).1,
        final(b)@.wf(),
{
    om::modify(c, b, AddressingMode::AbsoluteX, ModifyOp::Rol);
}

/// ROR A
pub fn _6A(c: &mut Context, b: &mut Bus)
    ensures
        final(c)@ == spec_op_shift_a(old(c)@, ModifyOp::Ror),
        final(b)@ == old(b)@,
{
    let operand = c.a;
    let r = om::apply_modify(c, ModifyOp::Ror, operand);
    c.a = r;
    proof {
        reveal(spec_op_shift_a);
        assert(c@ == spec_op_shift_a(old(c)@, ModifyOp::Ror));
    }
}

/// ROR ${0:X}
pub fn _66(c: &mut Context, b: &mut Bus)
    requires
        old(b)@.wf(),
    ensures
        final(c)@ == spec_om_modify(old(c)@, old(b)@, AddressingMode::ZeroPage, ModifyOp::Ror).0,
        final(b)@ == spec_om_modify(old(c)@, old(b)@, AddressingMode::ZeroPage, ModifyOp::Ror).1,
        final(b)@.wf(),
{
    om::modify(c, b, AddressingMode::ZeroPage, ModifyOp::Ror);
}

/// ROR ${0:X}, X
pub fn _76(c: &mut Context, b: &mut Bus)
    requires
        old(b)@.wf(),
    ensures
        final(c)@ == spec_om_modify(old(c)@, old(b)@, AddressingMode::ZeroPageX, ModifyOp::Ror).0,
        final(b)@ == spec_om_modify(old(c)@, old(b)@, AddressingMode::ZeroPageX, ModifyOp::Ror).1,
        final(b)@.wf(),
{
    om::modify(c, b, AddressingMode::ZeroPageX, ModifyOp::Ror);
}

/// ROR ${1:X}{0:X}
pub fn _6E(c: &mut Context, b: &mut Bus)
    requires
        old(b)@.wf(),
    ensures
        final(c)@ == spec_om_modify(old(c)@, old(b)@, AddressingMode::Absolute, ModifyOp::Ror).0,
        final(b)@ == spec_om_modify(old(c)@, old(b)@, AddressingMode::Absolute, ModifyOp::Ror).1,
        final(b)@.wf(),
{
    om::modify(c, b, AddressingMode::Absolute, ModifyOp::Ror);
}

/// ROR ${1:X}{0:X}, X
pub fn _7E(c: &mut Context, b: &mut Bus)
    requires
        old(b)@.wf(),
    ensures
        final(c)@ == spec_om_modify(old(c)@, old(b)@, AddressingMode::AbsoluteX, ModifyOp::Ror).0,
        final(b)@ == spec_om_modify(old(c)@, old(b)@, AddressingMode::AbsoluteX, ModifyOp::Ror).1,
        final(b)@.wf(),
{
    om::modify(c, b, AddressingMode::AbsoluteX, ModifyOp::Ror);
}

/// BIT ${0:X}
pub fn _24(c: &mut Context, b: &mut Bus)
    requires
        old(b)@.wf(),
    ensures
        final(c)@ == spec_op_bit(old(c)@, old(b)@, AddressingMode::ZeroPage).0,
        final(b)@ == spec_op_bit(old(c)@, old(b)@, AddressingMode::ZeroPage).1,
        final(b)@.wf(),
{
    let mask = c.a;
    let value = om::read(c, b, AddressingMode::ZeroPage);

    c.p.set(ZERO, value & mask == 0);
    c.p.set(OVERFLOW, value & 0x40 != 0);
    c.p.set(SIGN, value & 0x80 != 0);
    proof {
        reveal(spec_op_bit);
        assert(c@ == spec_op_bit(old(c)@, old(b)@, AddressingMode::ZeroPage).0);
    }
}

/// BIT ${1:X}{0:X}
pub fn _2C(c: &mut Context, b: &mut Bus)
    requires
        old(b)@.wf(),
    ensures
        final(c)@ == spec_op_bit(old(c)@, old(b)@, AddressingMode::Absolute).0,
        final(b)@ == spec_op_bit(old(c)@, old(b)@, AddressingMode::Absolute).1,
        final(b)@.wf(),
{
    let mask = c.a;
    let value = om::read(c, b, AddressingMode::Absolute);

    c.p.set(ZERO, value & mask == 0);
    c.p.set(OVERFLOW, value & 0x40 != 0);
    c.p.set(SIGN, value & 0x80 != 0);
    proof {
        reveal(spec_op_bit);
        assert(c@ == spec_op_bit(old(c)@, old(b)@, AddressingMode::Absolute).0);
    }
}

/// JSR ${1:X}{0:X}
pub fn _20(c: &mut Context, b: &mut Bus)
    requires
        old(b)@.wf(),
    ensures
        final(c)@ == spec_op_jsr(old(c)@, old(b)@).0,
        final(b)@ == spec_op_jsr(old(c)@, old(b)@).1,
        final(b)@.wf(),
{
    proof {
        reveal(spec_op_jsr);
    }
    // Fetch the low target byte; increment PC
    c.step(b);
    let l = b.read(c.pc);
    c.pc = om::pc1(c.pc);

    // Internal delay
    c.step(b);

    // Push PCH; decrement S
    c.step(b);
    b.write(0x100 + c.s as u16, (c.pc >> 8) as u8);
    c.s = dec8(c.s);

    // Push PCL; decrement S
    c.step(b);
    b.write(0x100 + c.s as u16, (c.pc & 0xFF) as u8);
    c.s = dec8(c.s);

    // Fetch the high target byte straight into PCH
    c.step(b);
    let h = b.read(c.pc);
    c.pc = l as u16 | ((h as u16) << 8);
    proof {
        assert(c@ == spec_op_jsr(old(c)@, old(b)@).0);
    }
}

/// JMP ${1:X}{0:X}
pub fn _4C(c: &mut Context, b: &mut Bus)
    requires
        old(b)@.wf(),
    ensures
        final(c)@ == spec_op_jmp(old(c)@, old(b)@).0,
        final(b)@ == spec_op_jmp(old(c)@, old(b)@).1,
        final(b)@.wf(),
{
    proof {
        reveal(spec_op_jmp);
    }
    // Fetch the low target byte; increment PC
    c.step(b);
    let l = b.read(c.pc);
    c.pc = om::pc1(c.pc);

    // Fetch the high target byte straight into PCH
    c.step(b);
    let h = b.read(c.pc);
    c.pc = l as u16 | ((h as u16) << 8);
    proof {
        assert(c@ == spec_op_jmp(old(c)@, old(b)@).0);
    }
}

/// JMP (${1:X}{0:X})
pub fn _6C(c: &mut Context, b: &mut Bus)
    requires
        old(b)@.wf(),
    ensures
        final(c)@ == spec_op_jmp_ind(old(c)@, old(b)@).0,
        final(b)@ == spec_op_jmp_ind(old(c)@, old(b)@).1,
        final(b)@.wf(),
{
    proof {
        reveal(spec_op_jmp_ind);
    }
    // Fetch the pointer bytes
    c.step(b);
    let ptr_l = b.read(c.pc);
    c.pc = om::pc1(c.pc);

    c.step(b);
    let ptr_h = b.read(c.pc);
    c.pc = om::pc1(c.pc);

    // Fetch the target; the high byte comes from the same page as the
    // pointer's low byte (the part never crosses here)
    c.step(b);
    let l = b.read(ptr_l as u16 | ((ptr_h as u16) << 8));

    c.step(b);
    let h = b.read(om::wadd8(ptr_l, 1) as u16 | ((ptr_h as u16) << 8));
    c.pc = l as u16 | ((h as u16) << 8);
    proof {
        assert(c@ == spec_op_jmp_ind(old(c)@, old(b)@).0);
    }
}

/// RTS
pub fn _60(c: &mut Context, b: &mut Bus)
    requires
        old(b)@.wf(),
    ensures
        final(c)@ == spec_op_rts(old(c)@, old(b)@).0,
        final(b)@ == spec_op_rts(old(c)@, old(b)@).1,
        final(b)@.wf(),
{
    proof {
        reveal(spec_op_rts);
    }
    // Increment S
    c.step(b);
    c.s = inc8(c.s);

    // Pull PCL; increment S
    c.step(b);
    c.pc = (c.pc & !0xFFu16) | (b.read(0x100 + c.s as u16) as u16);
    c.s = inc8(c.s);

    // Pull PCH
    c.step(b);
    c.pc = (c.pc & !0xFF00u16) | ((b.read(0x100 + c.s as u16) as u16) << 8);

    // Step past the JSR operand
    c.step(b);
    c.pc = om::pc1(c.pc);
    proof {
        assert(c@ == spec_op_rts(old(c)@, old(b)@).0);
    }
}

/// RTI
pub fn _40(c: &mut Context, b: &mut Bus)
    requires
        old(b)@.wf(),
    ensures
        final(c)@ == spec_op_rti(old(c)@, old(b)@).0,
        final(b)@ == spec_op_rti(old(c)@, old(b)@).1,
        final(b)@.wf(),
{
    proof {
        reveal(spec_op_rti);
    }
    // Increment S
    c.step(b);
    c.s = inc8(c.s);

    // Pull P (break cleared); increment S
    c.step(b);
    c.p = crate::cpu::Flags::from_bits_truncate(b.read(0x100 + c.s as u16));
    c.p.remove(BREAK);
    c.s = inc8(c.s);

    // Pull PCL; increment S
    c.step(b);
    c.pc = (c.pc & !0xFFu16) | (b.read(0x100 + c.s as u16) as u16);
    c.s = inc8(c.s);

    // Pull PCH
    c.step(b);
    c.pc = (c.pc & !0xFF00u16) | ((b.read(0x100 + c.s as u16) as u16) << 8);
    proof {
        assert(c@ == spec_op_rti(old(c)@, old(b)@).0);
    }
}

/// BCC {0}
pub fn _90(c: &mut Context, b: &mut Bus)
    requires
        old(b)@.wf(),
    ensures
        final(c)@ == spec_branch(old(c)@, old(b)@, CARRY, false).0,
        final(b)@ == spec_branch(old(c)@, old(b)@, CARRY, false).1,
        final(b)@.wf(),
{
    om::branch(c, b, CARRY, false);
}

/// BCS {0}
pub fn _B0(c: &mut Context, b: &mut Bus)
    requires
        old(b)@.wf(),
    ensures
        final(c)@ == spec_branch(old(c)@, old(b)@, CARRY, true).0,
        final(b)@ == spec_branch(old(c)@, old(b)@, CARRY, true).1,
        final(b)@.wf(),
{
    om::branch(c, b, CARRY, true);
}

/// BEQ {0}
pub fn _F0(c: &mut Context, b: &mut Bus)
    requires
        old(b)@.wf(),
    ensures
        final(c)@ == spec_branch(old(c)@, old(b)@, ZERO, true).0,
        final(b)@ == spec_branch(old(c)@, old(b)@, ZERO, true).1,
        final(b)@.wf(),
{
    om::branch(c, b, ZERO, true);
}

/// BNE {0}
pub fn _D0(c: &mut Context, b: &mut Bus)
    requires
        old(b)@.wf(),
    ensures
        final(c)@ == spec_branch(old(c)@, old(b)@, ZERO, false).0,
        final(b)@ == spec_branch(old(c)@, old(b)@, ZERO, false).1,
        final(b)@.wf(),
{
    om::branch(c, b, ZERO, false);
}

/// BMI {0}
pub fn _30(c: &mut Context, b: &mut Bus)
    requires
        old(b)@.wf(),
    ensures
        final(c)@ == spec_branch(old(c)@, old(b)@, SIGN, true).0,
        final(b)@ == spec_branch(old(c)@, old(b)@, SIGN, true).1,
        final(b)@.wf(),
{
    om::branch(c, b, SIGN, true);
}

/// BPL {0}
pub fn _10(c: &mut Context, b: &mut Bus)
    requires
        old(b)@.wf(),
    ensures
        final(c)@ == spec_branch(old(c)@, old(b)@, SIGN, false).0,
        final(b)@ == spec_branch(old(c)@, old(b)@, SIGN, false).1,
        final(b)@.wf(),
{
    om::branch(c, b, SIGN, false);
}

/// BVC {0}
pub fn _50(c: &mut Context, b: &mut Bus)
    requires
        old(b)@.wf(),
    ensures
        final(c)@ == spec_branch(old(c)@, old(b)@, OVERFLOW, false).0,
        final(b)@ == spec_branch(old(c)@, old(b)@, OVERFLOW, false).1,
        final(b)@.wf(),
{
    om::branch(c, b, OVERFLOW, false);
}

/// BVS {0}
pub fn _70(c: &mut Context, b: &mut Bus)
    requires
        old(b)@.wf(),
    ensures
        final(c)@ == spec_branch(old(c)@, old(b)@, OVERFLOW, true).0,
        final(b)@ == spec_branch(old(c)@, old(b)@, OVERFLOW, true).1,
        final(b)@.wf(),
{
    om::branch(c, b, OVERFLOW, true);
}


/// What one decoded operation does to the register file and the bus.  An
/// opcode without a table entry never reaches this (the interpreter reports
/// the decode error first) and leaves the state alone.
#[verifier::opaque]
pub open spec fn spec_exec_op(opcode: u8, c: CtxView, b: crate::bus::BusView) -> (
    CtxView,
    crate::bus::BusView,
) {
    match opcode {
        0x01 => spec_op_ora(c, b, AddressingMode::IndexedIndirect),
        0x05 => spec_op_ora(c, b, AddressingMode::ZeroPage),
        0x06 => spec_om_modify(c, b, AddressingMode::ZeroPage, ModifyOp::Asl),
        0x08 => (
            CtxView { s: spec_dec8(c.s), total_cycles: spec_cyc1(c.total_cycles), ..c },
            spec_bus_write(
                spec_bus_step(b).0,
                (0x100 + c.s as u16) as u16,
                (c.p | BREAK) | 0x20,
            ),
        ),
        0x09 => spec_op_ora(c, b, AddressingMode::Immediate),
        0x0A => (spec_op_shift_a(c, ModifyOp::Asl), b),
        0x0D => spec_op_ora(c, b, AddressingMode::Absolute),
        0x0E => spec_om_modify(c, b, AddressingMode::Absolute, ModifyOp::Asl),
        0x10 => spec_branch(c, b, SIGN, false),
        0x11 => spec_op_ora(c, b, AddressingMode::IndirectIndexed),
        0x15 => spec_op_ora(c, b, AddressingMode::ZeroPageX),
        0x16 => spec_om_modify(c, b, AddressingMode::ZeroPageX, ModifyOp::Asl),
        0x18 => (CtxView { p: c.p & !CARRY, ..c }, b),
        0x19 => spec_op_ora(c, b, AddressingMode::AbsoluteY),
        0x1D => spec_op_ora(c, b, AddressingMode::AbsoluteX),
        0x1E => spec_om_modify(c, b, AddressingMode::AbsoluteX, ModifyOp::Asl),
        0x20 => spec_op_jsr(c, b),
        0x21 => spec_op_and(c, b, AddressingMode::IndexedIndirect),
        0x24 => spec_op_bit(c, b, AddressingMode::ZeroPage),
        0x25 => spec_op_and(c, b, AddressingMode::ZeroPage),
        0x26 => spec_om_modify(c, b, AddressingMode::ZeroPage, ModifyOp::Rol),
        0x28 => (
            CtxView {
                s: spec_inc8(c.s),
                p: (spec_bus_read(
                    spec_bus_step(b).0,
                    (0x100 + spec_inc8(c.s) as u16) as u16,
                ).1 & FLAG_MASK) & !BREAK,
                total_cycles: spec_cyc1(c.total_cycles),
                ..c
            },
            spec_bus_read(spec_bus_step(b).0, (0x100 + spec_inc8(c.s) as u16) as u16).0,
        ),
        0x29 => spec_op_and(c, b, AddressingMode::Immediate),
        0x2A => (spec_op_shift_a(c, ModifyOp::Rol), b),
        0x2C => spec_op_bit(c, b, AddressingMode::Absolute),
        0x2D => spec_op_and(c, b, AddressingMode::Absolute),
        0x2E => spec_om_modify(c, b, AddressingMode::Absolute, ModifyOp::Rol),
        0x30 => spec_branch(c, b, SIGN, true),
        0x31 => spec_op_and(c, b, AddressingMode::IndirectIndexed),
        0x35 => spec_op_and(c, b, AddressingMode::ZeroPageX),
        0x36 => spec_om_modify(c, b, AddressingMode::ZeroPageX, ModifyOp::Rol),
        0x38 => (CtxView { p: c.p | CARRY, ..c }, b),
        0x39 => spec_op_and(c, b, AddressingMode::AbsoluteY),
        0x3D => spec_op_and(c, b, AddressingMode::AbsoluteX),
        0x3E => spec_om_modify(c, b, AddressingMode::AbsoluteX, ModifyOp::Rol),
        0x40 => spec_op_rti(c, b),
        0x41 => spec_op_eor(c, b, AddressingMode::IndexedIndirect),
        0x45 => spec_op_eor(c, b, AddressingMode::ZeroPage),
        0x46 => spec_om_modify(c, b, AddressingMode::ZeroPage, ModifyOp::Lsr),
        0x48 => (
            CtxView { s: spec_dec8(c.s), total_cycles: spec_cyc1(c.total_cycles), ..c },
            spec_bus_write(spec_bus_step(b).0, (0x100 + c.s as u16) as u16, c.a),
        ),
        0x49 => spec_op_eor(c, b, AddressingMode::Immediate),
        0x4A => (spec_op_shift_a(c, ModifyOp::Lsr), b),
        0x4C => spec_op_jmp(c, b),
        0x4D => spec_op_eor(c, b, AddressingMode::Absolute),
        0x4E => spec_om_modify(c, b, AddressingMode::Absolute, ModifyOp::Lsr),
        0x50 => spec_branch(c, b, OVERFLOW, false),
        0x51 => spec_op_eor(c, b, AddressingMode::IndirectIndexed),
        0x55 => spec_op_eor(c, b, AddressingMode::ZeroPageX),
        0x56 => spec_om_modify(c, b, AddressingMode::ZeroPageX, ModifyOp::Lsr),
        0x58 => (CtxView { p: c.p & !IRQ_DISABLE, ..c }, b),
        0x59 => spec_op_eor(c, b, AddressingMode::AbsoluteY),
        0x5D => spec_op_eor(c, b, AddressingMode::AbsoluteX),
        0x5E => spec_om_modify(c, b, AddressingMode::AbsoluteX, ModifyOp::Lsr),
        0x60 => spec_op_rts(c, b),
        0x61 => spec_op_adc(c, b, AddressingMode::IndexedIndirect),
        0x65 => spec_op_adc(c, b, AddressingMode::ZeroPage),
        0x66 => spec_om_modify(c, b, AddressingMode::ZeroPage, ModifyOp::Ror),
        0x68 => (
            CtxView {
                s: spec_inc8(c.s),
                a: spec_bus_read(
                    spec_bus_step(b).0,
                    (0x100 + spec_inc8(c.s) as u16) as u16,
                ).1,
                p: spec_zn(
                    c.p,
                    spec_bus_read(
                        spec_bus_step(b).0,
                        (0x100 + spec_inc8(c.s) as u16) as u16,
                    ).1,
                ),
                total_cycles: spec_cyc1(c.total_cycles),
                ..c
            },
            spec_bus_read(spec_bus_step(b).0, (0x100 + spec_inc8(c.s) as u16) as u16).0,
        ),
        0x69 => spec_op_adc(c, b, AddressingMode::Immediate),
        0x6A => (spec_op_shift_a(c, ModifyOp::Ror), b),
        0x6C => spec_op_jmp_ind(c, b),
        0x6D => spec_op_adc(c, b, AddressingMode::Absolute),
        0x6E => spec_om_modify(c, b, AddressingMode::Absolute, ModifyOp::Ror),
        0x70 => spec_branch(c, b, OVERFLOW, true),
        0x71 => spec_op_adc(c, b, AddressingMode::IndirectIndexed),
        0x75 => spec_op_adc(c, b, AddressingMode::ZeroPageX),
        0x76 => spec_om_modify(c, b, AddressingMode::ZeroPageX, ModifyOp::Ror),
        0x78 => (CtxView { p: c.p | IRQ_DISABLE, ..c }, b),
        0x79 => spec_op_adc(c, b, AddressingMode::AbsoluteY),
        0x7D => spec_op_adc(c, b, AddressingMode::AbsoluteX),
        0x7E => spec_om_modify(c, b, AddressingMode::AbsoluteX, ModifyOp::Ror),
        0x81 => spec_op_store(c, b, AddressingMode::IndexedIndirect, Reg::A),
        0x84 => spec_op_store(c, b, AddressingMode::ZeroPage, Reg::Y),
        0x85 => spec_op_store(c, b, AddressingMode::ZeroPage, Reg::A),
        0x86 => spec_op_store(c, b, AddressingMode::ZeroPage, Reg::X),
        0x88 => (CtxView { y: spec_dec8(c.y), p: spec_zn(c.p, spec_dec8(c.y)), ..c }, b),
        0x8A => (CtxView { a: c.x, p: spec_zn(c.p, c.x), ..c }, b),
        0x8C => spec_op_store(c, b, AddressingMode::Absolute, Reg::Y),
        0x8D => spec_op_store(c, b, AddressingMode::Absolute, Reg::A),
        0x8E => spec_op_store(c, b, AddressingMode::Absolute, Reg::X),
        0x90 => spec_branch(c, b, CARRY, false),
        0x91 => spec_op_store(c, b, AddressingMode::IndirectIndexed, Reg::A),
        0x94 => spec_op_store(c, b, AddressingMode::ZeroPageX, Reg::Y),
        0x95 => spec_op_store(c, b, AddressingMode::ZeroPageX, Reg::A),
        0x96 => spec_op_store(c, b, AddressingMode::ZeroPageY, Reg::X),
        0x98 => (CtxView { a: c.y, p: spec_zn(c.p, c.y), ..c }, b),
        0x99 => spec_op_store(c, b, AddressingMode::AbsoluteY, Reg::A),
        0x9A => (CtxView { s: c.x, ..c }, b),
        0x9D => spec_op_store(c, b, AddressingMode::AbsoluteX, Reg::A),
        0xA0 => spec_op_load(c, b, AddressingMode::Immediate, Reg::Y),
        0xA1 => spec_op_load(c, b, AddressingMode::IndexedIndirect, Reg::A),
        0xA2 => spec_op_load(c, b, AddressingMode::Immediate, Reg::X),
        0xA4 => spec_op_load(c, b, AddressingMode::ZeroPage, Reg::Y),
        0xA5 => spec_op_load(c, b, AddressingMode::ZeroPage, Reg::A),
        0xA6 => spec_op_load(c, b, AddressingMode::ZeroPage, Reg::X),
        0xA8 => (CtxView { y: c.a, p: spec_zn(c.p, c.a), ..c }, b),
        0xA9 => spec_op_load(c, b, AddressingMode::Immediate, Reg::A),
        0xAA => (CtxView { x: c.a, p: spec_zn(c.p, c.a), ..c }, b),
        0xAC => spec_op_load(c, b, AddressingMode::Absolute, Reg::Y),
        0xAD => spec_op_load(c, b, AddressingMode::Absolute, Reg::A),
        0xAE => spec_op_load(c, b, AddressingMode::Absolute, Reg::X),
        0xB0 => spec_branch(c, b, CARRY, true),
        0xB1 => spec_op_load(c, b, AddressingMode::IndirectIndexed, Reg::A),
        0xB4 => spec_op_load(c, b, AddressingMode::ZeroPageX, Reg::Y),
        0xB5 => spec_op_load(c, b, AddressingMode::ZeroPageX, Reg::A),
        0xB6 => spec_op_load(c, b, AddressingMode::ZeroPageY, Reg::X),
        0xB8 => (CtxView { p: c.p & !OVERFLOW, ..c }, b),
        0xB9 => spec_op_load(c, b, AddressingMode::AbsoluteY, Reg::A),
        0xBA => (CtxView { x: c.s, p: spec_zn(c.p, c.s), ..c }, b),
        0xBC => spec_op_load(c, b, AddressingMode::AbsoluteX, Reg::Y),
        0xBD => spec_op_load(c, b, AddressingMode::AbsoluteX, Reg::A),
        0xBE => spec_op_load(c, b, AddressingMode::AbsoluteY, Reg::X),
        0xC0 => spec_op_compare(c, b, AddressingMode::Immediate, Reg::Y),
        0xC1 => spec_op_compare(c, b, AddressingMode::IndexedIndirect, Reg::A),
        0xC4 => spec_op_compare(c, b, AddressingMode::ZeroPage, Reg::Y),
        0xC5 => spec_op_compare(c, b, AddressingMode::ZeroPage, Reg::A),
        0xC6 => spec_om_modify(c, b, AddressingMode::ZeroPage, ModifyOp::Dec),
        0xC8 => (CtxView { y: spec_inc8(c.y), p: spec_zn(c.p, spec_inc8(c.y)), ..c }, b),
        0xC9 => spec_op_compare(c, b, AddressingMode::Immediate, Reg::A),
        0xCA => (CtxView { x: spec_dec8(c.x), p: spec_zn(c.p, spec_dec8(c.x)), ..c }, b),
        0xCC => spec_op_compare(c, b, AddressingMode::Absolute, Reg::Y),
        0xCD => spec_op_compare(c, b, AddressingMode::Absolute, Reg::A),
        0xCE => spec_om_modify(c, b, AddressingMode::Absolute, ModifyOp::Dec),
        0xD0 => spec_branch(c, b, ZERO, false),
        0xD1 => spec_op_compare(c, b, AddressingMode::IndirectIndexed, Reg::A),
        0xD5 => spec_op_compare(c, b, AddressingMode::ZeroPageX, Reg::A),
        0xD6 => spec_om_modify(c, b, AddressingMode::ZeroPageX, ModifyOp::Dec),
        0xD8 => (CtxView { p: c.p & !DECIMAL_MODE, ..c }, b),
        0xD9 => spec_op_compare(c, b, AddressingMode::AbsoluteY, Reg::A),
        0xDD => spec_op_compare(c, b, AddressingMode::AbsoluteX, Reg::A),
        0xDE => spec_om_modify(c, b, AddressingMode::AbsoluteX, ModifyOp::Dec),
        0xE0 => spec_op_compare(c, b, AddressingMode::Immediate, Reg::X),
        0xE1 => spec_op_sbc(c, b, AddressingMode::IndexedIndirect),
        0xE4 => spec_op_compare(c, b, AddressingMode::ZeroPage, Reg::X),
        0xE5 => spec_op_sbc(c, b, AddressingMode::ZeroPage),
        0xE6 => spec_om_modify(c, b, AddressingMode::ZeroPage, ModifyOp::Inc),
        0xE8 => (CtxView { x: spec_inc8(c.x), p: spec_zn(c.p, spec_inc8(c.x)), ..c }, b),
        0xE9 => spec_op_sbc(c, b, AddressingMode::Immediate),
        0xEA => (c, b),
        0xEC => spec_op_compare(c, b, AddressingMode::Absolute, Reg::X),
        0xED => spec_op_sbc(c, b, AddressingMode::Absolute),
        0xEE => spec_om_modify(c, b, AddressingMode::Absolute, ModifyOp::Inc),
        0xF0 => spec_branch(c, b, ZERO, true),
        0xF1 => spec_op_sbc(c, b, AddressingMode::IndirectIndexed),
        0xF5 => spec_op_sbc(c, b, AddressingMode::ZeroPageX),
        0xF6 => spec_om_modify(c, b, AddressingMode::ZeroPageX, ModifyOp::Inc),
        0xF8 => (CtxView { p: c.p | DECIMAL_MODE, ..c }, b),
        0xF9 => spec_op_sbc(c, b, AddressingMode::AbsoluteY),
        0xFD => spec_op_sbc(c, b, AddressingMode::AbsoluteX),
        0xFE => spec_om_modify(c, b, AddressingMode::AbsoluteX, ModifyOp::Inc),
        _ => (c, b),
    }
}

#[verifier::rlimit(100)]
#[verifier::spinoff_prover]
fn exec_op_q0(c: &mut Context, b: &mut Bus, opcode: u8)
    requires
        old(b)@.wf(),
        0x00 <= opcode < 0x40,
    ensures
        final(c)@ == spec_exec_op(opcode, old(c)@, old(b)@).0,
        final(b)@ == spec_exec_op(opcode, old(c)@, old(b)@).1,
        final(b)@.wf(),
{
    proof {
        reveal(spec_exec_op);
    }
    match opcode {
        0x01 => {
            _01(c, b);
            proof {
                assert(c@ == spec_exec_op(0x01, old(c)@, old(b)@).0);
                assert(b@ == spec_exec_op(0x01, old(c)@, old(b)@).1);
            }
        },
        0x05 => {
            _05(c, b);
            proof {
                assert(c@ == spec_exec_op(0x05, old(c)@, old(b)@).0);
                assert(b@ == spec_exec_op(0x05, old(c)@, old(b)@).1);
            }
        },
        0x06 => {
            _06(c, b);
            proof {
                assert(c@ == spec_exec_op(0x06, old(c)@, old(b)@).0);
                assert(b@ == spec_exec_op(0x06, old(c)@, old(b)@).1);
            }
        },
        0x08 => {
            _08(c, b);
            proof {
                assert(c@ == spec_exec_op(0x08, old(c)@, old(b)@).0);
                assert(b@ == spec_exec_op(0x08, old(c)@, old(b)@).1);
            }
        },
        0x09 => {
            _09(c, b);
            proof {
                assert(c@ == spec_exec_op(0x09, old(c)@, old(b)@).0);
                assert(b@ == spec_exec_op(0x09, old(c)@, old(b)@).1);
            }
        },
        0x0A => {
            _0A(c, b);
            proof {
                assert(c@ == spec_exec_op(0x0A, old(c)@, old(b)@).0);
                assert(b@ == spec_exec_op(0x0A, old(c)@, old(b)@).1);
            }
        },
        0x0D => {
            _0D(c, b);
            proof {
                assert(c@ == spec_exec_op(0x0D, old(c)@, old(b)@).0);
                assert(b@ == spec_exec_op(0x0D, old(c)@, old(b)@).1);
            }
        },
        0x0E => {
            _0E(c, b);
            proof {
                assert(c@ == spec_exec_op(0x0E, old(c)@, old(b)@).0);
                assert(b@ == spec_exec_op(0x0E, old(c)@, old(b)@).1);
            }
        },
        0x10 => {
            _10(c, b);
            proof {
                assert(c@ == spec_exec_op(0x10, old(c)@, old(b)@).0);
                assert(b@ == spec_exec_op(0x10, old(c)@, old(b)@).1);
            }
        },
        0x11 => {
            _11(c, b);
            proof {
                assert(c@ == spec_exec_op(0x11, old(c)@, old(b)@).0);
                assert(b@ == spec_exec_op(0x11, old(c)@, old(b)@).1);
            }
        },
        0x15 => {
            _15(c, b);
            proof {
                assert(c@ == spec_exec_op(0x15, old(c)@, old(b)@).0);
                assert(b@ == spec_exec_op(0x15, old(c)@, old(b)@).1);
            }
        },
        0x16 => {
            _16(c, b);
            proof {
                assert(c@ == spec_exec_op(0x16, old(c)@, old(b)@).0);
                assert(b@ == spec_exec_op(0x16, old(c)@, old(b)@).1);
            }
        },
        0x18 => {
            _18(c, b);
            proof {
                assert(c@ == spec_exec_op(0x18, old(c)@, old(b)@).0);
                assert(b@ == spec_exec_op(0x18, old(c)@, old(b)@).1);
            }
        },
        0x19 => {
            _19(c, b);
            proof {
                assert(c@ == spec_exec_op(0x19, old(c)@, old(b)@).0);
                assert(b@ == spec_exec_op(0x19, old(c)@, old(b)@).1);
            }
        },
        0x1D => {
            _1D(c, b);
            proof {
                assert(c@ == spec_exec_op(0x1D, old(c)@, old(b)@).0);
                assert(b@ == spec_exec_op(0x1D, old(c)@, old(b)@).1);
            }
        },
        0x1E => {
            _1E(c, b);
            proof {
                assert(c@ == spec_exec_op(0x1E, old(c)@, old(b)@).0);
                assert(b@ == spec_exec_op(0x1E, old(c)@, old(b)@).1);
            }
        },
        0x20 => {
            _20(c, b);
            proof {
                assert(c@ == spec_exec_op(0x20, old(c)@, old(b)@).0);
                assert(b@ == spec_exec_op(0x20, old(c)@, old(b)@).1);
            }
        },
        0x21 => {
            _21(c, b);
            proof {
                assert(c@ == spec_exec_op(0x21, old(c)@, old(b)@).0);
                assert(b@ == spec_exec_op(0x21, old(c)@, old(b)@).1);
            }
        },
        0x24 => {
            _24(c, b);
            proof {
                assert(c@ == spec_exec_op(0x24, old(c)@, old(b)@).0);
                assert(b@ == spec_exec_op(0x24, old(c)@, old(b)@).1);
            }
        },
        0x25 => {
            _25(c, b);
            proof {
                assert(c@ == spec_exec_op(0x25, old(c)@, old(b)@).0);
                assert(b@ == spec_exec_op(0x25, old(c)@, old(b)@).1);
            }
        },
        0x26 => {
            _26(c, b);
            proof {
                assert(c@ == spec_exec_op(0x26, old(c)@, old(b)@).0);
                assert(b@ == spec_exec_op(0x26, old(c)@, old(b)@).1);
            }
        },
        0x28 => {
            _28(c, b);
            proof {
                assert(c@ == spec_exec_op(0x28, old(c)@, old(b)@).0);
                assert(b@ == spec_exec_op(0x28, old(c)@, old(b)@).1);
            }
        },
        0x29 => {
            _29(c, b);
            proof {
                assert(c@ == spec_exec_op(0x29, old(c)@, old(b)@).0);
                assert(b@ == spec_exec_op(0x29, old(c)@, old(b)@).1);
            }
        },
        0x2A => {
            _2A(c, b);
            proof {
                assert(c@ == spec_exec_op(0x2A, old(c)@, old(b)@).0);
                assert(b@ == spec_exec_op(0x2A, old(c)@, old(b)@).1);
            }
        },
        0x2C => {
            _2C(c, b);
            proof {
                assert(c@ == spec_exec_op(0x2C, old(c)@, old(b)@).0);
                assert(b@ == spec_exec_op(0x2C, old(c)@, old(b)@).1);
            }
        },
        0x2D => {
            _2D(c, b);
            proof {
                assert(c@ == spec_exec_op(0x2D, old(c)@, old(b)@).0);
                assert(b@ == spec_exec_op(0x2D, old(c)@, old(b)@).1);
            }
        },
        0x2E => {
            _2E(c, b);
            proof {
                assert(c@ == spec_exec_op(0x2E, old(c)@, old(b)@).0);
                assert(b@ == spec_exec_op(0x2E, old(c)@, old(b)@).1);
            }
        },
        0x30 => {
            _30(c, b);
            proof {
                assert(c@ == spec_exec_op(0x30, old(c)@, old(b)@).0);
                assert(b@ == spec_exec_op(0x30, old(c)@, old(b)@).1);
            }
        },
        0x31 => {
            _31(c, b);
            proof {
                assert(c@ == spec_exec_op(0x31, old(c)@, old(b)@).0);
                assert(b@ == spec_exec_op(0x31, old(c)@, old(b)@).1);
            }
        },
        0x35 => {
            _35(c, b);
            proof {
                assert(c@ == spec_exec_op(0x35, old(c)@, old(b)@).0);
                assert(b@ == spec_exec_op(0x35, old(c)@, old(b)@).1);
            }
        },
        0x36 => {
            _36(c, b);
            proof {
                assert(c@ == spec_exec_op(0x36, old(c)@, old(b)@).0);
                assert(b@ == spec_exec_op(0x36, old(c)@, old(b)@).1);
            }
        },
        0x38 => {
            _38(c, b);
            proof {
                assert(c@ == spec_exec_op(0x38, old(c)@, old(b)@).0);
                assert(b@ == spec_exec_op(0x38, old(c)@, old(b)@).1);
            }
        },
        0x39 => {
            _39(c, b);
            proof {
                assert(c@ == spec_exec_op(0x39, old(c)@, old(b)@).0);
                assert(b@ == spec_exec_op(0x39, old(c)@, old(b)@).1);
            }
        },
        0x3D => {
            _3D(c, b);
            proof {
                assert(c@ == spec_exec_op(0x3D, old(c)@, old(b)@).0);
                assert(b@ == spec_exec_op(0x3D, old(c)@, old(b)@).1);
            }
        },
        0x3E => {
            _3E(c, b);
            proof {
                assert(c@ == spec_exec_op(0x3E, old(c)@, old(b)@).0);
                assert(b@ == spec_exec_op(0x3E, old(c)@, old(b)@).1);
            }
        },
        _ => {
            proof {
                assert(c@ == spec_exec_op(opcode, old(c)@, old(b)@).0);
                assert(b@ == spec_exec_op(opcode, old(c)@, old(b)@).1);
            }
        },
    }
}

#[verifier::rlimit(100)]
#[verifier::spinoff_prover]
fn exec_op_q1(c: &mut Context, b: &mut Bus, opcode: u8)
    requires
        old(b)@.wf(),
        0x40 <= opcode < 0x80,
    ensures
        final(c)@ == spec_exec_op(opcode, old(c)@, old(b)@).0,
        final(b)@ == spec_exec_op(opcode, old(c)@, old(b)@).1,
        final(b)@.wf(),
{
    proof {
        reveal(spec_exec_op);
    }
    match opcode {
        0x40 => {
            _40(c, b);
            proof {
                assert(c@ == spec_exec_op(0x40, old(c)@, old(b)@).0);
                assert(b@ == spec_exec_op(0x40, old(c)@, old(b)@).1);
            }
        },
        0x41 => {
            _41(c, b);
            proof {
                assert(c@ == spec_exec_op(0x41, old(c)@, old(b)@).0);
                assert(b@ == spec_exec_op(0x41, old(c)@, old(b)@).1);
            }
        },
        0x45 => {
            _45(c, b);
            proof {
                assert(c@ == spec_exec_op(0x45, old(c)@, old(b)@).0);
                assert(b@ == spec_exec_op(0x45, old(c)@, old(b)@).1);
            }
        },
        0x46 => {
            _46(c, b);
            proof {
                assert(c@ == spec_exec_op(0x46, old(c)@, old(b)@).0);
                assert(b@ == spec_exec_op(0x46, old(c)@, old(b)@).1);
            }
        },
        0x48 => {
            _48(c, b);
            proof {
                assert(c@ == spec_exec_op(0x48, old(c)@, old(b)@).0);
                assert(b@ == spec_exec_op(0x48, old(c)@, old(b)@).1);
            }
        },
        0x49 => {
            _49(c, b);
            proof {
                assert(c@ == spec_exec_op(0x49, old(c)@, old(b)@).0);
                assert(b@ == spec_exec_op(0x49, old(c)@, old(b)@).1);
            }
        },
        0x4A => {
            _4A(c, b);
            proof {
                assert(c@ == spec_exec_op(0x4A, old(c)@, old(b)@).0);
                assert(b@ == spec_exec_op(0x4A, old(c)@, old(b)@).1);
            }
        },
        0x4C => {
            _4C(c, b);
            proof {
                assert(c@ == spec_exec_op(0x4C, old(c)@, old(b)@).0);
                assert(b@ == spec_exec_op(0x4C, old(c)@, old(b)@).1);
            }
        },
        0x4D => {
            _4D(c, b);
            proof {
                assert(c@ == spec_exec_op(0x4D, old(c)@, old(b)@).0);
                assert(b@ == spec_exec_op(0x4D, old(c)@, old(b)@).1);
            }
        },
        0x4E => {
            _4E(c, b);
            proof {
                assert(c@ == spec_exec_op(0x4E, old(c)@, old(b)@).0);
                assert(b@ == spec_exec_op(0x4E, old(c)@, old(b)@).1);
            }
        },
        0x50 => {
            _50(c, b);
            proof {
                assert(c@ == spec_exec_op(0x50, old(c)@, old(b)@).0);
                assert(b@ == spec_exec_op(0x50, old(c)@, old(b)@).1);
            }
        },
        0x51 => {
            _51(c, b);
            proof {
                assert(c@ == spec_exec_op(0x51, old(c)@, old(b)@).0);
                assert(b@ == spec_exec_op(0x51, old(c)@, old(b)@).1);
            }
        },
        0x55 => {
            _55(c, b);
            proof {
                assert(c@ == spec_exec_op(0x55, old(c)@, old(b)@).0);
                assert(b@ == spec_exec_op(0x55, old(c)@, old(b)@).1);
            }
        },
        0x56 => {
            _56(c, b);
            proof {
                assert(c@ == spec_exec_op(0x56, old(c)@, old(b)@).0);
                assert(b@ == spec_exec_op(0x56, old(c)@, old(b)@).1);
            }
        },
        0x58 => {
            _58(c, b);
            proof {
                assert(c@ == spec_exec_op(0x58, old(c)@, old(b)@).0);
                assert(b@ == spec_exec_op(0x58, old(c)@, old(b)@).1);
            }
        },
        0x59 => {
            _59(c, b);
            proof {
                assert(c@ == spec_exec_op(0x59, old(c)@, old(b)@).0);
                assert(b@ == spec_exec_op(0x59, old(c)@, old(b)@).1);
            }
        },
        0x5D => {
            _5D(c, b);
            proof {
                assert(c@ == spec_exec_op(0x5D, old(c)@, old(b)@).0);
                assert(b@ == spec_exec_op(0x5D, old(c)@, old(b)@).1);
            }
        },
        0x5E => {
            _5E(c, b);
            proof {
                assert(c@ == spec_exec_op(0x5E, old(c)@, old(b)@).0);
                assert(b@ == spec_exec_op(0x5E, old(c)@, old(b)@).1);
            }
        },
        0x60 => {
            _60(c, b);
            proof {
                assert(c@ == spec_exec_op(0x60, old(c)@, old(b)@).0);
                assert(b@ == spec_exec_op(0x60, old(c)@, old(b)@).1);
            }
        },
        0x61 => {
            _61(c, b);
            proof {
                assert(c@ == spec_exec_op(0x61, old(c)@, old(b)@).0);
                assert(b@ == spec_exec_op(0x61, old(c)@, old(b)@).1);
            }
        },
        0x65 => {
            _65(c, b);
            proof {
                assert(c@ == spec_exec_op(0x65, old(c)@, old(b)@).0);
                assert(b@ == spec_exec_op(0x65, old(c)@, old(b)@).1);
            }
        },
        0x66 => {
            _66(c, b);
            proof {
                assert(c@ == spec_exec_op(0x66, old(c)@, old(b)@).0);
                assert(b@ == spec_exec_op(0x66, old(c)@, old(b)@).1);
            }
        },
        0x68 => {
            _68(c, b);
            proof {
                assert(c@ == spec_exec_op(0x68, old(c)@, old(b)@).0);
                assert(b@ == spec_exec_op(0x68, old(c)@, old(b)@).1);
            }
        },
        0x69 => {
            _69(c, b);
            proof {
                assert(c@ == spec_exec_op(0x69, old(c)@, old(b)@).0);
                assert(b@ == spec_exec_op(0x69, old(c)@, old(b)@).1);
            }
        },
        0x6A => {
            _6A(c, b);
            proof {
                assert(c@ == spec_exec_op(0x6A, old(c)@, old(b)@).0);
                assert(b@ == spec_exec_op(0x6A, old(c)@, old(b)@).1);
            }
        },
        0x6C => {
            _6C(c, b);
            proof {
                assert(c@ == spec_exec_op(0x6C, old(c)@, old(b)@).0);
                assert(b@ == spec_exec_op(0x6C, old(c)@, old(b)@).1);
            }
        },
        0x6D => {
            _6D(c, b);
            proof {
                assert(c@ == spec_exec_op(0x6D, old(c)@, old(b)@).0);
                assert(b@ == spec_exec_op(0x6D, old(c)@, old(b)@).1);
            }
        },
        0x6E => {
            _6E(c, b);
            proof {
                assert(c@ == spec_exec_op(0x6E, old(c)@, old(b)@).0);
                assert(b@ == spec_exec_op(0x6E, old(c)@, old(b)@).1);
            }
        },
        0x70 => {
            _70(c, b);
            proof {
                assert(c@ == spec_exec_op(0x70, old(c)@, old(b)@).0);
                assert(b@ == spec_exec_op(0x70, old(c)@, old(b)@).1);
            }
        },
        0x71 => {
            _71(c, b);
            proof {
                assert(c@ == spec_exec_op(0x71, old(c)@, old(b)@).0);
                assert(b@ == spec_exec_op(0x71, old(c)@, old(b)@).1);
            }
        },
        0x75 => {
            _75(c, b);
            proof {
                assert(c@ == spec_exec_op(0x75, old(c)@, old(b)@).0);
                assert(b@ == spec_exec_op(0x75, old(c)@, old(b)@).1);
            }
        },
        0x76 => {
            _76(c, b);
            proof {
                assert(c@ == spec_exec_op(0x76, old(c)@, old(b)@).0);
                assert(b@ == spec_exec_op(0x76, old(c)@, old(b)@).1);
            }
        },
        0x78 => {
            _78(c, b);
            proof {
                assert(c@ == spec_exec_op(0x78, old(c)@, old(b)@).0);
                assert(b@ == spec_exec_op(0x78, old(c)@, old(b)@).1);
            }
        },
        0x79 => {
            _79(c, b);
            proof {
                assert(c@ == spec_exec_op(0x79, old(c)@, old(b)@).0);
                assert(b@ == spec_exec_op(0x79, old(c)@, old(b)@).1);
            }
        },
        0x7D => {
            _7D(c, b);
            proof {
                assert(c@ == spec_exec_op(0x7D, old(c)@, old(b)@).0);
                assert(b@ == spec_exec_op(0x7D, old(c)@, old(b)@).1);
            }
        },
        0x7E => {
            _7E(c, b);
            proof {
                assert(c@ == spec_exec_op(0x7E, old(c)@, old(b)@).0);
                assert(b@ == spec_exec_op(0x7E, old(c)@, old(b)@).1);
            }
        },
        _ => {
            proof {
                assert(c@ == spec_exec_op(opcode, old(c)@, old(b)@).0);
                assert(b@ == spec_exec_op(opcode, old(c)@, old(b)@).1);
            }
        },
    }
}

#[verifier::rlimit(100)]
#[verifier::spinoff_prover]
fn exec_op_q2(c: &mut Context, b: &mut Bus, opcode: u8)
    requires
        old(b)@.wf(),
        0x80 <= opcode < 0xC0,
    ensures
        final(c)@ == spec_exec_op(opcode, old(c)@, old(b)@).0,
        final(b)@ == spec_exec_op(opcode, old(c)@, old(b)@).1,
        final(b)@.wf(),
{
    proof {
        reveal(spec_exec_op);
    }
    match opcode {
        0x81 => {
            _81(c, b);
            proof {
                assert(c@ == spec_exec_op(0x81, old(c)@, old(b)@).0);
                assert(b@ == spec_exec_op(0x81, old(c)@, old(b)@).1);
            }
        },
        0x84 => {
            _84(c, b);
            proof {
                assert(c@ == spec_exec_op(0x84, old(c)@, old(b)@).0);
                assert(b@ == spec_exec_op(0x84, old(c)@, old(b)@).1);
            }
        },
        0x85 => {
            _85(c, b);
            proof {
                assert(c@ == spec_exec_op(0x85, old(c)@, old(b)@).0);
                assert(b@ == spec_exec_op(0x85, old(c)@, old(b)@).1);
            }
        },
        0x86 => {
            _86(c, b);
            proof {
                assert(c@ == spec_exec_op(0x86, old(c)@, old(b)@).0);
                assert(b@ == spec_exec_op(0x86, old(c)@, old(b)@).1);
            }
        },
        0x88 => {
            _88(c, b);
            proof {
                assert(c@ == spec_exec_op(0x88, old(c)@, old(b)@).0);
                assert(b@ == spec_exec_op(0x88, old(c)@, old(b)@).1);
            }
        },
        0x8A => {
            _8A(c, b);
            proof {
                assert(c@ == spec_exec_op(0x8A, old(c)@, old(b)@).0);
                assert(b@ == spec_exec_op(0x8A, old(c)@, old(b)@).1);
            }
        },
        0x8C => {
            _8C(c, b);
            proof {
                assert(c@ == spec_exec_op(0x8C, old(c)@, old(b)@).0);
                assert(b@ == spec_exec_op(0x8C, old(c)@, old(b)@).1);
            }
        },
        0x8D => {
            _8D(c, b);
            proof {
                assert(c@ == spec_exec_op(0x8D, old(c)@, old(b)@).0);
                assert(b@ == spec_exec_op(0x8D, old(c)@, old(b)@).1);
            }
        },
        0x8E => {
            _8E(c, b);
            proof {
                assert(c@ == spec_exec_op(0x8E, old(c)@, old(b)@).0);
                assert(b@ == spec_exec_op(0x8E, old(c)@, old(b)@).1);
            }
        },
        0x90 => {
            _90(c, b);
            proof {
                assert(c@ == spec_exec_op(0x90, old(c)@, old(b)@).0);
                assert(b@ == spec_exec_op(0x90, old(c)@, old(b)@).1);
            }
        },
        0x91 => {
            _91(c, b);
            proof {
                assert(c@ == spec_exec_op(0x91, old(c)@, old(b)@).0);
                assert(b@ == spec_exec_op(0x91, old(c)@, old(b)@).1);
            }
        },
        0x94 => {
            _94(c, b);
            proof {
                assert(c@ == spec_exec_op(0x94, old(c)@, old(b)@).0);
                assert(b@ == spec_exec_op(0x94, old(c)@, old(b)@).1);
            }
        },
        0x95 => {
            _95(c, b);
            proof {
                assert(c@ == spec_exec_op(0x95, old(c)@, old(b)@).0);
                assert(b@ == spec_exec_op(0x95, old(c)@, old(b)@).1);
            }
        },
        0x96 => {
            _96(c, b);
            proof {
                assert(c@ == spec_exec_op(0x96, old(c)@, old(b)@).0);
                assert(b@ == spec_exec_op(0x96, old(c)@, old(b)@).1);
            }
        },
        0x98 => {
            _98(c, b);
            proof {
                assert(c@ == spec_exec_op(0x98, old(c)@, old(b)@).0);
                assert(b@ == spec_exec_op(0x98, old(c)@, old(b)@).1);
            }
        },
        0x99 => {
            _99(c, b);
            proof {
                assert(c@ == spec_exec_op(0x99, old(c)@, old(b)@).0);
                assert(b@ == spec_exec_op(0x99, old(c)@, old(b)@).1);
            }
        },
        0x9A => {
            _9A(c, b);
            proof {
                assert(c@ == spec_exec_op(0x9A, old(c)@, old(b)@).0);
                assert(b@ == spec_exec_op(0x9A, old(c)@, old(b)@).1);
            }
        },
        0x9D => {
            _9D(c, b);
            proof {
                assert(c@ == spec_exec_op(0x9D, old(c)@, old(b)@).0);
                assert(b@ == spec_exec_op(0x9D, old(c)@, old(b)@).1);
            }
        },
        0xA0 => {
            _A0(c, b);
            proof {
                assert(c@ == spec_exec_op(0xA0, old(c)@, old(b)@).0);
                assert(b@ == spec_exec_op(0xA0, old(c)@, old(b)@).1);
            }
        },
        0xA1 => {
            _A1(c, b);
            proof {
                assert(c@ == spec_exec_op(0xA1, old(c)@, old(b)@).0);
                assert(b@ == spec_exec_op(0xA1, old(c)@, old(b)@).1);
            }
        },
        0xA2 => {
            _A2(c, b);
            proof {
                assert(c@ == spec_exec_op(0xA2, old(c)@, old(b)@).0);
                assert(b@ == spec_exec_op(0xA2, old(c)@, old(b)@).1);
            }
        },
        0xA4 => {
            _A4(c, b);
            proof {
                assert(c@ == spec_exec_op(0xA4, old(c)@, old(b)@).0);
                assert(b@ == spec_exec_op(0xA4, old(c)@, old(b)@).1);
            }
        },
        0xA5 => {
            _A5(c, b);
            proof {
                assert(c@ == spec_exec_op(0xA5, old(c)@, old(b)@).0);
                assert(b@ == spec_exec_op(0xA5, old(c)@, old(b)@).1);
            }
        },
        0xA6 => {
            _A6(c, b);
            proof {
                assert(c@ == spec_exec_op(0xA6, old(c)@, old(b)@).0);
                assert(b@ == spec_exec_op(0xA6, old(c)@, old(b)@).1);
            }
        },
        0xA8 => {
            _A8(c, b);
            proof {
                assert(c@ == spec_exec_op(0xA8, old(c)@, old(b)@).0);
                assert(b@ == spec_exec_op(0xA8, old(c)@, old(b)@).1);
            }
        },
        0xA9 => {
            _A9(c, b);
            proof {
                assert(c@ == spec_exec_op(0xA9, old(c)@, old(b)@).0);
                assert(b@ == spec_exec_op(0xA9, old(c)@, old(b)@).1);
            }
        },
        0xAA => {
            _AA(c, b);
            proof {
                assert(c@ == spec_exec_op(0xAA, old(c)@, old(b)@).0);
                assert(b@ == spec_exec_op(0xAA, old(c)@, old(b)@).1);
            }
        },
        0xAC => {
            _AC(c, b);
            proof {
                assert(c@ == spec_exec_op(0xAC, old(c)@, old(b)@).0);
                assert(b@ == spec_exec_op(0xAC, old(c)@, old(b)@).1);
            }
        },
        0xAD => {
            _AD(c, b);
            proof {
                assert(c@ == spec_exec_op(0xAD, old(c)@, old(b)@).0);
                assert(b@ == spec_exec_op(0xAD, old(c)@, old(b)@).1);
            }
        },
        0xAE => {
            _AE(c, b);
            proof {
                assert(c@ == spec_exec_op(0xAE, old(c)@, old(b)@).0);
                assert(b@ == spec_exec_op(0xAE, old(c)@, old(b)@).1);
            }
        },
        0xB0 => {
            _B0(c, b);
            proof {
                assert(c@ == spec_exec_op(0xB0, old(c)@, old(b)@).0);
                assert(b@ == spec_exec_op(0xB0, old(c)@, old(b)@).1);
            }
        },
        0xB1 => {
            _B1(c, b);
            proof {
                assert(c@ == spec_exec_op(0xB1, old(c)@, old(b)@).0);
                assert(b@ == spec_exec_op(0xB1, old(c)@, old(b)@).1);
            }
        },
        0xB4 => {
            _B4(c, b);
            proof {
                assert(c@ == spec_exec_op(0xB4, old(c)@, old(b)@).0);
                assert(b@ == spec_exec_op(0xB4, old(c)@, old(b)@).1);
            }
        },
        0xB5 => {
            _B5(c, b);
            proof {
                assert(c@ == spec_exec_op(0xB5, old(c)@, old(b)@).0);
                assert(b@ == spec_exec_op(0xB5, old(c)@, old(b)@).1);
            }
        },
        0xB6 => {
            _B6(c, b);
            proof {
                assert(c@ == spec_exec_op(0xB6, old(c)@, old(b)@).0);
                assert(b@ == spec_exec_op(0xB6, old(c)@, old(b)@).1);
            }
        },
        0xB8 => {
            _B8(c, b);
            proof {
                assert(c@ == spec_exec_op(0xB8, old(c)@, old(b)@).0);
                assert(b@ == spec_exec_op(0xB8, old(c)@, old(b)@).1);
            }
        },
        0xB9 => {
            _B9(c, b);
            proof {
                assert(c@ == spec_exec_op(0xB9, old(c)@, old(b)@).0);
                assert(b@ == spec_exec_op(0xB9, old(c)@, old(b)@).1);
            }
        },
        0xBA => {
            _BA(c, b);
            proof {
                assert(c@ == spec_exec_op(0xBA, old(c)@, old(b)@).0);
                assert(b@ == spec_exec_op(0xBA, old(c)@, old(b)@).1);
            }
        },
        0xBC => {
            _BC(c, b);
            proof {
                assert(c@ == spec_exec_op(0xBC, old(c)@, old(b)@).0);
                assert(b@ == spec_exec_op(0xBC, old(c)@, old(b)@).1);
            }
        },
        0xBD => {
            _BD(c, b);
            proof {
                assert(c@ == spec_exec_op(0xBD, old(c)@, old(b)@).0);
                assert(b@ == spec_exec_op(0xBD, old(c)@, old(b)@).1);
            }
        },
        0xBE => {
            _BE(c, b);
            proof {
                assert(c@ == spec_exec_op(0xBE, old(c)@, old(b)@).0);
                assert(b@ == spec_exec_op(0xBE, old(c)@, old(b)@).1);
            }
        },
        _ => {
            proof {
                assert(c@ == spec_exec_op(opcode, old(c)@, old(b)@).0);
                assert(b@ == spec_exec_op(opcode, old(c)@, old(b)@).1);
            }
        },
    }
}

#[verifier::rlimit(100)]
#[verifier::spinoff_prover]
fn exec_op_q3(c: &mut Context, b: &mut Bus, opcode: u8)
    requires
        old(b)@.wf(),
        0xC0 <= opcode < 0x100,
    ensures
        final(c)@ == spec_exec_op(opcode, old(c)@, old(b)@).0,
        final(b)@ == spec_exec_op(opcode, old(c)@, old(b)@).1,
        final(b)@.wf(),
{
    proof {
        reveal(spec_exec_op);
    }
    match opcode {
        0xC0 => {
            _C0(c, b);
            proof {
                assert(c@ == spec_exec_op(0xC0, old(c)@, old(b)@).0);
                assert(b@ == spec_exec_op(0xC0, old(c)@, old(b)@).1);
            }
        },
        0xC1 => {
            _C1(c, b);
            proof {
                assert(c@ == spec_exec_op(0xC1, old(c)@, old(b)@).0);
                assert(b@ == spec_exec_op(0xC1, old(c)@, old(b)@).1);
            }
        },
        0xC4 => {
            _C4(c, b);
            proof {
                assert(c@ == spec_exec_op(0xC4, old(c)@, old(b)@).0);
                assert(b@ == spec_exec_op(0xC4, old(c)@, old(b)@).1);
            }
        },
        0xC5 => {
            _C5(c, b);
            proof {
                assert(c@ == spec_exec_op(0xC5, old(c)@, old(b)@).0);
                assert(b@ == spec_exec_op(0xC5, old(c)@, old(b)@).1);
            }
        },
        0xC6 => {
            _C6(c, b);
            proof {
                assert(c@ == spec_exec_op(0xC6, old(c)@, old(b)@).0);
                assert(b@ == spec_exec_op(0xC6, old(c)@, old(b)@).1);
            }
        },
        0xC8 => {
            _C8(c, b);
            proof {
                assert(c@ == spec_exec_op(0xC8, old(c)@, old(b)@).0);
                assert(b@ == spec_exec_op(0xC8, old(c)@, old(b)@).1);
            }
        },
        0xC9 => {
            _C9(c, b);
            proof {
                assert(c@ == spec_exec_op(0xC9, old(c)@, old(b)@).0);
                assert(b@ == spec_exec_op(0xC9, old(c)@, old(b)@).1);
            }
        },
        0xCA => {
            _CA(c, b);
            proof {
                assert(c@ == spec_exec_op(0xCA, old(c)@, old(b)@).0);
                assert(b@ == spec_exec_op(0xCA, old(c)@, old(b)@).1);
            }
        },
        0xCC => {
            _CC(c, b);
            proof {
                assert(c@ == spec_exec_op(0xCC, old(c)@, old(b)@).0);
                assert(b@ == spec_exec_op(0xCC, old(c)@, old(b)@).1);
            }
        },
        0xCD => {
            _CD(c, b);
            proof {
                assert(c@ == spec_exec_op(0xCD, old(c)@, old(b)@).0);
                assert(b@ == spec_exec_op(0xCD, old(c)@, old(b)@).1);
            }
        },
        0xCE => {
            _CE(c, b);
            proof {
                assert(c@ == spec_exec_op(0xCE, old(c)@, old(b)@).0);
                assert(b@ == spec_exec_op(0xCE, old(c)@, old(b)@).1);
            }
        },
        0xD0 => {
            _D0(c, b);
            proof {
                assert(c@ == spec_exec_op(0xD0, old(c)@, old(b)@).0);
                assert(b@ == spec_exec_op(0xD0, old(c)@, old(b)@).1);
            }
        },
        0xD1 => {
            _D1(c, b);
            proof {
                assert(c@ == spec_exec_op(0xD1, old(c)@, old(b)@).0);
                assert(b@ == spec_exec_op(0xD1, old(c)@, old(b)@).1);
            }
        },
        0xD5 => {
            _D5(c, b);
            proof {
                assert(c@ == spec_exec_op(0xD5, old(c)@, old(b)@).0);
                assert(b@ == spec_exec_op(0xD5, old(c)@, old(b)@).1);
            }
        },
        0xD6 => {
            _D6(c, b);
            proof {
                assert(c@ == spec_exec_op(0xD6, old(c)@, old(b)@).0);
                assert(b@ == spec_exec_op(0xD6, old(c)@, old(b)@).1);
            }
        },
        0xD8 => {
            _D8(c, b);
            proof {
                assert(c@ == spec_exec_op(0xD8, old(c)@, old(b)@).0);
                assert(b@ == spec_exec_op(0xD8, old(c)@, old(b)@).1);
            }
        },
        0xD9 => {
            _D9(c, b);
            proof {
                assert(c@ == spec_exec_op(0xD9, old(c)@, old(b)@).0);
                assert(b@ == spec_exec_op(0xD9, old(c)@, old(b)@).1);
            }
        },
        0xDD => {
            _DD(c, b);
            proof {
                assert(c@ == spec_exec_op(0xDD, old(c)@, old(b)@).0);
                assert(b@ == spec_exec_op(0xDD, old(c)@, old(b)@).1);
            }
        },
        0xDE => {
            _DE(c, b);
            proof {
                assert(c@ == spec_exec_op(0xDE, old(c)@, old(b)@).0);
                assert(b@ == spec_exec_op(0xDE, old(c)@, old(b)@).1);
            }
        },
        0xE0 => {
            _E0(c, b);
            proof {
                assert(c@ == spec_exec_op(0xE0, old(c)@, old(b)@).0);
                assert(b@ == spec_exec_op(0xE0, old(c)@, old(b)@).1);
            }
        },
        0xE1 => {
            _E1(c, b);
            proof {
                assert(c@ == spec_exec_op(0xE1, old(c)@, old(b)@).0);
                assert(b@ == spec_exec_op(0xE1, old(c)@, old(b)@).1);
            }
        },
        0xE4 => {
            _E4(c, b);
            proof {
                assert(c@ == spec_exec_op(0xE4, old(c)@, old(b)@).0);
                assert(b@ == spec_exec_op(0xE4, old(c)@, old(b)@).1);
            }
        },
        0xE5 => {
            _E5(c, b);
            proof {
                assert(c@ == spec_exec_op(0xE5, old(c)@, old(b)@).0);
                assert(b@ == spec_exec_op(0xE5, old(c)@, old(b)@).1);
            }
        },
        0xE6 => {
            _E6(c, b);
            proof {
                assert(c@ == spec_exec_op(0xE6, old(c)@, old(b)@).0);
                assert(b@ == spec_exec_op(0xE6, old(c)@, old(b)@).1);
            }
        },
        0xE8 => {
            _E8(c, b);
            proof {
                assert(c@ == spec_exec_op(0xE8, old(c)@, old(b)@).0);
                assert(b@ == spec_exec_op(0xE8, old(c)@, old(b)@).1);
            }
        },
        0xE9 => {
            _E9(c, b);
            proof {
                assert(c@ == spec_exec_op(0xE9, old(c)@, old(b)@).0);
                assert(b@ == spec_exec_op(0xE9, old(c)@, old(b)@).1);
            }
        },
        0xEA => {
            _EA(c, b);
            proof {
                assert(c@ == spec_exec_op(0xEA, old(c)@, old(b)@).0);
                assert(b@ == spec_exec_op(0xEA, old(c)@, old(b)@).1);
            }
        },
        0xEC => {
            _EC(c, b);
            proof {
                assert(c@ == spec_exec_op(0xEC, old(c)@, old(b)@).0);
                assert(b@ == spec_exec_op(0xEC, old(c)@, old(b)@).1);
            }
        },
        0xED => {
            _ED(c, b);
            proof {
                assert(c@ == spec_exec_op(0xED, old(c)@, old(b)@).0);
                assert(b@ == spec_exec_op(0xED, old(c)@, old(b)@).1);
            }
        },
        0xEE => {
            _EE(c, b);
            proof {
                assert(c@ == spec_exec_op(0xEE, old(c)@, old(b)@).0);
                assert(b@ == spec_exec_op(0xEE, old(c)@, old(b)@).1);
            }
        },
        0xF0 => {
            _F0(c, b);
            proof {
                assert(c@ == spec_exec_op(0xF0, old(c)@, old(b)@).0);
                assert(b@ == spec_exec_op(0xF0, old(c)@, old(b)@).1);
            }
        },
        0xF1 => {
            _F1(c, b);
            proof {
                assert(c@ == spec_exec_op(0xF1, old(c)@, old(b)@).0);
                assert(b@ == spec_exec_op(0xF1, old(c)@, old(b)@).1);
            }
        },
        0xF5 => {
            _F5(c, b);
            proof {
                assert(c@ == spec_exec_op(0xF5, old(c)@, old(b)@).0);
                assert(b@ == spec_exec_op(0xF5, old(c)@, old(b)@).1);
            }
        },
        0xF6 => {
            _F6(c, b);
            proof {
                assert(c@ == spec_exec_op(0xF6, old(c)@, old(b)@).0);
                assert(b@ == spec_exec_op(0xF6, old(c)@, old(b)@).1);
            }
        },
        0xF8 => {
            _F8(c, b);
            proof {
                assert(c@ == spec_exec_op(0xF8, old(c)@, old(b)@).0);
                assert(b@ == spec_exec_op(0xF8, old(c)@, old(b)@).1);
            }
        },
        0xF9 => {
            _F9(c, b);
            proof {
                assert(c@ == spec_exec_op(0xF9, old(c)@, old(b)@).0);
                assert(b@ == spec_exec_op(0xF9, old(c)@, old(b)@).1);
            }
        },
        0xFD => {
            _FD(c, b);
            proof {
                assert(c@ == spec_exec_op(0xFD, old(c)@, old(b)@).0);
                assert(b@ == spec_exec_op(0xFD, old(c)@, old(b)@).1);
            }
        },
        0xFE => {
            _FE(c, b);
            proof {
                assert(c@ == spec_exec_op(0xFE, old(c)@, old(b)@).0);
                assert(b@ == spec_exec_op(0xFE, old(c)@, old(b)@).1);
            }
        },
        _ => {
            proof {
                assert(c@ == spec_exec_op(opcode, old(c)@, old(b)@).0);
                assert(b@ == spec_exec_op(opcode, old(c)@, old(b)@).1);
            }
        },
    }
}

/// Execute one decoded operation.
pub(crate) fn exec_op(c: &mut Context, b: &mut Bus, opcode: u8)
    requires
        old(b)@.wf(),
    ensures
        final(c)@ == spec_exec_op(opcode, old(c)@, old(b)@).0,
        final(b)@ == spec_exec_op(opcode, old(c)@, old(b)@).1,
        final(b)@.wf(),
{
    if opcode < 0x40 {
        exec_op_q0(c, b, opcode);
    } else if opcode < 0x80 {
        exec_op_q1(c, b, opcode);
    } else if opcode < 0xC0 {
        exec_op_q2(c, b, opcode);
    } else {
        exec_op_q3(c, b, opcode);
    }
}

} // verus!
