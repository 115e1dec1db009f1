use vstd::prelude::*;

verus! {

use crate::bus::spec_bus_read;
use crate::bus::spec_bus_step;
use crate::bus::Bus;
use crate::bus::BusView;

/// Carry flag (C).
pub const CARRY: u8 = 0x01;

/// Zero flag (Z).
pub const ZERO: u8 = 0x02;

/// Interrupt-disable flag (I).
pub const IRQ_DISABLE: u8 = 0x04;

/// Decimal-mode flag (D); no instruction on this platform uses it.
pub const DECIMAL_MODE: u8 = 0x08;

/// Break flag (B); only visible in the copies pushed by PHP, BRK and NMI.
pub const BREAK: u8 = 0x10;

/// Overflow flag (V).
pub const OVERFLOW: u8 = 0x40;

/// Sign/negative flag (N).
pub const SIGN: u8 = 0x80;

/// The status bits that exist in the register: all but the unused bit 5.
pub const FLAG_MASK: u8 = 0xDF;

/// The cycle counter advanced by one; it saturates at the top, which a
/// machine would take half a billion years to reach.
pub open spec fn spec_cyc1(t: u64) -> u64 {
    if t == 0xFFFF_FFFF_FFFF_FFFF {
        t
    } else {
        (t + 1) as u64
    }
}

/// One CPU sub-cycle at the specification level: the cycle counter advances
/// and the bus ticks once.
pub open spec fn spec_tick(c: CtxView, b: BusView) -> (CtxView, BusView) {
    (CtxView { total_cycles: spec_cyc1(c.total_cycles), ..c }, spec_bus_step(b).0)
}

/// A flag set with `value` stored into the bits `mask` selects.
pub open spec fn spec_set_flag(bits: u8, mask: u8, value: bool) -> u8 {
    if value {
        bits | mask
    } else {
        bits & !mask
    }
}

/// Processor status register P: a bit set over the seven 6502 flags.
pub struct Flags {
    pub bits: u8,
}

impl Flags {
    pub fn new() -> (r: Flags)
        ensures
            r.bits == 0,
    {
        Flags { bits: 0 }
    }

    /// Build a status register from a pushed byte, dropping the unused bit.
    pub fn from_bits_truncate(bits: u8) -> (r: Flags)
        ensures
            r.bits == bits & FLAG_MASK,
    {
        Flags { bits: bits & FLAG_MASK }
    }

    /// All the bits of `mask` are set.
    pub fn contains(&self, mask: u8) -> (r: bool)
        ensures
            r == (self.bits & mask == mask),
    {
        self.bits & mask == mask
    }

    pub fn insert(&mut self, mask: u8)
        ensures
            final(self).bits == old(self).bits | mask,
    {
        self.bits = self.bits | mask;
    }

    pub fn remove(&mut self, mask: u8)
        ensures
            final(self).bits == old(self).bits & !mask,
    {
        self.bits = self.bits & !mask;
    }

    /// Set or clear the bits of `mask` according to `value`.
    pub fn set(&mut self, mask: u8, value: bool)
        ensures
            final(self).bits == spec_set_flag(old(self).bits, mask, value),
    {
        if value {
            self.insert(mask);
        } else {
            self.remove(mask);
        }
    }
}

/// Mathematical image of the CPU registers.
#[verifier::ext_equal]
pub ghost struct CtxView {
    pub a: u8,
    pub x: u8,
    pub y: u8,
    pub pc: u16,
    pub s: u8,
    pub p: u8,
    pub total_cycles: u64,
}

/// CPU registers and the running sub-cycle counter.
pub struct Context {
    /// Accumulator A
    pub a: u8,

    /// Index X
    pub x: u8,

    /// Index Y
    pub y: u8,

    /// Program counter PC
    pub pc: u16,

    /// Stack pointer S (an index into page 1)
    pub s: u8,

    /// Processor status P
    pub p: Flags,

    /// Running clock-cycle counter (diagnostics only)
    pub total_cycles: u64,
}

impl View for Context {
    type V = CtxView;

    open spec fn view(&self) -> CtxView {
        CtxView {
            a: self.a,
            x: self.x,
            y: self.y,
            pc: self.pc,
            s: self.s,
            p: self.p.bits,
            total_cycles: self.total_cycles,
        }
    }
}

/// The register file after the reset protocol, with the program counter
/// fetched from the reset vector at $FFFC/$FFFD.
pub open spec fn spec_ctx_reset(c: CtxView, b: BusView) -> (CtxView, BusView) {
    let r1 = spec_bus_read(b, 0xFFFC);
    let r2 = spec_bus_read(r1.0, 0xFFFD);
    (
        CtxView {
            a: 0,
            x: 0,
            y: 0,
            s: 0xFD,
            p: 0x34,
            pc: (r1.1 as u16 | ((r2.1 as u16) << 8)) as u16,
            total_cycles: c.total_cycles,
        },
        r2.0,
    )
}

impl Context {
    pub fn new() -> (r: Context)
        ensures
            r@ == (CtxView { a: 0, x: 0, y: 0, pc: 0, s: 0, p: 0, total_cycles: 0 }),
    {
        Context { a: 0, x: 0, y: 0, pc: 0, s: 0, p: Flags::new(), total_cycles: 0 }
    }

    /// The reset protocol: A = X = Y = 0, S = $FD, P = $34, and PC loaded
    /// from the reset vector.
    pub fn reset(&mut self, b: &mut Bus)
        requires
            old(b)@.wf(),
        ensures
            final(self)@ == spec_ctx_reset(old(self)@, old(b)@).0,
            final(b)@ == spec_ctx_reset(old(self)@, old(b)@).1,
            final(b)@.wf(),
    {
        self.a = 0;
        self.x = 0;
        self.y = 0;
        self.s = 0xFD;
        self.p.bits = 0x34;

        // Fetch the /RESET vector
        let l = b.read(0xFFFC);
        let h = b.read(0xFFFD);
        self.pc = l as u16 | ((h as u16) << 8);
        proof {
            assert(self@ =~= spec_ctx_reset(old(self)@, old(b)@).0);
        }
    }

    /// One CPU sub-cycle: tick the bus (three PPU dots) and count it.
    pub fn step(&mut self, b: &mut Bus)
        requires
            old(b)@.wf(),
        ensures
            final(self)@ == spec_tick(old(self)@, old(b)@).0,
            final(b)@ == spec_tick(old(self)@, old(b)@).1,
            final(b)@.wf(),
    {
        let _frame = b.step();
        self.total_cycles = if self.total_cycles == 0xFFFF_FFFF_FFFF_FFFF {
            self.total_cycles
        } else {
            self.total_cycles + 1
        };
        proof {
            assert(self@ =~= spec_tick(old(self)@, old(b)@).0);
        }
    }
}

/// An opcode without a table entry, and the address it was fetched from.
#[derive(Clone, Copy, Debug, PartialEq, Eq, Structural)]
pub struct DecodeError {
    /// The unknown opcode byte
    pub opcode: u8,

    /// The address the opcode was fetched from
    pub pc: u16,
}

/// The NMI service sequence, run at an instruction boundary when the signal
/// is latched: push PCH, PCL and P (break and unused bits forced), fetch the
/// vector at $FFFA/$FFFB into PC, set the interrupt-disable flag and clear
/// the latch.  Without the signal, nothing happens.
#[verifier::opaque]
pub open spec fn spec_nmi_service(c: CtxView, b: BusView) -> (CtxView, BusView) {
    if b.nmi_occurred {
        let t1 = spec_tick(c, b);
        let b1 = crate::bus::spec_bus_write(
            t1.1,
            (0x100 + t1.0.s as u16) as u16,
            (t1.0.pc >> 8) as u8,
        );
        let c1 = CtxView { s: crate::op::spec_dec8(t1.0.s), ..t1.0 };
        let t2 = spec_tick(c1, b1);
        let b2 = crate::bus::spec_bus_write(
            t2.1,
            (0x100 + t2.0.s as u16) as u16,
            (t2.0.pc & 0xFF) as u8,
        );
        let c2 = CtxView { s: crate::op::spec_dec8(t2.0.s), ..t2.0 };
        let t3 = spec_tick(c2, b2);
        let b3 = crate::bus::spec_bus_write(
            t3.1,
            (0x100 + t3.0.s as u16) as u16,
            (t3.0.p | crate::cpu::BREAK) | 0x20,
        );
        let c3 = CtxView { s: crate::op::spec_dec8(t3.0.s), ..t3.0 };
        let t4 = spec_tick(c3, b3);
        let rl = spec_bus_read(t4.1, 0xFFFA);
        let t5 = spec_tick(t4.0, rl.0);
        let rh = spec_bus_read(t5.1, 0xFFFB);
        (
            CtxView {
                pc: (rl.1 as u16 | ((rh.1 as u16) << 8)) as u16,
                p: (t5.0.p | IRQ_DISABLE) as u8,
                ..t5.0
            },
            BusView { nmi_occurred: false, ..rh.0 },
        )
    } else {
        (c, b)
    }
}

/// The opcode `run_next` fetches: the byte at PC after the fetch tick.
pub open spec fn spec_fetched_opcode(c: CtxView, b: BusView) -> u8 {
    spec_bus_read(spec_tick(c, b).1, c.pc).1
}

/// One instruction of the interpreter: the fetch tick and opcode read, the
/// dummy read for one-byte operations, the operation itself, and the NMI
/// service at the boundary.  `None` when the opcode has no table entry.
#[verifier::opaque]
pub open spec fn spec_run_next(c: CtxView, b: BusView, pending: bool) -> Option<
    (CtxView, BusView, bool),
> {
    let t = spec_tick(c, b);
    let f = spec_bus_read(t.1, t.0.pc);
    let opcode = f.1;
    let c1 = CtxView { pc: crate::om::spec_pc1(t.0.pc), ..t.0 };
    if !crate::table::spec_op_defined(opcode) {
        None
    } else {
        let e = if crate::table::spec_op_size(opcode) <= 1 {
            // The part always reads at least two bytes per instruction
            let t2 = spec_tick(c1, f.0);
            let d = spec_bus_read(t2.1, t2.0.pc);
            crate::op::spec_exec_op(opcode, t2.0, d.0)
        } else {
            crate::op::spec_exec_op(opcode, c1, f.0)
        };
        let n = spec_nmi_service(e.0, e.1);
        if n.1.nmi_occurred {
            // An NMI latched during the service itself is held pending
            Some((n.0, BusView { nmi_occurred: false, ..n.1 }, true))
        } else {
            Some((n.0, n.1, pending))
        }
    }
}

/// The 6502 interpreter: the register file, the opcode table, the NMI
/// bookkeeping, and the reset protocol.
pub struct CPU {
    /// Registers and cycle counter
    pub ctx: Context,

    /// Opcode dispatch table
    pub table: crate::table::Table,

    /// An NMI arrived during the service of the previous one.
    pub nmi_pending: bool,
}

impl CPU {
    pub fn new() -> (r: CPU)
        ensures
            r.ctx@ == (CtxView { a: 0, x: 0, y: 0, pc: 0, s: 0, p: 0, total_cycles: 0 }),
            !r.nmi_pending,
    {
        CPU { ctx: Context::new(), table: crate::table::Table {  }, nmi_pending: false }
    }

    /// Reset the register file through the bus and clear the NMI latch.
    pub fn reset(&mut self, b: &mut Bus)
        requires
            old(b)@.wf(),
        ensures
            final(self).ctx@ == spec_ctx_reset(old(self).ctx@, old(b)@).0,
            final(b)@ == spec_ctx_reset(old(self).ctx@, old(b)@).1,
            !final(self).nmi_pending,
            final(b)@.wf(),
    {
        self.ctx.reset(b);
        self.nmi_pending = false;
    }

    /// Run the next instruction, servicing a latched NMI at the boundary.
    /// An opcode without a table entry is reported with the address it was
    /// fetched from; the fetch itself has already happened.
    #[verifier::rlimit(100)]
    #[verifier::spinoff_prover]
    pub fn run_next(&mut self, b: &mut Bus) -> (r: Result<(), DecodeError>)
        requires
            old(b)@.wf(),
        ensures
            r is Ok <==> spec_run_next(old(self).ctx@, old(b)@, old(self).nmi_pending) is Some,
            r is Ok ==> final(self).ctx@ == spec_run_next(
                old(self).ctx@,
                old(b)@,
                old(self).nmi_pending,
            ).unwrap().0,
            r is Ok ==> final(b)@ == spec_run_next(
                old(self).ctx@,
                old(b)@,
                old(self).nmi_pending,
            ).unwrap().1,
            r is Ok ==> final(self).nmi_pending == spec_run_next(
                old(self).ctx@,
                old(b)@,
                old(self).nmi_pending,
            ).unwrap().2,
            r is Err ==> r == Err::<(), DecodeError>(
                DecodeError {
                    opcode: spec_fetched_opcode(old(self).ctx@, old(b)@),
                    pc: old(self).ctx@.pc,
                },
            ),
            final(b)@.wf(),
    {
        proof {
            reveal(spec_run_next);
        }
        let ghost t = spec_tick(old(self).ctx@, old(b)@);
        let ghost f = spec_bus_read(t.1, t.0.pc);

        // Fetch the opcode
        let pc0 = self.ctx.pc;
        self.ctx.step(b);
        let opcode = b.read(self.ctx.pc);
        self.ctx.pc = crate::om::pc1(self.ctx.pc);
        proof {
            assert(self.ctx@ =~= (CtxView { pc: crate::om::spec_pc1(t.0.pc), ..t.0 }));
            assert(opcode == f.1);
            assert(b@ == f.0);
        }
        let ghost c1 = CtxView { pc: crate::om::spec_pc1(t.0.pc), ..t.0 };

        // Decode
        let operation = self.table.index(opcode);
        if !operation.defined {
            return Err(DecodeError { opcode: opcode, pc: pc0 });
        }

        // The part always reads at least two bytes per instruction; this
        // dummy read keeps the PPU timing right for one-byte operations.
        if operation.size <= 1 {
            self.ctx.step(b);
            let _ = b.read(self.ctx.pc);
        }
        let ghost c2 = if crate::table::spec_op_size(opcode) <= 1 {
            spec_tick(c1, f.0).0
        } else {
            c1
        };
        let ghost b2 = if crate::table::spec_op_size(opcode) <= 1 {
            spec_bus_read(spec_tick(c1, f.0).1, spec_tick(c1, f.0).0.pc).0
        } else {
            f.0
        };
        proof {
            assert(self.ctx@ == c2);
            assert(b@ == b2);
        }

        // Execute
        crate::op::exec_op(&mut self.ctx, b, opcode);
        let ghost e = crate::op::spec_exec_op(opcode, c2, b2);
        proof {
            assert(self.ctx@ == e.0);
            assert(b@ == e.1);
        }

        // Service a latched NMI at the instruction boundary
        nmi_service(&mut self.ctx, b);
        let ghost n = spec_nmi_service(e.0, e.1);
        proof {
            assert(self.ctx@ == n.0);
            assert(b@ == n.1);
        }

        // An NMI that latched during the service is held for the next
        // boundary.
        if b.nmi_occurred {
            self.nmi_pending = true;
            b.nmi_occurred = false;
            proof {
                assert(b@ =~= (BusView { nmi_occurred: false, ..n.1 }));
            }
        }
        Ok(())
    }
}

/// The NMI service at an instruction boundary.
#[verifier::rlimit(100)]
#[verifier::spinoff_prover]
fn nmi_service(c: &mut Context, b: &mut Bus)
    requires
        old(b)@.wf(),
    ensures
        final(c)@ == spec_nmi_service(old(c)@, old(b)@).0,
        final(b)@ == spec_nmi_service(old(c)@, old(b)@).1,
        final(b)@.wf(),
{
    proof {
        reveal(spec_nmi_service);
    }
    if b.nmi_occurred {
        // Push PCH; decrement S
        c.step(b);
        b.write(0x100 + c.s as u16, (c.pc >> 8) as u8);
        c.s = crate::op::dec8(c.s);

        // Push PCL; decrement S
        c.step(b);
        b.write(0x100 + c.s as u16, (c.pc & 0xFF) as u8);
        c.s = crate::op::dec8(c.s);

        // Push P with the break and unused bits forced; decrement S
        c.step(b);
        b.write(0x100 + c.s as u16, (c.p.bits | BREAK) | 0x20);
        c.s = crate::op::dec8(c.s);

        // Fetch the vector
        c.step(b);
        let l = b.read(0xFFFA);

        c.step(b);
        let h = b.read(0xFFFB);
        c.pc = l as u16 | ((h as u16) << 8);

        // Set the interrupt-disable flag; the signal is consumed
        c.p.insert(IRQ_DISABLE);
        b.nmi_occurred = false;
        proof {
            assert(c@ =~= spec_nmi_service(old(c)@, old(b)@).0);
            assert(b@ =~= spec_nmi_service(old(c)@, old(b)@).1);
        }
    }
}

} // verus!
