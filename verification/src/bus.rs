use vstd::prelude::*;

verus! {

use crate::apu::ApuView;
use crate::apu::APU;
use crate::cartridge::Cartridge;
use crate::cartridge::LoadError;
use crate::input::InputView;
use crate::input::Input;
use crate::mmu::MmuView;
use crate::mmu::MMU;
use crate::ppu::spec_ppu_step;
use crate::ppu::spec_reg_read;
use crate::ppu::spec_reg_write;
use crate::ppu::PpuView;
use crate::ppu::PPU;

/// Mathematical image of the whole bus: the four components it owns and the
/// latched NMI signal.
#[verifier::ext_equal]
pub ghost struct BusView {
    pub ppu: PpuView,
    pub apu: ApuView,
    pub mmu: MmuView,
    pub input: InputView,
    pub nmi_occurred: bool,
}

impl BusView {
    pub open spec fn wf(self) -> bool {
        &&& self.ppu.wf()
        &&& self.apu.wf()
        &&& self.mmu.wf()
    }
}

/// One bus tick: the APU advances one cycle and the PPU three dots (three
/// dots to one CPU sub-cycle), accumulating the NMI and frame signals.
#[verifier::opaque]
pub open spec fn spec_bus_step(b: BusView) -> (BusView, bool) {
    let a1 = b.apu.step();
    let (p1, n1, f1) = spec_ppu_step(b.ppu, b.mmu, b.nmi_occurred);
    let (p2, n2, f2) = spec_ppu_step(p1, b.mmu, n1);
    let (p3, n3, f3) = spec_ppu_step(p2, b.mmu, n2);
    (BusView { apu: a1, ppu: p3, nmi_occurred: n3, ..b }, f1 || f2 || f3)
}

/// Value and state of one CPU-bus read: the mapper first, then the PPU
/// register ports, the APU registers and the input latch; an unhandled
/// address reads as $FF.
#[verifier::opaque]
pub open spec fn spec_bus_read(b: BusView, address: u16) -> (BusView, u8) {
    match b.mmu.cpu_read(address) {
        Some(v) => (b, v),
        None => {
            if 0x2000 <= address && address <= 0x3FFF {
                let (p, v) = spec_reg_read(b.ppu, b.mmu, address);
                (BusView { ppu: p, ..b }, v)
            } else if (0x4000 <= address && address <= 0x4013) || address == 0x4015 {
                (b, b.apu.read(address))
            } else if address == 0x4016 || address == 0x4017 {
                let r = b.input.read(address);
                (BusView { input: r.0, ..b }, r.1)
            } else {
                (b, 0xFF)
            }
        },
    }
}

/// State after one CPU-bus write that is not the OAM-DMA trigger: the mapper
/// first, then the PPU register ports, the APU registers and the input
/// latch; an unhandled write is dropped.
#[verifier::opaque]
pub open spec fn spec_bus_write_port(b: BusView, address: u16, value: u8) -> BusView {
    let w = b.mmu.cpu_write(address, value);
    if w.0 {
        BusView { mmu: w.1, ..b }
    } else if 0x2000 <= address && address <= 0x3FFF {
        let r = spec_reg_write(b.ppu, b.mmu, address, value);
        BusView { ppu: r.0, mmu: r.1, ..b }
    } else if (0x4000 <= address && address <= 0x4013) || address == 0x4015 {
        b
    } else if address == 0x4016 || address == 0x4017 {
        BusView { input: b.input.write(address, value), ..b }
    } else {
        b
    }
}

/// State after `n` OAM-DMA transfers: each reads one byte at `src` and
/// writes it to the PPU OAM-data port, stepping `src`.
pub open spec fn spec_bus_dma(b: BusView, src: u16, n: nat) -> BusView
    decreases n,
{
    if n == 0 {
        b
    } else {
        let r = spec_bus_read(b, src);
        let b2 = spec_bus_write_port(r.0, 0x2004, r.1);
        spec_bus_dma(b2, (src + 1) as u16, (n - 1) as nat)
    }
}

/// State after one CPU-bus write: a write to $4014 triggers the 256-byte
/// OAM DMA burst from page `value`; everything else dispatches as a port
/// write.
#[verifier::opaque]
pub open spec fn spec_bus_write(b: BusView, address: u16, value: u8) -> BusView {
    let w = b.mmu.cpu_write(address, value);
    if w.0 {
        BusView { mmu: w.1, ..b }
    } else if address == 0x4014 {
        spec_bus_dma(b, (value as u16) << 8, 256)
    } else {
        spec_bus_write_port(b, address, value)
    }
}

/// The bus after `reset`: every component in its reset state and the NMI
/// latch cleared.
pub open spec fn spec_bus_reset(b: BusView) -> BusView {
    BusView {
        ppu: crate::ppu::spec_ppu_reset(b.ppu),
        apu: ApuView { ch1_length: 0, ..b.apu },
        mmu: MmuView {
            cpu_ram: Seq::new(0x800, |i: int| 0u8),
            ppu_ram: Seq::new(0x1000, |i: int| 0u8),
            palette: Seq::new(0x20, |i: int| 0u8),
            ..b.mmu
        },
        input: crate::input::spec_input_reset(),
        nmi_occurred: false,
    }
}

/// Interconnect: owns the PPU, APU, MMU and input latch, routes CPU memory
/// accesses among them, and steps the PPU three dots per CPU sub-cycle.
pub struct Bus {
    /// Component: PPU
    pub ppu: PPU,

    /// Component: APU
    pub apu: APU,

    /// Component: memory-management unit
    pub mmu: MMU,

    /// Component: input latch
    pub input: Input,

    /// NMI occurred (signal); set by the PPU and read by the CPU
    pub nmi_occurred: bool,
}

impl View for Bus {
    type V = BusView;

    open spec fn view(&self) -> BusView {
        BusView {
            ppu: self.ppu@,
            apu: self.apu@,
            mmu: self.mmu@,
            input: self.input@,
            nmi_occurred: self.nmi_occurred,
        }
    }
}

impl Bus {
    /// A bus whose components are in their powered-down state; `reset`
    /// makes it well-formed.
    pub fn new() -> (r: Bus)
        ensures
            !r@.nmi_occurred,
            !r@.mmu.has_controller,
    {
        Bus {
            ppu: PPU::new(),
            apu: APU::new(),
            mmu: MMU::new(),
            input: Input::new(),
            nmi_occurred: false,
        }
    }

    /// Hand the cartridge to the MMU.  A cartridge naming an unknown mapper
    /// is refused and nothing changes.
    #[verifier::rlimit(100)]
    #[verifier::spinoff_prover]
    pub fn take_cartridge(&mut self, cartridge: Cartridge) -> (r: Result<(), LoadError>)
        ensures
            r is Ok <==> cartridge@.ines_mapper == 0,
            r is Ok ==> final(self)@ == (BusView {
                mmu: MmuView { cart: cartridge@, has_controller: true, ..old(self)@.mmu },
                ..old(self)@
            }),
            r is Err ==> final(self)@ == old(self)@,
            r is Err ==> r == Err::<(), LoadError>(LoadError::UnsupportedMapper),
    {
        let r = self.mmu.take_cartridge(cartridge);
        proof {
            if r is Ok {
                assert(self@ =~= (BusView {
                    mmu: MmuView { cart: cartridge@, has_controller: true, ..old(self)@.mmu },
                    ..old(self)@
                }));
            } else {
                assert(self@ =~= old(self)@);
            }
        }
        r
    }

    /// Reset every component and clear the NMI latch.  The bus is
    /// well-formed afterwards whenever the installed cartridge is.
    #[verifier::rlimit(100)]
    #[verifier::spinoff_prover]
    pub fn reset(&mut self)
        ensures
            final(self)@ == spec_bus_reset(old(self)@),
            old(self)@.apu.wf() && (old(self)@.mmu.has_controller ==> old(self)@.mmu.cart.wf())
                ==> final(self)@.wf(),
    {
        self.nmi_occurred = false;

        self.ppu.reset();
        self.apu.reset();
        self.mmu.reset();
        self.input.reset();
        proof {
            assert(self@ =~= spec_bus_reset(old(self)@));
        }
    }

    /// One bus tick: the APU steps once and the PPU three dots.  The
    /// returned flag reports that one of the dots finished a frame.
    #[verifier::rlimit(100)]
    #[verifier::spinoff_prover]
    pub fn step(&mut self) -> (frame: bool)
        requires
            old(self)@.wf(),
        ensures
            final(self)@ == spec_bus_step(old(self)@).0,
            frame == spec_bus_step(old(self)@).1,
            final(self)@.wf(),
    {
        self.apu.step();

        // Three PPU steps ("dots") to one CPU step ("cycle")
        let f1 = self.ppu.step(&mut self.mmu, &mut self.nmi_occurred);
        let f2 = self.ppu.step(&mut self.mmu, &mut self.nmi_occurred);
        let f3 = self.ppu.step(&mut self.mmu, &mut self.nmi_occurred);

        proof {
            reveal(spec_bus_step);
            assert(self@ =~= spec_bus_step(old(self)@).0);
        }
        f1 || f2 || f3
    }

    /// One CPU-bus read.
    #[verifier::rlimit(100)]
    #[verifier::spinoff_prover]
    pub fn read(&mut self, address: u16) -> (r: u8)
        requires
            old(self)@.wf(),
        ensures
            final(self)@ == spec_bus_read(old(self)@, address).0,
            r == spec_bus_read(old(self)@, address).1,
            final(self)@.wf(),
    {
        proof {
            reveal(spec_bus_read);
        }
        let mut value: u8 = 0xFF;
        if self.mmu.cpu_try_read(address, &mut value) {
            proof {
                assert(self@ =~= spec_bus_read(old(self)@, address).0);
            }
            return value;
        }

        if 0x2000 <= address && address <= 0x3FFF {
            // PPU registers
            let r = self.ppu.read(&mut self.mmu, address);
            proof {
                assert(self@ =~= spec_bus_read(old(self)@, address).0);
            }
            r
        } else if (0x4000 <= address && address <= 0x4013) || address == 0x4015 {
            // APU registers
            let r = self.apu.read(address);
            proof {
                assert(self@ =~= spec_bus_read(old(self)@, address).0);
            }
            r
        } else if address == 0x4016 || address == 0x4017 {
            // Input
            let r = self.input.read(address);
            proof {
                assert(self@ =~= spec_bus_read(old(self)@, address).0);
            }
            r
        } else {
            // Unhandled read
            proof {
                assert(self@ =~= spec_bus_read(old(self)@, address).0);
            }
            0xFF
        }
    }

    /// One CPU-bus write to anything but the OAM-DMA trigger.
    #[verifier::rlimit(100)]
    #[verifier::spinoff_prover]
    fn write_port(&mut self, address: u16, value: u8)
        requires
            old(self)@.wf(),
        ensures
            final(self)@ == spec_bus_write_port(old(self)@, address, value),
            final(self)@.wf(),
    {
        proof {
            reveal(spec_bus_write_port);
        }
        if self.mmu.cpu_try_write(address, value) {
            proof {
                assert(self@ =~= spec_bus_write_port(old(self)@, address, value));
            }
            return ;
        }

        if 0x2000 <= address && address <= 0x3FFF {
            // PPU registers
            self.ppu.write(&mut self.mmu, address, value);
            proof {
                assert(self@ =~= spec_bus_write_port(old(self)@, address, value));
            }
        } else if (0x4000 <= address && address <= 0x4013) || address == 0x4015 {
            // APU registers
            self.apu.write(address, value);
            proof {
                assert(self@ =~= spec_bus_write_port(old(self)@, address, value));
            }
        } else if address == 0x4016 || address == 0x4017 {
            // Input
            self.input.write(address, value);
            proof {
                assert(self@ =~= spec_bus_write_port(old(self)@, address, value));
            }
        } else {
            // Unhandled write; dropped
            proof {
                assert(self@ =~= spec_bus_write_port(old(self)@, address, value));
            }
        }
    }

    /// One CPU-bus write.  A write to $4014 performs the 256-byte OAM DMA
    /// burst: the page `value << 8` is read byte by byte and pushed through
    /// the OAM-data port.
    #[verifier::rlimit(100)]
    #[verifier::spinoff_prover]
    pub fn write(&mut self, address: u16, value: u8)
        requires
            old(self)@.wf(),
        ensures
            final(self)@ == spec_bus_write(old(self)@, address, value),
            final(self)@.wf(),
    {
        proof {
            reveal(spec_bus_write);
        }
        if self.mmu.cpu_try_write(address, value) {
            proof {
                assert(self@ =~= spec_bus_write(old(self)@, address, value));
            }
            return ;
        }

        if address == 0x4014 {
            // OAM DMA
            let src: u16 = (value as u16) << 8;
            let ghost b0 = old(self)@;
            let mut i: usize = 0;
            proof {
                assert(src + 256 <= 0x10000) by (bit_vector)
                    requires
                        src == (value as u16) << 8,
                ;
            }
            while i < 256
                invariant
                    i <= 256,
                    src + 256 <= 0x10000,
                    self@.wf(),
                    spec_bus_dma(b0, src, 256) == spec_bus_dma(
                        self@,
                        (src + i) as u16,
                        (256 - i) as nat,
                    ),
                decreases 256 - i,
            {
                let ghost before = self@;
                let r = self.read(src + (i as u16));
                self.write_port(0x2004, r);
                i = i + 1;
                proof {
                    assert(spec_bus_dma(before, (src + i - 1) as u16, (256 - (i - 1)) as nat)
                        == spec_bus_dma(self@, (src + i) as u16, (256 - i) as nat));
                }
            }
            proof {
                assert(spec_bus_dma(self@, (src + 256) as u16, 0) == self@);
            }
        } else {
            self.write_port(address, value);
            proof {
                assert(self@ =~= spec_bus_write(old(self)@, address, value));
            }
        }
    }
}

} // verus!
