use vstd::prelude::*;

verus! {

use crate::bus::spec_bus_reset;
use crate::bus::Bus;
use crate::cartridge::spec_cartridge_of;
use crate::cartridge::spec_image_ok;
use crate::cartridge::Cartridge;
use crate::cartridge::LoadError;
use crate::cpu::spec_ctx_reset;
use crate::cpu::spec_run_next;
use crate::cpu::DecodeError;
use crate::cpu::CPU;

/// The whole console: the bus with its components, and the CPU that drives
/// it.
pub struct Machine {
    /// Interconnect/bus
    pub bus: Bus,

    /// CPU
    pub cpu: CPU,
}

impl Machine {
    pub fn new() -> (r: Machine)
        ensures
            !r.bus@.nmi_occurred,
            !r.bus@.mmu.has_controller,
    {
        Machine { bus: Bus::new(), cpu: CPU::new() }
    }

    /// Parse an iNES image and install the cartridge it describes.  `Ok`
    /// exactly when the image is well formed and names the NROM mapper.
    pub fn open(&mut self, rom: &Vec<u8>) -> (r: Result<(), LoadError>)
        ensures
            r is Ok <==> (spec_image_ok(rom@) && spec_cartridge_of(rom@).ines_mapper == 0),
            r is Ok ==> final(self).bus@.mmu.cart == spec_cartridge_of(rom@)
                && final(self).bus@.mmu.has_controller && final(self).bus@.mmu.cart.wf(),
            r is Err ==> final(self).bus@ == old(self).bus@,
    {
        let mut cartridge = Cartridge::new();
        match cartridge.load(rom) {
            Ok(_) => {},
            Err(e) => {
                return Err(e);
            },
        }

        // Give the cartridge to the bus
        self.bus.take_cartridge(cartridge)
    }

    /// Reset the bus (all components) and then the CPU through it, which
    /// runs the reset protocol: A = X = Y = 0, S = $FD, P = $34, and PC
    /// loaded from the reset vector at $FFFC/$FFFD of the reset bus.
    pub fn reset(&mut self)
        requires
            old(self).bus@.apu.wf(),
            old(self).bus@.mmu.has_controller ==> old(self).bus@.mmu.cart.wf(),
        ensures
            final(self).cpu.ctx@ == spec_ctx_reset(
                old(self).cpu.ctx@,
                spec_bus_reset(old(self).bus@),
            ).0,
            final(self).bus@ == spec_ctx_reset(
                old(self).cpu.ctx@,
                spec_bus_reset(old(self).bus@),
            ).1,
            !final(self).cpu.nmi_pending,
            final(self).bus@.wf(),
    {
        self.bus.reset();
        self.cpu.reset(&mut self.bus);
    }

    /// Run the next instruction.
    pub fn run(&mut self) -> (r: Result<(), DecodeError>)
        requires
            old(self).bus@.wf(),
        ensures
            r is Ok <==> spec_run_next(
                old(self).cpu.ctx@,
                old(self).bus@,
                old(self).cpu.nmi_pending,
            ) is Some,
            r is Ok ==> final(self).cpu.ctx@ == spec_run_next(
                old(self).cpu.ctx@,
                old(self).bus@,
                old(self).cpu.nmi_pending,
            ).unwrap().0,
            r is Ok ==> final(self).bus@ == spec_run_next(
                old(self).cpu.ctx@,
                old(self).bus@,
                old(self).cpu.nmi_pending,
            ).unwrap().1,
            r is Ok ==> final(self).cpu.nmi_pending == spec_run_next(
                old(self).cpu.ctx@,
                old(self).bus@,
                old(self).cpu.nmi_pending,
            ).unwrap().2,
            r is Err ==> r == Err::<(), DecodeError>(
                DecodeError {
                    opcode: crate::cpu::spec_fetched_opcode(old(self).cpu.ctx@, old(self).bus@),
                    pc: old(self).cpu.ctx@.pc,
                },
            ),
            final(self).bus@.wf(),
    {
        self.cpu.run_next(&mut self.bus)
    }

    /// The machine has been reset with a usable cartridge, so every bus
    /// operation is in bounds.
    pub fn is_ready(&self) -> (r: bool)
        ensures
            r == self.bus@.wf(),
    {
        let ppu_ok = self.bus.ppu.framebuffer.len() == 245760 && self.bus.ppu.oam.len() == 256
            && self.bus.ppu.v < 0x8000 && self.bus.ppu.t < 0x8000 && self.bus.ppu.x < 8
            && self.bus.ppu.line <= 261 && self.bus.ppu.dots <= 340;
        let apu_ok = self.bus.apu.cycles < 29830;
        let ram_ok = self.bus.mmu.cpu_ram.len() == 0x800 && self.bus.mmu.ppu_ram.len() == 0x1000
            && self.bus.mmu.palette.len() == 0x20;
        let cart_ok = match &self.bus.mmu.controller {
            Some(_) => {
                let cart = &self.bus.mmu.cartridge;
                cart.prg_rom.len() >= 0x4000 && cart.prg_rom.len() % 0x4000 == 0
                    && cart.prg_ram.len() >= 0x2000 && cart.prg_ram.len() % 0x2000 == 0
                    && cart.chr.len() >= 0x2000
            },
            None => true,
        };
        ppu_ok && apu_ok && ram_ok && cart_ok
    }
}

} // verus!
