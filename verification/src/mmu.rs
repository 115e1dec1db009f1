use vstd::prelude::*;

verus! {

use crate::cartridge::fill_zero;
use crate::cartridge::Cartridge;
use crate::cartridge::CartridgeView;
use crate::cartridge::LoadError;
use crate::controller::from_cartridge;
use crate::controller::spec_nrom_cpu_read;
use crate::controller::spec_nrom_cpu_write;
use crate::controller::spec_nrom_ppu_read;
use crate::controller::spec_nrom_ppu_write;
use crate::controller::Controller;

/// Mathematical image of the memory-management unit: the cartridge, whether
/// a controller is installed, and the three RAM regions it owns.
#[verifier::ext_equal]
pub ghost struct MmuView {
    pub cart: CartridgeView,
    pub has_controller: bool,
    pub cpu_ram: Seq<u8>,
    pub ppu_ram: Seq<u8>,
    pub palette: Seq<u8>,
}

impl MmuView {
    /// After `reset`, the RAM regions have their fixed sizes, and an
    /// installed controller implies a well-formed cartridge.
    pub open spec fn wf(self) -> bool {
        &&& self.cpu_ram.len() == 0x800
        &&& self.ppu_ram.len() == 0x1000
        &&& self.palette.len() == 0x20
        &&& (self.has_controller ==> self.cart.wf())
    }

    /// Value a CPU-bus read yields, or `None` when no controller claims it.
    pub open spec fn cpu_read(self, address: u16) -> Option<u8> {
        if self.has_controller {
            spec_nrom_cpu_read(self.cpu_ram, self.cart, address)
        } else {
            None
        }
    }

    /// State after a CPU-bus write, and whether a controller claimed it.
    pub open spec fn cpu_write(self, address: u16, value: u8) -> (bool, MmuView) {
        if self.has_controller {
            match spec_nrom_cpu_write(self.cpu_ram, self.cart, address, value) {
                Some((ram, cart)) => (true, MmuView { cpu_ram: ram, cart: cart, ..self }),
                None => (false, self),
            }
        } else {
            (false, self)
        }
    }

    /// Value a PPU-bus read yields, or `None` when no controller claims it.
    pub open spec fn ppu_read(self, address: u16) -> Option<u8> {
        if self.has_controller {
            spec_nrom_ppu_read(self.ppu_ram, self.palette, self.cart, address)
        } else {
            None
        }
    }

    /// Value a PPU-bus read yields, with $FF standing in for an unclaimed
    /// address.
    pub open spec fn ppu_read_or_ff(self, address: u16) -> u8 {
        match self.ppu_read(address) {
            Some(v) => v,
            None => 0xFF,
        }
    }

    /// State after a PPU-bus write, and whether a controller claimed it.
    pub open spec fn ppu_write(self, address: u16, value: u8) -> (bool, MmuView) {
        if self.has_controller {
            match spec_nrom_ppu_write(self.ppu_ram, self.palette, address, value) {
                Some((ram, palette)) => (
                    true,
                    MmuView { ppu_ram: ram, palette: palette, ..self },
                ),
                None => (false, self),
            }
        } else {
            (false, self)
        }
    }

    /// State after a PPU-bus write, with an unclaimed write dropped.
    pub open spec fn ppu_write_or_drop(self, address: u16, value: u8) -> MmuView {
        self.ppu_write(address, value).1
    }
}

/// Memory-management unit: owns CPU internal RAM, PPU nametable RAM, the
/// palette, the cartridge, and the active memory controller, and routes both
/// bus views through the controller.
pub struct MMU {
    /// Cartridge (and its CHR and PRG storage)
    pub cartridge: Cartridge,

    /// The active memory controller
    pub controller: Option<Controller>,

    /// [CPU] internal RAM ~ 2 KiB
    pub cpu_ram: Vec<u8>,

    /// [PPU] nametable RAM
    pub ppu_ram: Vec<u8>,

    /// [PPU] palette RAM ~ 32 bytes
    pub palette: Vec<u8>,
}

impl View for MMU {
    type V = MmuView;

    open spec fn view(&self) -> MmuView {
        MmuView {
            cart: self.cartridge@,
            has_controller: self.controller is Some,
            cpu_ram: self.cpu_ram@,
            ppu_ram: self.ppu_ram@,
            palette: self.palette@,
        }
    }
}

impl MMU {
    /// An MMU with no cartridge and unsized RAM; `reset` sizes the RAM.
    pub fn new() -> (r: MMU)
        ensures
            !r@.has_controller,
            r@.cpu_ram.len() == 0,
            r@.ppu_ram.len() == 0,
            r@.palette.len() == 0,
    {
        MMU {
            cartridge: Cartridge::new(),
            controller: None,
            cpu_ram: Vec::new(),
            ppu_ram: Vec::new(),
            palette: Vec::new(),
        }
    }

    /// Install a cartridge and the controller its header names.  A cartridge
    /// naming an unknown mapper is refused and the MMU is left unchanged.
    pub fn take_cartridge(&mut self, cartridge: Cartridge) -> (r: Result<(), LoadError>)
        ensures
            r is Ok <==> cartridge@.ines_mapper == 0,
            r is Ok ==> final(self)@ == (MmuView {
                cart: cartridge@,
                has_controller: true,
                ..old(self)@
            }),
            r is Err ==> final(self)@ == old(self)@,
            r is Err ==> r == Err::<(), LoadError>(LoadError::UnsupportedMapper),
    {
        match from_cartridge(&cartridge) {
            Ok(controller) => {
                self.cartridge = cartridge;
                self.controller = Some(controller);
                Ok(())
            },
            Err(e) => Err(e),
        }
    }

    /// Zero and size the RAM regions; the cartridge and controller stay.
    pub fn reset(&mut self)
        ensures
            final(self)@ == (MmuView {
                cpu_ram: Seq::new(0x800, |i: int| 0u8),
                ppu_ram: Seq::new(0x1000, |i: int| 0u8),
                palette: Seq::new(0x20, |i: int| 0u8),
                ..old(self)@
            }),
            final(self)@.wf() <==> (old(self)@.has_controller ==> old(self)@.cart.wf()),
    {
        fill_zero(&mut self.cpu_ram, 0x800);
        fill_zero(&mut self.ppu_ram, 0x1000);
        fill_zero(&mut self.palette, 0x20);

        if let Some(controller) = &mut self.controller {
            controller.reset();
        }
        proof {
            assert(final(self)@ =~= (MmuView {
                cpu_ram: Seq::new(0x800, |i: int| 0u8),
                ppu_ram: Seq::new(0x1000, |i: int| 0u8),
                palette: Seq::new(0x20, |i: int| 0u8),
                ..old(self)@
            }));
        }
    }

    /// Attempt a CPU-bus read through the controller.  If unmapped, return
    /// false; otherwise store the value at `ptr` and return true.
    pub fn cpu_try_read(&mut self, address: u16, ptr: &mut u8) -> (claimed: bool)
        requires
            old(self)@.wf(),
        ensures
            final(self)@ == old(self)@,
            claimed == old(self)@.cpu_read(address) is Some,
            claimed ==> Some(*final(ptr)) == old(self)@.cpu_read(address),
            !claimed ==> *final(ptr) == *old(ptr),
    {
        match &mut self.controller {
            Some(controller) => {
                controller.cpu_read(&mut self.cpu_ram, &mut self.cartridge, address, ptr)
            },
            None => false,
        }
    }

    /// Attempt a CPU-bus write through the controller.  If unmapped, return
    /// false.
    pub fn cpu_try_write(&mut self, address: u16, value: u8) -> (claimed: bool)
        requires
            old(self)@.wf(),
        ensures
            (claimed, final(self)@) == old(self)@.cpu_write(address, value),
            final(self)@.wf(),
    {
        let claimed = match &mut self.controller {
            Some(controller) => {
                controller.cpu_write(&mut self.cpu_ram, &mut self.cartridge, address, value)
            },
            None => false,
        };
        proof {
            assert(final(self)@ =~= old(self)@.cpu_write(address, value).1);
        }
        claimed
    }

    /// Attempt a PPU-bus read through the controller.  If unmapped, return
    /// false; otherwise store the value at `ptr` and return true.
    pub fn ppu_try_read(&mut self, address: u16, ptr: &mut u8) -> (claimed: bool)
        requires
            old(self)@.wf(),
        ensures
            final(self)@ == old(self)@,
            claimed == old(self)@.ppu_read(address) is Some,
            claimed ==> Some(*final(ptr)) == old(self)@.ppu_read(address),
            !claimed ==> *final(ptr) == *old(ptr),
    {
        match &mut self.controller {
            Some(controller) => {
                controller.ppu_read(
                    &mut self.ppu_ram,
                    &mut self.palette,
                    &mut self.cartridge,
                    address,
                    ptr,
                )
            },
            None => false,
        }
    }

    /// Attempt a PPU-bus write through the controller.  If unmapped, return
    /// false.
    pub fn ppu_try_write(&mut self, address: u16, value: u8) -> (claimed: bool)
        requires
            old(self)@.wf(),
        ensures
            (claimed, final(self)@) == old(self)@.ppu_write(address, value),
            final(self)@.wf(),
    {
        let claimed = match &mut self.controller {
            Some(controller) => {
                controller.ppu_write(
                    &mut self.ppu_ram,
                    &mut self.palette,
                    &mut self.cartridge,
                    address,
                    value,
                )
            },
            None => false,
        };
        proof {
            assert(final(self)@ =~= old(self)@.ppu_write(address, value).1);
        }
        claimed
    }

    /// PPU-bus read with the unmapped default: an unclaimed address reads as
    /// $FF.
    pub fn ppu_read(&mut self, address: u16) -> (value: u8)
        requires
            old(self)@.wf(),
        ensures
            final(self)@ == old(self)@,
            value == old(self)@.ppu_read_or_ff(address),
    {
        let mut value: u8 = 0xFF;
        if self.ppu_try_read(address, &mut value) {
            return value;
        }
        value
    }

    /// PPU-bus write with the unmapped default: an unclaimed write is
    /// dropped.
    pub fn ppu_write(&mut self, address: u16, value: u8)
        requires
            old(self)@.wf(),
        ensures
            final(self)@ == old(self)@.ppu_write_or_drop(address, value),
            final(self)@.wf(),
    {
        let _ = self.ppu_try_write(address, value);
    }
}

} // verus!
