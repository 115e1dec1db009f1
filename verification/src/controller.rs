use vstd::prelude::*;

verus! {

use crate::bits::lemma_mask_bounds;
use crate::cartridge::Cartridge;
use crate::cartridge::CartridgeView;
use crate::cartridge::LoadError;

// Memory controller (commonly known as MMC or mapper) contained within each
// game cartridge.  Only NROM (iNES mapper 0) is implemented; the controller
// is a closed tagged variant so that further mappers can be added as new
// arms.

/// Value an NROM CPU-bus read yields, or `None` when the address is
/// unclaimed.
pub open spec fn spec_nrom_cpu_read(ram: Seq<u8>, cart: CartridgeView, address: u16) -> Option<
    u8,
> {
    if address < 0x2000 {
        // Internal RAM (2 KiB; mirrored 3 times)
        Some(ram[(address & 0x07FF) as int])
    } else if 0x6000 <= address && address < 0x8000 {
        // PRG-RAM
        Some(cart.prg_ram[address - 0x6000])
    } else if 0x8000 <= address && address < 0xC000 {
        // PRG-ROM #1
        Some(cart.prg_rom[address - 0x8000])
    } else if 0xC000 <= address {
        // PRG-ROM #2: a 16-KiB ROM is mirrored, a larger one mapped flat
        if cart.prg_rom.len() <= 0x4000 {
            Some(cart.prg_rom[address - 0xC000])
        } else {
            Some(cart.prg_rom[address - 0x8000])
        }
    } else {
        None
    }
}

/// RAM and cartridge after an NROM CPU-bus write, or `None` when the address
/// is unclaimed.  PRG-ROM is never written.
pub open spec fn spec_nrom_cpu_write(
    ram: Seq<u8>,
    cart: CartridgeView,
    address: u16,
    value: u8,
) -> Option<(Seq<u8>, CartridgeView)> {
    if address < 0x2000 {
        Some((ram.update((address & 0x07FF) as int, value), cart))
    } else if 0x6000 <= address && address < 0x8000 {
        Some(
            (
                ram,
                CartridgeView {
                    prg_ram: cart.prg_ram.update((address - 0x6000) as int, value),
                    ..cart
                },
            ),
        )
    } else {
        None
    }
}

/// Palette entry an address selects: 32-byte mirroring across $3F00-$3FFF,
/// and the sprite backdrop entries $10/$14/$18/$1C alias the background
/// entries $00/$04/$08/$0C.
pub open spec fn spec_palette_index(address: u16) -> int {
    let i = ((address - 0x3F00) as u16) & 0x1F;
    if i == 0x10 || i == 0x14 || i == 0x18 || i == 0x1C {
        i - 0x10
    } else {
        i as int
    }
}

/// Value an NROM PPU-bus read yields, or `None` when the address is
/// unclaimed.  Palette RAM is mirrored every 32 bytes across $3F00-$3FFF,
/// with the backdrop entries aliased.
pub open spec fn spec_nrom_ppu_read(
    ram: Seq<u8>,
    palette: Seq<u8>,
    cart: CartridgeView,
    address: u16,
) -> Option<u8> {
    if address < 0x2000 {
        // CHR
        Some(cart.chr[address as int])
    } else if 0x2000 <= address && address <= 0x3EFF {
        // Nametable RAM
        Some(ram[(((address - 0x2000) as u16) & 0x0FFF) as int])
    } else if 0x3F00 <= address && address <= 0x3FFF {
        // Palette RAM
        Some(palette[spec_palette_index(address)])
    } else {
        None
    }
}

/// Nametable RAM and palette after an NROM PPU-bus write, or `None` when the
/// address is unclaimed.
pub open spec fn spec_nrom_ppu_write(
    ram: Seq<u8>,
    palette: Seq<u8>,
    address: u16,
    value: u8,
) -> Option<(Seq<u8>, Seq<u8>)> {
    if 0x2000 <= address && address <= 0x3EFF {
        Some((ram.update(((((address - 0x2000) as u16) & 0x0FFF)) as int, value), palette))
    } else if 0x3F00 <= address && address <= 0x3FFF {
        Some((ram, palette.update(spec_palette_index(address), value)))
    } else {
        None
    }
}

/// The palette entry of an address in $3F00-$3FFF, with the mirroring and
/// backdrop aliasing applied.
fn palette_index(address: u16) -> (i: usize)
    requires
        0x3F00 <= address,
    ensures
        i == spec_palette_index(address),
        i < 0x20,
{
    proof {
        lemma_mask_bounds();
    }
    let i = ((address - 0x3F00) & 0x1F) as usize;
    if i == 0x10 || i == 0x14 || i == 0x18 || i == 0x1C {
        i - 0x10
    } else {
        i
    }
}

/// NROM: the simplest cartridge board (iNES mapper 0) — fixed PRG banks, no
/// bank switching, no state of its own.
pub struct NROM {}

impl NROM {
    pub fn reset(&mut self) {
    }

    /// Attempt a CPU-bus read.  If the address is unmapped, return false;
    /// otherwise store the value at `ptr` and return true.
    pub fn cpu_read(
        &mut self,
        ram: &mut Vec<u8>,
        cartridge: &mut Cartridge,
        address: u16,
        ptr: &mut u8,
    ) -> (claimed: bool)
        requires
            old(ram)@.len() == 0x800,
            old(cartridge)@.wf(),
        ensures
            final(ram)@ == old(ram)@,
            final(cartridge)@ == old(cartridge)@,
            claimed == spec_nrom_cpu_read(old(ram)@, old(cartridge)@, address) is Some,
            claimed ==> Some(*final(ptr)) == spec_nrom_cpu_read(
                old(ram)@,
                old(cartridge)@,
                address,
            ),
            !claimed ==> *final(ptr) == *old(ptr),
    {
        proof {
            lemma_mask_bounds();
        }
        if address < 0x2000 {
            // Internal RAM (2 KiB; mirrored 3 times)
            *ptr = ram[(address & 0x07FF) as usize];
        } else if 0x6000 <= address && address < 0x8000 {
            // PRG-RAM
            *ptr = cartridge.prg_ram[(address - 0x6000) as usize];
        } else if 0x8000 <= address && address < 0xC000 {
            // PRG-ROM #1
            *ptr = cartridge.prg_rom[(address - 0x8000) as usize];
        } else if 0xC000 <= address {
            // PRG-ROM #2
            if cartridge.prg_rom.len() <= 0x4000 {
                // 16-KiB PRG-ROM; mirror of $8000-$BFFF
                *ptr = cartridge.prg_rom[(address - 0xC000) as usize];
            } else {
                // 32-KiB PRG-ROM
                *ptr = cartridge.prg_rom[(address - 0x8000) as usize];
            }
        } else {
            return false;
        }
        true
    }

    /// Attempt a CPU-bus write.  If the address is unmapped, return false.
    pub fn cpu_write(
        &mut self,
        ram: &mut Vec<u8>,
        cartridge: &mut Cartridge,
        address: u16,
        value: u8,
    ) -> (claimed: bool)
        requires
            old(ram)@.len() == 0x800,
            old(cartridge)@.wf(),
        ensures
            claimed == spec_nrom_cpu_write(old(ram)@, old(cartridge)@, address, value) is Some,
            claimed ==> Some((final(ram)@, final(cartridge)@)) == spec_nrom_cpu_write(
                old(ram)@,
                old(cartridge)@,
                address,
                value,
            ),
            !claimed ==> final(ram)@ == old(ram)@ && final(cartridge)@ == old(cartridge)@,
            final(cartridge)@.wf(),
            final(ram)@.len() == 0x800,
    {
        proof {
            lemma_mask_bounds();
        }
        if address < 0x2000 {
            // Internal RAM (2 KiB; mirrored 3 times)
            ram[(address & 0x07FF) as usize] = value;
        } else if 0x6000 <= address && address < 0x8000 {
            // PRG-RAM
            cartridge.prg_ram[(address - 0x6000) as usize] = value;
            proof {
                assert(final(cartridge)@ =~= CartridgeView {
                    prg_ram: old(cartridge)@.prg_ram.update((address - 0x6000) as int, value),
                    ..old(cartridge)@
                });
            }
        } else {
            return false;
        }
        true
    }

    /// Attempt a PPU-bus read.  If the address is unmapped, return false;
    /// otherwise store the value at `ptr` and return true.
    pub fn ppu_read(
        &mut self,
        ram: &mut Vec<u8>,
        palette: &mut Vec<u8>,
        cartridge: &mut Cartridge,
        address: u16,
        ptr: &mut u8,
    ) -> (claimed: bool)
        requires
            old(ram)@.len() == 0x1000,
            old(palette)@.len() == 0x20,
            old(cartridge)@.wf(),
        ensures
            final(ram)@ == old(ram)@,
            final(palette)@ == old(palette)@,
            final(cartridge)@ == old(cartridge)@,
            claimed == spec_nrom_ppu_read(old(ram)@, old(palette)@, old(cartridge)@, address)
                is Some,
            claimed ==> Some(*final(ptr)) == spec_nrom_ppu_read(
                old(ram)@,
                old(palette)@,
                old(cartridge)@,
                address,
            ),
            !claimed ==> *final(ptr) == *old(ptr),
    {
        proof {
            lemma_mask_bounds();
        }
        if address < 0x2000 {
            // CHR
            *ptr = cartridge.chr[address as usize];
        } else if 0x2000 <= address && address <= 0x3EFF {
            // Nametable RAM
            *ptr = ram[((address - 0x2000) & 0x0FFF) as usize];
        } else if 0x3F00 <= address && address <= 0x3FFF {
            // Palette RAM, mirrored, backdrop entries aliased
            *ptr = palette[palette_index(address)];
        } else {
            return false;
        }
        true
    }

    /// Attempt a PPU-bus write.  If the address is unmapped, return false.
    pub fn ppu_write(
        &mut self,
        ram: &mut Vec<u8>,
        palette: &mut Vec<u8>,
        _cartridge: &mut Cartridge,
        address: u16,
        value: u8,
    ) -> (claimed: bool)
        requires
            old(ram)@.len() == 0x1000,
            old(palette)@.len() == 0x20,
        ensures
            final(_cartridge)@ == old(_cartridge)@,
            claimed == spec_nrom_ppu_write(old(ram)@, old(palette)@, address, value) is Some,
            claimed ==> Some((final(ram)@, final(palette)@)) == spec_nrom_ppu_write(
                old(ram)@,
                old(palette)@,
                address,
                value,
            ),
            !claimed ==> final(ram)@ == old(ram)@ && final(palette)@ == old(palette)@,
            final(ram)@.len() == 0x1000,
            final(palette)@.len() == 0x20,
    {
        proof {
            lemma_mask_bounds();
        }
        if 0x2000 <= address && address <= 0x3EFF {
            // Nametable RAM
            ram[((address - 0x2000) & 0x0FFF) as usize] = value;
        } else if 0x3F00 <= address && address <= 0x3FFF {
            // Palette RAM, mirrored, backdrop entries aliased
            palette[palette_index(address)] = value;
        } else {
            return false;
        }
        true
    }
}

/// The active memory controller, dispatched on the mapper tag.
pub enum Controller {
    Nrom(NROM),
}

impl Controller {
    /// CPU-bus read of the active mapper; same contract as the NROM board.
    pub open spec fn spec_cpu_read(self, ram: Seq<u8>, cart: CartridgeView, address: u16) -> Option<
        u8,
    > {
        spec_nrom_cpu_read(ram, cart, address)
    }

    pub fn reset(&mut self)
        ensures
            *final(self) == *old(self),
    {
        match self {
            Controller::Nrom(_) => {},
        }
    }

    pub fn cpu_read(
        &mut self,
        ram: &mut Vec<u8>,
        cartridge: &mut Cartridge,
        address: u16,
        ptr: &mut u8,
    ) -> (claimed: bool)
        requires
            old(ram)@.len() == 0x800,
            old(cartridge)@.wf(),
        ensures
            final(ram)@ == old(ram)@,
            final(cartridge)@ == old(cartridge)@,
            claimed == spec_nrom_cpu_read(old(ram)@, old(cartridge)@, address) is Some,
            claimed ==> Some(*final(ptr)) == spec_nrom_cpu_read(
                old(ram)@,
                old(cartridge)@,
                address,
            ),
            !claimed ==> *final(ptr) == *old(ptr),
    {
        match self {
            Controller::Nrom(nrom) => nrom.cpu_read(ram, cartridge, address, ptr),
        }
    }

    pub fn cpu_write(
        &mut self,
        ram: &mut Vec<u8>,
        cartridge: &mut Cartridge,
        address: u16,
        value: u8,
    ) -> (claimed: bool)
        requires
            old(ram)@.len() == 0x800,
            old(cartridge)@.wf(),
        ensures
            claimed == spec_nrom_cpu_write(old(ram)@, old(cartridge)@, address, value) is Some,
            claimed ==> Some((final(ram)@, final(cartridge)@)) == spec_nrom_cpu_write(
                old(ram)@,
                old(cartridge)@,
                address,
                value,
            ),
            !claimed ==> final(ram)@ == old(ram)@ && final(cartridge)@ == old(cartridge)@,
            final(cartridge)@.wf(),
            final(ram)@.len() == 0x800,
    {
        match self {
            Controller::Nrom(nrom) => nrom.cpu_write(ram, cartridge, address, value),
        }
    }

    pub fn ppu_read(
        &mut self,
        ram: &mut Vec<u8>,
        palette: &mut Vec<u8>,
        cartridge: &mut Cartridge,
        address: u16,
        ptr: &mut u8,
    ) -> (claimed: bool)
        requires
            old(ram)@.len() == 0x1000,
            old(palette)@.len() == 0x20,
            old(cartridge)@.wf(),
        ensures
            final(ram)@ == old(ram)@,
            final(palette)@ == old(palette)@,
            final(cartridge)@ == old(cartridge)@,
            claimed == spec_nrom_ppu_read(old(ram)@, old(palette)@, old(cartridge)@, address)
                is Some,
            claimed ==> Some(*final(ptr)) == spec_nrom_ppu_read(
                old(ram)@,
                old(palette)@,
                old(cartridge)@,
                address,
            ),
            !claimed ==> *final(ptr) == *old(ptr),
    {
        match self {
            Controller::Nrom(nrom) => nrom.ppu_read(ram, palette, cartridge, address, ptr),
        }
    }

    pub fn ppu_write(
        &mut self,
        ram: &mut Vec<u8>,
        palette: &mut Vec<u8>,
        cartridge: &mut Cartridge,
        address: u16,
        value: u8,
    ) -> (claimed: bool)
        requires
            old(ram)@.len() == 0x1000,
            old(palette)@.len() == 0x20,
        ensures
            final(cartridge)@ == old(cartridge)@,
            claimed == spec_nrom_ppu_write(old(ram)@, old(palette)@, address, value) is Some,
            claimed ==> Some((final(ram)@, final(palette)@)) == spec_nrom_ppu_write(
                old(ram)@,
                old(palette)@,
                address,
                value,
            ),
            !claimed ==> final(ram)@ == old(ram)@ && final(palette)@ == old(palette)@,
            final(ram)@.len() == 0x1000,
            final(palette)@.len() == 0x20,
    {
        match self {
            Controller::Nrom(nrom) => nrom.ppu_write(ram, palette, cartridge, address, value),
        }
    }
}

/// Pick the controller the cartridge header names.  Only NROM (mapper 0) is
/// known; any other mapper number is an unsupported-mapper load error.
pub fn from_cartridge(cartridge: &Cartridge) -> (r: Result<Controller, LoadError>)
    ensures
        r is Ok <==> cartridge@.ines_mapper == 0,
        r is Err ==> r == Err::<Controller, LoadError>(LoadError::UnsupportedMapper),
{
    match cartridge.ines_mapper {
        0 => Ok(Controller::Nrom(NROM {})),
        _ => Err(LoadError::UnsupportedMapper),
    }
}

} // verus!
