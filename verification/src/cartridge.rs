use vstd::prelude::*;

verus! {

/// Mathematical image of a cartridge: the byte contents of its storage
/// regions together with the header-derived configuration.
#[verifier::ext_equal]
pub ghost struct CartridgeView {
    pub prg_rom: Seq<u8>,
    pub prg_ram: Seq<u8>,
    pub chr: Seq<u8>,
    pub chr_mutable: bool,
    pub ines_mapper: u16,
    pub vram_mirroring: u8,
}

impl CartridgeView {
    /// Storage sizes a loaded cartridge always has: PRG-ROM in 16-KiB banks
    /// (at least one), PRG-RAM in 8-KiB banks (at least one), and at least
    /// 8 KiB of CHR.  Every bus access the NROM mapper claims stays in
    /// bounds exactly because of these.
    pub open spec fn wf(self) -> bool {
        &&& self.prg_rom.len() >= 0x4000
        &&& self.prg_rom.len() % 0x4000 == 0
        &&& self.prg_ram.len() >= 0x2000
        &&& self.prg_ram.len() % 0x2000 == 0
        &&& self.chr.len() >= 0x2000
    }
}

/// Game cartridge: program ROM, program RAM, character ROM (or RAM), and the
/// header fields that select mirroring and the mapper.
pub struct Cartridge {
    /// Program ROM (PRG-ROM)
    pub prg_rom: Vec<u8>,

    /// Program RAM (PRG-RAM)
    pub prg_ram: Vec<u8>,

    /// Character ROM (or RAM when the header reports zero CHR banks)
    pub chr: Vec<u8>,
    pub chr_mutable: bool,

    /// iNES mapper number
    pub ines_mapper: u16,

    /// Mirroring: 0 = horizontal, 1 = vertical
    pub vram_mirroring: u8,
}

impl View for Cartridge {
    type V = CartridgeView;

    open spec fn view(&self) -> CartridgeView {
        CartridgeView {
            prg_rom: self.prg_rom@,
            prg_ram: self.prg_ram@,
            chr: self.chr@,
            chr_mutable: self.chr_mutable,
            ines_mapper: self.ines_mapper,
            vram_mirroring: self.vram_mirroring,
        }
    }
}

/// Why a ROM image was rejected.
#[derive(Clone, Copy, Debug, PartialEq, Eq, Structural)]
pub enum LoadError {
    /// The first four bytes are not the iNES signature.
    BadMagic,
    /// The image ends before the header-declared PRG/CHR data does.
    Truncated,
    /// The header declares zero PRG-ROM banks, leaving nothing to execute.
    EmptyPrgRom,
    /// The mapper number is not one this core implements (only NROM, 0).
    UnsupportedMapper,
}

/// The image starts with `N`, `E`, `S`, `$1A`.
pub open spec fn spec_magic_ok(data: Seq<u8>) -> bool {
    &&& data.len() >= 0x10
    &&& data[0] == 0x4E
    &&& data[1] == 0x45
    &&& data[2] == 0x53
    &&& data[3] == 0x1A
}

/// PRG-ROM byte count declared by header byte 4.
pub open spec fn spec_prg_rom_len(data: Seq<u8>) -> int {
    data[4] * 0x4000
}

/// CHR-ROM byte count declared by header byte 5 (zero banks mean an 8-KiB
/// CHR-RAM region instead).
pub open spec fn spec_chr_rom_len(data: Seq<u8>) -> int {
    data[5] * 0x2000
}

/// PRG-RAM byte count declared by header byte 8, where zero means one bank.
pub open spec fn spec_prg_ram_len(data: Seq<u8>) -> int {
    if data[8] == 0 {
        0x2000
    } else {
        data[8] * 0x2000
    }
}

/// iNES 1.0 mapper number: high nibble of byte 6 is the low nibble of the
/// number, high nibble of byte 7 the high nibble.
pub open spec fn spec_mapper_number(data: Seq<u8>) -> u16 {
    ((data[6] >> 4) | (data[7] & 0xF0)) as u16
}

/// The image is long enough to hold the header and the declared PRG and CHR
/// data.
pub open spec fn spec_image_complete(data: Seq<u8>) -> bool {
    data.len() >= 0x10 + spec_prg_rom_len(data) + spec_chr_rom_len(data)
}

/// A well-formed image: correct magic, at least one PRG bank, and all
/// declared data present.
pub open spec fn spec_image_ok(data: Seq<u8>) -> bool {
    &&& spec_magic_ok(data)
    &&& data[4] != 0
    &&& spec_image_complete(data)
}

/// The cartridge a well-formed image describes.
pub open spec fn spec_cartridge_of(data: Seq<u8>) -> CartridgeView {
    CartridgeView {
        prg_rom: data.subrange(0x10, 0x10 + spec_prg_rom_len(data)),
        prg_ram: Seq::new(spec_prg_ram_len(data) as nat, |i: int| 0u8),
        chr: if data[5] == 0 {
            Seq::new(0x2000, |i: int| 0u8)
        } else {
            data.subrange(
                0x10 + spec_prg_rom_len(data),
                0x10 + spec_prg_rom_len(data) + spec_chr_rom_len(data),
            )
        },
        chr_mutable: data[5] == 0,
        ines_mapper: spec_mapper_number(data),
        vram_mirroring: (data[6] & 1) as u8,
    }
}

/// Replace the contents of `v` with `n` zero bytes.
pub(crate) fn fill_zero(v: &mut Vec<u8>, n: usize)
    ensures
        final(v)@ == Seq::new(n as nat, |i: int| 0u8),
{
    v.clear();
    let mut k: usize = 0;
    while k < n
        invariant
            k <= n,
            v@ == Seq::new(k as nat, |i: int| 0u8),
        decreases n - k,
    {
        v.push(0);
        k = k + 1;
        proof {
            assert(v@ =~= Seq::new(k as nat, |i: int| 0u8));
        }
    }
}

impl Cartridge {
    /// An empty cartridge slot; not well-formed until `load` succeeds.
    pub fn new() -> (r: Cartridge)
        ensures
            r@.prg_rom.len() == 0,
            r@.prg_ram.len() == 0,
            r@.chr.len() == 0,
            r@.chr_mutable == false,
            r@.ines_mapper == 0,
            r@.vram_mirroring == 0,
    {
        Cartridge {
            prg_rom: Vec::new(),
            prg_ram: Vec::new(),
            chr: Vec::new(),
            chr_mutable: false,
            ines_mapper: 0,
            vram_mirroring: 0,
        }
    }

    /// Parse an iNES 1.0 image and fill the cartridge from it.
    ///
    /// On success the cartridge is exactly the one the image describes; each
    /// error names the first check that failed, in the order: magic, PRG-ROM
    /// presence, completeness.
    pub fn load(&mut self, data: &Vec<u8>) -> (r: Result<(), LoadError>)
        ensures
            r is Ok <==> spec_image_ok(data@),
            r is Ok ==> final(self)@ == spec_cartridge_of(data@),
            r is Ok ==> final(self)@.wf(),
            r == Err::<(), LoadError>(LoadError::BadMagic) <==> !spec_magic_ok(data@),
            r == Err::<(), LoadError>(LoadError::EmptyPrgRom)
                <==> (spec_magic_ok(data@) && data@[4] == 0),
            r == Err::<(), LoadError>(LoadError::Truncated)
                <==> (spec_magic_ok(data@) && data@[4] != 0 && !spec_image_complete(data@)),
    {
        if data.len() < 0x10 {
            return Err(LoadError::BadMagic);
        }
        if !(data[0] == 0x4E && data[1] == 0x45 && data[2] == 0x53 && data[3] == 0x1A) {
            return Err(LoadError::BadMagic);
        }
        if data[4] == 0 {
            return Err(LoadError::EmptyPrgRom);
        }

        let prg_rom_len: usize = (data[4] as usize) * 0x4000;
        let chr_rom_len: usize = (data[5] as usize) * 0x2000;
        if data.len() < 0x10 + prg_rom_len + chr_rom_len {
            return Err(LoadError::Truncated);
        }

        // PRG-ROM
        self.prg_rom.clear();
        let mut i: usize = 0x10;
        while i < 0x10 + prg_rom_len
            invariant
                prg_rom_len <= 0x3FC000,
                0x10 <= i <= 0x10 + prg_rom_len,
                0x10 + prg_rom_len + chr_rom_len <= data@.len(),
                self.prg_rom@ == data@.subrange(0x10, i as int),
            decreases 0x10 + prg_rom_len - i,
        {
            self.prg_rom.push(data[i]);
            i = i + 1;
            proof {
                assert(self.prg_rom@ =~= data@.subrange(0x10, i as int));
            }
        }

        // CHR: either the declared ROM data, or a blank 8-KiB RAM region.
        if data[5] > 0 {
            self.chr.clear();
            let chr_start: usize = 0x10 + prg_rom_len;
            let mut j: usize = chr_start;
            while j < chr_start + chr_rom_len
                invariant
                    chr_rom_len <= 0x1FE000,
                    chr_start <= 0x3FC010,
                    chr_start == 0x10 + prg_rom_len,
                    chr_start <= j <= chr_start + chr_rom_len,
                    chr_start + chr_rom_len <= data@.len(),
                    self.chr@ == data@.subrange(chr_start as int, j as int),
                    self.prg_rom@ == data@.subrange(0x10, chr_start as int),
                decreases chr_start + chr_rom_len - j,
            {
                self.chr.push(data[j]);
                j = j + 1;
                proof {
                    assert(self.chr@ =~= data@.subrange(chr_start as int, j as int));
                }
            }
            self.chr_mutable = false;
        } else {
            fill_zero(&mut self.chr, 0x2000);
            self.chr_mutable = true;
        }

        // PRG-RAM: a header byte of zero means one 8-KiB bank.
        let prg_ram_len: usize = if data[8] == 0 {
            0x2000
        } else {
            (data[8] as usize) * 0x2000
        };
        fill_zero(&mut self.prg_ram, prg_ram_len);

        // Mirroring mode of VRAM
        self.vram_mirroring = data[6] & 1;

        // iNES 1.0 mapper number
        self.ines_mapper = ((data[6] >> 4) | (data[7] & 0xF0)) as u16;

        proof {
            assert(self@ =~= spec_cartridge_of(data@));
        }
        Ok(())
    }
}

} // verus!
