use lintel::cartridge::Cartridge;
use lintel::cartridge::LoadError;
use lintel::input::Button;
use lintel::machine::Machine;

fn test_rom() -> Vec<u8> {
    // iNES header: one 16-KiB PRG bank, one 8-KiB CHR bank, mapper 0
    let mut rom = vec![0x4E, 0x45, 0x53, 0x1A, 1, 1, 0, 0, 1, 0, 0, 0, 0, 0, 0, 0];
    let mut prg = vec![0u8; 0x4000];
    // Reset vector at $FFFC/$FFFD -> $8000 (offsets $3FFC/$3FFD in the bank)
    prg[0x3FFC] = 0x00;
    prg[0x3FFD] = 0x80;
    prg[0x0000] = 0xA9; // a recognizable first byte
    prg[0x0123] = 0x5A;
    rom.extend_from_slice(&prg);
    rom.extend_from_slice(&vec![0u8; 0x2000]);
    rom
}

fn ready_machine() -> Machine {
    let mut m = Machine::new();
    m.open(&test_rom()).unwrap();
    m.reset();
    assert!(m.is_ready());
    m
}

#[test]
fn load_rejects_bad_magic() {
    let mut c = Cartridge::new();
    let r = c.load(&vec![0u8; 64]);
    assert_eq!(r, Err(LoadError::BadMagic));
}

#[test]
fn load_rejects_empty_prg() {
    let mut rom = test_rom();
    rom[4] = 0;
    let mut c = Cartridge::new();
    assert_eq!(c.load(&rom), Err(LoadError::EmptyPrgRom));
}

#[test]
fn load_rejects_truncated_image() {
    let rom = test_rom();
    let mut c = Cartridge::new();
    assert_eq!(c.load(&rom[..0x2000].to_vec()), Err(LoadError::Truncated));
}

#[test]
fn load_rejects_unknown_mapper() {
    let mut rom = test_rom();
    rom[6] = 0x10; // mapper 1
    let mut m = Machine::new();
    assert_eq!(m.open(&rom), Err(LoadError::UnsupportedMapper));
}

#[test]
fn load_parses_header() {
    let mut c = Cartridge::new();
    c.load(&test_rom()).unwrap();
    assert_eq!(c.prg_rom.len(), 0x4000);
    assert_eq!(c.prg_ram.len(), 0x2000);
    assert_eq!(c.chr.len(), 0x2000);
    assert!(!c.chr_mutable);
    assert_eq!(c.ines_mapper, 0);
}

#[test]
fn reset_fetches_reset_vector() {
    let m = ready_machine();
    assert_eq!(m.cpu.ctx.pc, 0x8000);
    assert_eq!(m.cpu.ctx.s, 0xFD);
    assert_eq!(m.cpu.ctx.p.bits, 0x34);
}

#[test]
fn cpu_ram_mirrors_every_0x800() {
    let mut m = ready_machine();
    m.bus.write(0x0042, 0x99);
    assert_eq!(m.bus.read(0x0842), 0x99);
    assert_eq!(m.bus.read(0x1042), 0x99);
    assert_eq!(m.bus.read(0x1842), 0x99);
}

#[test]
fn nrom_mirrors_16k_prg() {
    let mut m = ready_machine();
    let lo = m.bus.read(0x8123);
    let hi = m.bus.read(0xC123);
    assert_eq!(lo, 0x5A);
    assert_eq!(lo, hi);
    // Writes to the ROM range are not claimed and change nothing
    m.bus.write(0x8123, 0x77);
    assert_eq!(m.bus.read(0x8123), 0x5A);
}

#[test]
fn status_read_clears_vblank_and_latch() {
    let mut m = ready_machine();
    m.bus.ppu.vblank = true;
    m.bus.ppu.w = true;
    let first = m.bus.read(0x2002);
    assert_eq!(first & 0x80, 0x80);
    assert!(!m.bus.ppu.w);
    let second = m.bus.read(0x2002);
    assert_eq!(second, 0);
}

#[test]
fn control_write_sets_nametable_bits_of_t() {
    let mut m = ready_machine();
    m.bus.write(0x2000, 0x03);
    assert_eq!((m.bus.ppu.t >> 10) & 3, 3);
    m.bus.write(0x2000, 0x01);
    assert_eq!((m.bus.ppu.t >> 10) & 3, 1);
    assert_eq!(m.bus.ppu.v, 0);
    assert_eq!(m.bus.ppu.x, 0);
}

#[test]
fn address_pair_sets_v() {
    let mut m = ready_machine();
    m.bus.write(0x2006, 0x21);
    m.bus.write(0x2006, 0x08);
    assert_eq!(m.bus.ppu.v, 0x2108);
    assert_eq!(m.bus.ppu.t, 0x2108);
    assert!(!m.bus.ppu.w);
}

#[test]
fn scroll_write_sequence() {
    // $2006<-$21, $2006<-$08, $2005<-$7D, $2005<-$5E: v keeps $2108 from
    // the address pair; the scroll writes update t only.
    let mut m = ready_machine();
    m.bus.write(0x2006, 0x21);
    m.bus.write(0x2006, 0x08);
    m.bus.write(0x2005, 0x7D);
    m.bus.write(0x2005, 0x5E);
    assert_eq!(m.bus.ppu.x, 5);
    assert!(!m.bus.ppu.w);
    assert_eq!(m.bus.ppu.v, 0x2108);
    // t: coarse X = $7D >> 3 = 15, coarse Y = $5E >> 3 = 11, fine Y = 6
    assert_eq!(m.bus.ppu.t & 0x1F, 15);
    assert_eq!((m.bus.ppu.t >> 5) & 0x1F, 11);
    assert_eq!((m.bus.ppu.t >> 12) & 7, 6);
    assert_eq!(m.bus.ppu.t, 0x616F);
}

#[test]
fn nametable_write_then_read_round_trips() {
    let mut m = ready_machine();
    m.bus.write(0x2006, 0x21);
    m.bus.write(0x2006, 0x08);
    m.bus.write(0x2007, 0xAB);
    // $2108 maps to nametable RAM index ($2108 - $2000) & $0FFF
    assert_eq!(m.bus.mmu.ppu_ram[0x0108], 0xAB);
    // And v stepped by one
    assert_eq!(m.bus.ppu.v, 0x2109);
}

#[test]
fn palette_mirrors_every_0x20() {
    let mut m = ready_machine();
    // point v at $3F05 and write
    m.bus.write(0x2006, 0x3F);
    m.bus.write(0x2006, 0x05);
    m.bus.write(0x2007, 0x2C);
    assert_eq!(m.bus.mmu.palette[0x05], 0x2C);
}

#[test]
fn oam_write_advances_address() {
    let mut m = ready_machine();
    m.bus.write(0x2003, 0xFF);
    m.bus.write(0x2004, 0x12);
    assert_eq!(m.bus.ppu.oam[0xFF], 0x12);
    assert_eq!(m.bus.ppu.oam_address, 0x00);
}

#[test]
fn oam_dma_copies_a_page() {
    let mut m = ready_machine();
    for i in 0..256u16 {
        m.bus.write(0x0300 + i, i as u8);
    }
    m.bus.write(0x2003, 0x00);
    m.bus.write(0x4014, 0x03);
    for i in 0..256usize {
        assert_eq!(m.bus.ppu.oam[i], i as u8);
    }
}

#[test]
fn first_vblank_is_line_241_dot_1() {
    let mut m = ready_machine();
    // From reset (pre-render line 261, dot 0) the set point is processed
    // after the whole pre-render line, 241 visible/idle lines, and two more
    // dots: 242 * 341 + 2 steps.
    let mut steps = 0u32;
    let mut nmi = false;
    while !m.bus.ppu.vblank {
        m.bus.ppu.step(&mut m.bus.mmu, &mut nmi);
        steps += 1;
        assert!(steps <= 90000);
    }
    assert_eq!(steps, 242 * 341 + 2);
    assert_eq!(m.bus.ppu.line, 241);
    assert_eq!(m.bus.ppu.dots, 2);
}

#[test]
fn status_read_at_set_point_suppresses_vblank() {
    let mut m = ready_machine();
    let mut nmi = false;
    // Step to line 241 dot 1, just before the set point is processed
    for _ in 0..(242 * 341 + 1) {
        m.bus.ppu.step(&mut m.bus.mmu, &mut nmi);
    }
    assert_eq!(m.bus.ppu.line, 241);
    assert_eq!(m.bus.ppu.dots, 1);
    let r = m.bus.read(0x2002);
    assert_eq!(r & 0x80, 0); // the reader observes vblank = 0
    m.bus.ppu.step(&mut m.bus.mmu, &mut nmi);
    assert!(!m.bus.ppu.vblank); // and the set was suppressed entirely
}

#[test]
fn status_read_after_set_point_cancels_nmi() {
    let mut m = ready_machine();
    m.bus.write(0x2000, 0x80); // NMI enable
    let mut nmi = false;
    for _ in 0..(242 * 341 + 2) {
        m.bus.ppu.step(&mut m.bus.mmu, &mut nmi);
    }
    assert!(m.bus.ppu.vblank);
    assert_eq!(m.bus.ppu.dots, 2);
    assert!(!nmi); // the delayed NMI has not fired yet
    let _ = m.bus.read(0x2002); // cancels the pending NMI
    for _ in 0..4 {
        m.bus.ppu.step(&mut m.bus.mmu, &mut nmi);
    }
    assert!(!nmi);
}

#[test]
fn odd_frame_skips_one_dot_of_prerender() {
    let mut m = ready_machine();
    m.bus.write(0x2001, 0x08); // background enable
    let mut nmi = false;
    // The frame parity toggles at dot 1 of the pre-render line, so the
    // parity the skip check sees is the one the line toggles into.
    // Entering with even parity makes the line odd: dot 338 is skipped and
    // the line takes 340 dots.
    m.bus.ppu.line = 261;
    m.bus.ppu.dots = 0;
    m.bus.ppu.frame_odd = false;
    let mut steps = 0;
    while m.bus.ppu.line == 261 {
        m.bus.ppu.step(&mut m.bus.mmu, &mut nmi);
        steps += 1;
    }
    assert_eq!(steps, 340);
    // Entering with odd parity makes the line even: all 341 dots run.
    m.bus.ppu.line = 261;
    m.bus.ppu.dots = 0;
    m.bus.ppu.frame_odd = true;
    let mut steps = 0;
    while m.bus.ppu.line == 261 {
        m.bus.ppu.step(&mut m.bus.mmu, &mut nmi);
        steps += 1;
    }
    assert_eq!(steps, 341);
}

#[test]
fn frame_odd_toggles_once_per_frame() {
    let mut m = ready_machine();
    let mut nmi = false;
    let start = m.bus.ppu.frame_odd;
    let mut toggles = 0;
    let mut last = start;
    for _ in 0..(2 * 89342) {
        m.bus.ppu.step(&mut m.bus.mmu, &mut nmi);
        if m.bus.ppu.frame_odd != last {
            toggles += 1;
            last = m.bus.ppu.frame_odd;
        }
    }
    assert_eq!(toggles, 2);
}

#[test]
fn push_and_pull_move_the_stack_pointer() {
    let mut m = ready_machine();
    let s0 = m.cpu.ctx.s;
    lintel::op::_48(&mut m.cpu.ctx, &mut m.bus); // PHA
    assert_eq!(m.cpu.ctx.s, s0.wrapping_sub(1));
    lintel::op::_08(&mut m.cpu.ctx, &mut m.bus); // PHP
    assert_eq!(m.cpu.ctx.s, s0.wrapping_sub(2));
    lintel::op::_68(&mut m.cpu.ctx, &mut m.bus); // PLA
    lintel::op::_68(&mut m.cpu.ctx, &mut m.bus); // PLA
    assert_eq!(m.cpu.ctx.s, s0);
}

#[test]
fn push_writes_to_stack_page_and_pull_reads_back() {
    let mut m = ready_machine();
    m.cpu.ctx.a = 0x7E;
    lintel::op::_48(&mut m.cpu.ctx, &mut m.bus); // PHA
    m.cpu.ctx.a = 0;
    lintel::op::_68(&mut m.cpu.ctx, &mut m.bus); // PLA
    assert_eq!(m.cpu.ctx.a, 0x7E);
    assert_eq!(m.cpu.ctx.p.bits & 0x02, 0); // Z clear
}

#[test]
fn register_ops_set_flags() {
    let mut m = ready_machine();
    m.cpu.ctx.a = 0x80;
    lintel::op::_AA(&mut m.cpu.ctx, &mut m.bus); // TAX
    assert_eq!(m.cpu.ctx.x, 0x80);
    assert_eq!(m.cpu.ctx.p.bits & 0x80, 0x80); // N set
    m.cpu.ctx.x = 0xFF;
    lintel::op::_E8(&mut m.cpu.ctx, &mut m.bus); // INX wraps to zero
    assert_eq!(m.cpu.ctx.x, 0);
    assert_eq!(m.cpu.ctx.p.bits & 0x02, 0x02); // Z set
    lintel::op::_38(&mut m.cpu.ctx, &mut m.bus); // SEC
    assert_eq!(m.cpu.ctx.p.bits & 0x01, 0x01);
    lintel::op::_18(&mut m.cpu.ctx, &mut m.bus); // CLC
    assert_eq!(m.cpu.ctx.p.bits & 0x01, 0x00);
}

#[test]
fn input_strobe_and_shift() {
    let mut m = ready_machine();
    m.bus.input.on_key_down(Button::A);
    m.bus.input.on_key_down(Button::Start);
    m.bus.write(0x4016, 1); // strobe on
    m.bus.write(0x4016, 0); // strobe off; registers hold the snapshot
    let bits: Vec<u8> = (0..8).map(|_| m.bus.read(0x4016)).collect();
    assert_eq!(bits, vec![1, 0, 0, 1, 0, 0, 0, 0]);
    // Player two reads as released
    assert_eq!(m.bus.read(0x4017), 0);
}

#[test]
fn apu_length_counter_reports_on_4015() {
    let mut m = ready_machine();
    assert_eq!(m.bus.read(0x4015), 0);
}

#[test]
fn data_port_write_then_read_round_trips() {
    let mut m = ready_machine();
    // Write $AB at nametable address $2108 through $2006/$2007
    m.bus.write(0x2006, 0x21);
    m.bus.write(0x2006, 0x08);
    m.bus.write(0x2007, 0xAB);
    // Restore v with the same $2006 pair, then read the data port back
    m.bus.write(0x2006, 0x21);
    m.bus.write(0x2006, 0x08);
    let r = m.bus.read(0x2007);
    assert_eq!(r, 0xAB);
    // And v stepped past the read
    assert_eq!(m.bus.ppu.v, 0x2109);
}

#[test]
fn unmapped_cpu_read_returns_ff() {
    let mut m = ready_machine();
    assert_eq!(m.bus.read(0x4018), 0xFF);
    assert_eq!(m.bus.read(0x5123), 0xFF);
}

#[test]
fn palette_backdrop_entries_alias() {
    let mut m = ready_machine();
    // A write through $3F10 lands in entry $00
    m.bus.write(0x2006, 0x3F);
    m.bus.write(0x2006, 0x10);
    m.bus.write(0x2007, 0x21);
    assert_eq!(m.bus.mmu.palette[0x00], 0x21);
    // Reading $3F00 returns it
    m.bus.write(0x2006, 0x3F);
    m.bus.write(0x2006, 0x00);
    assert_eq!(m.bus.read(0x2007), 0x21);
    // A non-aliased entry is separate
    m.bus.write(0x2006, 0x3F);
    m.bus.write(0x2006, 0x04);
    m.bus.write(0x2007, 0x2C);
    assert_eq!(m.bus.mmu.palette[0x04], 0x2C);
    assert_eq!(m.bus.mmu.palette[0x00], 0x21);
}

/// Build a machine whose PRG-ROM starts with the given program at $8000.
fn machine_with_program(program: &[u8]) -> Machine {
    let mut rom = vec![0x4E, 0x45, 0x53, 0x1A, 1, 1, 0, 0, 1, 0, 0, 0, 0, 0, 0, 0];
    let mut prg = vec![0u8; 0x4000];
    prg[..program.len()].copy_from_slice(program);
    prg[0x3FFC] = 0x00;
    prg[0x3FFD] = 0x80;
    rom.extend_from_slice(&prg);
    rom.extend_from_slice(&vec![0u8; 0x2000]);
    let mut m = Machine::new();
    m.open(&rom).unwrap();
    m.reset();
    assert!(m.is_ready());
    m
}

#[test]
fn interpreter_runs_a_small_program() {
    // LDA #$42; STA $0200; LDX #$05; INX; ADC #$01
    let m0 = machine_with_program(&[0xA9, 0x42, 0x8D, 0x00, 0x02, 0xA2, 0x05, 0xE8, 0x69, 0x01]);
    let mut m = m0;
    for _ in 0..5 {
        m.run().unwrap();
    }
    assert_eq!(m.cpu.ctx.a, 0x43);
    assert_eq!(m.cpu.ctx.x, 0x06);
    assert_eq!(m.bus.read(0x0200), 0x42);
    assert_eq!(m.cpu.ctx.pc, 0x800A);
    // Published cycle counts: 2 + 4 + 2 + 2 + 2
    assert_eq!(m.cpu.ctx.total_cycles, 12);
}

#[test]
fn interpreter_reports_unknown_opcode() {
    // $02 has no table entry
    let mut m = machine_with_program(&[0x02]);
    let r = m.run();
    assert!(r.is_err());
    let e = r.unwrap_err();
    assert_eq!(e.opcode, 0x02);
    assert_eq!(e.pc, 0x8000);
}

#[test]
fn branch_taken_and_not_taken() {
    // LDA #$00 (sets Z); BEQ +2 (skips the LDX); LDX #$07; LDY #$09
    let mut m = machine_with_program(&[0xA9, 0x00, 0xF0, 0x02, 0xA2, 0x07, 0xA0, 0x09]);
    m.run().unwrap();
    m.run().unwrap(); // branch taken: lands on LDY
    assert_eq!(m.cpu.ctx.pc, 0x8006);
    m.run().unwrap();
    assert_eq!(m.cpu.ctx.y, 0x09);
    assert_eq!(m.cpu.ctx.x, 0x00); // the LDX was skipped

    // LDA #$01 (clears Z); BEQ +2 falls through to the LDX
    let mut m = machine_with_program(&[0xA9, 0x01, 0xF0, 0x02, 0xA2, 0x07]);
    m.run().unwrap();
    m.run().unwrap();
    assert_eq!(m.cpu.ctx.pc, 0x8004);
    m.run().unwrap();
    assert_eq!(m.cpu.ctx.x, 0x07);
}

#[test]
fn jsr_and_rts_round_trip() {
    // $8000: JSR $8005; NOP (return lands here); $8005: LDA #$99; RTS
    let mut m = machine_with_program(&[0x20, 0x05, 0x80, 0xEA, 0xEA, 0xA9, 0x99, 0x60]);
    let s0 = m.cpu.ctx.s;
    m.run().unwrap(); // JSR
    assert_eq!(m.cpu.ctx.pc, 0x8005);
    assert_eq!(m.cpu.ctx.s, s0.wrapping_sub(2));
    m.run().unwrap(); // LDA
    assert_eq!(m.cpu.ctx.a, 0x99);
    m.run().unwrap(); // RTS
    assert_eq!(m.cpu.ctx.pc, 0x8003);
    assert_eq!(m.cpu.ctx.s, s0);
}

#[test]
fn read_page_cross_costs_one_extra_cycle() {
    // LDA $80FF,X with X = 1 crosses into $8100: 5 cycles.
    let mut m = machine_with_program(&[0xA2, 0x01, 0xBD, 0xFF, 0x80]);
    m.run().unwrap(); // LDX #$01: 2 cycles
    let before = m.cpu.ctx.total_cycles;
    m.run().unwrap();
    assert_eq!(m.cpu.ctx.total_cycles - before, 5);

    // LDA $8000,X with X = 1 stays in the page: 4 cycles.
    let mut m = machine_with_program(&[0xA2, 0x01, 0xBD, 0x00, 0x80]);
    m.run().unwrap();
    let before = m.cpu.ctx.total_cycles;
    m.run().unwrap();
    assert_eq!(m.cpu.ctx.total_cycles - before, 4);
}

#[test]
fn store_always_pays_the_fixup_cycle() {
    // STA $8000,X with X = 1, no cross: still 5 cycles.
    let mut m = machine_with_program(&[0xA2, 0x01, 0x9D, 0x00, 0x02]);
    m.run().unwrap();
    let before = m.cpu.ctx.total_cycles;
    m.run().unwrap();
    assert_eq!(m.cpu.ctx.total_cycles - before, 5);
}

#[test]
fn rmw_writes_twice_and_counts_six_cycles() {
    // INC $0200 (absolute): 6 cycles; memory goes from 0 to 1.
    let mut m = machine_with_program(&[0xEE, 0x00, 0x02]);
    let before = m.cpu.ctx.total_cycles;
    m.run().unwrap();
    assert_eq!(m.cpu.ctx.total_cycles - before, 6);
    assert_eq!(m.bus.read(0x0200), 1);
}

#[test]
fn nmi_is_serviced_at_instruction_boundaries() {
    // Main program: JMP $8000 (a tight loop).  NMI vector at $FFFA/$FFFB
    // points at $8100, which only the NMI service can reach.
    let mut program = vec![0u8; 0x200];
    program[0x000] = 0x4C; // JMP $8000
    program[0x001] = 0x00;
    program[0x002] = 0x80;
    program[0x100] = 0xA9; // the NMI handler starts with LDA #$33
    program[0x101] = 0x33;
    let mut rom = vec![0x4E, 0x45, 0x53, 0x1A, 1, 1, 0, 0, 1, 0, 0, 0, 0, 0, 0, 0];
    let mut prg = vec![0u8; 0x4000];
    prg[..program.len()].copy_from_slice(&program);
    prg[0x3FFA] = 0x00;
    prg[0x3FFB] = 0x81;
    prg[0x3FFC] = 0x00;
    prg[0x3FFD] = 0x80;
    rom.extend_from_slice(&prg);
    rom.extend_from_slice(&vec![0u8; 0x2000]);
    let mut m = Machine::new();
    m.open(&rom).unwrap();
    m.reset();

    // Enable NMI and run until the handler is entered.
    m.bus.write(0x2000, 0x80);
    let s0 = m.cpu.ctx.s;
    let mut entered = false;
    for _ in 0..40000 {
        m.run().unwrap();
        if m.cpu.ctx.pc >= 0x8100 {
            entered = true;
            break;
        }
    }
    assert!(entered);
    assert_eq!(m.cpu.ctx.pc, 0x8100);
    // Three pushes: PCH, PCL, P
    assert_eq!(m.cpu.ctx.s, s0.wrapping_sub(3));
    // The interrupt-disable flag is set
    assert_eq!(m.cpu.ctx.p.bits & 0x04, 0x04);
    // The handler's first instruction runs next
    m.run().unwrap();
    assert_eq!(m.cpu.ctx.a, 0x33);
}
