use ccboy::Emulator;

fn make_rom(program: &[u8]) -> Vec<u8> {
    let mut rom = vec![0xFF; 0x8000];
    // Entry stub: set up SP and jump to the program at 0x0100.
    rom[0x0000] = 0x31; // LD SP, $FFFE
    rom[0x0001] = 0xFE;
    rom[0x0002] = 0xFF;
    rom[0x0003] = 0xC3; // JP $0100
    rom[0x0004] = 0x00;
    rom[0x0005] = 0x01;
    rom[0x100..0x100 + program.len()].copy_from_slice(program);
    rom
}

fn boot_at_0x100(program: &[u8]) -> Emulator {
    let mut emu = Emulator::new();
    emu.load_rom(&make_rom(program));
    emu.write_memory(0xFF50, 0x01); // retire the boot overlay
    emu.step(); // LD SP, $FFFE
    emu.step(); // JP $0100
    emu
}

#[test]
fn test_add_program_result_flags_and_cycles() {
    // LD A,$42; LD B,$13; ADD A,B leaves A=0x55, Z=0, C=0, H=0, 20 cycles.
    let mut emu = boot_at_0x100(&[0x3E, 0x42, 0x06, 0x13, 0x80]);
    let cycles_before = emu.gameboy.cpu.cycles;
    emu.step();
    emu.step();
    emu.step();
    let state = emu.get_cpu_state();
    assert_eq!(state.a, 0x55);
    assert!(!state.flag_z());
    assert!(!state.flag_c());
    assert!(!state.flag_h());
    assert_eq!(emu.gameboy.cpu.cycles - cycles_before, 20);
}

#[test]
fn test_add_overflow_sets_all_carries() {
    // LD A,$FF; ADD A,$01 leaves A=0 with Z=1, H=1, C=1.
    let mut emu = boot_at_0x100(&[0x3E, 0xFF, 0xC6, 0x01]);
    emu.step();
    emu.step();
    let state = emu.get_cpu_state();
    assert_eq!(state.a, 0x00);
    assert!(state.flag_z());
    assert!(state.flag_h());
    assert!(state.flag_c());
}

#[test]
fn test_sla_shifts_out_high_bit() {
    // LD A,$80; SLA A leaves A=0 with Z=1, C=1.
    let mut emu = boot_at_0x100(&[0x3E, 0x80, 0xCB, 0x27]);
    emu.step();
    emu.step();
    let state = emu.get_cpu_state();
    assert_eq!(state.a, 0x00);
    assert!(state.flag_z());
    assert!(state.flag_c());
}

#[test]
fn test_call_pushes_return_address() {
    // CALL $0150 at 0x0100 with SP=$FFFE: PC=0x0150, SP=0xFFFC, and the
    // little-endian return address 0x0103 at 0xFFFC..0xFFFE.
    let mut emu = boot_at_0x100(&[0xCD, 0x50, 0x01]);
    emu.step();
    let state = emu.get_cpu_state();
    assert_eq!(state.pc, 0x0150);
    assert_eq!(state.sp, 0xFFFC);
    assert_eq!(emu.read_memory(0xFFFC), 0x03);
    assert_eq!(emu.read_memory(0xFFFD), 0x01);
}

#[test]
fn test_mbc1_ram_enable_and_disable() {
    // With MBC1+RAM, 0x0A to 0x0000 enables RAM; any other value locks it.
    let mut emu = Emulator::new();
    let mut rom = vec![0xFF; 0x8000];
    rom[0x147] = 0x03;
    rom[0x149] = 0x02;
    emu.load_rom(&rom);
    emu.write_memory(0x0000, 0x0A);
    emu.write_memory(0xA000, 0x42);
    assert_eq!(emu.read_memory(0xA000), 0x42);
    emu.write_memory(0x0000, 0x00);
    assert_eq!(emu.read_memory(0xA000), 0xFF);
}

#[test]
fn test_mbc1_bank_zero_selects_bank_one() {
    // An MBC1 bank-select of 0 picks bank 1, never bank 0.
    let mut emu = Emulator::new();
    let mut rom = vec![0u8; 0x10000];
    rom[0x147] = 0x01;
    rom[0x4000] = 0xAA; // a bank-1 byte
    emu.load_rom(&rom);
    emu.write_memory(0xFF50, 0x01);
    emu.write_memory(0x2000, 0x02);
    assert_eq!(emu.read_memory(0x4000), rom[0x8000]);
    emu.write_memory(0x2000, 0x00);
    assert_eq!(emu.read_memory(0x4000), 0xAA);
}

#[test]
fn test_vblank_interrupt_dispatches_to_0x40() {
    // With IE=0x01 and IME on, one frame lands in the VBlank handler with
    // the prior PC pushed and IF bit 0 clear.
    let mut emu = Emulator::new();
    let mut rom = make_rom(&[0xFB, 0x00, 0x18, 0xFE]); // EI; NOP; JR -2
    rom[0x40] = 0x18; // handler: JR -2 (spin in place)
    rom[0x41] = 0xFE;
    emu.load_rom(&rom);
    emu.write_memory(0xFF50, 0x01);
    emu.write_memory(0xFF40, 0x91); // LCD on
    emu.write_memory(0xFFFF, 0x01); // enable VBlank
    emu.step(); // LD SP
    emu.step(); // JP $0100
    emu.run_frame();
    let state = emu.get_cpu_state();
    assert_eq!(state.pc, 0x0040);
    assert_eq!(state.sp, 0xFFFC);
    assert_eq!(emu.read_memory(0xFFFC), 0x02); // pushed PC 0x0102
    assert_eq!(emu.read_memory(0xFFFD), 0x01);
    assert_eq!(emu.read_memory(0xFF0F) & 0x01, 0);
}

#[test]
fn test_pop_af_push_af_keeps_memory_and_clears_nibble() {
    // POP AF; PUSH AF with a clear low nibble under SP leaves the two
    // stack bytes unchanged, and F keeps only its high nibble.
    let mut emu = boot_at_0x100(&[0x31, 0xFC, 0xFF, 0xF1, 0xF5]); // LD SP,$FFFC; POP AF; PUSH AF
    emu.write_memory(0xFFFC, 0xA0);
    emu.write_memory(0xFFFD, 0x12);
    emu.step();
    emu.step(); // POP AF
    let state = emu.get_cpu_state();
    assert_eq!(state.a, 0x12);
    assert_eq!(state.f, 0xA0);
    assert_eq!(state.f & 0x0F, 0);
    emu.step(); // PUSH AF
    assert_eq!(emu.read_memory(0xFFFC), 0xA0);
    assert_eq!(emu.read_memory(0xFFFD), 0x12);
    assert_eq!(emu.get_cpu_state().sp, 0xFFFC);
}

#[test]
fn test_ld_hli_then_ld_hld_roundtrip() {
    // LD (HL+),A; LD A,(HL-) with the byte after HL equal to A returns
    // HL and A to their initial values and leaves the touched byte A.
    let mut emu = boot_at_0x100(&[0x21, 0x00, 0xC0, 0x3E, 0x42, 0x22, 0x3A]);
    emu.write_memory(0xC001, 0x42);
    emu.step(); // LD HL,$C000
    emu.step(); // LD A,$42
    emu.step(); // LD (HL+),A
    emu.step(); // LD A,(HL-)
    let state = emu.get_cpu_state();
    assert_eq!(state.a, 0x42);
    assert_eq!(state.hl(), 0xC000);
    assert_eq!(emu.read_memory(0xC000), 0x42);
}

#[test]
fn test_save_state_roundtrip_is_indistinguishable() {
    // save_state, reset, reload the ROM and load_state: the debug
    // interface sees the same console, byte for byte.
    let mut rom = make_rom(&[0x3E, 0x42, 0x21, 0x00, 0xC0, 0x77]);
    rom[0x147] = 0x03;
    rom[0x149] = 0x02;
    let mut emu = Emulator::new();
    emu.load_rom(&rom);
    emu.write_memory(0xFF50, 0x01);
    for _ in 0..5 {
        emu.step();
    }
    emu.write_memory(0x0000, 0x0A); // enable cartridge RAM
    emu.write_memory(0xA010, 0x77);
    emu.write_memory(0x8123, 0x55); // VRAM
    emu.write_memory(0xFF80, 0x99); // HRAM
    emu.write_memory(0xFFFF, 0x1F); // IE
    let blob = emu.get_save_state();

    let mut restored = Emulator::new();
    restored.load_rom(&rom);
    assert!(restored.load_save_state(&blob));

    let s1 = emu.get_cpu_state();
    let s2 = restored.get_cpu_state();
    assert_eq!(s1.a, s2.a);
    assert_eq!(s1.f, s2.f);
    assert_eq!(s1.pc, s2.pc);
    assert_eq!(s1.sp, s2.sp);
    assert_eq!(s1.ime, s2.ime);
    assert_eq!(s1.halt, s2.halt);
    for address in 0..=0xFFFFu16 {
        assert_eq!(emu.read_memory(address), restored.read_memory(address));
    }
}

#[test]
fn test_save_state_rejects_malformed_blob() {
    // A malformed blob is refused and the machine is untouched.
    let mut emu = Emulator::new();
    emu.write_memory(0xC000, 0x42);
    let pc_before = emu.get_cpu_state().pc;
    assert!(!emu.load_save_state(b"not a save state"));
    let mut truncated = emu.get_save_state();
    truncated.truncate(40);
    assert!(!emu.load_save_state(&truncated));
    let mut corrupted = emu.get_save_state();
    corrupted[0] = b'x';
    assert!(!emu.load_save_state(&corrupted));
    assert_eq!(emu.read_memory(0xC000), 0x42);
    assert_eq!(emu.get_cpu_state().pc, pc_before);
}

#[test]
fn test_tima_ticks_at_selected_rate() {
    // TAC=0x05 enables TIMA at one tick per 16 cycles.
    let mut emu = Emulator::new();
    let mut rom = vec![0xFF; 0x8000];
    for i in 0..0x300 {
        rom[i] = 0x00; // a run of NOPs
    }
    emu.load_rom(&rom);
    emu.write_memory(0xFF50, 0x01);
    emu.write_memory(0xFF07, 0x05);
    for _ in 0..100 {
        emu.step();
    }
    // Around 400 cycles elapsed: TIMA must have advanced.
    let tima = emu.read_memory(0xFF05);
    assert!(tima >= 20 && tima <= 30, "TIMA was {}", tima);
}

#[test]
fn test_dma_write_copies_into_oam() {
    // Writing V to 0xFF46 copies 160 bytes from 0xV00 into OAM.
    let mut emu = Emulator::new();
    emu.write_memory(0xFF50, 0x01);
    for i in 0..160u16 {
        emu.write_memory(0xC000 + i, i as u8);
    }
    emu.write_memory(0xFF46, 0xC0);
    for i in 0..160u16 {
        assert_eq!(emu.read_memory(0xFE00 + i), i as u8);
    }
    assert_eq!(emu.read_memory(0xFF46), 0xC0);
}

#[test]
fn test_conditional_jr_cycle_counts() {
    // JR NZ: 8 cycles when not taken, 12 when taken.
    let mut emu = boot_at_0x100(&[
        0xAF, // XOR A (Z=1)
        0x20, 0x02, // JR NZ, +2 (not taken)
        0x28, 0x00, // JR Z, +0 (taken)
    ]);
    emu.step(); // XOR A
    let before = emu.gameboy.cpu.cycles;
    emu.step(); // JR NZ not taken
    assert_eq!(emu.gameboy.cpu.cycles - before, 8);
    let before = emu.gameboy.cpu.cycles;
    emu.step(); // JR Z taken
    assert_eq!(emu.gameboy.cpu.cycles - before, 12);
}

#[test]
fn test_audio_samples_emitted_within_range() {
    // With NR52 bit 7 on, one frame yields stereo sample numerators in
    // the -480..480 range of the fixed 480 denominator.
    let mut emu = Emulator::new();
    emu.load_rom(&make_rom(&[0x18, 0xFE])); // JR -2
    emu.write_memory(0xFF50, 0x01);
    emu.write_memory(0xFF26, 0x80);
    emu.step();
    emu.step();
    emu.run_frame();
    let samples = emu.take_audio_scaled();
    assert!(!samples.is_empty());
    assert_eq!(samples.len() % 2, 0);
    for s in &samples {
        assert!(-480 <= *s && *s <= 480);
    }
    assert!(emu.take_audio_scaled().is_empty());
}

#[test]
fn test_interrupt_enable_keeps_unused_bits_out_of_dispatch() {
    // Only the five interrupt sources dispatch: triggered = IF & IE & 0x1F.
    let mut emu = Emulator::new();
    emu.write_memory(0xFF50, 0x01);
    emu.write_memory(0xFFFF, 0xE0);
    emu.write_memory(0xFF0F, 0xE0);
    // No dispatch can come from bits 5..7, whatever IME says.
    let triggered = emu.read_memory(0xFFFF) & emu.read_memory(0xFF0F) & 0x1F;
    assert_eq!(triggered, 0);
}

#[test]
fn test_battery_ram_roundtrip_across_banks() {
    // battery_ram -> reload ROM -> load_battery_ram restores
    // 0xA000..0xBFFF across all banks (MBC3 selects RAM banks at
    // 0x4000..0x6000).
    let mut rom = vec![0xFF; 0x8000];
    rom[0x147] = 0x10; // MBC3 with RAM
    rom[0x149] = 0x03; // 32 KiB: four banks
    let mut emu = Emulator::new();
    emu.load_rom(&rom);
    emu.write_memory(0x0000, 0x0A); // enable RAM
    emu.write_memory(0x4000, 0x00);
    emu.write_memory(0xA000, 0x11);
    emu.write_memory(0x4000, 0x03);
    emu.write_memory(0xBFFF, 0x22);
    let battery = emu.get_save_data();

    let mut emu2 = Emulator::new();
    emu2.load_rom(&rom);
    emu2.load_save_data(&battery);
    emu2.write_memory(0x0000, 0x0A);
    emu2.write_memory(0x4000, 0x00);
    assert_eq!(emu2.read_memory(0xA000), 0x11);
    emu2.write_memory(0x4000, 0x03);
    assert_eq!(emu2.read_memory(0xBFFF), 0x22);
}

#[test]
fn test_ppu_mode_progression_over_one_line() {
    // With the LCD on, a scanline passes OAMScan (80 cycles), Drawing
    // (172) and HBlank (204) in order, and LY then advances.
    let mut emu = Emulator::new();
    let rom = vec![0x00; 0x8000]; // a sled of NOPs
    emu.load_rom(&rom);
    emu.write_memory(0xFF50, 0x01);
    emu.write_memory(0xFF40, 0x91);
    assert_eq!(emu.read_memory(0xFF44), 0);
    for _ in 0..20 {
        emu.step(); // 80 cycles: OAMScan ends
    }
    assert_eq!(emu.read_memory(0xFF41) & 0x03, 3); // Drawing
    for _ in 0..43 {
        emu.step(); // 252 cycles in: Drawing ends
    }
    assert_eq!(emu.read_memory(0xFF41) & 0x03, 0); // HBlank
    for _ in 0..51 {
        emu.step(); // 456 cycles: the line is over
    }
    assert_eq!(emu.read_memory(0xFF44), 1);
    assert_eq!(emu.read_memory(0xFF41) & 0x03, 2); // OAMScan again
}

#[test]
fn test_vblank_request_sets_interrupt_flag() {
    // With the LCD on, one frame raises the VBlank request: IF bit 0 is
    // set after 70,224 cycles even with dispatch disabled.
    let mut emu = Emulator::new();
    emu.load_rom(&vec![0x00; 0x8000]); // a sled of NOPs
    emu.write_memory(0xFF50, 0x01);
    emu.write_memory(0xFF40, 0x80); // LCD on
    emu.write_memory(0xFF0F, 0x00);
    emu.run_frame();
    assert_ne!(emu.read_memory(0xFF0F) & 0x01, 0);
}

#[test]
fn test_boot_program_hands_off_at_entry() {
    // The embedded boot program runs from 0x0000, retires the overlay
    // and continues at the cartridge entry point 0x0100.
    let mut emu = Emulator::new();
    assert_eq!(emu.read_memory(0x0000), 0x31);
    for _ in 0..4 {
        emu.step();
    }
    assert_eq!(emu.get_cpu_state().pc, 0x0100);
    assert_eq!(emu.get_cpu_state().sp, 0xFFFE);
    // The overlay is gone: with no cartridge the bus reads 0xFF.
    assert_eq!(emu.read_memory(0x0000), 0xFF);
}
