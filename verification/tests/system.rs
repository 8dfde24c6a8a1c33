//! Whole-machine behavior: frame pacing, memory-map side effects, the
//! timer, the joypad, interrupt dispatch and serial output.

use dmg_emu::bus::Bus;
use dmg_emu::cpu::CPU;
use dmg_emu::gameboy::Gameboy;
use dmg_emu::joypad::Joypad;
use dmg_emu::joypad::JoypadButton;
use dmg_emu::memory::Memory;
use dmg_emu::ppu::PPUMode;
use dmg_emu::timer::Timer;

fn nop_rom() -> Vec<u8> {
    vec![0x00; 0x8000]
}

#[test]
fn frame_takes_70224_cycles() {
    let mut gb = Gameboy::new();
    let mut rom = nop_rom();
    rom[0x0100] = 0x18; // JR -2: spin in place, twelve cycles per step
    rom[0x0101] = 0xFE;
    gb.load_rom(&rom).unwrap();
    // The first V-blank of a fresh machine comes at cycle 65664, the end
    // of line 143: 5472 iterations of the twelve-cycle loop.
    let steps = gb.run_frame();
    assert_eq!(steps, 5472);
    assert_eq!(gb.bus.ppu.ly, 144);
    // Every further frame is exactly 70224 cycles: 5852 iterations.
    for _ in 0..3 {
        let steps = gb.run_frame();
        assert_eq!(steps, 5852);
    }
}

#[test]
fn framebuffer_pixels_stay_two_bit() {
    let mut gb = Gameboy::new();
    let mut rom = nop_rom();
    rom[0x0000] = 0x00;
    gb.load_rom(&rom).unwrap();
    // Scatter some tile data into VRAM so the renderer has real input.
    for i in 0..0x1800u16 {
        gb.bus.write_byte(0x8000 + i, (i % 251) as u8);
    }
    gb.run_frame();
    gb.run_frame();
    let fb = gb.get_framebuffer();
    assert_eq!(fb.len(), 160 * 144);
    assert!(fb.iter().all(|&p| p < 4));
    // With nonzero tile data and the default palette, something is lit.
    assert!(fb.iter().any(|&p| p != 0));
}

#[test]
fn rom_region_is_read_only_after_load() {
    let mut gb = Gameboy::new();
    let mut rom = nop_rom();
    rom[0x0123] = 0x5A;
    gb.load_rom(&rom).unwrap();
    assert_eq!(gb.bus.read_byte(0x0123), 0x5A);
    gb.bus.write_byte(0x0123, 0xFF);
    assert_eq!(gb.bus.read_byte(0x0123), 0x5A);
    // Work RAM stays writable.
    gb.bus.write_byte(0xC123, 0x77);
    assert_eq!(gb.bus.read_byte(0xC123), 0x77);
}

#[test]
fn load_rom_rejects_empty_image() {
    let mut gb = Gameboy::new();
    assert!(gb.load_rom(&[]).is_err());
    let mut memory = Memory::new();
    assert!(memory.load_rom(&[]).is_err());
    assert!(memory.load_rom(&[0x00]).is_ok());
}

#[test]
fn echo_ram_mirrors_work_ram() {
    let mut bus = Bus::new();
    bus.write_byte(0xC100, 0x42);
    assert_eq!(bus.read_byte(0xE100), 0x42);
    bus.write_byte(0xE200, 0x24);
    assert_eq!(bus.read_byte(0xC200), 0x24);
}

#[test]
fn unmapped_regions_read_ff_and_drop_writes() {
    let mut bus = Bus::new();
    bus.write_byte(0xA123, 0x55);
    assert_eq!(bus.read_byte(0xA123), 0xFF);
    bus.write_byte(0xFEA5, 0x55);
    assert_eq!(bus.read_byte(0xFEA5), 0xFF);
    bus.write_byte(0xFF4D, 0x55);
    assert_eq!(bus.read_byte(0xFF4D), 0xFF);
    // The DMA register itself always reads 0xFF.
    assert_eq!(bus.read_byte(0xFF46), 0xFF);
}

#[test]
fn vram_locked_while_drawing() {
    let mut bus = Bus::new();
    bus.write_byte(0x8500, 0x3C);
    assert_eq!(bus.read_byte(0x8500), 0x3C);
    // Advance the fresh PPU past the 80-cycle OAM scan into drawing.
    bus.ppu_step(80);
    assert_eq!(bus.ppu.get_mode(), PPUMode::Drawing);
    assert_eq!(bus.read_byte(0x8500), 0xFF);
    bus.write_byte(0x8500, 0x99);
    // After the drawing phase ends the old byte is still there.
    bus.ppu_step(172);
    assert_eq!(bus.read_byte(0x8500), 0x3C);
}

#[test]
fn oam_dma_copies_160_bytes() {
    let mut bus = Bus::new();
    for i in 0..0xA0u16 {
        bus.write_byte(0xC000 + i, i as u8 ^ 0x5A);
    }
    bus.write_byte(0xFF46, 0xC0);
    for i in 0..0xA0u16 {
        assert_eq!(bus.memory.read_oam(0xFE00 + i), (i as u8) ^ 0x5A);
    }
}

#[test]
fn div_counts_at_its_rate() {
    let mut timer = Timer::new();
    // DIV advances once per 256 elapsed T-cycles (16384 Hz).
    timer.step(255);
    assert_eq!(timer.read_register(0xFF04), 0);
    timer.step(1);
    assert_eq!(timer.read_register(0xFF04), 1);
    timer.write_register(0xFF04, 0xAB);
    assert_eq!(timer.read_register(0xFF04), 0);
}

#[test]
fn tima_overflow_reloads_and_latches_interrupt() {
    let mut timer = Timer::new();
    timer.write_register(0xFF06, 0x7F); // TMA
    timer.write_register(0xFF05, 0xFF); // TIMA on the brink
    timer.write_register(0xFF07, 0x05); // enabled, 16 T-cycles per tick
    assert!(!timer.take_interrupt());
    timer.step(16); // one TIMA increment
    assert_eq!(timer.read_register(0xFF05), 0x7F);
    assert!(timer.take_interrupt());
    assert!(!timer.take_interrupt());
}

#[test]
fn tac_upper_bits_read_as_ones() {
    let mut timer = Timer::new();
    timer.write_register(0xFF07, 0x02);
    assert_eq!(timer.read_register(0xFF07), 0xFA);
}

#[test]
fn joypad_reports_selected_row_active_low() {
    let mut joypad = Joypad::new();
    // Nothing selected: every line floats high.
    assert_eq!(joypad.read_register(), 0xFF);
    joypad.set_button(JoypadButton::A, true);
    joypad.set_button(JoypadButton::Up, true);
    // Select the button row: its select bit reads low and A shows up.
    joypad.write_register(0x10);
    assert_eq!(joypad.read_register(), 0xDE);
    // Select the direction row instead: Up shows up.
    joypad.write_register(0x20);
    assert_eq!(joypad.read_register(), 0xEB);
    assert!(joypad.button_pressed());
    joypad.set_button(JoypadButton::Up, false);
    assert!(!joypad.button_pressed());
}

#[test]
fn joypad_press_raises_interrupt_flag() {
    let mut gb = Gameboy::new();
    gb.load_rom(&nop_rom()).unwrap();
    // Select the button row, then press A.
    gb.bus.write_byte(0xFF00, 0x10);
    gb.handle_input(JoypadButton::A, true);
    assert_eq!(gb.bus.read_byte(0xFF0F) & 0x10, 0x10);
}

#[test]
fn vblank_interrupt_dispatches_to_vector() {
    // With the master enable off, V-blank comes and goes without a jump.
    let mut gb = Gameboy::new();
    gb.load_rom(&nop_rom()).unwrap();
    gb.bus.write_byte(0xFFFF, 0x01);
    gb.bus.write_byte(0xFF0F, 0x00);
    gb.run_frame();
    assert_ne!(gb.cpu.pc, 0x0040);
    // With the master enable on, the step that raises V-blank enters the
    // vector: IME clears, the flag is acknowledged, the return address is
    // on the stack.
    let mut gb = Gameboy::new();
    gb.load_rom(&nop_rom()).unwrap();
    gb.bus.write_byte(0xFFFF, 0x01);
    gb.bus.write_byte(0xFF0F, 0x00);
    gb.cpu.sp = 0xFFFE;
    gb.cpu.execute_instruction(0xFB, &mut gb.bus); // EI
    assert!(gb.cpu.interrupts_enabled());
    let mut fired = false;
    for _ in 0..20000 {
        if gb.step() {
            fired = true;
            break;
        }
    }
    assert!(fired);
    assert_eq!(gb.cpu.pc, 0x0040);
    assert_eq!(gb.cpu.sp, 0xFFFC);
    assert!(!gb.cpu.interrupts_enabled());
    assert_eq!(gb.bus.read_byte(0xFF0F) & 0x01, 0);
}

#[test]
fn halt_wakes_on_pending_interrupt() {
    let mut gb = Gameboy::new();
    let mut rom = nop_rom();
    rom[0x0000] = 0x76; // HALT at the entry the test jumps to
    gb.load_rom(&rom).unwrap();
    // Clear the open-bus power-on contents of IE and IF.
    gb.bus.write_byte(0xFFFF, 0x00);
    gb.bus.write_byte(0xFF0F, 0x00);
    gb.cpu.pc = 0x0000;
    gb.step();
    assert!(gb.cpu.halted);
    gb.step();
    assert!(gb.cpu.halted);
    // A pending, enabled interrupt wakes the processor even with IME off.
    gb.bus.write_byte(0xFFFF, 0x04);
    gb.bus.write_byte(0xFF0F, 0x04);
    gb.step();
    assert!(!gb.cpu.halted);
}

#[test]
fn serial_transfer_hands_out_its_byte() {
    let mut gb = Gameboy::new();
    gb.load_rom(&nop_rom()).unwrap();
    // The backing store powers on as open bus; clear the control byte.
    gb.bus.write_byte(0xFF02, 0x00);
    assert_eq!(gb.get_serial_output(), None);
    gb.bus.write_byte(0xFF01, b'G');
    gb.bus.write_byte(0xFF02, 0x81);
    assert_eq!(gb.get_serial_output(), Some(b'G'));
    assert_eq!(gb.bus.read_byte(0xFF02) & 0x80, 0);
    assert_eq!(gb.get_serial_output(), None);
}

#[test]
fn daa_adjusts_bcd_addition() {
    let mut cpu = CPU::new();
    let mut bus = Bus::new();
    // 0x15 + 0x27 = 0x3C, which DAA corrects to the BCD sum 42.
    cpu.a = 0x15;
    cpu.b = 0x27;
    cpu.execute_instruction(0x80, &mut bus);
    assert_eq!(cpu.a, 0x3C);
    let cycles = cpu.execute_instruction(0x27, &mut bus);
    assert_eq!(cycles, 4);
    assert_eq!(cpu.a, 0x42);
    assert_eq!(cpu.flag_c(), false);
}

#[test]
fn cb_swap_exchanges_nibbles() {
    let mut cpu = CPU::new();
    let mut bus = Bus::new();
    cpu.pc = 0xC000;
    cpu.b = 0xA5;
    bus.write_byte(0xC000, 0x30); // SWAP B
    let cycles = cpu.execute_instruction(0xCB, &mut bus);
    assert_eq!(cycles, 8);
    assert_eq!(cpu.b, 0x5A);
    assert_eq!(cpu.flag_z(), false);
}

#[test]
fn cb_bit_set_res_roundtrip() {
    let mut cpu = CPU::new();
    let mut bus = Bus::new();
    cpu.pc = 0xC000;
    cpu.d = 0x00;
    bus.write_byte(0xC000, 0xD2); // SET 2, D
    bus.write_byte(0xC001, 0x52); // BIT 2, D
    bus.write_byte(0xC002, 0x92); // RES 2, D
    bus.write_byte(0xC003, 0x52); // BIT 2, D
    cpu.execute_instruction(0xCB, &mut bus);
    assert_eq!(cpu.d, 0x04);
    cpu.execute_instruction(0xCB, &mut bus);
    assert_eq!(cpu.flag_z(), false);
    cpu.execute_instruction(0xCB, &mut bus);
    assert_eq!(cpu.d, 0x00);
    cpu.execute_instruction(0xCB, &mut bus);
    assert_eq!(cpu.flag_z(), true);
}

#[test]
fn cb_srl_shifts_its_own_register() {
    let mut cpu = CPU::new();
    let mut bus = Bus::new();
    cpu.pc = 0xC000;
    cpu.b = 0xFF;
    cpu.d = 0x02;
    bus.write_byte(0xC000, 0x3A); // SRL D
    cpu.execute_instruction(0xCB, &mut bus);
    assert_eq!(cpu.d, 0x01);
    assert_eq!(cpu.b, 0xFF);
    assert_eq!(cpu.flag_c(), false);
}

#[test]
fn rst_pushes_and_jumps() {
    let mut cpu = CPU::new();
    let mut bus = Bus::new();
    cpu.pc = 0x1234;
    cpu.sp = 0xFFFE;
    let cycles = cpu.execute_instruction(0xEF, &mut bus); // RST 28H
    assert_eq!(cycles, 16);
    assert_eq!(cpu.pc, 0x0028);
    assert_eq!(cpu.sp, 0xFFFC);
    assert_eq!(bus.read_byte(0xFFFC), 0x34);
    assert_eq!(bus.read_byte(0xFFFD), 0x12);
}

#[test]
fn stat_reports_coincidence() {
    let mut gb = Gameboy::new();
    gb.load_rom(&nop_rom()).unwrap();
    gb.bus.write_byte(0xFF45, 10); // LYC = 10
    for _ in 0..3 {
        gb.run_frame();
    }
    // LY runs the whole range each frame; probe right after a write that
    // lands while LY == LYC cannot be timed here, so check the live bit
    // by stepping to the line.
    while gb.bus.ppu.ly != 10 {
        gb.step();
    }
    gb.step();
    assert_eq!(gb.bus.read_byte(0xFF41) & 0x04, 0x04);
}

#[test]
fn flag_low_nibble_stays_zero() {
    let mut cpu = CPU::new();
    let mut bus = Bus::new();
    // A sweep of flag-heavy instructions never deposits into F's low
    // nibble.
    cpu.pc = 0xC000;
    for op in [0x80u8, 0x90, 0xA0, 0xB0, 0x3C, 0x3D, 0x07, 0x17, 0x27, 0x37, 0x3F, 0xE8] {
        cpu.execute_instruction(op, &mut bus);
        assert_eq!(cpu.f & 0x0F, 0);
    }
}

#[test]
fn pop_af_masks_low_nibble() {
    let mut cpu = CPU::new();
    let mut bus = Bus::new();
    cpu.sp = 0xFFFC;
    bus.write_byte(0xFFFC, 0xFF); // would-be F, low nibble set
    bus.write_byte(0xFFFD, 0x12); // A
    cpu.execute_instruction(0xF1, &mut bus); // POP AF
    assert_eq!(cpu.a, 0x12);
    assert_eq!(cpu.f, 0xF0);
    assert_eq!(cpu.sp, 0xFFFE);
}
