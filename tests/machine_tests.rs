use ferricom::bus::Bus;
use ferricom::cpu::{StepResult, CPU};
use ferricom::flags::CPUFlags;
use ferricom::gamepad::{Gamepad, JoypadButton};
use ferricom::mappers::{MappedRead, Mapper, TXROM};
use ferricom::ppu::PPU;
use ferricom::rom::{ScreenMirroring, ROM};

fn test_rom() -> ROM {
    let mut image: Vec<u8> = vec![0x4E, 0x45, 0x53, 0x1A, 0x02, 0x01, 0x01, 00, 00, 00, 00, 00, 00, 00, 00, 00];
    image.extend(vec![1u8; 2 * 16384]);
    image.extend(vec![2u8; 8192]);
    ROM::from_bytes(String::new(), &image).unwrap()
}

fn init_cpu() -> CPU {
    CPU::new(Bus::new(test_rom()))
}

#[test]
fn reset_reads_the_reset_vector() {
    let mut cpu = init_cpu();
    cpu.acc = 9;
    cpu.x = 8;
    cpu.y = 7;
    cpu.reset();
    assert_eq!(cpu.pc, 0x0101);
    assert_eq!(cpu.sp, 0xFF);
    assert_eq!((cpu.acc, cpu.x, cpu.y, cpu.status.bits()), (0, 0, 0, 0));
}

#[test]
fn zero_and_negative_flags_for_edge_bytes() {
    let mut cpu = init_cpu();
    cpu.set_negative_and_zero_flags(0x00);
    assert!(cpu.is_flag_set(CPUFlags::ZERO));
    assert!(!cpu.is_flag_set(CPUFlags::NEGATIVE));
    cpu.set_negative_and_zero_flags(0x80);
    assert!(!cpu.is_flag_set(CPUFlags::ZERO));
    assert!(cpu.is_flag_set(CPUFlags::NEGATIVE));
    cpu.set_negative_and_zero_flags(0x7F);
    assert!(!cpu.is_flag_set(CPUFlags::ZERO));
    assert!(!cpu.is_flag_set(CPUFlags::NEGATIVE));
}

#[test]
fn stack_round_trip_restores_value_and_pointer() {
    let mut cpu = init_cpu();
    for (sp, v) in [(0xFDu8, 0xBEEFu16), (0x00, 0x1234), (0x01, 0xFF00)] {
        cpu.sp = sp;
        cpu.stack_push_u16(v);
        assert_eq!(cpu.stack_pop_u16(), v);
        assert_eq!(cpu.sp, sp);
    }
}

#[test]
fn indirect_pointer_wraps_within_its_page() {
    let mut cpu = init_cpu();
    cpu.mem_write_u16(0x0010, 0x02FF);
    cpu.mem_write_u8(0x02FF, 0x34);
    cpu.mem_write_u8(0x0200, 0x12);
    cpu.mem_write_u8(0x0300, 0x56);
    let (addr, _) = cpu.get_absolute_address(&ferricom::instructions::AddressingMode::Indirect, 0x0010);
    assert_eq!(addr, 0x1234);
}

#[test]
fn branch_cycles_taken_and_page_crossing() {
    // BNE +2 not taken (Z set by LDA #0), then BEQ -> same page, BEQ -> other page
    let mut cpu = init_cpu();
    cpu.load(vec![0xA9, 0x00, 0xD0, 0x02, 0xF0, 0x02]);
    assert_eq!(cpu.step(), StepResult::Continue);
    let c0 = cpu.bus.get_cycles();
    assert_eq!(cpu.step(), StepResult::Continue);
    assert_eq!(cpu.pc, 0x0604);
    assert_eq!(cpu.bus.get_cycles() - c0, 2);
    let c1 = cpu.bus.get_cycles();
    assert_eq!(cpu.step(), StepResult::Continue);
    assert_eq!(cpu.pc, 0x0608);
    assert_eq!(cpu.bus.get_cycles() - c1, 3);

    let mut cpu = init_cpu();
    cpu.load_custom_program(vec![0xA9, 0x00, 0xF0, 0x10], 0x06EC);
    assert_eq!(cpu.pc, 0x0600);
    cpu.pc = 0x06EC;
    cpu.step();
    let c2 = cpu.bus.get_cycles();
    cpu.step();
    assert_eq!(cpu.pc, 0x0700);
    assert_eq!(cpu.bus.get_cycles() - c2, 4);
}

#[test]
fn add_with_carry_examples() {
    let mut cpu = init_cpu();
    cpu.load_and_run(vec![0xA9, 0xF0, 0x69, 0x0F, 0x00]);
    assert_eq!(cpu.acc, 0xFF);
    assert!(!cpu.is_flag_set(CPUFlags::CARRY));

    let mut cpu = init_cpu();
    cpu.load_and_run(vec![0xA9, 0xF0, 0x69, 0x10, 0x00]);
    assert_eq!(cpu.acc, 0x00);
    assert!(cpu.is_flag_set(CPUFlags::CARRY));
    assert!(cpu.is_flag_set(CPUFlags::ZERO));

    // 0x50 + 0x50 overflows into the sign bit
    let mut cpu = init_cpu();
    cpu.load_and_run(vec![0xA9, 0x50, 0x69, 0x50, 0x00]);
    assert_eq!(cpu.acc, 0xA0);
    assert!(cpu.is_flag_set(CPUFlags::OVERFLOW));
    assert!(cpu.is_flag_set(CPUFlags::NEGATIVE));
}

#[test]
fn subroutine_call_and_return() {
    let mut cpu = init_cpu();
    // JSR $0610; LDX #$05; BRK ... at $0610: LDA #$07; RTS
    cpu.load(vec![0x20, 0x10, 0x06, 0xA2, 0x05, 0x00]);
    cpu.mem_write_u8(0x0610, 0xA9);
    cpu.mem_write_u8(0x0611, 0x07);
    cpu.mem_write_u8(0x0612, 0x60);
    let sp = cpu.sp;
    cpu.step();
    assert_eq!(cpu.pc, 0x0610);
    assert_eq!(cpu.sp, sp.wrapping_sub(2));
    cpu.step();
    cpu.step();
    assert_eq!(cpu.pc, 0x0603);
    assert_eq!(cpu.sp, sp);
    cpu.run();
    assert_eq!((cpu.acc, cpu.x), (0x07, 0x05));
}

#[test]
fn sample_program_end_to_end() {
    let mut cpu = init_cpu();
    assert_eq!(cpu.load_and_run(vec![0xA9, 0xC0, 0xAA, 0xE8, 0x00]), StepResult::Halted);
    assert_eq!(cpu.acc, 0xC0);
    assert_eq!(cpu.x, 0xC1);
}

#[test]
fn invalid_opcode_stops_execution() {
    let mut cpu = init_cpu();
    assert_eq!(cpu.load_and_run(vec![0xA9, 0x01, 0x02]), StepResult::InvalidOpcode(0x02));
    assert_eq!(cpu.acc, 0x01);
    assert_eq!(cpu.pc, 0x0602);
}

#[test]
fn ram_is_mirrored_every_2kb() {
    let mut bus = Bus::new(test_rom());
    bus.mem_write_u8(0x0001, 0x42);
    assert_eq!(bus.mem_read_u8(0x0801), 0x42);
    assert_eq!(bus.mem_read_u8(0x1801), 0x42);
    bus.mem_write_u8(0x1FFF, 0x17);
    assert_eq!(bus.mem_read_u8(0x07FF), 0x17);
    assert_eq!(bus.mem_read_u16(0x07FF), 0x0017);
}

#[test]
fn unmapped_and_cartridge_reads() {
    let mut bus = Bus::new(test_rom());
    assert_eq!(bus.mem_read_u8(0x4000), 0);
    assert_eq!(bus.mem_read_u8(0x8000), 1);
    assert_eq!(bus.mem_read_u8(0xFFFF), 1);
}

#[test]
fn oam_dma_copies_a_page() {
    let mut bus = Bus::new(test_rom());
    for i in 0..256u16 {
        bus.mem_write_u8(0x0200 + i, i as u8);
    }
    bus.mem_write_u8(0x2003, 0x10);
    bus.mem_write_u8(0x4014, 0x02);
    assert_eq!(bus.ppu.oam_data[0x10], 0x00);
    assert_eq!(bus.ppu.oam_data[0x0F], 0xFF);
    assert_eq!(bus.ppu.oam_addr, 0x10);
}

#[test]
fn video_registers_are_mirrored_every_8_bytes() {
    let mut bus = Bus::new(test_rom());
    bus.mem_write_u8(0x3456, 0x21); // 0x2006
    bus.mem_write_u8(0x2006, 0x05);
    bus.mem_write_u8(0x2007, 0x66);
    assert_eq!(bus.ppu.vram[0x0105], 0x66);
}

#[test]
fn frame_takes_341_by_262_dots() {
    let mut ppu = PPU::new();
    let mut frames = 0;
    for _ in 0..(341 * 262) {
        if ppu.tick(1) {
            frames += 1;
        }
        if ppu.scanline == 241 && ppu.cycles == 0 {
            assert!(ppu.status.is_in_vblank());
        }
    }
    assert_eq!(frames, 1);
    assert_eq!((ppu.scanline, ppu.cycles), (0, 0));
    assert!(!ppu.status.is_in_vblank());
}

#[test]
fn nmi_raised_at_vblank_when_enabled() {
    let mut ppu = PPU::new();
    ppu.update_ctrl_register(0x80);
    for _ in 0..(341 * 241 - 1) {
        ppu.tick(1);
    }
    assert_eq!(ppu.poll_nmi(), None);
    ppu.tick(1);
    assert_eq!(ppu.poll_nmi(), Some(1));
    assert_eq!(ppu.poll_nmi(), None);
}

#[test]
fn nmi_raised_when_enabled_during_vblank() {
    let mut ppu = PPU::new();
    for _ in 0..(341 * 241) {
        ppu.tick(1);
    }
    assert!(ppu.status.is_in_vblank());
    assert_eq!(ppu.poll_nmi(), None);
    ppu.update_ctrl_register(0x80);
    assert_eq!(ppu.poll_nmi(), Some(1));
}

#[test]
fn reading_status_clears_vblank() {
    let mut ppu = PPU::new();
    ppu.status.set_vblank_status(true);
    let status = ppu.read_status();
    assert_eq!(status >> 7, 1);
    assert!(!ppu.status.is_in_vblank());
}

#[test]
fn data_reads_are_buffered_and_step_by_32() {
    let mut ppu = PPU::new();
    ppu.update_ctrl_register(0b100);
    ppu.vram[0x01ff] = 0x66;
    ppu.vram[0x01ff + 32] = 0x77;
    ppu.write_to_ppu_address(0x21);
    ppu.write_to_ppu_address(0xff);
    ppu.read_data();
    assert_eq!(ppu.read_data(), 0x66);
    assert_eq!(ppu.read_data(), 0x77);
}

#[test]
fn horizontal_mirroring_folds_nametables() {
    let mut rom = test_rom();
    rom.header.mirroring = ScreenMirroring::Horizontal;
    let mapper = ferricom::mappers::NROM::load(&mut rom);
    let mut ppu = PPU::new();
    ppu.load_mapper(mapper);
    assert_eq!(ppu.mirror_vram_addr(0x2405), 0x0005);
    assert_eq!(ppu.mirror_vram_addr(0x2805), 0x0405);
    assert_eq!(ppu.mirror_vram_addr(0x2C05), 0x0405);
}

#[test]
fn windowed_mapper_bank_translate() {
    let mut t = TXROM::new(ScreenMirroring::Vertical, 16 * 0x2000, 0x2000, 0x2000);
    // power-on: last two pages at the top
    assert_eq!(t.map_read(0xC000), MappedRead::PrgROM(14 * 0x2000));
    assert_eq!(t.map_read(0xE001), MappedRead::PrgROM(15 * 0x2000 + 1));
    // select register 6, PRG mode 0, then store bank 0x23 (masked to 16 pages)
    t.map_write(0x8000, 0x06);
    t.map_write(0x8001, 0x23);
    assert_eq!(t.map_read(0x8123), MappedRead::PrgROM(((0x23 & 15) << 13) | 0x0123));
    // PRG mode 1 swaps the fixed second-last page to the bottom
    t.map_write(0x8000, 0x46);
    assert_eq!(t.map_read(0x8000), MappedRead::PrgROM(14 * 0x2000));
    assert_eq!(t.map_read(0xC000), MappedRead::PrgROM(3 * 0x2000));
    // mirroring control
    t.map_write(0xA000, 0x01);
    assert_eq!(Mapper::TXROM(t).mirroring(), ScreenMirroring::Horizontal);
}

#[test]
fn gamepad_shifts_out_buttons() {
    let mut pad = Gamepad::new();
    pad.set_button_pressed_status(JoypadButton::ButtonA, true);
    pad.set_button_pressed_status(JoypadButton::Start, true);
    pad.write(1);
    pad.write(0);
    let bits: Vec<u8> = (0..8).map(|_| pad.read()).collect();
    assert_eq!(bits, vec![1, 0, 0, 1, 0, 0, 0, 0]);
    assert_eq!(pad.read(), 1);
}

#[test]
fn nmi_is_serviced_at_vblank() {
    let mut cpu = init_cpu();
    // LDA #$80; STA $2000; JMP $0605
    cpu.load(vec![0xA9, 0x80, 0x8D, 0x00, 0x20, 0x4C, 0x05, 0x06]);
    let sp = cpu.sp;
    let mut steps = 0;
    while cpu.pc != 0x0101 && steps < 100_000 {
        assert_eq!(cpu.step(), StepResult::Continue);
        steps += 1;
    }
    assert_eq!(cpu.pc, 0x0101);
    assert!(cpu.is_flag_set(CPUFlags::INTERRUPT_DISABLE));
    assert_eq!(cpu.sp, sp.wrapping_sub(3));
    let pushed_flags = cpu.stack_pop_u8();
    assert_eq!(pushed_flags & 0x30, 0x20);
    assert_eq!(cpu.stack_pop_u16(), 0x0605);
}

#[test]
fn page_crossing_costs_a_cycle_for_loads_only() {
    // LDA $06F0,X with X = 0x20 crosses a page: 4 + 1 cycles
    let mut cpu = init_cpu();
    cpu.load(vec![0xBD, 0xF0, 0x06, 0x7D, 0xF0, 0x06]);
    cpu.x = 0x20;
    let c0 = cpu.bus.get_cycles();
    cpu.step();
    assert_eq!(cpu.bus.get_cycles() - c0, 5);
    // ADC $06F0,X crosses the same page: base 4 cycles only
    let c1 = cpu.bus.get_cycles();
    cpu.step();
    assert_eq!(cpu.bus.get_cycles() - c1, 4);
}

#[test]
fn load_custom_program_starts_at_0600() {
    let mut cpu = init_cpu();
    cpu.load_custom_program(vec![0xE8], 0x0700);
    assert_eq!(cpu.pc, 0x0600);
    assert_eq!(cpu.mem_read_u8(0x0700), 0xE8);
}

#[test]
fn loaded_windowed_cartridge_power_on_layout() {
    // mapper 4, 4 x 16KB PRG = 8 pages of 8KB, no CHR-ROM
    let mut image: Vec<u8> = vec![0x4E, 0x45, 0x53, 0x1A, 0x04, 0x00, 0x40, 0, 0, 0, 0, 0, 0, 0, 0, 0];
    for page in 0..8u8 {
        image.extend(vec![page; 0x2000]);
    }
    let rom = ROM::from_bytes(String::new(), &image).unwrap();
    let mut bus = Bus::new(rom);
    assert_eq!(bus.mem_read_u8(0x8000), 0);
    assert_eq!(bus.mem_read_u8(0xA000), 1);
    assert_eq!(bus.mem_read_u8(0xC000), 6);
    assert_eq!(bus.mem_read_u8(0xE000), 7);
    // select R6 in PRG mode 1: the second-last page moves to 0x8000, the last stays
    bus.mem_write_u8(0x8000, 0x46);
    bus.mem_write_u8(0x8001, 3);
    assert_eq!(bus.mem_read_u8(0x8000), 6);
    assert_eq!(bus.mem_read_u8(0xC000), 3);
    assert_eq!(bus.mem_read_u8(0xFFFF), 7);
}
