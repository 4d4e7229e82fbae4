use ferricom::bus::Bus;
use ferricom::cpu::{RegisterID, CPU};
use ferricom::flags::CPUFlags;
use ferricom::instructions::AddressingMode;
use ferricom::rom::ROM;

fn test_rom() -> ROM {
    let mut image: Vec<u8> = vec![0x4E, 0x45, 0x53, 0x1A, 0x02, 0x01, 0x01, 00, 00, 00, 00, 00, 00, 00, 00, 00];
    image.extend(vec![1u8; 2 * 16384]);
    image.extend(vec![2u8; 8192]);
    ROM::from_bytes(String::new(), &image).unwrap()
}

fn init_test_cpu() -> CPU {
    CPU::new(Bus::new(test_rom()))
}


#[test]
fn test_cpu_init() {

    let cpu = init_test_cpu();

    assert_eq!(cpu.pc, 0x0000);
    assert_eq!(cpu.sp, 0xFD);
    assert_eq!(cpu.acc, 0);
    assert_eq!(cpu.x, 0);
    assert_eq!(cpu.y, 0);
    assert_eq!(cpu.status.bits(), 0x24);

}

#[test]
fn test_cpu_reset() {

    let mut cpu = init_test_cpu();

    cpu.acc = 52;
    cpu.sp = 124;
    cpu.pc = 1892;
    cpu.x = 15;
    cpu.y = 16;
    cpu.status = CPUFlags::from_bits_truncate(0b10010000);

    cpu.reset();

    assert_eq!(cpu.pc, 0x0101);
    assert_eq!(cpu.sp, 0xFF);
    assert_eq!(cpu.acc, 0);
    assert_eq!(cpu.x, 0);
    assert_eq!(cpu.y, 0);
    assert_eq!(cpu.status.bits(), 0);

}

#[test]
fn test_set_negative_and_zero_flags() {

    let mut cpu = init_test_cpu();

    cpu.set_negative_and_zero_flags(cpu.acc);
    assert!(cpu.is_flag_set(CPUFlags::ZERO));

    cpu.acc = 130;
    cpu.set_negative_and_zero_flags(cpu.acc);
    assert!(cpu.is_flag_set(CPUFlags::NEGATIVE));

    cpu.acc = 16;
    cpu.set_negative_and_zero_flags(cpu.acc);
    assert!(!cpu.is_flag_set(CPUFlags::NEGATIVE));
    assert!(!cpu.is_flag_set(CPUFlags::ZERO));

}

#[test]
fn test_increment_register () {

    let mut cpu = init_test_cpu();
    cpu.x = 0xFE;

    cpu.increment_register(&RegisterID::X);
    assert_eq!(cpu.x, 0xFF);

    cpu.increment_register(&RegisterID::X);
    assert_eq!(cpu.x, 0);

}

#[test]
fn test_decrement_register () {

    let mut cpu = init_test_cpu();
    cpu.x = 1;

    cpu.decrement_register(&RegisterID::X);
    assert_eq!(cpu.x, 0);

    cpu.decrement_register(&RegisterID::X);
    assert_eq!(cpu.x, 255);

}

#[test]
fn test_mem_read_u8 () {

    let mut cpu = init_test_cpu();
    cpu.mem_write_u8(162, 0xAF);

    assert_eq!(cpu.mem_read_u8(162), 0xAF);

}

#[test]
fn test_mem_read_u16 () {

    let mut cpu = init_test_cpu();
    cpu.mem_write_u8(162, 0x80);
    cpu.mem_write_u8(163, 0x08);

    assert_eq!(cpu.mem_read_u16(162), 0x0880);

}

#[test]
fn test_mem_write_u8 () {

    let mut cpu = init_test_cpu();
    let data: u8 = 0x12;
    cpu.mem_write_u8(162, data);

    assert_eq!(cpu.mem_read_u8(162), 0x12);

}

#[test]
fn test_mem_write_u16 () {

    let mut cpu = init_test_cpu();
    let data: u16 = 0x1234;
    cpu.mem_write_u16(162, data);

    assert_eq!(cpu.mem_read_u8(162), 0x34);
    assert_eq!(cpu.mem_read_u8(163), 0x12);

}

#[test]
fn test_clear_flag() {

    let mut cpu = init_test_cpu();
    cpu.status = CPUFlags::from_bits_truncate(0b1111_1111);

    cpu.clear_flag(CPUFlags::ZERO);
    assert!(!cpu.is_flag_set(CPUFlags::ZERO));

}

#[test]
fn test_get_operand_address_immediate() {

    let mut cpu = init_test_cpu();
    cpu.acc = 0x10;
    cpu.x = 0x11;
    cpu.y = 0x12;
    cpu.sp = 0x13;
    cpu.pc = 0xF0;

    let (addr, _) = cpu.get_operand_address(&AddressingMode::Immediate);
    assert_eq!(addr, 0xF0);

}

#[test]
fn test_get_operand_address_absolute() {

    let mut cpu = init_test_cpu();
    cpu.acc = 0x10;
    cpu.x = 0x11;
    cpu.y = 0x12;
    cpu.sp = 0x13;
    cpu.pc = 0xF0;

    cpu.mem_write_u16(0xF0, 0x8088);

    let (addr, _) = cpu.get_operand_address(&AddressingMode::Absolute);
    assert_eq!(addr, 0x8088);

    let (addr, _) = cpu.get_operand_address(&AddressingMode::AbsoluteX);
    assert_eq!(addr, 0x8099);

    let (addr, _) = cpu.get_operand_address(&AddressingMode::AbsoluteY);
    assert_eq!(addr, 0x809A);

    cpu.mem_write_u16(0xF0, 0xFFF0);

    // Absolute addressing wrap around
    let (addr, _) = cpu.get_operand_address(&AddressingMode::AbsoluteX);
    assert_eq!(addr, 0x01);

    let (addr, _) = cpu.get_operand_address(&AddressingMode::AbsoluteY);
    assert_eq!(addr, 0x02);

}

#[test]
fn test_get_operand_address_zero_page() {

    let mut cpu = init_test_cpu();
    cpu.acc = 0x10;
    cpu.x = 0x11;
    cpu.y = 0x12;
    cpu.sp = 0x13;
    cpu.pc = 0xF0;

    cpu.mem_write_u16(0xF0, 0x8088);

    let (addr, _) = cpu.get_operand_address(&AddressingMode::ZeroPage);
    assert_eq!(addr, 0x88);

    let (addr, _) = cpu.get_operand_address(&AddressingMode::ZeroPageX);
    assert_eq!(addr, 0x99);

    let (addr, _) = cpu.get_operand_address(&AddressingMode::ZeroPageY);
    assert_eq!(addr, 0x9A);

    cpu.mem_write_u16(0xF0, 0xFFF0);

    // Zero page addressing wrap around
    let (addr, _) = cpu.get_operand_address(&AddressingMode::ZeroPageX);
    assert_eq!(addr, 0x01);

    let (addr, _) = cpu.get_operand_address(&AddressingMode::ZeroPageY);
    assert_eq!(addr, 0x02);

}

#[test]
fn test_get_operand_address_indirect() {

    let mut cpu = init_test_cpu();
    cpu.acc = 0x10;
    cpu.x = 0x11;
    cpu.y = 0x12;
    cpu.sp = 0x13;
    cpu.pc = 0xF0;

    cpu.mem_write_u16(0xF0, 0x80);
    cpu.mem_write_u16(0x80, 0x1234);
    cpu.mem_write_u16(0x91, 0x6789);

    let (addr, _) = cpu.get_operand_address(&AddressingMode::Indirect);
    assert_eq!(addr, 0x1234);

    let (addr, _) = cpu.get_operand_address(&AddressingMode::IndirectX);
    assert_eq!(addr, 0x6789);

    let (addr, _) = cpu.get_operand_address(&AddressingMode::IndirectY);
    assert_eq!(addr, 0x1246);

}

#[test]
fn test_get_operand_address_relative() {

    let mut cpu = init_test_cpu();
    cpu.acc = 0x10;
    cpu.x = 0x11;
    cpu.y = 0x12;
    cpu.sp = 0x13;
    cpu.pc = 0xF0;

    cpu.mem_write_u16(0xF0, 0x8001);
    let (addr, _) = cpu.get_operand_address(&AddressingMode::Relative);
    assert_eq!(addr, 0xF2);

    cpu.mem_write_u8(0xF0, 0b1111_1100);
    let (addr, _) = cpu.get_operand_address(&AddressingMode::Relative);
    assert_eq!(addr, 0b1110_1101);

}







#[test]
fn test_adc() {

    let mut cpu = init_test_cpu();
    let program = vec![0xA9, 0xF0, 0x69, 0x0F, 0x00];
    cpu.load_and_run(program);

    assert_eq!(cpu.acc, 0xFF);

    let program = vec![0xA9, 0xF0, 0x69, 0x10, 0x00];
    cpu.load_and_run(program);

    assert!(cpu.is_flag_set(CPUFlags::CARRY));

}

#[test]
fn test_and() {
    
    let mut cpu = init_test_cpu();
    let program = vec![0xA9, 0b1010_1010, 0x29, 0b1111_0000, 0x00];
    cpu.load_and_run(program);

    assert_eq!(cpu.acc, 0b1010_0000);

}

#[test]
fn test_asl_acc() {
    
    let mut cpu = init_test_cpu();
    let program = vec![0xA9, 0b0101_0101, 0x0A, 0x00];
    cpu.load_and_run(program);

    assert_eq!(cpu.acc, 0b1010_1010);
    assert!(!cpu.is_flag_set(CPUFlags::CARRY));

    let program = vec![0xA9, 0b1010_1010, 0x0A, 0x00];
    cpu.load_and_run(program);

    assert_eq!(cpu.acc, 0b0101_0100);
    assert!(cpu.is_flag_set(CPUFlags::CARRY));

}

#[test]
fn test_asl_mem() {
    
    let mut cpu = init_test_cpu();
    let program = vec![0xA9, 0b0101_0101, 0x0E, 0x01, 0x06];
    cpu.load_and_run(program);

    assert_eq!(cpu.mem_read_u8(0x0601), 0b1010_1010);
    assert!(!cpu.is_flag_set(CPUFlags::CARRY));

    cpu.reset();
    let program = vec![0xA9, 0b1010_1010, 0x0E, 0x01, 0x06];
    cpu.load_and_run(program);

    assert_eq!(cpu.mem_read_u8(0x0601), 0b0101_0100);
    assert!(cpu.is_flag_set(CPUFlags::CARRY));

}

#[test]
fn test_bcc() {

    let mut cpu = init_test_cpu();

    // Branch condition is met
    let program = vec![0x90, 0b1111_1101];
    cpu.load_and_run(program);

    assert_eq!(cpu.pc, 0x0600);

    // Branch condition is NOT met
    let program = vec![0x90, 0b1111_1101];
    cpu.load(program);
    cpu.set_flag(CPUFlags::CARRY);
    cpu.run();

    assert_eq!(cpu.pc, 0x0603);

}

#[test]
fn test_bcs() {

    let mut cpu = init_test_cpu();

    // Branch condition is met
    let program = vec![0xB0, 0b1111_1101];

    cpu.load(program);
    cpu.set_flag(CPUFlags::CARRY);
    cpu.run();

    assert_eq!(cpu.pc, 0x0600);

    // Branch condition is NOT met
    let program = vec![0xB0, 0b1111_1110];
    cpu.load(program);
    cpu.clear_flag(CPUFlags::CARRY);
    cpu.run();

    assert_eq!(cpu.pc, 0x0603);

}

#[test]
fn test_beq() {

    let mut cpu = init_test_cpu();

    // Branch condition is met
    let program = vec![0xF0, 0b1111_1101];

    cpu.load(program);
    cpu.set_flag(CPUFlags::ZERO);
    cpu.run();

    assert_eq!(cpu.pc, 0x0600);

    // Branch condition is NOT met
    let program = vec![0xF0, 0b1111_1101];
    cpu.load(program);
    cpu.clear_flag(CPUFlags::ZERO);
    cpu.run();

    assert_eq!(cpu.pc, 0x0603);

}

#[test]
fn test_bne() {

    let mut cpu = init_test_cpu();

    // Branch condition is met
    let program = vec![0xD0, 0b1111_1101];

    cpu.load(program);
    cpu.run();

    assert_eq!(cpu.pc, 0x0600);

    // Branch condition is NOT met
    let program = vec![0xD0, 0b1111_1101];
    cpu.load(program);
    cpu.set_flag(CPUFlags::ZERO);
    cpu.run();

    assert_eq!(cpu.pc, 0x0603);

}

#[test]
fn test_bmi() {

    let mut cpu = init_test_cpu();

    // Branch condition is met
    let program = vec![0x30, 0b1111_1101];

    cpu.load(program);
    cpu.set_flag(CPUFlags::NEGATIVE);
    cpu.run();

    assert_eq!(cpu.pc, 0x0600);

    // Branch condition is NOT met
    let program = vec![0x30, 0b1111_1101];
    cpu.load(program);
    cpu.clear_flag(CPUFlags::NEGATIVE);
    cpu.run();

    assert_eq!(cpu.pc, 0x0603);

}

#[test]
fn test_bpl() {

    let mut cpu = init_test_cpu();

    // Branch condition is met
    let program = vec![0x10, 0b1111_1101];

    cpu.load(program);
    cpu.run();

    assert_eq!(cpu.pc, 0x0600);

    // Branch condition is NOT met
    let program = vec![0x10, 0b1111_1101];
    cpu.reset();
    cpu.load(program);
    cpu.set_flag(CPUFlags::ZERO);
    cpu.run();

    assert_eq!(cpu.pc, 0x0600);

}

#[test]
fn test_bvc() {

    let mut cpu = init_test_cpu();

    // Branch condition is met
    let program = vec![0x50, 0b1111_1101];

    cpu.load(program);
    cpu.run();

    assert_eq!(cpu.pc, 0x0600);

    // Branch condition is NOT met
    let program = vec![0x50, 0b1111_1101];
    cpu.load(program);
    cpu.set_flag(CPUFlags::OVERFLOW);
    cpu.run();

    assert_eq!(cpu.pc, 0x0603);

}

#[test]
fn test_bvs() {

    let mut cpu = init_test_cpu();

    // Branch condition is met
    let program = vec![0x70, 0b1111_1101];

    cpu.load(program);
    cpu.set_flag(CPUFlags::OVERFLOW);
    cpu.run();

    assert_eq!(cpu.pc, 0x0600);

    // Branch condition is NOT met
    let program = vec![0x70, 0b1111_1101];
    cpu.load(program);
    cpu.clear_flag(CPUFlags::OVERFLOW);
    cpu.run();

    assert_eq!(cpu.pc, 0x0603);

}

#[test]
fn test_bit() {

    let mut cpu = init_test_cpu();
    let program = vec![0xA9, 0xF0, 0x2C, 0x06, 0x06, 0x00, 0b1110_0000];
    cpu.load_and_run(program);
    assert!(cpu.is_flag_set(CPUFlags::NEGATIVE));
    assert!(cpu.is_flag_set(CPUFlags::OVERFLOW));
    assert_eq!(cpu.acc, 0xF0);

}

#[test]
fn test_clc() {

    let mut cpu = init_test_cpu();
    cpu.status = CPUFlags::from_bits_truncate(0b1111_1111);

    let program = vec![0x18, 0x00];
    cpu.load(program);
    cpu.status = CPUFlags::from_bits_truncate(0b1111_1111);
    cpu.run();

    assert!(!cpu.is_flag_set(CPUFlags::CARRY));

}

#[test]
fn test_cld() {

    let mut cpu = init_test_cpu();
    cpu.status = CPUFlags::from_bits_truncate(0b1111_1111);

    let program = vec![0xD8, 0x00];
    cpu.load(program);
    cpu.status = CPUFlags::from_bits_truncate(0b1111_1111);
    cpu.run();

    assert!(!cpu.is_flag_set(CPUFlags::DECIMAL_MODE));

}

#[test]
fn test_cli() {

    let mut cpu = init_test_cpu();
    cpu.status = CPUFlags::from_bits_truncate(0b1111_1111);

    let program = vec![0x58, 0x00];
    cpu.load(program);
    cpu.status = CPUFlags::from_bits_truncate(0b1111_1111);
    cpu.run();

    assert!(!cpu.is_flag_set(CPUFlags::INTERRUPT_DISABLE));

}

#[test]
fn test_clv() {

    let mut cpu = init_test_cpu();

    let program = vec![0xB8, 0x00];
    cpu.load(program);
    cpu.status = CPUFlags::from_bits_truncate(0b1111_1111);
    cpu.run();

    assert!(!cpu.is_flag_set(CPUFlags::OVERFLOW));

}

#[test]
fn test_cmp() {

    let mut cpu = init_test_cpu();
    let program = vec![0xA9, 0xF0, 0xC9, 0xF0, 0x00];
    cpu.load_and_run(program);

    assert!(!cpu.is_flag_set(CPUFlags::NEGATIVE));
    assert!(cpu.is_flag_set(CPUFlags::ZERO));
    assert!(cpu.is_flag_set(CPUFlags::CARRY));

    let program = vec![0xA9, 0xF0, 0xC9, 0x00, 0x00];
    cpu.load_and_run(program);

    assert!(cpu.is_flag_set(CPUFlags::NEGATIVE));
    assert!(!cpu.is_flag_set(CPUFlags::ZERO));
    assert!(cpu.is_flag_set(CPUFlags::CARRY));

}

#[test]
fn test_cpx() {

    let mut cpu = init_test_cpu();
    let program = vec![0xA2, 0xF0, 0xE0, 0xF0, 0x00];
    cpu.load_and_run(program);

    assert!(!cpu.is_flag_set(CPUFlags::NEGATIVE));
    assert!(cpu.is_flag_set(CPUFlags::ZERO));
    assert!(cpu.is_flag_set(CPUFlags::CARRY));


    let program = vec![0xA2, 0xF0, 0xE0, 0x00, 0x00];
    cpu.load_and_run(program);

    assert!(cpu.is_flag_set(CPUFlags::NEGATIVE));
    assert!(!cpu.is_flag_set(CPUFlags::ZERO));
    assert!(cpu.is_flag_set(CPUFlags::CARRY));

}

#[test]
fn test_cpy() {

    let mut cpu = init_test_cpu();
    let program = vec![0xA0, 0xF0, 0xC0, 0xF0, 0x00];
    cpu.load_and_run(program);

    assert!(!cpu.is_flag_set(CPUFlags::NEGATIVE));
    assert!(cpu.is_flag_set(CPUFlags::ZERO));
    assert!(cpu.is_flag_set(CPUFlags::CARRY));

    let program = vec![0xA0, 0xF0, 0xC0, 0x00, 0x00];
    cpu.load_and_run(program);

    assert!(cpu.is_flag_set(CPUFlags::NEGATIVE));
    assert!(!cpu.is_flag_set(CPUFlags::ZERO));
    assert!(cpu.is_flag_set(CPUFlags::CARRY));

}

#[test]
fn test_dec() {

    let mut cpu = init_test_cpu();
    let program = vec![0xCE, 0x04, 0x06, 0x00, 0b1111_1111];
    cpu.load_and_run(program);

    assert_eq!(cpu.mem_read_u8(0x0604), 0b1111_1110);
    assert!(cpu.is_flag_set(CPUFlags::NEGATIVE));

}

#[test]
fn test_eor() {

    let mut cpu = init_test_cpu();
    let program = vec![0xA9, 0b1111_1111, 0x49, 0b0101_0101];
    cpu.load_and_run(program);

    assert_eq!(cpu.acc, 0b1010_1010);
    assert!(cpu.is_flag_set(CPUFlags::NEGATIVE));

}

#[test]
fn test_inc() {

    let mut cpu = init_test_cpu();
    let program = vec![0xEE, 0x04, 0x06, 0x00, 0b1111_1111];
    cpu.load_and_run(program);

    assert_eq!(cpu.mem_read_u8(0x0604), 0x00);
    assert!(cpu.is_flag_set(CPUFlags::ZERO));

}

#[test]
fn test_jmp() {

    let mut cpu = init_test_cpu();
    let program = vec![0x4C, 0xEE, 0x00];
    cpu.load_and_run(program);

    // The reason that it's 0x00F0 is because
    // we jump to 0x00EF and then read the next
    // instruction which is BRK so the final state
    // is 0x00EF + 1
    assert_eq!(cpu.pc, 0x00EF);

}

#[test]
fn test_jsr() {

    let mut cpu = init_test_cpu();
    let program = vec![0x20, 0xEE, 0x00];
    cpu.reset();
    cpu.load_and_run(program);

    // The reason that it's 0x00F0 is because
    // we jump to 0x00EF and then read the next
    // instruction which is BRK so the final state
    // is 0x00EF + 1
    assert_eq!(cpu.pc, 0x00EF);
    assert_eq!(cpu.sp, 0xFD);
    assert_eq!(cpu.stack_pop_u16(), 0x0602);

}

#[test]
fn test_lda_immediate() {

    let mut cpu = init_test_cpu();

    // Negative bit is set
    let program = vec![0xA9, 156, 0x00];
    cpu.load_and_run(program);

    assert_eq!(cpu.acc, 156);

}

#[test]
fn test_lda_zero_page() {

    let mut cpu = init_test_cpu();

    let program = vec![0xA5, 0x04, 0x00];
    cpu.load(program);
    cpu.mem_write_u8(0x04, 0x13);
    cpu.run();

    assert_eq!(cpu.acc, 0x13);

}

#[test]
fn test_lda_zero_page_x() {

    let mut cpu = init_test_cpu();

    let program = vec![0xA9, 0xFA, 0xAA, 0xB5, 0x0A, 0x00];
    cpu.load(program);
    cpu.mem_write_u8(0x04, 0x13);
    cpu.run();

    assert_eq!(cpu.acc, 0x13);

}

#[test]
fn test_lda_absolute() {

    let mut cpu = init_test_cpu();

    let program = vec![0xAD, 0x04, 0x06, 0x00, 0x13];
    cpu.load_and_run(program);

    assert_eq!(cpu.acc, 0x13);

}

#[test]
fn test_lda_absolute_x() {

    let mut cpu = init_test_cpu();

    let program = vec![0xA9, 0x04, 0xAA, 0xBD, 0x03, 0x06, 0x00, 0x13];
    cpu.load_and_run(program);

    assert_eq!(cpu.acc, 0x13);

}

#[test]
fn test_lda_absolute_y() {

    let mut cpu = init_test_cpu();

    let program = vec![0xA9, 0x04, 0xA8, 0xB9, 0x03, 0x06, 0x00, 0x13];
    cpu.load_and_run(program);

    assert_eq!(cpu.acc, 0x13);

}

#[test]
fn test_lda_indirect_x() {

    let mut cpu = init_test_cpu();

    let program = vec![0xA9, 0x10, 0xAA, 0xA1, 0xEF, 0x00];
    cpu.load(program);
    cpu.mem_write_u16(0xFF, 0x0001);
    cpu.mem_write_u8(0x01, 0x13);
    cpu.run();

    assert_eq!(cpu.acc, 0x13);

}

#[test]
fn test_lda_indirect_y() {

    let mut cpu = init_test_cpu();

    let program = vec![0xA9, 0x10, 0xA8, 0xB1, 0xEF, 0x00];
    cpu.load(program);
    cpu.mem_write_u16(0xEF, 0x0001);
    cpu.mem_write_u8(0x11, 0x13);
    cpu.run();

    assert_eq!(cpu.acc, 0x13);

}

#[test]
fn test_ldx() {

    let mut cpu = init_test_cpu();
    let program = vec![0xA2, 0xFF, 0x00];
    cpu.load_and_run(program);

    assert_eq!(cpu.x, 0xFF);
    assert!(cpu.is_flag_set(CPUFlags::NEGATIVE));
    assert!(!cpu.is_flag_set(CPUFlags::ZERO));

}

#[test]
fn test_ldy() {

    let mut cpu = init_test_cpu();
    let program = vec![0xA0, 0xFF, 0x00];
    cpu.load_and_run(program);

    assert_eq!(cpu.y, 0xFF);
    assert!(cpu.is_flag_set(CPUFlags::NEGATIVE));
    assert!(!cpu.is_flag_set(CPUFlags::ZERO));

}

#[test]
fn test_lsr_acc() {
    
    let mut cpu = init_test_cpu();
    let program = vec![0xA9, 0b0101_0101, 0x4A, 0x00];
    cpu.load_and_run(program);

    assert_eq!(cpu.acc, 0b0010_1010);
    assert!(cpu.is_flag_set(CPUFlags::CARRY));

    let program = vec![0xA9, 0b1010_1010, 0x4A, 0x00];
    cpu.load_and_run(program);

    assert_eq!(cpu.acc, 0b0101_0101);
    assert!(!cpu.is_flag_set(CPUFlags::CARRY));

}

#[test]
fn test_lsr_mem() {
    
    let mut cpu = init_test_cpu();
    let program = vec![0xA9, 0b0101_0101, 0x4E, 0x01, 0x06, 0xAD, 0x01, 0x06, 0x00];
    cpu.load_and_run(program);

    assert_eq!(cpu.acc, 0b0010_1010);
    assert!(cpu.is_flag_set(CPUFlags::CARRY));

    let program = vec![0xA9, 0b1010_1010, 0x4E, 0x01, 0x06, 0xAD, 0x01, 0x06, 0x00];
    cpu.load_and_run(program);

    assert_eq!(cpu.acc, 0b0101_0101);
    assert!(!cpu.is_flag_set(CPUFlags::CARRY));

}

#[test]
fn test_nop_official() {

    let mut cpu = init_test_cpu();
    let program = vec![0xEA, 0x00];
    cpu.load_and_run(program);

    assert_eq!(cpu.pc, 0x0602)

}

#[test]
fn test_ora() {

    let mut cpu = init_test_cpu();
    let program = vec![0x09, 0b1010_1010, 0x49, 0b0101_0101];
    cpu.load_and_run(program);

    assert_eq!(cpu.acc, 0b1111_1111);
    assert!(cpu.is_flag_set(CPUFlags::NEGATIVE));

}

#[test]
fn test_pha() {

    let mut cpu = init_test_cpu();
    let program = vec![0x48];

    cpu.reset();
    cpu.load(program);
    cpu.acc = 0xFF;
    cpu.run();

    assert_eq!(cpu.sp, 0xFE); // Byte has been pushed to stack
    assert_eq!(cpu.stack_pop_u8(), 0xFF);

}

#[test]
fn test_php() {

    let mut cpu = init_test_cpu();
    let program = vec![0x08];

    cpu.reset();
    cpu.load(program);
    cpu.set_flag(CPUFlags::OVERFLOW);
    cpu.run();

    assert_eq!(cpu.sp, 0xFE); // Byte has been pushed to stack
    assert!(cpu.is_flag_set(CPUFlags::OVERFLOW));

}

#[test]
fn test_pla() {

    let mut cpu = init_test_cpu();
    let program = vec![0x48, 0xA9, 0x11, 0x68];

    cpu.reset();
    cpu.load(program);
    cpu.acc = 0xFF;
    cpu.run();

    assert_eq!(cpu.sp, 0xFF); // Byte has been popped from stack
    assert_eq!(cpu.acc, 0xFF);
    assert!(cpu.is_flag_set(CPUFlags::NEGATIVE));

}

#[test]
fn test_plp() {

    let mut cpu = init_test_cpu();
    let program = vec![0x08, 0x38, 0x28];

    cpu.reset();
    cpu.load(program);
    cpu.set_flag(CPUFlags::OVERFLOW);
    cpu.run();

    assert_eq!(cpu.sp, 0xFF); // Byte has been popped from stack
    assert!(cpu.is_flag_set(CPUFlags::OVERFLOW));
    assert!(!cpu.is_flag_set(CPUFlags::CARRY));

}

#[test]
fn test_rol_acc() {

    let mut cpu = init_test_cpu();
    let program = vec![0xA9, 0b1010_1010, 0x2A];
    cpu.load_and_run(program);

    assert_eq!(cpu.acc, 0b0101_0100);
    assert!(cpu.is_flag_set(CPUFlags::CARRY));

    cpu.reset();

    let program = vec![0xA9, 0b0000_1111, 0x2A];
    cpu.load(program);
    cpu.set_flag(CPUFlags::CARRY);
    cpu.run();

    assert_eq!(cpu.acc, 0b0001_1111);
    assert!(!cpu.is_flag_set(CPUFlags::CARRY));

}

#[test]
fn test_ror_acc() {

    let mut cpu = init_test_cpu();
    let program = vec![0xA9, 0b0101_0101, 0x6A];
    cpu.load(program);
    cpu.set_flag(CPUFlags::CARRY);
    cpu.run();

    assert_eq!(cpu.acc, 0b1010_1010);
    assert!(cpu.is_flag_set(CPUFlags::CARRY));

    cpu.reset();
    let program = vec![0xA9, 0b0101_0100, 0x6A];
    cpu.load_and_run(program);

    assert_eq!(cpu.acc, 0b0010_1010);
    assert!(!cpu.is_flag_set(CPUFlags::CARRY));

}

#[test]
fn test_rol_mem() {

    let mut cpu = init_test_cpu();
    let program = vec![0x2E, 0x04, 0x06, 0x00, 0x10];
    cpu.load(program);
    cpu.set_flag(CPUFlags::CARRY);
    cpu.run();

    assert_eq!(cpu.mem_read_u8(0x0604), 0b0010_0001);
    assert!(!cpu.is_flag_set(CPUFlags::CARRY));

    let program = vec![0x2E, 0x04, 0x06, 0x00, 0b1000_1010];
    cpu.load_and_run(program);

    assert_eq!(cpu.mem_read_u8(0x0604), 0b0001_0100);
    assert!(cpu.is_flag_set(CPUFlags::CARRY));

}

#[test]
fn test_ror_mem() {

    let mut cpu = init_test_cpu();
    let program = vec![0x6E, 0x04, 0x06, 0x00, 0x10];
    cpu.load(program);
    cpu.set_flag(CPUFlags::CARRY);
    cpu.run();

    assert_eq!(cpu.mem_read_u8(0x0604), 0b1000_1000);
    assert!(!cpu.is_flag_set(CPUFlags::CARRY));

    let program = vec![0x6E, 0x04, 0x06, 0x00, 0b0000_1011];
    cpu.load_and_run(program);

    assert_eq!(cpu.mem_read_u8(0x0604), 0b000_0101);
    assert!(cpu.is_flag_set(CPUFlags::CARRY));

}

#[test]
fn test_run_sample_prog_1() {

    /*
        This program does the following:
        Load 0xC0 into the accumulator
        Transfer to the X register
        Increment X
     */

    let mut cpu = init_test_cpu();
    let program = vec![0xA9, 0xC0, 0xAA, 0xE8, 0x00];

    cpu.load_and_run(program);

    assert_eq!(cpu.acc, 0xC0);
    assert_eq!(cpu.x, 0xC1);

}

#[test]
fn test_rti() {

    let mut cpu = init_test_cpu();
    let program = vec![0x40];
    cpu.reset();
    cpu.load(program);
    cpu.stack_push_u16(0x0F0F);
    cpu.stack_push_u8(0b1000_0001);
    cpu.run();

    assert_eq!(cpu.pc, 0x0F10);
    assert_eq!(cpu.sp, 0xFF);
    assert!(cpu.is_flag_set(CPUFlags::NEGATIVE));
    assert!(cpu.is_flag_set(CPUFlags::CARRY));

}

#[test]
fn test_rts() {

    let mut cpu = init_test_cpu();
    let program = vec![0x60, 0xEF, 0xFE];
    cpu.reset();
    cpu.load(program);
    cpu.stack_push_u16(0x0602);
    cpu.run();

    assert_eq!(cpu.pc, 0x0604);
    assert_eq!(cpu.sp, 0xFF); // Stack should be empty now

}

#[test]
fn test_sbc() {

    let mut cpu = init_test_cpu();
    let program = vec![0xA9, 0xF0, 0xE9, 0x0F, 0x00];
    cpu.load_and_run(program);

    assert_eq!(cpu.acc, 0xE0);

    cpu.reset();
    let program = vec![0xA9, 0x00, 0xE9, 0x01, 0x00];
    cpu.load_and_run(program);

}

#[test]
fn test_sec() {

    let mut cpu = init_test_cpu();
    let program = vec![0x38];
    cpu.load_and_run(program);

    assert!(cpu.is_flag_set(CPUFlags::CARRY));

}

#[test]
fn test_sed() {

    let mut cpu = init_test_cpu();
    let program = vec![0xF8];
    cpu.load_and_run(program);
    
    assert!(cpu.is_flag_set(CPUFlags::DECIMAL_MODE));

}

#[test]
fn test_sei() {

    let mut cpu = init_test_cpu();
    let program = vec![0x78];
    cpu.load_and_run(program);
    
    assert!(cpu.is_flag_set(CPUFlags::INTERRUPT_DISABLE));

}

#[test]
fn test_sta() {

    let mut cpu = init_test_cpu();
    let program = vec![0xA9, 0x13, 0x8D, 0xFF, 0x06];
    cpu.load_and_run(program);

    assert_eq!(cpu.mem_read_u8(0x06FF), 0x13);

}

#[test]
fn test_stx() {

    let mut cpu = init_test_cpu();
    let program = vec![0xA2, 0x13, 0x8E, 0xFF, 0x06];
    cpu.load_and_run(program);

    assert_eq!(cpu.mem_read_u8(0x06FF), 0x13);

}

#[test]
fn test_sty() {

    let mut cpu = init_test_cpu();
    let program = vec![0xA0, 0x13, 0x8C, 0xFF, 0x06];
    cpu.load_and_run(program);

    assert_eq!(cpu.mem_read_u8(0x06FF), 0x13);

}

#[test]
fn test_tax () {

    let mut cpu = init_test_cpu();
    cpu.acc = 156;

    let program = vec![0xAA, 0x00];
    cpu.load(program);
    cpu.run();

    assert_eq!(cpu.x, 156);
    assert!(cpu.is_flag_set(CPUFlags::NEGATIVE));

}

#[test]
fn test_tay () {

    let mut cpu = init_test_cpu();
    cpu.acc = 156;

    let program = vec![0xA8, 0x00];
    cpu.load(program);
    cpu.run();

    assert_eq!(cpu.y, 156);
    assert!(cpu.is_flag_set(CPUFlags::NEGATIVE));

}

#[test]
fn test_tsx () {

    let mut cpu = init_test_cpu();
    cpu.sp = 156;

    let program = vec![0xBA, 0x00];
    cpu.load(program);
    cpu.run();

    assert_eq!(cpu.x, 156);
    assert!(cpu.is_flag_set(CPUFlags::NEGATIVE));

}

#[test]
fn test_txa () {

    let mut cpu = init_test_cpu();
    cpu.x = 156;

    let program = vec![0x8A, 0x00];
    cpu.load(program);
    cpu.run();

    assert_eq!(cpu.acc, 156);
    assert!(cpu.is_flag_set(CPUFlags::NEGATIVE));

}

#[test]
fn test_txs () {

    let mut cpu = init_test_cpu();
    cpu.x = 156;

    let program = vec![0x9A, 0x00];
    cpu.load(program);
    cpu.run();

    assert_eq!(cpu.sp, 156);

}

#[test]
fn test_tya () {

    let mut cpu = init_test_cpu();
    cpu.y = 156;

    let program = vec![0x98, 0x00];
    cpu.load(program);
    cpu.run();

    assert_eq!(cpu.acc, 156);
    assert!(cpu.is_flag_set(CPUFlags::NEGATIVE));

}

#[test]
fn test_inx () {

    let mut cpu = init_test_cpu();
    cpu.x = 127;
    cpu.set_negative_and_zero_flags(cpu.x);
    assert!(!cpu.is_flag_set(CPUFlags::NEGATIVE));

    let program = vec![0xE8, 0x00];
    cpu.load(program);
    cpu.run();

    assert_eq!(cpu.x, 128);
    assert!(cpu.is_flag_set(CPUFlags::NEGATIVE));

}

#[test]
fn test_iny () {

    let mut cpu = init_test_cpu();
    cpu.y = 127;
    cpu.set_negative_and_zero_flags(cpu.y);
    assert!(!cpu.is_flag_set(CPUFlags::NEGATIVE));

    let program = vec![0xC8, 0x00];
    cpu.load(program);
    cpu.run();

    assert_eq!(cpu.y, 128);
    assert!(cpu.is_flag_set(CPUFlags::NEGATIVE));

}

#[test]
fn test_dex () {

    let mut cpu = init_test_cpu();
    cpu.x = 128;
    cpu.set_negative_and_zero_flags(cpu.x);
    assert!(cpu.is_flag_set(CPUFlags::NEGATIVE));

    let program = vec![0xCA, 0x00];
    cpu.load(program);
    cpu.run();

    assert_eq!(cpu.x, 127);
    assert!(!cpu.is_flag_set(CPUFlags::NEGATIVE));

}

#[test]
fn test_dey () {

    let mut cpu = init_test_cpu();
    cpu.y = 128;
    cpu.set_negative_and_zero_flags(cpu.y);
    assert!(cpu.is_flag_set(CPUFlags::NEGATIVE));

    let program = vec![0x88, 0x00];
    cpu.load(program);
    cpu.run();

    assert_eq!(cpu.y, 127);
    assert!(!cpu.is_flag_set(CPUFlags::NEGATIVE));

}

