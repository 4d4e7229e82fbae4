use ferricom::bus::Bus;
use ferricom::cpu::{StepResult, CPU};
use ferricom::rom::ROM;
use ferricom::trace::trace;

fn test_rom() -> ROM {
    let mut image: Vec<u8> = vec![0x4E, 0x45, 0x53, 0x1A, 0x02, 0x01, 0x01, 00, 00, 00, 00, 00, 00, 00, 00, 00];
    image.extend(vec![1u8; 2 * 16384]);
    image.extend(vec![2u8; 8192]);
    ROM::from_bytes(String::new(), &image).unwrap()
}

fn run_with_trace(cpu: &mut CPU) -> Vec<String> {
    let mut result: Vec<String> = vec![];
    loop {
        result.push(trace(cpu).unwrap());
        if cpu.step() != StepResult::Continue {
            break;
        }
    }
    result
}

#[test]
fn test_format_trace() {
    let mut bus = Bus::new(test_rom());
    bus.mem_write_u8(100, 0xa2);
    bus.mem_write_u8(101, 0x01);
    bus.mem_write_u8(102, 0xca);
    bus.mem_write_u8(103, 0x88);
    bus.mem_write_u8(104, 0x00);

    let mut cpu = CPU::new(bus);
    cpu.pc = 0x64;
    cpu.acc = 1;
    cpu.x = 2;
    cpu.y = 3;
    let result = run_with_trace(&mut cpu);
    assert_eq!(
        "0064  A2 01     LDX #$01                        A:01 X:02 Y:03 P:24 SP:FD",
        result[0]
    );
    assert_eq!(
        "0066  CA        DEX                             A:01 X:01 Y:03 P:24 SP:FD",
        result[1]
    );
    assert_eq!(
        "0067  88        DEY                             A:01 X:00 Y:03 P:26 SP:FD",
        result[2]
    );
}

#[test]
fn test_format_mem_access() {
    let mut bus = Bus::new(test_rom());
    // ORA ($33), Y
    bus.mem_write_u8(100, 0x11);
    bus.mem_write_u8(101, 0x33);

    //data
    bus.mem_write_u8(0x33, 00);
    bus.mem_write_u8(0x34, 04);

    //target cell
    bus.mem_write_u8(0x400, 0xAA);

    let mut cpu = CPU::new(bus);
    cpu.pc = 0x64;
    cpu.y = 0;
    let result = run_with_trace(&mut cpu);
    assert_eq!(
        "0064  11 33     ORA ($33),Y = 0400 @ 0400 = AA  A:00 X:00 Y:00 P:24 SP:FD",
        result[0]
    );
}

#[test]
fn trace_formats_other_modes() {
    let mut cpu = CPU::new(Bus::new(test_rom()));
    // ASL A; JMP ($02FF); LDA $0400,X; STA $10
    cpu.load(vec![0x0A, 0x6C, 0xFF, 0x02, 0xBD, 0x00, 0x04, 0x85, 0x10]);
    cpu.mem_write_u8(0x02FF, 0x34);
    cpu.mem_write_u8(0x0200, 0x12);
    cpu.mem_write_u8(0x0401, 0x5A);
    cpu.x = 1;
    assert_eq!(trace(&mut cpu).unwrap(), "0600  0A        ASL A                           A:00 X:01 Y:00 P:24 SP:FD");
    cpu.pc = 0x0601;
    assert_eq!(trace(&mut cpu).unwrap(), "0601  6C FF 02  JMP ($02FF) = 1234              A:00 X:01 Y:00 P:24 SP:FD");
    cpu.pc = 0x0604;
    assert_eq!(trace(&mut cpu).unwrap(), "0604  BD 00 04  LDA $0400,X @ 0401 = 5A         A:00 X:01 Y:00 P:24 SP:FD");
    cpu.pc = 0x0607;
    assert_eq!(trace(&mut cpu).unwrap(), "0607  85 10     STA $10 = 00                    A:00 X:01 Y:00 P:24 SP:FD");
}

#[test]
fn trace_of_unknown_opcode_is_none() {
    let mut cpu = CPU::new(Bus::new(test_rom()));
    cpu.load(vec![0x02]);
    assert!(trace(&mut cpu).is_none());
}
