use gameboy_dot_rs::bus::Bus;
use gameboy_dot_rs::cpu::Cpu;
use gameboy_dot_rs::rom::mbc1::Mbc1;

#[test]
fn test_get_and_increment_hl() {
    let mut cpu = Cpu::default();

    // Simplest case
    assert_eq!(0x0000, cpu.get_and_increment_hl());
    assert_eq!(0x0001, cpu.hl());

    // Test rollover from l to h
    cpu.h = 0xCE;
    cpu.l = 0xFE;
    assert_eq!(0xCEFE, cpu.get_and_increment_hl());
    assert_eq!(0xCEFF, cpu.get_and_increment_hl());
    assert_eq!(0xCF00, cpu.get_and_increment_hl());
    assert_eq!(0xCF01, cpu.hl());

    // Test full rollover
    cpu.h = 0xFF;
    cpu.l = 0xFE;
    assert_eq!(0xFFFE, cpu.get_and_increment_hl());
    assert_eq!(0xFFFF, cpu.get_and_increment_hl());
    assert_eq!(0x0000, cpu.get_and_increment_hl());
    assert_eq!(0x0001, cpu.get_and_increment_hl());
}

#[test]
fn test_default_register_state() {
    let cpu = Cpu::default();

    assert_eq!(0, cpu.a);
    assert_eq!(0, cpu.f);
    assert_eq!(0, cpu.b);
    assert_eq!(0, cpu.c);
    assert_eq!(0, cpu.d);
    assert_eq!(0, cpu.e);
    assert_eq!(0, cpu.h);
    assert_eq!(0, cpu.l);
    assert_eq!(0x100, cpu.pc);
}

#[test]
fn test_compound_registers_track_fields() {
    let mut cpu = Cpu::default();

    cpu.b = 0x12;
    cpu.c = 0x34;
    cpu.d = 0x56;
    cpu.e = 0x78;
    cpu.h = 0x9A;
    cpu.l = 0xBC;
    assert_eq!(0x1234, cpu.bc());
    assert_eq!(0x5678, cpu.de());
    assert_eq!(0x9ABC, cpu.hl());

    // Mutating b must be reflected in BC immediately
    cpu.b = 0xFF;
    assert_eq!(0xFF34, cpu.bc());

    assert_eq!(0xABCD, Cpu::compound_register(0xAB, 0xCD));
}

#[test]
fn test_step_effects_and_cycle_costs() {
    let mut bytes = vec![0u8; 0x8000];
    let program = [
        0x3E, 0x05, // LD A,5
        0x47, // LD B,A
        0x36, 0x0A, // LD [HL],0x0A - HL is 0, landing in the ram-gate region
        0xC3, 0x50, 0x01, // JP 0x150
    ];
    for i in 0..program.len() {
        bytes[0x100 + i] = program[i];
    }

    let cartridge = Mbc1::from_bytes(&bytes).unwrap();
    let mut bus = Bus::new(cartridge);
    let mut cpu = Cpu::default();

    assert_eq!(2, cpu.read_decode_execute(&mut bus));
    assert_eq!(5, cpu.a);
    assert_eq!(0x102, cpu.pc);

    assert_eq!(1, cpu.read_decode_execute(&mut bus));
    assert_eq!(5, cpu.b);

    assert_eq!(3, cpu.read_decode_execute(&mut bus));
    // The write of 0x0A landed on the controller's ram-gate register
    assert_eq!(true, bus.cartridge.ram_gate_register);

    assert_eq!(4, cpu.read_decode_execute(&mut bus));
    assert_eq!(0x150, cpu.pc);
}

#[test]
fn test_c_as_high_ram_address() {
    let mut cpu = Cpu::default();

    cpu.c = 0x42;
    assert_eq!(0xFF42, cpu.c_as_high_ram_address());
    cpu.c = 0x00;
    assert_eq!(0xFF00, cpu.c_as_high_ram_address());
    cpu.c = 0xFF;
    assert_eq!(0xFFFF, cpu.c_as_high_ram_address());
}
