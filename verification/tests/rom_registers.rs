use gameboy_dot_rs::rom::Rom;

#[test]
fn rom_test_ramg() {
    let mut rom = Rom::new();

    // Register should start off
    assert_eq!(false, rom.ram_gate_register);

    // Writing arbitrary values to the range shouldn't change the flag
    rom.write_byte(0x1FFF, 0b11111111);
    assert_eq!(false, rom.ram_gate_register);
    rom.write_byte(0x1FFF, 0b10100101);
    assert_eq!(false, rom.ram_gate_register);

    // Writing, specifically, 0b1010 in the lower nibble and any higher nibble sets the flag
    rom.write_byte(0x1234, 0b11011010);
    assert_eq!(true, rom.ram_gate_register);

    // Writing something else will unset it again
    rom.write_byte(0x0000, 0b00000101);
    assert_eq!(false, rom.ram_gate_register);
}

#[test]
fn rom_test_bank_1() {
    let mut rom = Rom::new();

    assert_eq!(1, rom.bank_register_1);

    // Writing within the lower 5 bits is written as-is
    rom.write_byte(0x3CCC, 0b0011);
    assert_eq!(0b0011, rom.bank_register_1);
    rom.write_byte(0x2000, 0b11100);
    assert_eq!(0b11100, rom.bank_register_1);

    // Writing out of the lower 5 bits only keeps the lowest 5 bits
    rom.write_byte(0x3210, 0b11110010);
    assert_eq!(0b10010, rom.bank_register_1);

    // Writing 0 actually writes 1
    rom.write_byte(0x3FED, 0);
    assert_eq!(1, rom.bank_register_1);
}

#[test]
fn rom_test_bank_2() {
    let mut rom = Rom::new();

    assert_eq!(0, rom.bank_register_2);

    // Any 3-bit writes
    for value in 0b11u8..=0 {
        rom.write_byte(0x4000, value);
        assert_eq!(value, rom.bank_register_2);
    }

    rom.write_byte(0x5FFF, 0b11111010);
    assert_eq!(0b10, rom.bank_register_2);
}

#[test]
fn rom_test_mode() {
    let mut rom = Rom::new();

    assert_eq!(false, rom.mode_register);

    // Writing a 1 sets the flag
    rom.write_byte(0x7FFF, 0b1);
    assert_eq!(true, rom.mode_register);

    // Writing a 3 unsets the flag beause the lowest bit is zero
    rom.write_byte(0x6000, 0b10);
    assert_eq!(false, rom.mode_register);

    // All but lowest bit zeroed, still unset
    rom.write_byte(0x6789, 0xFE);
    assert_eq!(false, rom.mode_register);

    // All bits set, flag set
    rom.write_byte(0x6789, 0xFF);
    assert_eq!(true, rom.mode_register);
}
