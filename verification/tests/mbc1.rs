use gameboy_dot_rs::rom::mbc1::{
    Mbc1, BANK_1_REGISTER_ADDRESS_START, BANK_2_REGISTER_ADDRESS_START, HIGH_ROM_BANK_ADDRESS_END,
    HIGH_ROM_BANK_ADDRESS_START, LOW_ROM_BANK_ADDRESS_END, LOW_ROM_BANK_ADDRESS_START,
    MODE_REGISTER_ADDRESS_START,
};

#[test]
fn mbc1_test_ramg() {
    let mut rom = Mbc1::new();

    // Register should start off
    assert_eq!(false, rom.ram_gate_register);

    // Writing arbitrary values to the range shouldn't change the flag
    rom.write_byte(0x1FFF, 0b11111111);
    assert_eq!(false, rom.ram_gate_register);
    rom.write_byte(0x1FFF, 0b10100101);
    assert_eq!(false, rom.ram_gate_register);

    // Writing, specifically, 0b1010 in the lower nibble and any higher nibble sets the flag
    rom.write_byte(0x1234, 0b11011010);
    assert_eq!(true, rom.ram_gate_register);

    // Writing something else will unset it again
    rom.write_byte(0x0000, 0b00000101);
    assert_eq!(false, rom.ram_gate_register);
}

#[test]
fn mbc1_test_bank_1() {
    let mut rom = Mbc1::new();

    assert_eq!(1, rom.bank_register_1);

    // Writing within the lower 5 bits is written as-is
    rom.write_byte(0x3CCC, 0b0011);
    assert_eq!(0b0011, rom.bank_register_1);
    rom.write_byte(0x2000, 0b11100);
    assert_eq!(0b11100, rom.bank_register_1);

    // Writing out of the lower 5 bits only keeps the lowest 5 bits
    rom.write_byte(0x3210, 0b11110010);
    assert_eq!(0b10010, rom.bank_register_1);

    // Writing 0 actually writes 1
    rom.write_byte(0x3FED, 0);
    assert_eq!(1, rom.bank_register_1);
}

#[test]
fn mbc1_test_bank_2() {
    let mut rom = Mbc1::new();

    assert_eq!(0, rom.bank_register_2);

    // Any 3-bit writes
    for value in 0b11u8..=0 {
        rom.write_byte(0x4000, value);
        assert_eq!(value, rom.bank_register_2);
    }

    rom.write_byte(0x5FFF, 0b11111010);
    assert_eq!(0b10, rom.bank_register_2);
}

#[test]
fn mbc1_test_mode() {
    let mut rom = Mbc1::new();

    assert_eq!(false, rom.mode_register);

    // Writing a 1 sets the flag
    rom.write_byte(0x7FFF, 0b1);
    assert_eq!(true, rom.mode_register);

    // Writing a 3 unsets the flag beause the lowest bit is zero
    rom.write_byte(0x6000, 0b10);
    assert_eq!(false, rom.mode_register);

    // All but lowest bit zeroed, still unset
    rom.write_byte(0x6789, 0xFE);
    assert_eq!(false, rom.mode_register);

    // All bits set, flag set
    rom.write_byte(0x6789, 0xFF);
    assert_eq!(true, rom.mode_register);
}

#[test]
fn test_active_rom_bank_number() {
    let mut rom = Mbc1::new();

    rom.write_byte(BANK_1_REGISTER_ADDRESS_START, 0b10010);
    rom.write_byte(BANK_2_REGISTER_ADDRESS_START, 0b01);

    // Active banks when the mode is 0
    assert_eq!(0, rom.active_rom_bank_number(LOW_ROM_BANK_ADDRESS_START));
    assert_eq!(0b0110010, rom.active_rom_bank_number(HIGH_ROM_BANK_ADDRESS_END));

    // Active banks when the mode is 1
    rom.write_byte(MODE_REGISTER_ADDRESS_START, 0x1);
    assert_eq!(0b0100000, rom.active_rom_bank_number(LOW_ROM_BANK_ADDRESS_END));
    assert_eq!(0b0110010, rom.active_rom_bank_number(HIGH_ROM_BANK_ADDRESS_END));

    // Try some more values
    rom.write_byte(BANK_1_REGISTER_ADDRESS_START, 0b00100);
    rom.write_byte(BANK_2_REGISTER_ADDRESS_START, 0b10);

    // Active banks when mode is 1 (left over from previous part of the test, not reset)
    assert_eq!(0b1000000, rom.active_rom_bank_number(0x369C));
    assert_eq!(68, rom.active_rom_bank_number(0x72A7));

    // Active banks when mode is 0
    rom.write_byte(MODE_REGISTER_ADDRESS_START, 0x0);
    assert_eq!(0, rom.active_rom_bank_number(0x369C));
    assert_eq!(68, rom.active_rom_bank_number(0x72A7));

    // Test that it is actually impossible to get bank 0x20 in the 0x4000..=0x7999 address range
    // Would need bank2 == 0b01, bank1 == 0b00000, but bank1 can never be zeroed
    rom.write_byte(BANK_2_REGISTER_ADDRESS_START, 0b01);
    rom.write_byte(BANK_1_REGISTER_ADDRESS_START, 0b00000);
    // Even though we wrote in the bank number 0b0100000, we get 0b0100001 back
    // This is because bank1 cannot be 0
    assert_eq!(0x21, rom.active_rom_bank_number(HIGH_ROM_BANK_ADDRESS_START));

    // However, you can get to bank 0x20 by addressing 0x0000..=0x3FFF in mode 1
    rom.write_byte(MODE_REGISTER_ADDRESS_START, 0b1);
    rom.write_byte(BANK_2_REGISTER_ADDRESS_START, 0b01);
    assert_eq!(0x20, rom.active_rom_bank_number(0x1234));
}

#[test]
fn test_from_bytes_rejects_short_image() {
    let bytes = vec![0u8; 0x100];
    let result = Mbc1::from_bytes(&bytes);
    assert_eq!(
        "cartridge image was 256 bytes, but must be at least 336 bytes to hold the header",
        result.unwrap_err()
    );
}

#[test]
fn test_from_bytes_rejects_bad_header() {
    let mut bytes = vec![0u8; 0x150];
    // An unknown cartridge-type code sits at 0x147 of the image
    bytes[0x147] = 0x04;
    let result = Mbc1::from_bytes(&bytes);
    assert_eq!("unrecognized cartridge type code 0x04", result.unwrap_err());
}

#[test]
fn test_from_bytes_keeps_image() {
    let mut bytes = vec![0u8; 0x150];
    bytes[0x00] = 0xAA;
    bytes[0x100] = 0xBB;
    let rom = Mbc1::from_bytes(&bytes).unwrap();

    // Registers start at their reset values
    assert_eq!(false, rom.ram_gate_register);
    assert_eq!(1, rom.bank_register_1);
    assert_eq!(0, rom.bank_register_2);
    assert_eq!(false, rom.mode_register);

    // Bank 0 reads index the image directly
    assert_eq!(0xAA, rom.read_byte(0x0000));
    assert_eq!(0xBB, rom.read_byte(0x0100));
    assert_eq!(0x00, rom.read_byte(0x0001));
}

#[test]
fn test_read_byte_wraps_undersized_image() {
    let mut bytes = vec![0u8; 0x150];
    bytes[0x100] = 0x77;
    let rom = Mbc1::from_bytes(&bytes).unwrap();

    // The switchable window starts at bank 1, which falls past the end of
    // this 336-byte image: index 0x4000 wraps to 0x4000 % 0x150 == 0x100
    assert_eq!(0x100, 0x4000usize % 0x150);
    assert_eq!(0x77, rom.read_byte(0x4000));
    assert_eq!(0x00, rom.read_byte(0x4001));

    // An empty image reads as open bus
    let empty = Mbc1::new();
    assert_eq!(0xFF, empty.read_byte(0x0000));
    assert_eq!(0xFF, empty.read_byte(0x7FFF));
}
