use gameboy_dot_rs::rom::mbc1::Mbc1;
use gameboy_dot_rs::system::{Gas, System};

/// A cartridge image whose first instructions load literal values into
/// every data register and then jump to 0x150, where a jump loops in
/// place forever.
fn jumps_rom_bytes() -> Vec<u8> {
    let mut bytes = vec![0u8; 0x8000];
    let program = [
        0x3E, 0x1A, // LD A,0x1A
        0x06, 0x2B, // LD B,0x2B
        0x0E, 0x3C, // LD C,0x3C
        0x16, 0x4D, // LD D,0x4D
        0x1E, 0x5E, // LD E,0x5E
        0x26, 0x6F, // LD H,0x6F
        0x2E, 0x7F, // LD L,0x7F
        0xC3, 0x50, 0x01, // JP 0x150
    ];
    for i in 0..program.len() {
        bytes[0x100 + i] = program[i];
    }
    // 0x150: JP 0x150, looping in place
    bytes[0x150] = 0xC3;
    bytes[0x151] = 0x50;
    bytes[0x152] = 0x01;
    bytes
}

#[test]
fn jumps_test_jumps() {
    let bytes = jumps_rom_bytes();
    let cartridge = Mbc1::from_bytes(&bytes).unwrap();
    let mut system = System::load_cartridge(cartridge);

    system.run_with_gas(Gas::LIMITED(10));

    assert_eq!(0x150, system.cpu().pc);
}
