use gameboy_dot_rs::rom::cartridge_type::CartridgeType;
use gameboy_dot_rs::rom::header::{Checksum, Header, Validation};

// The fixed logo bitmap a licensed cartridge carries at header offsets
// 0x04..=0x33.
const LOGO: [u8; 48] = [
    0xCE, 0xED, 0x66, 0x66, 0xCC, 0x0D, 0x00, 0x0B, 0x03, 0x73, 0x00, 0x83, 0x00, 0x0C, 0x00,
    0x0D, 0x00, 0x08, 0x11, 0x1F, 0x88, 0x89, 0x00, 0x0E, 0xDC, 0xCC, 0x6E, 0xE6, 0xDD, 0xDD,
    0xD9, 0x99, 0xBB, 0xBB, 0x67, 0x63, 0x6E, 0x0E, 0xEC, 0xCC, 0xDD, 0xDC, 0x99, 0x9F, 0xBB,
    0xB9, 0x33, 0x3E,
];

/// The 80-byte header region of a well-known first-generation cartridge.
fn pokemon_red_header_bytes() -> Vec<u8> {
    let mut bytes = vec![0u8; 0x50];
    for i in 0..LOGO.len() {
        bytes[0x04 + i] = LOGO[i];
    }
    let title = b"POKEMON RED\0\0\0\0\0";
    for i in 0..title.len() {
        bytes[0x34 + i] = title[i];
    }
    // New licensee code "01", super-console flag, cartridge type, sizes,
    // destination, old licensee code, version
    bytes[0x44] = 0x30;
    bytes[0x45] = 0x31;
    bytes[0x46] = 0x03;
    bytes[0x47] = 0x13;
    bytes[0x48] = 0x05;
    bytes[0x49] = 0x03;
    bytes[0x4A] = 0x01;
    bytes[0x4B] = 0x33;
    bytes[0x4C] = 0x00;
    // Stored header checksum, then the big-endian global checksum
    bytes[0x4D] = 0x20;
    bytes[0x4E] = 0x91;
    bytes[0x4F] = 0xE6;
    bytes
}

#[test]
fn test_pokemon_red_header() {
    let bytes = pokemon_red_header_bytes();

    let header = Header::parse(&bytes[..]).unwrap();

    assert_eq!(
        Header {
            title: "POKEMON RED".to_string(),
            cartridge_type: CartridgeType::Mbc3 { battery: true, ram: true, timer: false },
            rom_banks: 64,
            ram_banks: 4,
            version: 0,
            validation: Validation {
                logo: true,
                header_checksum: Checksum::Match(0x20),
                global_checksum: 0x91E6,
            }
        },
        header
    )
}
