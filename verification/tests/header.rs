use gameboy_dot_rs::rom::cartridge_type::CartridgeType;
use gameboy_dot_rs::rom::header::{Checksum, Header, Validation};

const HEADER_BYTES: usize = 0x50;

#[test]
fn test_handcrafted_header() {
    let mut header = vec![0u8; HEADER_BYTES];

    let title = "POKEMON RED\0\0\0\0\0";
    assert_eq!(16, title.len());

    let title_bytes = title.as_bytes();
    for i in 0..title_bytes.len() {
        header[0x34 + i] = title_bytes[i];
    }
    header[0x47] = 0x13;
    header[0x48] = 0x05;
    header[0x49] = 0x03;

    let header = Header::parse(&header[..]).unwrap();

    assert_eq!(
        Header {
            title: "POKEMON RED".to_string(),
            cartridge_type: CartridgeType::Mbc3 { battery: true, ram: true, timer: false },
            rom_banks: 64,
            ram_banks: 4,
            version: 0,

            validation: Validation {
                logo: false,
                header_checksum: Checksum::Mismatch { actual: 184, expected: 0 },
                global_checksum: 0
            },
        },
        header
    );
}

#[test]
fn test_rom_banks() {
    let banks = Header::parse_rom_banks(0x00).unwrap();
    assert_eq!(2, banks);

    let banks = Header::parse_rom_banks(0x08).unwrap();
    assert_eq!(512, banks);

    let banks = Header::parse_rom_banks(0x09);
    assert!(banks.is_err());

    let banks = Header::parse_rom_banks(0xFF);
    assert!(banks.is_err());
}

#[test]
fn test_ram_banks() {
    assert_eq!(0, Header::parse_ram_banks(0x00).unwrap());
    assert!(Header::parse_ram_banks(0x01).is_err());
    assert_eq!(8, Header::parse_ram_banks(0x05).unwrap());
    assert!(Header::parse_ram_banks(0x06).is_err());
}

#[test]
fn test_rom_banks_strictly_increasing() {
    // Each defined code doubles the bank count: 2 << code, strictly rising
    let mut previous = 0;
    for code in 0u8..=8 {
        let banks = Header::parse_rom_banks(code).unwrap();
        assert_eq!(2usize << code, banks);
        assert!(banks > previous);
        previous = banks;
    }
}

#[test]
fn test_size_code_error_messages() {
    assert_eq!("invalid rom banks code 0x09", Header::parse_rom_banks(0x09).unwrap_err());
    assert_eq!("invalid rom banks code 0xFF", Header::parse_rom_banks(0xFF).unwrap_err());
    assert_eq!("invalid ram banks code 0x01", Header::parse_ram_banks(0x01).unwrap_err());
    assert_eq!("invalid ram banks code 0x06", Header::parse_ram_banks(0x06).unwrap_err());
}

#[test]
fn test_undersized_header_message() {
    let result = Header::parse(&[0u8; 10]);
    assert_eq!(
        "Provided header data was 10 bytes, but header must be 80 bytes",
        result.unwrap_err()
    );

    let empty: Vec<u8> = Vec::new();
    let result = Header::parse(&empty[..]);
    assert_eq!(
        "Provided header data was 0 bytes, but header must be 80 bytes",
        result.unwrap_err()
    );
}

#[test]
fn test_title_trimming() {
    // Trailing NUL padding goes first, then trailing whitespace
    let mut header = vec![0u8; HEADER_BYTES];
    let title = b"HELLO  \0\0\0\0\0\0\0\0\0";
    for i in 0..title.len() {
        header[0x34 + i] = title[i];
    }

    let parsed = Header::parse(&header[..]).unwrap();
    assert_eq!("HELLO", parsed.title);

    // A NUL below whitespace survives: only trailing bytes are trimmed
    let mut header = vec![0u8; HEADER_BYTES];
    let title = b"AB\0 \0\0\0\0\0\0\0\0\0\0\0\0";
    for i in 0..title.len() {
        header[0x34 + i] = title[i];
    }

    let parsed = Header::parse(&header[..]).unwrap();
    assert_eq!("AB\0", parsed.title);
}

#[test]
fn test_title_invalid_encoding() {
    let mut header = vec![0u8; HEADER_BYTES];
    header[0x34] = 0xFF;
    header[0x35] = 0xFE;

    let result = Header::parse(&header[..]);
    assert_eq!("header title is not valid UTF-8", result.unwrap_err());
}

#[test]
fn test_checksum_of_all_zero_header() {
    // 25 summed bytes, all zero: the fold is -(0 + 25) mod 256 == 231
    let header = vec![0u8; HEADER_BYTES];
    let parsed = Header::parse(&header[..]).unwrap();
    assert_eq!(
        Checksum::Mismatch { actual: 231, expected: 0 },
        parsed.validation.header_checksum
    );
}

#[test]
fn test_global_checksum_is_big_endian() {
    let mut header = vec![0u8; HEADER_BYTES];
    header[0x4E] = 0x12;
    header[0x4F] = 0x34;

    let parsed = Header::parse(&header[..]).unwrap();
    assert_eq!(0x1234, parsed.validation.global_checksum);
}
