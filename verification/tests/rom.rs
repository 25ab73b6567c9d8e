use padme_core::{CartridgeType, CgbMode, Error, Licensee, Rom};

/// A 64KB MBC1 image whose header is the one of the `cpu_instrs` test cartridge.
fn get_rom_bin() -> Vec<u8> {
    let mut bin = vec![0u8; 64 * 1024];
    let title = b"CPU_INSTRS";
    for (i, b) in title.iter().enumerate() {
        bin[0x134 + i] = *b;
    }
    bin[0x143] = 0x80; // cgb flag
    bin[0x146] = 0x00; // sgb flag
    bin[0x147] = 0x01; // MBC1
    bin[0x148] = 0x01; // 64KB
    bin[0x149] = 0x00; // no ram
    bin[0x14A] = 0x00; // japanese
    bin[0x14B] = 0x00; // no licensee
    bin[0x14C] = 0x00; // version
    let mut x = 0u8;
    for i in 0x134..=0x14C {
        x = x.wrapping_sub(bin[i]).wrapping_sub(1);
    }
    bin[0x14D] = x;
    bin
}

#[test]
fn it_loads_checks_rom_title() {
    let bin = get_rom_bin();
    let rom = Rom::load(bin).unwrap();

    assert_eq!(rom.title().unwrap(), "CPU_INSTRS");
}

#[test]
fn it_checks_rom_cgb_mode() {
    let bin = get_rom_bin();
    let rom = Rom::load(bin).unwrap();

    assert_eq!(rom.cgb_mode(), CgbMode::Both);
}

#[test]
fn it_loads_checks_rom_sgb() {
    let bin = get_rom_bin();
    let rom = Rom::load(bin).unwrap();

    assert_eq!(rom.is_sgb(), false);
}

#[test]
fn it_checks_rom_cartridge_type() {
    let bin = get_rom_bin();
    let rom = Rom::load(bin).unwrap();

    assert_eq!(rom.cartridge_type(), CartridgeType::Mbc1);
}

#[test]
fn it_checks_rom_size() {
    let bin = get_rom_bin();
    let len = bin.len();
    let rom = Rom::load(bin).unwrap();

    assert_eq!((rom.size() as usize) * 1024, len);
}

#[test]
fn it_checks_rom_ram_size() {
    let bin = get_rom_bin();
    let rom = Rom::load(bin).unwrap();

    assert_eq!(rom.ram_size(), 0u16);
}

#[test]
fn it_checks_rom_japanese_mode() {
    let bin = get_rom_bin();
    let rom = Rom::load(bin).unwrap();

    assert_eq!(rom.is_jp(), true);
}

#[test]
fn it_checks_rom_licensee() {
    let bin = get_rom_bin();
    let rom = Rom::load(bin).unwrap();

    assert_eq!(rom.licensee(), Licensee::NoLicensee);
}

#[test]
fn it_checks_rom_version() {
    let bin = get_rom_bin();
    let rom = Rom::load(bin).unwrap();

    assert_eq!(rom.version(), 0u8);
}

#[test]
fn it_checks_rom_checksum() {
    let bin = get_rom_bin();
    let rom = Rom::load(bin).unwrap();

    assert_eq!(rom.verify_header_checksum(), true);
}

#[test]
fn short_image_is_refused_with_its_length() {
    match Rom::load(vec![0u8; 0x7FFF]) {
        Err(Error::InvalidRomSize(n)) => assert_eq!(n, 0x7FFF),
        Ok(_) => panic!("a short image was accepted"),
    }
}

#[test]
fn smallest_image_is_accepted() {
    assert!(Rom::load(vec![0u8; 0x8000]).is_ok());
}

#[test]
fn corrupted_header_fails_checksum() {
    let mut bin = get_rom_bin();
    bin[0x14C] = 1;
    let rom = Rom::load(bin).unwrap();
    assert_eq!(rom.verify_header_checksum(), false);
}

#[test]
fn full_title_without_terminator() {
    let mut bin = get_rom_bin();
    for i in 0..16 {
        bin[0x134 + i] = b'A' + i as u8;
    }
    let rom = Rom::load(bin).unwrap();
    assert_eq!(rom.title().unwrap(), "ABCDEFGHIJKLMNOP");
    assert_eq!(rom.cgb_mode(), CgbMode::NoCgb);
}

#[test]
fn invalid_utf8_title_is_an_error() {
    let mut bin = get_rom_bin();
    bin[0x134] = 0xFF;
    let rom = Rom::load(bin).unwrap();
    assert!(rom.title().is_err());
}

#[test]
fn header_codes_are_decoded() {
    let mut bin = get_rom_bin();
    bin[0x143] = 0xC0;
    bin[0x146] = 0x03;
    bin[0x147] = 0x13; // MBC3 + RAM + battery
    bin[0x148] = 0x05; // 1MB
    bin[0x149] = 0x03; // 32KB
    bin[0x14A] = 0x01;
    bin[0x14B] = 0x01; // Nintendo
    bin[0x14C] = 0x02;
    let rom = Rom::load(bin).unwrap();
    assert_eq!(rom.cgb_mode(), CgbMode::Cgb);
    assert!(rom.is_sgb());
    assert_eq!(rom.cartridge_type(), CartridgeType::Mbc3RamBattery);
    assert_eq!(rom.size(), 1024);
    assert_eq!(rom.ram_size(), 32);
    assert!(!rom.is_jp());
    assert_eq!(rom.licensee(), Licensee::Nintendo);
    assert_eq!(rom.version(), 2);
    assert_eq!(rom.header().len(), 0x14D - 0x134);
}

#[test]
fn new_licensee_code_is_used_after_0x33() {
    let mut bin = get_rom_bin();
    bin[0x14B] = 0x33;
    bin[0x144] = b'0';
    bin[0x145] = b'1';
    let rom = Rom::load(bin).unwrap();
    assert_eq!(rom.licensee(), Licensee::Nintendo);
}

#[test]
fn mbc1_switches_rom_banks() {
    let mut bin = get_rom_bin();
    bin[0x4000] = 0x11; // bank 1
    bin[0x8000] = 0x22; // bank 2
    bin[0x0000] = 0x33; // bank 0
    let mut rom = Rom::load(bin).unwrap();
    assert_eq!(rom.read(0x0000), 0x33);
    assert_eq!(rom.read(0x4000), 0x11);
    rom.write(0x2000, 2);
    assert_eq!(rom.read(0x4000), 0x22);
    // bank 0 is mapped as bank 1
    rom.write(0x2000, 0);
    assert_eq!(rom.read(0x4000), 0x11);
    // the image itself is read only
    rom.write(0x0000, 0x99);
    assert_eq!(rom.read(0x0000), 0x33);
}

#[test]
fn mbc1_external_ram_needs_enabling() {
    let mut rom = Rom::load(get_rom_bin()).unwrap();
    rom.write(0xA000, 0x42);
    assert_eq!(rom.read(0xA000), 0xFF);
    rom.write(0x0000, 0x0A);
    rom.write(0xA000, 0x42);
    assert_eq!(rom.read(0xA000), 0x42);
    rom.write(0x0000, 0x00);
    assert_eq!(rom.read(0xA000), 0xFF);
}
