use rens::error::{NesError, RomError};
use rens::ppu::Mirroring;
use rens::rom::{Header, NesLoader, CHR_UNIT_SIZE, PRG_UNIT_SIZE, TRAINER_SIZE};

#[test]
fn is_nes_rom_test() {
    assert!(Header::is_nes_rom(&[
        0x4Eu8, 0x45u8, 0x53u8, 0x1Au8, 0u8, 0u8, 0u8, 0u8, 0u8, 0u8, 0u8, 0u8, 0u8, 0u8, 0u8,
        0u8
    ]));
    assert!(!Header::is_nes_rom(&[0u8; 16]));
}

#[test]
fn nes_2_format_test() {
    let header1 = [
        0x4Eu8,
        0x45u8,
        0x53u8,
        0x1Au8,
        0u8,
        0u8,
        0u8,
        0b0000_1000u8,
        0u8,
        0u8,
        0u8,
        0u8,
        0u8,
        0u8,
        0u8,
        0u8,
    ];
    let header2 = [
        0x4Eu8, 0x45u8, 0x53u8, 0x1Au8, 0u8, 0u8, 0u8, 0u8, 0u8, 0u8, 0u8, 0u8, 0u8, 0u8, 0u8,
        0u8,
    ];
    let h1 = Header::from_slice(&header1).unwrap();
    let h2 = Header::from_slice(&header2).unwrap();
    assert!(h1.nes_2_format());
    assert!(!h2.nes_2_format());
}

fn header_bytes(prg: u8, chr: u8, flags6: u8, flags7: u8) -> Vec<u8> {
    let mut h = vec![0x4E, 0x45, 0x53, 0x1A, prg, chr, flags6, flags7, 3];
    h.resize(16, 0);
    h
}

#[test]
fn header_rejects_wrong_magic_and_length() {
    assert!(!Header::is_nes_rom(&[0x4E, 0x45, 0x53, 0x1A]));
    match Header::from_slice(&[0u8; 16]) {
        Err(RomError::InvalidInes(_)) => {}
        Ok(_) => panic!("a header without the magic was accepted"),
    }
}

#[test]
fn header_fields() {
    let h = Header::from_slice(&header_bytes(2, 1, 0b0111_0111, 0b1000_0011)).unwrap();
    assert_eq!(h.prg_size(), 2);
    assert_eq!(h.chr_size(), 1);
    assert_eq!(h.mapper_number(), 0x87);
    assert!(h.battery_backed());
    assert!(h.trainer());
    assert!(h.vs_unisystem());
    assert!(h.play_choice_10());
    assert!(!h.nes_2_format());
    assert_eq!(h.mirroring(), Mirroring::Vertical);
    assert_eq!(h.prg_ram_size().unwrap(), 3);
}

#[test]
fn header_mirroring_modes() {
    let horizontal = Header::from_slice(&header_bytes(1, 1, 0, 0)).unwrap();
    let four = Header::from_slice(&header_bytes(1, 1, 0b0000_1001, 0)).unwrap();
    assert_eq!(horizontal.mirroring(), Mirroring::Horizontal);
    assert_eq!(four.mirroring(), Mirroring::FourScreen);
}

#[test]
fn header_prg_ram_size_refused_for_nes_2() {
    let h = Header::from_slice(&header_bytes(1, 1, 0, 0b0000_1000)).unwrap();
    assert!(h.prg_ram_size().is_err());
}

#[test]
fn loader_splits_image() {
    let mut rom = header_bytes(1, 1, 0, 0);
    for i in 0..PRG_UNIT_SIZE + CHR_UNIT_SIZE {
        rom.push((i % 251) as u8);
    }
    let l = NesLoader::from_slice(&rom).unwrap();
    assert_eq!(l.header().prg_size(), 1);
    assert!(l.trainer().is_empty());
    assert_eq!(l.prg(), &rom[16..16 + PRG_UNIT_SIZE]);
    assert_eq!(l.chr(), &rom[16 + PRG_UNIT_SIZE..16 + PRG_UNIT_SIZE + CHR_UNIT_SIZE]);
}

#[test]
fn loader_reads_trainer() {
    let mut rom = header_bytes(1, 0, 0b0000_0100, 0);
    for i in 0..TRAINER_SIZE + PRG_UNIT_SIZE {
        rom.push((i % 7) as u8);
    }
    let l = NesLoader::from_slice(&rom).unwrap();
    assert_eq!(l.trainer(), &rom[16..16 + TRAINER_SIZE]);
    assert_eq!(l.prg(), &rom[16 + TRAINER_SIZE..]);
    assert!(l.chr().is_empty());
}

#[test]
fn loader_refuses_short_or_truncated_images() {
    assert!(matches!(NesLoader::from_slice(&[0x4E, 0x45]), Err(NesError::InvalidInes(_))));
    assert!(matches!(NesLoader::from_slice(&[0u8; 16]), Err(NesError::InvalidInes(_))));
    let mut rom = header_bytes(1, 1, 0, 0);
    rom.resize(16 + PRG_UNIT_SIZE, 0);
    assert!(matches!(NesLoader::from_slice(&rom), Err(NesError::InvalidInes(_))));
    let trainer_missing = header_bytes(0, 0, 0b0000_0100, 0);
    assert!(matches!(NesLoader::from_slice(&trainer_missing), Err(NesError::InvalidInes(_))));
}
