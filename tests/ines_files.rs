use yane::ines::{
    Header, INes, InesError, NametableArrangement, TvSystem, TvSystemExt,
};

fn header(bytes: &[u8]) -> [u8; 16] {
    let mut h = [0u8; 16];
    h[..bytes.len()].copy_from_slice(bytes);
    h
}

#[test]
fn parses_a_minimal_image() {
    let mut file = vec![0u8; 24592];
    file[..6].copy_from_slice(&[0x4E, 0x45, 0x53, 0x1A, 0x01, 0x01]);
    file[16] = 0xAA;
    file[16 + 16384] = 0xBB;
    let ines = INes::new(&file).unwrap();
    let h = ines.header;
    assert_eq!(h.prg_rom_size, 16384);
    assert_eq!(h.chr_rom_size, 8192);
    assert_eq!(h.mapper_number, 0);
    assert_eq!(h.tv_system, TvSystem::Ntsc);
    assert_eq!(h.tv_system_ext, TvSystemExt::Legacy(TvSystem::Ntsc));
    assert!(!h.trainer_512);
    assert!(ines.trainer.is_none());
    assert_eq!(ines.prg_rom.len(), 16384);
    assert_eq!(ines.chr_rom.len(), 8192);
    assert_eq!(ines.prg_rom[0], 0xAA);
    assert_eq!(ines.chr_rom[0], 0xBB);
    assert_eq!(h.prg_ram_size, 8192);
}

#[test]
fn decodes_flag_bytes() {
    let h = Header::new(header(&[
        0x4E, 0x45, 0x53, 0x1A, 0x02, 0x00, 0x4F, 0xA1, 0x03, 0x01, 0x32,
    ]))
    .unwrap();
    assert_eq!(h.prg_rom_size, 32768);
    assert_eq!(h.chr_rom_size, 0);
    assert_eq!(h.mapper_number, 0xA4);
    assert_eq!(h.nametable_arrangement, NametableArrangement::Horizontal);
    assert!(h.battery_backed_prg_ram);
    assert!(h.trainer_512);
    assert!(h.alternative_nametable_layout);
    assert!(h.vs_unisystem);
    assert!(!h.playchoice_10);
    assert!(!h.nes_2_0);
    assert_eq!(h.prg_ram_size, 3 * 8192);
    assert_eq!(h.tv_system, TvSystem::Pal);
    assert_eq!(h.tv_system_ext, TvSystemExt::Legacy(TvSystem::Pal));
    assert!(h.high_prg_ram);
    assert!(h.bus_conflicts);
}

#[test]
fn dual_tv_system() {
    let h = Header::new(header(&[0x4E, 0x45, 0x53, 0x1A, 0, 0, 0, 0, 0, 0, 0x03])).unwrap();
    assert_eq!(h.tv_system_ext, TvSystemExt::Dual);
}

#[test]
fn bad_magic() {
    let r = Header::new(header(&[0x4E, 0x45, 0x53, 0x00]));
    assert_eq!(r, Err(InesError::BadMagic));
    let r = INes::new(&[0u8; 64]);
    assert!(matches!(r, Err(InesError::BadMagic)));
}

#[test]
fn unsupported_formats() {
    let playchoice = Header::new(header(&[0x4E, 0x45, 0x53, 0x1A, 1, 0, 0, 0x02]));
    assert_eq!(playchoice, Err(InesError::UnsupportedFormat));
    let nes2 = Header::new(header(&[0x4E, 0x45, 0x53, 0x1A, 1, 0, 0, 0x08]));
    assert_eq!(nes2, Err(InesError::UnsupportedFormat));
    let reserved = Header::new(header(&[0x4E, 0x45, 0x53, 0x1A, 1, 0, 0, 0, 0, 0x02]));
    assert_eq!(reserved, Err(InesError::UnsupportedFormat));
}

#[test]
fn truncated_files() {
    let short = INes::new(&[0x4E, 0x45, 0x53, 0x1A]);
    assert!(matches!(short, Err(InesError::Truncated)));
    let mut file = vec![0u8; 16 + 16383];
    file[..5].copy_from_slice(&[0x4E, 0x45, 0x53, 0x1A, 0x01]);
    assert!(matches!(INes::new(&file), Err(InesError::Truncated)));
}

#[test]
fn trainer_comes_before_prg_rom() {
    let mut file = vec![0u8; 16 + 512 + 16384];
    file[..7].copy_from_slice(&[0x4E, 0x45, 0x53, 0x1A, 0x01, 0x00, 0x04]);
    file[16] = 0x11;
    file[16 + 512] = 0x22;
    let ines = INes::new(&file).unwrap();
    let trainer = ines.trainer.unwrap();
    assert_eq!(trainer.len(), 512);
    assert_eq!(trainer[0], 0x11);
    assert_eq!(ines.prg_rom[0], 0x22);
    assert!(ines.chr_rom.is_empty());
}

#[test]
fn header_round_trip() {
    let h = Header {
        prg_rom_size: 2 * 16384,
        chr_rom_size: 8192,
        mapper_number: 0x4B,
        nametable_arrangement: NametableArrangement::Horizontal,
        battery_backed_prg_ram: true,
        trainer_512: false,
        alternative_nametable_layout: true,
        vs_unisystem: true,
        playchoice_10: false,
        nes_2_0: false,
        prg_ram_size: 8192,
        tv_system: TvSystem::Pal,
        tv_system_ext: TvSystemExt::Dual,
        high_prg_ram: false,
        bus_conflicts: true,
    };
    let bytes = h.to_bytes();
    assert_eq!(&bytes[..4], &[0x4E, 0x45, 0x53, 0x1A]);
    assert_eq!(bytes[6], 0xBB);
    assert_eq!(bytes[7], 0x41);
    assert_eq!(Header::new(bytes), Ok(h));
}
