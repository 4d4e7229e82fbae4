use ferricom::rom::{iNESHeader, iNESVersion, RomError, ScreenMirroring, ROM};

#[test]
fn header_test_retrieve_and_verify_header() {
    let header_clear = vec![0x4E, 0x45, 0x53, 0x1A, 0x01, 0x01, 0x00, 0x00, 0x00, 0x00, 0x00, 0x00, 0x00, 0x00, 0x00, 0x00];
    let header_bad_signature = vec![0x89, 0x45, 0x53, 0x1A, 0x01, 0x01, 0x00, 0x00, 0x00, 0x00, 0x00, 0x00, 0x00, 0x00, 0x00, 0x00];
    let header_bad_read: Vec<u8> = vec![];

    assert_eq!(iNESHeader::retrieve_and_verify_header(&header_clear).unwrap(), header_clear);
    assert_eq!(
        iNESHeader::retrieve_and_verify_header(&header_bad_signature).unwrap_err().message(),
        "Header does not contain signature bytes. ROM may be malformed or invalid"
    );
    assert_eq!(
        iNESHeader::retrieve_and_verify_header(&header_bad_read).unwrap_err().message(),
        "Error reading ROM header. ROM may be malformed"
    );
}

#[test]
fn header_test_get_ines_version() {
    let mut header = vec![0x4E, 0x45, 0x53, 0x1A, 0x01, 0x01, 0x00, 0x08, 0x00, 0x00, 0x00, 0x00, 0x00, 0x00, 0x00, 0x00];

    assert_eq!(iNESHeader::get_ines_version(&header), iNESVersion::iNES_2);

    header[7] = 0x04;
    assert_eq!(iNESHeader::get_ines_version(&header), iNESVersion::iNES_Archaic);

    header[7] = 0x00;
    assert_eq!(iNESHeader::get_ines_version(&header), iNESVersion::iNES_1);

    header[12] = 0x01;
    assert_eq!(iNESHeader::get_ines_version(&header), iNESVersion::Indeterminate);

    header[7] = 0x0C;
    assert_eq!(iNESHeader::get_ines_version(&header), iNESVersion::Indeterminate);
}

#[test]
fn header_test_get_screen_mirroring() {
    let mut header = vec![0x4E, 0x45, 0x53, 0x1A, 0x01, 0x01, 0x08, 0x08, 0x00, 0x00, 0x00, 0x00, 0x00, 0x00, 0x00, 0x00];

    assert_eq!(iNESHeader::get_screen_mirroring(&header), ScreenMirroring::FourScreen);

    header[6] = 0x01;
    assert_eq!(iNESHeader::get_screen_mirroring(&header), ScreenMirroring::Vertical);

    header[6] = 0x00;
    assert_eq!(iNESHeader::get_screen_mirroring(&header), ScreenMirroring::Horizontal);
}

#[test]
fn rom_test_retrieve_and_verify_header() {
    let header_clear = vec![0x4E, 0x45, 0x53, 0x1A, 0x01, 0x01, 0x00, 0x00, 0x00, 0x00, 0x00, 0x00, 0x00, 0x00, 0x00, 0x00];
    let header_bad_signature = vec![0x89, 0x45, 0x53, 0x1A, 0x01, 0x01, 0x00, 0x00, 0x00, 0x00, 0x00, 0x00, 0x00, 0x00, 0x00, 0x00];
    let header_bad_read: Vec<u8> = vec![];

    assert_eq!(iNESHeader::retrieve_and_verify_header(&header_clear).unwrap(), header_clear);
    assert_eq!(
        iNESHeader::retrieve_and_verify_header(&header_bad_signature).unwrap_err().message(),
        "Header does not contain signature bytes. ROM may be malformed or invalid"
    );
    assert_eq!(
        iNESHeader::retrieve_and_verify_header(&header_bad_read).unwrap_err().message(),
        "Error reading ROM header. ROM may be malformed"
    );
}

#[test]
fn rom_test_get_ines_version() {
    let mut header = vec![0x4E, 0x45, 0x53, 0x1A, 0x01, 0x01, 0x00, 0x08, 0x00, 0x00, 0x00, 0x00, 0x00, 0x00, 0x00, 0x00];

    assert_eq!(iNESHeader::get_ines_version(&header), iNESVersion::iNES_2);

    header[7] = 0x04;
    assert_eq!(iNESHeader::get_ines_version(&header), iNESVersion::iNES_Archaic);

    header[7] = 0x00;
    assert_eq!(iNESHeader::get_ines_version(&header), iNESVersion::iNES_1);

    header[12] = 0x01;
    assert_eq!(iNESHeader::get_ines_version(&header), iNESVersion::Indeterminate);

    header[7] = 0x0C;
    assert_eq!(iNESHeader::get_ines_version(&header), iNESVersion::Indeterminate);
}

#[test]
fn rom_test_get_screen_mirroring() {
    let mut header = vec![0x4E, 0x45, 0x53, 0x1A, 0x01, 0x01, 0x08, 0x08, 0x00, 0x00, 0x00, 0x00, 0x00, 0x00, 0x00, 0x00];

    assert_eq!(iNESHeader::get_screen_mirroring(&header), ScreenMirroring::FourScreen);

    header[6] = 0x01;
    assert_eq!(iNESHeader::get_screen_mirroring(&header), ScreenMirroring::Vertical);

    header[6] = 0x00;
    assert_eq!(iNESHeader::get_screen_mirroring(&header), ScreenMirroring::Horizontal);
}

#[test]
fn test_has_trainer() {
    let mut header = vec![0x4E, 0x45, 0x53, 0x1A, 0x01, 0x01, 0x00, 0x08, 0x00, 0x00, 0x00, 0x00, 0x00, 0x00, 0x00, 0x00];

    assert!(!iNESHeader::has_trainer(&header));

    header[6] = 0x04;
    assert!(iNESHeader::has_trainer(&header));
}

fn image(header: Vec<u8>, prg_pages: usize, chr_pages: usize) -> Vec<u8> {
    let mut image = header;
    image.extend(vec![1u8; prg_pages * 16384]);
    image.extend(vec![2u8; chr_pages * 8192]);
    image
}

#[test]
fn rom_from_bytes_splits_prg_and_chr() {
    let header = vec![0x4E, 0x45, 0x53, 0x1A, 0x02, 0x01, 0x01, 0, 0, 0, 0, 0, 0, 0, 0, 0];
    let rom = ROM::from_bytes(String::from("game"), &image(header, 2, 1)).unwrap();
    assert_eq!(rom.prg_rom.len(), 32768);
    assert_eq!(rom.chr_rom.len(), 8192);
    assert_eq!(rom.prg_rom[0], 1);
    assert_eq!(rom.chr_rom[0], 2);
    assert_eq!(rom.header.mirroring, ScreenMirroring::Vertical);
    assert_eq!(rom.name, "game");
    assert!(rom.has_chr_rom());
}

#[test]
fn rom_from_bytes_errors() {
    let header = vec![0x4E, 0x45, 0x53, 0x1A, 0x02, 0x01, 0x01, 0, 0, 0, 0, 0, 0, 0, 0, 0];
    assert_eq!(ROM::from_bytes(String::new(), &[0x4E, 0x45]).err(), Some(RomError::HeaderUnreadable));

    let mut bad = header.clone();
    bad[0] = 0;
    assert_eq!(ROM::from_bytes(String::new(), &image(bad, 2, 1)).err(), Some(RomError::MissingSignature));

    let mut archaic = header.clone();
    archaic[7] = 0x04;
    assert_eq!(ROM::from_bytes(String::new(), &image(archaic, 2, 1)).err(), Some(RomError::UnsupportedVersion));

    assert_eq!(ROM::from_bytes(String::new(), &image(header.clone(), 1, 1)).err(), Some(RomError::Truncated));

    let mut mapper_one = header.clone();
    mapper_one[6] = 0x11;
    let err = ROM::from_bytes(String::new(), &image(mapper_one, 2, 1)).err().unwrap();
    assert_eq!(err, RomError::UnsupportedMapper(1));
    assert_eq!(err.message(), "Mapper 1 not supported");
}

#[test]
fn rom_windowed_mapper_gets_prg_ram() {
    let header = vec![0x4E, 0x45, 0x53, 0x1A, 0x02, 0x00, 0x40, 0, 0, 0, 0, 0, 0, 0, 0, 0];
    let rom = ROM::from_bytes(String::new(), &image(header, 2, 0)).unwrap();
    assert_eq!(rom.header.mapper_id, 4);
    assert_eq!(rom.prg_ram.len(), 0x2000);
    assert_eq!(rom.chr_ram.len(), 0x2000);
}

#[test]
fn unsupported_mapper_message_digits() {
    assert_eq!(RomError::UnsupportedMapper(0).message(), "Mapper 0 not supported");
    assert_eq!(RomError::UnsupportedMapper(4095).message(), "Mapper 4095 not supported");
}
