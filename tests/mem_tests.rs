use ferricom::mem::Membank;

#[test]
fn get_bank() {
    let size = 128 * 1024;
    let banks = Membank::new(0x8000, 0xFFFF, size, 0x4000);
    assert_eq!(banks.get_bank(0x8000), 0);
    assert_eq!(banks.get_bank(0x9FFF), 0);
    assert_eq!(banks.get_bank(0xA000), 0);
    assert_eq!(banks.get_bank(0xBFFF), 0);
    assert_eq!(banks.get_bank(0xC000), 1);
    assert_eq!(banks.get_bank(0xDFFF), 1);
    assert_eq!(banks.get_bank(0xE000), 1);
    assert_eq!(banks.get_bank(0xFFFF), 1);
}

#[test]
fn bank_translate() {
    let size = 128 * 1024;
    let mut banks = Membank::new(0x8000, 0xFFFF, size, 0x2000);

    let last_bank = banks.last();
    assert_eq!(last_bank, 15, "bank count");

    assert_eq!(banks.translate(0x8000), 0x0000);
    banks.set(0, 1);
    assert_eq!(banks.translate(0x8000), 0x2000);
    banks.set(0, 2);
    assert_eq!(banks.translate(0x8000), 0x4000);
    banks.set(0, 0);
    assert_eq!(banks.translate(0x8000), 0x0000);
    banks.set(0, banks.last());
    assert_eq!(banks.translate(0x8000), 0x1E000);
}
