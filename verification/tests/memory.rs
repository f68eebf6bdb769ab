use xchip::mmu::{Mmu, FONT, FONT_SIZE, MEMORY_SIZE, PROGRAM_START};

#[test]
fn new_bus_is_blank() {
    let m = Mmu::new();
    for k in 0..MEMORY_SIZE {
        assert_eq!(m.read(k), 0);
    }
}

#[test]
fn write_then_read_returns_the_byte() {
    let mut m = Mmu::new();
    m.write(0x123, 0xAB);
    assert_eq!(m.read(0x123), 0xAB);
    assert_eq!(m.read(0x122), 0);
    assert_eq!(m.read(0x124), 0);
}

#[test]
fn addresses_are_masked_to_twelve_bits() {
    let mut m = Mmu::new();
    m.write(0x1005, 7);
    assert_eq!(m.read(0x005), 7);
    assert_eq!(m.read(0x2005), 7);
    assert_eq!(m.read(0xF005), 7);
    m.write(usize::MAX, 9);
    assert_eq!(m.read(0xFFF), 9);
}

#[test]
fn every_address_is_accepted() {
    let mut m = Mmu::new();
    for k in 0..0x3_0000usize {
        m.write(k, (k / 4096) as u8 + 1);
        assert_eq!(m.read(k % 4096), (k / 4096) as u8 + 1);
    }
}

#[test]
fn load_places_program_at_its_start() {
    let mut m = Mmu::new();
    m.write(0x010, 0xEE);
    m.write(0xF00, 0xEE);
    m.load(&vec![1, 2, 3]);
    assert_eq!(m.read(PROGRAM_START), 1);
    assert_eq!(m.read(PROGRAM_START + 1), 2);
    assert_eq!(m.read(PROGRAM_START + 2), 3);
    assert_eq!(m.read(PROGRAM_START + 3), 0);
    assert_eq!(m.read(PROGRAM_START - 1), 0);
    assert_eq!(m.read(0x010), 0);
    assert_eq!(m.read(0xF00), 0);
}

#[test]
fn load_of_nothing_blanks_the_bus() {
    let mut m = Mmu::new();
    m.install_font();
    m.write(0x300, 5);
    m.load(&Vec::new());
    for k in 0..MEMORY_SIZE {
        assert_eq!(m.read(k), 0);
    }
}

#[test]
fn load_cuts_the_image_at_the_end_of_the_space() {
    let rom: Vec<u8> = (0..5000u32).map(|k| (k % 253) as u8 + 1).collect();
    let mut m = Mmu::new();
    m.load(&rom);
    assert_eq!(m.read(0x1FF), 0);
    for k in PROGRAM_START..MEMORY_SIZE {
        assert_eq!(m.read(k), rom[k - PROGRAM_START]);
    }
}

#[test]
fn install_font_writes_the_table_and_nothing_else() {
    let mut m = Mmu::new();
    for k in 0..MEMORY_SIZE {
        m.write(k, 0x55);
    }
    m.install_font();
    for k in 0..FONT_SIZE {
        assert_eq!(m.read(k), FONT[k]);
    }
    for k in FONT_SIZE..MEMORY_SIZE {
        assert_eq!(m.read(k), 0x55);
    }
}

#[test]
fn font_glyphs_have_the_expected_rows() {
    assert_eq!(FONT.len(), 80);
    assert_eq!(&FONT[0..5], &[0xF0, 0x90, 0x90, 0x90, 0xF0]);
    assert_eq!(&FONT[5..10], &[0x20, 0x60, 0x20, 0x20, 0x70]);
    assert_eq!(&FONT[35..40], &[0xF0, 0x10, 0x20, 0x40, 0x40]);
    assert_eq!(&FONT[75..80], &[0xF0, 0x80, 0xF0, 0x80, 0x80]);
    for byte in FONT.iter() {
        assert_eq!(byte & 0x0F, 0);
    }
}
