use xchip::frame::{Core, ROM_LIMIT, STEPS_PER_FRAME};
use xchip::machine::Fault;

const NO_KEYS: [bool; 16] = [false; 16];

#[test]
fn frame_is_eight_instructions() {
    assert_eq!(STEPS_PER_FRAME, 8);
    assert_eq!(ROM_LIMIT, 0x800);
}

#[test]
fn new_core_shows_a_fading_blank_display() {
    let mut core = Core::new();
    assert_eq!(core.frame().to_vec(), vec![0xFFu8; 64 * 32 * 4]);
    let mut core = Core::default();
    assert_eq!(core.frame().len(), 64 * 32 * 4);
}

#[test]
fn run_next_runs_one_frame() {
    let mut core = Core::new();
    core.rom_insert(vec![
        0xA2, 0x14, // 200: LD I, 214
        0xD0, 0x11, // 202: DRW V0, V1, 1
        0x71, 0x01, // 204: ADD V1, 1
        0xD0, 0x11, // 206: DRW V0, V1, 1
        0x71, 0x01, // 208: ADD V1, 1
        0xD0, 0x11, // 20A: DRW V0, V1, 1
        0x71, 0x01, // 20C: ADD V1, 1
        0xD0, 0x11, // 20E: DRW V0, V1, 1
        0x71, 0x01, // 210: ADD V1, 1
        0x12, 0x12, // 212: JP 212
        0x80, // 214: the sprite
    ]);
    assert_eq!(core.run_next(NO_KEYS), Ok(()));
    // The frame ends with the fourth drawing. Every other pixel has faded
    // by eight ticks.
    let frame = core.frame().to_vec();
    for row in 0..4usize {
        assert_eq!(&frame[row * 256..row * 256 + 4], &[0xFF, 0xFF, 0xFF, 0xFF]);
        assert_eq!(&frame[row * 256 + 4..row * 256 + 8], &[0xFF, 0xFF, 0xFF, 51]);
    }
    assert_eq!(&frame[4 * 256..4 * 256 + 4], &[0xFF, 0xFF, 0xFF, 51]);
    assert_eq!(core.run_next(NO_KEYS), Ok(()));
    let frame = core.frame().to_vec();
    assert_eq!(&frame[0..4], &[0xFF, 0xFF, 0xFF, 0xFF]);
    assert_eq!(&frame[4..8], &[0x00, 0x00, 0x00, 0xFF]);
    assert_eq!(&frame[4 * 256..4 * 256 + 4], &[0x00, 0x00, 0x00, 0xFF]);
}

#[test]
fn run_next_stops_at_a_fault() {
    let mut core = Core::new();
    core.rom_insert(vec![0xA2, 0x08, 0xD0, 0x01, 0x00, 0x00, 0xFF, 0xFF, 0x80]);
    assert_eq!(core.run_next(NO_KEYS), Err(Fault::UnknownOpcode { hi: 0xFF, lo: 0xFF }));
    // Four steps have run: the rest of the display has faded by four ticks.
    let frame = core.frame().to_vec();
    assert_eq!(&frame[0..4], &[0xFF, 0xFF, 0xFF, 0xFF]);
    assert_eq!(&frame[4..8], &[0xFF, 0xFF, 0xFF, 153]);
}

#[test]
fn run_next_hands_the_keys_to_every_step() {
    let mut keys = [false; 16];
    keys[7] = true;
    let program = vec![
        0x60, 0x07, // 200: LD V0, 7
        0xE0, 0xA1, // 202: SKNP V0
        0x12, 0x08, // 204: JP 208
        0xFF, 0xFF, // 206: no instruction
        0x12, 0x08, // 208: JP 208
    ];
    let mut core = Core::new();
    core.rom_insert(program.clone());
    assert_eq!(core.run_next(keys), Ok(()));
    let mut core = Core::new();
    core.rom_insert(program);
    assert_eq!(core.run_next(NO_KEYS), Err(Fault::UnknownOpcode { hi: 0xFF, lo: 0xFF }));
}

#[test]
fn rom_insert_takes_at_most_the_limit() {
    // 200: JP 9FE. 9FE: the last word within the limit, blank. A00: a word
    // that is no instruction, but past the limit, and so not installed.
    let mut image = vec![0u8; ROM_LIMIT];
    image[0] = 0x19;
    image[1] = 0xFE;
    image.extend_from_slice(&[0xFF, 0xFF]);
    let mut core = Core::new();
    core.rom_insert(image);
    assert_eq!(core.run_next(NO_KEYS), Ok(()));
}

#[test]
fn rom_insert_keeps_the_last_byte_within_the_limit() {
    let mut image = vec![0u8; ROM_LIMIT];
    image[0] = 0x19;
    image[1] = 0xFE;
    image[ROM_LIMIT - 2] = 0xFF;
    image[ROM_LIMIT - 1] = 0xFF;
    let mut core = Core::new();
    core.rom_insert(image);
    assert_eq!(core.run_next(NO_KEYS), Err(Fault::UnknownOpcode { hi: 0xFF, lo: 0xFF }));
}

#[test]
fn rom_remove_blanks_memory() {
    let mut core = Core::new();
    core.rom_insert(vec![0xFF, 0xFF]);
    assert!(core.run_next(NO_KEYS).is_err());
    core.reset();
    core.rom_remove();
    assert_eq!(core.run_next(NO_KEYS), Ok(()));
}

#[test]
fn reset_starts_the_program_again() {
    let mut core = Core::new();
    core.rom_insert(vec![0x12, 0x02, 0x12, 0x04, 0xFF, 0xFF]);
    assert!(core.run_next(NO_KEYS).is_err());
    core.reset();
    let frame = core.frame().to_vec();
    assert_eq!(frame, vec![0xFFu8; 64 * 32 * 4]);
    assert_eq!(core.run_next(NO_KEYS), Err(Fault::UnknownOpcode { hi: 0xFF, lo: 0xFF }));
    let frame = core.frame().to_vec();
    assert_eq!(&frame[0..4], &[0xFF, 0xFF, 0xFF, 179]);
}
