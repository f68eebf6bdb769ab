use xchip::display::{Pixel, Screen, CELLS, HEIGHT, PHASE_FULL, WIDTH};

fn lit_cells(screen: &Screen) -> Vec<(u8, u8)> {
    let mut cells = Vec::new();
    for y in 0..HEIGHT as u8 {
        for x in 0..WIDTH as u8 {
            if screen.pixel(x, y).lit {
                cells.push((x, y));
            }
        }
    }
    cells
}

fn fade(mut pixel: Pixel, ticks: usize) -> Pixel {
    for _ in 0..ticks {
        pixel = pixel.decay();
    }
    pixel
}

#[test]
fn default_pixel_is_off_at_the_start_of_its_fade() {
    assert_eq!(Pixel::default(), Pixel { lit: false, phase: 0 });
}

#[test]
fn blit_is_exclusive_or() {
    let off = Pixel { lit: false, phase: 4 };
    let on = Pixel { lit: true, phase: PHASE_FULL };
    assert_eq!(off.blit(false), Pixel { lit: false, phase: 4 });
    assert_eq!(off.blit(true), Pixel { lit: true, phase: PHASE_FULL });
    assert_eq!(on.blit(false), Pixel { lit: true, phase: PHASE_FULL });
    assert_eq!(on.blit(true), Pixel { lit: false, phase: 0 });
}

#[test]
fn blit_settles_a_pixel_that_stays_lit() {
    let fading_in = Pixel { lit: true, phase: 3 };
    assert_eq!(fading_in.blit(false), Pixel { lit: true, phase: PHASE_FULL });
}

#[test]
fn decay_moves_one_tick_and_stops_when_settled() {
    assert_eq!(Pixel { lit: false, phase: 0 }.decay(), Pixel { lit: false, phase: 1 });
    assert_eq!(Pixel { lit: false, phase: 9 }.decay(), Pixel { lit: false, phase: 10 });
    assert_eq!(Pixel { lit: false, phase: 10 }.decay(), Pixel { lit: false, phase: 10 });
    assert_eq!(Pixel { lit: true, phase: 10 }.decay(), Pixel { lit: true, phase: 10 });
    assert_eq!(Pixel { lit: true, phase: 2 }.decay(), Pixel { lit: true, phase: 3 });
}

#[test]
fn fade_out_opacity_falls_every_tick() {
    let start = Pixel { lit: true, phase: PHASE_FULL }.blit(true);
    let expected = [255u8, 230, 204, 179, 153, 128, 102, 76, 51, 25];
    for ticks in 0..10 {
        let pixel = fade(start, ticks);
        assert_eq!(pixel.phase as usize, ticks);
        assert_eq!(pixel.luma_value(), 0xFF);
        assert_eq!(pixel.opacity_value(), expected[ticks]);
        if ticks > 0 {
            assert!(pixel.opacity_value() < fade(start, ticks - 1).opacity_value());
        }
    }
}

#[test]
fn faded_pixel_is_dark_and_stays_so() {
    let start = Pixel { lit: false, phase: 0 };
    for ticks in 10..40 {
        let pixel = fade(start, ticks);
        assert_eq!(pixel, Pixel { lit: false, phase: PHASE_FULL });
        assert_eq!(pixel.luma_value(), 0x00);
        assert_eq!(pixel.opacity_value(), 0xFF);
    }
}

#[test]
fn lit_pixel_opacity_rises_with_its_phase() {
    let expected = [0u8, 25, 51, 76, 102, 128, 153, 179, 204, 230, 255];
    for phase in 0..=10u8 {
        let pixel = Pixel { lit: true, phase };
        assert_eq!(pixel.luma_value(), 0xFF);
        assert_eq!(pixel.opacity_value(), expected[phase as usize]);
    }
}

#[test]
fn new_screen_is_blank() {
    let screen = Screen::new();
    for y in 0..HEIGHT as u8 {
        for x in 0..WIDTH as u8 {
            assert_eq!(screen.pixel(x, y), Pixel { lit: false, phase: 0 });
        }
    }
}

#[test]
fn pixel_coordinates_wrap() {
    let mut screen = Screen::new();
    screen.draw(3, 2, &vec![0x80]);
    assert!(screen.pixel(3, 2).lit);
    assert!(screen.pixel(3 + 64, 2).lit);
    assert!(screen.pixel(3, 2 + 32).lit);
    assert!(screen.pixel(3 + 128, 2 + 64).lit);
    assert!(!screen.pixel(4, 2).lit);
}

#[test]
fn draw_sets_bits_most_significant_first() {
    let mut screen = Screen::new();
    let collision = screen.draw(8, 4, &vec![0b1010_0001, 0b0100_0000]);
    assert!(!collision);
    assert_eq!(lit_cells(&screen), vec![(8, 4), (10, 4), (15, 4), (9, 5)]);
    assert_eq!(screen.pixel(8, 4), Pixel { lit: true, phase: PHASE_FULL });
    assert_eq!(screen.pixel(9, 4), Pixel { lit: false, phase: 0 });
}

#[test]
fn draw_twice_restores_every_pixel() {
    let mut screen = Screen::new();
    screen.draw(1, 1, &vec![0xFF, 0x81, 0xFF]);
    let before = lit_cells(&screen);
    let sprite = vec![0xF0, 0x90, 0x90, 0x90, 0xF0];
    let first = screen.draw(0, 0, &sprite);
    assert!(first);
    assert_ne!(lit_cells(&screen), before);
    let second = screen.draw(0, 0, &sprite);
    assert!(second);
    assert_eq!(lit_cells(&screen), before);
}

#[test]
fn second_draw_on_blank_screen_reports_the_collision() {
    let mut screen = Screen::new();
    let sprite = vec![0x3C, 0xC3];
    assert!(!screen.draw(20, 10, &sprite));
    assert_eq!(lit_cells(&screen).len(), 8);
    assert!(screen.draw(20, 10, &sprite));
    assert!(lit_cells(&screen).is_empty());
    assert_eq!(screen.pixel(22, 10), Pixel { lit: false, phase: 0 });
}

#[test]
fn draw_of_empty_rows_reports_no_collision() {
    let mut screen = Screen::new();
    screen.draw(0, 0, &vec![0xFF]);
    assert!(!screen.draw(0, 0, &vec![0x00]));
    assert!(!screen.draw(0, 0, &Vec::new()));
    assert_eq!(lit_cells(&screen).len(), 8);
}

#[test]
fn draw_wraps_round_the_edges() {
    let mut screen = Screen::new();
    let collision = screen.draw(60, 30, &vec![0xFF, 0xFF]);
    assert!(!collision);
    let mut expected = Vec::new();
    for y in [30u8, 31] {
        for x in [0u8, 1, 2, 3, 60, 61, 62, 63] {
            expected.push((x, y));
        }
    }
    assert_eq!(lit_cells(&screen), expected);
}

#[test]
fn draw_wraps_rows_past_the_last_back_to_the_first() {
    let mut screen = Screen::new();
    screen.draw(60, 30, &vec![0x80, 0x80, 0x01, 0x01]);
    assert_eq!(lit_cells(&screen), vec![(3, 0), (3, 1), (60, 30), (60, 31)]);
}

#[test]
fn draw_takes_coordinates_modulo_the_grid() {
    let mut screen = Screen::new();
    screen.draw(64 + 5, 32 + 7, &vec![0x80]);
    assert_eq!(lit_cells(&screen), vec![(5, 7)]);
    screen.draw(255, 255, &vec![0xC0]);
    assert_eq!(lit_cells(&screen), vec![(5, 7), (0, 31), (63, 31)]);
}

#[test]
fn draw_accepts_a_sprite_as_tall_as_the_grid() {
    let mut screen = Screen::new();
    let sprite = vec![0x80; HEIGHT];
    assert!(!screen.draw(0, 5, &sprite));
    assert_eq!(lit_cells(&screen).len(), HEIGHT);
    for y in 0..HEIGHT as u8 {
        assert!(screen.pixel(0, y).lit);
    }
}

#[test]
fn draw_leaves_untouched_pixels_fading() {
    let mut screen = Screen::new();
    screen.decay();
    screen.decay();
    screen.draw(0, 0, &vec![0x80]);
    assert_eq!(screen.pixel(0, 0), Pixel { lit: true, phase: PHASE_FULL });
    assert_eq!(screen.pixel(1, 0), Pixel { lit: false, phase: 2 });
    assert_eq!(screen.pixel(9, 9), Pixel { lit: false, phase: 2 });
}

#[test]
fn clear_blanks_every_pixel() {
    let mut screen = Screen::new();
    screen.draw(10, 10, &vec![0xFF, 0xFF]);
    for _ in 0..5 {
        screen.decay();
    }
    screen.clear();
    for y in 0..HEIGHT as u8 {
        for x in 0..WIDTH as u8 {
            assert_eq!(screen.pixel(x, y), Pixel { lit: false, phase: 0 });
        }
    }
}

#[test]
fn screen_decay_ticks_every_pixel() {
    let mut screen = Screen::new();
    screen.draw(0, 0, &vec![0x80]);
    screen.decay();
    assert_eq!(screen.pixel(0, 0), Pixel { lit: true, phase: PHASE_FULL });
    assert_eq!(screen.pixel(1, 0), Pixel { lit: false, phase: 1 });
    assert_eq!(screen.pixel(63, 31), Pixel { lit: false, phase: 1 });
    for _ in 0..20 {
        screen.decay();
    }
    assert_eq!(screen.pixel(63, 31), Pixel { lit: false, phase: PHASE_FULL });
}

#[test]
fn render_lays_out_four_bytes_per_pixel() {
    let mut screen = Screen::new();
    for _ in 0..10 {
        screen.decay();
    }
    screen.draw(1, 0, &vec![0xC0]);
    screen.draw(2, 0, &vec![0x80]);
    screen.decay();
    screen.decay();
    let frame = screen.render().to_vec();
    assert_eq!(frame.len(), 4 * CELLS);
    // Column 0 was never lit and has settled: dark and opaque.
    assert_eq!(&frame[0..4], &[0x00, 0x00, 0x00, 0xFF]);
    // Column 1 is lit.
    assert_eq!(&frame[4..8], &[0xFF, 0xFF, 0xFF, 0xFF]);
    // Column 2 went out two ticks ago.
    assert_eq!(&frame[8..12], &[0xFF, 0xFF, 0xFF, 204]);
    // The last pixel of the grid.
    assert_eq!(&frame[4 * CELLS - 4..], &[0x00, 0x00, 0x00, 0xFF]);
    // The first pixel of the second row.
    assert_eq!(&frame[4 * WIDTH..4 * WIDTH + 4], &[0x00, 0x00, 0x00, 0xFF]);
}

#[test]
fn render_leaves_the_screen_as_it_was() {
    let mut screen = Screen::new();
    screen.draw(7, 7, &vec![0xAA]);
    let before = lit_cells(&screen);
    let first = screen.render().to_vec();
    let second = screen.render().to_vec();
    assert_eq!(first, second);
    assert_eq!(lit_cells(&screen), before);
}
