use float_cmp::ApproxEqUlps;
use xchip::display::Pixel;

/// The fade in floating point: a phase between 0 and 1 that moves on by a
/// tenth with every tick.
struct Analog {
    lit: bool,
    phase: f32,
}

impl Analog {
    fn tick(&mut self) {
        if self.phase < 1.0 {
            self.phase += 0.1;
        }
    }

    fn luma(&self) -> u8 {
        if self.lit || self.phase < 1.0 {
            0xFF
        } else {
            0x00
        }
    }

    fn opacity(&self) -> u8 {
        if self.phase.approx_eq_ulps(&1.0, 2) {
            0xFF
        } else if self.lit {
            (self.phase * 256.0) as u8
        } else {
            ((1.0 - self.phase) * 256.0) as u8
        }
    }
}

#[test]
fn whole_ticks_fade_like_tenths_of_a_real_phase() {
    for lit in [false, true] {
        let mut analog = Analog { lit, phase: 0.0 };
        let mut pixel = Pixel { lit, phase: 0 };
        for tick in 0..=10 {
            assert_eq!(pixel.phase, tick);
            assert_eq!(pixel.luma_value(), analog.luma(), "tick {}", tick);
            assert_eq!(pixel.opacity_value(), analog.opacity(), "tick {}", tick);
            analog.tick();
            pixel = pixel.decay();
        }
    }
}

#[test]
fn settled_pixel_matches_a_phase_of_one() {
    for lit in [false, true] {
        let analog = Analog { lit, phase: 1.0 };
        let pixel = Pixel { lit, phase: 10 };
        assert_eq!(pixel.luma_value(), analog.luma());
        assert_eq!(pixel.opacity_value(), analog.opacity());
        assert_eq!(pixel.decay(), pixel);
    }
}
