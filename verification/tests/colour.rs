use ray_tracer::colour::{Colour, Pixel};
use ray_tracer::scalar::Scalar;

fn s(x: f64) -> Scalar {
    Scalar::from_bits(x.to_bits())
}

fn f(x: Scalar) -> f64 {
    f64::from_bits(x.to_bits())
}

// The text of the sum of `samples` samples: the average and the square root
// are taken here, the rest is the library's but for the product with 256.
fn render(r: f64, g: f64, b: f64, samples: u32) -> String {
    let n = samples as f64;
    let corrected = Colour::new(s((r / n).powf(0.5)), s((g / n).powf(0.5)), s((b / n).powf(0.5)));
    let shown = corrected.clamp();
    let scaled = Colour::new(s(256.0 * f(shown.r)), s(256.0 * f(shown.g)), s(256.0 * f(shown.b)));
    Pixel::quantise(scaled).render()
}

// The same in one formula.
fn channel(c: f64, samples: u32) -> u64 {
    (256.0 * (c / (samples as f64)).powf(0.5).clamp(0.0, 0.999)) as u64
}

#[test]
fn colour_test_colours() {
    assert_eq!(render(0.8, 0.2, 0.3, 1), String::from("228 114 140"));
}

#[test]
fn pixels_are_those_of_the_formula() {
    let values = [
        0.0, -0.0, 1e-12, 0.001, 0.01, 0.1, 0.2, 0.25, 0.3, 0.5, 0.8, 0.9, 0.99, 0.998, 0.999, 1.0,
        1.5, 2.0, 4.0, 100.0, 1e300, f64::INFINITY, -0.5, -1.0, f64::NEG_INFINITY, f64::NAN,
    ];
    for samples in [1, 2, 3, 10, 100] {
        for r in values {
            for g in [0.0, 0.3, 7.0] {
                let expected = format!("{} {} {}", channel(r, samples), channel(g, samples), channel(r * g, samples));
                assert_eq!(render(r, g, r * g, samples), expected, "{r} {g} {samples}");
            }
        }
    }
}

#[test]
fn every_channel_value_is_reached() {
    for k in 0..=255u32 {
        let least = (k as f64 / 256.0).powi(2);
        assert_eq!(render(least * 1.000_000_1, 0.0, 0.0, 1), format!("{} 0 0", k));
    }
}

#[test]
fn channels_are_kept_between_nought_and_just_below_one() {
    let shown = Colour::new(s(-0.25), s(0.5), s(1.25)).clamp();
    assert_eq!(shown, Colour::new(s(0.0), s(0.5), s(0.999)));
    let shown = Colour::new(s(0.0), s(0.999), s(f64::INFINITY)).clamp();
    assert_eq!(shown, Colour::new(s(0.0), s(0.999), s(0.999)));
    let shown = Colour::new(s(f64::NEG_INFINITY), s(-0.0), s(1.0)).clamp();
    assert_eq!(shown, Colour::new(s(0.0), s(-0.0), s(0.999)));
    assert_eq!(ray_tracer::colour::SHOWN_MAX_BITS, 0.999f64.to_bits());
}

#[test]
fn channel_that_is_no_number_is_shown_black() {
    let shown = Colour::new(s(f64::NAN), s(0.5), s(0.5)).clamp();
    assert!(f(shown.r).is_nan());
    assert_eq!(Pixel::quantise(shown).r, 0);
}

#[test]
fn quantising_drops_what_is_behind_the_point() {
    let p = Pixel::quantise(Colour::new(s(0.999), s(1.0), s(1.999)));
    assert_eq!(p, Pixel::new(0, 1, 1));
    let p = Pixel::quantise(Colour::new(s(255.0), s(255.744), s(255.999_999)));
    assert_eq!(p, Pixel::new(255, 255, 255));
    let p = Pixel::quantise(Colour::new(s(256.0), s(1e9), s(f64::INFINITY)));
    assert_eq!(p, Pixel::new(255, 255, 255));
    let p = Pixel::quantise(Colour::new(s(-1.0), s(-0.0), s(f64::NEG_INFINITY)));
    assert_eq!(p, Pixel::new(0, 0, 0));
}

#[test]
fn pixel_text_is_three_numerals() {
    assert_eq!(Pixel::new(0, 0, 0).render(), "0 0 0");
    assert_eq!(Pixel::new(255, 255, 255).render(), "255 255 255");
    assert_eq!(Pixel::new(1, 20, 100).render(), "1 20 100");
    assert_eq!(Pixel { r: 9, g: 10, b: 99 }.render(), "9 10 99");
}

#[test]
fn pixel_text_is_appended() {
    let mut out = String::from("P3\n");
    Pixel::new(7, 8, 9).push_text(&mut out);
    assert_eq!(out, "P3\n7 8 9");
}

#[test]
fn every_channel_value_is_written_as_the_standard_library_does() {
    for n in 0..=255u8 {
        assert_eq!(Pixel::new(n, 255 - n, n / 2).render(), format!("{} {} {}", n, 255 - n, n / 2));
    }
}

#[test]
fn colour_keeps_its_channels() {
    let c = Colour::new(s(0.7), s(0.6), s(0.5));
    assert_eq!(c, Colour { r: s(0.7), g: s(0.6), b: s(0.5) });
}

#[test]
fn white_is_one_in_each_channel() {
    let w = Colour::white();
    assert_eq!((w.r, w.g, w.b), (s(1.0), s(1.0), s(1.0)));
}
