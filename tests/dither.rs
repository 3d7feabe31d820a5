use embedded_graphics::prelude::Point;
use epd_waveshare::color::OctColor;
use gameboy_eink::dither::OctDither;
use gameboy_eink::palette::OctColorMap;
use gameboy_eink::raster::RgbRaster;
use image::Rgb;

fn gradient(width: u32, height: u32) -> RgbRaster {
    let mut pixels = Vec::new();
    for y in 0..height {
        for x in 0..width {
            pixels.push(Rgb([(x * 255 / width) as u8, (y * 255 / height) as u8, ((x + y) % 256) as u8]));
        }
    }
    RgbRaster { width, height, pixels }
}

#[test]
fn dithering_is_deterministic() {
    let a = OctDither::new_default(gradient(40, 30), Point::new(0, 0));
    let b = OctDither::new_default(gradient(40, 30), Point::new(0, 0));
    assert_eq!(a.buffer.pixels, b.buffer.pixels);
    assert_eq!(a.output().pixels, b.output().pixels);
}

#[test]
fn dithered_pixels_are_palette_colors() {
    let d = OctDither::new_default(gradient(33, 17), Point::new(0, 0));
    let map = OctColorMap::default_map();
    assert_eq!(d.buffer.pixels.len(), 33 * 17);
    for p in &d.buffer.pixels {
        assert!(map.colors.iter().any(|(_, c)| c == p));
    }
}

#[test]
fn dithering_mixes_colors_for_a_mid_tone() {
    let pixels = vec![Rgb([200, 60, 60]); 20 * 20];
    let d = OctDither::new_default(RgbRaster { width: 20, height: 20, pixels }, Point::new(0, 0));
    let first = d.buffer.pixels[0];
    assert!(d.buffer.pixels.iter().any(|p| *p != first));
}

#[test]
fn dithering_follows_floyd_steinberg() {
    let map = OctColorMap {
        colors: vec![(OctColor::Black, Rgb([0, 0, 0])), (OctColor::White, Rgb([255, 255, 255]))],
    };
    let pixels = vec![Rgb([100, 100, 100]); 4];
    let d = OctDither::new(RgbRaster { width: 2, height: 2, pixels }, map, Point::new(0, 0));
    // (0,0): 100 -> black, error 100 spreads 7/16 right, 5/16 down, 1/16 down-right.
    // (1,0): 143 -> white, error -112 spreads 3/16 down-left, 5/16 down.
    // (0,1): 131 - 21 = 110 -> black; (1,1): 106 - 35 = 71, plus 110 * 7 / 16 = 48 -> 119 -> black.
    assert_eq!(
        d.buffer.pixels,
        vec![Rgb([0, 0, 0]), Rgb([255, 255, 255]), Rgb([0, 0, 0]), Rgb([0, 0, 0])]
    );
}

#[test]
fn output_shows_tag_colors() {
    let pixels = vec![Rgb([250, 5, 5]); 4];
    let d = OctDither::new_default(RgbRaster { width: 2, height: 2, pixels }, Point::new(0, 0));
    let out = d.output();
    assert_eq!((out.width, out.height), (2, 2));
    assert!(out.pixels.iter().all(|p| *p == Rgb([255, 0, 0])));
}

#[test]
fn iter_places_pixels_row_major() {
    let pixels = vec![
        Rgb([0, 0, 0]),
        Rgb([255, 255, 255]),
        Rgb([0, 0, 0]),
        Rgb([0, 0, 0]),
        Rgb([255, 255, 255]),
        Rgb([0, 0, 0]),
    ];
    let map = OctColorMap {
        colors: vec![(OctColor::Black, Rgb([0, 0, 0])), (OctColor::White, Rgb([255, 255, 255]))],
    };
    let d = OctDither::new(RgbRaster { width: 3, height: 2, pixels }, map, Point::new(10, 20));
    let mut it = d.iter();
    let mut seen = Vec::new();
    while let Some((p, c)) = it.next() {
        seen.push((p, c));
    }
    assert_eq!(seen.len(), 6);
    assert_eq!(seen[0].0, Point::new(10, 20));
    assert_eq!(seen[2].0, Point::new(12, 20));
    assert_eq!(seen[3].0, Point::new(10, 21));
    assert_eq!(seen[5].0, Point::new(12, 21));
    assert_eq!(seen[0].1, OctColor::Black);
    assert_eq!(seen[1].1, OctColor::White);
    assert!(it.next().is_none());
}
