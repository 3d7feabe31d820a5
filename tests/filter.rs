use gameboy_eink::filter::{mask, to_luma, TransformKind, Transformable};
use gameboy_eink::raster::RgbaRaster;
use image::Rgba;

const FG: Rgba<u8> = Rgba([1, 2, 3, 255]);
const BG: Rgba<u8> = Rgba([9, 8, 7, 255]);
const CLEAR: Rgba<u8> = Rgba([0, 0, 0, 0]);

fn layer(pixels: Vec<Rgba<u8>>, width: u32) -> Transformable {
    let height = pixels.len() as u32 / width;
    Transformable::new(RgbaRaster { width, height, pixels })
}

#[test]
fn luma_uses_integer_srgb_weights() {
    let img = RgbaRaster {
        width: 3,
        height: 1,
        pixels: vec![Rgba([255, 255, 255, 0]), Rgba([255, 0, 0, 255]), Rgba([10, 20, 30, 255])],
    };
    // (2126 * 10 + 7152 * 20 + 722 * 30) / 10000 = 18
    assert_eq!(to_luma(&img), vec![255, 54, 18]);
}

#[test]
fn mask_clears_where_source_is_transparent() {
    let mut target = RgbaRaster { width: 3, height: 1, pixels: vec![FG, FG, FG] };
    let source = RgbaRaster {
        width: 3,
        height: 1,
        pixels: vec![Rgba([5, 5, 5, 0]), Rgba([5, 5, 5, 1]), Rgba([5, 5, 5, 255])],
    };
    mask(&mut target, &source);
    assert_eq!(target.pixels, vec![CLEAR, FG, FG]);
}

#[test]
fn mask_stops_at_shorter_raster() {
    let mut target = RgbaRaster { width: 3, height: 1, pixels: vec![FG, FG, FG] };
    let source = RgbaRaster { width: 1, height: 1, pixels: vec![Rgba([0, 0, 0, 0])] };
    mask(&mut target, &source);
    assert_eq!(target.pixels, vec![CLEAR, FG, FG]);
}

#[test]
fn edges_paint_edges_background_and_keep_silhouette() {
    let mut t = layer(vec![Rgba([1, 1, 1, 255]), Rgba([1, 1, 1, 0]), Rgba([1, 1, 1, 7]), Rgba([1, 1, 1, 0])], 2);
    t.edges(&vec![255, 255, 0, 0], FG, BG);
    let out = t.into_inner();
    assert_eq!(out.pixels, vec![BG, CLEAR, FG, CLEAR]);
    assert_eq!((out.width, out.height), (2, 2));
}

#[test]
fn noise_is_remasked_from_previous_alpha() {
    let mut t = layer(vec![Rgba([1, 1, 1, 0]), Rgba([1, 1, 1, 255])], 2);
    t.noise(vec![Rgba([40, 50, 60, 255]), Rgba([70, 80, 90, 255])]);
    assert_eq!(t.image.pixels, vec![CLEAR, Rgba([70, 80, 90, 255])]);
}

#[test]
fn overlay_edges_draws_opaque_foreground_on_edges_only() {
    let base = Rgba([100, 100, 100, 0]);
    let mut t = layer(vec![base, base, base, base], 2);
    t.overlay_edges(&vec![0, 255, 0, 1], Rgba([1, 2, 3, 40]));
    assert_eq!(t.image.pixels, vec![base, Rgba([1, 2, 3, 255]), base, Rgba([1, 2, 3, 255])]);
}

#[test]
fn threshold_compares_with_local_mean() {
    let black = Rgba([0, 0, 0, 255]);
    let white = Rgba([255, 255, 255, 255]);
    let mut t = layer(vec![black, white, black], 3);
    t.threshold(1, FG, BG);
    // means: (0 + 255) / 2 = 127, 255 / 3 = 85, 127; only the middle pixel reaches its mean
    assert_eq!(t.image.pixels, vec![FG, BG, FG]);
}

#[test]
fn threshold_keeps_transparent_pixels_transparent() {
    let mut t = layer(vec![Rgba([0, 0, 0, 0]), Rgba([255, 255, 255, 255]), Rgba([9, 9, 9, 0]), Rgba([3, 3, 3, 255])], 2);
    t.threshold(3, FG, BG);
    assert_eq!(t.image.pixels[0], CLEAR);
    assert_eq!(t.image.pixels[2], CLEAR);
    assert_eq!(t.image.pixels[1], BG);
}

#[test]
fn blur_replaces_pixels_alpha_included() {
    let mut t = layer(vec![Rgba([1, 1, 1, 0]), Rgba([1, 1, 1, 255])], 2);
    t.blur(vec![Rgba([3, 3, 3, 40]), Rgba([4, 4, 4, 200])]);
    assert_eq!(t.image.pixels, vec![Rgba([3, 3, 3, 40]), Rgba([4, 4, 4, 200])]);
}

#[test]
fn noise_has_five_times_the_weight() {
    let table = TransformKind::table();
    assert_eq!(
        table,
        vec![
            (1, TransformKind::Edges),
            (1, TransformKind::OverlayEdges),
            (5, TransformKind::Noise),
            (1, TransformKind::Threshold),
            (1, TransformKind::Blur),
        ]
    );
    assert_eq!(TransformKind::Noise.weight(), 5);
    assert_eq!(TransformKind::Blur.weight(), 1);
}
