use epd_waveshare::color::OctColor;
use gameboy_eink::palette::OctColorMap;
use image::Rgb;

#[test]
fn nearest_color_prefers_first_on_tie() {
    let map = OctColorMap {
        colors: vec![(OctColor::Red, Rgb([10, 0, 0])), (OctColor::Blue, Rgb([0, 10, 0]))],
    };
    assert_eq!(map.index_of(&Rgb([5, 5, 0])), 0);
    assert_eq!(map.index_of(&Rgb([0, 9, 0])), 1);
}

#[test]
fn nearest_color_minimises_l1_distance() {
    let map = OctColorMap::default_map();
    let l1 = |a: &Rgb<u8>, b: &Rgb<u8>| -> u32 {
        (0..3).map(|k| (a.0[k] as i32 - b.0[k] as i32).unsigned_abs()).sum()
    };
    for r in (0..=255).step_by(17) {
        for g in (0..=255).step_by(51) {
            for b in (0..=255).step_by(85) {
                let c = Rgb([r as u8, g as u8, b as u8]);
                let i = map.index_of(&c);
                let d = l1(&map.colors[i].1, &c);
                for (j, (_, e)) in map.colors.iter().enumerate() {
                    assert!(d <= l1(e, &c));
                    if j < i {
                        assert!(d < l1(e, &c));
                    }
                }
            }
        }
    }
}

#[test]
fn default_palette_order_and_colors() {
    let map = OctColorMap::default_map();
    let expected = [
        (OctColor::HiZ, [0x80, 0x80, 0x80]),
        (OctColor::White, [0xff, 0xff, 0xff]),
        (OctColor::Black, [0, 0, 0]),
        (OctColor::Red, [0xff, 0, 0]),
        (OctColor::Green, [0, 0xff, 0]),
        (OctColor::Orange, [0xff, 0x80, 0]),
        (OctColor::Blue, [0, 0, 0xff]),
        (OctColor::Yellow, [0xff, 0xff, 0]),
    ];
    assert_eq!(map.colors.len(), 8);
    for (entry, (tag, rgb)) in map.colors.iter().zip(expected.iter()) {
        assert_eq!(entry.0, *tag);
        assert_eq!(entry.1, Rgb(*rgb));
    }
}

#[test]
fn exact_match_selects_that_entry() {
    let map = OctColorMap::default_map();
    assert_eq!(map.index_of(&Rgb([0, 0, 0])), 2);
    assert_eq!(map.index_of(&Rgb([255, 128, 0])), 5);
    assert_eq!(map.index_of(&Rgb([128, 128, 128])), 0);
    assert_eq!(map.index_of(&Rgb([250, 250, 5])), 7);
}

#[test]
fn map_color_replaces_by_nearest() {
    let map = OctColorMap::default_map();
    let mut c = Rgb([10, 240, 20]);
    map.map_color(&mut c);
    assert_eq!(c, Rgb([0, 255, 0]));
}

#[test]
fn bar_layout_cycles_palette_from_offset() {
    let bars = gameboy_eink::palette::bar_layout(3, 600);
    assert_eq!(bars.len(), 8);
    let xs: Vec<i32> = bars.iter().map(|b| b.x).collect();
    assert_eq!(xs, vec![0, 75, 150, 225, 300, 375, 450, 525]);
    assert!(bars.iter().all(|b| b.width == 75));
    assert_eq!(bars[0].color, OctColor::Red);
    assert_eq!(bars[4].color, OctColor::Yellow);
    assert_eq!(bars[5].color, OctColor::HiZ);
    assert_eq!(bars[7].color, OctColor::Black);
}
