use embedded_graphics::prelude::Point;
use gameboy_eink::qr::QrCode;

#[test]
fn qr_blocks_cover_code_and_quiet_zone() {
    let q = QrCode::new(Point::new(3, 5), 2, 'x', '.', b"http://host:7777/gameboy/a.png").unwrap();
    let w = q.width;
    assert!(w >= 21);
    let blocks = q.draw();
    let side = w + 8;
    assert_eq!(blocks.len(), side * side);
    assert_eq!(blocks[0].top_left, Point::new(3, 5));
    assert_eq!(blocks[1].top_left, Point::new(5, 5));
    assert_eq!(blocks[side].top_left, Point::new(3, 7));
    assert!(blocks.iter().all(|b| b.size == 2));
    // the quiet zone is light; the finder pattern's corner is dark
    assert_eq!(blocks[0].color, '.');
    assert_eq!(blocks[4 * side + 4].color, 'x');
    let dark = blocks.iter().filter(|b| b.color == 'x').count();
    assert_eq!(dark, q.modules.iter().filter(|m| **m).count());
}

#[test]
fn qr_rejects_data_that_is_too_long() {
    let data = vec![0xA5u8; 8000];
    assert!(QrCode::new(Point::new(0, 0), 1, 1u8, 0u8, &data).is_none());
}

#[test]
fn qr_translate_moves_the_code() {
    let q = QrCode::new(Point::new(0, 0), 1, 1u8, 0u8, b"hello").unwrap();
    let moved = q.translate(Point::new(4, -2));
    assert_eq!(moved.top_left, Point::new(4, -2));
    assert_eq!(moved.modules, q.modules);
    let mut m = q;
    m.translate_mut(Point::new(1, 1));
    assert_eq!(m.top_left, Point::new(1, 1));
}
