use gameboy_eink::naming::file_name;

#[test]
fn name_is_hex_sha256_with_png() {
    assert_eq!(
        file_name(b"abc"),
        "ba7816bf8f01cfea414140de5dae2223b00361a396177a9cb410ff61f20015ad.png"
    );
    assert_eq!(
        file_name(b""),
        "e3b0c44298fc1c149afbf4c8996fb92427ae41e4649b934ca495991b7852b855.png"
    );
}

#[test]
fn same_content_same_name_and_one_pixel_changes_it() {
    let mut canvas = vec![7u8; 4 * 64];
    let a = file_name(&canvas);
    let b = file_name(&canvas.clone());
    assert_eq!(a, b);
    canvas[100] = 8;
    assert_ne!(file_name(&canvas), a);
}
