use oxidenes::video::render_frame;

#[test]
fn pixels_become_three_bytes() {
    let mut screen = vec![0u32; 256 * 240];
    screen[0] = 0x00123456;
    screen[1] = 0x00FFEEDD;
    screen[255] = 0x00010203;
    screen[256] = 0x00A0B0C0;
    screen[239 * 256 + 255] = 0x00FF00FF;
    let pitch = 800;
    let mut buffer = vec![0x77u8; 240 * pitch + 5];
    render_frame(&screen, &mut buffer, pitch);
    assert_eq!(buffer[0..6], [0x12, 0x34, 0x56, 0xFF, 0xEE, 0xDD]);
    assert_eq!(buffer[765..768], [0x01, 0x02, 0x03]);
    assert_eq!(buffer[pitch..pitch + 3], [0xA0, 0xB0, 0xC0]);
    assert_eq!(buffer[239 * pitch + 765..239 * pitch + 768], [0xFF, 0x00, 0xFF]);
    // Every other pixel is black, and what lies between and behind the rows stays.
    assert_eq!(buffer[6..9], [0, 0, 0]);
    for row in 0..240 {
        assert!(buffer[row * pitch + 768..(row + 1) * pitch].iter().all(|b| *b == 0x77));
    }
    assert_eq!(buffer[240 * pitch..], [0x77; 5]);
    assert_eq!(buffer.len(), 240 * pitch + 5);
}

#[test]
fn tight_rows() {
    let screen: Vec<u32> = (0..256 * 240u32).map(|i| i * 251).collect();
    let mut buffer = vec![0u8; 240 * 768];
    render_frame(&screen, &mut buffer, 768);
    for (i, pixel) in screen.iter().enumerate() {
        assert_eq!(buffer[3 * i], (pixel >> 16) as u8);
        assert_eq!(buffer[3 * i + 1], (pixel >> 8) as u8);
        assert_eq!(buffer[3 * i + 2], *pixel as u8);
    }
}
