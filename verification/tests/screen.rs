use rust_kilo::editor_refresh_screen;

#[test]
fn reset_is_clear_screen_then_cursor_home() {
    let bytes = editor_refresh_screen();
    assert_eq!(bytes, vec![0x1b, 0x5b, 0x32, 0x4a, 0x1b, 0x5b, 0x48]);
    assert_eq!(bytes.as_slice(), b"\x1b[2J\x1b[H");
}

#[test]
fn reset_is_the_same_every_time() {
    assert_eq!(editor_refresh_screen(), editor_refresh_screen());
    assert_eq!(editor_refresh_screen().len(), 7);
}
