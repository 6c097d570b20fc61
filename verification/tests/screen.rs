use uncl::screen::ScreenModel;

#[test]
fn new_screen_has_the_size_asked_for() {
    let screen = ScreenModel::new(24, 80);
    assert_eq!(screen.size(), (24, 80));
    assert_eq!(screen.snapshot().size(), (24, 80));
    assert_eq!(screen.contents(), "");
}

#[test]
fn smallest_screen() {
    let mut screen = ScreenModel::new(2, 3);
    assert_eq!(screen.size(), (2, 3));
    screen.process("a\u{17d8}".as_bytes());
    screen.process("ab\u{4e16}cd\r\n\u{4e16}\u{17d8}\u{301}e\u{17d8}\u{17d8}".as_bytes());
    assert_eq!(screen.size(), (2, 3));
}

#[test]
fn widest_screen() {
    let mut screen = ScreenModel::new(2, 65527);
    screen.process(b"\x1b[65535G\tx\t\ty");
    assert_eq!(screen.size(), (2, 65527));
}

#[test]
fn processed_text_shows_on_the_screen() {
    let mut screen = ScreenModel::new(24, 80);
    screen.process(b"hello");
    assert_eq!(screen.contents(), "hello");
    screen.process(b"\r\nworld");
    assert_eq!(screen.contents(), "hello\nworld");
    assert_eq!(screen.size(), (24, 80));
}

#[test]
fn escape_sequence_in_one_chunk_is_not_text() {
    let mut screen = ScreenModel::new(24, 80);
    screen.process(b"\x1b[31mred\x1b[0m");
    assert_eq!(screen.contents(), "red");
}

#[test]
fn resize_changes_the_size() {
    let mut screen = ScreenModel::new(24, 80);
    screen.process(b"hello");
    screen.resize(10, 40);
    assert_eq!(screen.size(), (10, 40));
    assert_eq!(screen.snapshot().size(), (10, 40));
    screen.resize(50, 132);
    assert_eq!(screen.size(), (50, 132));
}

#[test]
fn resize_to_a_size_no_screen_can_have_is_dropped() {
    let mut screen = ScreenModel::new(24, 80);
    screen.process(b"kept");
    for (rows, cols) in [(0u16, 80u16), (1, 80), (24, 0), (24, 2), (0, 0), (24, 65528), (24, u16::MAX)] {
        screen.resize(rows, cols);
        assert_eq!(screen.size(), (24, 80));
        assert_eq!(screen.contents(), "kept");
    }
    screen.resize(2, 3);
    assert_eq!(screen.size(), (2, 3));
    screen.resize(2, 65527);
    assert_eq!(screen.size(), (2, 65527));
}

#[test]
fn shrinking_keeps_the_text_that_fits() {
    let mut screen = ScreenModel::new(24, 80);
    screen.process(b"hello\r\nworld");
    screen.resize(10, 40);
    assert_eq!(screen.size(), (10, 40));
    assert_eq!(screen.contents(), "hello\nworld");
}

#[test]
fn growing_keeps_the_text() {
    let mut screen = ScreenModel::new(10, 10);
    screen.process(b"hello");
    screen.resize(24, 80);
    assert_eq!(screen.size(), (24, 80));
    assert_eq!(screen.contents(), "hello");
}

#[test]
fn saved_cursor_below_a_shrunk_screen_does_no_harm() {
    let mut screen = ScreenModel::new(24, 80);
    screen.process(b"\x1b[24;80H\x1b7");
    screen.resize(10, 10);
    screen.process(b"\x1b8text that wraps over the edge");
    assert_eq!(screen.size(), (10, 10));
    screen.resize(2, 3);
    screen.process(b"\x1b8more");
    assert_eq!(screen.size(), (2, 3));
}

#[test]
fn wide_character_cut_by_a_shrink_does_no_harm() {
    let mut screen = ScreenModel::new(10, 10);
    screen.process("\x1b[1;9H\u{4e16}".as_bytes());
    screen.resize(10, 9);
    screen.process("\x1b[1;9H\u{754c}\x1b[1;8H\u{4e16}x".as_bytes());
    assert_eq!(screen.size(), (10, 9));
}

#[test]
fn alternate_screen_across_a_shrink_does_no_harm() {
    let mut screen = ScreenModel::new(24, 80);
    screen.process(b"\x1b[20;70Hdeep\x1b[?1049h\x1b[24;1Halt");
    screen.resize(5, 5);
    screen.process(b"\x1b[?1049lback\x1b[?1049h\x1b[?1049l");
    assert_eq!(screen.size(), (5, 5));
}

#[test]
fn snapshot_shows_what_the_screen_holds() {
    let mut screen = ScreenModel::new(12, 40);
    screen.process(b"first\r\nsecond");
    assert_eq!(screen.snapshot().size(), screen.size());
    assert_eq!(screen.snapshot().contents(), "first\nsecond");
    assert_eq!(screen.snapshot().contents(), screen.contents());
    screen.resize(6, 20);
    assert_eq!(screen.snapshot().size(), (6, 20));
    assert_eq!(screen.snapshot().contents(), screen.contents());
}

#[test]
fn same_bytes_on_the_same_screen_give_the_same_text() {
    let mut one = ScreenModel::new(10, 20);
    let mut two = ScreenModel::new(10, 20);
    let bytes = b"\x1b[2;3Hab\x1b[1mcd\r\nwrap wrap wrap wrap wrap wrap";
    one.process(bytes);
    two.process(bytes);
    assert_eq!(one.contents(), two.contents());
    assert_ne!(one.contents(), "");
}
