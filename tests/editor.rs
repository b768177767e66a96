use hex_editor::{AppData, Editor, Effect, Nibble, Window};

fn session(bytes: Vec<u8>, offset: usize) -> AppData {
    let mut app = AppData::new(bytes);
    app.offset = offset;
    app
}

fn is_sync(e: &Effect) -> bool {
    matches!(e, Effect::Sync)
}

fn is_nothing(e: &Effect) -> bool {
    matches!(e, Effect::Nothing)
}

#[test]
fn new_session_starts_at_first_byte() {
    let app = AppData::new(vec![7, 8]);
    assert_eq!(app.contents, vec![7, 8]);
    assert_eq!(app.offset, 0);
    assert_eq!(app.nibble, Nibble::Beginning);
}

#[test]
fn focus_matches_own_pane() {
    assert!(Editor::Ascii.is_focusing(Window::Ascii));
    assert!(!Editor::Ascii.is_focusing(Window::Hex));
    assert!(Editor::Hex.is_focusing(Window::Hex));
    assert!(!Editor::Hex.is_focusing(Window::Ascii));
}

#[test]
fn ascii_left_floors_at_zero() {
    let mut app = session(vec![1, 2, 3], 1);
    assert!(is_sync(&Editor::Ascii.left(&mut app)));
    assert_eq!(app.offset, 0);
    assert!(is_nothing(&Editor::Ascii.left(&mut app)));
    assert_eq!(app.offset, 0);
}

#[test]
fn ascii_right_caps_at_last_byte() {
    let mut app = session(vec![1, 2, 3], 1);
    assert!(is_sync(&Editor::Ascii.right(&mut app)));
    assert_eq!(app.offset, 2);
    assert!(is_nothing(&Editor::Ascii.right(&mut app)));
    assert_eq!(app.offset, 2);
}

#[test]
fn hex_left_moves_only_from_high_half() {
    let mut app = session(vec![1, 2, 3], 1);
    app.nibble = Nibble::End;
    assert!(is_nothing(&Editor::Hex.left(&mut app)));
    assert_eq!((app.offset, app.nibble), (1, Nibble::Beginning));
    assert!(is_sync(&Editor::Hex.left(&mut app)));
    assert_eq!((app.offset, app.nibble), (0, Nibble::End));
}

#[test]
fn hex_left_at_first_byte_still_toggles() {
    let mut app = session(vec![1, 2, 3], 0);
    assert!(is_nothing(&Editor::Hex.left(&mut app)));
    assert_eq!((app.offset, app.nibble), (0, Nibble::End));
}

#[test]
fn hex_right_moves_only_from_low_half() {
    let mut app = session(vec![1, 2, 3], 1);
    assert!(is_nothing(&Editor::Hex.right(&mut app)));
    assert_eq!((app.offset, app.nibble), (1, Nibble::End));
    assert!(is_sync(&Editor::Hex.right(&mut app)));
    assert_eq!((app.offset, app.nibble), (2, Nibble::Beginning));
}

#[test]
fn hex_right_then_left_is_identity_inside() {
    for nibble in [Nibble::Beginning, Nibble::End] {
        let mut app = session(vec![0; 5], 2);
        app.nibble = nibble;
        Editor::Hex.right(&mut app);
        Editor::Hex.left(&mut app);
        assert_eq!((app.offset, app.nibble), (2, nibble));
        Editor::Hex.left(&mut app);
        Editor::Hex.right(&mut app);
        assert_eq!((app.offset, app.nibble), (2, nibble));
    }
}

#[test]
fn hex_right_then_left_clamped_at_end() {
    let mut app = session(vec![0; 3], 2);
    app.nibble = Nibble::End;
    Editor::Hex.right(&mut app);
    Editor::Hex.left(&mut app);
    assert_eq!((app.offset, app.nibble), (1, Nibble::End));
}

#[test]
fn up_and_down_near_edges_are_noops() {
    let mut app = session(vec![0; 5], 2);
    assert!(is_nothing(&Editor::Ascii.up(&mut app, 4)));
    assert_eq!(app.offset, 2);
    assert!(is_nothing(&Editor::Ascii.down(&mut app, 4)));
    assert_eq!(app.offset, 2);
}

#[test]
fn up_and_down_move_by_a_row() {
    let mut app = session(vec![0; 10], 1);
    assert!(is_sync(&Editor::Hex.down(&mut app, 4)));
    assert_eq!(app.offset, 5);
    assert!(is_sync(&Editor::Hex.down(&mut app, 4)));
    assert_eq!(app.offset, 9);
    assert!(is_nothing(&Editor::Hex.down(&mut app, 4)));
    assert!(is_sync(&Editor::Hex.up(&mut app, 4)));
    assert_eq!(app.offset, 5);
}

#[test]
fn home_then_end_on_a_row() {
    let mut app = session((0..10).collect(), 6);
    assert!(is_sync(&Editor::Ascii.home(&mut app, 4)));
    assert_eq!(app.offset, 4);
    assert!(is_sync(&Editor::Ascii.end(&mut app, 4)));
    assert_eq!(app.offset, 7);
}

#[test]
fn end_is_capped_at_last_byte() {
    let mut app = session((0..10).collect(), 8);
    Editor::Ascii.end(&mut app, 4);
    assert_eq!(app.offset, 9);
    assert!(is_nothing(&Editor::Ascii.end(&mut app, 4)));
}

#[test]
fn home_and_end_set_the_half_in_hex_pane() {
    let mut app = session((0..10).collect(), 5);
    Editor::Hex.end(&mut app, 4);
    assert_eq!((app.offset, app.nibble), (7, Nibble::End));
    Editor::Hex.home(&mut app, 4);
    assert_eq!((app.offset, app.nibble), (4, Nibble::Beginning));
    app.nibble = Nibble::End;
    Editor::Ascii.home(&mut app, 4);
    assert_eq!(app.nibble, Nibble::End);
}

#[test]
fn backspace_at_start_is_noop() {
    let mut app = session(vec![1, 2, 3], 0);
    assert!(is_nothing(&Editor::Ascii.backspace(&mut app)));
    assert_eq!(app.contents, vec![1, 2, 3]);
    assert_eq!(app.offset, 0);
}

#[test]
fn backspace_removes_byte_before_cursor() {
    let mut app = session(vec![1, 2, 3], 2);
    assert!(is_sync(&Editor::Hex.backspace(&mut app)));
    assert_eq!(app.contents, vec![1, 3]);
    assert_eq!(app.offset, 1);
}

#[test]
fn delete_single_byte_is_refused() {
    let mut app = session(vec![9], 0);
    assert!(is_nothing(&Editor::Ascii.delete(&mut app)));
    assert_eq!(app.contents, vec![9]);
    assert_eq!(app.offset, 0);
}

#[test]
fn delete_removes_byte_under_cursor() {
    let mut app = session(vec![1, 2, 3], 1);
    assert!(is_sync(&Editor::Ascii.delete(&mut app)));
    assert_eq!(app.contents, vec![1, 3]);
    assert_eq!(app.offset, 1);
}

#[test]
fn delete_last_byte_clamps_cursor() {
    let mut app = session(vec![1, 2, 3], 2);
    Editor::Ascii.delete(&mut app);
    assert_eq!(app.contents, vec![1, 2]);
    assert_eq!(app.offset, 1);
    Editor::Ascii.delete(&mut app);
    assert_eq!(app.contents, vec![1]);
    assert_eq!(app.offset, 0);
    Editor::Ascii.delete(&mut app);
    assert_eq!(app.contents, vec![1]);
}

#[test]
fn ascii_char_overwrites_and_advances() {
    let mut app = session(vec![0, 0], 0);
    assert!(is_sync(&Editor::Ascii.char(&mut app, 'A')));
    assert_eq!(app.contents, vec![0x41, 0]);
    assert_eq!(app.offset, 1);
    Editor::Ascii.char(&mut app, 'z');
    assert_eq!(app.contents, vec![0x41, 0x7a]);
    assert_eq!(app.offset, 1);
}

#[test]
fn ascii_char_keeps_low_byte_of_code_point() {
    let mut app = session(vec![0], 0);
    Editor::Ascii.char(&mut app, '\u{0141}');
    assert_eq!(app.contents, vec![0x41]);
}

#[test]
fn two_hex_digits_fill_a_byte() {
    let mut app = session(vec![0x00], 0);
    assert!(is_sync(&Editor::Hex.char(&mut app, 'A')));
    assert_eq!(app.contents, vec![0xA0]);
    assert_eq!(app.nibble, Nibble::End);
    Editor::Hex.char(&mut app, '5');
    assert_eq!(app.contents, vec![0xA5]);
    assert_eq!(app.offset, 0);
    assert_eq!(app.nibble, Nibble::Beginning);
}

#[test]
fn hex_digits_keep_the_other_half() {
    let mut app = session(vec![0x3c, 0x00], 0);
    Editor::Hex.char(&mut app, 'f');
    assert_eq!(app.contents, vec![0xfc, 0x00]);
    Editor::Hex.char(&mut app, '1');
    assert_eq!(app.contents, vec![0xf1, 0x00]);
    assert_eq!((app.offset, app.nibble), (1, Nibble::Beginning));
}

#[test]
fn hex_digit_equal_to_half_changes_nothing() {
    let mut app = session(vec![0xab], 0);
    assert!(is_nothing(&Editor::Hex.char(&mut app, 'A')));
    assert_eq!(app.contents, vec![0xab]);
    assert_eq!(app.nibble, Nibble::End);
}

#[test]
fn invalid_hex_digit_warns() {
    let mut app = session(vec![0x00], 0);
    match Editor::Hex.char(&mut app, 'G') {
        Effect::Warning(m) => assert!(m.contains("Invalid Hex: G")),
        other => panic!("expected a warning, got {:?}", other),
    }
    assert_eq!(app.contents, vec![0x00]);
    assert_eq!((app.offset, app.nibble), (0, Nibble::Beginning));
}

#[test]
fn enter_changes_nothing() {
    let mut app = session(vec![1, 2], 1);
    assert!(is_nothing(&Editor::Hex.enter(&mut app)));
    assert_eq!(app.contents, vec![1, 2]);
    assert_eq!(app.offset, 1);
}

#[test]
fn cursor_stays_in_buffer_over_many_commands() {
    let mut app = session((0..7).collect(), 3);
    for step in 0..200usize {
        let editor = if step % 3 == 0 { Editor::Hex } else { Editor::Ascii };
        match step % 9 {
            0 => { editor.left(&mut app); }
            1 => { editor.right(&mut app); }
            2 => { editor.up(&mut app, 3); }
            3 => { editor.down(&mut app, 3); }
            4 => { editor.home(&mut app, 3); }
            5 => { editor.end(&mut app, 3); }
            6 => { editor.backspace(&mut app); }
            7 => { editor.delete(&mut app); }
            _ => { editor.char(&mut app, 'b'); }
        }
        assert!(!app.contents.is_empty());
        assert!(app.offset < app.contents.len());
    }
}
