use jamos::drivers::keyboard::{Key, KeyEvent};
use jamos::editor::buffer::EditorAction;
use jamos::editor::TextEditor;
use jamos::terminal::Screen;

fn key(k: Key) -> KeyEvent {
    KeyEvent { key: k, meta: false, ctrl: false, shift: false }
}

fn ctrl(c: u8) -> KeyEvent {
    KeyEvent { key: Key::Char(c), meta: false, ctrl: true, shift: false }
}

#[test]
fn typing_inserts_at_cursor() {
    let mut ed = TextEditor::new();
    for &c in b"acd" {
        ed.insert_char(c);
    }
    assert!(ed.move_cursor_left());
    assert!(ed.move_cursor_left());
    ed.insert_char(b'b');
    assert_eq!(ed.get_content(), b"abcd");
    assert!(ed.is_modified());
}

#[test]
fn backspace_erases_before_cursor() {
    let mut ed = TextEditor::new();
    ed.load_content(b"hello");
    assert!(!ed.is_modified());
    assert!(ed.move_cursor_left());
    assert!(ed.delete_char());
    assert_eq!(ed.get_content(), b"helo");
    assert!(ed.is_modified());
    let mut start = TextEditor::new();
    start.load_content(b"x");
    assert!(start.move_cursor_left());
    assert!(!start.delete_char());
    assert_eq!(start.get_content(), b"x");
}

#[test]
fn cursor_stops_at_both_ends() {
    let mut ed = TextEditor::new();
    assert!(!ed.move_cursor_left());
    assert!(!ed.move_cursor_right());
    ed.load_content(b"ab");
    assert!(!ed.move_cursor_right());
    assert!(ed.move_cursor_left());
    assert!(ed.move_cursor_right());
}

#[test]
fn load_is_cut_to_buffer_size() {
    let mut ed = TextEditor::new();
    let data = vec![b'q'; 3000];
    ed.load_content(&data);
    assert_eq!(ed.get_content().len(), 2048);
    ed.insert_char(b'z');
    assert_eq!(ed.get_content().len(), 2048);
    assert!(!ed.is_modified());
}

#[test]
fn mark_saved_clears_modified() {
    let mut ed = TextEditor::new();
    ed.insert_char(b'a');
    assert!(ed.is_modified());
    ed.mark_saved();
    assert!(!ed.is_modified());
}

#[test]
fn file_name_shown_only_when_text() {
    let mut ed = TextEditor::new();
    ed.set_filename("notes.txt");
    assert_eq!(ed.get_filename(), "notes.txt");
    ed.set_filename(&"x".repeat(40));
    assert_eq!(ed.get_filename(), "x".repeat(32));
    // a two-byte character cut in half by the 32-byte limit is not text
    let name = format!("{}é", "a".repeat(31));
    ed.set_filename(&name);
    assert_eq!(ed.get_filename(), "");
}

#[test]
fn save_and_quit_chords() {
    let mut ed = TextEditor::new();
    let mut screen = Screen::empty();
    assert_eq!(ed.handle_key(&ctrl(b's'), &mut screen), EditorAction::Save);
    assert_eq!(ed.handle_key(&ctrl(b'S'), &mut screen), EditorAction::Save);
    assert_eq!(ed.handle_key(&ctrl(b'q'), &mut screen), EditorAction::Quit);
    assert_eq!(ed.handle_key(&ctrl(b'X'), &mut screen), EditorAction::SaveAndQuit);
    assert!(screen.output().is_empty());
    assert_eq!(ed.handle_key(&key(Key::Char(b's')), &mut screen), EditorAction::Continue);
    assert_eq!(ed.get_content(), b"s");
}

#[test]
fn keys_edit_and_redraw() {
    let mut ed = TextEditor::new();
    ed.set_filename("f");
    let mut screen = Screen::empty();
    assert_eq!(ed.handle_key(&key(Key::Char(b'h')), &mut screen), EditorAction::Continue);
    assert_eq!(ed.handle_key(&key(Key::Enter), &mut screen), EditorAction::Continue);
    assert_eq!(ed.get_content(), b"h\n");
    let out = screen.take_output();
    let frame = "\x1B[2J\x1B[H=== Jamos Text Editor ===\nFile: f [Modified]\nCtrl+S: Save | Ctrl+Q: Quit | Ctrl+X: Exit and Save\n---\nh\n\n---\n";
    assert!(out.ends_with(frame.as_bytes()));
    ed.handle_key(&key(Key::Backspace), &mut screen);
    assert_eq!(ed.get_content(), b"h");
    ed.handle_key(&key(Key::Up), &mut screen);
    assert_eq!(ed.get_content(), b"h");
}

#[test]
fn backspace_at_start_draws_nothing() {
    let mut ed = TextEditor::new();
    let mut screen = Screen::empty();
    ed.handle_key(&key(Key::Backspace), &mut screen);
    assert!(screen.output().is_empty());
}

#[test]
fn render_draws_frame() {
    let mut ed = TextEditor::new();
    ed.set_filename("a.txt");
    ed.load_content(b"xyz");
    let mut screen = Screen::empty();
    ed.render(&mut screen);
    let expected = "\x1B[2J\x1B[H=== Jamos Text Editor ===\nFile: a.txt\nCtrl+S: Save | Ctrl+Q: Quit | Ctrl+X: Exit and Save\n---\nxyz\n---\n";
    assert_eq!(screen.output(), expected.as_bytes());
}
