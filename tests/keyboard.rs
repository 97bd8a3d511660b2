use jamos::drivers::keyboard::{EscapeSequence, Key, KeyEvent, Keyboard};
use jamos::drivers::uart::Uart;

fn feed(kb: &mut Keyboard, bytes: &[u8]) -> Vec<KeyEvent> {
    bytes.iter().filter_map(|&b| kb.poll(Some(b))).collect()
}

#[test]
fn nothing_read_nothing_reported() {
    let mut kb = Keyboard::new(Uart::new());
    assert_eq!(kb.poll(None), None);
    assert_eq!(kb.escape_sequence, EscapeSequence::Idle);
}

#[test]
fn printable_characters() {
    let mut kb = Keyboard::new(Uart::new());
    let ev = kb.poll(Some(b'a')).unwrap();
    assert_eq!(ev, KeyEvent { key: Key::Char(b'a'), meta: false, ctrl: false, shift: false });
    let ev = kb.poll(Some(b'Q')).unwrap();
    assert!(ev.shift);
}

#[test]
fn control_bytes() {
    let mut kb = Keyboard::new(Uart::new());
    assert_eq!(kb.poll(Some(0x0D)).unwrap().key, Key::Enter);
    assert_eq!(kb.poll(Some(0x0A)).unwrap().key, Key::Enter);
    assert_eq!(kb.poll(Some(0x08)).unwrap().key, Key::Backspace);
    let ctrl_s = kb.poll(Some(0x13)).unwrap();
    assert_eq!(ctrl_s, KeyEvent { key: Key::Char(0x13), meta: false, ctrl: true, shift: false });
    // DEL is outside the control range and comes through as a character
    assert_eq!(kb.poll(Some(0x7F)).unwrap().key, Key::Char(0x7F));
}

#[test]
fn arrow_sequences() {
    let mut kb = Keyboard::new(Uart::new());
    let evs = feed(&mut kb, b"\x1B[A\x1B[B\x1B[C\x1B[D\x1B[Z");
    let keys: Vec<Key> = evs.iter().map(|e| e.key).collect();
    assert_eq!(keys, vec![Key::Up, Key::Down, Key::Right, Key::Left, Key::Unknown]);
    assert!(evs.iter().all(|e| !e.ctrl));
}

#[test]
fn ctrl_arrow_sequences() {
    let mut kb = Keyboard::new(Uart::new());
    let evs = feed(&mut kb, b"\x1B[1;5C\x1B[1;5D");
    assert_eq!(evs.len(), 2);
    assert_eq!(evs[0], KeyEvent { key: Key::Right, meta: false, ctrl: true, shift: false });
    assert_eq!(evs[1].key, Key::Left);
    assert!(evs[1].ctrl);
}

#[test]
fn lone_escape_and_broken_sequences() {
    let mut kb = Keyboard::new(Uart::new());
    assert_eq!(kb.poll(Some(0x1B)), None);
    assert_eq!(kb.poll(Some(b'x')).unwrap().key, Key::Escape);
    let evs = feed(&mut kb, b"\x1B[1x");
    assert_eq!(evs.len(), 1);
    assert_eq!(evs[0].key, Key::Char(b'x'));
    let evs = feed(&mut kb, b"\x1B[1;7");
    assert_eq!(evs[0].key, Key::Char(b'7'));
    assert_eq!(kb.escape_sequence, EscapeSequence::Idle);
}
