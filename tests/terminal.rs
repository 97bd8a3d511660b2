use jamos::drivers::uart::Uart;
use jamos::terminal::tiling::{Pane, TileLayout, TilingManager};
use jamos::terminal::vdesktop::VirtualDesktop;
use jamos::terminal::{Screen, VirtualDesktopManager};
use jamos::utils::print_number;

#[test]
fn screen_collects_output() {
    let mut s = Screen::new(Uart::new());
    s.puts("ab");
    s.putc(b'c');
    s.clear();
    s.render();
    assert_eq!(s.output(), b"abc\x1B[2J\x1B[H");
    assert_eq!(s.take_output(), b"abc\x1B[2J\x1B[H".to_vec());
    assert!(s.output().is_empty());
}

#[test]
fn numbers_in_decimal() {
    let mut s = Screen::empty();
    print_number(&mut s, 0);
    s.putc(b' ');
    print_number(&mut s, 7);
    s.putc(b' ');
    print_number(&mut s, 10);
    s.putc(b' ');
    print_number(&mut s, 12345);
    s.putc(b' ');
    print_number(&mut s, usize::MAX);
    assert_eq!(s.output(), format!("0 7 10 12345 {}", usize::MAX).as_bytes());
}

#[test]
fn tiling_splits_once() {
    let mut t = TilingManager::empty();
    t.init(Uart::new());
    assert_eq!(t.get_pane_count(), 1);
    assert_eq!(t.get_layout(), TileLayout::Single);
    assert!(t.split_vertical(Uart::new()));
    assert_eq!(t.get_pane_count(), 2);
    assert_eq!(t.get_layout(), TileLayout::Vertical);
    assert!(!t.split_horizontal(Uart::new()));
    assert_eq!(t.get_layout(), TileLayout::Vertical);
}

#[test]
fn tiling_horizontal_split() {
    let mut t = TilingManager::empty();
    t.init(Uart::new());
    assert!(t.split_horizontal(Uart::new()));
    assert_eq!(t.get_layout(), TileLayout::Horizontal);
}

#[test]
fn tiling_focus_wraps() {
    let mut t = TilingManager::empty();
    t.init(Uart::new());
    assert!(!t.next_pane());
    assert!(!t.prev_pane());
    t.split_vertical(Uart::new());
    assert!(t.next_pane());
    assert_eq!(t.get_active_pane(), 1);
    assert!(t.next_pane());
    assert_eq!(t.get_active_pane(), 0);
    assert!(t.prev_pane());
    assert_eq!(t.get_active_pane(), 1);
    assert!(t.current_pane_mut().is_some());
    t.current_pane_mut().unwrap().screen_mut().puts("x");
    assert_eq!(t.current_pane_mut().unwrap().screen_mut().output(), b"x");
    assert!(t.prev_pane());
    // the first pane is never brought up
    assert!(t.current_pane_mut().is_none());
}

#[test]
fn pane_constructors() {
    let mut p = Pane::new(Uart::new(), 3);
    p.screen_mut().putc(b'z');
    assert_eq!(p.screen_mut().output(), b"z");
    let mut e = Pane::empty();
    assert!(e.screen_mut().output().is_empty());
}

#[test]
fn desktop_input_line() {
    let mut d = VirtualDesktop::empty();
    d.init(Uart::new(), "Work");
    for &c in b"ls" {
        d.add_input(c);
    }
    assert_eq!(d.get_input(), b"ls");
    d.remove_input();
    assert_eq!(d.get_input(), b"l");
    d.clear_input();
    assert_eq!(d.get_input(), b"");
    d.remove_input();
    for _ in 0..40 {
        d.add_input(b'x');
    }
    assert_eq!(d.get_input().len(), 32);
}

#[test]
fn desktop_names() {
    let mut d = VirtualDesktop::empty();
    d.set_name("a much longer desktop name");
    let mut buf = [0u8; 32];
    let n = d.copy_name_to(&mut buf);
    assert_eq!(&buf[..n], b"a much longer de");
    let mut small = [9u8; 4];
    assert_eq!(d.copy_name_to(&mut small), 4);
    assert_eq!(&small, b"a mu");
    d.screen_mut().puts("ok");
    assert_eq!(d.screen_mut().output(), b"ok");
}

#[test]
fn desktop_switching() {
    let mut m = VirtualDesktopManager::empty();
    assert!(m.current_mut().is_none());
    m.init(Uart::new());
    assert_eq!(m.get_count(), 1);
    assert_eq!(m.get_index(), 0);
    let mut buf = [0u8; 32];
    let n = m.current_mut().unwrap().copy_name_to(&mut buf);
    assert_eq!(&buf[..n], b"Desktop 1");
    assert!(!m.previous());
    assert!(m.next(Uart::new()));
    assert_eq!(m.get_index(), 1);
    assert_eq!(m.get_count(), 2);
    let n = m.current_mut().unwrap().copy_name_to(&mut buf);
    assert_eq!(&buf[..n], b"Desktop 2");
    assert!(!m.next(Uart::new()));
    assert!(m.previous());
    assert_eq!(m.get_index(), 0);
    assert!(m.next(Uart::new()));
    assert_eq!(m.get_count(), 2);
}
