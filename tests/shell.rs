use jamos::drivers::keyboard::{Key, KeyEvent};
use jamos::drivers::uart::Uart;
use jamos::editor::TextEditor;
use jamos::filesystem::vfs::VirtualFileSystem;
use jamos::shell::{
    handle_cat_command, handle_edit_command, handle_editor_mode, handle_ls_command, handle_naming_mode,
    handle_normal_mode, handle_rm_command, handle_touch_command, handle_wayland_command, show_prompt,
    TerminalMode,
};
use jamos::terminal::{Screen, VirtualDesktopManager};
use jamos::wayland::WaylandCompositor;

struct Console {
    vdm: VirtualDesktopManager,
    vfs: VirtualFileSystem,
    editor: TextEditor,
    wayland: WaylandCompositor,
    mode: TerminalMode,
}

impl Console {
    fn boot() -> Console {
        let mut c = Console {
            vdm: VirtualDesktopManager::empty(),
            vfs: VirtualFileSystem::empty(),
            editor: TextEditor::empty(),
            wayland: WaylandCompositor::empty(),
            mode: TerminalMode::Normal,
        };
        c.vdm.init(Uart::new());
        c.vfs.init();
        c.wayland.init();
        c
    }

    fn press(&mut self, ev: KeyEvent) {
        match self.mode {
            TerminalMode::Normal => handle_normal_mode(
                &mut self.vdm,
                &mut self.vfs,
                &mut self.editor,
                &mut self.wayland,
                &ev,
                &mut self.mode,
            ),
            TerminalMode::NamingDesktop => handle_naming_mode(&mut self.vdm, &ev, &mut self.mode),
            TerminalMode::Editor => {
                handle_editor_mode(&mut self.vdm, &mut self.vfs, &mut self.editor, &ev, &mut self.mode)
            }
        }
    }

    fn type_line(&mut self, line: &str) {
        for &b in line.as_bytes() {
            self.press(plain(Key::Char(b)));
        }
        self.press(plain(Key::Enter));
    }

    fn output(&mut self) -> String {
        String::from_utf8(self.vdm.current_mut().unwrap().screen_mut().take_output()).unwrap()
    }
}

fn plain(k: Key) -> KeyEvent {
    KeyEvent { key: k, meta: false, ctrl: false, shift: false }
}

fn ctrl(k: Key) -> KeyEvent {
    KeyEvent { key: k, meta: false, ctrl: true, shift: false }
}

#[test]
fn prompt_shows_name() {
    let mut s = Screen::empty();
    show_prompt(&mut s, "Desktop 1");
    assert_eq!(s.output(), b"[Desktop 1]$ ");
}

#[test]
fn touch_ls_cat_rm() {
    let mut vfs = VirtualFileSystem::empty();
    vfs.init();
    let mut s = Screen::empty();
    handle_ls_command(&mut s, &vfs);
    handle_touch_command(&mut s, &mut vfs, b"");
    handle_touch_command(&mut s, &mut vfs, b"a");
    handle_touch_command(&mut s, &mut vfs, b"a");
    handle_ls_command(&mut s, &vfs);
    handle_cat_command(&mut s, &vfs, b"a");
    handle_cat_command(&mut s, &vfs, b"b");
    handle_rm_command(&mut s, &mut vfs, b"a");
    handle_rm_command(&mut s, &mut vfs, b"a");
    handle_rm_command(&mut s, &mut vfs, b"");
    handle_cat_command(&mut s, &vfs, b"");
    let out = String::from_utf8(s.take_output()).unwrap();
    assert_eq!(
        out,
        "No files.\nUsage: touch <filename>\nFile created: a\nError: File already exists\nFiles:\n  a\n\nFile not found: b\nFile deleted: a\nError: File not found\nUsage: rm <filename>\nUsage: cat <filename>\n"
    );
}

#[test]
fn cat_prints_contents() {
    let mut vfs = VirtualFileSystem::empty();
    vfs.init();
    let id = vfs.create_file("greet").unwrap();
    vfs.write_file(id, b"hello").unwrap();
    let mut s = Screen::empty();
    handle_cat_command(&mut s, &vfs, b"greet");
    assert_eq!(s.output(), b"hello\n");
}

#[test]
fn edit_loads_existing_file() {
    let mut vfs = VirtualFileSystem::empty();
    vfs.init();
    let id = vfs.create_file("doc").unwrap();
    vfs.write_file(id, b"body").unwrap();
    let mut ed = TextEditor::new();
    let mut mode = TerminalMode::Normal;
    let mut s = Screen::empty();
    handle_edit_command(&mut s, &vfs, &mut ed, b"", &mut mode);
    assert_eq!(mode, TerminalMode::Normal);
    assert_eq!(s.take_output(), b"Usage: edit <filename>\n".to_vec());
    handle_edit_command(&mut s, &vfs, &mut ed, b"doc", &mut mode);
    assert_eq!(mode, TerminalMode::Editor);
    assert_eq!(ed.get_content(), b"body");
    assert_eq!(ed.get_filename(), "doc");
}

#[test]
fn wayland_commands() {
    let mut w = WaylandCompositor::empty();
    w.init();
    let mut s = Screen::empty();
    handle_wayland_command(&mut s, &mut w, b"wayland start");
    assert!(w.is_running());
    handle_wayland_command(&mut s, &mut w, b"wayland stop");
    assert!(!w.is_running());
    s.take_output();
    handle_wayland_command(&mut s, &mut w, b"wayland fly");
    assert!(String::from_utf8(s.take_output()).unwrap().starts_with("Usage: wayland [start|stop|status]\n"));
    handle_wayland_command(&mut s, &mut w, b"wayland");
    assert!(String::from_utf8(s.take_output()).unwrap().starts_with("=== Wayland Compositor Status ===\n"));
}

#[test]
fn typed_commands_change_files() {
    let mut c = Console::boot();
    c.type_line("touch notes");
    assert!(c.vfs.find_inode_by_name("notes").is_some());
    let out = c.output();
    assert!(out.ends_with("touch notes\nFile created: notes\n[Desktop 1]$ "));
    c.type_line("rm notes");
    assert!(c.vfs.find_inode_by_name("notes").is_none());
    c.type_line("bogus");
    assert!(c.output().contains("Unknown command: bogus\n"));
    c.type_line("info");
    assert!(c.output().contains("Desktop: Desktop 1\nIndex: 1 of 1\n"));
}

#[test]
fn backspace_edits_command_line() {
    let mut c = Console::boot();
    for &b in b"lsx" {
        c.press(plain(Key::Char(b)));
    }
    c.press(plain(Key::Backspace));
    assert_eq!(c.vdm.current_mut().unwrap().get_input(), b"ls");
    c.press(plain(Key::Enter));
    assert!(c.output().contains("No files.\n"));
}

#[test]
fn rename_desktop() {
    let mut c = Console::boot();
    c.press(ctrl(Key::Char(b'n')));
    assert_eq!(c.mode, TerminalMode::NamingDesktop);
    c.type_line("Mail");
    assert_eq!(c.mode, TerminalMode::Normal);
    let mut buf = [0u8; 32];
    let n = c.vdm.current_mut().unwrap().copy_name_to(&mut buf);
    assert_eq!(&buf[..n], b"Mail");
    assert!(c.output().ends_with("\n[Desktop renamed to: Mail]\n[Mail]$ "));
    c.press(ctrl(Key::Char(b'n')));
    c.press(plain(Key::Escape));
    assert_eq!(c.mode, TerminalMode::Normal);
    assert!(c.output().ends_with("[Cancelled]\n[Mail]$ "));
}

#[test]
fn switch_desktops() {
    let mut c = Console::boot();
    c.press(ctrl(Key::Right));
    assert_eq!(c.vdm.get_index(), 1);
    assert!(c.output().ends_with(">>> Switched to Desktop 2 <<<\n\n[Desktop 2]$ "));
    c.press(ctrl(Key::Left));
    assert_eq!(c.vdm.get_index(), 0);
    assert!(c.output().ends_with("\n>>> Switched to Desktop 1 <<<\n[Desktop 1]$ "));
}

#[test]
fn edit_and_save_through_keys() {
    let mut c = Console::boot();
    c.type_line("edit memo");
    assert_eq!(c.mode, TerminalMode::Editor);
    for &b in b"hi" {
        c.press(plain(Key::Char(b)));
    }
    c.press(ctrl(Key::Char(b'x')));
    assert_eq!(c.mode, TerminalMode::Normal);
    let id = c.vfs.find_inode_by_name("memo").unwrap();
    let mut buf = [0u8; 8];
    assert_eq!(c.vfs.read_file(id, &mut buf), Ok(2));
    assert_eq!(&buf[..2], b"hi");
    assert!(!c.editor.is_modified());
    assert!(c.output().ends_with("\nFile saved: memo\n[Desktop 1]$ "));
}

#[test]
fn editor_quit_without_saving() {
    let mut c = Console::boot();
    c.type_line("edit draft");
    c.press(plain(Key::Char(b'z')));
    c.press(ctrl(Key::Char(b'q')));
    assert_eq!(c.mode, TerminalMode::Normal);
    assert!(c.vfs.find_inode_by_name("draft").is_none());
    assert!(c.output().ends_with("\nEditor closed.\n[Desktop 1]$ "));
}
