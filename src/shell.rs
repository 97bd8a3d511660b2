//! The console shell: turns key events into desktop switches, desktop
//! renaming, editor sessions and commands on the file system and the
//! compositor. Each handler takes the state it works on and one event.
use vstd::prelude::*;
use vstd::string::StringSliceAdditionalSpecFns;

use vstd::utf8::valid_utf8;

use crate::drivers::keyboard::{Key, KeyEvent};
use crate::drivers::uart::Uart;
use crate::editor::buffer::{key_action, EditorAction, MAX_BUFFER_SIZE, MAX_EDITOR_FILENAME};
use crate::editor::TextEditor;
use crate::filesystem::vfs::{listed, prefix, FsError, FsView, VirtualFileSystem, DATA_BLOCK_SIZE};
use crate::terminal::vdesktop::{VirtualDesktop, VirtualDesktopManager, MAX_NAME_LEN};
use crate::terminal::Screen;
use crate::utils::{
    bytes_eq, copy_bytes, decimal, is_prefix, lemma_distinct_text, print_number, starts_with, str_or,
    str_or_empty, text_or_empty, zeroed,
};
use crate::wayland::{CompositorState, WaylandCompositor};

verus! {

/// What the keyboard drives.
#[derive(Debug, Clone, Copy, PartialEq, Eq, Structural)]
pub enum TerminalMode {
    /// Typing shell commands.
    Normal,
    /// Typing a new name for the current desktop.
    NamingDesktop,
    /// Editing a file.
    Editor,
}

pub const PROMPT_OPEN: &'static str = "[";
pub const PROMPT_CLOSE: &'static str = "]$ ";
pub const LINE_END: &'static str = "\n";
pub const NO_FILES: &'static str = "No files.\n";
pub const FILES_HEADER: &'static str = "Files:\n";
pub const INDENT: &'static str = "  ";
pub const TOUCH_USAGE: &'static str = "Usage: touch <filename>\n";
pub const FILE_CREATED: &'static str = "File created: ";
pub const RM_USAGE: &'static str = "Usage: rm <filename>\n";
pub const FILE_DELETED: &'static str = "File deleted: ";
pub const ERROR_LABEL: &'static str = "Error: ";
pub const CAT_USAGE: &'static str = "Usage: cat <filename>\n";
pub const READ_ERROR: &'static str = "Error reading file: ";
pub const FILE_NOT_FOUND: &'static str = "File not found: ";
pub const EDIT_USAGE: &'static str = "Usage: edit <filename>\n";
pub const UNKNOWN_NAME: &'static str = "???";
pub const SAVE_CREATE_ERROR: &'static str = "\nError creating file: ";
pub const FILE_SAVED: &'static str = "\nFile saved: ";
pub const SAVE_ERROR: &'static str = "\nError saving file: ";
pub const EDITOR_CLOSED: &'static str = "\nEditor closed.\n";
pub const UNNAMED: &'static str = "Unnamed";
pub const RENAMED: &'static str = "\n[Desktop renamed to: ";
pub const RENAMED_END: &'static str = "]\n";
pub const NAME_UNCHANGED: &'static str = "\n[Name unchanged]\n";
pub const CANCELLED: &'static str = "\n[Cancelled]\n";
pub const RUB_OUT: &'static str = "\x08 \x08";
pub const SWITCHED_TO: &'static str = ">>> Switched to ";
pub const SWITCHED_END: &'static str = " <<<\n\n";
pub const SWITCHED_BACK_TO: &'static str = "\n>>> Switched to ";
pub const SWITCHED_BACK_END: &'static str = " <<<\n";
pub const NAME_REQUEST: &'static str = "\n[Enter new name for desktop]: ";
pub const CMD_HELP: &'static str = "help";
pub const CMD_CLEAR: &'static str = "clear";
pub const CMD_INFO: &'static str = "info";
pub const CMD_LS: &'static str = "ls";
pub const CMD_TOUCH: &'static str = "touch ";
pub const CMD_RM: &'static str = "rm ";
pub const CMD_EDIT: &'static str = "edit ";
pub const CMD_CAT: &'static str = "cat ";
pub const CMD_WAYLAND: &'static str = "wayland ";
pub const HELP_TEXT: &'static str = "Available commands:\n  help    - Show this help\n  clear   - Clear screen\n  info    - Show desktop info\n  ls      - List files\n  touch   - Create file (usage: touch <name>)\n  rm      - Delete file (usage: rm <name>)\n  edit    - Edit file (usage: edit <name>)\n  cat     - Display file (usage: cat <name>)\n  wayland - Wayland compositor (usage: wayland [start|stop|status])\n";
pub const INFO_DESKTOP: &'static str = "Desktop: ";
pub const INFO_INDEX: &'static str = "Index: ";
pub const INFO_OF: &'static str = " of ";
pub const UNKNOWN_COMMAND: &'static str = "Unknown command: ";
pub const WAYLAND: &'static str = "wayland";
pub const WAYLAND_STATUS: &'static str = "wayland status";
pub const WAYLAND_START: &'static str = "wayland start";
pub const WAYLAND_STOP: &'static str = "wayland stop";
pub const WAYLAND_USAGE: &'static str = "Usage: wayland [start|stop|status]\n  start  - Start the Wayland compositor\n  stop   - Stop the Wayland compositor\n  status - Show compositor status (default)\n";

/// Writes the prompt of the desktop named `desktop_name`.
pub fn show_prompt(screen: &mut Screen, desktop_name: &str)
    ensures
        final(screen)@ == old(screen)@ + PROMPT_OPEN.spec_bytes() + desktop_name.spec_bytes()
            + PROMPT_CLOSE.spec_bytes(),
{
    screen.puts(PROMPT_OPEN);
    screen.puts(desktop_name);
    screen.puts(PROMPT_CLOSE);
    assert(screen@ =~= old(screen)@ + PROMPT_OPEN.spec_bytes() + desktop_name.spec_bytes()
        + PROMPT_CLOSE.spec_bytes());
}

/// One indented line per name.
pub open spec fn name_lines(names: Seq<Seq<u8>>) -> Seq<u8>
    decreases names.len(),
{
    if names.len() == 0 {
        Seq::empty()
    } else {
        name_lines(names.drop_last()) + INDENT.spec_bytes() + names.last() + LINE_END.spec_bytes()
    }
}

/// What `ls` prints for the given file names.
pub open spec fn ls_output(names: Seq<Seq<u8>>) -> Seq<u8> {
    if names.len() == 0 {
        NO_FILES.spec_bytes()
    } else {
        FILES_HEADER.spec_bytes() + name_lines(names)
    }
}

/// Lists the files.
pub fn handle_ls_command(screen: &mut Screen, vfs: &VirtualFileSystem)
    requires
        vfs.wf(),
    ensures
        final(screen)@ == old(screen)@ + ls_output(listed(vfs@.files)),
{
    let files = vfs.list_files();
    let ghost names = files@.map_values(|v: Vec<u8>| v@);
    if files.len() == 0 {
        screen.puts(NO_FILES);
    } else {
        screen.puts(FILES_HEADER);
        let ghost base = screen@;
        let mut i: usize = 0;
        while i < files.len()
            invariant
                names == files@.map_values(|v: Vec<u8>| v@),
                0 <= i <= files@.len(),
                screen@ == base + name_lines(names.subrange(0, i as int)),
            decreases files@.len() - i,
        {
            assert(names.subrange(0, i as int + 1).drop_last() =~= names.subrange(0, i as int));
            screen.puts(INDENT);
            screen.write_bytes(files[i].as_slice());
            screen.puts(LINE_END);
            i += 1;
            assert(screen@ =~= base + name_lines(names.subrange(0, i as int)));
        }
        assert(names.subrange(0, names.len() as int) =~= names);
    }
}

/// What a command prints for an outcome of the file system.
pub open spec fn outcome_line<T>(r: Result<T, FsError>, done: &'static str, name: Seq<u8>) -> Seq<u8> {
    match r {
        Ok(_) => done.spec_bytes() + name + LINE_END.spec_bytes(),
        Err(e) => ERROR_LABEL.spec_bytes() + e.spec_str().spec_bytes() + LINE_END.spec_bytes(),
    }
}

/// Creates the file `filename` (taken as text; bytes that are not UTF-8
/// name the empty text).
pub fn handle_touch_command(screen: &mut Screen, vfs: &mut VirtualFileSystem, filename: &[u8])
    requires
        old(vfs).wf(),
        old(vfs)@.clock < u64::MAX,
    ensures
        final(vfs).wf(),
        filename@.len() == 0 ==> final(vfs)@ == old(vfs)@ && final(screen)@ == old(screen)@
            + TOUCH_USAGE.spec_bytes(),
        filename@.len() > 0 ==> {
            let name = text_or_empty(filename@);
            &&& final(vfs)@ == old(vfs)@.create_post(name)
            &&& final(screen)@ == old(screen)@ + outcome_line(
                old(vfs)@.create_result(name),
                FILE_CREATED,
                name,
            )
        },
{
    if filename.len() == 0 {
        screen.puts(TOUCH_USAGE);
        return;
    }
    let name = str_or_empty(filename);
    match vfs.create_file(name) {
        Ok(_) => {
            screen.puts(FILE_CREATED);
            screen.puts(name);
            screen.puts(LINE_END);
        },
        Err(e) => {
            screen.puts(ERROR_LABEL);
            screen.puts(e.as_str());
            screen.puts(LINE_END);
        },
    }
}

/// Deletes the file `filename`.
pub fn handle_rm_command(screen: &mut Screen, vfs: &mut VirtualFileSystem, filename: &[u8])
    requires
        old(vfs).wf(),
    ensures
        final(vfs).wf(),
        filename@.len() == 0 ==> final(vfs)@ == old(vfs)@ && final(screen)@ == old(screen)@
            + RM_USAGE.spec_bytes(),
        filename@.len() > 0 ==> {
            let name = text_or_empty(filename@);
            &&& final(vfs)@ == old(vfs)@.delete_post(name)
            &&& final(screen)@ == old(screen)@ + outcome_line(
                old(vfs)@.delete_result(name),
                FILE_DELETED,
                name,
            )
        },
{
    if filename.len() == 0 {
        screen.puts(RM_USAGE);
        return;
    }
    let name = str_or_empty(filename);
    match vfs.delete_file(name) {
        Ok(_) => {
            screen.puts(FILE_DELETED);
            screen.puts(name);
            screen.puts(LINE_END);
        },
        Err(e) => {
            screen.puts(ERROR_LABEL);
            screen.puts(e.as_str());
            screen.puts(LINE_END);
        },
    }
}

/// What `cat` prints for the file named `name`.
pub open spec fn cat_output(vfs: VirtualFileSystem, name: Seq<u8>) -> Seq<u8> {
    match vfs@.lookup(name) {
        Some(id) => match vfs@.read_result(id, DATA_BLOCK_SIZE as nat) {
            Ok(n) => vfs@.read_bytes(id, n as int) + LINE_END.spec_bytes(),
            Err(e) => READ_ERROR.spec_bytes() + e.spec_str().spec_bytes() + LINE_END.spec_bytes(),
        },
        None => FILE_NOT_FOUND.spec_bytes() + name + LINE_END.spec_bytes(),
    }
}

/// Prints the contents of the file `filename`.
pub fn handle_cat_command(screen: &mut Screen, vfs: &VirtualFileSystem, filename: &[u8])
    requires
        vfs.wf(),
    ensures
        final(screen)@ == old(screen)@ + if filename@.len() == 0 {
            CAT_USAGE.spec_bytes()
        } else {
            cat_output(*vfs, text_or_empty(filename@))
        },
{
    if filename.len() == 0 {
        screen.puts(CAT_USAGE);
        return;
    }
    let name = str_or_empty(filename);
    match vfs.find_inode_by_name(name) {
        Some(inode_id) => {
            let mut buf = zeroed(DATA_BLOCK_SIZE);
            match vfs.read_file(inode_id, buf.as_mut_slice()) {
                Ok(size) => {
                    assert(buf@.subrange(0, size as int) == vfs@.read_bytes(inode_id, size as int));
                    screen.write_bytes(&buf.as_slice()[0..size]);
                    screen.puts(LINE_END);
                },
                Err(e) => {
                    screen.puts(READ_ERROR);
                    screen.puts(e.as_str());
                    screen.puts(LINE_END);
                },
            }
        },
        None => {
            screen.puts(FILE_NOT_FOUND);
            screen.puts(name);
            screen.puts(LINE_END);
        },
    }
}

/// The name a desktop shows: its name as text, or `???`.
pub open spec fn shown_name(name: Seq<u8>) -> Seq<u8> {
    if valid_utf8(name) {
        name
    } else {
        UNKNOWN_NAME.spec_bytes()
    }
}

/// The prompt of a desktop named `name`.
pub open spec fn prompt(name: Seq<u8>) -> Seq<u8> {
    PROMPT_OPEN.spec_bytes() + shown_name(name) + PROMPT_CLOSE.spec_bytes()
}

/// Writes the prompt of `desktop` on its own screen.
fn prompt_desktop(desktop: &mut VirtualDesktop)
    requires
        old(desktop).wf(),
    ensures
        final(desktop).wf(),
        final(desktop).name() == old(desktop).name(),
        final(desktop).input() == old(desktop).input(),
        final(desktop).active() == old(desktop).active(),
        final(desktop).screen()@ == old(desktop).screen()@ + prompt(old(desktop).name()),
{
    proof {
        desktop.lemma_wf();
    }
    let mut name_buf = zeroed(MAX_EDITOR_FILENAME);
    let name_len = desktop.copy_name_to(name_buf.as_mut_slice());
    assert(name_buf@.subrange(0, name_len as int) =~= desktop.name());
    let name = str_or(&name_buf.as_slice()[0..name_len], UNKNOWN_NAME);
    show_prompt(desktop.screen_mut(), name);
}

/// Opens the file `filename` in the editor: the editor takes the name and,
/// when the file exists and can be read, its contents; then it is drawn
/// and takes the keyboard.
pub fn handle_edit_command(
    screen: &mut Screen,
    vfs: &VirtualFileSystem,
    editor: &mut TextEditor,
    filename: &[u8],
    mode: &mut TerminalMode,
)
    requires
        vfs.wf(),
        old(editor).wf(),
    ensures
        final(editor).wf(),
        filename@.len() == 0 ==> {
            &&& *final(editor) == *old(editor)
            &&& *final(mode) == *old(mode)
            &&& final(screen)@ == old(screen)@ + EDIT_USAGE.spec_bytes()
        },
        filename@.len() > 0 ==> {
            let name = text_or_empty(filename@);
            &&& *final(mode) == TerminalMode::Editor
            &&& final(editor).filename() == prefix(name, MAX_EDITOR_FILENAME as int)
            &&& final(screen)@ == old(screen)@ + final(editor).frame()
            &&& match vfs@.lookup(name) {
                Some(id) => match vfs@.read_result(id, MAX_BUFFER_SIZE as nat) {
                    Ok(n) => final(editor).text() == vfs@.read_bytes(id, n as int)
                        && final(editor).cursor() == n && !final(editor).modified(),
                    Err(_) => final(editor).text() == old(editor).text() && final(editor).cursor()
                        == old(editor).cursor() && final(editor).modified() == old(editor).modified(),
                },
                None => final(editor).text() == old(editor).text() && final(editor).cursor()
                    == old(editor).cursor() && final(editor).modified() == old(editor).modified(),
            }
        },
{
    if filename.len() == 0 {
        screen.puts(EDIT_USAGE);
        return;
    }
    let name = str_or_empty(filename);
    editor.set_filename(name);
    if let Some(inode_id) = vfs.find_inode_by_name(name) {
        let mut buf = zeroed(MAX_BUFFER_SIZE);
        match vfs.read_file(inode_id, buf.as_mut_slice()) {
            Ok(size) => {
                assert(buf@.subrange(0, size as int) == vfs@.read_bytes(inode_id, size as int));
                editor.load_content(&buf.as_slice()[0..size]);
                proof {
                    editor.lemma_wf();
                }
            },
            Err(_) => {},
        }
    }
    editor.render(screen);
    *mode = TerminalMode::Editor;
}

/// Runs `wayland`, `wayland status`, `wayland start` or `wayland stop`;
/// anything else prints the usage.
pub fn handle_wayland_command(screen: &mut Screen, wayland: &mut WaylandCompositor, input: &[u8])
    requires
        old(wayland).wf(),
    ensures
        final(wayland).wf(),
        input@ == WAYLAND.spec_bytes() || input@ == WAYLAND_STATUS.spec_bytes() ==> *final(wayland)
            == *old(wayland),
        input@ == WAYLAND_START.spec_bytes() ==> {
            &&& final(wayland).state() == CompositorState::Running
            &&& final(wayland).clients() == old(wayland).clients()
            &&& final(wayland).globals() == old(wayland).globals()
            &&& final(wayland).surfaces() == old(wayland).surfaces()
        },
        input@ == WAYLAND_STOP.spec_bytes() ==> {
            &&& final(wayland).state() == CompositorState::Stopped
            &&& final(wayland).globals() == old(wayland).globals()
            &&& final(wayland).surfaces() == old(wayland).surfaces()
        },
        input@ != WAYLAND.spec_bytes() && input@ != WAYLAND_STATUS.spec_bytes() && input@
            != WAYLAND_START.spec_bytes() && input@ != WAYLAND_STOP.spec_bytes() ==> {
            &&& *final(wayland) == *old(wayland)
            &&& final(screen)@ == old(screen)@ + WAYLAND_USAGE.spec_bytes()
        },
{
    proof {
        reveal_strlit("wayland");
        reveal_strlit("wayland status");
        reveal_strlit("wayland start");
        reveal_strlit("wayland stop");
        lemma_distinct_text(WAYLAND_START, WAYLAND);
        lemma_distinct_text(WAYLAND_START, WAYLAND_STATUS);
        lemma_distinct_text(WAYLAND_STOP, WAYLAND);
        lemma_distinct_text(WAYLAND_STOP, WAYLAND_STATUS);
        lemma_distinct_text(WAYLAND_STOP, WAYLAND_START);
    }
    if bytes_eq(input, WAYLAND.as_bytes()) || bytes_eq(input, WAYLAND_STATUS.as_bytes()) {
        wayland.status(screen);
    } else if bytes_eq(input, WAYLAND_START.as_bytes()) {
        wayland.start(screen);
    } else if bytes_eq(input, WAYLAND_STOP.as_bytes()) {
        wayland.stop(screen);
    } else {
        screen.puts(WAYLAND_USAGE);
    }
}

/// The file a save writes to: the one bound to `name`, or a new one.
pub open spec fn save_target(fs: FsView, name: Seq<u8>) -> Result<usize, FsError> {
    match fs.lookup(name) {
        Some(id) => Ok(id),
        None => fs.create_result(name),
    }
}

/// The file system after saving `text` under `name`.
pub open spec fn save_fs(fs: FsView, name: Seq<u8>, text: Seq<u8>) -> FsView {
    match fs.lookup(name) {
        Some(id) => fs.write_post(id, text),
        None => match fs.create_result(name) {
            Ok(id) => fs.create_post(name).write_post(id, text),
            Err(_) => fs.create_post(name),
        },
    }
}

/// Whether saving `text` under `name` stores it.
pub open spec fn save_stored(fs: FsView, name: Seq<u8>, text: Seq<u8>) -> bool {
    match fs.lookup(name) {
        Some(id) => fs.write_result(id, text) is Ok,
        None => match fs.create_result(name) {
            Ok(id) => fs.create_post(name).write_result(id, text) is Ok,
            Err(_) => false,
        },
    }
}

/// Passes a key to the editor on the current desktop's screen and carries
/// out what it asks: saving creates the file if needed and writes the text
/// to it; quitting (after a save that found or created its file) gives the
/// keyboard back to the shell.
pub fn handle_editor_mode(
    vdm: &mut VirtualDesktopManager,
    vfs: &mut VirtualFileSystem,
    editor: &mut TextEditor,
    event: &KeyEvent,
    mode: &mut TerminalMode,
)
    requires
        old(vdm).wf(),
        old(vfs).wf(),
        old(editor).wf(),
        old(vfs)@.clock + 2 <= u64::MAX,
    ensures
        final(vdm).wf(),
        final(vfs).wf(),
        final(editor).wf(),
        old(vdm).current() is None ==> {
            &&& final(vfs)@ == old(vfs)@
            &&& *final(editor) == *old(editor)
            &&& *final(mode) == *old(mode)
        },
        old(vdm).current() is Some ==> {
            let a = key_action(*event);
            let name = text_or_empty(old(editor).filename());
            &&& a == EditorAction::Continue ==> final(vfs)@ == old(vfs)@ && *final(mode) == *old(mode)
            &&& a == EditorAction::Quit ==> final(vfs)@ == old(vfs)@ && *final(editor) == *old(editor)
                && *final(mode) == TerminalMode::Normal
            &&& (a == EditorAction::Save || a == EditorAction::SaveAndQuit) ==> {
                &&& final(vfs)@ == save_fs(old(vfs)@, name, old(editor).text())
                &&& final(editor).text() == old(editor).text()
                &&& final(editor).cursor() == old(editor).cursor()
                &&& final(editor).filename() == old(editor).filename()
                &&& final(editor).modified() == (old(editor).modified() && !save_stored(
                    old(vfs)@,
                    name,
                    old(editor).text(),
                ))
                &&& *final(mode) == if a == EditorAction::SaveAndQuit && save_target(
                    old(vfs)@,
                    name,
                ) is Ok {
                    TerminalMode::Normal
                } else {
                    *old(mode)
                }
            }
        },
{
    let desktop = match vdm.current_mut() {
        Some(d) => d,
        None => {
            return;
        },
    };
    let action = editor.handle_key(event, desktop.screen_mut());
    match action {
        EditorAction::Save | EditorAction::SaveAndQuit => {
            let filename = editor.get_filename();
            let content = editor.get_content();
            let ghost name = text_or_empty(old(editor).filename());
            let inode_id = match vfs.find_inode_by_name(filename) {
                Some(id) => id,
                None => match vfs.create_file(filename) {
                    Ok(id) => id,
                    Err(e) => {
                        let screen = desktop.screen_mut();
                        screen.puts(SAVE_CREATE_ERROR);
                        screen.puts(e.as_str());
                        screen.puts(LINE_END);
                        return;
                    },
                },
            };
            match vfs.write_file(inode_id, content) {
                Ok(_) => {
                    let screen = desktop.screen_mut();
                    screen.puts(FILE_SAVED);
                    screen.puts(filename);
                    screen.puts(LINE_END);
                    editor.mark_saved();
                },
                Err(e) => {
                    let screen = desktop.screen_mut();
                    screen.puts(SAVE_ERROR);
                    screen.puts(e.as_str());
                    screen.puts(LINE_END);
                },
            }
            if action == EditorAction::SaveAndQuit {
                *mode = TerminalMode::Normal;
                prompt_desktop(desktop);
            }
        },
        EditorAction::Quit => {
            *mode = TerminalMode::Normal;
            desktop.screen_mut().puts(EDITOR_CLOSED);
            prompt_desktop(desktop);
        },
        EditorAction::Continue => {},
    }
}

/// The name a rename gives for pending input `input`.
pub open spec fn new_name(input: Seq<u8>) -> Seq<u8> {
    prefix(
        if valid_utf8(input) {
            input
        } else {
            UNNAMED.spec_bytes()
        },
        MAX_NAME_LEN as int,
    )
}

/// How a key typed while renaming changes the name and input of desktop
/// `d` into `e`.
pub open spec fn naming_effect(d: VirtualDesktop, e: VirtualDesktop, key: Key) -> bool {
    &&& e.active() == d.active()
    &&& match key {
        Key::Char(c) => e.name() == d.name() && e.input() == if d.input().len() < 32 {
            d.input().push(c)
        } else {
            d.input()
        },
        Key::Enter => e.input() == Seq::<u8>::empty() && e.name() == if d.input().len() > 0 {
            new_name(d.input())
        } else {
            d.name()
        },
        Key::Backspace => e.name() == d.name() && e.input() == if d.input().len() > 0 {
            d.input().drop_last()
        } else {
            d.input()
        },
        Key::Escape => e.name() == d.name() && e.input() == Seq::<u8>::empty(),
        _ => e == d,
    }
}

/// `b` is `a` with the current desktop changed as `effect` says and the
/// other one untouched.
pub open spec fn current_changed(
    a: VirtualDesktopManager,
    b: VirtualDesktopManager,
    effect: spec_fn(VirtualDesktop, VirtualDesktop) -> bool,
) -> bool {
    &&& b.index() == a.index()
    &&& a.index() == 0 ==> effect(a.first(), b.first()) && b.second() == a.second()
    &&& a.index() == 1 ==> effect(a.second(), b.second()) && b.first() == a.first()
}

/// Handles a key while the user types a new name for the current desktop:
/// Enter renames it (to `Unnamed` when the input is not text), Escape
/// cancels; both give the keyboard back to the shell.
pub fn handle_naming_mode(vdm: &mut VirtualDesktopManager, event: &KeyEvent, mode: &mut TerminalMode)
    requires
        old(vdm).wf(),
    ensures
        final(vdm).wf(),
        *final(mode) == match event.key {
            Key::Enter | Key::Escape => TerminalMode::Normal,
            _ => *old(mode),
        },
        old(vdm).current() is None ==> *final(vdm) == *old(vdm),
        old(vdm).current() is Some ==> current_changed(
            *old(vdm),
            *final(vdm),
            |d: VirtualDesktop, e: VirtualDesktop| naming_effect(d, e, event.key),
        ),
{
    match event.key {
        Key::Char(c) => {
            if let Some(desktop) = vdm.current_mut() {
                desktop.screen_mut().putc(c);
                desktop.add_input(c);
            }
        },
        Key::Enter => {
            if let Some(desktop) = vdm.current_mut() {
                proof {
                    desktop.lemma_wf();
                }
                let input = copy_bytes(desktop.get_input());
                if input.len() > 0 {
                    let name = str_or(input.as_slice(), UNNAMED);
                    desktop.set_name(name);
                    proof {
                        desktop.lemma_wf();
                    }
                    let mut name_buf = zeroed(MAX_EDITOR_FILENAME);
                    let name_len = desktop.copy_name_to(name_buf.as_mut_slice());
                    let shown = str_or(&name_buf.as_slice()[0..name_len], UNKNOWN_NAME);
                    let screen = desktop.screen_mut();
                    screen.puts(RENAMED);
                    screen.puts(shown);
                    screen.puts(RENAMED_END);
                } else {
                    desktop.screen_mut().puts(NAME_UNCHANGED);
                }
                desktop.clear_input();
                prompt_desktop(desktop);
            }
            *mode = TerminalMode::Normal;
        },
        Key::Backspace => {
            if let Some(desktop) = vdm.current_mut() {
                desktop.remove_input();
                desktop.screen_mut().puts(RUB_OUT);
            }
        },
        Key::Escape => {
            if let Some(desktop) = vdm.current_mut() {
                desktop.screen_mut().puts(CANCELLED);
                desktop.clear_input();
                prompt_desktop(desktop);
            }
            *mode = TerminalMode::Normal;
        },
        _ => {},
    }
}

/// The argument of command line `input` after the command word `cmd`.
pub open spec fn arg(input: Seq<u8>, cmd: &str) -> Seq<u8> {
    input.subrange(cmd.spec_bytes().len() as int, input.len() as int)
}

/// Command line `input` is one of the commands without an argument that
/// are tried first.
pub open spec fn is_plain_command(input: Seq<u8>) -> bool {
    input == CMD_HELP.spec_bytes() || input == CMD_CLEAR.spec_bytes() || input == CMD_INFO.spec_bytes()
        || input == CMD_LS.spec_bytes()
}

/// The file system after command line `input` runs: `touch` creates,
/// `rm` deletes, the rest only read.
pub open spec fn command_fs(fs: FsView, input: Seq<u8>) -> FsView {
    if is_plain_command(input) {
        fs
    } else if is_prefix(CMD_TOUCH.spec_bytes(), input) {
        let f = arg(input, CMD_TOUCH);
        if f.len() == 0 {
            fs
        } else {
            fs.create_post(text_or_empty(f))
        }
    } else if is_prefix(CMD_RM.spec_bytes(), input) {
        let f = arg(input, CMD_RM);
        if f.len() == 0 {
            fs
        } else {
            fs.delete_post(text_or_empty(f))
        }
    } else {
        fs
    }
}

/// Command line `input` opens the editor on a file.
pub open spec fn opens_editor(input: Seq<u8>) -> bool {
    &&& !is_plain_command(input)
    &&& !is_prefix(CMD_TOUCH.spec_bytes(), input)
    &&& !is_prefix(CMD_RM.spec_bytes(), input)
    &&& is_prefix(CMD_EDIT.spec_bytes(), input)
    &&& arg(input, CMD_EDIT).len() > 0
}

/// Runs command line `input` typed on `desktop` (shown as number
/// `index + 1` of `count`); true when it handed the keyboard to the editor.
fn run_command(
    desktop: &mut VirtualDesktop,
    vfs: &mut VirtualFileSystem,
    editor: &mut TextEditor,
    wayland: &mut WaylandCompositor,
    input: &[u8],
    index: usize,
    count: usize,
    mode: &mut TerminalMode,
) -> (r: bool)
    requires
        old(desktop).wf(),
        old(vfs).wf(),
        old(editor).wf(),
        old(wayland).wf(),
        old(vfs)@.clock < u64::MAX,
        index <= 1,
    ensures
        final(desktop).wf(),
        final(vfs).wf(),
        final(editor).wf(),
        final(wayland).wf(),
        final(desktop).name() == old(desktop).name(),
        final(desktop).input() == old(desktop).input(),
        final(desktop).active() == old(desktop).active(),
        final(vfs)@ == command_fs(old(vfs)@, input@),
        r == opens_editor(input@),
        *final(mode) == if r {
            TerminalMode::Editor
        } else {
            *old(mode)
        },
{
    let len = input.len();
    if bytes_eq(input, CMD_HELP.as_bytes()) {
        desktop.screen_mut().puts(HELP_TEXT);
    } else if bytes_eq(input, CMD_CLEAR.as_bytes()) {
        desktop.screen_mut().clear();
    } else if bytes_eq(input, CMD_INFO.as_bytes()) {
        proof {
            desktop.lemma_wf();
        }
        let mut name_buf = zeroed(MAX_EDITOR_FILENAME);
        let name_len = desktop.copy_name_to(name_buf.as_mut_slice());
        let name = str_or(&name_buf.as_slice()[0..name_len], UNKNOWN_NAME);
        let screen = desktop.screen_mut();
        screen.puts(INFO_DESKTOP);
        screen.puts(name);
        screen.puts(LINE_END);
        screen.puts(INFO_INDEX);
        print_number(screen, index + 1);
        screen.puts(INFO_OF);
        print_number(screen, count);
        screen.puts(LINE_END);
    } else if bytes_eq(input, CMD_LS.as_bytes()) {
        handle_ls_command(desktop.screen_mut(), vfs);
    } else if starts_with(input, CMD_TOUCH.as_bytes()) {
        let n = CMD_TOUCH.as_bytes().len();
        handle_touch_command(desktop.screen_mut(), vfs, &input[n..len]);
    } else if starts_with(input, CMD_RM.as_bytes()) {
        let n = CMD_RM.as_bytes().len();
        handle_rm_command(desktop.screen_mut(), vfs, &input[n..len]);
    } else if starts_with(input, CMD_EDIT.as_bytes()) {
        let n = CMD_EDIT.as_bytes().len();
        handle_edit_command(desktop.screen_mut(), vfs, editor, &input[n..len], mode);
        return n < len;
    } else if starts_with(input, CMD_CAT.as_bytes()) {
        let n = CMD_CAT.as_bytes().len();
        handle_cat_command(desktop.screen_mut(), vfs, &input[n..len]);
    } else if bytes_eq(input, WAYLAND.as_bytes()) || starts_with(input, CMD_WAYLAND.as_bytes()) {
        handle_wayland_command(desktop.screen_mut(), wayland, input);
    } else if len > 0 {
        let screen = desktop.screen_mut();
        screen.puts(UNKNOWN_COMMAND);
        screen.write_bytes(input);
        screen.puts(LINE_END);
    }
    false
}

/// Writes `head`, the desktop's name and `tail`, then its prompt.
fn announce(desktop: &mut VirtualDesktop, head: &str, tail: &str)
    requires
        old(desktop).wf(),
    ensures
        final(desktop).wf(),
        final(desktop).name() == old(desktop).name(),
        final(desktop).input() == old(desktop).input(),
        final(desktop).active() == old(desktop).active(),
{
    proof {
        desktop.lemma_wf();
    }
    let mut name_buf = zeroed(MAX_EDITOR_FILENAME);
    let name_len = desktop.copy_name_to(name_buf.as_mut_slice());
    let name = str_or(&name_buf.as_slice()[0..name_len], UNKNOWN_NAME);
    let screen = desktop.screen_mut();
    screen.puts(head);
    screen.puts(name);
    screen.puts(tail);
    prompt_desktop(desktop);
}

/// The key that starts renaming the desktop: Ctrl+N, or a capital N.
pub open spec fn is_naming_key(e: KeyEvent) -> bool {
    (e.ctrl && e.key == Key::Char(0x6E)) || e.key == Key::Char(0x4E)
}

/// Handles a key in the shell: Ctrl+Right opens or shows the second
/// desktop, Ctrl+Left goes back, the naming key starts a rename,
/// characters and Backspace edit the command line and Enter runs it.
pub fn handle_normal_mode(
    vdm: &mut VirtualDesktopManager,
    vfs: &mut VirtualFileSystem,
    editor: &mut TextEditor,
    wayland: &mut WaylandCompositor,
    event: &KeyEvent,
    mode: &mut TerminalMode,
)
    requires
        old(vdm).wf(),
        old(vfs).wf(),
        old(editor).wf(),
        old(wayland).wf(),
        old(vfs)@.clock < u64::MAX,
    ensures
        final(vdm).wf(),
        final(vfs).wf(),
        final(editor).wf(),
        final(wayland).wf(),
        event.ctrl && event.key == Key::Right ==> {
            &&& final(vfs)@ == old(vfs)@
            &&& *final(mode) == *old(mode)
            &&& final(vdm).index() == if old(vdm).index() == 0 {
                1
            } else {
                old(vdm).index()
            }
        },
        !(event.ctrl && event.key == Key::Right) && event.ctrl && event.key == Key::Left ==> {
            &&& final(vfs)@ == old(vfs)@
            &&& *final(mode) == *old(mode)
            &&& final(vdm).index() == if old(vdm).index() > 0 {
                (old(vdm).index() - 1) as usize
            } else {
                old(vdm).index()
            }
        },
        !(event.ctrl && (event.key == Key::Right || event.key == Key::Left)) && is_naming_key(*event)
            ==> {
            &&& final(vfs)@ == old(vfs)@
            &&& *final(mode) == TerminalMode::NamingDesktop
            &&& old(vdm).current() is Some ==> current_changed(
                *old(vdm),
                *final(vdm),
                |d: VirtualDesktop, e: VirtualDesktop|
                    e.name() == d.name() && e.input() == Seq::<u8>::empty() && e.active() == d.active(),
            )
        },
        !(event.ctrl && (event.key == Key::Right || event.key == Key::Left)) && !is_naming_key(*event)
            ==> match event.key {
            Key::Enter => match old(vdm).current() {
                Some(d) => {
                    &&& final(vfs)@ == command_fs(old(vfs)@, d.input())
                    &&& *final(mode) == if opens_editor(d.input()) {
                        TerminalMode::Editor
                    } else {
                        *old(mode)
                    }
                    &&& current_changed(
                        *old(vdm),
                        *final(vdm),
                        |a: VirtualDesktop, b: VirtualDesktop|
                            b.name() == a.name() && b.active() == a.active() && b.input() == if opens_editor(a.input()) {
                                a.input()
                            } else {
                                Seq::<u8>::empty()
                            },
                    )
                },
                None => final(vfs)@ == old(vfs)@ && *final(mode) == *old(mode) && *final(vdm) == *old(vdm),
            },
            Key::Char(c) => {
                &&& final(vfs)@ == old(vfs)@
                &&& *final(mode) == *old(mode)
                &&& old(vdm).current() is Some ==> current_changed(
                    *old(vdm),
                    *final(vdm),
                    |d: VirtualDesktop, e: VirtualDesktop|
                        e.name() == d.name() && e.active() == d.active() && e.input() == if d.input().len() < 32 {
                            d.input().push(c)
                        } else {
                            d.input()
                        },
                )
            },
            Key::Backspace => {
                &&& final(vfs)@ == old(vfs)@
                &&& *final(mode) == *old(mode)
                &&& old(vdm).current() is Some ==> current_changed(
                    *old(vdm),
                    *final(vdm),
                    |d: VirtualDesktop, e: VirtualDesktop|
                        e.name() == d.name() && e.active() == d.active() && e.input() == if d.input().len() > 0 {
                            d.input().drop_last()
                        } else {
                            d.input()
                        },
                )
            },
            _ => final(vfs)@ == old(vfs)@ && *final(mode) == *old(mode) && *final(vdm) == *old(vdm),
        },
{
    if event.ctrl && event.key == Key::Right {
        if vdm.next(Uart::new()) {
            if let Some(desktop) = vdm.current_mut() {
                desktop.screen_mut().clear();
                announce(desktop, SWITCHED_TO, SWITCHED_END);
            }
        }
        return;
    }
    if event.ctrl && event.key == Key::Left {
        if vdm.previous() {
            if let Some(desktop) = vdm.current_mut() {
                announce(desktop, SWITCHED_BACK_TO, SWITCHED_BACK_END);
            }
        }
        return;
    }
    if event.ctrl && event.key == Key::Char(0x6E) || event.key == Key::Char(0x4E) {
        *mode = TerminalMode::NamingDesktop;
        if let Some(desktop) = vdm.current_mut() {
            desktop.clear_input();
            desktop.screen_mut().puts(NAME_REQUEST);
        }
        return;
    }
    match event.key {
        Key::Char(c) => {
            if let Some(desktop) = vdm.current_mut() {
                desktop.screen_mut().putc(c);
                desktop.add_input(c);
            }
        },
        Key::Enter => {
            let index = vdm.get_index();
            let count = vdm.get_count();
            if let Some(desktop) = vdm.current_mut() {
                let input = copy_bytes(desktop.get_input());
                desktop.screen_mut().puts(LINE_END);
                if run_command(desktop, vfs, editor, wayland, input.as_slice(), index, count, mode) {
                    return;
                }
                desktop.clear_input();
                prompt_desktop(desktop);
            }
        },
        Key::Backspace => {
            if let Some(desktop) = vdm.current_mut() {
                desktop.remove_input();
                desktop.screen_mut().puts(RUB_OUT);
            }
        },
        _ => {},
    }
}

} // verus!
