//! The editor's text buffer, cursor and key handling.
use vstd::prelude::*;
use vstd::string::StringSliceAdditionalSpecFns;

use crate::drivers::keyboard::{Key, KeyEvent};
use crate::filesystem::vfs::prefix;
use crate::terminal::screen::CLEAR_SCREEN;
use crate::terminal::Screen;
use crate::utils::{str_or_empty, text_or_empty};

verus! {

/// Capacity of the text buffer, in bytes.
pub const MAX_BUFFER_SIZE: usize = 2048;

/// Longest file name the editor keeps, in bytes.
pub const MAX_EDITOR_FILENAME: usize = 32;

pub const EDITOR_TITLE: &'static str = "=== Jamos Text Editor ===\n";

pub const FILE_LABEL: &'static str = "File: ";

pub const MODIFIED_MARK: &'static str = " [Modified]";

pub const NEWLINE: &'static str = "\n";

pub const EDITOR_HELP: &'static str = "Ctrl+S: Save | Ctrl+Q: Quit | Ctrl+X: Exit and Save\n";

pub const RULE: &'static str = "---\n";

pub const END_RULE: &'static str = "\n---\n";

/// What the caller should do after a key press.
#[derive(Debug, Clone, Copy, PartialEq, Eq, Structural)]
pub enum EditorAction {
    Continue,
    Save,
    Quit,
    SaveAndQuit,
}

/// The editor: text, cursor, file name and whether there are unsaved edits.
pub struct TextEditor {
    buffer: [u8; MAX_BUFFER_SIZE],
    buffer_len: usize,
    cursor_pos: usize,
    filename: [u8; MAX_EDITOR_FILENAME],
    filename_len: usize,
    modified: bool,
}

/// `e` is Ctrl with the letter whose lower case is `lower`.
pub open spec fn ctrl_letter(e: KeyEvent, lower: u8) -> bool {
    e.ctrl && (e.key == Key::Char(lower) || e.key == Key::Char((lower - 32) as u8))
}

/// The action a key press asks for: Ctrl+S saves, Ctrl+Q quits, Ctrl+X
/// saves and quits; anything else is an edit.
pub open spec fn key_action(e: KeyEvent) -> EditorAction {
    if ctrl_letter(e, 0x73) {
        EditorAction::Save
    } else if ctrl_letter(e, 0x71) {
        EditorAction::Quit
    } else if ctrl_letter(e, 0x78) {
        EditorAction::SaveAndQuit
    } else {
        EditorAction::Continue
    }
}

/// `b` is `a` with `c` typed at the cursor (when there is room).
pub open spec fn inserted(a: TextEditor, b: TextEditor, c: u8) -> bool {
    &&& b.filename() == a.filename()
    &&& if a.text().len() < MAX_BUFFER_SIZE {
        &&& b.text() == a.text().insert(a.cursor() as int, c)
        &&& b.cursor() == a.cursor() + 1
        &&& b.modified()
    } else {
        &&& b.text() == a.text()
        &&& b.cursor() == a.cursor()
        &&& b.modified() == a.modified()
    }
}

/// `b` is `a` with the byte before the cursor erased (when there is one).
pub open spec fn erased(a: TextEditor, b: TextEditor) -> bool {
    &&& b.filename() == a.filename()
    &&& if a.cursor() > 0 {
        &&& b.text() == a.text().remove(a.cursor() - 1)
        &&& b.cursor() == a.cursor() - 1
        &&& b.modified()
    } else {
        &&& b.text() == a.text()
        &&& b.cursor() == a.cursor()
        &&& b.modified() == a.modified()
    }
}

/// `b` is `a` with only the cursor at `cursor`.
pub open spec fn moved(a: TextEditor, b: TextEditor, cursor: nat) -> bool {
    &&& b.filename() == a.filename()
    &&& b.text() == a.text()
    &&& b.modified() == a.modified()
    &&& b.cursor() == cursor
}

impl TextEditor {
    pub closed spec fn wf(&self) -> bool {
        &&& self.buffer_len <= MAX_BUFFER_SIZE
        &&& self.cursor_pos <= self.buffer_len
        &&& self.filename_len <= MAX_EDITOR_FILENAME
    }

    pub closed spec fn text(&self) -> Seq<u8> {
        self.buffer@.subrange(0, self.buffer_len as int)
    }

    pub closed spec fn cursor(&self) -> nat {
        self.cursor_pos as nat
    }

    pub closed spec fn filename(&self) -> Seq<u8> {
        self.filename@.subrange(0, self.filename_len as int)
    }

    pub closed spec fn modified(&self) -> bool {
        self.modified
    }

    pub proof fn lemma_wf(&self)
        requires
            self.wf(),
        ensures
            self.text().len() <= MAX_BUFFER_SIZE,
            self.cursor() <= self.text().len(),
            self.filename().len() <= MAX_EDITOR_FILENAME,
    {
    }

    /// What `render` draws.
    pub open spec fn frame(&self) -> Seq<u8> {
        CLEAR_SCREEN.spec_bytes() + EDITOR_TITLE.spec_bytes() + FILE_LABEL.spec_bytes()
            + text_or_empty(self.filename()) + (if self.modified() {
            MODIFIED_MARK.spec_bytes()
        } else {
            Seq::empty()
        }) + NEWLINE.spec_bytes() + EDITOR_HELP.spec_bytes() + RULE.spec_bytes() + self.text()
            + END_RULE.spec_bytes()
    }

    pub fn empty() -> (r: TextEditor)
        ensures
            r.wf(),
            r.text() == Seq::<u8>::empty(),
            r.cursor() == 0,
            r.filename() == Seq::<u8>::empty(),
            !r.modified(),
    {
        let r = TextEditor {
            buffer: [0u8; MAX_BUFFER_SIZE],
            buffer_len: 0,
            cursor_pos: 0,
            filename: [0u8; MAX_EDITOR_FILENAME],
            filename_len: 0,
            modified: false,
        };
        assert(r.text() =~= Seq::<u8>::empty());
        assert(r.filename() =~= Seq::<u8>::empty());
        r
    }

    pub fn new() -> (r: TextEditor)
        ensures
            r.wf(),
            r.text() == Seq::<u8>::empty(),
            r.cursor() == 0,
            r.filename() == Seq::<u8>::empty(),
            !r.modified(),
    {
        TextEditor::empty()
    }

    /// Sets the name of the file being edited, cut to the longest allowed.
    pub fn set_filename(&mut self, name: &str)
        requires
            old(self).wf(),
        ensures
            final(self).wf(),
            final(self).filename() == prefix(name.spec_bytes(), MAX_EDITOR_FILENAME as int),
            final(self).text() == old(self).text(),
            final(self).cursor() == old(self).cursor(),
            final(self).modified() == old(self).modified(),
    {
        let bytes = name.as_bytes();
        let len: usize = if bytes.len() < MAX_EDITOR_FILENAME {
            bytes.len()
        } else {
            MAX_EDITOR_FILENAME
        };
        let mut i: usize = 0;
        while i < len
            invariant
                len <= MAX_EDITOR_FILENAME,
                len <= bytes@.len(),
                0 <= i <= len,
                self.buffer == old(self).buffer,
                self.buffer_len == old(self).buffer_len,
                self.cursor_pos == old(self).cursor_pos,
                self.modified == old(self).modified,
                forall|k: int| 0 <= k < i ==> self.filename@[k] == bytes@[k],
            decreases len - i,
        {
            self.filename[i] = bytes[i];
            i += 1;
        }
        self.filename_len = len;
        assert(self.filename() =~= prefix(name.spec_bytes(), MAX_EDITOR_FILENAME as int));
    }

    /// The file name as text (empty when it is not valid UTF-8).
    pub fn get_filename(&self) -> (r: &str)
        requires
            self.wf(),
        ensures
            r.spec_bytes() == text_or_empty(self.filename()),
    {
        let all = self.filename.as_slice();
        str_or_empty(&all[0..self.filename_len])
    }

    /// Replaces the text by `data`, cut to the buffer size, with the cursor
    /// at the end and no unsaved edits.
    pub fn load_content(&mut self, data: &[u8])
        requires
            old(self).wf(),
        ensures
            final(self).wf(),
            final(self).text() == prefix(data@, MAX_BUFFER_SIZE as int),
            final(self).cursor() == final(self).text().len(),
            !final(self).modified(),
            final(self).filename() == old(self).filename(),
    {
        let len: usize = if data.len() < MAX_BUFFER_SIZE {
            data.len()
        } else {
            MAX_BUFFER_SIZE
        };
        let mut i: usize = 0;
        while i < len
            invariant
                len <= MAX_BUFFER_SIZE,
                len <= data@.len(),
                0 <= i <= len,
                self.filename == old(self).filename,
                self.filename_len == old(self).filename_len,
                self.filename_len <= MAX_EDITOR_FILENAME,
                forall|k: int| 0 <= k < i ==> self.buffer@[k] == data@[k],
            decreases len - i,
        {
            self.buffer[i] = data[i];
            i += 1;
        }
        self.buffer_len = len;
        self.cursor_pos = len;
        self.modified = false;
        assert(self.text() =~= prefix(data@, MAX_BUFFER_SIZE as int));
    }

    /// The text.
    pub fn get_content(&self) -> (r: &[u8])
        requires
            self.wf(),
        ensures
            r@ == self.text(),
    {
        let all = self.buffer.as_slice();
        &all[0..self.buffer_len]
    }

    /// Types `c` at the cursor, if the buffer has room.
    pub fn insert_char(&mut self, c: u8)
        requires
            old(self).wf(),
        ensures
            final(self).wf(),
            inserted(*old(self), *final(self), c),
    {
        if self.buffer_len < MAX_BUFFER_SIZE && self.cursor_pos <= self.buffer_len {
            let mut i: usize = self.buffer_len;
            while i > self.cursor_pos
                invariant
                    self.cursor_pos <= i <= self.buffer_len < MAX_BUFFER_SIZE,
                    self.buffer_len == old(self).buffer_len,
                    self.cursor_pos == old(self).cursor_pos,
                    self.filename == old(self).filename,
                    self.filename_len == old(self).filename_len,
                    self.filename_len <= MAX_EDITOR_FILENAME,
                    forall|k: int| 0 <= k < i ==> self.buffer@[k] == old(self).buffer@[k],
                    forall|k: int| i < k <= self.buffer_len ==> self.buffer@[k] == old(self).buffer@[k - 1],
                decreases i,
            {
                self.buffer[i] = self.buffer[i - 1];
                i -= 1;
            }
            self.buffer[self.cursor_pos] = c;
            self.buffer_len += 1;
            self.cursor_pos += 1;
            self.modified = true;
            assert(self.text() =~= old(self).text().insert(old(self).cursor() as int, c));
        }
    }

    /// Erases the byte before the cursor; false when there is none.
    pub fn delete_char(&mut self) -> (r: bool)
        requires
            old(self).wf(),
        ensures
            final(self).wf(),
            r == (old(self).cursor() > 0),
            erased(*old(self), *final(self)),
    {
        if self.cursor_pos > 0 && self.buffer_len > 0 {
            let mut i: usize = self.cursor_pos;
            while i < self.buffer_len
                invariant
                    0 < self.cursor_pos <= i <= self.buffer_len <= MAX_BUFFER_SIZE,
                    self.buffer_len == old(self).buffer_len,
                    self.cursor_pos == old(self).cursor_pos,
                    self.filename == old(self).filename,
                    self.filename_len == old(self).filename_len,
                    self.filename_len <= MAX_EDITOR_FILENAME,
                    forall|k: int| 0 <= k < self.cursor_pos - 1 ==> self.buffer@[k] == old(self).buffer@[k],
                    forall|k: int| self.cursor_pos - 1 <= k < i - 1 ==> self.buffer@[k] == old(self).buffer@[k + 1],
                    forall|k: int| i <= k < MAX_BUFFER_SIZE ==> self.buffer@[k] == old(self).buffer@[k],
                decreases self.buffer_len - i,
            {
                self.buffer[i - 1] = self.buffer[i];
                i += 1;
            }
            self.buffer_len -= 1;
            self.cursor_pos -= 1;
            self.modified = true;
            assert(self.text() =~= old(self).text().remove(old(self).cursor() - 1));
            true
        } else {
            false
        }
    }

    /// Moves the cursor one byte left; false at the start.
    pub fn move_cursor_left(&mut self) -> (r: bool)
        requires
            old(self).wf(),
        ensures
            final(self).wf(),
            r == (old(self).cursor() > 0),
            moved(*old(self), *final(self), if r { (old(self).cursor() - 1) as nat } else { old(self).cursor() }),
    {
        if self.cursor_pos > 0 {
            self.cursor_pos -= 1;
            true
        } else {
            false
        }
    }

    /// Moves the cursor one byte right; false at the end.
    pub fn move_cursor_right(&mut self) -> (r: bool)
        requires
            old(self).wf(),
        ensures
            final(self).wf(),
            r == (old(self).cursor() < old(self).text().len()),
            moved(*old(self), *final(self), if r { old(self).cursor() + 1 } else { old(self).cursor() }),
    {
        if self.cursor_pos < self.buffer_len {
            self.cursor_pos += 1;
            true
        } else {
            false
        }
    }

    pub fn is_modified(&self) -> (r: bool)
        ensures
            r == self.modified(),
    {
        self.modified
    }

    /// Records that the text was saved.
    pub fn mark_saved(&mut self)
        requires
            old(self).wf(),
        ensures
            final(self).wf(),
            !final(self).modified(),
            final(self).text() == old(self).text(),
            final(self).cursor() == old(self).cursor(),
            final(self).filename() == old(self).filename(),
    {
        self.modified = false;
    }

    /// Redraws the whole editor on `screen`.
    pub fn render(&self, screen: &mut Screen)
        requires
            self.wf(),
        ensures
            final(screen)@ == old(screen)@ + self.frame(),
    {
        screen.clear();
        screen.puts(EDITOR_TITLE);
        screen.puts(FILE_LABEL);
        screen.puts(self.get_filename());
        if self.modified {
            screen.puts(MODIFIED_MARK);
        }
        screen.puts(NEWLINE);
        screen.puts(EDITOR_HELP);
        screen.puts(RULE);
        screen.write_bytes(self.get_content());
        screen.puts(END_RULE);
        assert(screen@ =~= old(screen)@ + self.frame());
    }

    /// Handles one key press: the save and quit chords are returned to the
    /// caller untouched; arrows move the cursor, Backspace erases, Enter and
    /// characters are typed, and the editor is redrawn after each change.
    pub fn handle_key(&mut self, event: &KeyEvent, screen: &mut Screen) -> (r: EditorAction)
        requires
            old(self).wf(),
        ensures
            final(self).wf(),
            r == key_action(*event),
            r != EditorAction::Continue ==> *final(self) == *old(self) && final(screen)@ == old(
                screen,
            )@,
            r == EditorAction::Continue ==> match event.key {
                Key::Left => moved(
                    *old(self),
                    *final(self),
                    if old(self).cursor() > 0 { (old(self).cursor() - 1) as nat } else { old(self).cursor() },
                ) && final(screen)@ == old(screen)@ + final(self).frame(),
                Key::Right => moved(
                    *old(self),
                    *final(self),
                    if old(self).cursor() < old(self).text().len() { old(self).cursor() + 1 } else { old(self).cursor() },
                ) && final(screen)@ == old(screen)@ + final(self).frame(),
                Key::Backspace => erased(*old(self), *final(self)) && final(screen)@ == if old(
                    self,
                ).cursor() > 0 {
                    old(screen)@ + final(self).frame()
                } else {
                    old(screen)@
                },
                Key::Char(c) => inserted(*old(self), *final(self), c) && final(screen)@ == old(
                    screen,
                )@ + final(self).frame(),
                Key::Enter => inserted(*old(self), *final(self), 0x0A) && final(screen)@ == old(
                    screen,
                )@ + final(self).frame(),
                _ => *final(self) == *old(self) && final(screen)@ == old(screen)@,
            },
    {
        if event.ctrl && (event.key == Key::Char(0x73) || event.key == Key::Char(0x53)) {
            return EditorAction::Save;
        }
        if event.ctrl && (event.key == Key::Char(0x71) || event.key == Key::Char(0x51)) {
            return EditorAction::Quit;
        }
        if event.ctrl && (event.key == Key::Char(0x78) || event.key == Key::Char(0x58)) {
            return EditorAction::SaveAndQuit;
        }
        match event.key {
            Key::Left => {
                self.move_cursor_left();
                self.render(screen);
            },
            Key::Right => {
                self.move_cursor_right();
                self.render(screen);
            },
            Key::Backspace => {
                if self.delete_char() {
                    self.render(screen);
                }
            },
            Key::Char(c) => {
                self.insert_char(c);
                self.render(screen);
            },
            Key::Enter => {
                self.insert_char(0x0A);
                self.render(screen);
            },
            _ => {},
        }
        EditorAction::Continue
    }
}

} // verus!
