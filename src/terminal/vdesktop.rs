//! Virtual desktops: each has a name, a screen and a line of pending input.
use vstd::prelude::*;
use vstd::string::StringSliceAdditionalSpecFns;

use super::screen::Screen;
use crate::drivers::uart::Uart;
use crate::filesystem::vfs::prefix;

verus! {

/// Longest desktop name, in bytes.
pub const MAX_NAME_LEN: usize = 16;

/// Longest pending input line, in bytes.
pub const MAX_INPUT_LEN: usize = 32;

/// Name given to the first desktop at boot.
pub const FIRST_DESKTOP_NAME: &'static str = "Desktop 1";

/// Name given to the second desktop when it is opened.
pub const SECOND_DESKTOP_NAME: &'static str = "Desktop 2";

/// One virtual desktop.
pub struct VirtualDesktop {
    name: [u8; MAX_NAME_LEN],
    name_len: usize,
    screen: Screen,
    input_buffer: [u8; MAX_INPUT_LEN],
    input_len: usize,
    is_active: bool,
}

impl VirtualDesktop {
    pub closed spec fn wf(&self) -> bool {
        self.name_len <= MAX_NAME_LEN && self.input_len <= MAX_INPUT_LEN
    }

    pub closed spec fn name(&self) -> Seq<u8> {
        self.name@.subrange(0, self.name_len as int)
    }

    pub closed spec fn input(&self) -> Seq<u8> {
        self.input_buffer@.subrange(0, self.input_len as int)
    }

    pub closed spec fn screen(&self) -> Screen {
        self.screen
    }

    pub closed spec fn active(&self) -> bool {
        self.is_active
    }

    pub proof fn lemma_wf(&self)
        requires
            self.wf(),
        ensures
            self.name().len() <= MAX_NAME_LEN,
            self.input().len() <= MAX_INPUT_LEN,
    {
    }

    pub fn empty() -> (r: VirtualDesktop)
        ensures
            r.wf(),
            r.name() == Seq::<u8>::empty(),
            r.input() == Seq::<u8>::empty(),
            r.screen()@ == Seq::<u8>::empty(),
            !r.active(),
    {
        let r = VirtualDesktop {
            name: [0u8; MAX_NAME_LEN],
            name_len: 0,
            screen: Screen::empty(),
            input_buffer: [0u8; MAX_INPUT_LEN],
            input_len: 0,
            is_active: false,
        };
        assert(r.name() =~= Seq::<u8>::empty());
        assert(r.input() =~= Seq::<u8>::empty());
        r
    }

    /// Brings the desktop up with a fresh screen and the given name.
    pub fn init(&mut self, uart: Uart, name: &str)
        requires
            old(self).wf(),
        ensures
            final(self).wf(),
            final(self).name() == prefix(name.spec_bytes(), MAX_NAME_LEN as int),
            final(self).input() == old(self).input(),
            final(self).screen()@ == Seq::<u8>::empty(),
            final(self).active(),
    {
        self.screen = Screen::new(uart);
        self.set_name(name);
        self.is_active = true;
    }

    /// Renames the desktop, cutting the name to the longest allowed.
    pub fn set_name(&mut self, name: &str)
        requires
            old(self).wf(),
        ensures
            final(self).wf(),
            final(self).name() == prefix(name.spec_bytes(), MAX_NAME_LEN as int),
            final(self).input() == old(self).input(),
            final(self).screen() == old(self).screen(),
            final(self).active() == old(self).active(),
    {
        let bytes = name.as_bytes();
        let len: usize = if bytes.len() < MAX_NAME_LEN {
            bytes.len()
        } else {
            MAX_NAME_LEN
        };
        let mut i: usize = 0;
        while i < len
            invariant
                len <= MAX_NAME_LEN,
                len <= bytes@.len(),
                0 <= i <= len,
                self.input_len <= MAX_INPUT_LEN,
                self.input() == old(self).input(),
                self.screen == old(self).screen,
                self.is_active == old(self).is_active,
                forall|k: int| 0 <= k < i ==> self.name@[k] == bytes@[k],
            decreases len - i,
        {
            self.name[i] = bytes[i];
            i += 1;
        }
        self.name_len = len;
        assert(self.name() =~= prefix(name.spec_bytes(), MAX_NAME_LEN as int));
    }

    /// Copies the name into the start of `buf`, as much as fits, and
    /// returns the number of bytes copied.
    pub fn copy_name_to(&self, buf: &mut [u8]) -> (r: usize)
        requires
            self.wf(),
        ensures
            r == if self.name().len() <= old(buf)@.len() {
                self.name().len()
            } else {
                old(buf)@.len()
            },
            final(buf)@ == self.name().subrange(0, r as int) + old(buf)@.subrange(
                r as int,
                old(buf)@.len() as int,
            ),
    {
        let len: usize = if self.name_len <= buf.len() {
            self.name_len
        } else {
            buf.len()
        };
        let mut i: usize = 0;
        while i < len
            invariant
                len <= buf@.len(),
                len <= self.name_len <= MAX_NAME_LEN,
                0 <= i <= len,
                buf@.len() == old(buf)@.len(),
                forall|k: int| 0 <= k < i ==> buf@[k] == self.name@[k],
                forall|k: int| i <= k < buf@.len() ==> buf@[k] == old(buf)@[k],
            decreases len - i,
        {
            buf[i] = self.name[i];
            i += 1;
        }
        assert(buf@ =~= self.name().subrange(0, len as int) + old(buf)@.subrange(
            len as int,
            old(buf)@.len() as int,
        ));
        len
    }

    pub fn screen_mut(&mut self) -> (r: &mut Screen)
        ensures
            *r == old(self).screen(),
            final(self).screen() == *final(r),
            final(self).wf() == old(self).wf(),
            final(self).name() == old(self).name(),
            final(self).input() == old(self).input(),
            final(self).active() == old(self).active(),
    {
        &mut self.screen
    }

    /// Appends `c` to the pending input if there is room.
    pub fn add_input(&mut self, c: u8)
        requires
            old(self).wf(),
        ensures
            final(self).wf(),
            final(self).input() == if old(self).input().len() < MAX_INPUT_LEN {
                old(self).input().push(c)
            } else {
                old(self).input()
            },
            final(self).name() == old(self).name(),
            final(self).screen() == old(self).screen(),
            final(self).active() == old(self).active(),
    {
        if self.input_len < MAX_INPUT_LEN {
            self.input_buffer[self.input_len] = c;
            self.input_len += 1;
            assert(self.input() =~= old(self).input().push(c));
        }
    }

    /// Drops the last byte of the pending input, if any.
    pub fn remove_input(&mut self)
        requires
            old(self).wf(),
        ensures
            final(self).wf(),
            final(self).input() == if old(self).input().len() > 0 {
                old(self).input().drop_last()
            } else {
                old(self).input()
            },
            final(self).name() == old(self).name(),
            final(self).screen() == old(self).screen(),
            final(self).active() == old(self).active(),
    {
        if self.input_len > 0 {
            self.input_len -= 1;
            assert(self.input() =~= old(self).input().drop_last());
        }
    }

    /// The pending input.
    pub fn get_input(&self) -> (r: &[u8])
        requires
            self.wf(),
        ensures
            r@ == self.input(),
    {
        let all = self.input_buffer.as_slice();
        &all[0..self.input_len]
    }

    /// Discards the pending input.
    pub fn clear_input(&mut self)
        requires
            old(self).wf(),
        ensures
            final(self).wf(),
            final(self).input() == Seq::<u8>::empty(),
            final(self).name() == old(self).name(),
            final(self).screen() == old(self).screen(),
            final(self).active() == old(self).active(),
    {
        self.input_len = 0;
        assert(self.input() =~= Seq::<u8>::empty());
    }
}

/// Two virtual desktops, the second opened on demand, and which one is
/// shown.
pub struct VirtualDesktopManager {
    desktop1: VirtualDesktop,
    desktop2: VirtualDesktop,
    current_index: usize,
}

impl VirtualDesktopManager {
    pub open spec fn wf(&self) -> bool {
        self.first().wf() && self.second().wf()
    }

    pub closed spec fn first(&self) -> VirtualDesktop {
        self.desktop1
    }

    pub closed spec fn second(&self) -> VirtualDesktop {
        self.desktop2
    }

    pub closed spec fn index(&self) -> usize {
        self.current_index
    }

    /// The desktop shown, if it is a live one.
    pub open spec fn current(&self) -> Option<VirtualDesktop> {
        if self.index() == 0 && self.first().active() {
            Some(self.first())
        } else if self.index() == 1 && self.second().active() {
            Some(self.second())
        } else {
            None
        }
    }

    pub fn empty() -> (r: VirtualDesktopManager)
        ensures
            r.wf(),
            r.index() == 0,
            !r.first().active(),
            !r.second().active(),
    {
        VirtualDesktopManager {
            desktop1: VirtualDesktop::empty(),
            desktop2: VirtualDesktop::empty(),
            current_index: 0,
        }
    }

    /// Brings up the first desktop.
    pub fn init(&mut self, uart: Uart)
        requires
            old(self).wf(),
        ensures
            final(self).wf(),
            final(self).first().active(),
            final(self).first().name() == prefix(FIRST_DESKTOP_NAME.spec_bytes(), MAX_NAME_LEN as int),
            final(self).first().input() == old(self).first().input(),
            final(self).first().screen()@ == Seq::<u8>::empty(),
            final(self).second() == old(self).second(),
            final(self).index() == old(self).index(),
    {
        self.desktop1.init(uart, FIRST_DESKTOP_NAME);
    }

    /// The desktop shown, if it is a live one.
    pub fn current_mut(&mut self) -> (r: Option<&mut VirtualDesktop>)
        requires
            old(self).wf(),
        ensures
            r is Some <==> old(self).current() is Some,
            r matches Some(d) ==> {
                &&& *d == old(self).current()->0
                &&& final(self).index() == old(self).index()
                &&& old(self).index() == 0 ==> final(self).first() == *final(d) && final(self).second()
                    == old(self).second()
                &&& old(self).index() == 1 ==> final(self).second() == *final(d) && final(self).first()
                    == old(self).first()
            },
            r is None ==> *final(self) == *old(self),
    {
        if self.current_index == 0 && self.desktop1.is_active {
            Some(&mut self.desktop1)
        } else if self.current_index == 1 && self.desktop2.is_active {
            Some(&mut self.desktop2)
        } else {
            None
        }
    }

    /// Switches to the second desktop, opening it first if needed.
    pub fn next(&mut self, uart: Uart) -> (r: bool)
        requires
            old(self).wf(),
        ensures
            final(self).wf(),
            r == (old(self).index() == 0),
            r ==> final(self).index() == 1,
            !r ==> *final(self) == *old(self),
            final(self).first() == old(self).first(),
            r && !old(self).second().active() ==> {
                &&& final(self).second().active()
                &&& final(self).second().name() == prefix(SECOND_DESKTOP_NAME.spec_bytes(), MAX_NAME_LEN as int)
                &&& final(self).second().input() == old(self).second().input()
                &&& final(self).second().screen()@ == Seq::<u8>::empty()
            },
            old(self).second().active() ==> final(self).second() == old(self).second(),
    {
        if !self.desktop2.is_active && self.current_index == 0 {
            self.desktop2.init(uart, SECOND_DESKTOP_NAME);
            self.current_index = 1;
            true
        } else if self.current_index == 0 && self.desktop2.is_active {
            self.current_index = 1;
            true
        } else {
            false
        }
    }

    /// Switches to the previous desktop.
    pub fn previous(&mut self) -> (r: bool)
        ensures
            r == (old(self).index() > 0),
            final(self).index() == if r {
                (old(self).index() - 1) as usize
            } else {
                old(self).index()
            },
            final(self).first() == old(self).first(),
            final(self).second() == old(self).second(),
    {
        if self.current_index > 0 {
            self.current_index -= 1;
            true
        } else {
            false
        }
    }

    pub fn get_index(&self) -> (r: usize)
        ensures
            r == self.index(),
    {
        self.current_index
    }

    /// How many desktops are open.
    pub fn get_count(&self) -> (r: usize)
        ensures
            r == if self.second().active() {
                2usize
            } else {
                1usize
            },
    {
        if self.desktop2.is_active {
            2
        } else {
            1
        }
    }
}

} // verus!
