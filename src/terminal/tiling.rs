//! Pane layout of a desktop: one full pane, or two side by side or stacked.
use vstd::prelude::*;

use super::screen::Screen;
use crate::drivers::uart::Uart;

verus! {

/// Most panes a layout holds.
pub const MAX_PANES: usize = 4;

#[derive(Debug, Clone, Copy, PartialEq, Eq, Structural)]
pub enum TileLayout {
    /// One full pane.
    Single,
    /// Two panes side by side.
    Vertical,
    /// Two panes stacked.
    Horizontal,
    /// Four panes in a 2x2 grid.
    Quad,
}

/// One pane: a screen and its place in the layout.
pub struct Pane {
    screen: Screen,
    is_active: bool,
    pane_id: usize,
}

impl Pane {
    pub closed spec fn active(&self) -> bool {
        self.is_active
    }

    pub closed spec fn id(&self) -> usize {
        self.pane_id
    }

    pub closed spec fn screen(&self) -> Screen {
        self.screen
    }

    pub fn empty() -> (r: Pane)
        ensures
            !r.active(),
            r.id() == 0,
            r.screen()@ == Seq::<u8>::empty(),
    {
        Pane { screen: Screen::empty(), is_active: false, pane_id: 0 }
    }

    pub fn new(uart: Uart, pane_id: usize) -> (r: Pane)
        ensures
            r.active(),
            r.id() == pane_id,
            r.screen()@ == Seq::<u8>::empty(),
            r.screen().uart() == uart,
            !r.screen().prompt_shown(),
    {
        Pane { screen: Screen::new(uart), is_active: true, pane_id }
    }

    pub fn screen_mut(&mut self) -> (r: &mut Screen)
        ensures
            *r == old(self).screen(),
            final(self).screen() == *final(r),
            final(self).active() == old(self).active(),
            final(self).id() == old(self).id(),
    {
        &mut self.screen
    }
}

/// The panes of a desktop and which of them has the focus.
pub struct TilingManager {
    panes: Vec<Pane>,
    active_pane: usize,
    layout: TileLayout,
    pane_count: usize,
}

impl TilingManager {
    pub closed spec fn wf(&self) -> bool {
        self.panes@.len() == MAX_PANES && self.pane_count <= MAX_PANES
    }

    pub closed spec fn layout(&self) -> TileLayout {
        self.layout
    }

    pub closed spec fn active(&self) -> usize {
        self.active_pane
    }

    pub closed spec fn count(&self) -> usize {
        self.pane_count
    }

    pub closed spec fn panes(&self) -> Seq<Pane> {
        self.panes@
    }

    /// The pane in slot `i`.
    pub closed spec fn pane(&self, i: int) -> Pane {
        self.panes@[i]
    }

    pub fn empty() -> (r: TilingManager)
        ensures
            r.wf(),
            r.active() == 0,
            r.layout() == TileLayout::Single,
            r.count() == 0,
            forall|i: int| 0 <= i < MAX_PANES ==> !(#[trigger] r.pane(i)).active(),
    {
        let mut panes: Vec<Pane> = Vec::new();
        let mut i: usize = 0;
        while i < MAX_PANES
            invariant
                i <= MAX_PANES,
                panes@.len() == i,
                forall|j: int| 0 <= j < i ==> !(#[trigger] panes@[j]).active(),
            decreases MAX_PANES - i,
        {
            panes.push(Pane::empty());
            i += 1;
        }
        TilingManager { panes, active_pane: 0, layout: TileLayout::Single, pane_count: 0 }
    }

    /// Starts with a single pane in focus.
    pub fn init(&mut self, _uart: Uart)
        requires
            old(self).wf(),
        ensures
            final(self).wf(),
            final(self).panes() == old(self).panes(),
            final(self).count() == 1,
            final(self).active() == 0,
            final(self).layout() == TileLayout::Single,
    {
        self.pane_count = 1;
        self.active_pane = 0;
        self.layout = TileLayout::Single;
    }

    /// Splits a single pane into two side by side.
    pub fn split_vertical(&mut self, uart: Uart) -> (r: bool)
        requires
            old(self).wf(),
        ensures
            final(self).wf(),
            r == (old(self).count() < MAX_PANES && old(self).layout() == TileLayout::Single),
            r ==> final(self).count() == 2 && final(self).layout() == TileLayout::Vertical
                && final(self).pane(1).active() && final(self).pane(1).id() == 1
                && final(self).pane(1).screen()@ == Seq::<u8>::empty()
                && final(self).pane(1).screen().uart() == uart
                && !final(self).pane(1).screen().prompt_shown()
                && final(self).active() == old(self).active()
                && forall|i: int| 0 <= i < MAX_PANES && i != 1 ==> #[trigger] final(self).pane(i) == old(self).pane(i),
            !r ==> *final(self) == *old(self),
    {
        self.split(uart, TileLayout::Vertical)
    }

    /// Splits a single pane into two stacked.
    pub fn split_horizontal(&mut self, uart: Uart) -> (r: bool)
        requires
            old(self).wf(),
        ensures
            final(self).wf(),
            r == (old(self).count() < MAX_PANES && old(self).layout() == TileLayout::Single),
            r ==> final(self).count() == 2 && final(self).layout() == TileLayout::Horizontal
                && final(self).pane(1).active() && final(self).pane(1).id() == 1
                && final(self).pane(1).screen()@ == Seq::<u8>::empty()
                && final(self).pane(1).screen().uart() == uart
                && !final(self).pane(1).screen().prompt_shown()
                && final(self).active() == old(self).active()
                && forall|i: int| 0 <= i < MAX_PANES && i != 1 ==> #[trigger] final(self).pane(i) == old(self).pane(i),
            !r ==> *final(self) == *old(self),
    {
        self.split(uart, TileLayout::Horizontal)
    }

    fn split(&mut self, uart: Uart, layout: TileLayout) -> (r: bool)
        requires
            old(self).wf(),
        ensures
            final(self).wf(),
            r == (old(self).count() < MAX_PANES && old(self).layout() == TileLayout::Single),
            r ==> final(self).count() == 2 && final(self).layout() == layout
                && final(self).pane(1).active() && final(self).pane(1).id() == 1
                && final(self).pane(1).screen()@ == Seq::<u8>::empty()
                && final(self).pane(1).screen().uart() == uart
                && !final(self).pane(1).screen().prompt_shown()
                && final(self).active() == old(self).active()
                && forall|i: int| 0 <= i < MAX_PANES && i != 1 ==> #[trigger] final(self).pane(i) == old(self).pane(i),
            !r ==> *final(self) == *old(self),
    {
        if self.pane_count >= MAX_PANES {
            return false;
        }
        match self.layout {
            TileLayout::Single => {
                self.panes.set(1, Pane::new(uart, 1));
                self.pane_count = 2;
                self.layout = layout;
                true
            },
            _ => false,
        }
    }

    /// Moves the focus to the next pane, wrapping around.
    pub fn next_pane(&mut self) -> (r: bool)
        ensures
            r == (old(self).count() > 1),
            final(self).active() == if r {
                ((old(self).active() + 1) % (old(self).count() as int)) as usize
            } else {
                old(self).active()
            },
            final(self).panes() == old(self).panes(),
            final(self).count() == old(self).count(),
            final(self).layout() == old(self).layout(),
    {
        if self.pane_count <= 1 {
            return false;
        }
        self.active_pane = ((self.active_pane as u128 + 1) % self.pane_count as u128) as usize;
        true
    }

    /// Moves the focus to the previous pane, wrapping around.
    pub fn prev_pane(&mut self) -> (r: bool)
        ensures
            r == (old(self).count() > 1),
            final(self).active() == if !r {
                old(self).active()
            } else if old(self).active() == 0 {
                (old(self).count() - 1) as usize
            } else {
                (old(self).active() - 1) as usize
            },
            final(self).panes() == old(self).panes(),
            final(self).count() == old(self).count(),
            final(self).layout() == old(self).layout(),
    {
        if self.pane_count <= 1 {
            return false;
        }
        if self.active_pane == 0 {
            self.active_pane = self.pane_count - 1;
        } else {
            self.active_pane -= 1;
        }
        true
    }

    /// The pane in focus, if it is a live one.
    pub fn current_pane_mut(&mut self) -> (r: Option<&mut Pane>)
        requires
            old(self).wf(),
        ensures
            r is Some <==> old(self).active() < old(self).count() && old(self).pane(
                old(self).active() as int,
            ).active(),
            r matches Some(p) ==> {
                &&& *p == old(self).pane(old(self).active() as int)
                &&& final(self).panes() == old(self).panes().update(old(self).active() as int, *final(p))
                &&& final(self).active() == old(self).active()
                &&& final(self).count() == old(self).count()
                &&& final(self).layout() == old(self).layout()
            },
            r is None ==> *final(self) == *old(self),
    {
        if self.active_pane < self.pane_count && self.panes[self.active_pane].is_active {
            Some(&mut self.panes[self.active_pane])
        } else {
            None
        }
    }

    pub fn get_layout(&self) -> (r: TileLayout)
        ensures
            r == self.layout(),
    {
        self.layout
    }

    pub fn get_active_pane(&self) -> (r: usize)
        ensures
            r == self.active(),
    {
        self.active_pane
    }

    pub fn get_pane_count(&self) -> (r: usize)
        ensures
            r == self.count(),
    {
        self.pane_count
    }
}

} // verus!
