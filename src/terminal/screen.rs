//! A console screen: the bytes written to it wait here until the owner of
//! the serial device sends them out.
use vstd::prelude::*;
use vstd::string::StringSliceAdditionalSpecFns;

use crate::drivers::uart::Uart;

verus! {

/// ANSI sequence that clears the terminal and homes the cursor.
pub const CLEAR_SCREEN: &'static str = "\x1B[2J\x1B[H";

/// A console screen with the output not yet sent.
pub struct Screen {
    uart: Uart,
    prompt_shown: bool,
    output: Vec<u8>,
}

impl View for Screen {
    type V = Seq<u8>;

    /// The bytes written and not yet taken.
    closed spec fn view(&self) -> Seq<u8> {
        self.output@
    }
}

impl Screen {
    /// The serial port the screen belongs to.
    pub closed spec fn uart(&self) -> Uart {
        self.uart
    }

    /// Whether a prompt is on the screen since it was last cleared.
    pub closed spec fn prompt_shown(&self) -> bool {
        self.prompt_shown
    }

    pub fn empty() -> (r: Screen)
        ensures
            r@ == Seq::<u8>::empty(),
            r.uart() == Uart,
            !r.prompt_shown(),
    {
        Screen { uart: Uart::empty(), prompt_shown: false, output: Vec::new() }
    }

    pub fn new(uart: Uart) -> (r: Screen)
        ensures
            r@ == Seq::<u8>::empty(),
            r.uart() == uart,
            !r.prompt_shown(),
    {
        Screen { uart, prompt_shown: false, output: Vec::new() }
    }

    /// Clears the terminal.
    pub fn clear(&mut self)
        ensures
            final(self)@ == old(self)@ + CLEAR_SCREEN.spec_bytes(),
    {
        self.puts(CLEAR_SCREEN);
        self.prompt_shown = false;
    }

    pub fn putc(&mut self, c: u8)
        ensures
            final(self)@ == old(self)@.push(c),
    {
        self.output.push(c);
    }

    pub fn puts(&mut self, s: &str)
        ensures
            final(self)@ == old(self)@ + s.spec_bytes(),
    {
        self.write_bytes(s.as_bytes());
    }

    /// Writes raw bytes.
    pub fn write_bytes(&mut self, bytes: &[u8])
        ensures
            final(self)@ == old(self)@ + bytes@,
    {
        let mut i: usize = 0;
        while i < bytes.len()
            invariant
                0 <= i <= bytes@.len(),
                self@ == old(self)@ + bytes@.subrange(0, i as int),
            decreases bytes@.len() - i,
        {
            self.output.push(bytes[i]);
            i += 1;
            assert(self@ =~= old(self)@ + bytes@.subrange(0, i as int));
        }
        assert(bytes@.subrange(0, bytes@.len() as int) =~= bytes@);
    }

    /// Output goes straight to the device, so there is nothing to redraw.
    pub fn render(&self) {
    }

    /// The bytes written and not yet taken.
    pub fn output(&self) -> (r: &[u8])
        ensures
            r@ == self@,
    {
        self.output.as_slice()
    }

    /// Takes the bytes written so far, leaving none.
    pub fn take_output(&mut self) -> (r: Vec<u8>)
        ensures
            r@ == old(self)@,
            final(self)@ == Seq::<u8>::empty(),
    {
        let mut out: Vec<u8> = Vec::new();
        std::mem::swap(&mut out, &mut self.output);
        out
    }
}

} // verus!
