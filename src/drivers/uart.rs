//! Handle of the serial port that carries console input and output.
use vstd::prelude::*;

verus! {

/// The console serial port. The handle carries no state: bytes written to a
/// screen are collected there and sent out by the program that owns the
/// device.
#[derive(Clone, Copy, PartialEq, Eq, Structural)]
pub struct Uart;

impl Uart {
    pub fn empty() -> (r: Uart)
        ensures
            r == Uart,
    {
        Uart
    }

    pub fn new() -> (r: Uart)
        ensures
            r == Uart,
    {
        Uart
    }
}

} // verus!
