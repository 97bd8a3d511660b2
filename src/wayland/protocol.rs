//! Protocol messages, interfaces and registry entries.
use vstd::prelude::*;

verus! {

/// Identifier of a protocol object.
pub type ObjectId = u32;

/// The requests the dispatcher understands.
#[derive(Debug, Clone, Copy, PartialEq, Eq, Structural)]
pub enum MessageType {
    DisplaySync,
    DisplayGetRegistry,
    RegistryBind,
    CompositorCreateSurface,
    SurfaceAttach,
    SurfaceCommit,
    SurfaceDestroy,
}

/// A request addressed to an object.
#[derive(Debug, Clone, Copy, PartialEq, Eq, Structural)]
pub struct Message {
    pub object_id: ObjectId,
    pub opcode: u16,
    pub message_type: MessageType,
}

impl Message {
    pub fn new(object_id: ObjectId, opcode: u16, message_type: MessageType) -> (r: Message)
        ensures
            r == (Message { object_id, opcode, message_type }),
    {
        Message { object_id, opcode, message_type }
    }
}

/// A global that the registry advertises.
#[derive(Debug, Clone, Copy, PartialEq, Eq, Structural)]
pub struct GlobalEntry {
    pub name: u32,
    pub interface: Interface,
    pub version: u32,
}

/// The protocol interfaces.
#[derive(Debug, Clone, Copy, PartialEq, Eq, Structural)]
pub enum Interface {
    Display,
    Registry,
    Compositor,
    Surface,
    Seat,
    Output,
}

impl Interface {
    /// The interface's protocol name.
    pub open spec fn spec_name(self) -> &'static str {
        match self {
            Interface::Display => "wl_display",
            Interface::Registry => "wl_registry",
            Interface::Compositor => "wl_compositor",
            Interface::Surface => "wl_surface",
            Interface::Seat => "wl_seat",
            Interface::Output => "wl_output",
        }
    }

    pub fn name(&self) -> (r: &'static str)
        ensures
            r == self.spec_name(),
    {
        match self {
            Interface::Display => "wl_display",
            Interface::Registry => "wl_registry",
            Interface::Compositor => "wl_compositor",
            Interface::Surface => "wl_surface",
            Interface::Seat => "wl_seat",
            Interface::Output => "wl_output",
        }
    }
}

} // verus!
