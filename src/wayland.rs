//! A minimal display-server core: global registry, client slots, surfaces
//! and protocol message dispatch.
pub mod compositor;
pub mod protocol;
pub mod surface;

pub use compositor::{CompositorState, WaylandCompositor};
pub use surface::Surface;
