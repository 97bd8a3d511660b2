//! Console output, virtual desktops and the tiling pane layout.
pub mod screen;
pub mod tiling;
pub mod vdesktop;


pub use screen::Screen;
pub use tiling::TilingManager;
pub use vdesktop::VirtualDesktopManager;

