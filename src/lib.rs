//! A small single-user system core: an in-memory virtual file system with a
//! metadata catalog, a line editor, a terminal multiplexer, a keyboard escape
//! sequence decoder and a minimal display-server registry.
pub mod drivers;
pub mod editor;
pub mod filesystem;
pub mod shell;
pub mod terminal;
pub mod utils;
pub mod wayland;
