//! The in-memory virtual file system: inode catalog, flat directory and
//! data block pool.
pub mod metadata;

pub use metadata::{FileType, Inode, Metadata};
pub mod vfs;

pub use vfs::{FileEntry, FileHandle, FsError, VirtualFileSystem};
pub mod laws;
