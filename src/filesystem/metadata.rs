//! Catalog records: file kinds, per-file metadata and inodes.
use vstd::prelude::*;

verus! {

/// Permission bits given to every new file (not enforced).
pub const DEFAULT_PERMISSIONS: u16 = 0o644;

/// The kind of object an inode describes.
#[derive(Debug, Clone, Copy, PartialEq, Eq, Structural)]
pub enum FileType {
    Regular,
    Directory,
}

/// Attributes of one file, owned by its inode.
#[derive(Debug, Clone, Copy, PartialEq, Eq, Structural)]
pub struct Metadata {
    /// Number of bytes stored in the file's data block.
    pub size: usize,
    pub file_type: FileType,
    pub permissions: u16,
    /// Tick of the catalog clock at which the inode was allocated.
    pub created_at: u64,
    /// Tick of the catalog clock of the last change to the contents.
    pub modified_at: u64,
    pub owner_id: u16,
    pub group_id: u16,
}

impl Metadata {
    /// Metadata of an empty file of the given kind, not yet stamped.
    pub open spec fn spec_new(file_type: FileType) -> Metadata {
        Metadata {
            size: 0,
            file_type,
            permissions: DEFAULT_PERMISSIONS,
            created_at: 0,
            modified_at: 0,
            owner_id: 0,
            group_id: 0,
        }
    }

    pub fn new(file_type: FileType) -> (r: Metadata)
        ensures
            r == Metadata::spec_new(file_type),
    {
        Metadata {
            size: 0,
            file_type,
            permissions: DEFAULT_PERMISSIONS,
            created_at: 0,
            modified_at: 0,
            owner_id: 0,
            group_id: 0,
        }
    }
}

/// One catalog record: identity, metadata, owned data block and validity.
#[derive(Debug, Clone, Copy, PartialEq, Eq, Structural)]
pub struct Inode {
    pub id: usize,
    pub metadata: Metadata,
    /// Index of the data block this inode owns, if one was assigned.
    pub data_block: Option<usize>,
    /// Inode of the containing directory (always the root here).
    pub parent_id: usize,
    /// Cleared when the file is deleted; the id is never reused.
    pub is_valid: bool,
}

impl Inode {
    /// An unused catalog slot.
    pub open spec fn spec_empty() -> Inode {
        Inode {
            id: 0,
            metadata: Metadata::spec_new(FileType::Regular),
            data_block: None,
            parent_id: 0,
            is_valid: false,
        }
    }

    /// A live inode with fresh metadata and no data block.
    pub open spec fn spec_new(id: usize, file_type: FileType, parent_id: usize) -> Inode {
        Inode { id, metadata: Metadata::spec_new(file_type), data_block: None, parent_id, is_valid: true }
    }

    pub fn empty() -> (r: Inode)
        ensures
            r == Inode::spec_empty(),
    {
        Inode {
            id: 0,
            metadata: Metadata::new(FileType::Regular),
            data_block: None,
            parent_id: 0,
            is_valid: false,
        }
    }

    pub fn new(id: usize, file_type: FileType, parent_id: usize) -> (r: Inode)
        ensures
            r == Inode::spec_new(id, file_type, parent_id),
    {
        Inode { id, metadata: Metadata::new(file_type), data_block: None, parent_id, is_valid: true }
    }
}

} // verus!
