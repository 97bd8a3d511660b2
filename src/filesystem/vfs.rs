//! The file system facade over a fixed-capacity inode table, a flat
//! directory of name bindings and a pool of fixed-size data blocks.
use vstd::prelude::*;
use vstd::string::StringSliceAdditionalSpecFns;

use super::metadata::{FileType, Inode, Metadata};

verus! {

/// Capacity of the inode table; inode 0 is the root directory.
pub const MAX_INODES: usize = 64;

/// Capacity of the directory.
pub const MAX_FILES: usize = 32;

/// Longest file name, in bytes.
pub const MAX_FILENAME_LEN: usize = 32;

/// Size of one data block, in bytes.
pub const DATA_BLOCK_SIZE: usize = 512;

/// Number of data blocks in the pool.
pub const MAX_DATA_BLOCKS: usize = 32;

/// What a file system operation can fail with.
#[derive(Debug, Clone, Copy, PartialEq, Eq, Structural)]
pub enum FsError {
    AlreadyExists,
    NotFound,
    InvalidInode,
    NotRegularFile,
    NoInodeSlot,
    NoDirectorySlot,
    NoBlockAvailable,
    NameTooLong,
}

impl FsError {
    pub open spec fn spec_str(self) -> &'static str {
        match self {
            FsError::AlreadyExists => "File already exists",
            FsError::NotFound => "File not found",
            FsError::InvalidInode => "Invalid inode",
            FsError::NotRegularFile => "Not a regular file",
            FsError::NoInodeSlot => "No more inodes available",
            FsError::NoDirectorySlot => "No more file entries available",
            FsError::NoBlockAvailable => "No data blocks available",
            FsError::NameTooLong => "File name too long",
        }
    }

    /// A short human-readable description.
    pub fn as_str(&self) -> (r: &'static str)
        ensures
            r == self.spec_str(),
    {
        match self {
            FsError::AlreadyExists => "File already exists",
            FsError::NotFound => "File not found",
            FsError::InvalidInode => "Invalid inode",
            FsError::NotRegularFile => "Not a regular file",
            FsError::NoInodeSlot => "No more inodes available",
            FsError::NoDirectorySlot => "No more file entries available",
            FsError::NoBlockAvailable => "No data blocks available",
            FsError::NameTooLong => "File name too long",
        }
    }
}

// ---------------------------------------------------------------------------
// Directory entries
// ---------------------------------------------------------------------------

/// The abstract content of a directory slot.
pub struct EntryView {
    pub name: Seq<u8>,
    pub inode_id: usize,
    pub is_valid: bool,
}

/// A binding of a name to an inode, stored in a directory slot.
#[derive(Clone, Copy)]
pub struct FileEntry {
    pub name: [u8; MAX_FILENAME_LEN],
    pub name_len: usize,
    pub inode_id: usize,
    pub is_valid: bool,
}

impl View for FileEntry {
    type V = EntryView;

    open spec fn view(&self) -> EntryView {
        EntryView {
            name: self.name@.subrange(0, self.name_len as int),
            inode_id: self.inode_id,
            is_valid: self.is_valid,
        }
    }
}

/// The first `n` bytes of `s`, or all of `s` when it is shorter.
pub open spec fn prefix(s: Seq<u8>, n: int) -> Seq<u8> {
    if s.len() <= n {
        s
    } else {
        s.subrange(0, n)
    }
}

impl FileEntry {
    pub fn empty() -> (r: FileEntry)
        ensures
            r.name_len == 0,
            !r.is_valid,
            r.inode_id == 0,
            r@.name.len() == 0,
            r.name@ == Seq::new(MAX_FILENAME_LEN as nat, |i: int| 0u8),
    {
        let r = FileEntry { name: [0u8; MAX_FILENAME_LEN], name_len: 0, inode_id: 0, is_valid: false };
        assert(r.name@ =~= Seq::new(MAX_FILENAME_LEN as nat, |i: int| 0u8));
        r
    }

    /// A valid entry for `name`, cut to the longest allowed name.
    pub fn new(name: &str, inode_id: usize) -> (r: FileEntry)
        ensures
            r.name_len <= MAX_FILENAME_LEN,
            forall|k: int| r.name_len <= k < MAX_FILENAME_LEN ==> r.name@[k] == 0,
            r@ == (EntryView {
                name: prefix(name.spec_bytes(), MAX_FILENAME_LEN as int),
                inode_id,
                is_valid: true,
            }),
    {
        let bytes = name.as_bytes();
        let mut entry = FileEntry::empty();
        let len: usize = if bytes.len() < MAX_FILENAME_LEN {
            bytes.len()
        } else {
            MAX_FILENAME_LEN
        };
        let mut i: usize = 0;
        while i < len
            invariant
                len <= MAX_FILENAME_LEN,
                len <= bytes@.len(),
                0 <= i <= len,
                entry.name@.len() == MAX_FILENAME_LEN,
                forall|k: int| 0 <= k < i ==> entry.name@[k] == bytes@[k],
                forall|k: int| i <= k < MAX_FILENAME_LEN ==> entry.name@[k] == 0,
            decreases len - i,
        {
            entry.name[i] = bytes[i];
            i += 1;
        }
        entry.name_len = len;
        entry.inode_id = inode_id;
        entry.is_valid = true;
        assert(entry@.name =~= prefix(name.spec_bytes(), MAX_FILENAME_LEN as int));
        entry
    }

    /// Whether this is a live binding of exactly `name`.
    pub fn matches(&self, name: &str) -> (r: bool)
        ensures
            r == (self.name_len <= MAX_FILENAME_LEN && self@.is_valid && self@.name
                == name.spec_bytes()),
    {
        let bytes = name.as_bytes();
        if !self.is_valid || self.name_len > MAX_FILENAME_LEN || self.name_len != bytes.len() {
            return false;
        }
        let mut i: usize = 0;
        while i < self.name_len
            invariant
                self.name_len <= MAX_FILENAME_LEN,
                self.name_len == bytes@.len(),
                bytes@ == name.spec_bytes(),
                0 <= i <= self.name_len,
                forall|k: int| 0 <= k < i ==> self.name@[k] == bytes@[k],
            decreases self.name_len - i,
        {
            if self.name[i] != bytes[i] {
                assert(self@.name[i as int] != name.spec_bytes()[i as int]);
                return false;
            }
            i += 1;
        }
        assert(self@.name =~= bytes@);
        true
    }
}


// ---------------------------------------------------------------------------
// Abstract state
// ---------------------------------------------------------------------------

/// Position of a file being read or written (carried for callers).
pub struct FileHandle {
    pub inode_id: usize,
    pub offset: usize,
}

/// The abstract state of a file system.
pub struct FsView {
    pub inodes: Seq<Inode>,
    pub files: Seq<EntryView>,
    pub blocks: Seq<Seq<u8>>,
    pub used: Seq<bool>,
    pub next_id: nat,
    pub clock: nat,
}

/// Index `k` holds the first `false` of `s`.
pub open spec fn is_first_false(s: Seq<bool>, k: int) -> bool {
    &&& 0 <= k < s.len()
    &&& !s[k]
    &&& forall|j: int| 0 <= j < k ==> s[j]
}

pub open spec fn has_false(s: Seq<bool>) -> bool {
    exists|k: int| 0 <= k < s.len() && !s[k]
}

/// The index of the first `false` of `s` (meaningful when there is one).
pub open spec fn first_false(s: Seq<bool>) -> int {
    choose|k: int| is_first_false(s, k)
}

pub proof fn lemma_first_false(s: Seq<bool>, k: int)
    requires
        is_first_false(s, k),
    ensures
        first_false(s) == k,
        has_false(s),
{
    let c = first_false(s);
    assert(is_first_false(s, c));
    if c < k {
        assert(s[c]);
    } else if k < c {
        assert(s[k]);
    }
}

/// Validity flags of the directory slots.
pub open spec fn entry_flags(files: Seq<EntryView>) -> Seq<bool> {
    files.map_values(|e: EntryView| e.is_valid)
}

/// Slot `k` holds a live binding of `name`.
pub open spec fn binds(files: Seq<EntryView>, k: int, name: Seq<u8>) -> bool {
    0 <= k < files.len() && files[k].is_valid && files[k].name == name
}

pub open spec fn has_name(files: Seq<EntryView>, name: Seq<u8>) -> bool {
    exists|k: int| binds(files, k, name)
}

/// The slot that binds `name` (meaningful when there is one).
pub open spec fn name_slot(files: Seq<EntryView>, name: Seq<u8>) -> int {
    choose|k: int| binds(files, k, name)
}

/// No two live bindings share a name.
pub open spec fn names_unique(files: Seq<EntryView>) -> bool {
    forall|k: int, l: int|
        0 <= k < files.len() && 0 <= l < files.len() && k != l && files[k].is_valid
            && files[l].is_valid ==> files[k].name != files[l].name
}

/// The names of the live bindings, in slot order.
pub open spec fn listed(files: Seq<EntryView>) -> Seq<Seq<u8>>
    decreases files.len(),
{
    if files.len() == 0 {
        Seq::empty()
    } else {
        let rest = listed(files.drop_last());
        if files.last().is_valid {
            rest.push(files.last().name)
        } else {
            rest
        }
    }
}

/// `n` bounded by the block size.
pub open spec fn clip(n: int) -> int {
    if n < DATA_BLOCK_SIZE {
        n
    } else {
        DATA_BLOCK_SIZE as int
    }
}

impl FsView {
    /// The structural and cross-table invariants of the catalog.
    pub open spec fn inv(self) -> bool {
        &&& self.inodes.len() == MAX_INODES
        &&& self.files.len() == MAX_FILES
        &&& self.blocks.len() == MAX_DATA_BLOCKS
        &&& self.used.len() == MAX_DATA_BLOCKS
        &&& forall|b: int| 0 <= b < MAX_DATA_BLOCKS ==> (#[trigger] self.blocks[b]).len()
            == DATA_BLOCK_SIZE
        &&& 1 <= self.next_id <= MAX_INODES
        &&& self.clock <= u64::MAX
        &&& forall|i: int| 0 <= i < MAX_INODES && #[trigger] self.inodes[i].is_valid
            ==> self.inode_ok(i)
        // a data block has at most one live owner
        &&& forall|i: int, j: int|
            0 <= i < MAX_INODES && 0 <= j < MAX_INODES && i != j && self.inodes[i].is_valid
                && self.inodes[j].is_valid && #[trigger] self.inodes[i].data_block is Some
                && #[trigger] self.inodes[j].data_block is Some
                ==> self.inodes[i].data_block != self.inodes[j].data_block
        // a block in use has a live owner
        &&& forall|b: int| 0 <= b < MAX_DATA_BLOCKS && #[trigger] self.used[b]
            ==> self.owned(b)
        // directory bindings
        &&& forall|k: int| 0 <= k < MAX_FILES && #[trigger] self.files[k].is_valid
            ==> self.entry_ok(k)
        &&& names_unique(self.files)
        &&& forall|k: int, l: int|
            0 <= k < MAX_FILES && 0 <= l < MAX_FILES && k != l && #[trigger] self.files[k].is_valid
                && #[trigger] self.files[l].is_valid ==> self.files[k].inode_id
                != self.files[l].inode_id
    }

    pub open spec fn owned(self, b: int) -> bool {
        exists|i: int|
            0 <= i < MAX_INODES && self.inodes[i].is_valid && #[trigger] self.inodes[i].data_block
                == Some(b as usize)
    }

    pub open spec fn inode_ok(self, i: int) -> bool {
        let ino = self.inodes[i];
        &&& ino.id == i
        &&& i < self.next_id
        &&& ino.parent_id == 0
        &&& ino.metadata.created_at <= ino.metadata.modified_at
        &&& ino.metadata.modified_at <= self.clock
        &&& ino.metadata.size <= DATA_BLOCK_SIZE
        &&& ino.data_block is None ==> ino.metadata.size == 0
        &&& ino.data_block matches Some(b) ==> b < MAX_DATA_BLOCKS && self.used[b as int]
    }

    pub open spec fn entry_ok(self, k: int) -> bool {
        let e = self.files[k];
        &&& e.name.len() <= MAX_FILENAME_LEN
        &&& 1 <= e.inode_id < MAX_INODES
        &&& self.inodes[e.inode_id as int].is_valid
        &&& self.inodes[e.inode_id as int].metadata.file_type == FileType::Regular
    }

    /// The inode that `id` names, if it is a live one.
    pub open spec fn live(self, id: usize) -> bool {
        id < MAX_INODES && self.inodes[id as int].is_valid
    }

    /// The tick that the next stamp gives.
    pub open spec fn tick(self) -> u64 {
        (self.clock + 1) as u64
    }

    /// Inode 0 is the live root directory, without a data block.
    pub open spec fn has_root(self) -> bool {
        &&& self.inodes[0].is_valid
        &&& self.inodes[0].metadata.file_type == FileType::Directory
        &&& self.inodes[0].data_block.is_none()
    }

    /// Empty tables: no live inode or directory entry, every block free and
    /// zeroed, the next id 1 and the clock at `clock`.
    pub open spec fn blank(clock: nat) -> FsView {
        FsView {
            inodes: Seq::new(MAX_INODES as nat, |i: int| Inode::spec_empty()),
            files: Seq::new(
                MAX_FILES as nat,
                |k: int| EntryView { name: Seq::empty(), inode_id: 0, is_valid: false },
            ),
            blocks: Seq::new(MAX_DATA_BLOCKS as nat, |b: int| Seq::new(DATA_BLOCK_SIZE as nat, |j: int| 0u8)),
            used: Seq::new(MAX_DATA_BLOCKS as nat, |b: int| false),
            next_id: 1,
            clock,
        }
    }

    /// The catalog right after boot, with the clock at `clock`.
    pub open spec fn booted(clock: nat) -> FsView {
        let root = Inode {
            metadata: Metadata {
                created_at: (clock + 1) as u64,
                modified_at: (clock + 1) as u64,
                ..Metadata::spec_new(FileType::Directory)
            },
            ..Inode::spec_new(0, FileType::Directory, 0)
        };
        let b = FsView::blank(clock + 1);
        FsView { inodes: b.inodes.update(0, root), ..b }
    }

    /// A new regular file in inode `next_id`, stamped with the next tick.
    pub open spec fn allocated(self) -> FsView {
        let id = self.next_id as usize;
        let ino = Inode {
            metadata: Metadata {
                created_at: self.tick(),
                modified_at: self.tick(),
                ..Metadata::spec_new(FileType::Regular)
            },
            ..Inode::spec_new(id, FileType::Regular, 0)
        };
        FsView {
            inodes: self.inodes.update(id as int, ino),
            next_id: self.next_id + 1,
            clock: self.clock + 1,
            ..self
        }
    }

    /// Inode `id` marked deleted.
    pub open spec fn invalidated(self, id: int) -> FsView {
        FsView {
            inodes: self.inodes.update(id, Inode { is_valid: false, ..self.inodes[id] }),
            ..self
        }
    }

    /// What `create_file(name)` returns.
    pub open spec fn create_result(self, name: Seq<u8>) -> Result<usize, FsError> {
        if has_name(self.files, name) {
            Err(FsError::AlreadyExists)
        } else if self.next_id >= MAX_INODES {
            Err(FsError::NoInodeSlot)
        } else if name.len() > MAX_FILENAME_LEN {
            Err(FsError::NameTooLong)
        } else if !has_false(entry_flags(self.files)) {
            Err(FsError::NoDirectorySlot)
        } else {
            Ok(self.next_id as usize)
        }
    }

    /// The state after `create_file(name)`.
    pub open spec fn create_post(self, name: Seq<u8>) -> FsView {
        let id = self.next_id as usize;
        match self.create_result(name) {
            Ok(_) => FsView {
                files: self.files.update(
                    first_false(entry_flags(self.files)),
                    EntryView { name, inode_id: id, is_valid: true },
                ),
                ..self.allocated()
            },
            Err(FsError::NameTooLong) => self.allocated().invalidated(id as int),
            Err(FsError::NoDirectorySlot) => self.allocated().invalidated(id as int),
            Err(_) => self,
        }
    }

    /// What `write_file(id, data)` returns.
    pub open spec fn write_result(self, id: usize, data: Seq<u8>) -> Result<usize, FsError> {
        if !self.live(id) {
            Err(FsError::InvalidInode)
        } else if self.inodes[id as int].metadata.file_type != FileType::Regular {
            Err(FsError::NotRegularFile)
        } else if self.inodes[id as int].data_block is None && !has_false(self.used) {
            Err(FsError::NoBlockAvailable)
        } else {
            Ok(clip(data.len() as int) as usize)
        }
    }

    /// The block that a successful `write_file(id, ..)` writes to.
    pub open spec fn write_block(self, id: usize) -> int {
        match self.inodes[id as int].data_block {
            Some(b) => b as int,
            None => first_false(self.used),
        }
    }

    /// The state after `write_file(id, data)`.
    pub open spec fn write_post(self, id: usize, data: Seq<u8>) -> FsView {
        match self.write_result(id, data) {
            Ok(n) => {
                let b = self.write_block(id);
                let old_ino = self.inodes[id as int];
                let ino = Inode {
                    metadata: Metadata { size: n, modified_at: self.tick(), ..old_ino.metadata },
                    data_block: Some(b as usize),
                    ..old_ino
                };
                FsView {
                    inodes: self.inodes.update(id as int, ino),
                    blocks: self.blocks.update(
                        b,
                        data.subrange(0, n as int) + self.blocks[b].subrange(
                            n as int,
                            DATA_BLOCK_SIZE as int,
                        ),
                    ),
                    used: self.used.update(b, true),
                    clock: self.clock + 1,
                    ..self
                }
            },
            Err(_) => self,
        }
    }

    /// What `read_file(id, buf)` returns for a buffer of `buf_len` bytes.
    pub open spec fn read_result(self, id: usize, buf_len: nat) -> Result<usize, FsError> {
        if !self.live(id) {
            Err(FsError::InvalidInode)
        } else if self.inodes[id as int].metadata.file_type != FileType::Regular {
            Err(FsError::NotRegularFile)
        } else if self.inodes[id as int].data_block is None {
            Ok(0)
        } else if self.inodes[id as int].metadata.size <= buf_len {
            Ok(self.inodes[id as int].metadata.size)
        } else {
            Ok(buf_len as usize)
        }
    }

    /// The bytes that a successful read of `n` bytes from `id` yields.
    pub open spec fn read_bytes(self, id: usize, n: int) -> Seq<u8> {
        match self.inodes[id as int].data_block {
            Some(b) => self.blocks[b as int].subrange(0, n),
            None => Seq::empty(),
        }
    }

    /// The inode that `name` is bound to.
    pub open spec fn lookup(self, name: Seq<u8>) -> Option<usize> {
        if has_name(self.files, name) {
            Some(self.files[name_slot(self.files, name)].inode_id)
        } else {
            None
        }
    }

    /// What `get_file_metadata(name)` returns.
    pub open spec fn stat(self, name: Seq<u8>) -> Option<Metadata> {
        match self.lookup(name) {
            Some(id) => Some(self.inodes[id as int].metadata),
            None => None,
        }
    }

    /// What `delete_file(name)` returns.
    pub open spec fn delete_result(self, name: Seq<u8>) -> Result<(), FsError> {
        if has_name(self.files, name) {
            Ok(())
        } else {
            Err(FsError::NotFound)
        }
    }

    /// The state after `delete_file(name)`.
    pub open spec fn delete_post(self, name: Seq<u8>) -> FsView {
        if has_name(self.files, name) {
            let k = name_slot(self.files, name);
            let id = self.files[k].inode_id as int;
            let s = FsView {
                files: self.files.update(k, EntryView { is_valid: false, ..self.files[k] }),
                ..self.invalidated(id)
            };
            match self.inodes[id].data_block {
                Some(b) => FsView { used: s.used.update(b as int, false), ..s },
                None => s,
            }
        } else {
            self
        }
    }
}


// ---------------------------------------------------------------------------
// Invariant preservation
// ---------------------------------------------------------------------------

/// A live binding of `name` is the one `name_slot` picks.
pub proof fn lemma_name_slot(files: Seq<EntryView>, name: Seq<u8>, k: int)
    requires
        names_unique(files),
        binds(files, k, name),
    ensures
        has_name(files, name),
        name_slot(files, name) == k,
{
    let c = name_slot(files, name);
    assert(binds(files, c, name));
}

/// Allocating an inode keeps the invariant, and so does marking it deleted
/// again.
pub proof fn lemma_allocated_inv(s: FsView)
    requires
        s.inv(),
        s.clock < u64::MAX,
        s.next_id < MAX_INODES,
    ensures
        s.allocated().inv(),
        s.allocated().invalidated(s.next_id as int).inv(),
        !s.inodes[s.next_id as int].is_valid,
{
    let id = s.next_id as int;
    let a = s.allocated();
    assert(!s.inodes[id].is_valid) by {
        if s.inodes[id].is_valid {
            assert(s.inode_ok(id));
        }
    }
    assert forall|i: int| 0 <= i < MAX_INODES && #[trigger] a.inodes[i].is_valid implies a.inode_ok(i) by {
        if i != id {
            assert(s.inode_ok(i));
        }
    }
    assert forall|b: int| 0 <= b < MAX_DATA_BLOCKS && #[trigger] a.used[b] implies a.owned(b) by {
        assert(s.owned(b));
        let i = choose|i: int|
            0 <= i < MAX_INODES && s.inodes[i].is_valid && #[trigger] s.inodes[i].data_block
                == Some(b as usize);
        assert(i != id);
        assert(a.inodes[i] == s.inodes[i]);
    }
    assert forall|k: int| 0 <= k < MAX_FILES && #[trigger] a.files[k].is_valid implies a.entry_ok(k) by {
        assert(s.entry_ok(k));
        assert(s.inode_ok(s.files[k].inode_id as int));
    }
    let v = a.invalidated(id);
    assert forall|i: int| 0 <= i < MAX_INODES && #[trigger] v.inodes[i].is_valid implies v.inode_ok(i) by {
        assert(a.inode_ok(i));
    }
    assert forall|b: int| 0 <= b < MAX_DATA_BLOCKS && #[trigger] v.used[b] implies v.owned(b) by {
        assert(s.owned(b));
        let i = choose|i: int|
            0 <= i < MAX_INODES && s.inodes[i].is_valid && #[trigger] s.inodes[i].data_block
                == Some(b as usize);
        assert(i != id);
        assert(v.inodes[i] == s.inodes[i]);
    }
    assert forall|k: int| 0 <= k < MAX_FILES && #[trigger] v.files[k].is_valid implies v.entry_ok(k) by {
        assert(s.entry_ok(k));
        assert(s.inode_ok(s.files[k].inode_id as int));
    }
}

/// `create_file` keeps the invariant.
pub proof fn lemma_create_inv(s: FsView, name: Seq<u8>)
    requires
        s.inv(),
        s.clock < u64::MAX,
    ensures
        s.create_post(name).inv(),
{
    match s.create_result(name) {
        Ok(_) => {
            lemma_allocated_inv(s);
            let a = s.allocated();
            let k = first_false(entry_flags(s.files));
            let p = s.create_post(name);
            let id = s.next_id as usize;
            assert(is_first_false(entry_flags(s.files), k)) by {
                let w = choose|w: int| 0 <= w < entry_flags(s.files).len() && !entry_flags(s.files)[w];
                assert(exists|m: int| is_first_false(entry_flags(s.files), m)) by {
                    lemma_least_false(entry_flags(s.files), w);
                }
            }
            assert(!s.files[k].is_valid);
            assert forall|j: int| 0 <= j < MAX_FILES && #[trigger] p.files[j].is_valid implies p.entry_ok(j) by {
                if j != k {
                    assert(a.entry_ok(j));
                }
            }
            assert forall|j: int, l: int|
                0 <= j < p.files.len() && 0 <= l < p.files.len() && j != l && p.files[j].is_valid
                    && p.files[l].is_valid implies p.files[j].name != p.files[l].name by {
                if j == k {
                    assert(!binds(s.files, l, name));
                } else if l == k {
                    assert(!binds(s.files, j, name));
                }
            }
            assert forall|j: int, l: int|
                0 <= j < MAX_FILES && 0 <= l < MAX_FILES && j != l && #[trigger] p.files[j].is_valid
                    && #[trigger] p.files[l].is_valid implies p.files[j].inode_id
                != p.files[l].inode_id by {
                if j == k {
                    assert(s.entry_ok(l));
                    assert(s.inode_ok(s.files[l].inode_id as int));
                } else if l == k {
                    assert(s.entry_ok(j));
                    assert(s.inode_ok(s.files[j].inode_id as int));
                }
            }
        },
        Err(FsError::NameTooLong) => {
            lemma_allocated_inv(s);
        },
        Err(FsError::NoDirectorySlot) => {
            lemma_allocated_inv(s);
        },
        Err(_) => {},
    }
}

/// A sequence with a `false` at `w` has a first `false`.
pub proof fn lemma_least_false(s: Seq<bool>, w: int)
    requires
        0 <= w < s.len(),
        !s[w],
    ensures
        exists|m: int| is_first_false(s, m),
    decreases w,
{
    if exists|j: int| 0 <= j < w && !s[j] {
        let j = choose|j: int| 0 <= j < w && !s[j];
        lemma_least_false(s, j);
    } else {
        assert(is_first_false(s, w));
    }
}

/// `write_file` keeps the invariant.
pub proof fn lemma_write_inv(s: FsView, id: usize, data: Seq<u8>)
    requires
        s.inv(),
        s.clock < u64::MAX,
    ensures
        s.write_post(id, data).inv(),
{
    if s.write_result(id, data) is Ok {
        let p = s.write_post(id, data);
        let b = s.write_block(id);
        let old_ino = s.inodes[id as int];
        assert(s.inode_ok(id as int));
        if old_ino.data_block is None {
            let w = choose|w: int| 0 <= w < s.used.len() && !s.used[w];
            lemma_least_false(s.used, w);
            let m = choose|m: int| is_first_false(s.used, m);
            lemma_first_false(s.used, m);
        }
        assert(0 <= b < MAX_DATA_BLOCKS);
        // no other live inode owns the block written to
        assert forall|i: int| 0 <= i < MAX_INODES && i != id && s.inodes[i].is_valid implies s.inodes[i].data_block
            != Some(b as usize) by {
            assert(s.inode_ok(i));
            if old_ino.data_block is None && s.inodes[i].data_block == Some(b as usize) {
                assert(s.used[b]);
            }
        }
        assert(p.blocks[b].len() == DATA_BLOCK_SIZE);
        assert forall|i: int| 0 <= i < MAX_INODES && #[trigger] p.inodes[i].is_valid implies p.inode_ok(i) by {
            if i != id {
                assert(s.inode_ok(i));
            }
        }
        assert forall|c: int| 0 <= c < MAX_DATA_BLOCKS && #[trigger] p.used[c] implies p.owned(c) by {
            if c == b {
                assert(p.inodes[id as int].data_block == Some(c as usize));
            } else {
                assert(s.owned(c));
                let i = choose|i: int|
                    0 <= i < MAX_INODES && s.inodes[i].is_valid && #[trigger] s.inodes[i].data_block
                        == Some(c as usize);
                assert(i != id);
                assert(p.inodes[i] == s.inodes[i]);
            }
        }
        assert forall|k: int| 0 <= k < MAX_FILES && #[trigger] p.files[k].is_valid implies p.entry_ok(k) by {
            assert(s.entry_ok(k));
        }
    }
}

/// `delete_file` keeps the invariant.
pub proof fn lemma_delete_inv(s: FsView, name: Seq<u8>)
    requires
        s.inv(),
    ensures
        s.delete_post(name).inv(),
{
    if has_name(s.files, name) {
        let p = s.delete_post(name);
        let k = name_slot(s.files, name);
        assert(binds(s.files, k, name));
        let id = s.files[k].inode_id as int;
        assert(s.entry_ok(k));
        assert(s.inode_ok(id));
        assert forall|i: int| 0 <= i < MAX_INODES && #[trigger] p.inodes[i].is_valid implies p.inode_ok(i) by {
            assert(s.inode_ok(i));
            if let Some(b) = s.inodes[id].data_block {
                if s.inodes[i].data_block == Some(b) {
                    assert(i == id);
                }
            }
        }
        assert forall|c: int| 0 <= c < MAX_DATA_BLOCKS && #[trigger] p.used[c] implies p.owned(c) by {
            assert(s.owned(c));
            let i = choose|i: int|
                0 <= i < MAX_INODES && s.inodes[i].is_valid && #[trigger] s.inodes[i].data_block
                    == Some(c as usize);
            if i == id {
                assert(s.inodes[id].data_block == Some(c as usize));
                assert(!p.used[c]);
            }
            assert(p.inodes[i] == s.inodes[i]);
        }
        assert forall|j: int| 0 <= j < MAX_FILES && #[trigger] p.files[j].is_valid implies p.entry_ok(j) by {
            assert(s.entry_ok(j));
            assert(j != k);
        }
    }
}

/// Copies the first `n` bytes of `src` over the start of `dst`.
fn copy_prefix(dst: &mut Vec<u8>, src: &[u8], n: usize)
    requires
        n <= src@.len(),
        n <= old(dst)@.len(),
    ensures
        final(dst)@ == src@.subrange(0, n as int) + old(dst)@.subrange(n as int, old(dst)@.len() as int),
{
    let mut i: usize = 0;
    while i < n
        invariant
            n <= src@.len(),
            n <= old(dst)@.len(),
            0 <= i <= n,
            dst@.len() == old(dst)@.len(),
            forall|j: int| 0 <= j < i ==> dst@[j] == src@[j],
            forall|j: int| i <= j < dst@.len() ==> dst@[j] == old(dst)@[j],
        decreases n - i,
    {
        dst.set(i, src[i]);
        i += 1;
    }
    assert(dst@ =~= src@.subrange(0, n as int) + old(dst)@.subrange(n as int, old(dst)@.len() as int));
}

// ---------------------------------------------------------------------------
// The file system
// ---------------------------------------------------------------------------

/// An in-memory file system: inode table, directory and data block pool,
/// each of fixed capacity, and a clock that stamps every change.
pub struct VirtualFileSystem {
    inodes: Vec<Inode>,
    files: Vec<FileEntry>,
    data_storage: Vec<Vec<u8>>,
    block_used: Vec<bool>,
    next_inode_id: usize,
    timestamp_counter: u64,
}

impl View for VirtualFileSystem {
    type V = FsView;

    closed spec fn view(&self) -> FsView {
        FsView {
            inodes: self.inodes@,
            files: self.files@.map_values(|e: FileEntry| e@),
            blocks: self.data_storage@.map_values(|b: Vec<u8>| b@),
            used: self.block_used@,
            next_id: self.next_inode_id as nat,
            clock: self.timestamp_counter as nat,
        }
    }
}

impl VirtualFileSystem {
    /// Stored names fit their slots.
    pub closed spec fn names_fit(&self) -> bool {
        forall|k: int| 0 <= k < self.files@.len() ==> #[trigger] self.files@[k].name_len
            <= MAX_FILENAME_LEN
    }

    /// Well-formed: the catalog invariants hold.
    pub open spec fn wf(&self) -> bool {
        self@.inv() && self.names_fit()
    }

    /// Empty tables with the clock at `clock`.
    fn blank(clock: u64) -> (r: VirtualFileSystem)
        ensures
            r.wf(),
            r@ == FsView::blank(clock as nat),
    {
        let mut inodes: Vec<Inode> = Vec::new();
        let mut i: usize = 0;
        while i < MAX_INODES
            invariant
                i <= MAX_INODES,
                inodes@ == Seq::new(i as nat, |j: int| Inode::spec_empty()),
            decreases MAX_INODES - i,
        {
            inodes.push(Inode::empty());
            i += 1;
            assert(inodes@ =~= Seq::new(i as nat, |j: int| Inode::spec_empty()));
        }
        let mut files: Vec<FileEntry> = Vec::new();
        let mut k: usize = 0;
        while k < MAX_FILES
            invariant
                k <= MAX_FILES,
                files@.len() == k,
                forall|j: int| 0 <= j < k ==> (#[trigger] files@[j]).name_len == 0 && !files@[j].is_valid
                    && files@[j].inode_id == 0,
            decreases MAX_FILES - k,
        {
            files.push(FileEntry::empty());
            k += 1;
        }
        let mut blocks: Vec<Vec<u8>> = Vec::new();
        let mut used: Vec<bool> = Vec::new();
        let mut b: usize = 0;
        while b < MAX_DATA_BLOCKS
            invariant
                b <= MAX_DATA_BLOCKS,
                blocks@.len() == b,
                used@ == Seq::new(b as nat, |j: int| false),
                forall|j: int| 0 <= j < b ==> (#[trigger] blocks@[j])@ == Seq::new(DATA_BLOCK_SIZE as nat, |x: int| 0u8),
            decreases MAX_DATA_BLOCKS - b,
        {
            let mut block: Vec<u8> = Vec::new();
            let mut x: usize = 0;
            while x < DATA_BLOCK_SIZE
                invariant
                    x <= DATA_BLOCK_SIZE,
                    block@ == Seq::new(x as nat, |y: int| 0u8),
                decreases DATA_BLOCK_SIZE - x,
            {
                block.push(0u8);
                x += 1;
                assert(block@ =~= Seq::new(x as nat, |y: int| 0u8));
            }
            blocks.push(block);
            used.push(false);
            b += 1;
            assert(used@ =~= Seq::new(b as nat, |j: int| false));
        }
        let r = VirtualFileSystem {
            inodes,
            files,
            data_storage: blocks,
            block_used: used,
            next_inode_id: 1,
            timestamp_counter: clock,
        };
        let ghost target = FsView::blank(clock as nat);
        assert(r@.inodes =~= target.inodes);
        assert(r@.files =~= target.files) by {
            assert forall|j: int| 0 <= j < MAX_FILES implies r@.files[j] == target.files[j] by {
                assert(r.files@[j]@.name =~= Seq::<u8>::empty());
            }
        }
        assert(r@.blocks =~= target.blocks);
        assert(r@.used =~= target.used);
        r
    }

    /// A file system with empty tables and no root yet: no inode is live,
    /// no name is bound, every block is free, the next id is 1 and the
    /// clock is 0. `init` boots it.
    pub fn empty() -> (r: VirtualFileSystem)
        ensures
            r.wf(),
            r@ == FsView::blank(0),
            forall|i: int| 0 <= i < MAX_INODES ==> !(#[trigger] r@.inodes[i]).is_valid,
            forall|k: int| 0 <= k < MAX_FILES ==> !(#[trigger] r@.files[k]).is_valid,
            forall|b: int| 0 <= b < MAX_DATA_BLOCKS ==> !(#[trigger] r@.used[b]),
            r@.next_id == 1,
            r@.clock == 0,
    {
        VirtualFileSystem::blank(0)
    }

    /// Resets every table and creates the root directory, stamped with the
    /// next tick of the clock.
    pub fn init(&mut self)
        requires
            old(self)@.clock < u64::MAX,
        ensures
            final(self).wf(),
            final(self)@.has_root(),
            final(self)@ == FsView::booted(old(self)@.clock),
    {
        let t = self.timestamp_counter + 1;
        let mut fresh = VirtualFileSystem::blank(t);
        let mut root = Inode::new(0, FileType::Directory, 0);
        root.metadata.created_at = t;
        root.metadata.modified_at = t;
        fresh.inodes.set(0, root);
        *self = fresh;
        let ghost target = FsView::booted(old(self)@.clock);
        assert(self@.inodes =~= target.inodes);
        assert(self@.files =~= target.files);
        assert(self@.blocks =~= target.blocks);
        assert(self@.used =~= target.used);
        assert(self@.inv()) by {
            let b = FsView::blank(t as nat);
            assert forall|i: int| 0 <= i < MAX_INODES && #[trigger] self@.inodes[i].is_valid implies self@.inode_ok(i) by {}
            assert forall|c: int| 0 <= c < MAX_DATA_BLOCKS && #[trigger] self@.used[c] implies self@.owned(c) by {}
        }
    }

    /// Advances the clock and returns the new tick.
    fn get_timestamp(&mut self) -> (t: u64)
        requires
            old(self).timestamp_counter < u64::MAX,
        ensures
            t == old(self).timestamp_counter + 1,
            *final(self) == (VirtualFileSystem { timestamp_counter: t, ..*old(self) }),
    {
        self.timestamp_counter = self.timestamp_counter + 1;
        self.timestamp_counter
    }

    /// Takes the next inode id for a new file, stamped with the next tick.
    fn allocate_inode(&mut self, file_type: FileType, parent_id: usize) -> (r: Option<usize>)
        requires
            old(self).wf(),
            old(self)@.clock < u64::MAX,
        ensures
            old(self)@.next_id >= MAX_INODES ==> r is None && *final(self) == *old(self),
            old(self)@.next_id < MAX_INODES ==> {
                &&& r == Some(old(self)@.next_id as usize)
                &&& file_type == FileType::Regular && parent_id == 0 ==> final(self)@ == old(self)@.allocated()
                &&& final(self).files == old(self).files
                &&& final(self).inodes@.len() == MAX_INODES
            },
    {
        if self.next_inode_id >= MAX_INODES {
            return None;
        }
        let id = self.next_inode_id;
        self.next_inode_id = self.next_inode_id + 1;
        let t = self.get_timestamp();
        let mut ino = Inode::new(id, file_type, parent_id);
        ino.metadata.created_at = t;
        ino.metadata.modified_at = t;
        self.inodes.set(id, ino);
        proof {
            if file_type == FileType::Regular && parent_id == 0 {
                assert(self@.inodes =~= old(self)@.allocated().inodes);
            }
        }
        Some(id)
    }

    /// The directory slot that binds `name`, if any.
    fn find_file_entry(&self, name: &str) -> (r: Option<usize>)
        requires
            self.wf(),
        ensures
            r is None <==> !has_name(self@.files, name.spec_bytes()),
            r matches Some(k) ==> k == name_slot(self@.files, name.spec_bytes()) && binds(
                self@.files,
                k as int,
                name.spec_bytes(),
            ),
    {
        let mut i: usize = 0;
        while i < self.files.len()
            invariant
                self.wf(),
                0 <= i <= self.files@.len(),
                forall|j: int| 0 <= j < i ==> !binds(self@.files, j, name.spec_bytes()),
            decreases self.files@.len() - i,
        {
            if self.files[i].matches(name) {
                proof {
                    lemma_name_slot(self@.files, name.spec_bytes(), i as int);
                }
                return Some(i);
            }
            assert(self.files@[i as int].name_len <= MAX_FILENAME_LEN);
            i += 1;
        }
        None
    }

    /// The first free directory slot, if any.
    fn find_free_file_entry(&self) -> (r: Option<usize>)
        requires
            self.wf(),
        ensures
            r is None <==> !has_false(entry_flags(self@.files)),
            r matches Some(k) ==> k == first_false(entry_flags(self@.files)) && k < MAX_FILES,
    {
        let ghost flags = entry_flags(self@.files);
        let mut i: usize = 0;
        while i < self.files.len()
            invariant
                self.wf(),
                flags == entry_flags(self@.files),
                0 <= i <= self.files@.len(),
                forall|j: int| 0 <= j < i ==> flags[j],
            decreases self.files@.len() - i,
        {
            if !self.files[i].is_valid {
                proof {
                    lemma_first_false(flags, i as int);
                }
                return Some(i);
            }
            i += 1;
        }
        None
    }

    /// Binds `name` to inode `id` in the first free directory slot.
    fn insert_entry(&mut self, name: &str, id: usize) -> (r: Result<(), FsError>)
        requires
            old(self).names_fit(),
            old(self)@.files.len() == MAX_FILES,
        ensures
            name.spec_bytes().len() > MAX_FILENAME_LEN ==> r == Err::<(), FsError>(FsError::NameTooLong),
            name.spec_bytes().len() <= MAX_FILENAME_LEN && !has_false(entry_flags(old(self)@.files))
                ==> r == Err::<(), FsError>(FsError::NoDirectorySlot),
            r is Ok <==> name.spec_bytes().len() <= MAX_FILENAME_LEN && has_false(
                entry_flags(old(self)@.files),
            ),
            r is Err ==> *final(self) == *old(self),
            r is Ok ==> final(self)@ == (FsView {
                files: old(self)@.files.update(
                    first_false(entry_flags(old(self)@.files)),
                    EntryView { name: name.spec_bytes(), inode_id: id, is_valid: true },
                ),
                ..old(self)@
            }),
            final(self).names_fit(),
    {
        let bytes = name.as_bytes();
        if bytes.len() > MAX_FILENAME_LEN {
            return Err(FsError::NameTooLong);
        }
        let mut i: usize = 0;
        let ghost flags = entry_flags(self@.files);
        while i < self.files.len()
            invariant
                *self == *old(self),
                self.names_fit(),
                self@.files.len() == MAX_FILES,
                name.spec_bytes().len() <= MAX_FILENAME_LEN,
                flags == entry_flags(self@.files),
                0 <= i <= self.files@.len(),
                forall|j: int| 0 <= j < i ==> flags[j],
            decreases self.files@.len() - i,
        {
            if !self.files[i].is_valid {
                proof {
                    lemma_first_false(flags, i as int);
                }
                let entry = FileEntry::new(name, id);
                let ghost before = self@;
                self.files.set(i, entry);
                assert(self@.files =~= before.files.update(i as int, entry@));
                return Ok(());
            }
            i += 1;
        }
        Err(FsError::NoDirectorySlot)
    }

    /// Marks inode `id` deleted.
    fn invalidate_inode(&mut self, id: usize)
        requires
            id < old(self).inodes@.len(),
        ensures
            final(self)@ == old(self)@.invalidated(id as int),
            final(self).files == old(self).files,
    {
        let mut ino = self.inodes[id];
        ino.is_valid = false;
        self.inodes.set(id, ino);
        assert(self@.inodes =~= old(self)@.invalidated(id as int).inodes);
    }

    /// Creates an empty regular file named `name` in the root directory and
    /// returns its inode id.
    ///
    /// The name must be unused; then an inode is allocated and bound to the
    /// name in the first free directory slot. When the name is too long or
    /// no slot is free, the new inode is marked deleted again (its id stays
    /// spent).
    pub fn create_file(&mut self, name: &str) -> (r: Result<usize, FsError>)
        requires
            old(self).wf(),
            old(self)@.clock < u64::MAX,
        ensures
            final(self).wf(),
            r == old(self)@.create_result(name.spec_bytes()),
            final(self)@ == old(self)@.create_post(name.spec_bytes()),
            old(self)@.has_root() ==> final(self)@.has_root(),
    {
        let ghost s = self@;
        proof {
            lemma_create_inv(s, name.spec_bytes());
        }
        if self.find_file_entry(name).is_some() {
            return Err(FsError::AlreadyExists);
        }
        let id = match self.allocate_inode(FileType::Regular, 0) {
            Some(id) => id,
            None => {
                return Err(FsError::NoInodeSlot);
            },
        };
        proof {
            lemma_allocated_inv(s);
        }
        match self.insert_entry(name, id) {
            Ok(()) => Ok(id),
            Err(e) => {
                self.invalidate_inode(id);
                Err(e)
            },
        }
    }

    /// The first free data block, if any.
    fn find_free_block(&self) -> (r: Option<usize>)
        requires
            self.wf(),
        ensures
            r is None <==> !has_false(self@.used),
            r matches Some(b) ==> b == first_false(self@.used) && b < MAX_DATA_BLOCKS,
    {
        let mut i: usize = 0;
        while i < self.block_used.len()
            invariant
                self.wf(),
                0 <= i <= self.block_used@.len(),
                forall|j: int| 0 <= j < i ==> self@.used[j],
            decreases self.block_used@.len() - i,
        {
            if !self.block_used[i] {
                proof {
                    lemma_first_false(self@.used, i as int);
                }
                return Some(i);
            }
            i += 1;
        }
        None
    }

    /// Replaces the contents of regular file `inode_id` by `data`, cut to
    /// the block size, and returns the number of bytes stored.
    ///
    /// The first write to a file takes it the first free data block; later
    /// writes reuse that block. Size and modification time are updated only
    /// once a block is secured.
    pub fn write_file(&mut self, inode_id: usize, data: &[u8]) -> (r: Result<usize, FsError>)
        requires
            old(self).wf(),
            old(self)@.clock < u64::MAX,
        ensures
            final(self).wf(),
            r == old(self)@.write_result(inode_id, data@),
            final(self)@ == old(self)@.write_post(inode_id, data@),
            old(self)@.has_root() ==> final(self)@.has_root(),
    {
        let ghost s = self@;
        proof {
            lemma_write_inv(s, inode_id, data@);
        }
        if inode_id >= MAX_INODES || !self.inodes[inode_id].is_valid {
            return Err(FsError::InvalidInode);
        }
        if self.inodes[inode_id].metadata.file_type != FileType::Regular {
            return Err(FsError::NotRegularFile);
        }
        let block_id = match self.inodes[inode_id].data_block {
            Some(b) => b,
            None => match self.find_free_block() {
                Some(b) => b,
                None => {
                    return Err(FsError::NoBlockAvailable);
                },
            },
        };
        assert(s.inode_ok(inode_id as int));
        assert(block_id == s.write_block(inode_id));
        let n: usize = if data.len() < DATA_BLOCK_SIZE {
            data.len()
        } else {
            DATA_BLOCK_SIZE
        };
        assert(self.data_storage@[block_id as int]@ == s.blocks[block_id as int]);
        copy_prefix(&mut self.data_storage[block_id], data, n);
        self.block_used.set(block_id, true);
        let t = self.get_timestamp();
        let mut ino = self.inodes[inode_id];
        ino.metadata.size = n;
        ino.metadata.modified_at = t;
        ino.data_block = Some(block_id);
        self.inodes.set(inode_id, ino);
        proof {
            let p = s.write_post(inode_id, data@);
            assert(self@.inodes =~= p.inodes);
            assert(self@.blocks =~= p.blocks);
            assert(self@.used =~= p.used);
            assert(self@.files =~= p.files);
        }
        Ok(n)
    }

    /// Copies the contents of regular file `inode_id` into the start of
    /// `buf`, as much as fits, and returns the number of bytes copied. A
    /// file that was never written reads as empty.
    pub fn read_file(&self, inode_id: usize, buf: &mut [u8]) -> (r: Result<usize, FsError>)
        requires
            self.wf(),
        ensures
            r == self@.read_result(inode_id, old(buf)@.len()),
            final(buf)@.len() == old(buf)@.len(),
            r matches Ok(n) ==> {
                &&& final(buf)@.subrange(0, n as int) == self@.read_bytes(inode_id, n as int)
                &&& final(buf)@.subrange(n as int, final(buf)@.len() as int) == old(buf)@.subrange(
                    n as int,
                    old(buf)@.len() as int,
                )
            },
            r is Err ==> final(buf)@ == old(buf)@,
    {
        if inode_id >= MAX_INODES || !self.inodes[inode_id].is_valid {
            return Err(FsError::InvalidInode);
        }
        let inode = self.inodes[inode_id];
        if inode.metadata.file_type != FileType::Regular {
            return Err(FsError::NotRegularFile);
        }
        let block_id = match inode.data_block {
            Some(b) => b,
            None => {
                assert(buf@.subrange(0, buf@.len() as int) =~= buf@);
                assert(buf@.subrange(0, 0) =~= Seq::<u8>::empty());
                return Ok(0);
            },
        };
        assert(self@.inode_ok(inode_id as int));
        let n: usize = if inode.metadata.size <= buf.len() {
            inode.metadata.size
        } else {
            buf.len()
        };
        let block = &self.data_storage[block_id];
        assert(block@ == self@.blocks[block_id as int]);
        let mut i: usize = 0;
        while i < n
            invariant
                n <= buf@.len(),
                n <= block@.len(),
                0 <= i <= n,
                buf@.len() == old(buf)@.len(),
                forall|j: int| 0 <= j < i ==> buf@[j] == block@[j],
                forall|j: int| i <= j < buf@.len() ==> buf@[j] == old(buf)@[j],
            decreases n - i,
        {
            buf[i] = block[i];
            i += 1;
        }
        assert(buf@.subrange(0, n as int) =~= self@.read_bytes(inode_id, n as int));
        assert(buf@.subrange(n as int, buf@.len() as int) =~= old(buf)@.subrange(
            n as int,
            old(buf)@.len() as int,
        ));
        Ok(n)
    }

    /// The inode bound to `name`, if any.
    pub fn find_inode_by_name(&self, name: &str) -> (r: Option<usize>)
        requires
            self.wf(),
        ensures
            r == self@.lookup(name.spec_bytes()),
    {
        match self.find_file_entry(name) {
            Some(k) => Some(self.files[k].inode_id),
            None => None,
        }
    }

    /// A copy of the metadata of the file named `name`, if there is one.
    pub fn get_file_metadata(&self, name: &str) -> (r: Option<Metadata>)
        requires
            self.wf(),
        ensures
            r == self@.stat(name.spec_bytes()),
    {
        let k = match self.find_file_entry(name) {
            Some(k) => k,
            None => {
                return None;
            },
        };
        let id = self.files[k].inode_id;
        assert(self@.entry_ok(k as int));
        if id >= MAX_INODES || !self.inodes[id].is_valid {
            return None;
        }
        Some(self.inodes[id].metadata)
    }

    /// Removes the binding of `name`, marks its inode deleted and returns
    /// its data block to the pool.
    pub fn delete_file(&mut self, name: &str) -> (r: Result<(), FsError>)
        requires
            old(self).wf(),
        ensures
            final(self).wf(),
            r == old(self)@.delete_result(name.spec_bytes()),
            final(self)@ == old(self)@.delete_post(name.spec_bytes()),
            old(self)@.has_root() ==> final(self)@.has_root(),
    {
        let ghost s = self@;
        proof {
            lemma_delete_inv(s, name.spec_bytes());
        }
        let k = match self.find_file_entry(name) {
            Some(k) => k,
            None => {
                return Err(FsError::NotFound);
            },
        };
        let mut entry = self.files[k];
        let id = entry.inode_id;
        assert(s.entry_ok(k as int));
        entry.is_valid = false;
        self.files.set(k, entry);
        let block = self.inodes[id].data_block;
        self.invalidate_inode(id);
        if let Some(b) = block {
            assert(s.inode_ok(id as int));
            self.block_used.set(b, false);
        }
        proof {
            let p = s.delete_post(name.spec_bytes());
            assert(self@.files =~= p.files);
            assert(self@.inodes =~= p.inodes);
            assert(self@.used =~= p.used);
        }
        Ok(())
    }

    /// The names of all files, in directory slot order.
    pub fn list_files(&self) -> (r: Vec<Vec<u8>>)
        requires
            self.wf(),
        ensures
            r@.map_values(|v: Vec<u8>| v@) == listed(self@.files),
    {
        let mut out: Vec<Vec<u8>> = Vec::new();
        let mut i: usize = 0;
        while i < self.files.len()
            invariant
                self.wf(),
                0 <= i <= self.files@.len(),
                out@.map_values(|v: Vec<u8>| v@) == listed(self@.files.subrange(0, i as int)),
            decreases self.files@.len() - i,
        {
            let entry = &self.files[i];
            let ghost prev = self@.files.subrange(0, i as int);
            let ghost next = self@.files.subrange(0, i as int + 1);
            assert(next.drop_last() =~= prev);
            if entry.is_valid {
                assert(entry.name_len <= MAX_FILENAME_LEN);
                let mut name: Vec<u8> = Vec::new();
                let mut j: usize = 0;
                while j < entry.name_len
                    invariant
                        entry.name_len <= MAX_FILENAME_LEN,
                        0 <= j <= entry.name_len,
                        name@ == entry@.name.subrange(0, j as int),
                    decreases entry.name_len - j,
                {
                    name.push(entry.name[j]);
                    j += 1;
                    assert(name@ =~= entry@.name.subrange(0, j as int));
                }
                assert(name@ =~= entry@.name);
                out.push(name);
            }
            i += 1;
            assert(out@.map_values(|v: Vec<u8>| v@) =~= listed(next));
        }
        assert(self@.files.subrange(0, self@.files.len() as int) =~= self@.files);
        out
    }

    /// The current tick of the clock.
    pub fn timestamp(&self) -> (r: u64)
        ensures
            r == self@.clock,
    {
        self.timestamp_counter
    }
}

} // verus!
