//! Properties of the file system that span several operations, proved over
//! the abstract state that the operations' contracts speak of.
use vstd::prelude::*;

use super::metadata::FileType;
use super::vfs::{
    binds, clip, entry_flags, first_false, has_name, is_first_false, lemma_create_inv, lemma_delete_inv,
    lemma_first_false, lemma_least_false, lemma_name_slot, lemma_write_inv, name_slot, names_unique, EntryView, FsError, FsView, DATA_BLOCK_SIZE, MAX_DATA_BLOCKS,
    MAX_FILENAME_LEN, MAX_FILES, MAX_INODES,
};

verus! {

/// The state after creating each of `names` in turn.
pub open spec fn create_all(s: FsView, names: Seq<Seq<u8>>) -> FsView
    decreases names.len(),
{
    if names.len() == 0 {
        s
    } else {
        create_all(s, names.drop_last()).create_post(names.last())
    }
}

proof fn lemma_create_clock(s: FsView, name: Seq<u8>)
    requires
        s.inv(),
        s.clock < u64::MAX,
    ensures
        s.create_post(name).clock <= s.clock + 1,
        s.create_post(name).inv(),
{
    lemma_create_inv(s, name);
}

/// However many files are created, in whatever order and with whatever
/// names, no two live directory entries ever share a name, and the catalog
/// stays consistent.
pub proof fn law_names_stay_unique(s: FsView, names: Seq<Seq<u8>>)
    requires
        s.inv(),
        s.clock + names.len() <= u64::MAX,
    ensures
        create_all(s, names).inv(),
        names_unique(create_all(s, names).files),
        create_all(s, names).clock <= s.clock + names.len(),
    decreases names.len(),
{
    if names.len() > 0 {
        law_names_stay_unique(s, names.drop_last());
        lemma_create_clock(create_all(s, names.drop_last()), names.last());
    }
}

/// A create binds exactly its name: on success the name looks up to the new
/// inode and every other name stays bound or unbound as before; on failure
/// no name changes. Names stay unique either way.
pub proof fn law_create_binding(s: FsView, name: Seq<u8>, other: Seq<u8>)
    requires
        s.inv(),
        s.clock < u64::MAX,
    ensures
        names_unique(s.create_post(name).files),
        s.create_result(name) matches Ok(id) ==> s.create_post(name).lookup(name) == Some(id),
        s.create_result(name) is Ok && other != name ==> has_name(s.create_post(name).files, other)
            == has_name(s.files, other),
        s.create_result(name) is Err ==> has_name(s.create_post(name).files, other) == has_name(
            s.files,
            other,
        ),
{
    lemma_create_inv(s, name);
    let p = s.create_post(name);
    if let Ok(id) = s.create_result(name) {
        let flags = entry_flags(s.files);
        let w = choose|w: int| 0 <= w < flags.len() && !flags[w];
        lemma_least_false(flags, w);
        let k = choose|k: int| is_first_false(flags, k);
        lemma_first_false(flags, k);
        assert(binds(p.files, k, name));
        lemma_name_slot(p.files, name, k);
        if other != name {
            if has_name(p.files, other) {
                let j = choose|j: int| binds(p.files, j, other);
                assert(binds(s.files, j, other));
            }
            if has_name(s.files, other) {
                let j = choose|j: int| binds(s.files, j, other);
                assert(j != k);
                assert(binds(p.files, j, other));
            }
        }
    }
}

/// Creating a name right after it was created (or while it exists) fails
/// with `AlreadyExists`, changes nothing, and the name still looks up to
/// the same inode.
pub proof fn law_create_twice(s: FsView, name: Seq<u8>)
    requires
        s.inv(),
        s.clock < u64::MAX,
        s.create_result(name) is Ok || s.create_result(name) == Err::<usize, FsError>(FsError::AlreadyExists),
    ensures
        s.create_post(name).create_result(name) == Err::<usize, FsError>(FsError::AlreadyExists),
        s.create_post(name).create_post(name) == s.create_post(name),
        s.create_post(name).lookup(name) == match s.create_result(name) {
            Ok(id) => Some(id),
            Err(_) => s.lookup(name),
        },
{
    if s.create_result(name) is Ok {
        law_create_binding(s, name, name);
        let flags = entry_flags(s.files);
        let w = choose|w: int| 0 <= w < flags.len() && !flags[w];
        lemma_least_false(flags, w);
        let k = choose|k: int| is_first_false(flags, k);
        lemma_first_false(flags, k);
        assert(binds(s.create_post(name).files, k, name));
    }
}

/// What was written is what is read back: the data cut to the block size,
/// and further to the reader's buffer.
pub proof fn law_write_then_read(s: FsView, id: usize, data: Seq<u8>, buf_len: nat)
    requires
        s.inv(),
        s.clock < u64::MAX,
        s.write_result(id, data) is Ok,
    ensures
        ({
            let t = s.write_post(id, data);
            let n = clip(data.len() as int);
            let m = if n <= buf_len { n } else { buf_len as int };
            &&& t.read_result(id, buf_len) == Ok::<usize, FsError>(m as usize)
            &&& t.read_bytes(id, m) == data.subrange(0, m)
        }),
{
    lemma_write_inv(s, id, data);
    let t = s.write_post(id, data);
    let n = clip(data.len() as int);
    let m = if n <= buf_len { n } else { buf_len as int };
    let b = s.write_block(id);
    assert(s.inode_ok(id as int));
    if s.inodes[id as int].data_block is None {
        let w = choose|w: int| 0 <= w < s.used.len() && !s.used[w];
        lemma_least_false(s.used, w);
        let k = choose|k: int| is_first_false(s.used, k);
        lemma_first_false(s.used, k);
    }
    assert(s.blocks[b].len() == DATA_BLOCK_SIZE);
    assert(t.read_bytes(id, m) =~= data.subrange(0, m));
}

/// After a file is deleted its name has no metadata; a file created
/// afterwards reads as empty, and once written reads back exactly what was
/// written to it, whatever data block it was given.
pub proof fn law_delete_then_reuse(
    s: FsView,
    name: Seq<u8>,
    other: Seq<u8>,
    data: Seq<u8>,
    buf_len: nat,
)
    requires
        s.inv(),
        s.clock + 2 <= u64::MAX,
    ensures
        s.delete_post(name).stat(name) is None,
        ({
            let d = s.delete_post(name);
            let c = d.create_post(other);
            match d.create_result(other) {
                Ok(id) => {
                    &&& c.read_result(id, buf_len) == Ok::<usize, FsError>(0)
                    &&& c.write_result(id, data) is Ok ==> {
                        let w = c.write_post(id, data);
                        let n = clip(data.len() as int);
                        let m = if n <= buf_len { n } else { buf_len as int };
                        &&& w.read_result(id, buf_len) == Ok::<usize, FsError>(m as usize)
                        &&& w.read_bytes(id, m) == data.subrange(0, m)
                    }
                },
                Err(_) => true,
            }
        }),
{
    lemma_delete_inv(s, name);
    let d = s.delete_post(name);
    assert(!has_name(d.files, name)) by {
        if has_name(d.files, name) {
            let j = choose|j: int| binds(d.files, j, name);
            let k = name_slot(s.files, name);
            assert(binds(s.files, j, name));
            if has_name(s.files, name) {
                assert(binds(s.files, k, name));
                assert(j != k);
            }
        }
    }
    if let Ok(id) = d.create_result(other) {
        lemma_create_inv(d, other);
        let c = d.create_post(other);
        if c.write_result(id, data) is Ok {
            law_write_then_read(c, id, data, buf_len);
        }
    }
}

/// Once every inode id is spent, creating a new name fails with
/// `NoInodeSlot` and leaves the catalog as it was.
pub proof fn law_inode_exhaustion(s: FsView, name: Seq<u8>)
    requires
        s.inv(),
        s.next_id >= MAX_INODES,
        !has_name(s.files, name),
    ensures
        s.create_result(name) == Err::<usize, FsError>(FsError::NoInodeSlot),
        s.create_post(name) == s,
        s.create_post(name).inv(),
{
}

/// The state after booting and creating the first `j` of `names`.
pub open spec fn boot_then_create(clock: nat, names: Seq<Seq<u8>>, j: int) -> FsView {
    create_all(FsView::booted(clock), names.take(j))
}

/// From boot, files with distinct names that fit are created one after the
/// other, with ids 1, 2, 3, ..., as long as the directory has room.
pub proof fn law_creates_from_boot(clock: nat, names: Seq<Seq<u8>>)
    requires
        clock + 1 + names.len() <= u64::MAX,
        names.len() <= MAX_FILES,
        forall|i: int| 0 <= i < names.len() ==> (#[trigger] names[i]).len() <= MAX_FILENAME_LEN,
        forall|i: int, j: int| 0 <= i < j < names.len() ==> names[i] != names[j],
    ensures
        forall|j: int|
            0 <= j < names.len() ==> (#[trigger] boot_then_create(clock, names, j)).create_result(
                names[j],
            ) == Ok::<usize, FsError>((j + 1) as usize),
{
    assert forall|j: int| 0 <= j < names.len() implies (#[trigger] boot_then_create(
        clock,
        names,
        j,
    )).create_result(names[j]) == Ok::<usize, FsError>((j + 1) as usize) by {
        lemma_boot_prefix(clock, names, j);
        let st = boot_then_create(clock, names, j);
        assert(!has_name(st.files, names[j])) by {
            if has_name(st.files, names[j]) {
                let k = choose|k: int| binds(st.files, k, names[j]);
                assert(k < j);
            }
        }
        assert(!entry_flags(st.files)[j]);
    }
}

/// The shape of the catalog after `j` creations from boot.
proof fn lemma_boot_prefix(clock: nat, names: Seq<Seq<u8>>, j: int)
    requires
        clock + 1 + names.len() <= u64::MAX,
        names.len() <= MAX_FILES,
        forall|i: int| 0 <= i < names.len() ==> (#[trigger] names[i]).len() <= MAX_FILENAME_LEN,
        forall|i: int, k: int| 0 <= i < k < names.len() ==> names[i] != names[k],
        0 <= j <= names.len(),
    ensures
        ({
            let st = boot_then_create(clock, names, j);
            &&& st.inv()
            &&& st.next_id == j + 1
            &&& st.clock == clock + 1 + j
            &&& forall|k: int|
                0 <= k < j ==> #[trigger] st.files[k] == (EntryView {
                    name: names[k],
                    inode_id: (k + 1) as usize,
                    is_valid: true,
                })
            &&& forall|k: int| j <= k < MAX_FILES ==> !(#[trigger] st.files[k]).is_valid
        }),
    decreases j,
{
    let b = FsView::booted(clock);
    if j == 0 {
        assert(names.take(0) =~= Seq::<Seq<u8>>::empty());
        assert(b.inv()) by {
            assert forall|c: int| 0 <= c < MAX_DATA_BLOCKS && #[trigger] b.used[c] implies b.owned(c) by {}
        }
    } else {
        lemma_boot_prefix(clock, names, j - 1);
        let prev = boot_then_create(clock, names, j - 1);
        assert(names.take(j).drop_last() =~= names.take(j - 1));
        assert(names.take(j).last() == names[j - 1]);
        let name = names[j - 1];
        assert(!has_name(prev.files, name)) by {
            if has_name(prev.files, name) {
                let k = choose|k: int| binds(prev.files, k, name);
                assert(k < j - 1);
            }
        }
        assert(is_first_false(entry_flags(prev.files), j - 1));
        lemma_first_false(entry_flags(prev.files), j - 1);
        lemma_create_inv(prev, name);
    }
}

/// Every live inode was created no later than it was last modified, and a
/// write moves its modification time strictly forward.
pub proof fn law_timestamps(s: FsView, id: usize, data: Seq<u8>)
    requires
        s.inv(),
        s.clock < u64::MAX,
    ensures
        forall|i: int|
            0 <= i < MAX_INODES && (#[trigger] s.inodes[i]).is_valid ==> s.inodes[i].metadata.created_at
                <= s.inodes[i].metadata.modified_at,
        s.write_result(id, data) is Ok ==> {
            let t = s.write_post(id, data);
            &&& t.inodes[id as int].metadata.modified_at > s.inodes[id as int].metadata.modified_at
            &&& t.inodes[id as int].metadata.created_at == s.inodes[id as int].metadata.created_at
            &&& t.inodes[id as int].metadata.created_at <= t.inodes[id as int].metadata.modified_at
        },
{
    assert forall|i: int| 0 <= i < MAX_INODES && (#[trigger] s.inodes[i]).is_valid implies s.inodes[i].metadata.created_at
        <= s.inodes[i].metadata.modified_at by {
        assert(s.inode_ok(i));
    }
    if s.write_result(id, data) is Ok {
        assert(s.inode_ok(id as int));
    }
}

} // verus!
