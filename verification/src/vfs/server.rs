//! The VFS server side of the messages. The server implementation answers
//! asynchronously, so each message is handled in two steps around its
//! answer: the arguments are read from the query and the buffers the sender
//! lent, then the answer is framed into the reply and the lent buffers.
use vstd::prelude::*;
use vstd::string::StringSliceAdditionalSpecFns;
use crate::ipc::{KHandles, view_bytes, view_text, written, view_valid, view_string, view, write_view};
use crate::record_block::{block_image, required_size, lemma_required_size, lemma_block_prefix};
use crate::ipc::{Buffer, HANDLE_SLOTS, zeroed_handle, keeps_lent_size, slot_bytes, used_bytes};
use super::dentries_block::{entries_fit, entries_view, dentries_of, lemma_dentries_build_then_read};
use super::mounts_block::{mounts_fit, mounts_view, mounts_of, lemma_mounts_build_then_read};
use crate::layout::splice;
use super::dentries_block::{self, DirectoryEntry, DentriesBlock, dentry_layout, dentry_records};
use super::mounts_block::{self, MountInfo, MountsBlock, mount_records};
use crate::record_block::pair_layout;
use super::messages::{
    VfsServerError, OpenQueryParameters, ReadQueryParameters, ReadReply, WriteQueryParameters, ListQueryParameters,
    ListReply, MoveQueryParameters, RemoveQueryParameters, CreateSymlinkQueryParameters, ReadSymlinkQueryParameters,
    ReadSymlinkReply, MountQueryParameters, UnmountQueryParameters, ListMountsQueryParameters, ListMountsReply,
};

verus! {

/// Open: the path, read from the buffer the sender lent.
pub fn open_arguments(query: &OpenQueryParameters, handles: &KHandles) -> (r: Result<String, VfsServerError>)
    ensures
        !(view_text(handles@, OpenQueryParameters::HANDLE_PATH_MOBJ as int, query.path) is Some) ==> r == Err::<String, VfsServerError>(VfsServerError::InvalidArgument),
        (view_text(handles@, OpenQueryParameters::HANDLE_PATH_MOBJ as int, query.path) is Some) ==> (r matches Ok(v) && v@ == view_text(handles@, OpenQueryParameters::HANDLE_PATH_MOBJ as int, query.path).unwrap()),
{
        let a0 = view_string(handles, OpenQueryParameters::HANDLE_PATH_MOBJ, query.path);
        match (a0,) {
            (Some(b0),) => Ok(b0),
            _ => Err(VfsServerError::InvalidArgument),
        }
}

/// Read: the buffer the sender lent, for the answer to be read into.
pub fn read_arguments(query: &ReadQueryParameters, handles: &KHandles) -> (r: Result<Vec<u8>, VfsServerError>)
    ensures
        !(view_bytes(handles@, ReadQueryParameters::HANDLE_BUFFER_MOBJ as int, query.buffer) is Some) ==> r == Err::<Vec<u8>, VfsServerError>(VfsServerError::InvalidArgument),
        (view_bytes(handles@, ReadQueryParameters::HANDLE_BUFFER_MOBJ as int, query.buffer) is Some) ==> (r matches Ok(v) && v@ == view_bytes(handles@, ReadQueryParameters::HANDLE_BUFFER_MOBJ as int, query.buffer).unwrap()),
{
        let a0 = view(handles, ReadQueryParameters::HANDLE_BUFFER_MOBJ, query.buffer);
        match (a0,) {
            (Some(b0),) => Ok(b0),
            _ => Err(VfsServerError::InvalidArgument),
        }
}

/// Write: the bytes to write, read from the buffer the sender lent.
pub fn write_arguments(query: &WriteQueryParameters, handles: &KHandles) -> (r: Result<Vec<u8>, VfsServerError>)
    ensures
        !(view_bytes(handles@, WriteQueryParameters::HANDLE_BUFFER_MOBJ as int, query.buffer) is Some) ==> r == Err::<Vec<u8>, VfsServerError>(VfsServerError::InvalidArgument),
        (view_bytes(handles@, WriteQueryParameters::HANDLE_BUFFER_MOBJ as int, query.buffer) is Some) ==> (r matches Ok(v) && v@ == view_bytes(handles@, WriteQueryParameters::HANDLE_BUFFER_MOBJ as int, query.buffer).unwrap()),
{
        let a0 = view(handles, WriteQueryParameters::HANDLE_BUFFER_MOBJ, query.buffer);
        match (a0,) {
            (Some(b0),) => Ok(b0),
            _ => Err(VfsServerError::InvalidArgument),
        }
}

/// List: the buffer the sender lent can take the directory list.
pub fn list_arguments(query: &ListQueryParameters, handles: &KHandles) -> (r: Result<(), VfsServerError>)
    ensures
        !(view_bytes(handles@, ListQueryParameters::HANDLE_BUFFER_MOBJ as int, query.buffer) is Some && query.buffer.len + 16 <= usize::MAX) ==> r == Err::<(), VfsServerError>(VfsServerError::InvalidArgument),
        (view_bytes(handles@, ListQueryParameters::HANDLE_BUFFER_MOBJ as int, query.buffer) is Some && query.buffer.len + 16 <= usize::MAX) ==> r is Ok,
{
        let a0 = view_valid(handles, ListQueryParameters::HANDLE_BUFFER_MOBJ, query.buffer);
        if !(a0 && query.buffer.len <= usize::MAX - 16) {
            return Err(VfsServerError::InvalidArgument);
        }
        Ok(())
}

/// Move: the old and the new name, read from the buffers the sender lent.
pub fn move_node_arguments(query: &MoveQueryParameters, handles: &KHandles) -> (r: Result<(String, String), VfsServerError>)
    ensures
        !(view_text(handles@, MoveQueryParameters::HANDLE_OLD_NAME_MOBJ as int, query.old_name) is Some && view_text(handles@, MoveQueryParameters::HANDLE_NEW_NAME_MOBJ as int, query.new_name) is Some) ==> r == Err::<(String, String), VfsServerError>(VfsServerError::InvalidArgument),
        (view_text(handles@, MoveQueryParameters::HANDLE_OLD_NAME_MOBJ as int, query.old_name) is Some && view_text(handles@, MoveQueryParameters::HANDLE_NEW_NAME_MOBJ as int, query.new_name) is Some) ==> (r matches Ok(v) && v.0@ == view_text(handles@, MoveQueryParameters::HANDLE_OLD_NAME_MOBJ as int, query.old_name).unwrap() && v.1@ == view_text(handles@, MoveQueryParameters::HANDLE_NEW_NAME_MOBJ as int, query.new_name).unwrap()),
{
        let a0 = view_string(handles, MoveQueryParameters::HANDLE_OLD_NAME_MOBJ, query.old_name);
        let a1 = view_string(handles, MoveQueryParameters::HANDLE_NEW_NAME_MOBJ, query.new_name);
        match (a0, a1) {
            (Some(b0), Some(b1)) => Ok((b0, b1)),
            _ => Err(VfsServerError::InvalidArgument),
        }
}

/// Remove: the name, read from the buffer the sender lent.
pub fn remove_arguments(query: &RemoveQueryParameters, handles: &KHandles) -> (r: Result<String, VfsServerError>)
    ensures
        !(view_text(handles@, RemoveQueryParameters::HANDLE_NAME_MOBJ as int, query.name) is Some) ==> r == Err::<String, VfsServerError>(VfsServerError::InvalidArgument),
        (view_text(handles@, RemoveQueryParameters::HANDLE_NAME_MOBJ as int, query.name) is Some) ==> (r matches Ok(v) && v@ == view_text(handles@, RemoveQueryParameters::HANDLE_NAME_MOBJ as int, query.name).unwrap()),
{
        let a0 = view_string(handles, RemoveQueryParameters::HANDLE_NAME_MOBJ, query.name);
        match (a0,) {
            (Some(b0),) => Ok(b0),
            _ => Err(VfsServerError::InvalidArgument),
        }
}

/// CreateSymlink: the path and the target, read from the buffers the sender lent.
pub fn create_symlink_arguments(query: &CreateSymlinkQueryParameters, handles: &KHandles) -> (r: Result<(String, String), VfsServerError>)
    ensures
        !(view_text(handles@, CreateSymlinkQueryParameters::HANDLE_PATH_MOBJ as int, query.path) is Some && view_text(handles@, CreateSymlinkQueryParameters::HANDLE_TARGET_MOBJ as int, query.target) is Some) ==> r == Err::<(String, String), VfsServerError>(VfsServerError::InvalidArgument),
        (view_text(handles@, CreateSymlinkQueryParameters::HANDLE_PATH_MOBJ as int, query.path) is Some && view_text(handles@, CreateSymlinkQueryParameters::HANDLE_TARGET_MOBJ as int, query.target) is Some) ==> (r matches Ok(v) && v.0@ == view_text(handles@, CreateSymlinkQueryParameters::HANDLE_PATH_MOBJ as int, query.path).unwrap() && v.1@ == view_text(handles@, CreateSymlinkQueryParameters::HANDLE_TARGET_MOBJ as int, query.target).unwrap()),
{
        let a0 = view_string(handles, CreateSymlinkQueryParameters::HANDLE_PATH_MOBJ, query.path);
        let a1 = view_string(handles, CreateSymlinkQueryParameters::HANDLE_TARGET_MOBJ, query.target);
        match (a0, a1) {
            (Some(b0), Some(b1)) => Ok((b0, b1)),
            _ => Err(VfsServerError::InvalidArgument),
        }
}

/// ReadSymlink: the buffer the sender lent can take the target.
pub fn read_symlink_arguments(query: &ReadSymlinkQueryParameters, handles: &KHandles) -> (r: Result<(), VfsServerError>)
    ensures
        !(view_bytes(handles@, ReadSymlinkQueryParameters::HANDLE_BUFFER_MOBJ as int, query.buffer) is Some) ==> r == Err::<(), VfsServerError>(VfsServerError::InvalidArgument),
        (view_bytes(handles@, ReadSymlinkQueryParameters::HANDLE_BUFFER_MOBJ as int, query.buffer) is Some) ==> r is Ok,
{
        let a0 = view_valid(handles, ReadSymlinkQueryParameters::HANDLE_BUFFER_MOBJ, query.buffer);
        if !(a0) {
            return Err(VfsServerError::InvalidArgument);
        }
        Ok(())
}

/// Mount: the mount point, the port name of the file system and its arguments, read from the buffers the sender lent.
pub fn mount_arguments(query: &MountQueryParameters, handles: &KHandles) -> (r: Result<(String, String, Vec<u8>), VfsServerError>)
    ensures
        !(view_text(handles@, MountQueryParameters::HANDLE_MOUNT_POINT_MOBJ as int, query.mount_point) is Some && view_text(handles@, MountQueryParameters::HANDLE_FS_PORT_NAME_MOBJ as int, query.fs_port_name) is Some && view_bytes(handles@, MountQueryParameters::HANDLE_ARGS_MOBJ as int, query.args) is Some) ==> r == Err::<(String, String, Vec<u8>), VfsServerError>(VfsServerError::InvalidArgument),
        (view_text(handles@, MountQueryParameters::HANDLE_MOUNT_POINT_MOBJ as int, query.mount_point) is Some && view_text(handles@, MountQueryParameters::HANDLE_FS_PORT_NAME_MOBJ as int, query.fs_port_name) is Some && view_bytes(handles@, MountQueryParameters::HANDLE_ARGS_MOBJ as int, query.args) is Some) ==> (r matches Ok(v) && v.0@ == view_text(handles@, MountQueryParameters::HANDLE_MOUNT_POINT_MOBJ as int, query.mount_point).unwrap() && v.1@ == view_text(handles@, MountQueryParameters::HANDLE_FS_PORT_NAME_MOBJ as int, query.fs_port_name).unwrap() && v.2@ == view_bytes(handles@, MountQueryParameters::HANDLE_ARGS_MOBJ as int, query.args).unwrap()),
{
        let a0 = view_string(handles, MountQueryParameters::HANDLE_MOUNT_POINT_MOBJ, query.mount_point);
        let a1 = view_string(handles, MountQueryParameters::HANDLE_FS_PORT_NAME_MOBJ, query.fs_port_name);
        let a2 = view(handles, MountQueryParameters::HANDLE_ARGS_MOBJ, query.args);
        match (a0, a1, a2) {
            (Some(b0), Some(b1), Some(b2)) => Ok((b0, b1, b2)),
            _ => Err(VfsServerError::InvalidArgument),
        }
}

/// Unmount: the mount point, read from the buffer the sender lent.
pub fn unmount_arguments(query: &UnmountQueryParameters, handles: &KHandles) -> (r: Result<String, VfsServerError>)
    ensures
        !(view_text(handles@, UnmountQueryParameters::HANDLE_MOUNT_POINT_MOBJ as int, query.mount_point) is Some) ==> r == Err::<String, VfsServerError>(VfsServerError::InvalidArgument),
        (view_text(handles@, UnmountQueryParameters::HANDLE_MOUNT_POINT_MOBJ as int, query.mount_point) is Some) ==> (r matches Ok(v) && v@ == view_text(handles@, UnmountQueryParameters::HANDLE_MOUNT_POINT_MOBJ as int, query.mount_point).unwrap()),
{
        let a0 = view_string(handles, UnmountQueryParameters::HANDLE_MOUNT_POINT_MOBJ, query.mount_point);
        match (a0,) {
            (Some(b0),) => Ok(b0),
            _ => Err(VfsServerError::InvalidArgument),
        }
}

/// ListMounts: the buffer the sender lent can take the mount list.
pub fn list_mounts_arguments(query: &ListMountsQueryParameters, handles: &KHandles) -> (r: Result<(), VfsServerError>)
    ensures
        !(view_bytes(handles@, ListMountsQueryParameters::HANDLE_BUFFER_MOBJ as int, query.buffer) is Some && query.buffer.len + 16 <= usize::MAX) ==> r == Err::<(), VfsServerError>(VfsServerError::InvalidArgument),
        (view_bytes(handles@, ListMountsQueryParameters::HANDLE_BUFFER_MOBJ as int, query.buffer) is Some && query.buffer.len + 16 <= usize::MAX) ==> r is Ok,
{
        let a0 = view_valid(handles, ListMountsQueryParameters::HANDLE_BUFFER_MOBJ, query.buffer);
        if !(a0 && query.buffer.len <= usize::MAX - 16) {
            return Err(VfsServerError::InvalidArgument);
        }
        Ok(())
}

/// Read answered: the bytes read, as the implementation left them in the buffer, go back into the buffer the sender lent.
pub fn read_reply(handles: &mut KHandles, query: &ReadQueryParameters, data: &[u8], bytes_read: u64) -> (r: ReadReply)
    requires
        view_bytes(old(handles)@, ReadQueryParameters::HANDLE_BUFFER_MOBJ as int, query.buffer) is Some,
        data@.len() <= query.buffer.len,
    ensures
        r.bytes_read == bytes_read,
        final(handles)@ == written(old(handles)@, ReadQueryParameters::HANDLE_BUFFER_MOBJ as int, query.buffer, data@),
{
    write_view(handles, ReadQueryParameters::HANDLE_BUFFER_MOBJ, query.buffer, data);
    ReadReply { bytes_read }
}

/// List answered with `entries`: the directory list is written into the buffer the sender lent, or refused when it does not fit.
pub fn list_reply(handles: &mut KHandles, query: &ListQueryParameters, entries: &[DirectoryEntry]) -> (r: Result<ListReply, VfsServerError>)
    requires
        view_bytes(old(handles)@, ListQueryParameters::HANDLE_BUFFER_MOBJ as int, query.buffer) is Some,
        query.buffer.len + 16 <= usize::MAX,
    ensures
        ({
            let size = required_size(dentry_layout(), dentry_records(entries@));
            let bytes = view_bytes(old(handles)@, ListQueryParameters::HANDLE_BUFFER_MOBJ as int, query.buffer).unwrap();
            &&& size > query.buffer.len ==> r == Err::<ListReply, VfsServerError>(VfsServerError::BufferTooSmall) && final(handles)@ == old(handles)@
            &&& size <= query.buffer.len ==> r == Ok::<ListReply, VfsServerError>(ListReply { buffer_used_len: size as usize })
                && final(handles)@ == written(old(handles)@, ListQueryParameters::HANDLE_BUFFER_MOBJ as int, query.buffer, block_image(dentry_layout(), bytes, dentries_block::VERSION, dentry_records(entries@)))
        }),
{
    let mut buffer = match view(handles, ListQueryParameters::HANDLE_BUFFER_MOBJ, query.buffer) {
        Some(b) => b,
        None => {
            return Err(VfsServerError::InvalidArgument);
        },
    };
    match DentriesBlock::build(entries, buffer.as_mut_slice()) {
        Ok(used) => {
            proof {
                lemma_required_size(dentry_layout(), dentry_records(entries@));
            }
            write_view(handles, ListQueryParameters::HANDLE_BUFFER_MOBJ, query.buffer, buffer.as_slice());
            Ok(ListReply { buffer_used_len: used })
        },
        Err(_) => Err(VfsServerError::BufferTooSmall),
    }
}

/// ListMounts answered with `mounts`: the mount list is written into the buffer the sender lent, or refused when it does not fit.
pub fn list_mounts_reply(handles: &mut KHandles, query: &ListMountsQueryParameters, mounts: &[MountInfo]) -> (r: Result<ListMountsReply, VfsServerError>)
    requires
        view_bytes(old(handles)@, ListMountsQueryParameters::HANDLE_BUFFER_MOBJ as int, query.buffer) is Some,
        query.buffer.len + 16 <= usize::MAX,
    ensures
        ({
            let size = required_size(pair_layout(), mount_records(mounts@));
            let bytes = view_bytes(old(handles)@, ListMountsQueryParameters::HANDLE_BUFFER_MOBJ as int, query.buffer).unwrap();
            &&& size > query.buffer.len ==> r == Err::<ListMountsReply, VfsServerError>(VfsServerError::BufferTooSmall) && final(handles)@ == old(handles)@
            &&& size <= query.buffer.len ==> r == Ok::<ListMountsReply, VfsServerError>(ListMountsReply { buffer_used_len: size as usize })
                && final(handles)@ == written(old(handles)@, ListMountsQueryParameters::HANDLE_BUFFER_MOBJ as int, query.buffer, block_image(pair_layout(), bytes, mounts_block::VERSION, mount_records(mounts@)))
        }),
{
    let mut buffer = match view(handles, ListMountsQueryParameters::HANDLE_BUFFER_MOBJ, query.buffer) {
        Some(b) => b,
        None => {
            return Err(VfsServerError::InvalidArgument);
        },
    };
    match MountsBlock::build(mounts, buffer.as_mut_slice()) {
        Ok(used) => {
            proof {
                lemma_required_size(pair_layout(), mount_records(mounts@));
            }
            write_view(handles, ListMountsQueryParameters::HANDLE_BUFFER_MOBJ, query.buffer, buffer.as_slice());
            Ok(ListMountsReply { buffer_used_len: used })
        },
        Err(_) => Err(VfsServerError::BufferTooSmall),
    }
}

/// ReadSymlink answered with `text`, the target: written at the start of the buffer the sender lent, or refused when it does not fit.
pub fn read_symlink_reply(handles: &mut KHandles, query: &ReadSymlinkQueryParameters, text: &str) -> (r: Result<ReadSymlinkReply, VfsServerError>)
    requires
        view_bytes(old(handles)@, ReadSymlinkQueryParameters::HANDLE_BUFFER_MOBJ as int, query.buffer) is Some,
    ensures
        text.spec_bytes().len() > query.buffer.len ==> r == Err::<ReadSymlinkReply, VfsServerError>(VfsServerError::BufferTooSmall) && final(handles)@ == old(handles)@,
        text.spec_bytes().len() <= query.buffer.len ==> r == Ok::<ReadSymlinkReply, VfsServerError>(ReadSymlinkReply { target_length: text.spec_bytes().len() as usize })
            && final(handles)@ == written(old(handles)@, ReadSymlinkQueryParameters::HANDLE_BUFFER_MOBJ as int, query.buffer, text.spec_bytes()),
{
    let bytes = text.as_bytes();
    if bytes.len() > query.buffer.len {
        return Err(VfsServerError::BufferTooSmall);
    }
    write_view(handles, ReadSymlinkQueryParameters::HANDLE_BUFFER_MOBJ, query.buffer, bytes);
    Ok(ReadSymlinkReply { target_length: bytes.len() })
}

/// A directory list that a server writes into the zeroed buffer a client
/// lent in slot `i` reads back at the client as the same list: the buffer
/// keeps its size, the used length fits in it, and the used bytes hold a
/// readable block of those entries.
pub proof fn lemma_entries_read_back(i: int, size: usize, entries: Seq<DirectoryEntry>)
    requires
        0 <= i < HANDLE_SLOTS,
        entries_fit(entries),
        required_size(dentry_layout(), dentry_records(entries)) <= size,
        size + 16 <= usize::MAX,
    ensures
        ({
            let sent = zeroed_handle(i, size);
            let zeros = Seq::new(size as nat, |k: int| 0u8);
            let image = block_image(dentry_layout(), zeros, dentries_block::VERSION, dentry_records(entries));
            let back = written(sent, i, Buffer { offset: 0, len: size }, image);
            let used = required_size(dentry_layout(), dentry_records(entries)) as usize;
            &&& keeps_lent_size(sent, back, i)
            &&& used <= slot_bytes(back, i).len()
            &&& dentries_block::list_reply_ok(used_bytes(back, i, used))
            &&& dentries_of(used_bytes(back, i, used)) == entries_view(entries)
        }),
{
    let l = dentry_layout();
    let recs = dentry_records(entries);
    let zeros = Seq::new(size as nat, |k: int| 0u8);
    let image = block_image(l, zeros, dentries_block::VERSION, recs);
    lemma_dentries_build_then_read(entries, zeros);
    lemma_block_prefix(l, zeros, dentries_block::VERSION, recs);
    let back = written(zeroed_handle(i, size), i, Buffer { offset: 0, len: size }, image);
    assert(splice(zeros, 0, image) =~= image);
    assert(slot_bytes(back, i) == image);
    assert(dentries_block::parsed(used_bytes(back, i, required_size(l, recs) as usize)) == dentries_block::parsed(image));
}

/// A mount list that the server writes into the zeroed buffer a client lent
/// reads back at the client as the same list: the buffer keeps its size, the
/// used length fits in it, and the used bytes hold a readable block of those
/// mounts.
pub proof fn lemma_mounts_read_back(size: usize, mounts: Seq<MountInfo>)
    requires
        mounts_fit(mounts),
        required_size(pair_layout(), mount_records(mounts)) <= size,
        size + 16 <= usize::MAX,
    ensures
        ({
            let i = ListMountsQueryParameters::HANDLE_BUFFER_MOBJ as int;
            let sent = zeroed_handle(i, size);
            let zeros = Seq::new(size as nat, |k: int| 0u8);
            let image = block_image(pair_layout(), zeros, mounts_block::VERSION, mount_records(mounts));
            let back = written(sent, i, Buffer { offset: 0, len: size }, image);
            let used = required_size(pair_layout(), mount_records(mounts)) as usize;
            &&& keeps_lent_size(sent, back, i)
            &&& used <= slot_bytes(back, i).len()
            &&& mounts_block::list_reply_ok(used_bytes(back, i, used))
            &&& mounts_of(used_bytes(back, i, used)) == mounts_view(mounts)
        }),
{
    let i = ListMountsQueryParameters::HANDLE_BUFFER_MOBJ as int;
    let l = pair_layout();
    let recs = mount_records(mounts);
    let zeros = Seq::new(size as nat, |k: int| 0u8);
    let image = block_image(l, zeros, mounts_block::VERSION, recs);
    lemma_mounts_build_then_read(mounts, zeros);
    lemma_block_prefix(l, zeros, mounts_block::VERSION, recs);
    let back = written(zeroed_handle(i, size), i, Buffer { offset: 0, len: size }, image);
    assert(splice(zeros, 0, image) =~= image);
    assert(slot_bytes(back, i) == image);
}

} // verus!
