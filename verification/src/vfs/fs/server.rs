//! The file system server side of the messages. The server implementation
//! answers asynchronously, so each message is handled in two steps around
//! its answer: the arguments are read from the query and the buffers the
//! sender lent, then the answer is framed into the reply and the lent buffers.
use vstd::prelude::*;
use vstd::string::StringSliceAdditionalSpecFns;
use crate::ipc::{KHandles, view_bytes, view_text, written, view_valid, view_string, view, write_view};
use crate::record_block::{block_image, required_size, lemma_required_size};
use crate::vfs::dentries_block::{self, DirectoryEntry, DentriesBlock, dentry_layout, dentry_records};
use super::messages::{
    FsServerError, LookupQueryParameters, CreateQueryParameters, RemoveQueryParameters, MoveQueryParameters,
    ReadFileQueryParameters, ReadFileReply, WriteFileQueryParameters, ListDirQueryParameters, ListDirReply,
    CreateSymlinkQueryParameters, ReadSymlinkQueryParameters, ReadSymlinkReply, MountQueryParameters,
};

verus! {

/// Lookup: the name, read from the buffer the sender lent.
pub fn lookup_arguments(query: &LookupQueryParameters, handles: &KHandles) -> (r: Result<String, FsServerError>)
    ensures
        !(view_text(handles@, LookupQueryParameters::HANDLE_NAME_MOBJ as int, query.name) is Some) ==> r == Err::<String, FsServerError>(FsServerError::InvalidArgument),
        (view_text(handles@, LookupQueryParameters::HANDLE_NAME_MOBJ as int, query.name) is Some) ==> (r matches Ok(v) && v@ == view_text(handles@, LookupQueryParameters::HANDLE_NAME_MOBJ as int, query.name).unwrap()),
{
        let a0 = view_string(handles, LookupQueryParameters::HANDLE_NAME_MOBJ, query.name);
        match (a0,) {
            (Some(b0),) => Ok(b0),
            _ => Err(FsServerError::InvalidArgument),
        }
}

/// Create: the name, read from the buffer the sender lent.
pub fn create_arguments(query: &CreateQueryParameters, handles: &KHandles) -> (r: Result<String, FsServerError>)
    ensures
        !(view_text(handles@, CreateQueryParameters::HANDLE_NAME_MOBJ as int, query.name) is Some) ==> r == Err::<String, FsServerError>(FsServerError::InvalidArgument),
        (view_text(handles@, CreateQueryParameters::HANDLE_NAME_MOBJ as int, query.name) is Some) ==> (r matches Ok(v) && v@ == view_text(handles@, CreateQueryParameters::HANDLE_NAME_MOBJ as int, query.name).unwrap()),
{
        let a0 = view_string(handles, CreateQueryParameters::HANDLE_NAME_MOBJ, query.name);
        match (a0,) {
            (Some(b0),) => Ok(b0),
            _ => Err(FsServerError::InvalidArgument),
        }
}

/// Remove: the name, read from the buffer the sender lent.
pub fn remove_arguments(query: &RemoveQueryParameters, handles: &KHandles) -> (r: Result<String, FsServerError>)
    ensures
        !(view_text(handles@, RemoveQueryParameters::HANDLE_NAME_MOBJ as int, query.name) is Some) ==> r == Err::<String, FsServerError>(FsServerError::InvalidArgument),
        (view_text(handles@, RemoveQueryParameters::HANDLE_NAME_MOBJ as int, query.name) is Some) ==> (r matches Ok(v) && v@ == view_text(handles@, RemoveQueryParameters::HANDLE_NAME_MOBJ as int, query.name).unwrap()),
{
        let a0 = view_string(handles, RemoveQueryParameters::HANDLE_NAME_MOBJ, query.name);
        match (a0,) {
            (Some(b0),) => Ok(b0),
            _ => Err(FsServerError::InvalidArgument),
        }
}

/// Move: the source and the destination names, read from the buffers the sender lent.
pub fn move_node_arguments(query: &MoveQueryParameters, handles: &KHandles) -> (r: Result<(String, String), FsServerError>)
    ensures
        !(view_text(handles@, MoveQueryParameters::HANDLE_SRC_NAME_MOBJ as int, query.src_name) is Some && view_text(handles@, MoveQueryParameters::HANDLE_DST_NAME_MOBJ as int, query.dst_name) is Some) ==> r == Err::<(String, String), FsServerError>(FsServerError::InvalidArgument),
        (view_text(handles@, MoveQueryParameters::HANDLE_SRC_NAME_MOBJ as int, query.src_name) is Some && view_text(handles@, MoveQueryParameters::HANDLE_DST_NAME_MOBJ as int, query.dst_name) is Some) ==> (r matches Ok(v) && v.0@ == view_text(handles@, MoveQueryParameters::HANDLE_SRC_NAME_MOBJ as int, query.src_name).unwrap() && v.1@ == view_text(handles@, MoveQueryParameters::HANDLE_DST_NAME_MOBJ as int, query.dst_name).unwrap()),
{
        let a0 = view_string(handles, MoveQueryParameters::HANDLE_SRC_NAME_MOBJ, query.src_name);
        let a1 = view_string(handles, MoveQueryParameters::HANDLE_DST_NAME_MOBJ, query.dst_name);
        match (a0, a1) {
            (Some(b0), Some(b1)) => Ok((b0, b1)),
            _ => Err(FsServerError::InvalidArgument),
        }
}

/// ReadFile: the buffer the sender lent, for the answer to be read into.
pub fn read_file_arguments(query: &ReadFileQueryParameters, handles: &KHandles) -> (r: Result<Vec<u8>, FsServerError>)
    ensures
        !(view_bytes(handles@, ReadFileQueryParameters::HANDLE_BUFFER_MOBJ as int, query.buffer) is Some) ==> r == Err::<Vec<u8>, FsServerError>(FsServerError::InvalidArgument),
        (view_bytes(handles@, ReadFileQueryParameters::HANDLE_BUFFER_MOBJ as int, query.buffer) is Some) ==> (r matches Ok(v) && v@ == view_bytes(handles@, ReadFileQueryParameters::HANDLE_BUFFER_MOBJ as int, query.buffer).unwrap()),
{
        let a0 = view(handles, ReadFileQueryParameters::HANDLE_BUFFER_MOBJ, query.buffer);
        match (a0,) {
            (Some(b0),) => Ok(b0),
            _ => Err(FsServerError::InvalidArgument),
        }
}

/// WriteFile: the bytes to write, read from the buffer the sender lent.
pub fn write_file_arguments(query: &WriteFileQueryParameters, handles: &KHandles) -> (r: Result<Vec<u8>, FsServerError>)
    ensures
        !(view_bytes(handles@, WriteFileQueryParameters::HANDLE_BUFFER_MOBJ as int, query.buffer) is Some) ==> r == Err::<Vec<u8>, FsServerError>(FsServerError::InvalidArgument),
        (view_bytes(handles@, WriteFileQueryParameters::HANDLE_BUFFER_MOBJ as int, query.buffer) is Some) ==> (r matches Ok(v) && v@ == view_bytes(handles@, WriteFileQueryParameters::HANDLE_BUFFER_MOBJ as int, query.buffer).unwrap()),
{
        let a0 = view(handles, WriteFileQueryParameters::HANDLE_BUFFER_MOBJ, query.buffer);
        match (a0,) {
            (Some(b0),) => Ok(b0),
            _ => Err(FsServerError::InvalidArgument),
        }
}

/// ListDir: the buffer the sender lent can take the directory list.
pub fn list_dir_arguments(query: &ListDirQueryParameters, handles: &KHandles) -> (r: Result<(), FsServerError>)
    ensures
        !(view_bytes(handles@, ListDirQueryParameters::HANDLE_BUFFER_MOBJ as int, query.buffer) is Some && query.buffer.len + 16 <= usize::MAX) ==> r == Err::<(), FsServerError>(FsServerError::InvalidArgument),
        (view_bytes(handles@, ListDirQueryParameters::HANDLE_BUFFER_MOBJ as int, query.buffer) is Some && query.buffer.len + 16 <= usize::MAX) ==> r is Ok,
{
        let a0 = view_valid(handles, ListDirQueryParameters::HANDLE_BUFFER_MOBJ, query.buffer);
        if !(a0 && query.buffer.len <= usize::MAX - 16) {
            return Err(FsServerError::InvalidArgument);
        }
        Ok(())
}

/// CreateSymlink: the name and the target, read from the buffers the sender lent.
pub fn create_symlink_arguments(query: &CreateSymlinkQueryParameters, handles: &KHandles) -> (r: Result<(String, String), FsServerError>)
    ensures
        !(view_text(handles@, CreateSymlinkQueryParameters::HANDLE_NAME_MOBJ as int, query.name) is Some && view_text(handles@, CreateSymlinkQueryParameters::HANDLE_TARGET_MOBJ as int, query.target) is Some) ==> r == Err::<(String, String), FsServerError>(FsServerError::InvalidArgument),
        (view_text(handles@, CreateSymlinkQueryParameters::HANDLE_NAME_MOBJ as int, query.name) is Some && view_text(handles@, CreateSymlinkQueryParameters::HANDLE_TARGET_MOBJ as int, query.target) is Some) ==> (r matches Ok(v) && v.0@ == view_text(handles@, CreateSymlinkQueryParameters::HANDLE_NAME_MOBJ as int, query.name).unwrap() && v.1@ == view_text(handles@, CreateSymlinkQueryParameters::HANDLE_TARGET_MOBJ as int, query.target).unwrap()),
{
        let a0 = view_string(handles, CreateSymlinkQueryParameters::HANDLE_NAME_MOBJ, query.name);
        let a1 = view_string(handles, CreateSymlinkQueryParameters::HANDLE_TARGET_MOBJ, query.target);
        match (a0, a1) {
            (Some(b0), Some(b1)) => Ok((b0, b1)),
            _ => Err(FsServerError::InvalidArgument),
        }
}

/// ReadSymlink: the buffer the sender lent can take the target.
pub fn read_symlink_arguments(query: &ReadSymlinkQueryParameters, handles: &KHandles) -> (r: Result<(), FsServerError>)
    ensures
        !(view_bytes(handles@, ReadSymlinkQueryParameters::HANDLE_BUFFER_MOBJ as int, query.buffer) is Some) ==> r == Err::<(), FsServerError>(FsServerError::InvalidArgument),
        (view_bytes(handles@, ReadSymlinkQueryParameters::HANDLE_BUFFER_MOBJ as int, query.buffer) is Some) ==> r is Ok,
{
        let a0 = view_valid(handles, ReadSymlinkQueryParameters::HANDLE_BUFFER_MOBJ, query.buffer);
        if !(a0) {
            return Err(FsServerError::InvalidArgument);
        }
        Ok(())
}

/// Mount: the arguments of the mount, read from the buffer the sender lent.
pub fn mount_arguments(query: &MountQueryParameters, handles: &KHandles) -> (r: Result<Vec<u8>, FsServerError>)
    ensures
        !(view_bytes(handles@, MountQueryParameters::HANDLE_ARGS_MOBJ as int, query.args) is Some) ==> r == Err::<Vec<u8>, FsServerError>(FsServerError::InvalidArgument),
        (view_bytes(handles@, MountQueryParameters::HANDLE_ARGS_MOBJ as int, query.args) is Some) ==> (r matches Ok(v) && v@ == view_bytes(handles@, MountQueryParameters::HANDLE_ARGS_MOBJ as int, query.args).unwrap()),
{
        let a0 = view(handles, MountQueryParameters::HANDLE_ARGS_MOBJ, query.args);
        match (a0,) {
            (Some(b0),) => Ok(b0),
            _ => Err(FsServerError::InvalidArgument),
        }
}

/// ReadFile answered: the bytes read, as the implementation left them in the buffer, go back into the buffer the sender lent.
pub fn read_file_reply(handles: &mut KHandles, query: &ReadFileQueryParameters, data: &[u8], bytes_read: usize) -> (r: ReadFileReply)
    requires
        view_bytes(old(handles)@, ReadFileQueryParameters::HANDLE_BUFFER_MOBJ as int, query.buffer) is Some,
        data@.len() <= query.buffer.len,
    ensures
        r.bytes_read == bytes_read,
        final(handles)@ == written(old(handles)@, ReadFileQueryParameters::HANDLE_BUFFER_MOBJ as int, query.buffer, data@),
{
    write_view(handles, ReadFileQueryParameters::HANDLE_BUFFER_MOBJ, query.buffer, data);
    ReadFileReply { bytes_read }
}

/// ListDir answered with `entries`: the directory list is written into the buffer the sender lent, or refused when it does not fit.
pub fn list_dir_reply(handles: &mut KHandles, query: &ListDirQueryParameters, entries: &[DirectoryEntry]) -> (r: Result<ListDirReply, FsServerError>)
    requires
        view_bytes(old(handles)@, ListDirQueryParameters::HANDLE_BUFFER_MOBJ as int, query.buffer) is Some,
        query.buffer.len + 16 <= usize::MAX,
    ensures
        ({
            let size = required_size(dentry_layout(), dentry_records(entries@));
            let bytes = view_bytes(old(handles)@, ListDirQueryParameters::HANDLE_BUFFER_MOBJ as int, query.buffer).unwrap();
            &&& size > query.buffer.len ==> r == Err::<ListDirReply, FsServerError>(FsServerError::BufferTooSmall) && final(handles)@ == old(handles)@
            &&& size <= query.buffer.len ==> r == Ok::<ListDirReply, FsServerError>(ListDirReply { buffer_used_len: size as usize })
                && final(handles)@ == written(old(handles)@, ListDirQueryParameters::HANDLE_BUFFER_MOBJ as int, query.buffer, block_image(dentry_layout(), bytes, dentries_block::VERSION, dentry_records(entries@)))
        }),
{
    let mut buffer = match view(handles, ListDirQueryParameters::HANDLE_BUFFER_MOBJ, query.buffer) {
        Some(b) => b,
        None => {
            return Err(FsServerError::InvalidArgument);
        },
    };
    match DentriesBlock::build(entries, buffer.as_mut_slice()) {
        Ok(used) => {
            proof {
                lemma_required_size(dentry_layout(), dentry_records(entries@));
            }
            write_view(handles, ListDirQueryParameters::HANDLE_BUFFER_MOBJ, query.buffer, buffer.as_slice());
            Ok(ListDirReply { buffer_used_len: used })
        },
        Err(_) => Err(FsServerError::BufferTooSmall),
    }
}

/// ReadSymlink answered with `text`, the target: written at the start of the buffer the sender lent, or refused when it does not fit.
pub fn read_symlink_reply(handles: &mut KHandles, query: &ReadSymlinkQueryParameters, text: &str) -> (r: Result<ReadSymlinkReply, FsServerError>)
    requires
        view_bytes(old(handles)@, ReadSymlinkQueryParameters::HANDLE_BUFFER_MOBJ as int, query.buffer) is Some,
    ensures
        text.spec_bytes().len() > query.buffer.len ==> r == Err::<ReadSymlinkReply, FsServerError>(FsServerError::BufferTooSmall) && final(handles)@ == old(handles)@,
        text.spec_bytes().len() <= query.buffer.len ==> r == Ok::<ReadSymlinkReply, FsServerError>(ReadSymlinkReply { target_len: text.spec_bytes().len() as usize })
            && final(handles)@ == written(old(handles)@, ReadSymlinkQueryParameters::HANDLE_BUFFER_MOBJ as int, query.buffer, text.spec_bytes()),
{
    let bytes = text.as_bytes();
    if bytes.len() > query.buffer.len {
        return Err(FsServerError::BufferTooSmall);
    }
    write_view(handles, ReadSymlinkQueryParameters::HANDLE_BUFFER_MOBJ, query.buffer, bytes);
    Ok(ReadSymlinkReply { target_len: bytes.len() })
}

} // verus!
