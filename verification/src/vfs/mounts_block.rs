//! The MountsBlock: the list of mounted file systems, written by the VFS
//! server into a buffer of the client.
//!
//! Layout: the block header, then from offset 8 one record per mount,
//! 4-byte aligned: `mount_point_len: u32`, `fs_port_name_len: u32`, the mount
//! point bytes, the port name bytes.
use vstd::prelude::*;
use vstd::string::StringSliceAdditionalSpecFns;
use vstd::utf8::encode_utf8;
use crate::layout::read_u32;
use crate::record_block::{
    RawRecord, ExecRecord, raws, block_image, build_into, read_header, read_records, required_size,
    pair_layout, exec_pair_layout, pair_record, pair_valid, pair_of, exec_pair_record, exec_pair_of,
    lemma_pair_record, lemma_block_roundtrip, lemma_block_prefix, lemma_required_size, lemma_fits_larger, lemma_parse_len,
    lemma_parse_ok, HEADER_SIZE,
};

verus! {

/// Version of the MountsBlock format.
pub const VERSION: u32 = 1;

/// Information about a mounted filesystem, used in the ListMounts message.
#[derive(Debug, Clone)]
pub struct MountInfo {
    /// Mount point path, e.g. "/mnt/usb"
    pub mount_point: String,

    /// Port name of the filesystem driver, e.g. "usbfs"
    pub fs_port_name: String,
}

impl MountInfo {
    pub open spec fn view(&self) -> (Seq<char>, Seq<char>) {
        (self.mount_point@, self.fs_port_name@)
    }
}

pub open spec fn mounts_view(mounts: Seq<MountInfo>) -> Seq<(Seq<char>, Seq<char>)> {
    mounts.map_values(|m: MountInfo| m.view())
}

/// The records of a list of mounts.
pub open spec fn mount_records(mounts: Seq<MountInfo>) -> Seq<RawRecord> {
    mounts.map_values(|m: MountInfo| pair_record(m.mount_point@, m.fs_port_name@))
}

/// The fixed part of a mount record.
pub struct MountEntry {
    pub mount_point_len: u32,
    pub fs_port_name_len: u32,
}

impl MountEntry {
    /// Size of the record: the fixed part and both strings.
    pub fn total_size(&self) -> (r: usize)
        requires
            8 + self.mount_point_len + self.fs_port_name_len <= usize::MAX,
        ensures
            r == 8 + self.mount_point_len + self.fs_port_name_len,
    {
        8 + self.mount_point_len as usize + self.fs_port_name_len as usize
    }
}

/// Errors when reading a MountsBlock.
#[derive(Debug, Clone, Copy, PartialEq, Eq, Structural)]
pub enum MountsBlockReadError {
    InvalidVersion,
}

/// The buffer holds a block whose records all lie inside it and hold valid UTF-8.
pub open spec fn mounts_readable(buf: Seq<u8>) -> bool {
    &&& pair_layout().parse_records(buf, HEADER_SIZE as int, read_u32(buf, 4) as nat) is Some
    &&& forall|i: int| 0 <= i < pair_layout().parse_records(buf, HEADER_SIZE as int, read_u32(buf, 4) as nat).unwrap().len()
        ==> pair_valid(#[trigger] pair_layout().parse_records(buf, HEADER_SIZE as int, read_u32(buf, 4) as nat).unwrap()[i])
}

/// The mounts that a readable buffer holds.
pub open spec fn mounts_of(buf: Seq<u8>) -> Seq<(Seq<char>, Seq<char>)> {
    pair_layout().parse_records(buf, HEADER_SIZE as int, read_u32(buf, 4) as nat).unwrap().map_values(
        |r: RawRecord| pair_of(r),
    )
}

/// Mounts block format for IPC communication.
pub struct MountsBlock;

impl MountsBlock {
    /// Builds a mounts list into the provided buffer.
    ///
    /// Returns `Ok(bytes_written)` on success, or `Err(required_size)` if the buffer is too small.
    pub fn build(mounts: &[MountInfo], buffer: &mut [u8]) -> (r: Result<usize, usize>)
        requires
            old(buffer)@.len() + 8 <= usize::MAX,
        ensures
            final(buffer)@.len() == old(buffer)@.len(),
            ({
                let size = required_size(pair_layout(), mount_records(mounts@));
                &&& size + 16 > usize::MAX ==> r is Err && final(buffer)@ == old(buffer)@
                &&& size + 16 <= usize::MAX && old(buffer)@.len() < size ==> r == Err::<usize, usize>(size as usize) && final(buffer)@ == old(buffer)@
                &&& size + 16 <= usize::MAX && old(buffer)@.len() >= size ==> r == Ok::<usize, usize>(size as usize)
                    && final(buffer)@ == block_image(pair_layout(), old(buffer)@, VERSION, mount_records(mounts@))
            }),
    {
        let mut recs: Vec<ExecRecord> = Vec::new();
        let mut i: usize = 0;
        while i < mounts.len()
            invariant
                i <= mounts@.len(),
                raws(recs@) == mount_records(mounts@.take(i as int)),
            decreases mounts@.len() - i,
        {
            let m = &mounts[i];
            let rec = exec_pair_record(m.mount_point.as_str(), m.fs_port_name.as_str());
            let ghost prev = recs@;
            recs.push(rec);
            proof {
                assert(mounts@.take(i + 1) =~= mounts@.take(i as int).push(*m));
                assert(raws(recs@) =~= raws(prev).push(rec.raw()));
                assert(mount_records(mounts@.take(i + 1)) =~= mount_records(mounts@.take(i as int)).push(rec.raw()));
            }
            i = i + 1;
        }
        proof {
            assert(mounts@.take(mounts@.len() as int) =~= mounts@);
        }
        let l = exec_pair_layout();
        build_into(&l, VERSION, &recs, buffer)
    }

    /// Reads a mounts list from the provided buffer.
    ///
    /// Returns a vector of MountInfo on success, or an error if we get the wrong version.
    pub fn read(buffer: &[u8]) -> (r: Result<Vec<MountInfo>, MountsBlockReadError>)
        requires
            buffer@.len() >= HEADER_SIZE,
            buffer@.len() + 8 <= usize::MAX,
            read_u32(buffer@, 0) == VERSION ==> mounts_readable(buffer@),
        ensures
            read_u32(buffer@, 0) != VERSION ==> r == Err::<Vec<MountInfo>, MountsBlockReadError>(MountsBlockReadError::InvalidVersion),
            read_u32(buffer@, 0) == VERSION ==> (r matches Ok(v) && mounts_view(v@) == mounts_of(buffer@)),
    {
        let (version, count) = read_header(buffer);
        if version != VERSION {
            return Err(MountsBlockReadError::InvalidVersion);
        }
        let l = exec_pair_layout();
        let recs = read_records(&l, buffer, HEADER_SIZE, count);
        let ghost parsed = raws(recs@);
        proof {
            lemma_parse_len(pair_layout(), buffer@, HEADER_SIZE as int, count as nat);
            lemma_parse_ok(pair_layout(), buffer@, HEADER_SIZE as int, count as nat);
        }
        let mut result: Vec<MountInfo> = Vec::with_capacity(count as usize);
        let mut i: usize = 0;
        while i < recs.len()
            invariant
                i <= recs@.len(),
                parsed == raws(recs@),
                parsed == pair_layout().parse_records(buffer@, HEADER_SIZE as int, count as nat).unwrap(),
                count == read_u32(buffer@, 4),
                mounts_readable(buffer@),
                pair_layout().records_ok(parsed),
                mounts_view(result@) == parsed.take(i as int).map_values(|r: RawRecord| pair_of(r)),
            decreases recs@.len() - i,
        {
            proof {
                assert(parsed[i as int] == recs@[i as int].raw());
                assert(pair_valid(parsed[i as int]));
                assert(pair_layout().record_ok(parsed[i as int]));
            }
            let (mount_point, fs_port_name) = exec_pair_of(&recs[i]);
            let ghost prev = result@;
            result.push(MountInfo { mount_point, fs_port_name });
            proof {
                assert(parsed.take(i + 1) =~= parsed.take(i as int).push(parsed[i as int]));
                assert(mounts_view(result@) =~= mounts_view(prev).push((result@[i as int].mount_point@, result@[i as int].fs_port_name@)));
                assert(mounts_view(result@) =~= parsed.take(i + 1).map_values(|r: RawRecord| pair_of(r)));
            }
            i = i + 1;
        }
        proof {
            assert(parsed.take(parsed.len() as int) =~= parsed);
        }
        Ok(result)
    }
}

/// Every string of the list is short enough for the format, and the count fits.
pub open spec fn mounts_fit(mounts: Seq<MountInfo>) -> bool {
    &&& mounts.len() <= u32::MAX
    &&& forall|i: int| 0 <= i < mounts.len() ==> {
        &&& encode_utf8((#[trigger] mounts[i]).mount_point@).len() <= u32::MAX
        &&& encode_utf8(mounts[i].fs_port_name@).len() <= u32::MAX
    }
}

/// A list of mounts written into a large enough buffer reads back unchanged,
/// and so do the first bytes of the buffer, as many as the build reported.
pub proof fn lemma_mounts_build_then_read(mounts: Seq<MountInfo>, buf: Seq<u8>)
    requires
        mounts_fit(mounts),
        buf.len() >= required_size(pair_layout(), mount_records(mounts)),
    ensures
        ({
            let img = block_image(pair_layout(), buf, VERSION, mount_records(mounts));
            &&& img.len() == buf.len()
            &&& read_u32(img, 0) == VERSION
            &&& mounts_readable(img)
            &&& mounts_of(img) == mounts_view(mounts)
            &&& pair_layout().records_ok(mount_records(mounts))
            &&& img.take(required_size(pair_layout(), mount_records(mounts))).len() == required_size(pair_layout(), mount_records(mounts))
            &&& read_u32(img.take(required_size(pair_layout(), mount_records(mounts))), 0) == VERSION
            &&& mounts_readable(img.take(required_size(pair_layout(), mount_records(mounts))))
            &&& mounts_of(img.take(required_size(pair_layout(), mount_records(mounts)))) == mounts_view(mounts)
        }),
{
    let l = pair_layout();
    let recs = mount_records(mounts);
    assert forall|i: int| 0 <= i < recs.len() implies l.record_ok(#[trigger] recs[i]) && pair_valid(recs[i])
        && pair_of(recs[i]) == mounts[i].view() by {
        lemma_pair_record(mounts[i].mount_point@, mounts[i].fs_port_name@);
    }
    lemma_required_size(l, recs);
    lemma_fits_larger(l, required_size(l, recs), buf.len() as int, l.first_offset(), recs);
    lemma_block_roundtrip(l, buf, VERSION, recs);
    let img = block_image(l, buf, VERSION, recs);
    assert(l.parse_records(img, HEADER_SIZE as int, read_u32(img, 4) as nat) == Some(recs));
    assert(mounts_of(img) =~= mounts_view(mounts));
    lemma_block_prefix(l, buf, VERSION, recs);
    let u = img.take(required_size(l, recs));
    assert(l.parse_records(u, HEADER_SIZE as int, read_u32(u, 4) as nat) == Some(recs));
    assert(mounts_of(u) =~= mounts_view(mounts));
}

/// The bytes that a server wrote in answer to a listing hold a readable block.
pub open spec fn list_reply_ok(bytes: Seq<u8>) -> bool {
    &&& bytes.len() >= HEADER_SIZE
    &&& bytes.len() + 8 <= usize::MAX
    &&& read_u32(bytes, 0) == VERSION
    &&& mounts_readable(bytes)
}

} // verus!
