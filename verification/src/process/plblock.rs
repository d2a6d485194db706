//! The ProcessListBlock: the list of processes, written by the process server
//! into a buffer of the client.
//!
//! Layout: the block header, then from offset 8 one record per process,
//! 8-byte aligned: `pid: u64`, `ppid: u64`, the status (`tag: u32`, 0 for
//! running and 1 for exited, then the exit code as `i32`), `name_len: u32`,
//! four zero bytes, then the name bytes.
use vstd::prelude::*;
use vstd::string::StringSliceAdditionalSpecFns;
use vstd::utf8::{encode_utf8, decode_utf8, valid_utf8};
use crate::layout::{
    read_u32, read_u64, u32_bytes, u64_bytes, lemma_u32_roundtrip, lemma_u64_roundtrip, lemma_le_bytes_len,
    get_u32, get_u64, lemma_le_value_ext,
};
use crate::record_block::{
    RecordLayout, RawRecord, ExecRecord, raws, block_image, build_into, read_header, read_records, required_size,
    lemma_block_roundtrip, lemma_block_prefix, lemma_required_size, lemma_fits_larger, lemma_parse_len, lemma_parse_ok, push_u32,
    push_u64, exec_payload_string, exec_string_payload, HEADER_SIZE,
};
use crate::text::lemma_utf8_roundtrip;
use super::messages::ProcessStatus;

verus! {

/// Version of the ProcessListBlock format.
pub const VERSION: u32 = 1;

/// Information about a process, as usable format
#[derive(Debug, Clone)]
pub struct ProcessInfo {
    /// Process ID.
    pub pid: u64,

    /// Parent Process ID.
    pub ppid: u64,

    /// Process name.
    pub name: String,

    /// Process status.
    pub status: ProcessStatus,
}

impl ProcessInfo {
    pub open spec fn view(&self) -> (u64, u64, Seq<char>, ProcessStatus) {
        (self.pid, self.ppid, self.name@, self.status)
    }
}

pub open spec fn infos_view(infos: Seq<ProcessInfo>) -> Seq<(u64, u64, Seq<char>, ProcessStatus)> {
    infos.map_values(|p: ProcessInfo| p.view())
}

/// Shape of a process record.
pub open spec fn process_layout() -> RecordLayout {
    RecordLayout { head_size: 32, align: 8, len_at: 24, second_len_at: None }
}

fn exec_process_layout() -> (r: RecordLayout)
    ensures
        r == process_layout(),
{
    RecordLayout { head_size: 32, align: 8, len_at: 24, second_len_at: None }
}

/// The eight bytes of a status.
pub open spec fn status_bytes(status: ProcessStatus) -> Seq<u8> {
    match status {
        ProcessStatus::Running => u32_bytes(0) + u32_bytes(0),
        ProcessStatus::Exited(code) => u32_bytes(1) + u32_bytes(code as u32),
    }
}

/// The status stored at `off` in `head`, if its tag is known.
pub open spec fn status_at(head: Seq<u8>, off: int) -> Option<ProcessStatus> {
    let tag = read_u32(head, off);
    if tag == 0 {
        Some(ProcessStatus::Running)
    } else if tag == 1 {
        Some(ProcessStatus::Exited(read_u32(head, off + 4) as i32))
    } else {
        None
    }
}

/// The record of a process.
pub open spec fn process_record(pid: u64, ppid: u64, name: Seq<char>, status: ProcessStatus) -> RawRecord {
    (
        u64_bytes(pid) + u64_bytes(ppid) + status_bytes(status) + u32_bytes(encode_utf8(name).len() as u32)
            + u32_bytes(0),
        encode_utf8(name),
    )
}

pub open spec fn process_records(infos: Seq<ProcessInfo>) -> Seq<RawRecord> {
    infos.map_values(|p: ProcessInfo| process_record(p.pid, p.ppid, p.name@, p.status))
}

/// A record holds a known status and a valid UTF-8 name.
pub open spec fn process_valid(r: RawRecord) -> bool {
    status_at(r.0, 16) is Some && valid_utf8(r.1)
}

/// The process of a valid record.
pub open spec fn process_of(r: RawRecord) -> (u64, u64, Seq<char>, ProcessStatus) {
    (read_u64(r.0, 0), read_u64(r.0, 8), decode_utf8(r.1), status_at(r.0, 16).unwrap())
}

/// The fixed part of a process record.
pub struct ProcessEntry {
    pub pid: u64,
    pub ppid: u64,
    pub status: ProcessStatus,
    pub name_len: u32,
}

impl ProcessEntry {
    /// Size of the record: the fixed part and the name.
    pub fn total_size(&self) -> (r: usize)
        requires
            32 + self.name_len <= usize::MAX,
        ensures
            r == 32 + self.name_len,
    {
        32 + self.name_len as usize
    }
}

/// Errors when reading a ProcessListBlock.
#[derive(Debug, Clone, Copy, PartialEq, Eq, Structural)]
pub enum PLBlockReadError {
    InvalidVersion,
}

/// The records of the buffer, as its header counts them.
pub open spec fn parsed(buf: Seq<u8>) -> Option<Seq<RawRecord>> {
    process_layout().parse_records(buf, HEADER_SIZE as int, read_u32(buf, 4) as nat)
}

/// The buffer holds a block whose records all lie inside it and are valid.
pub open spec fn processes_readable(buf: Seq<u8>) -> bool {
    &&& parsed(buf) is Some
    &&& forall|i: int| 0 <= i < parsed(buf).unwrap().len() ==> process_valid(#[trigger] parsed(buf).unwrap()[i])
}

/// The processes that a readable buffer holds.
pub open spec fn processes_of(buf: Seq<u8>) -> Seq<(u64, u64, Seq<char>, ProcessStatus)> {
    parsed(buf).unwrap().map_values(|r: RawRecord| process_of(r))
}

fn exec_process_record(p: &ProcessInfo) -> (r: ExecRecord)
    ensures
        r.raw() == process_record(p.pid, p.ppid, p.name@, p.status),
{
    let payload = exec_string_payload(p.name.as_str());
    let mut head: Vec<u8> = Vec::new();
    push_u64(&mut head, p.pid);
    push_u64(&mut head, p.ppid);
    match p.status {
        ProcessStatus::Running => {
            push_u32(&mut head, 0);
            push_u32(&mut head, 0);
        },
        ProcessStatus::Exited(code) => {
            push_u32(&mut head, 1);
            push_u32(&mut head, code as u32);
        },
    }
    push_u32(&mut head, #[verifier::truncate] (payload.len() as u32));
    push_u32(&mut head, 0);
    proof {
        assert(head@ =~= process_record(p.pid, p.ppid, p.name@, p.status).0);
    }
    ExecRecord { head, payload }
}

/// Reads the status stored at `off` in `head`.
fn exec_status_at(head: &Vec<u8>, off: usize) -> (r: ProcessStatus)
    requires
        off + 8 <= head@.len(),
        status_at(head@, off as int) is Some,
    ensures
        r == status_at(head@, off as int).unwrap(),
{
    let _len = head.len();
    let tag = get_u32(head.as_slice(), off);
    if tag == 0 {
        ProcessStatus::Running
    } else {
        let code = get_u32(head.as_slice(), off + 4);
        ProcessStatus::Exited(#[verifier::truncate] (code as i32))
    }
}

/// The record of a process whose name is short enough for the format reads back as it.
pub proof fn lemma_process_record(pid: u64, ppid: u64, name: Seq<char>, status: ProcessStatus)
    requires
        encode_utf8(name).len() <= u32::MAX,
    ensures
        process_layout().record_ok(process_record(pid, ppid, name, status)),
        process_valid(process_record(pid, ppid, name, status)),
        process_of(process_record(pid, ppid, name, status)) == (pid, ppid, name, status),
{
    let r = process_record(pid, ppid, name, status);
    let len = encode_utf8(name).len() as u32;
    let e = Seq::<u8>::empty();
    let (tag, code): (u32, u32) = match status {
        ProcessStatus::Running => (0, 0),
        ProcessStatus::Exited(c) => (1, c as u32),
    };
    lemma_le_bytes_len(pid as nat, 8);
    lemma_le_bytes_len(ppid as nat, 8);
    lemma_le_bytes_len(tag as nat, 4);
    lemma_le_bytes_len(code as nat, 4);
    lemma_le_bytes_len(len as nat, 4);
    lemma_le_bytes_len(0, 4);
    let p0 = u64_bytes(pid);
    let p1 = u64_bytes(ppid);
    let p2 = u32_bytes(tag);
    let p3 = u32_bytes(code);
    let p4 = u32_bytes(len);
    let p5 = u32_bytes(0);
    assert(status_bytes(status) == p2 + p3);
    assert(r.0 =~= p0 + p1 + p2 + p3 + p4 + p5);
    lemma_u64_roundtrip(pid, e, p1 + p2 + p3 + p4 + p5);
    assert(e + p0 + (p1 + p2 + p3 + p4 + p5) =~= r.0);
    lemma_u64_roundtrip(ppid, p0, p2 + p3 + p4 + p5);
    assert(p0 + p1 + (p2 + p3 + p4 + p5) =~= r.0);
    lemma_u32_roundtrip(tag, p0 + p1, p3 + p4 + p5);
    assert(p0 + p1 + p2 + (p3 + p4 + p5) =~= r.0);
    lemma_u32_roundtrip(code, p0 + p1 + p2, p4 + p5);
    assert(p0 + p1 + p2 + p3 + (p4 + p5) =~= r.0);
    lemma_u32_roundtrip(len, p0 + p1 + p2 + p3, p5);
    assert(p0 + p1 + p2 + p3 + p4 + p5 =~= r.0);
    match status {
        ProcessStatus::Exited(c) => {
            assert((c as u32) as i32 == c) by (bit_vector);
        },
        ProcessStatus::Running => {},
    }
    lemma_utf8_roundtrip(name);
}

/// Process list block format for IPC communication.
pub struct ProcessListBlock;

impl ProcessListBlock {
    /// Builds a process list into the provided buffer.
    ///
    /// Returns `Ok(bytes_written)` on success, or `Err(required_size)` if the buffer is too small.
    pub fn build(processes: &[ProcessInfo], buffer: &mut [u8]) -> (r: Result<usize, usize>)
        requires
            old(buffer)@.len() + 8 <= usize::MAX,
        ensures
            final(buffer)@.len() == old(buffer)@.len(),
            ({
                let size = required_size(process_layout(), process_records(processes@));
                &&& size + 16 > usize::MAX ==> r is Err && final(buffer)@ == old(buffer)@
                &&& size + 16 <= usize::MAX && old(buffer)@.len() < size ==> r == Err::<usize, usize>(size as usize) && final(buffer)@ == old(buffer)@
                &&& size + 16 <= usize::MAX && old(buffer)@.len() >= size ==> r == Ok::<usize, usize>(size as usize)
                    && final(buffer)@ == block_image(process_layout(), old(buffer)@, VERSION, process_records(processes@))
            }),
    {
        let mut recs: Vec<ExecRecord> = Vec::new();
        let mut i: usize = 0;
        while i < processes.len()
            invariant
                i <= processes@.len(),
                raws(recs@) == process_records(processes@.take(i as int)),
            decreases processes@.len() - i,
        {
            let rec = exec_process_record(&processes[i]);
            let ghost prev = recs@;
            recs.push(rec);
            proof {
                assert(processes@.take(i + 1) =~= processes@.take(i as int).push(processes@[i as int]));
                assert(raws(recs@) =~= raws(prev).push(rec.raw()));
                assert(process_records(processes@.take(i + 1)) =~= process_records(processes@.take(i as int)).push(rec.raw()));
            }
            i = i + 1;
        }
        proof {
            assert(processes@.take(processes@.len() as int) =~= processes@);
        }
        let l = exec_process_layout();
        build_into(&l, VERSION, &recs, buffer)
    }

    /// Reads a process list from the provided buffer.
    ///
    /// Returns a vector of ProcessInfo on success, or an error if we get the wrong version.
    pub fn read(buffer: &[u8]) -> (r: Result<Vec<ProcessInfo>, PLBlockReadError>)
        requires
            buffer@.len() >= HEADER_SIZE,
            buffer@.len() + 8 <= usize::MAX,
            read_u32(buffer@, 0) == VERSION ==> processes_readable(buffer@),
        ensures
            read_u32(buffer@, 0) != VERSION ==> r == Err::<Vec<ProcessInfo>, PLBlockReadError>(PLBlockReadError::InvalidVersion),
            read_u32(buffer@, 0) == VERSION ==> (r matches Ok(v) && infos_view(v@) == processes_of(buffer@)),
    {
        let (version, count) = read_header(buffer);
        if version != VERSION {
            return Err(PLBlockReadError::InvalidVersion);
        }
        let l = exec_process_layout();
        let recs = read_records(&l, buffer, HEADER_SIZE, count);
        let ghost all = raws(recs@);
        proof {
            lemma_parse_len(process_layout(), buffer@, HEADER_SIZE as int, count as nat);
            lemma_parse_ok(process_layout(), buffer@, HEADER_SIZE as int, count as nat);
        }
        let mut result: Vec<ProcessInfo> = Vec::with_capacity(count as usize);
        let mut i: usize = 0;
        while i < recs.len()
            invariant
                i <= recs@.len(),
                all == raws(recs@),
                all == parsed(buffer@).unwrap(),
                processes_readable(buffer@),
                process_layout().records_ok(all),
                infos_view(result@) == all.take(i as int).map_values(|r: RawRecord| process_of(r)),
            decreases recs@.len() - i,
        {
            let rec = &recs[i];
            proof {
                assert(all[i as int] == rec.raw());
                assert(process_valid(all[i as int]));
                assert(process_layout().record_ok(all[i as int]));
            }
            let pid = get_u64(rec.head.as_slice(), 0);
            let ppid = get_u64(rec.head.as_slice(), 8);
            let status = exec_status_at(&rec.head, 16);
            let name = exec_payload_string(rec);
            let ghost prev = result@;
            result.push(ProcessInfo { pid, ppid, name, status });
            proof {
                assert(all.take(i + 1) =~= all.take(i as int).push(all[i as int]));
                assert(infos_view(result@) =~= infos_view(prev).push(result@[i as int].view()));
                assert(infos_view(result@) =~= all.take(i + 1).map_values(|r: RawRecord| process_of(r)));
            }
            i = i + 1;
        }
        proof {
            assert(all.take(all.len() as int) =~= all);
        }
        Ok(result)
    }
}

/// Every name is short enough for the format, and the count fits.
pub open spec fn processes_fit(infos: Seq<ProcessInfo>) -> bool {
    &&& infos.len() <= u32::MAX
    &&& forall|i: int| 0 <= i < infos.len() ==> encode_utf8((#[trigger] infos[i]).name@).len() <= u32::MAX
}

/// A list of processes written into a large enough buffer reads back unchanged,
/// and so do the first bytes of the buffer, as many as the build reported.
pub proof fn lemma_processes_build_then_read(infos: Seq<ProcessInfo>, buf: Seq<u8>)
    requires
        processes_fit(infos),
        buf.len() >= required_size(process_layout(), process_records(infos)),
    ensures
        ({
            let img = block_image(process_layout(), buf, VERSION, process_records(infos));
            &&& img.len() == buf.len()
            &&& read_u32(img, 0) == VERSION
            &&& processes_readable(img)
            &&& processes_of(img) == infos_view(infos)
            &&& parsed(img) == Some(process_records(infos))
            &&& process_layout().records_ok(process_records(infos))
            &&& img.take(required_size(process_layout(), process_records(infos))).len() == required_size(process_layout(), process_records(infos))
            &&& read_u32(img.take(required_size(process_layout(), process_records(infos))), 0) == VERSION
            &&& processes_readable(img.take(required_size(process_layout(), process_records(infos))))
            &&& processes_of(img.take(required_size(process_layout(), process_records(infos)))) == infos_view(infos)
        }),
{
    let l = process_layout();
    let recs = process_records(infos);
    assert forall|i: int| 0 <= i < recs.len() implies l.record_ok(#[trigger] recs[i]) && process_valid(recs[i])
        && process_of(recs[i]) == infos[i].view() by {
        lemma_process_record(infos[i].pid, infos[i].ppid, infos[i].name@, infos[i].status);
    }
    lemma_required_size(l, recs);
    lemma_fits_larger(l, required_size(l, recs), buf.len() as int, l.first_offset(), recs);
    lemma_block_roundtrip(l, buf, VERSION, recs);
    let img = block_image(l, buf, VERSION, recs);
    assert(parsed(img) == Some(recs));
    assert(processes_of(img) =~= infos_view(infos));
    lemma_block_prefix(l, buf, VERSION, recs);
    let u = img.take(required_size(l, recs));
    assert(l.parse_records(u, HEADER_SIZE as int, read_u32(u, 4) as nat) == Some(recs));
    assert(processes_of(u) =~= infos_view(infos));
}

/// The bytes that a server wrote in answer to ListProcesses hold a readable block.
pub open spec fn list_reply_ok(bytes: Seq<u8>) -> bool {
    &&& bytes.len() >= HEADER_SIZE
    &&& bytes.len() + 8 <= usize::MAX
    &&& read_u32(bytes, 0) == VERSION
    &&& processes_readable(bytes)
}

} // verus!
