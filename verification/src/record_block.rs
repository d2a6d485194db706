//! The layout shared by the IPC blocks that carry a list of variable-size
//! records: an 8-byte header (`version: u32`, `entry_count: u32`, little
//! endian), then one record per entry. A record is a fixed-size head, whose
//! `u32` length fields give the size of the payload (the string bytes) that
//! follows it. Each record starts at an offset aligned to the record
//! alignment; the padding bytes between records are left untouched.
use vstd::prelude::*;
use vstd::utf8::{valid_utf8, decode_utf8, encode_utf8};
use vstd::string::StringSliceAdditionalSpecFns;
use crate::text::{str_from_utf8, lemma_str_of_bytes, lemma_utf8_roundtrip};
use crate::layout::{
    spec_align_up, lemma_align_up_bounds, splice, read_u32, u32_bytes, align_up, get_u32, put_u32,
    put_bytes, lemma_le_value_ext, lemma_le_bytes_len, lemma_u32_roundtrip, lemma_align_up_shift, u32_to_le,
};

verus! {

/// Size of the block header.
pub const HEADER_SIZE: usize = 8;

/// Shape of the records of one block format.
#[derive(Clone, Copy)]
pub struct RecordLayout {
    /// Size in bytes of the fixed part of a record.
    pub head_size: usize,
    /// Alignment of every record.
    pub align: usize,
    /// Offset inside the head of the `u32` length of the first string.
    pub len_at: usize,
    /// Offset inside the head of the `u32` length of the second string, if any.
    pub second_len_at: Option<usize>,
}

/// A record as raw bytes: its head and its payload.
pub type RawRecord = (Seq<u8>, Seq<u8>);

impl RecordLayout {
    pub open spec fn wf(self) -> bool {
        &&& 0 < self.align <= 8
        &&& 8usize % self.align == 0
        &&& self.head_size <= 64
        &&& self.len_at + 4 <= self.head_size
        &&& match self.second_len_at {
            Some(p) => p + 4 <= self.head_size,
            None => true,
        }
    }

    /// Length of the payload announced by `head`.
    pub open spec fn payload_len(self, head: Seq<u8>) -> nat {
        read_u32(head, self.len_at as int) as nat + match self.second_len_at {
            Some(p) => read_u32(head, p as int) as nat,
            None => 0nat,
        }
    }

    /// Offset of the first record.
    pub open spec fn first_offset(self) -> int {
        spec_align_up(HEADER_SIZE as int, self.align as int)
    }

    /// `rec` is well formed: a head of the right size announcing its payload.
    pub open spec fn record_ok(self, rec: RawRecord) -> bool {
        &&& rec.0.len() == self.head_size
        &&& self.payload_len(rec.0) == rec.1.len()
    }

    pub open spec fn records_ok(self, recs: Seq<RawRecord>) -> bool {
        forall|i: int| 0 <= i < recs.len() ==> self.record_ok(#[trigger] recs[i])
    }

    /// Offset of the record that follows a record of `size` bytes at `off`.
    pub open spec fn next_offset(self, off: int, size: int) -> int {
        off + spec_align_up(size, self.align as int)
    }

    /// `buf` with `recs` written one after the other from `off`.
    pub open spec fn write_records(self, buf: Seq<u8>, off: int, recs: Seq<RawRecord>) -> Seq<u8>
        decreases recs.len(),
    {
        if recs.len() == 0 {
            buf
        } else {
            let r = recs[0];
            self.write_records(
                splice(buf, off, r.0 + r.1),
                self.next_offset(off, (r.0.len() + r.1.len()) as int),
                recs.drop_first(),
            )
        }
    }

    /// The end of the last record written from `off` (or `off` when there is none),
    /// as the size computation of the formats counts it.
    pub open spec fn records_end(self, off: int, recs: Seq<RawRecord>) -> int
        decreases recs.len(),
    {
        if recs.len() == 0 {
            off
        } else if recs.len() == 1 {
            off + recs[0].0.len() + recs[0].1.len()
        } else {
            self.records_end(
                self.next_offset(off, (recs[0].0.len() + recs[0].1.len()) as int),
                recs.drop_first(),
            )
        }
    }

    /// The offset after the last record, padding included.
    pub open spec fn records_next(self, off: int, recs: Seq<RawRecord>) -> int
        decreases recs.len(),
    {
        if recs.len() == 0 {
            off
        } else {
            self.records_next(
                self.next_offset(off, (recs[0].0.len() + recs[0].1.len()) as int),
                recs.drop_first(),
            )
        }
    }

    /// The `n` records found in `buf` from `off`, if all of them lie inside it.
    pub open spec fn parse_records(self, buf: Seq<u8>, off: int, n: nat) -> Option<Seq<RawRecord>>
        decreases n,
    {
        if n == 0 {
            Some(Seq::empty())
        } else if off < 0 || off + self.head_size > buf.len() {
            None
        } else {
            let head = buf.subrange(off, off + self.head_size);
            let end = off + self.head_size + self.payload_len(head);
            if end > buf.len() {
                None
            } else {
                let payload = buf.subrange(off + self.head_size, end);
                match self.parse_records(
                    buf,
                    self.next_offset(off, self.head_size + self.payload_len(head)),
                    (n - 1) as nat,
                ) {
                    Some(rest) => Some(seq![(head, payload)] + rest),
                    None => None,
                }
            }
        }
    }
}

/// Parsing `n` records gives `n` records.
pub proof fn lemma_parse_len(l: RecordLayout, buf: Seq<u8>, off: int, n: nat)
    requires
        l.parse_records(buf, off, n) is Some,
    ensures
        l.parse_records(buf, off, n).unwrap().len() == n,
    decreases n,
{
    if n > 0 {
        let head = buf.subrange(off, off + l.head_size);
        lemma_parse_len(l, buf, l.next_offset(off, l.head_size + l.payload_len(head)), (n - 1) as nat);
    }
}

/// Records parsed from `buf` parse the same from any prefix of it that holds
/// their end.
pub proof fn lemma_parse_prefix(l: RecordLayout, buf: Seq<u8>, off: int, n: nat, k: int)
    requires
        l.wf(),
        off >= 0,
        l.parse_records(buf, off, n) is Some,
        l.records_end(off, l.parse_records(buf, off, n).unwrap()) <= k <= buf.len(),
    ensures
        l.parse_records(buf.take(k), off, n) == l.parse_records(buf, off, n),
    decreases n,
{
    if n > 0 {
        let recs = l.parse_records(buf, off, n).unwrap();
        let head = buf.subrange(off, off + l.head_size);
        let end = off + l.head_size + l.payload_len(head);
        let next = l.next_offset(off, l.head_size + l.payload_len(head));
        let rest = l.parse_records(buf, next, (n - 1) as nat).unwrap();
        assert(recs == seq![(head, buf.subrange(off + l.head_size, end))] + rest);
        assert(recs.drop_first() =~= rest);
        lemma_records_end_ge(l, off, recs);
        lemma_next_offset_grows(l, off, l.head_size + l.payload_len(head));
        let t = buf.take(k);
        assert(t.subrange(off, off + l.head_size) =~= head);
        assert(t.subrange(off + l.head_size, end) =~= buf.subrange(off + l.head_size, end));
        if n > 1 {
            lemma_parse_len(l, buf, next, (n - 1) as nat);
            assert(l.records_end(off, recs) == l.records_end(next, rest));
            lemma_parse_prefix(l, buf, next, (n - 1) as nat, k);
        }
    }
}

/// Every parsed record has a head of the right size that announces its payload.
pub proof fn lemma_parse_ok(l: RecordLayout, buf: Seq<u8>, off: int, n: nat)
    requires
        l.parse_records(buf, off, n) is Some,
    ensures
        l.records_ok(l.parse_records(buf, off, n).unwrap()),
    decreases n,
{
    if n > 0 {
        let head = buf.subrange(off, off + l.head_size);
        let next = l.next_offset(off, l.head_size + l.payload_len(head));
        lemma_parse_ok(l, buf, next, (n - 1) as nat);
        let all = l.parse_records(buf, off, n).unwrap();
        let rest = l.parse_records(buf, next, (n - 1) as nat).unwrap();
        assert forall|i: int| 0 <= i < all.len() implies l.record_ok(#[trigger] all[i]) by {
            if i > 0 {
                assert(all[i] == rest[i - 1]);
            }
        }
    }
}

/// The header bytes of a block.
pub open spec fn header_bytes(version: u32, count: u32) -> Seq<u8> {
    u32_bytes(version) + u32_bytes(count)
}

/// The whole image of a block: the header then the records, over `buf`.
pub open spec fn block_image(l: RecordLayout, buf: Seq<u8>, version: u32, recs: Seq<RawRecord>) -> Seq<u8> {
    l.write_records(
        splice(buf, 0, header_bytes(version, recs.len() as u32)),
        l.first_offset(),
        recs,
    )
}

pub proof fn lemma_next_offset_grows(l: RecordLayout, off: int, size: int)
    requires
        l.wf(),
        size >= 0,
    ensures
        off + size <= l.next_offset(off, size) < off + size + l.align,
{
    lemma_align_up_bounds(size, l.align as int);
}

/// Every record written from `off` lies inside a buffer of `len` bytes.
pub open spec fn fits(l: RecordLayout, len: int, off: int, recs: Seq<RawRecord>) -> bool
    decreases recs.len(),
{
    recs.len() == 0 || (off >= 0 && off + recs[0].0.len() + recs[0].1.len() <= len && fits(
        l,
        len,
        l.next_offset(off, (recs[0].0.len() + recs[0].1.len()) as int),
        recs.drop_first(),
    ))
}

/// Records fit in any buffer that holds their computed end.
pub proof fn lemma_fits_from_end(l: RecordLayout, len: int, off: int, recs: Seq<RawRecord>)
    requires
        l.wf(),
        off >= 0,
        l.records_end(off, recs) <= len,
    ensures
        fits(l, len, off, recs),
    decreases recs.len(),
{
    if recs.len() > 1 {
        let size = (recs[0].0.len() + recs[0].1.len()) as int;
        lemma_next_offset_grows(l, off, size);
        lemma_records_end_ge(l, l.next_offset(off, size), recs.drop_first());
        lemma_fits_from_end(l, len, l.next_offset(off, size), recs.drop_first());
        assert(l.records_end(off, recs) == l.records_end(l.next_offset(off, size), recs.drop_first()));
    } else if recs.len() == 1 {
        assert(recs.drop_first().len() == 0);
        assert(fits(l, len, l.next_offset(off, (recs[0].0.len() + recs[0].1.len()) as int), recs.drop_first()));
    }
}

proof fn lemma_records_end_ge(l: RecordLayout, off: int, recs: Seq<RawRecord>)
    requires
        l.wf(),
    ensures
        l.records_end(off, recs) >= off,
        recs.len() > 0 ==> l.records_end(off, recs) >= off + recs[0].0.len() + recs[0].1.len(),
    decreases recs.len(),
{
    if recs.len() > 1 {
        let size = (recs[0].0.len() + recs[0].1.len()) as int;
        lemma_next_offset_grows(l, off, size);
        lemma_records_end_ge(l, l.next_offset(off, size), recs.drop_first());
    }
}

/// Writing records that fit keeps the length of the buffer and every byte before `off`.
pub proof fn lemma_write_records_frame(l: RecordLayout, buf: Seq<u8>, off: int, recs: Seq<RawRecord>)
    requires
        l.wf(),
        off >= 0,
        fits(l, buf.len() as int, off, recs),
    ensures
        l.write_records(buf, off, recs).len() == buf.len(),
        forall|i: int| 0 <= i < off && i < buf.len() ==> #[trigger] l.write_records(buf, off, recs)[i] == buf[i],
    decreases recs.len(),
{
    if recs.len() > 0 {
        let r = recs[0];
        let size = (r.0.len() + r.1.len()) as int;
        let b2 = splice(buf, off, r.0 + r.1);
        assert(b2.len() == buf.len());
        let off2 = l.next_offset(off, size);
        lemma_next_offset_grows(l, off, size);
        lemma_write_records_frame(l, b2, off2, recs.drop_first());
        let fin = l.write_records(b2, off2, recs.drop_first());
        assert(fin == l.write_records(buf, off, recs));
        assert forall|i: int| 0 <= i < off && i < buf.len() implies fin[i] == buf[i] by {
            assert(fin[i] == b2[i]);
        }
    }
}

/// Reading back records written from `off` gives the records.
pub proof fn lemma_parse_written(l: RecordLayout, buf: Seq<u8>, off: int, recs: Seq<RawRecord>)
    requires
        l.wf(),
        off >= 0,
        l.records_ok(recs),
        fits(l, buf.len() as int, off, recs),
    ensures
        l.parse_records(l.write_records(buf, off, recs), off, recs.len()) == Some(recs),
    decreases recs.len(),
{
    let fin = l.write_records(buf, off, recs);
    if recs.len() > 0 {
        let r = recs[0];
        assert(l.record_ok(r));
        let size = (r.0.len() + r.1.len()) as int;
        let b2 = splice(buf, off, r.0 + r.1);
        let off2 = l.next_offset(off, size);
        lemma_next_offset_grows(l, off, size);
        let rest = recs.drop_first();
        lemma_write_records_frame(l, b2, off2, rest);
        assert forall|i: int| 0 <= i < rest.len() implies l.record_ok(#[trigger] rest[i]) by {
            assert(rest[i] == recs[i + 1]);
        }
        lemma_parse_written(l, b2, off2, rest);
        assert(fin == l.write_records(b2, off2, rest));
        // the bytes of the first record are still in place
        assert(fin.subrange(off, off + size) =~= r.0 + r.1) by {
            assert forall|k: int| 0 <= k < size implies fin.subrange(off, off + size)[k] == (r.0 + r.1)[k] by {
                assert(fin[off + k] == b2[off + k]);
            }
        }
        assert(fin.subrange(off, off + l.head_size) =~= r.0) by {
            assert(fin.subrange(off, off + l.head_size) =~= fin.subrange(off, off + size).subrange(0, l.head_size as int));
        }
        assert(fin.subrange(off + l.head_size, off + size) =~= r.1) by {
            assert(fin.subrange(off + l.head_size, off + size) =~= fin.subrange(off, off + size).subrange(l.head_size as int, size));
        }
        assert(seq![(r.0, r.1)] + rest =~= recs);
    }
}


/// A record held as bytes: its head and its payload.
pub struct ExecRecord {
    pub head: Vec<u8>,
    pub payload: Vec<u8>,
}

impl ExecRecord {
    pub open spec fn raw(&self) -> RawRecord {
        (self.head@, self.payload@)
    }
}

pub open spec fn raws(recs: Seq<ExecRecord>) -> Seq<RawRecord> {
    recs.map_values(|r: ExecRecord| r.raw())
}

impl RecordLayout {
    /// Reads the payload length announced by the head that starts at `off`.
    pub fn exec_payload_len(&self, buf: &[u8], off: usize) -> (r: u64)
        requires
            self.wf(),
            off + self.head_size <= buf@.len(),
        ensures
            r == self.payload_len(buf@.subrange(off as int, off + self.head_size)),
    {
        let ghost head = buf@.subrange(off as int, off + self.head_size);
        let _blen = buf.len();
        let a = get_u32(buf, off + self.len_at);
        proof {
            assert(buf@.subrange(off + self.len_at, off + self.len_at + 4) =~= head.subrange(self.len_at as int, self.len_at + 4));
            lemma_le_value_ext(buf@, off + self.len_at, head, self.len_at as int, 4);
        }
        match self.second_len_at {
            Some(p) => {
                let b = get_u32(buf, off + p);
                proof {
                    assert(buf@.subrange(off + p, off + p + 4) =~= head.subrange(p as int, p + 4));
                    lemma_le_value_ext(buf@, off + p, head, p as int, 4);
                }
                a as u64 + b as u64
            },
            None => a as u64,
        }
    }
}

pub proof fn lemma_first_offset(l: RecordLayout)
    requires
        l.wf(),
    ensures
        l.first_offset() == HEADER_SIZE,
{
    assert(8int % (l.align as int) == 0);
}

/// Writes the header then the records into `buf`.
pub fn write_block(l: &RecordLayout, version: u32, recs: &Vec<ExecRecord>, buf: &mut [u8])
    requires
        l.wf(),
        old(buf)@.len() >= HEADER_SIZE,
        old(buf)@.len() + 8 <= usize::MAX,
        fits(*l, old(buf)@.len() as int, l.first_offset(), raws(recs@)),
    ensures
        final(buf)@ == block_image(*l, old(buf)@, version, raws(recs@)),
        final(buf)@.len() == old(buf)@.len(),
{
    let ghost target = block_image(*l, old(buf)@, version, raws(recs@));
    let ghost all = raws(recs@);
    let blen = buf.len();
    let count = (#[verifier::truncate] (recs.len() as u32));
    let ghost b0 = buf@;
    put_u32(buf, 0, version);
    put_u32(buf, 4, count);
    proof {
        lemma_le_bytes_len(version as nat, 4);
        lemma_le_bytes_len(count as nat, 4);
        assert(all.len() == recs@.len());
        assert(buf@ =~= splice(b0, 0, header_bytes(version, all.len() as u32)));
        lemma_first_offset(*l);
        assert(all.skip(0) =~= all);
    }
    let mut off: usize = HEADER_SIZE;
    let mut i: usize = 0;
    while i < recs.len()
        invariant
            l.wf(),
            i <= recs@.len(),
            all == raws(recs@),
            blen == buf@.len(),
            blen == old(buf)@.len(),
            blen + 8 <= usize::MAX,
            off <= blen + 8,
            fits(*l, blen as int, off as int, all.skip(i as int)),
            l.write_records(buf@, off as int, all.skip(i as int)) == target,
        decreases recs@.len() - i,
    {
        let rec = &recs[i];
        let ghost rest = all.skip(i as int);
        proof {
            assert(rest[0] == rec.raw());
            assert(rest.drop_first() =~= all.skip(i + 1));
        }
        let hlen = rec.head.len();
        let plen = rec.payload.len();
        let ghost b1 = buf@;
        put_bytes(buf, off, rec.head.as_slice());
        put_bytes(buf, off + hlen, rec.payload.as_slice());
        proof {
            assert(buf@ =~= splice(b1, off as int, rec.head@ + rec.payload@));
            lemma_next_offset_grows(*l, off as int, (hlen + plen) as int);
        }
        off = off + align_up(hlen + plen, l.align);
        i = i + 1;
    }
    proof {
        assert(all.skip(i as int).len() == 0);
    }
}

/// Reads `n` records from `off` in `buf`.
pub fn read_records(l: &RecordLayout, buf: &[u8], start: usize, n: u32) -> (r: Vec<ExecRecord>)
    requires
        l.wf(),
        buf@.len() + 8 <= usize::MAX,
        l.parse_records(buf@, start as int, n as nat) is Some,
    ensures
        raws(r@) == l.parse_records(buf@, start as int, n as nat).unwrap(),
{
    let ghost full = l.parse_records(buf@, start as int, n as nat).unwrap();
    let mut out: Vec<ExecRecord> = Vec::new();
    let mut off: usize = start;
    let mut i: u32 = 0;
    let blen = buf.len();
    while i < n
        invariant
            l.wf(),
            i <= n,
            blen == buf@.len(),
            blen + 8 <= usize::MAX,
            l.parse_records(buf@, off as int, (n - i) as nat) is Some,
            full == raws(out@) + l.parse_records(buf@, off as int, (n - i) as nat).unwrap(),
        decreases n - i,
    {
        let ghost rest = l.parse_records(buf@, off as int, (n - i) as nat).unwrap();
        let h = l.head_size;
        let plen = l.exec_payload_len(buf, off) as usize;
        let head = slice_to_vec(&buf[off..off + h]);
        let payload = slice_to_vec(&buf[off + h..off + h + plen]);
        proof {
            lemma_next_offset_grows(*l, off as int, (h + plen) as int);
        }
        let next = off + align_up(h + plen, l.align);
        let rec = ExecRecord { head, payload };
        let ghost prev = out@;
        out.push(rec);
        proof {
            assert(raws(out@) =~= raws(prev).push(rec.raw()));
            assert(rest == seq![rec.raw()] + l.parse_records(buf@, next as int, (n - i - 1) as nat).unwrap());
            assert(raws(prev) + rest =~= raws(out@) + l.parse_records(buf@, next as int, (n - i - 1) as nat).unwrap());
        }
        off = next;
        i = i + 1;
    }
    proof {
        assert(raws(out@) + Seq::<RawRecord>::empty() =~= raws(out@));
    }
    out
}

/// A copy of the bytes of `s`.
pub fn slice_to_vec(s: &[u8]) -> (r: Vec<u8>)
    ensures
        r@ == s@,
{
    let mut v: Vec<u8> = Vec::new();
    let mut i: usize = 0;
    while i < s.len()
        invariant
            i <= s@.len(),
            v@ == s@.take(i as int),
        decreases s@.len() - i,
    {
        v.push(s[i]);
        i = i + 1;
        assert(v@ =~= s@.take(i as int));
    }
    assert(s@.take(s@.len() as int) =~= s@);
    v
}

/// The size counted by the block builders: from `total`, each record is
/// placed at the next aligned offset and adds its size.
pub open spec fn calc_size(l: RecordLayout, total: int, recs: Seq<RawRecord>) -> int
    decreases recs.len(),
{
    if recs.len() == 0 {
        total
    } else {
        calc_size(l, spec_align_up(total, l.align as int) + recs[0].0.len() + recs[0].1.len(), recs.drop_first())
    }
}

/// Size of the block that holds `recs`.
pub open spec fn required_size(l: RecordLayout, recs: Seq<RawRecord>) -> int {
    calc_size(l, HEADER_SIZE as int, recs)
}

pub proof fn lemma_calc_size(l: RecordLayout, t: int, recs: Seq<RawRecord>)
    requires
        l.wf(),
        t >= 0,
        recs.len() > 0,
    ensures
        calc_size(l, t, recs) == l.records_end(spec_align_up(t, l.align as int), recs),
    decreases recs.len(),
{
    lemma_align_up_bounds(t, l.align as int);
    let a = spec_align_up(t, l.align as int);
    let s0 = (recs[0].0.len() + recs[0].1.len()) as int;
    let rest = recs.drop_first();
    assert(calc_size(l, t, recs) == calc_size(l, a + s0, rest));
    if recs.len() > 1 {
        lemma_calc_size(l, a + s0, rest);
        lemma_align_up_shift(a, s0, l.align as int);
        assert(l.records_end(a, recs) == l.records_end(l.next_offset(a, s0), rest));
    } else {
        assert(rest.len() == 0);
        assert(calc_size(l, a + s0, rest) == a + s0);
    }
}

/// Counting one more record at the end: the count so far, rounded up to the
/// alignment, plus the size of the new record.
pub proof fn lemma_calc_size_push(l: RecordLayout, t: int, recs: Seq<RawRecord>, r: RawRecord)
    ensures
        calc_size(l, t, recs.push(r)) == spec_align_up(calc_size(l, t, recs), l.align as int) + r.0.len() + r.1.len(),
    decreases recs.len(),
{
    if recs.len() == 0 {
        let one = recs.push(r);
        let a = spec_align_up(t, l.align as int) + r.0.len() + r.1.len();
        assert(one.drop_first().len() == 0);
        assert(one[0] == r);
        assert(calc_size(l, a, one.drop_first()) == a);
        assert(calc_size(l, t, recs) == t);
    } else {
        let t2 = spec_align_up(t, l.align as int) + recs[0].0.len() + recs[0].1.len();
        lemma_calc_size_push(l, t2, recs.drop_first(), r);
        assert(recs.push(r).drop_first() =~= recs.drop_first().push(r));
        assert(recs.push(r)[0] == recs[0]);
    }
}

/// The size of a block with one more record at the end: the size without it,
/// rounded up to the alignment, plus the size of the record. A block with no
/// record is its header alone.
pub proof fn lemma_required_size_push(l: RecordLayout, recs: Seq<RawRecord>, r: RawRecord)
    ensures
        required_size(l, Seq::empty()) == HEADER_SIZE,
        required_size(l, recs.push(r)) == spec_align_up(required_size(l, recs), l.align as int) + r.0.len() + r.1.len(),
{
    lemma_calc_size_push(l, HEADER_SIZE as int, recs, r);
}

/// The required size is where the records end, and the records fit in it.
pub proof fn lemma_required_size(l: RecordLayout, recs: Seq<RawRecord>)
    requires
        l.wf(),
    ensures
        required_size(l, recs) >= HEADER_SIZE,
        fits(l, required_size(l, recs), l.first_offset(), recs),
{
    lemma_first_offset(l);
    if recs.len() > 0 {
        lemma_calc_size(l, HEADER_SIZE as int, recs);
        lemma_records_end_ge(l, HEADER_SIZE as int, recs);
        lemma_fits_from_end(l, required_size(l, recs), HEADER_SIZE as int, recs);
    }
}

/// Records that fit in a buffer of `len` bytes fit in any larger buffer.
pub proof fn lemma_fits_larger(l: RecordLayout, len: int, len2: int, off: int, recs: Seq<RawRecord>)
    requires
        fits(l, len, off, recs),
        len <= len2,
    ensures
        fits(l, len2, off, recs),
    decreases recs.len(),
{
    if recs.len() > 0 {
        lemma_fits_larger(l, len, len2, l.next_offset(off, (recs[0].0.len() + recs[0].1.len()) as int), recs.drop_first());
    }
}

/// Computes the size of the block that holds `recs`.
pub fn exec_required_size(l: &RecordLayout, recs: &Vec<ExecRecord>) -> (r: Option<usize>)
    requires
        l.wf(),
    ensures
        r matches Some(n) ==> n == required_size(*l, raws(recs@)),
        r is Some ==> required_size(*l, raws(recs@)) + 16 <= usize::MAX,
        r is None ==> required_size(*l, raws(recs@)) > usize::MAX - 16,
{
    let ghost all = raws(recs@);
    let mut total: usize = HEADER_SIZE;
    let mut i: usize = 0;
    proof {
        assert(all.skip(0) =~= all);
    }
    while i < recs.len()
        invariant
            l.wf(),
            i <= recs@.len(),
            all == raws(recs@),
            calc_size(*l, total as int, all.skip(i as int)) == required_size(*l, all),
            total <= usize::MAX - 16,
        decreases recs@.len() - i,
    {
        let rec = &recs[i];
        proof {
            assert(all.skip(i as int)[0] == rec.raw());
            assert(all.skip(i as int).drop_first() =~= all.skip(i + 1));
            lemma_align_up_bounds(total as int, l.align as int);
        }
        let aligned = align_up(total, l.align);
        let hl = rec.head.len();
        let pl = rec.payload.len();
        if aligned > usize::MAX - 16 || hl > usize::MAX - 16 - aligned || pl > usize::MAX - 16 - aligned - hl {
            proof {
                lemma_calc_size_ge(*l, (aligned + hl + pl) as int, all.skip(i + 1));
            }
            return None;
        }
        total = aligned + hl + pl;
        i = i + 1;
    }
    proof {
        assert(all.skip(i as int).len() == 0);
    }
    Some(total)
}

proof fn lemma_calc_size_ge(l: RecordLayout, t: int, recs: Seq<RawRecord>)
    requires
        l.wf(),
        t >= 0,
    ensures
        calc_size(l, t, recs) >= t,
    decreases recs.len(),
{
    if recs.len() > 0 {
        lemma_align_up_bounds(t, l.align as int);
        lemma_calc_size_ge(l, spec_align_up(t, l.align as int) + recs[0].0.len() + recs[0].1.len(), recs.drop_first());
    }
}

/// Builds a block into `buffer`: `Ok(size)` once written, or
/// `Err(required_size)` when the buffer is too small, leaving it untouched.
pub fn build_into(l: &RecordLayout, version: u32, recs: &Vec<ExecRecord>, buffer: &mut [u8]) -> (r: Result<usize, usize>)
    requires
        l.wf(),
        old(buffer)@.len() + 8 <= usize::MAX,
    ensures
        final(buffer)@.len() == old(buffer)@.len(),
        required_size(*l, raws(recs@)) + 16 > usize::MAX ==> {
            &&& r is Err
            &&& final(buffer)@ == old(buffer)@
        },
        required_size(*l, raws(recs@)) + 16 <= usize::MAX && old(buffer)@.len() < required_size(*l, raws(recs@)) ==> {
            &&& r == Err::<usize, usize>(required_size(*l, raws(recs@)) as usize)
            &&& final(buffer)@ == old(buffer)@
        },
        required_size(*l, raws(recs@)) + 16 <= usize::MAX && old(buffer)@.len() >= required_size(*l, raws(recs@)) ==> {
            &&& r == Ok::<usize, usize>(required_size(*l, raws(recs@)) as usize)
            &&& final(buffer)@ == block_image(*l, old(buffer)@, version, raws(recs@))
        },
{
    let required = match exec_required_size(l, recs) {
        Some(n) => n,
        None => {
            return Err(0);
        },
    };
    if buffer.len() < required {
        return Err(required);
    }
    proof {
        lemma_required_size(*l, raws(recs@));
        lemma_fits_larger(*l, required as int, buffer@.len() as int, l.first_offset(), raws(recs@));
    }
    write_block(l, version, recs, buffer);
    Ok(required)
}

/// A block written over `buf` reads back: its header holds `version` and the
/// count, and its records are `recs`.
pub proof fn lemma_block_roundtrip(l: RecordLayout, buf: Seq<u8>, version: u32, recs: Seq<RawRecord>)
    requires
        l.wf(),
        l.records_ok(recs),
        recs.len() <= u32::MAX,
        buf.len() >= HEADER_SIZE,
        fits(l, buf.len() as int, l.first_offset(), recs),
    ensures
        block_image(l, buf, version, recs).len() == buf.len(),
        read_u32(block_image(l, buf, version, recs), 0) == version,
        read_u32(block_image(l, buf, version, recs), 4) == recs.len(),
        l.parse_records(block_image(l, buf, version, recs), HEADER_SIZE as int, recs.len()) == Some(recs),
{
    lemma_first_offset(l);
    let hdr = header_bytes(version, recs.len() as u32);
    lemma_le_bytes_len(version as nat, 4);
    lemma_le_bytes_len(recs.len() as u32 as nat, 4);
    let with_header = splice(buf, 0, hdr);
    lemma_write_records_frame(l, with_header, HEADER_SIZE as int, recs);
    let img = block_image(l, buf, version, recs);
    assert forall|i: int| 0 <= i < 8 implies img[i] == hdr[i] by {
        assert(img[i] == with_header[i]);
    }
    let e = Seq::<u8>::empty();
    lemma_u32_roundtrip(version, e, e);
    assert(img.subrange(0, 4) =~= (e + u32_bytes(version) + e).subrange(0, 4));
    lemma_le_value_ext(img, 0, e + u32_bytes(version) + e, 0, 4);
    lemma_u32_roundtrip(recs.len() as u32, e, e);
    assert(img.subrange(4, 8) =~= (e + u32_bytes(recs.len() as u32) + e).subrange(0, 4));
    lemma_le_value_ext(img, 4, e + u32_bytes(recs.len() as u32) + e, 0, 4);
    lemma_parse_written(l, with_header, HEADER_SIZE as int, recs);
}

/// A block written over `buf` reads the same from its first
/// `required_size` bytes: the header values and the records.
pub proof fn lemma_block_prefix(l: RecordLayout, buf: Seq<u8>, version: u32, recs: Seq<RawRecord>)
    requires
        l.wf(),
        l.records_ok(recs),
        recs.len() <= u32::MAX,
        buf.len() >= required_size(l, recs),
    ensures
        ({
            let img = block_image(l, buf, version, recs);
            let u = img.take(required_size(l, recs));
            &&& img.len() == buf.len()
            &&& read_u32(img, 4) == recs.len()
            &&& l.parse_records(img, HEADER_SIZE as int, recs.len()) == Some(recs)
            &&& u.len() == required_size(l, recs)
            &&& u.len() >= HEADER_SIZE
            &&& read_u32(u, 0) == version
            &&& read_u32(u, 4) == recs.len()
            &&& l.parse_records(u, HEADER_SIZE as int, recs.len()) == Some(recs)
        }),
{
    let required = required_size(l, recs);
    lemma_required_size(l, recs);
    lemma_fits_larger(l, required, buf.len() as int, l.first_offset(), recs);
    lemma_block_roundtrip(l, buf, version, recs);
    let img = block_image(l, buf, version, recs);
    let u = img.take(required);
    assert(u.subrange(0, 4) =~= img.subrange(0, 4));
    lemma_le_value_ext(u, 0, img, 0, 4);
    assert(u.subrange(4, 8) =~= img.subrange(4, 8));
    lemma_le_value_ext(u, 4, img, 4, 4);
    lemma_first_offset(l);
    if recs.len() > 0 {
        lemma_calc_size(l, HEADER_SIZE as int, recs);
    }
    lemma_parse_prefix(l, img, HEADER_SIZE as int, recs.len(), required);
}

/// Reads the header of a block.
pub fn read_header(buffer: &[u8]) -> (r: (u32, u32))
    requires
        buffer@.len() >= HEADER_SIZE,
    ensures
        r == (read_u32(buffer@, 0), read_u32(buffer@, 4)),
{
    (get_u32(buffer, 0), get_u32(buffer, 4))
}

/// Shape of the records made of two strings: `len_a: u32`, `len_b: u32`,
/// then the bytes of both strings, 4-byte aligned.
pub open spec fn pair_layout() -> RecordLayout {
    RecordLayout { head_size: 8, align: 4, len_at: 0, second_len_at: Some(4) }
}

pub fn exec_pair_layout() -> (r: RecordLayout)
    ensures
        r == pair_layout(),
{
    RecordLayout { head_size: 8, align: 4, len_at: 0, second_len_at: Some(4) }
}

/// The record of the two strings `a` and `b`.
pub open spec fn pair_record(a: Seq<char>, b: Seq<char>) -> RawRecord {
    (
        u32_bytes(encode_utf8(a).len() as u32) + u32_bytes(encode_utf8(b).len() as u32),
        encode_utf8(a) + encode_utf8(b),
    )
}

/// Both strings of a two-string record are valid UTF-8.
pub open spec fn pair_valid(r: RawRecord) -> bool {
    let la = read_u32(r.0, 0) as int;
    valid_utf8(r.1.take(la)) && valid_utf8(r.1.skip(la))
}

/// The two strings of a two-string record.
pub open spec fn pair_of(r: RawRecord) -> (Seq<char>, Seq<char>) {
    let la = read_u32(r.0, 0) as int;
    (decode_utf8(r.1.take(la)), decode_utf8(r.1.skip(la)))
}

/// The record of two strings short enough for the format reads back as them.
pub proof fn lemma_pair_record(a: Seq<char>, b: Seq<char>)
    requires
        encode_utf8(a).len() <= u32::MAX,
        encode_utf8(b).len() <= u32::MAX,
    ensures
        pair_layout().record_ok(pair_record(a, b)),
        pair_valid(pair_record(a, b)),
        pair_of(pair_record(a, b)) == (a, b),
{
    let r = pair_record(a, b);
    let ea = encode_utf8(a);
    let eb = encode_utf8(b);
    let e = Seq::<u8>::empty();
    lemma_le_bytes_len(ea.len() as u32 as nat, 4);
    lemma_le_bytes_len(eb.len() as u32 as nat, 4);
    lemma_u32_roundtrip(ea.len() as u32, e, u32_bytes(eb.len() as u32));
    lemma_u32_roundtrip(eb.len() as u32, u32_bytes(ea.len() as u32), e);
    assert(e + u32_bytes(ea.len() as u32) + u32_bytes(eb.len() as u32) =~= r.0);
    assert(u32_bytes(ea.len() as u32) + u32_bytes(eb.len() as u32) + e =~= r.0);
    assert(r.1.take(ea.len() as int) =~= ea);
    assert(r.1.skip(ea.len() as int) =~= eb);
    lemma_utf8_roundtrip(a);
    lemma_utf8_roundtrip(b);
}

/// Appends the four little-endian bytes of `v`.
pub fn push_u32(out: &mut Vec<u8>, v: u32)
    ensures
        final(out)@ == old(out)@ + u32_bytes(v),
{
    let b = u32_to_le(v);
    out.extend_from_slice(&b);
}

/// Appends the eight little-endian bytes of `v`.
pub fn push_u64(out: &mut Vec<u8>, v: u64)
    ensures
        final(out)@ == old(out)@ + crate::layout::u64_bytes(v),
{
    let b = crate::layout::u64_to_le(v);
    out.extend_from_slice(&b);
}

/// The record of the two strings `a` and `b`, as bytes.
pub fn exec_pair_record(a: &str, b: &str) -> (r: ExecRecord)
    ensures
        r.raw() == pair_record(a@, b@),
{
    let ab = a.as_bytes();
    let bb = b.as_bytes();
    let mut head: Vec<u8> = Vec::new();
    push_u32(&mut head, #[verifier::truncate] (ab.len() as u32));
    push_u32(&mut head, #[verifier::truncate] (bb.len() as u32));
    let mut payload: Vec<u8> = Vec::new();
    payload.extend_from_slice(ab);
    payload.extend_from_slice(bb);
    proof {
        assert(head@ =~= pair_record(a@, b@).0);
        assert(payload@ =~= pair_record(a@, b@).1);
    }
    ExecRecord { head, payload }
}

/// The two strings of a valid two-string record.
pub fn exec_pair_of(rec: &ExecRecord) -> (r: (String, String))
    requires
        pair_layout().record_ok(rec.raw()),
        pair_valid(rec.raw()),
    ensures
        (r.0@, r.1@) == pair_of(rec.raw()),
{
    let la = get_u32(rec.head.as_slice(), 0) as usize;
    let p = rec.payload.as_slice();
    let lb = get_u32(rec.head.as_slice(), 4);
    proof {
        assert(p@.subrange(0, la as int) =~= p@.take(la as int));
        assert(p@.subrange(la as int, p@.len() as int) =~= p@.skip(la as int));
    }
    let a = str_from_utf8(&p[0..la]).unwrap();
    let b = str_from_utf8(&p[la..p.len()]).unwrap();
    proof {
        lemma_str_of_bytes(a, p@.take(la as int));
        lemma_str_of_bytes(b, p@.skip(la as int));
    }
    (a.to_owned(), b.to_owned())
}

/// The payload of a record, as a string.
pub fn exec_payload_string(rec: &ExecRecord) -> (r: String)
    requires
        valid_utf8(rec.payload@),
    ensures
        r@ == decode_utf8(rec.payload@),
{
    let s = str_from_utf8(rec.payload.as_slice()).unwrap();
    proof {
        lemma_str_of_bytes(s, rec.payload@);
    }
    s.to_owned()
}

/// The bytes of a string, as a payload.
pub fn exec_string_payload(s: &str) -> (r: Vec<u8>)
    ensures
        r@ == encode_utf8(s@),
{
    let mut v: Vec<u8> = Vec::new();
    v.extend_from_slice(s.as_bytes());
    v
}

} // verus!
