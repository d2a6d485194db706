//! Key/value lists as values: looking a key up, and setting a key.
use vstd::prelude::*;
use vstd::utf8::encode_utf8;
use vstd::string::StringSliceAdditionalSpecFns;
use crate::layout::{PAGE_SIZE, spec_align_up};
use crate::record_block::{RawRecord, pair_layout, pair_record, block_image, HEADER_SIZE};
use super::kvblock::{VERSION, kv_records, kv_object_size, kv_image, kv_entries_fit, entries_view};

verus! {

/// An entry: a key and its value.
pub type Entry = (Seq<char>, Seq<char>);

/// The value of the first entry with key `key`.
pub open spec fn lookup(entries: Seq<Entry>, key: Seq<char>) -> Option<Seq<char>>
    decreases entries.len(),
{
    if entries.len() == 0 {
        None
    } else if entries[0].0 == key {
        Some(entries[0].1)
    } else {
        lookup(entries.drop_first(), key)
    }
}

/// Some entry has key `key`.
pub open spec fn has_key(entries: Seq<Entry>, key: Seq<char>) -> bool {
    exists|i: int| 0 <= i < entries.len() && #[trigger] entries[i].0 == key
}

/// Every entry with key `key` given the value `value`.
pub open spec fn replace_values(entries: Seq<Entry>, key: Seq<char>, value: Seq<char>) -> Seq<Entry> {
    entries.map_values(|e: Entry| if e.0 == key { (key, value) } else { e })
}

/// The entries after setting `key` to `value`: every entry with that key
/// takes the new value, and a new entry is appended when there was none.
pub open spec fn with_entry(entries: Seq<Entry>, key: Seq<char>, value: Seq<char>) -> Seq<Entry> {
    if has_key(entries, key) {
        replace_values(entries, key, value)
    } else {
        entries.push((key, value))
    }
}

/// Looking a key up finds an entry exactly when some entry has the key.
pub proof fn lemma_lookup_some(entries: Seq<Entry>, key: Seq<char>)
    ensures
        lookup(entries, key) is Some <==> has_key(entries, key),
    decreases entries.len(),
{
    if entries.len() > 0 {
        let rest = entries.drop_first();
        lemma_lookup_some(rest, key);
        if has_key(rest, key) {
            let i = choose|i: int| 0 <= i < rest.len() && #[trigger] rest[i].0 == key;
            assert(entries[i + 1].0 == key);
        }
        if has_key(entries, key) && entries[0].0 != key {
            let i = choose|i: int| 0 <= i < entries.len() && #[trigger] entries[i].0 == key;
            assert(rest[i - 1].0 == key);
        }
    }
}

/// Looking up in a list with one more entry at the end.
pub proof fn lemma_lookup_push(entries: Seq<Entry>, e: Entry, key: Seq<char>)
    ensures
        lookup(entries.push(e), key) == if lookup(entries, key) is Some {
            lookup(entries, key)
        } else if e.0 == key {
            Some(e.1)
        } else {
            None::<Seq<char>>
        },
    decreases entries.len(),
{
    if entries.len() > 0 {
        assert(entries.push(e)[0] == entries[0]);
        assert(entries.push(e).drop_first() =~= entries.drop_first().push(e));
        lemma_lookup_push(entries.drop_first(), e, key);
    } else {
        assert(entries.push(e)[0] == e);
        assert(entries.push(e).drop_first() =~= Seq::<Entry>::empty());
        assert(lookup(Seq::<Entry>::empty(), key) is None);
    }
}

/// Looking up after replacing the values of `key`.
pub proof fn lemma_lookup_replace(entries: Seq<Entry>, key: Seq<char>, value: Seq<char>, k: Seq<char>)
    ensures
        lookup(replace_values(entries, key, value), k) == if k == key {
            if has_key(entries, key) { Some(value) } else { None::<Seq<char>> }
        } else {
            lookup(entries, k)
        },
    decreases entries.len(),
{
    lemma_lookup_some(entries, key);
    if entries.len() > 0 {
        let rest = entries.drop_first();
        assert(replace_values(entries, key, value).drop_first() =~= replace_values(rest, key, value));
        lemma_lookup_replace(rest, key, value, k);
        lemma_lookup_some(rest, key);
    }
}

/// After setting a key, looking it up gives the value it was set to.
pub proof fn lemma_with_entry_same(entries: Seq<Entry>, key: Seq<char>, value: Seq<char>)
    ensures
        lookup(with_entry(entries, key, value), key) == Some(value),
{
    lemma_lookup_some(entries, key);
    if has_key(entries, key) {
        lemma_lookup_replace(entries, key, value, key);
    } else {
        lemma_lookup_push(entries, (key, value), key);
    }
}

/// Setting a key leaves every other key as it was.
pub proof fn lemma_with_entry_other(entries: Seq<Entry>, key: Seq<char>, value: Seq<char>, other: Seq<char>)
    requires
        other != key,
    ensures
        lookup(with_entry(entries, key, value), other) == lookup(entries, other),
{
    if has_key(entries, key) {
        lemma_lookup_replace(entries, key, value, other);
    } else {
        lemma_lookup_push(entries, (key, value), other);
    }
}

/// Setting a key that is present keeps the number of entries; otherwise it adds one.
pub proof fn lemma_with_entry_len(entries: Seq<Entry>, key: Seq<char>, value: Seq<char>)
    ensures
        with_entry(entries, key, value).len() == entries.len() + if has_key(entries, key) { 0int } else { 1int },
{
}

/// The records of a list of entries given as values.
pub open spec fn records_of_entries(entries: Seq<Entry>) -> Seq<RawRecord> {
    entries.map_values(|e: Entry| pair_record(e.0, e.1))
}

/// Size of the memory object that holds the block of `entries`.
pub open spec fn object_size_of_entries(entries: Seq<Entry>) -> int {
    spec_align_up(pair_layout().records_next(HEADER_SIZE as int, records_of_entries(entries)), PAGE_SIZE as int)
}

/// The bytes of the memory object built from `entries`.
pub open spec fn image_of_entries(entries: Seq<Entry>) -> Seq<u8> {
    block_image(
        pair_layout(),
        Seq::new(object_size_of_entries(entries) as nat, |i: int| 0u8),
        VERSION,
        records_of_entries(entries),
    )
}

/// The entries are small enough for the format (see `kv_entries_fit`).
pub open spec fn entries_fit(entries: Seq<Entry>) -> bool {
    &&& entries.len() <= u32::MAX
    &&& forall|i: int| 0 <= i < entries.len() ==> {
        &&& encode_utf8((#[trigger] entries[i]).0).len() <= u32::MAX
        &&& encode_utf8(entries[i].1).len() <= u32::MAX
    }
    &&& object_size_of_entries(entries) + 16 <= usize::MAX
}

/// The block built from a list of string pairs depends only on their characters.
pub proof fn lemma_image_of_view(entries: Seq<(&str, &str)>)
    ensures
        kv_records(entries) == records_of_entries(entries_view(entries)),
        kv_object_size(entries) == object_size_of_entries(entries_view(entries)),
        kv_image(entries) == image_of_entries(entries_view(entries)),
        kv_entries_fit(entries) == entries_fit(entries_view(entries)),
{
    assert(kv_records(entries) =~= records_of_entries(entries_view(entries)));
    let v = entries_view(entries);
    assert(kv_entries_fit(entries) == entries_fit(v)) by {
        if kv_entries_fit(entries) {
            assert forall|i: int| 0 <= i < v.len() implies {
                &&& encode_utf8((#[trigger] v[i]).0).len() <= u32::MAX
                &&& encode_utf8(v[i].1).len() <= u32::MAX
            } by {
                assert(entries[i].0.spec_bytes() == encode_utf8(v[i].0));
            }
        }
        if entries_fit(v) {
            assert forall|i: int| 0 <= i < entries.len() implies {
                &&& (#[trigger] entries[i]).0.spec_bytes().len() <= u32::MAX
                &&& entries[i].1.spec_bytes().len() <= u32::MAX
            } by {
                assert(entries[i].0.spec_bytes() == encode_utf8(v[i].0));
            }
        }
    }
}

} // verus!
