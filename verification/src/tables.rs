//! The two lookup tables that the tokenizer consults: tag names to tag codes,
//! and character-reference names to code points. Both are immutable perfect
//! hash maps from byte strings to `u32`, built ahead of time by their owner.

use vstd::prelude::*;

verus! {

#[verifier::external_type_specification]
#[verifier::external_body]
#[verifier::reject_recursive_types(K)]
#[verifier::reject_recursive_types(V)]
pub struct ExPhfMap<K: 'static, V: 'static>(phf::Map<K, V>);

/// The pairs that `phf::Map::get` finds in a table: a key is in the domain
/// exactly when a lookup of it succeeds, and maps to the value found.
pub uninterp spec fn table_entries(table: phf::Map<&'static [u8], u32>) -> Map<Seq<u8>, u32>;

/// The number of entries that a table stores: what `phf::Map::len` returns.
pub uninterp spec fn table_len(table: phf::Map<&'static [u8], u32>) -> nat;

/// The number of displacement pairs that a table holds: the length of its
/// `disps` slice, by which a lookup reduces the first part of the hash.
pub uninterp spec fn table_buckets(table: phf::Map<&'static [u8], u32>) -> nat;

/// What a lookup table holds, as far as lookups can tell.
pub struct Table {
    /// The number of stored entries.
    pub len: nat,
    /// The number of displacement pairs.
    pub buckets: nat,
    /// The pairs that a lookup finds.
    pub entries: Map<Seq<u8>, u32>,
}

impl Table {
    /// Whether the table can be asked: it stores an entry, and neither its
    /// entries nor its displacement pairs are more than a 32-bit index can
    /// tell apart. A lookup takes remainders by both numbers as 32-bit
    /// integers.
    pub open spec fn searchable(self) -> bool {
        0 < self.len <= u32::MAX && self.buckets <= u32::MAX
    }

    /// The value stored under `key`, if any. A table that cannot be asked
    /// holds no key.
    pub open spec fn find(self, key: Seq<u8>) -> Option<u32> {
        if self.searchable() && self.entries.contains_key(key) {
            Some(self.entries[key])
        } else {
            None
        }
    }
}

/// The contents of a table.
pub open spec fn table_view(table: phf::Map<&'static [u8], u32>) -> Table {
    Table {
        len: table_len(table),
        buckets: table_buckets(table),
        entries: table_entries(table),
    }
}

/// Calls `phf::Map::len`, which returns the number of entries that the table
/// stores. Nothing is proved of it; the contract names that number.
#[verifier::external_body]
fn table_size(table: &phf::Map<&'static [u8], u32>) -> (r: usize)
    ensures
        r == table_len(*table),
{
    table.len()
}

/// Reads the length of the table's `disps` slice, the number of its
/// displacement pairs. Nothing is proved of it; the contract names that
/// number.
#[verifier::external_body]
fn table_bucket_count(table: &phf::Map<&'static [u8], u32>) -> (r: usize)
    ensures
        r == table_buckets(*table),
{
    table.disps.len()
}

/// Calls `phf::Map::get` and copies the value out. Unless the table has no
/// displacement pair, in which case nothing is found, the call hashes the
/// key, reduces it modulo the number of displacement pairs and then modulo
/// the number of entries, each as a 32-bit integer, and compares the key of
/// the one candidate entry with `key`. Nothing is proved of it; the contract
/// states that the result is the value found, if any. Tables on which one of
/// the two moduli could be zero are left out: on those the caller does not
/// ask.
#[verifier::external_body]
fn table_get(table: &phf::Map<&'static [u8], u32>, key: &[u8]) -> (r: Option<u32>)
    requires
        table_view(*table).searchable(),
    ensures
        r == (if table_entries(*table).contains_key(key@) {
            Some(table_entries(*table)[key@])
        } else {
            None::<u32>
        }),
{
    table.get(key).copied()
}

/// Looks `key` up in `table`.
pub fn lookup(table: &phf::Map<&'static [u8], u32>, key: &[u8]) -> (r: Option<u32>)
    ensures
        r == table_view(*table).find(key@),
{
    let len = table_size(table);
    let buckets = table_bucket_count(table);
    if 0 < len && len as u64 <= u32::MAX as u64 && buckets as u64 <= u32::MAX as u64 {
        table_get(table, key)
    } else {
        None
    }
}

} // verus!
