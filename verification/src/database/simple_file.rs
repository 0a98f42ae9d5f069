//! A store that is kept in a file: one record per line, appended as files are
//! uploaded, and an index over the records that is rebuilt when the file is
//! loaded.

use std::collections::BTreeMap;
use vstd::bytes::{
    lemma_auto_spec_u64_to_from_le_bytes, spec_u64_from_le_bytes, spec_u64_to_le_bytes,
    u64_from_le_bytes,
};
use vstd::prelude::*;
use vstd::slice::slice_subrange;
use vstd::string::*;
use super::{lookup, Database};
use crate::error::Error;
use crate::text::{decimal, decimal_text, reversed};

verus! {

broadcast use {vstd::laws_cmp::group_laws_cmp, vstd::std_specs::btree::group_btree_axioms};

/// One record of the store: the hash of a file and the url it was uploaded to.
#[derive(Debug)]
pub struct HashUrl {
    pub hash: crate::database::Hash,
    pub url: String,
}

/// A string written as a JSON string: in double quotes, with the characters
/// escaped that JSON asks for.
pub uninterp spec fn json_text(s: Seq<char>) -> Option<Seq<char>>;

/// Trusted: calls `serde_json::to_string` on the string, which writes it as a
/// JSON string. What it writes depends on the string alone.
#[verifier::external_body]
fn json_quoted(s: &str) -> (quoted: Option<String>)
    ensures
        match quoted {
            Some(q) => json_text(s@) == Some(q@),
            None => json_text(s@) is None,
        },
{
    match serde_json::to_string(s) {
        Ok(quoted) => Some(quoted),
        Err(_) => None,
    }
}

/// Bytes as decimal numbers with commas between them.
pub open spec fn joined(bytes: Seq<u8>) -> Seq<char>
    decreases bytes.len(),
{
    if bytes.len() == 0 {
        Seq::empty()
    } else if bytes.len() == 1 {
        decimal_text(bytes[0] as nat)
    } else {
        joined(bytes.drop_last()) + ","@ + decimal_text(bytes.last() as nat)
    }
}

/// The line that stands for a record in the log file: a JSON object with the
/// hash as an array of 64 numbers and the url as a string, without spaces.
pub open spec fn line_of(hash: Seq<u8>, quoted_url: Seq<char>) -> Seq<char> {
    "{\"hash\":["@ + joined(hash) + "],\"url\":"@ + quoted_url + "}"@
}

impl HashUrl {
    /// The line that is appended to the log file for this record. It fails
    /// only if the url cannot be written as a JSON string.
    pub fn line(&self) -> (res: Result<String, Error>)
        ensures
            match json_text(self.url@) {
                Some(quoted) => res matches Ok(line) && line@ == line_of(self.hash@, quoted),
                None => res matches Err(Error::Database(_)),
            },
    {
        let quoted = match json_quoted(self.url.as_str()) {
            Some(quoted) => quoted,
            None => {
                return Err(Error::Database(String::from_str("the url cannot be written")));
            },
        };
        let mut numbers = String::new();
        let mut i: usize = 0;
        while i < 64
            invariant
                i <= 64,
                numbers@ == joined(self.hash@.subrange(0, i as int)),
            decreases 64 - i,
        {
            let ghost before = self.hash@.subrange(0, i as int);
            let ghost now = self.hash@.subrange(0, i + 1);
            proof {
                assert(now.drop_last() =~= before);
                assert(now.last() == self.hash@[i as int]);
            }
            let number = decimal(self.hash[i] as u64);
            if i > 0 {
                numbers = numbers.concat(",");
            } else {
                assert(numbers@ + number@ =~= number@);
            }
            numbers = numbers.concat(number.as_str());
            i += 1;
        }
        assert(self.hash@.subrange(0, 64) =~= self.hash@);
        Ok(
            String::from_str("{\"hash\":[").concat(numbers.as_str()).concat("],\"url\":").concat(
                quoted.as_str(),
            ).concat("}"),
        )
    }
}

/// The index that a log of records stands for: each hash maps to the url of
/// the last record that holds it.
pub open spec fn index_of(log: Seq<HashUrl>) -> Map<Seq<u8>, Seq<char>>
    decreases log.len(),
{
    if log.len() == 0 {
        Map::empty()
    } else {
        index_of(log.drop_last()).insert(log.last().hash@, log.last().url@)
    }
}

/// The records among the lines of a log file, in their order. A line that
/// could not be read is `None`.
pub open spec fn valid_records(lines: Seq<Option<HashUrl>>) -> Seq<HashUrl>
    decreases lines.len(),
{
    if lines.len() == 0 {
        Seq::empty()
    } else {
        match lines.last() {
            Some(record) => valid_records(lines.drop_last()).push(record),
            None => valid_records(lines.drop_last()),
        }
    }
}

/// The numbers of the lines that could not be read, counted from one, in
/// their order.
pub open spec fn malformed_lines(lines: Seq<Option<HashUrl>>) -> Seq<usize>
    decreases lines.len(),
{
    if lines.len() == 0 {
        Seq::empty()
    } else {
        match lines.last() {
            Some(_) => malformed_lines(lines.drop_last()),
            None => malformed_lines(lines.drop_last()).push(lines.len() as usize),
        }
    }
}

/// A hash that no record of the log holds is not in the index.
pub proof fn lemma_index_miss(log: Seq<HashUrl>, hash: Seq<u8>)
    requires
        forall|k: int| 0 <= k < log.len() ==> log[k].hash@ != hash,
    ensures
        !index_of(log).contains_key(hash),
    decreases log.len(),
{
    if log.len() > 0 {
        lemma_index_miss(log.drop_last(), hash);
    }
}

/// The index maps a hash to the url of the last record that holds it.
pub proof fn lemma_index_last_write_wins(log: Seq<HashUrl>, hash: Seq<u8>, j: int)
    requires
        0 <= j < log.len(),
        log[j].hash@ == hash,
        forall|k: int| j < k < log.len() ==> log[k].hash@ != hash,
    ensures
        index_of(log).contains_key(hash),
        index_of(log)[hash] == log[j].url@,
    decreases log.len(),
{
    if j < log.len() - 1 {
        lemma_index_last_write_wins(log.drop_last(), hash, j);
    }
}

/// Every line of a log is either a record or a line that could not be read.
pub proof fn lemma_lines_accounted(lines: Seq<Option<HashUrl>>)
    ensures
        valid_records(lines).len() + malformed_lines(lines).len() == lines.len(),
    decreases lines.len(),
{
    if lines.len() > 0 {
        lemma_lines_accounted(lines.drop_last());
    }
}

/// The records of two logs, one after the other, are the records of the first
/// followed by those of the second.
pub proof fn lemma_valid_records_concat(a: Seq<Option<HashUrl>>, b: Seq<Option<HashUrl>>)
    ensures
        valid_records(a + b) == valid_records(a) + valid_records(b),
    decreases b.len(),
{
    if b.len() == 0 {
        assert(a + b =~= a);
        assert(valid_records(a) + valid_records(b) =~= valid_records(a));
    } else {
        assert((a + b).drop_last() =~= a + b.drop_last());
        assert((a + b).last() == b.last());
        lemma_valid_records_concat(a, b.drop_last());
        match b.last() {
            Some(record) => {
                assert(valid_records(a) + valid_records(b.drop_last()).push(record) =~= (
                valid_records(a) + valid_records(b.drop_last())).push(record));
            },
            None => {},
        }
    }
}

/// A log whose every line is a record holds exactly those records.
pub proof fn lemma_all_valid(records: Seq<HashUrl>)
    ensures
        valid_records(records.map_values(|r: HashUrl| Some(r))) == records,
    decreases records.len(),
{
    let lines = records.map_values(|r: HashUrl| Some(r));
    if records.len() == 0 {
        assert(valid_records(lines) =~= records);
    } else {
        assert(lines.drop_last() =~= records.drop_last().map_values(|r: HashUrl| Some(r)));
        lemma_all_valid(records.drop_last());
        assert(records.drop_last().push(records.last()) =~= records);
    }
}

/// A line that cannot be read does not cost a record: a log of `before`, one
/// malformed line and `after` loads with exactly the records of `before` and
/// `after`, and reports that one line.
pub proof fn lemma_malformed_line_skipped(before: Seq<HashUrl>, after: Seq<HashUrl>)
    ensures
        ({
            let wrap = |r: HashUrl| Some(r);
            let lines = before.map_values(wrap) + seq![None::<HashUrl>] + after.map_values(wrap);
            &&& valid_records(lines) == before + after
            &&& valid_records(lines).len() == before.len() + after.len()
            &&& malformed_lines(lines).len() == 1
        }),
{
    let wrap = |r: HashUrl| Some(r);
    let bad = seq![None::<HashUrl>];
    let lines = before.map_values(wrap) + bad + after.map_values(wrap);
    lemma_valid_records_concat(before.map_values(wrap) + bad, after.map_values(wrap));
    lemma_valid_records_concat(before.map_values(wrap), bad);
    lemma_all_valid(before);
    lemma_all_valid(after);
    assert(bad.drop_last() =~= Seq::<Option<HashUrl>>::empty());
    assert(bad.last() is None);
    assert(valid_records(bad.drop_last()) =~= Seq::<HashUrl>::empty());
    assert(valid_records(bad) =~= Seq::<HashUrl>::empty());
    assert(valid_records(lines) =~= before + after);
    lemma_lines_accounted(lines);
}

/// The key under which the index holds a hash: its 64 bytes as eight numbers
/// of eight bytes each.
pub open spec fn key_of(hash: Seq<u8>) -> (u64, u64, u64, u64, u64, u64, u64, u64) {
    (
        spec_u64_from_le_bytes(hash.subrange(0, 8)),
        spec_u64_from_le_bytes(hash.subrange(8, 16)),
        spec_u64_from_le_bytes(hash.subrange(16, 24)),
        spec_u64_from_le_bytes(hash.subrange(24, 32)),
        spec_u64_from_le_bytes(hash.subrange(32, 40)),
        spec_u64_from_le_bytes(hash.subrange(40, 48)),
        spec_u64_from_le_bytes(hash.subrange(48, 56)),
        spec_u64_from_le_bytes(hash.subrange(56, 64)),
    )
}

/// Two runs of eight bytes that stand for the same number are the same.
proof fn lemma_number_tells_bytes(a: Seq<u8>, b: Seq<u8>)
    requires
        a.len() == 8,
        b.len() == 8,
        spec_u64_from_le_bytes(a) == spec_u64_from_le_bytes(b),
    ensures
        a == b,
{
    lemma_auto_spec_u64_to_from_le_bytes();
    assert(spec_u64_to_le_bytes(spec_u64_from_le_bytes(a)) == a);
    assert(spec_u64_to_le_bytes(spec_u64_from_le_bytes(b)) == b);
}

/// Different hashes have different keys.
pub proof fn lemma_key_tells_hash(a: Seq<u8>, b: Seq<u8>)
    requires
        a.len() == 64,
        b.len() == 64,
        key_of(a) == key_of(b),
    ensures
        a == b,
{
    lemma_number_tells_bytes(a.subrange(0, 8), b.subrange(0, 8));
    lemma_number_tells_bytes(a.subrange(8, 16), b.subrange(8, 16));
    lemma_number_tells_bytes(a.subrange(16, 24), b.subrange(16, 24));
    lemma_number_tells_bytes(a.subrange(24, 32), b.subrange(24, 32));
    lemma_number_tells_bytes(a.subrange(32, 40), b.subrange(32, 40));
    lemma_number_tells_bytes(a.subrange(40, 48), b.subrange(40, 48));
    lemma_number_tells_bytes(a.subrange(48, 56), b.subrange(48, 56));
    lemma_number_tells_bytes(a.subrange(56, 64), b.subrange(56, 64));
    assert forall|i: int| 0 <= i < 64 implies a[i] == b[i] by {
        let part = i / 8 * 8;
        assert(a.subrange(part, part + 8)[i - part] == a[i]);
        assert(b.subrange(part, part + 8)[i - part] == b[i]);
    }
    assert(a =~= b);
}

/// The key of a hash.
fn key(hash: &crate::database::Hash) -> (k: (u64, u64, u64, u64, u64, u64, u64, u64))
    ensures
        k == key_of(hash@),
{
    let bytes = hash.as_slice();
    (
        u64_from_le_bytes(slice_subrange(bytes, 0, 8)),
        u64_from_le_bytes(slice_subrange(bytes, 8, 16)),
        u64_from_le_bytes(slice_subrange(bytes, 16, 24)),
        u64_from_le_bytes(slice_subrange(bytes, 24, 32)),
        u64_from_le_bytes(slice_subrange(bytes, 32, 40)),
        u64_from_le_bytes(slice_subrange(bytes, 40, 48)),
        u64_from_le_bytes(slice_subrange(bytes, 48, 56)),
        u64_from_le_bytes(slice_subrange(bytes, 56, 64)),
    )
}

/// What a tree of keys and urls holds, as an index from hashes to urls.
pub open spec fn index_in(
    tree: Map<(u64, u64, u64, u64, u64, u64, u64, u64), String>,
) -> Map<Seq<u8>, Seq<char>> {
    Map::new(
        |hash: Seq<u8>| hash.len() == 64 && tree.contains_key(key_of(hash)),
        |hash: Seq<u8>| tree[key_of(hash)]@,
    )
}

/// A url that enters the tree under the key of a hash enters the index under
/// the hash, and nothing else in the index changes.
pub proof fn lemma_index_in_insert(
    tree: Map<(u64, u64, u64, u64, u64, u64, u64, u64), String>,
    hash: Seq<u8>,
    url: String,
)
    requires
        hash.len() == 64,
    ensures
        index_in(tree.insert(key_of(hash), url)) == index_in(tree).insert(hash, url@),
{
    let after = index_in(tree.insert(key_of(hash), url));
    let wanted = index_in(tree).insert(hash, url@);
    assert forall|h: Seq<u8>| #[trigger]
        after.dom().contains(h) == wanted.dom().contains(h) by {
        if h.len() == 64 && key_of(h) == key_of(hash) {
            lemma_key_tells_hash(h, hash);
        }
    }
    assert(after.dom() =~= wanted.dom());
    assert forall|h: Seq<u8>| #[trigger] after.dom().contains(h) implies after[h] == wanted[h] by {
        if key_of(h) == key_of(hash) {
            lemma_key_tells_hash(h, hash);
        }
    }
    assert(after =~= wanted);
}

/// The store of uploaded files: the index over the records of its log, which
/// holds for each hash the url of the last record with that hash.
pub struct FileDatabase {
    tree: BTreeMap<(u64, u64, u64, u64, u64, u64, u64, u64), String>,
}

impl View for FileDatabase {
    type V = Map<Seq<u8>, Seq<char>>;

    closed spec fn view(&self) -> Map<Seq<u8>, Seq<char>> {
        index_in(self.tree@)
    }
}

impl FileDatabase {
    /// Load the store from the lines of its log file. A line that could not be
    /// read is skipped; its number is returned, so that the caller can warn
    /// about it. Loading never fails: the store holds the index of the records
    /// that could be read.
    pub fn new(lines: Vec<Option<HashUrl>>) -> (res: (FileDatabase, Vec<usize>))
        ensures
            res.0@ == index_of(valid_records(lines@)),
            res.1@ == malformed_lines(lines@),
            valid_records(lines@).len() + res.1@.len() == lines@.len(),
    {
        let ghost all = lines@;
        let total: usize = lines.len();
        let mut rest = reversed(lines);
        let mut tree: BTreeMap<(u64, u64, u64, u64, u64, u64, u64, u64), String> = BTreeMap::new();
        let mut warnings: Vec<usize> = Vec::new();
        let mut number: usize = 0;
        assert(index_in(tree@) =~= index_of(valid_records(all.subrange(0, 0))));
        while rest.len() > 0
            invariant
                all.len() == total,
                number + rest@.len() == total,
                forall|j: int| 0 <= j < rest@.len() ==> rest@[j] == all[all.len() - 1 - j],
                index_in(tree@) == index_of(valid_records(all.subrange(0, number as int))),
                warnings@ == malformed_lines(all.subrange(0, number as int)),
            decreases rest@.len(),
        {
            let line = rest.pop();
            number += 1;
            proof {
                assert(line == Some(all[number - 1]));
                assert(all.subrange(0, number as int).drop_last() =~= all.subrange(
                    0,
                    number - 1,
                ));
            }
            match line {
                Some(Some(record)) => {
                    proof {
                        let log = valid_records(all.subrange(0, number - 1));
                        assert(log.push(record).drop_last() =~= log);
                        lemma_index_in_insert(tree@, record.hash@, record.url);
                    }
                    let k = key(&record.hash);
                    tree.insert(k, record.url);
                },
                Some(None) => warnings.push(number),
                None => {},
            }
        }
        proof {
            assert(all.subrange(0, number as int) =~= all);
            lemma_lines_accounted(all);
        }
        (FileDatabase { tree }, warnings)
    }
}

impl Database for FileDatabase {
    open spec fn index(&self) -> Map<Seq<u8>, Seq<char>> {
        self@
    }

    fn get(&self, hash: &crate::database::Hash) -> (url: Option<String>) {
        let k = key(hash);
        match self.tree.get(&k) {
            Some(url) => Some(url.clone()),
            None => None,
        }
    }

    fn add(&mut self, hash: crate::database::Hash, url: String, appended: Result<(), String>) -> (res:
        Result<(), Error>) {
        match appended {
            Ok(_) => {
                proof {
                    lemma_index_in_insert(self.tree@, hash@, url);
                }
                let k = key(&hash);
                self.tree.insert(k, url);
                Ok(())
            },
            Err(reason) => Err(Error::Database(reason)),
        }
    }
}

/// Once an upload is recorded, a lookup of its hash finds its url, whatever
/// the store held before.
pub proof fn lemma_recorded_upload_is_found(
    index: Map<Seq<u8>, Seq<char>>,
    hash: Seq<u8>,
    url: Seq<char>,
)
    ensures
        lookup(index.insert(hash, url), hash) == Some(url),
{
}

/// A record that is appended to the log is found again when the log is
/// loaded anew.
pub proof fn lemma_record_survives_reload(log: Seq<HashUrl>, record: HashUrl)
    ensures
        lookup(index_of(log.push(record)), record.hash@) == Some(record.url@),
{
    assert(log.push(record).drop_last() =~= log);
}

/// Recording an upload changes the url of no other hash.
pub proof fn lemma_other_records_kept(
    index: Map<Seq<u8>, Seq<char>>,
    hash: Seq<u8>,
    url: Seq<char>,
    other: Seq<u8>,
)
    requires
        other != hash,
    ensures
        lookup(index.insert(hash, url), other) == lookup(index, other),
{
}

} // verus!
