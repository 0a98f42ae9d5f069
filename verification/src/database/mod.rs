//! The store that maps the hash of an uploaded file to its Matrix media url,
//! to avoid duplicate uploads of the same file.

pub mod dummy_database;
pub mod simple_file;

use sha2::{Digest, Sha512};
use vstd::prelude::*;
use crate::error::Error;

verus! {

/// The hash of a file's bytes: 64 bytes.
pub type Hash = [u8; 64];

/// The SHA-512 digest of a byte sequence.
pub uninterp spec fn sha512(data: Seq<u8>) -> Seq<u8>;

/// The hash under which a file is stored.
///
/// Trusted: feeds the bytes to `sha2::Sha512` (`new`, `update`, `finalize`),
/// which computes their SHA-512 digest, a function of the bytes alone.
#[verifier::external_body]
pub fn hash(value: &[u8]) -> (digest: Hash)
    ensures
        digest@ == sha512(value@),
{
    let mut hasher = Sha512::new();
    hasher.update(value);
    hasher.finalize().into()
}

/// The url that an index holds for a hash, if any.
pub open spec fn lookup(index: Map<Seq<u8>, Seq<char>>, hash: Seq<u8>) -> Option<Seq<char>> {
    if index.contains_key(hash) {
        Some(index[hash])
    } else {
        None
    }
}

/// Database which stores mappings from hashes to Matrix media urls, to avoid
/// duplicate uploads of the same file.
///
/// A store answers from its index, and a record enters the index if and only
/// if it has reached the durable log of the store. An import that wants no
/// store is given none.
pub trait Database {
    /// The url that the store holds for each hash it knows.
    spec fn index(&self) -> Map<Seq<u8>, Seq<char>>;

    /// The url under which the file with this hash was uploaded, if the store
    /// knows it.
    fn get(&self, hash: &Hash) -> (url: Option<String>)
        ensures
            match url {
                Some(u) => lookup(self.index(), hash@) == Some(u@),
                None => lookup(self.index(), hash@) is None,
            },
    ;

    /// Record an upload. `appended` says whether the record has reached the
    /// durable log of the store; a store without such a log is told `Ok`. If
    /// it has, the index holds the record from now on, in place of an older
    /// record of the same hash. If it has not, the index is left as it was
    /// and the failure is returned: no record is lost by a failed one.
    fn add(&mut self, hash: Hash, url: String, appended: Result<(), String>) -> (res: Result<
        (),
        Error,
    >)
        ensures
            match appended {
                Ok(_) => res is Ok && final(self).index() == old(self).index().insert(hash@, url@),
                Err(reason) => res == Err::<(), Error>(Error::Database(reason))
                    && final(self).index() == old(self).index(),
            },
    ;
}

/// Equal files have equal hashes: the hash depends on the bytes alone.
pub proof fn lemma_hash_deterministic(first: Seq<u8>, second: Seq<u8>)
    requires
        first == second,
    ensures
        sha512(first) == sha512(second),
{
}

} // verus!
