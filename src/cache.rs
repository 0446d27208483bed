use vstd::prelude::*;
use vstd::utf8::{decode_utf8, encode_utf8, encode_utf8_decode_utf8, encode_utf8_valid_utf8, valid_utf8};

verus! {

#[verifier::external_type_specification]
#[verifier::external_body]
pub struct ExDb(sled::Db);

#[verifier::external_type_specification]
#[verifier::external_body]
pub struct ExSledError(sled::Error);

/// What a store holds: each key's bytes mapped to its value's bytes.
/// A `sled::Db` is `Clone`, and its clones share one store: the contracts
/// here hold where a single handle writes to it, which callers keep behind a
/// lock of their own.
pub uninterp spec fn store_entries(db: sled::Db) -> Map<Seq<u8>, Seq<u8>>;

/// The 64-bit SeaHash digest of a byte sequence.
pub uninterp spec fn seahash_of(bytes: Seq<u8>) -> u64;

/// Relies on `seahash::hash`: a digest fixed by the bytes alone, stable
/// across processes, versions and platforms.
#[verifier::external_body]
fn content_hash(bytes: &[u8]) -> (r: u64)
    ensures
        r == seahash_of(bytes@),
{
    seahash::hash(bytes)
}

/// Relies on `sled::Tree::get` (reached through `Db`): the value stored under
/// `key`, or `None` where there is none; a failed read is an error.
#[verifier::external_body]
fn store_get(db: &sled::Db, key: &[u8]) -> (r: Result<Option<Vec<u8>>, sled::Error>)
    ensures
        match r {
            Ok(Some(v)) => store_entries(*db).contains_key(key@) && store_entries(*db)[key@]
                == v@,
            Ok(None) => !store_entries(*db).contains_key(key@),
            Err(_) => true,
        },
{
    db.get(key).map(|found| found.map(|v| v.to_vec()))
}

/// Relies on `sled::Tree::insert` (reached through `Db`): on success the
/// value is stored under `key`, replacing any earlier one.
#[verifier::external_body]
fn store_insert(db: &mut sled::Db, key: &[u8], value: &[u8]) -> (r: Result<(), sled::Error>)
    ensures
        r is Ok ==> store_entries(*final(db)) == store_entries(*old(db)).insert(key@, value@),
{
    db.insert(key, value).map(|_| ())
}

/// Relies on `String::from_utf8`: a string exactly when the bytes are valid
/// UTF-8, holding the characters they encode.
#[verifier::external_body]
fn text_from_utf8(bytes: Vec<u8>) -> (r: Option<String>)
    ensures
        r is Some <==> valid_utf8(bytes@),
        r is Some ==> r->0@ == decode_utf8(bytes@),
{
    String::from_utf8(bytes).ok()
}

/// The eight bytes of a digest, most significant first.
pub open spec fn digest_key(h: u64) -> Seq<u8> {
    seq![
        (h >> 56u64) as u8,
        (h >> 48u64) as u8,
        (h >> 40u64) as u8,
        (h >> 32u64) as u8,
        (h >> 24u64) as u8,
        (h >> 16u64) as u8,
        (h >> 8u64) as u8,
        h as u8,
    ]
}

/// The key under which a handle for a file with these contents is stored.
pub open spec fn cache_key(contents: Seq<u8>) -> Seq<u8> {
    digest_key(seahash_of(contents))
}

/// The bytes stored for a file with these contents, if any.
pub open spec fn stored_for(entries: Map<Seq<u8>, Seq<u8>>, contents: Seq<u8>) -> Option<Seq<u8>> {
    if entries.contains_key(cache_key(contents)) {
        Some(entries[cache_key(contents)])
    } else {
        None
    }
}

/// The handle that stored bytes hold: present only where they are text.
pub open spec fn decoded_handle(entry: Option<Seq<u8>>) -> Option<Seq<char>> {
    match entry {
        Some(b) => if valid_utf8(b) {
            Some(decode_utf8(b))
        } else {
            None
        },
        None => None,
    }
}

/// The handle known for a file with these contents.
pub open spec fn handle_for(entries: Map<Seq<u8>, Seq<u8>>, contents: Seq<u8>) -> Option<Seq<char>> {
    decoded_handle(stored_for(entries, contents))
}

/// The entries after `handle` is remembered for a file with these contents.
pub open spec fn remembered(
    entries: Map<Seq<u8>, Seq<u8>>,
    contents: Seq<u8>,
    handle: Seq<char>,
) -> Map<Seq<u8>, Seq<u8>> {
    entries.insert(cache_key(contents), encode_utf8(handle))
}

/// A string's characters, or `None`.
pub open spec fn text_view(t: Option<String>) -> Option<Seq<char>> {
    match t {
        Some(s) => Some(s@),
        None => None,
    }
}

/// A byte vector's contents, or `None`.
pub open spec fn bytes_view(b: Option<Vec<u8>>) -> Option<Seq<u8>> {
    match b {
        Some(v) => Some(v@),
        None => None,
    }
}

/// The store key for a file with these contents: its digest, in eight bytes.
pub fn content_key(contents: &[u8]) -> (r: Vec<u8>)
    ensures
        r@ == cache_key(contents@),
{
    let h = content_hash(contents);
    let mut key: Vec<u8> = Vec::new();
    key.push((h >> 56u64) as u8);
    key.push((h >> 48u64) as u8);
    key.push((h >> 40u64) as u8);
    key.push((h >> 32u64) as u8);
    key.push((h >> 24u64) as u8);
    key.push((h >> 16u64) as u8);
    key.push((h >> 8u64) as u8);
    key.push(h as u8);
    assert(key@ =~= digest_key(h));
    key
}

/// The handle held by a stored entry: the entry's text, or `None` where
/// there is no entry or its bytes are not valid UTF-8.
pub fn decode_handle(entry: Option<Vec<u8>>) -> (r: Option<String>)
    ensures
        text_view(r) == decoded_handle(bytes_view(entry)),
{
    match entry {
        Some(bytes) => text_from_utf8(bytes),
        None => None,
    }
}

/// Stores `file_id` as the handle for a file with these contents, replacing
/// any earlier one. Returns whether the store took the write; a refused
/// write leaves the caller to carry on without the cache.
pub fn remember_file(db: &mut sled::Db, contents: &[u8], file_id: &str) -> (stored: bool)
    ensures
        stored ==> store_entries(*final(db)) == remembered(
            store_entries(*old(db)),
            contents@,
            file_id@,
        ),
{
    let key = content_key(contents);
    let value = file_id.as_bytes();
    match store_insert(db, key.as_slice(), value) {
        Ok(()) => true,
        Err(_) => false,
    }
}

/// The handle found by a read of the store: the entry's text where the read
/// succeeded, and none where it failed.
pub fn handle_from_read(read: Result<Option<Vec<u8>>, sled::Error>) -> (r: Option<String>)
    ensures
        text_view(r) == match read {
            Ok(entry) => decoded_handle(bytes_view(entry)),
            Err(_) => None,
        },
{
    match read {
        Ok(entry) => decode_handle(entry),
        Err(_) => None,
    }
}

/// The handle remembered for a file with these contents. A store that
/// cannot be read, or an entry that is not text, counts as no handle.
pub fn get_remembered_file(db: &sled::Db, contents: &[u8]) -> (r: Option<String>)
    ensures
        r is Some ==> handle_for(store_entries(*db), contents@) == text_view(r),
        handle_for(store_entries(*db), contents@) is None ==> r is None,
{
    let key = content_key(contents);
    handle_from_read(store_get(db, key.as_slice()))
}

/// A handle remembered for some contents is the one found for them again.
pub proof fn lemma_remember_then_lookup(
    entries: Map<Seq<u8>, Seq<u8>>,
    contents: Seq<u8>,
    handle: Seq<char>,
)
    ensures
        handle_for(remembered(entries, contents, handle), contents) == Some(handle),
{
    encode_utf8_valid_utf8(handle);
    encode_utf8_decode_utf8(handle);
}

/// Remembering a second handle for the same contents replaces the first.
pub proof fn lemma_remember_overwrites(
    entries: Map<Seq<u8>, Seq<u8>>,
    contents: Seq<u8>,
    first: Seq<char>,
    second: Seq<char>,
)
    ensures
        handle_for(remembered(remembered(entries, contents, first), contents, second), contents)
            == Some(second),
{
    lemma_remember_then_lookup(remembered(entries, contents, first), contents, second);
}

/// The key is the contents alone: a handle remembered through one file is
/// found through any other file with the same bytes.
pub proof fn lemma_same_bytes_share_handle(
    entries: Map<Seq<u8>, Seq<u8>>,
    first: Seq<u8>,
    second: Seq<u8>,
    handle: Seq<char>,
)
    requires
        first == second,
    ensures
        handle_for(remembered(entries, first, handle), second) == Some(handle),
{
    lemma_remember_then_lookup(entries, first, handle);
}

/// Contents whose key was never stored have no handle.
pub proof fn lemma_unknown_contents_miss(entries: Map<Seq<u8>, Seq<u8>>, contents: Seq<u8>)
    requires
        !entries.contains_key(cache_key(contents)),
    ensures
        handle_for(entries, contents) is None,
{
}

} // verus!
