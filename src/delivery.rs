use vstd::prelude::*;
use vstd::string::StringExecFns;
use crate::cache::{
    get_remembered_file, lemma_remember_then_lookup, handle_for, remember_file, remembered, store_entries, text_view,
};
use crate::classify::{classify, dims_view, mode_for, readable_dimensions, SendMode};

verus! {

/// Where the transport takes a file's contents from.
#[derive(Debug)]
pub enum FileSource {
    /// The bytes on local disk, uploaded with the send.
    Upload,
    /// A handle the transport issued for an earlier upload of the same bytes.
    Handle(String),
}

/// What to send for one request: the send path and the file's source.
#[derive(Debug)]
pub struct Delivery {
    pub mode: SendMode,
    pub source: FileSource,
}

/// The handle a source names, if any.
pub open spec fn source_handle(source: FileSource) -> Option<Seq<char>> {
    match source {
        FileSource::Handle(h) => Some(h@),
        FileSource::Upload => None,
    }
}

/// The handle worth remembering once the transport answered with `issued`:
/// one it issued, unless it is the very handle that was supplied.
pub open spec fn handle_to_keep(source: FileSource, issued: Option<Seq<char>>) -> Option<Seq<char>> {
    match issued {
        Some(h) => if source_handle(source) == Some(h) {
            None
        } else {
            Some(h)
        },
        None => None,
    }
}

/// A markup link: `label` in brackets, then `url` in parentheses.
pub open spec fn link_markup(label: Seq<char>, url: Seq<char>) -> Seq<char> {
    seq!['['] + label + seq![']', '('] + url + seq![')']
}

/// The caption sent with a file: its label, linked to its public URL.
pub fn caption(label: &str, url: &str) -> (r: String)
    ensures
        r@ == link_markup(label@, url@),
{
    let mut r = "[".to_owned();
    proof {
        reveal_strlit("[");
        reveal_strlit("](");
        reveal_strlit(")");
    }
    r.append(label);
    r.append("](");
    r.append(url);
    r.append(")");
    r
}

impl FileSource {
    /// Whether the transport must upload the bytes.
    pub fn is_upload(&self) -> (r: bool)
        ensures
            r == (*self is Upload),
    {
        match self {
            FileSource::Upload => true,
            FileSource::Handle(_) => false,
        }
    }
}

/// The source for a file whose cache lookup found `found`: that handle, or
/// an upload where there is none.
pub fn source_for(found: Option<String>) -> (r: FileSource)
    ensures
        source_handle(r) == text_view(found),
{
    match found {
        Some(h) => FileSource::Handle(h),
        None => FileSource::Upload,
    }
}

/// Plans the send of a file of `file_len` bytes with these contents: the
/// send path from its size and dimensions, and a remembered handle in place
/// of an upload where the cache lookup finds one.
pub fn prepare_delivery(db: &sled::Db, file_len: u64, contents: &[u8]) -> (d: Delivery)
    ensures
        d.mode == mode_for(file_len as int, dims_view(readable_dimensions(contents@))),
        d.source is Handle ==> handle_for(store_entries(*db), contents@) == source_handle(
            d.source,
        ),
        handle_for(store_entries(*db), contents@) is None ==> d.source is Upload,
{
    let mode = classify(file_len, contents);
    let source = source_for(get_remembered_file(db, contents));
    Delivery { mode, source }
}

/// The handle to remember after a successful send from `source`, in answer
/// to which the transport issued `issued` (if it named one).
pub fn new_handle(source: &FileSource, issued: Option<String>) -> (r: Option<String>)
    ensures
        text_view(r) == handle_to_keep(*source, text_view(issued)),
{
    match issued {
        Some(h) => {
            let reused = match source {
                FileSource::Handle(supplied) => *supplied == h,
                FileSource::Upload => false,
            };
            if reused {
                None
            } else {
                Some(h)
            }
        },
        None => None,
    }
}

/// Records the outcome of a successful send: remembers for these contents
/// the handle the transport issued, unless it only reused the one supplied.
/// Returns whether a handle was written; with none to keep the store is left
/// as it was.
pub fn finish_delivery(
    db: &mut sled::Db,
    contents: &[u8],
    source: &FileSource,
    issued: Option<String>,
) -> (written: bool)
    ensures
        ({
            let keep = handle_to_keep(*source, text_view(issued));
            &&& keep is None ==> !written && *final(db) == *old(db)
            &&& written ==> keep is Some && store_entries(*final(db)) == remembered(
                store_entries(*old(db)),
                contents@,
                keep->0,
            )
        }),
{
    match new_handle(source, issued) {
        Some(h) => remember_file(db, contents, h.as_str()),
        None => false,
    }
}

/// A first delivery of contents the cache does not know uploads them; the
/// handle the transport issues for it is kept, and once written it is what
/// the cache finds for the same bytes, so the next delivery sends that
/// handle and uploads nothing.
pub proof fn lemma_second_delivery_reuses_handle(
    entries: Map<Seq<u8>, Seq<u8>>,
    contents: Seq<u8>,
    issued: Seq<char>,
)
    requires
        handle_for(entries, contents) is None,
    ensures
        handle_to_keep(FileSource::Upload, Some(issued)) == Some(issued),
        handle_for(remembered(entries, contents, issued), contents) == Some(issued),
{
    lemma_remember_then_lookup(entries, contents, issued);
}

} // verus!
