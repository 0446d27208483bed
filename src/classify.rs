use vstd::prelude::*;

verus! {

/// The largest file, in bytes, that may go through the inline picture path.
pub const MAX_FILE_SIZE: u64 = 10_485_760;

/// The largest sum of width and height, in pixels, of an inline picture.
pub const MAX_DIMEN: usize = 10000;

/// The largest width-to-height ratio (integer-floored) of an inline picture.
pub const MAX_RATIO: usize = 20;

/// How a file must travel through the transport.
#[derive(Clone, Copy, Debug, PartialEq, Eq, Structural)]
pub enum SendMode {
    /// As a generic document, with no limits on size or shape.
    AsDocument,
    /// As an inline picture.
    AsPicture,
}

/// The send path for a file of `len` bytes whose pixel dimensions are
/// `dims` (width, height), or unknown when `dims` is `None`.
pub open spec fn mode_for(len: int, dims: Option<(int, int)>) -> SendMode {
    if len > MAX_FILE_SIZE {
        SendMode::AsDocument
    } else {
        match dims {
            Some((w, h)) => {
                if w + h > MAX_DIMEN {
                    SendMode::AsDocument
                } else if h > 0 && w / h > MAX_RATIO {
                    SendMode::AsDocument
                } else {
                    SendMode::AsPicture
                }
            },
            None => SendMode::AsPicture,
        }
    }
}

/// The dimensions as mathematical integers.
pub open spec fn dims_view(dims: Option<(usize, usize)>) -> Option<(int, int)> {
    match dims {
        Some((w, h)) => Some((w as int, h as int)),
        None => None,
    }
}

/// What `imagesize::blob_size` finds in a file's bytes: its width and height,
/// or `None` where the bytes are no image it recognises.
pub uninterp spec fn probed_dimensions(bytes: Seq<u8>) -> Option<(usize, usize)>;

/// The length, in bytes, from which dimensions are not read. imagesize's
/// JPEG reader counts nested start-of-image markers in an `i32`, one per four
/// bytes at least, so only inputs this long can overflow it.
pub const PROBE_LIMIT: u64 = 0x2_0000_0000;

/// The dimensions that are read from a file's bytes: none for input too long
/// to read them safely.
pub open spec fn readable_dimensions(b: Seq<u8>) -> Option<(usize, usize)> {
    if b.len() >= PROBE_LIMIT {
        None
    } else {
        probed_dimensions(b)
    }
}

/// Relies on `imagesize::blob_size`: the pixel dimensions read from the
/// header of an image held in memory, which depend on the bytes alone; an
/// unrecognised or truncated header is an error, here `None`.
#[verifier::external_body]
fn probe_dimensions(bytes: &[u8]) -> (r: Option<(usize, usize)>)
    requires
        bytes@.len() < PROBE_LIMIT,
    ensures
        r == probed_dimensions(bytes@),
{
    match imagesize::blob_size(bytes) {
        Ok(size) => Some((size.width, size.height)),
        Err(_) => None,
    }
}

/// The send path for a file of `file_len` bytes with the given dimensions
/// (width, height), or with none where they could not be read.
///
/// Size is checked first, then the sum of width and height, then the
/// aspect ratio; a zero height skips the ratio check.
pub fn send_mode(file_len: u64, dims: Option<(usize, usize)>) -> (r: SendMode)
    ensures
        r == mode_for(file_len as int, dims_view(dims)),
        file_len > MAX_FILE_SIZE ==> r == SendMode::AsDocument,
        dims matches Some((w, h)) && file_len <= MAX_FILE_SIZE && w + h > MAX_DIMEN ==> r
            == SendMode::AsDocument,
        dims matches Some((w, h)) && file_len <= MAX_FILE_SIZE && w + h <= MAX_DIMEN && h > 0 && w
            / h > MAX_RATIO ==> r == SendMode::AsDocument,
        dims matches Some((w, h)) && file_len <= MAX_FILE_SIZE && w + h <= MAX_DIMEN && (h == 0
            || w / h <= MAX_RATIO) ==> r == SendMode::AsPicture,
        dims is None ==> (r == SendMode::AsDocument <==> file_len > MAX_FILE_SIZE),
{
    if file_len > MAX_FILE_SIZE {
        return SendMode::AsDocument;
    }
    match dims {
        Some((width, height)) => {
            if width > MAX_DIMEN || height > MAX_DIMEN - width {
                SendMode::AsDocument
            } else if height > 0 && width / height > MAX_RATIO {
                SendMode::AsDocument
            } else {
                SendMode::AsPicture
            }
        },
        None => SendMode::AsPicture,
    }
}

/// The send path for a file of `file_len` bytes whose contents begin with
/// `contents` (at least its image header). Dimensions that cannot be read
/// leave the decision to the size alone; over the size cap they are not
/// read at all.
pub fn classify(file_len: u64, contents: &[u8]) -> (r: SendMode)
    ensures
        r == mode_for(file_len as int, dims_view(readable_dimensions(contents@))),
        file_len > MAX_FILE_SIZE ==> r == SendMode::AsDocument,
        readable_dimensions(contents@) is None ==> (r == SendMode::AsDocument <==> file_len
            > MAX_FILE_SIZE),
{
    if file_len > MAX_FILE_SIZE {
        return SendMode::AsDocument;
    }
    let dims = if contents.len() as u64 >= PROBE_LIMIT {
        None
    } else {
        probe_dimensions(contents)
    };
    send_mode(file_len, dims)
}

} // verus!
