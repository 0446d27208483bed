//! Delivery of pictures through a chat transport: which send path a file
//! needs, a content-addressed cache of the handles the transport issues,
//! and the answers to chat commands.

pub mod cache;
pub mod classify;
pub mod commands;
pub mod delivery;
pub mod paths;

pub use cache::{content_key, decode_handle, get_remembered_file, handle_from_read, remember_file};
pub use classify::{classify, send_mode, SendMode, MAX_DIMEN, MAX_FILE_SIZE, MAX_RATIO, PROBE_LIMIT};
pub use commands::{respond, Reply, Request};
pub use delivery::{
    caption, finish_delivery, new_handle, prepare_delivery, source_for, Delivery, FileSource,
};
pub use paths::{basename, get_file_path, get_file_url, search};
