//! Unpacking of a compressed, archive-packed asset tree: dictionary-bound
//! decompression with a bounded size-guess escalation, classification of
//! entries by name and signature, and the rules that decide what is written
//! for each entry and where.

pub mod text;
pub mod category;
pub mod codec;
pub mod escalation;
pub mod signature;
pub mod paths;
pub mod store;
pub mod archive;
pub mod entry;
