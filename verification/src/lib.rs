//! Decoder for the VFF disk-image container format: a FAT16-style filesystem
//! laid out in fixed-size clusters inside a single byte buffer.
//!
//! The container bytes are handed in as a whole; parsing the header, decoding
//! the cluster-allocation table, resolving cluster chains and walking the
//! directory tree are all pure computations over that buffer.
use vstd::prelude::*;

pub mod codec;
pub mod dir;
pub mod entry;
pub mod fat;
pub mod header;
pub mod numfmt;
pub mod strutil;
pub mod vff;
pub mod walker;

pub use dir::Directory;
pub use dir::DirectoryContent;
pub use dir::DirectoryEntry;
pub use entry::ParsedFATEntry;
pub use fat::FAT;
pub use fat::SupportedFAT;
pub use header::VFFHeader;
pub use vff::VFF;
pub use walker::DumpAction;

verus! {

/// The failures a decode can end in: an out-of-bounds read of the backing
/// buffer, an unsupported layout, or malformed data with a description of
/// what was expected and what was found.
#[derive(Debug)]
pub enum VFFError {
    IOErr(String),
    Other(String),
    InvalidData { context: String, expected: String, found: String },
}

/// Spec-level mirror of `VFFError`, with strings as character sequences.
pub enum ErrV {
    IOErr(Seq<char>),
    Other(Seq<char>),
    InvalidData { context: Seq<char>, expected: Seq<char>, found: Seq<char> },
}

impl View for VFFError {
    type V = ErrV;

    open spec fn view(&self) -> ErrV {
        match self {
            VFFError::IOErr(s) => ErrV::IOErr(s@),
            VFFError::Other(s) => ErrV::Other(s@),
            VFFError::InvalidData { context, expected, found } => ErrV::InvalidData {
                context: context@,
                expected: expected@,
                found: found@,
            },
        }
    }
}

} // verus!
