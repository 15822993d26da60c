//! Decoder for the TZif binary timezone-information format.
//!
//! The crate decodes the fixed 44-byte header and the 32-bit legacy body of a
//! TZif file into typed collections, and groups the decoded transitions into
//! one record per designation name.  Every decoding function carries a
//! contract that pins its result down to a mathematical model of the byte
//! buffer; callers supply the raw bytes and the library never performs I/O.

pub mod aggregate;
pub mod body;
pub mod error;
pub mod header;
pub mod text;
pub mod wire;

use vstd::prelude::*;

use crate::body::{BodyModel, TzFileBody};
use crate::error::TzError;
use crate::header::{HeaderModel, TzFileHeader};

verus! {

/// A fully decoded TZif file: the fixed header and the 32-bit body.
#[derive(Debug, PartialEq, Eq)]
pub struct TzFile {
    pub header: TzFileHeader,
    pub body: TzFileBody,
}

/// Mathematical model of a decoded file.
#[verifier::ext_equal]
pub ghost struct FileModel {
    pub header: HeaderModel,
    pub body: BodyModel,
}

impl View for TzFile {
    type V = FileModel;

    open spec fn view(&self) -> FileModel {
        FileModel { header: self.header@, body: self.body@ }
    }
}

/// What decoding a whole buffer yields: the header is decoded from the first
/// 44 bytes, and the body from everything after them.
pub open spec fn spec_file_decode(bytes: Seq<u8>) -> Result<FileModel, TzError> {
    match crate::header::spec_header_decode(bytes) {
        Err(e) => Err(e),
        Ok(h) => match crate::body::spec_body_decode(bytes.skip(44), h) {
            Err(e) => Err(e),
            Ok(b) => Ok(FileModel { header: h, body: b }),
        },
    }
}

impl TzFile {
    /// Decodes a complete TZif file from its raw bytes.
    pub fn from_bytes(bytes: &[u8]) -> (r: Result<TzFile, TzError>)
        ensures
            match r {
                Ok(f) => spec_file_decode(bytes@) == Ok::<FileModel, TzError>(f@),
                Err(e) => spec_file_decode(bytes@) == Err::<FileModel, TzError>(e),
            },
    {
        let header = match TzFileHeader::from_bytes(bytes) {
            Ok(h) => h,
            Err(e) => {
                return Err(e);
            },
        };
        let rest = &bytes[44..bytes.len()];
        proof {
            assert(rest@ =~= bytes@.skip(44));
        }
        let body = match TzFileBody::from_bytes_and_header(rest, &header) {
            Ok(b) => b,
            Err(e) => {
                return Err(e);
            },
        };
        Ok(TzFile { header, body })
    }
}

/// Decoding is a pure function of the input bytes: two decodes of the same
/// buffer yield structurally identical results.
pub proof fn lemma_decode_deterministic(
    bytes: Seq<u8>,
    r1: Result<FileModel, TzError>,
    r2: Result<FileModel, TzError>,
)
    requires
        r1 == spec_file_decode(bytes),
        r2 == spec_file_decode(bytes),
    ensures
        r1 == r2,
{
}

} // verus!
