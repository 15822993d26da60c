//! The fixed 44-byte TZif header.

use vstd::prelude::*;

use crate::error::TzError;
use crate::wire::{read_be_i32, read_byte_section, spec_be_i32};

verus! {

/// The decoded file header: the version byte, the fifteen reserved bytes and
/// the six section counts.  The four magic bytes are checked during decoding
/// and not stored; they are always the ASCII tag `TZif`.
#[derive(Debug, PartialEq, Eq)]
pub struct TzFileHeader {
    /// Version indicator, stored verbatim: NUL for the legacy format, `'2'`,
    /// `'3'`, `'4'` for the successive extended formats; any other byte is
    /// kept as-is for downstream logic to judge.
    pub version: char,
    /// The fifteen reserved bytes following the version byte.
    pub reserved: Vec<u8>,
    pub tzh_ttisutcnt: i32,
    pub tzh_ttisstdcnt: i32,
    pub tzh_leapcnt: i32,
    pub tzh_timecnt: i32,
    pub tzh_typecnt: i32,
    pub tzh_charcnt: i32,
}

/// Mathematical model of a decoded header.
#[verifier::ext_equal]
pub ghost struct HeaderModel {
    pub version: char,
    pub reserved: Seq<u8>,
    pub tzh_ttisutcnt: i32,
    pub tzh_ttisstdcnt: i32,
    pub tzh_leapcnt: i32,
    pub tzh_timecnt: i32,
    pub tzh_typecnt: i32,
    pub tzh_charcnt: i32,
}

impl View for TzFileHeader {
    type V = HeaderModel;

    open spec fn view(&self) -> HeaderModel {
        HeaderModel {
            version: self.version,
            reserved: self.reserved@,
            tzh_ttisutcnt: self.tzh_ttisutcnt,
            tzh_ttisstdcnt: self.tzh_ttisstdcnt,
            tzh_leapcnt: self.tzh_leapcnt,
            tzh_timecnt: self.tzh_timecnt,
            tzh_typecnt: self.tzh_typecnt,
            tzh_charcnt: self.tzh_charcnt,
        }
    }
}

impl HeaderModel {
    /// All six counts are non-negative; the format defines them as counts,
    /// so a decoded header always satisfies this.
    pub open spec fn wf(self) -> bool {
        &&& self.tzh_ttisutcnt >= 0
        &&& self.tzh_ttisstdcnt >= 0
        &&& self.tzh_leapcnt >= 0
        &&& self.tzh_timecnt >= 0
        &&& self.tzh_typecnt >= 0
        &&& self.tzh_charcnt >= 0
    }
}

/// The first four bytes are the ASCII tag `TZif`.
pub open spec fn spec_magic_ok(bytes: Seq<u8>) -> bool
    recommends
        bytes.len() >= 4,
{
    &&& bytes[0] == 0x54u8
    &&& bytes[1] == 0x5au8
    &&& bytes[2] == 0x69u8
    &&& bytes[3] == 0x66u8
}

/// One of the six counts, decoded at its fixed byte offset, is negative.
pub open spec fn spec_some_count_negative(bytes: Seq<u8>) -> bool
    recommends
        bytes.len() >= 44,
{
    ||| spec_be_i32(bytes, 20) < 0
    ||| spec_be_i32(bytes, 24) < 0
    ||| spec_be_i32(bytes, 28) < 0
    ||| spec_be_i32(bytes, 32) < 0
    ||| spec_be_i32(bytes, 36) < 0
    ||| spec_be_i32(bytes, 40) < 0
}

/// What header decoding yields on any buffer: too short, wrong magic and
/// negative counts are rejected in that order; otherwise the version byte is
/// stored verbatim and the six counts are decoded big-endian at their fixed
/// offsets.
pub open spec fn spec_header_decode(bytes: Seq<u8>) -> Result<HeaderModel, TzError> {
    if bytes.len() < 44 {
        Err(TzError::FormatError)
    } else if !spec_magic_ok(bytes) {
        Err(TzError::MagicMismatch)
    } else if spec_some_count_negative(bytes) {
        Err(TzError::NegativeCount)
    } else {
        Ok(HeaderModel {
            version: bytes[4] as char,
            reserved: bytes.subrange(5, 20),
            tzh_ttisutcnt: spec_be_i32(bytes, 20),
            tzh_ttisstdcnt: spec_be_i32(bytes, 24),
            tzh_leapcnt: spec_be_i32(bytes, 28),
            tzh_timecnt: spec_be_i32(bytes, 32),
            tzh_typecnt: spec_be_i32(bytes, 36),
            tzh_charcnt: spec_be_i32(bytes, 40),
        })
    }
}

impl TzFileHeader {
    /// Decodes the 44-byte header from the start of `bytes`.
    pub fn from_bytes(bytes: &[u8]) -> (r: Result<TzFileHeader, TzError>)
        ensures
            match r {
                Ok(h) => spec_header_decode(bytes@) == Ok::<HeaderModel, TzError>(h@),
                Err(e) => spec_header_decode(bytes@) == Err::<HeaderModel, TzError>(e),
            },
            r is Ok ==> bytes@.len() >= 44 && r->Ok_0@.wf(),
    {
        if bytes.len() < 44 {
            return Err(TzError::FormatError);
        }
        if !(bytes[0] == 0x54 && bytes[1] == 0x5a && bytes[2] == 0x69 && bytes[3] == 0x66) {
            return Err(TzError::MagicMismatch);
        }
        let tzh_ttisutcnt = read_be_i32(bytes, 20);
        let tzh_ttisstdcnt = read_be_i32(bytes, 24);
        let tzh_leapcnt = read_be_i32(bytes, 28);
        let tzh_timecnt = read_be_i32(bytes, 32);
        let tzh_typecnt = read_be_i32(bytes, 36);
        let tzh_charcnt = read_be_i32(bytes, 40);
        if tzh_ttisutcnt < 0 || tzh_ttisstdcnt < 0 || tzh_leapcnt < 0 || tzh_timecnt < 0
            || tzh_typecnt < 0 || tzh_charcnt < 0 {
            return Err(TzError::NegativeCount);
        }
        let version = bytes[4] as char;
        let reserved = read_byte_section(bytes, 5, 15);
        Ok(TzFileHeader {
            version,
            reserved,
            tzh_ttisutcnt,
            tzh_ttisstdcnt,
            tzh_leapcnt,
            tzh_timecnt,
            tzh_typecnt,
            tzh_charcnt,
        })
    }
}

/// For every buffer that decodes successfully, the version indicator is the
/// fifth input byte, preserved verbatim.
pub proof fn lemma_version_preserved(bytes: Seq<u8>)
    requires
        spec_header_decode(bytes) is Ok,
    ensures
        spec_header_decode(bytes)->Ok_0.version == bytes[4] as char,
{
}

/// No buffer in which any of the six counts is negative ever decodes: given
/// enough bytes and the right magic, such a buffer is rejected with the
/// dedicated header error.
pub proof fn lemma_negative_count_rejected(bytes: Seq<u8>)
    requires
        bytes.len() >= 44,
        spec_magic_ok(bytes),
        spec_some_count_negative(bytes),
    ensures
        spec_header_decode(bytes) == Err::<HeaderModel, TzError>(TzError::NegativeCount),
{
}

/// A buffer shorter than 44 bytes never yields a header: decoding always
/// fails with the format error, whatever the bytes hold.
pub proof fn lemma_short_buffer_rejected(bytes: Seq<u8>)
    requires
        bytes.len() < 44,
    ensures
        spec_header_decode(bytes) == Err::<HeaderModel, TzError>(TzError::FormatError),
{
}

} // verus!
