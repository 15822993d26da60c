//! The 32-bit TZif body: six variable-length sections sized by the header
//! counts, in a fixed order with no gaps or padding.

use vstd::prelude::*;

use crate::error::{Section, TzError};
use crate::header::{HeaderModel, TzFileHeader};
use crate::wire::{
    read_bool_section, read_byte_section, read_i32_section, read_pair_section, spec_be_i32,
};

verus! {

/// A local-time-type record: a reusable (offset, DST-flag, designation)
/// triple referenced by index from each transition.  On the wire it is six
/// bytes, unpadded.
#[derive(Clone, Copy, Debug, Hash, PartialEq, Eq, Structural)]
pub struct TTInfo {
    /// UTC offset in seconds.
    pub tt_utoff: i32,
    /// Whether the record describes daylight-saving time.
    pub tt_isdst: bool,
    /// Byte offset into the designation blob at which this record's
    /// NUL-terminated name begins.
    pub tt_desigidx: u8,
}

/// The local-time-type record encoded in the six bytes starting at `pos`:
/// a big-endian signed offset, a DST byte where `1` means true, and the
/// designation index byte.
pub open spec fn spec_ttinfo(bytes: Seq<u8>, pos: int) -> TTInfo
    recommends
        0 <= pos,
        pos + 6 <= bytes.len(),
{
    TTInfo {
        tt_utoff: spec_be_i32(bytes, pos),
        tt_isdst: bytes[pos + 4] == 1,
        tt_desigidx: bytes[pos + 5],
    }
}

impl TTInfo {
    /// Decodes one six-byte local-time-type record; any other input length
    /// is rejected.
    pub fn from_bytes(bytes: &[u8]) -> (r: Result<TTInfo, TzError>)
        ensures
            bytes@.len() == 6 ==> r == Ok::<TTInfo, TzError>(spec_ttinfo(bytes@, 0)),
            bytes@.len() != 6 ==> r == Err::<TTInfo, TzError>(TzError::FormatError),
    {
        if bytes.len() != 6 {
            return Err(TzError::FormatError);
        }
        let tt_utoff = crate::wire::read_be_i32(bytes, 0);
        Ok(TTInfo { tt_utoff, tt_isdst: bytes[4] == 1, tt_desigidx: bytes[5] })
    }
}

/// The decoded body sections, in wire order.
#[derive(Debug, PartialEq, Eq)]
pub struct TzFileBody {
    /// Transition times, big-endian signed, in file order.
    pub tt_trans: Vec<i32>,
    /// For each transition, the index of its local-time-type record.
    pub ttinfo_indices: Vec<u8>,
    /// The local-time-type records.
    pub ttinfo_entries: Vec<TTInfo>,
    /// The raw designation blob: a concatenation of NUL-terminated names,
    /// byte-exact as on the wire.
    pub tz_designations: Vec<u8>,
    /// Leap-second pairs (occurrence time, cumulative correction).
    pub leap_pairs: Vec<(i32, i32)>,
    /// Standard/wall indicators; byte value `1` decodes as true.
    pub std_indicators: Vec<bool>,
    /// UT/local indicators; byte value `1` decodes as true.
    pub ut_indicators: Vec<bool>,
}

/// Mathematical model of a decoded body.
#[verifier::ext_equal]
pub ghost struct BodyModel {
    pub tt_trans: Seq<i32>,
    pub ttinfo_indices: Seq<u8>,
    pub ttinfo_entries: Seq<TTInfo>,
    pub tz_designations: Seq<u8>,
    pub leap_pairs: Seq<(i32, i32)>,
    pub std_indicators: Seq<bool>,
    pub ut_indicators: Seq<bool>,
}

impl View for TzFileBody {
    type V = BodyModel;

    open spec fn view(&self) -> BodyModel {
        BodyModel {
            tt_trans: self.tt_trans@,
            ttinfo_indices: self.ttinfo_indices@,
            ttinfo_entries: self.ttinfo_entries@,
            tz_designations: self.tz_designations@,
            leap_pairs: self.leap_pairs@,
            std_indicators: self.std_indicators@,
            ut_indicators: self.ut_indicators@,
        }
    }
}

impl BodyModel {
    /// Every transition has both a time and a type index: the two leading
    /// sections have the same length.  Decoding always establishes this.
    pub open spec fn wf(self) -> bool {
        self.tt_trans.len() == self.ttinfo_indices.len()
    }
}

/// How many elements a section has, per the header counts.
pub open spec fn spec_section_count(h: HeaderModel, s: Section) -> int {
    match s {
        Section::TransitionTimes => h.tzh_timecnt as int,
        Section::TransitionTypeIndices => h.tzh_timecnt as int,
        Section::LocalTimeTypes => h.tzh_typecnt as int,
        Section::Designations => h.tzh_charcnt as int,
        Section::LeapSecondPairs => h.tzh_leapcnt as int,
        Section::StandardWallIndicators => h.tzh_ttisstdcnt as int,
        Section::UtLocalIndicators => h.tzh_ttisutcnt as int,
    }
}

/// Bytes per element of a section; a wire-format constant.
pub open spec fn spec_section_width(s: Section) -> int {
    match s {
        Section::TransitionTimes => 4,
        Section::TransitionTypeIndices => 1,
        Section::LocalTimeTypes => 6,
        Section::Designations => 1,
        Section::LeapSecondPairs => 8,
        Section::StandardWallIndicators => 1,
        Section::UtLocalIndicators => 1,
    }
}

/// Byte offset, within the body, at which a section begins: the sum of the
/// byte lengths of all sections before it.
pub open spec fn spec_section_start(h: HeaderModel, s: Section) -> int {
    match s {
        Section::TransitionTimes => 0,
        Section::TransitionTypeIndices => h.tzh_timecnt * 4,
        Section::LocalTimeTypes => h.tzh_timecnt * 5,
        Section::Designations => h.tzh_timecnt * 5 + h.tzh_typecnt * 6,
        Section::LeapSecondPairs => h.tzh_timecnt * 5 + h.tzh_typecnt * 6 + h.tzh_charcnt,
        Section::StandardWallIndicators => h.tzh_timecnt * 5 + h.tzh_typecnt * 6 + h.tzh_charcnt
            + h.tzh_leapcnt * 8,
        Section::UtLocalIndicators => h.tzh_timecnt * 5 + h.tzh_typecnt * 6 + h.tzh_charcnt
            + h.tzh_leapcnt * 8 + h.tzh_ttisstdcnt,
    }
}

/// Byte offset just past a section.
pub open spec fn spec_section_end(h: HeaderModel, s: Section) -> int {
    spec_section_start(h, s) + spec_section_count(h, s) * spec_section_width(s)
}

/// The first section, in wire order, whose end lies beyond the available
/// bytes; `None` when every section fits.
pub open spec fn spec_first_short_section(h: HeaderModel, len: int) -> Option<Section> {
    if spec_section_end(h, Section::TransitionTimes) > len {
        Some(Section::TransitionTimes)
    } else if spec_section_end(h, Section::TransitionTypeIndices) > len {
        Some(Section::TransitionTypeIndices)
    } else if spec_section_end(h, Section::LocalTimeTypes) > len {
        Some(Section::LocalTimeTypes)
    } else if spec_section_end(h, Section::Designations) > len {
        Some(Section::Designations)
    } else if spec_section_end(h, Section::LeapSecondPairs) > len {
        Some(Section::LeapSecondPairs)
    } else if spec_section_end(h, Section::StandardWallIndicators) > len {
        Some(Section::StandardWallIndicators)
    } else if spec_section_end(h, Section::UtLocalIndicators) > len {
        Some(Section::UtLocalIndicators)
    } else {
        None
    }
}

/// What body decoding yields on the bytes that follow the header: the first
/// short section is reported with its shortfall, and otherwise each section
/// is decoded element-wise at its fixed offset.
pub open spec fn spec_body_decode(bytes: Seq<u8>, h: HeaderModel) -> Result<BodyModel, TzError>
    recommends
        h.wf(),
{
    match spec_first_short_section(h, bytes.len() as int) {
        Some(s) => Err(
            TzError::TruncatedBody(s, (spec_section_end(h, s) - bytes.len()) as u64),
        ),
        None => Ok(
            BodyModel {
                tt_trans: Seq::new(
                    h.tzh_timecnt as nat,
                    |k: int| spec_be_i32(bytes, 4 * k),
                ),
                ttinfo_indices: bytes.subrange(
                    spec_section_start(h, Section::TransitionTypeIndices),
                    spec_section_end(h, Section::TransitionTypeIndices),
                ),
                ttinfo_entries: Seq::new(
                    h.tzh_typecnt as nat,
                    |k: int| spec_ttinfo(bytes, spec_section_start(h, Section::LocalTimeTypes) + 6 * k),
                ),
                tz_designations: bytes.subrange(
                    spec_section_start(h, Section::Designations),
                    spec_section_end(h, Section::Designations),
                ),
                leap_pairs: Seq::new(
                    h.tzh_leapcnt as nat,
                    |k: int| (
                        spec_be_i32(bytes, spec_section_start(h, Section::LeapSecondPairs) + 8 * k),
                        spec_be_i32(
                            bytes,
                            spec_section_start(h, Section::LeapSecondPairs) + 8 * k + 4,
                        ),
                    ),
                ),
                std_indicators: Seq::new(
                    h.tzh_ttisstdcnt as nat,
                    |k: int| bytes[spec_section_start(h, Section::StandardWallIndicators) + k]
                        == 1,
                ),
                ut_indicators: Seq::new(
                    h.tzh_ttisutcnt as nat,
                    |k: int| bytes[spec_section_start(h, Section::UtLocalIndicators) + k] == 1,
                ),
            },
        ),
    }
}

/// Decodes `count` six-byte local-time-type records starting at `start`.
fn read_ttinfo_section(bytes: &[u8], start: usize, count: usize) -> (r: Vec<TTInfo>)
    requires
        start + count * 6 <= bytes@.len(),
    ensures
        r@.len() == count,
        forall|k: int| 0 <= k < count ==> r@[k] == spec_ttinfo(bytes@, start + 6 * k),
{
    let len = bytes.len();
    let mut out: Vec<TTInfo> = Vec::new();
    let mut j: usize = 0;
    while j < count
        invariant
            start + count * 6 <= len,
            len == bytes@.len(),
            j <= count,
            out@.len() == j,
            forall|k: int| 0 <= k < j ==> out@[k] == spec_ttinfo(bytes@, start + 6 * k),
        decreases count - j,
    {
        let base = start + 6 * j;
        let chunk = &bytes[base..base + 6];
        proof {
            assert(chunk@ =~= bytes@.subrange(base as int, base + 6));
        }
        let info = match TTInfo::from_bytes(chunk) {
            Ok(info) => info,
            Err(_) => vstd::pervasive::unreached(),
        };
        proof {
            assert(spec_ttinfo(chunk@, 0) == spec_ttinfo(bytes@, base as int));
        }
        out.push(info);
        j += 1;
    }
    out
}

impl TzFileBody {
    /// Decodes the six body sections from the bytes that follow the header,
    /// using the header's counts to size each section.
    #[verifier::rlimit(60)]
    pub fn from_bytes_and_header(bytes: &[u8], header: &TzFileHeader) -> (r: Result<
        TzFileBody,
        TzError,
    >)
        requires
            header@.wf(),
        ensures
            match r {
                Ok(b) => spec_body_decode(bytes@, header@) == Ok::<BodyModel, TzError>(b@)
                    && b@.wf(),
                Err(e) => spec_body_decode(bytes@, header@) == Err::<BodyModel, TzError>(e),
            },
    {
        let ghost h = header@;
        let len = bytes.len();
        let mut cursor: usize = 0;

        // Transition times.
        let need: u64 = (header.tzh_timecnt as u64) * 4;
        let avail: u64 = (len - cursor) as u64;
        if need > avail {
            return Err(TzError::TruncatedBody(Section::TransitionTimes, need - avail));
        }
        let timecnt = header.tzh_timecnt as usize;
        let tt_trans = read_i32_section(bytes, cursor, timecnt);
        cursor = cursor + timecnt * 4;

        // Transition type indices.
        let need: u64 = header.tzh_timecnt as u64;
        let avail: u64 = (len - cursor) as u64;
        if need > avail {
            return Err(TzError::TruncatedBody(Section::TransitionTypeIndices, need - avail));
        }
        let ttinfo_indices = read_byte_section(bytes, cursor, timecnt);
        cursor = cursor + timecnt;
        proof {
            assert(cursor == spec_section_start(h, Section::LocalTimeTypes));
        }

        // Local-time-type records, six bytes each on the wire.
        let need: u64 = (header.tzh_typecnt as u64) * 6;
        let avail: u64 = (len - cursor) as u64;
        if need > avail {
            return Err(TzError::TruncatedBody(Section::LocalTimeTypes, need - avail));
        }
        let typecnt = header.tzh_typecnt as usize;
        let ttinfo_entries = read_ttinfo_section(bytes, cursor, typecnt);
        cursor = cursor + typecnt * 6;
        proof {
            assert(cursor == spec_section_start(h, Section::Designations));
        }

        // Designation blob, byte-exact.
        let need: u64 = header.tzh_charcnt as u64;
        let avail: u64 = (len - cursor) as u64;
        if need > avail {
            return Err(TzError::TruncatedBody(Section::Designations, need - avail));
        }
        let charcnt = header.tzh_charcnt as usize;
        let tz_designations = read_byte_section(bytes, cursor, charcnt);
        cursor = cursor + charcnt;
        proof {
            assert(cursor == spec_section_start(h, Section::LeapSecondPairs));
        }

        // Leap-second pairs, eight bytes each.
        let need: u64 = (header.tzh_leapcnt as u64) * 8;
        let avail: u64 = (len - cursor) as u64;
        if need > avail {
            return Err(TzError::TruncatedBody(Section::LeapSecondPairs, need - avail));
        }
        let leapcnt = header.tzh_leapcnt as usize;
        let leap_pairs = read_pair_section(bytes, cursor, leapcnt);
        cursor = cursor + leapcnt * 8;
        proof {
            assert(cursor == spec_section_start(h, Section::StandardWallIndicators));
        }

        // Standard/wall indicators.
        let need: u64 = header.tzh_ttisstdcnt as u64;
        let avail: u64 = (len - cursor) as u64;
        if need > avail {
            return Err(TzError::TruncatedBody(Section::StandardWallIndicators, need - avail));
        }
        let stdcnt = header.tzh_ttisstdcnt as usize;
        let std_indicators = read_bool_section(bytes, cursor, stdcnt);
        cursor = cursor + stdcnt;
        proof {
            assert(cursor == spec_section_start(h, Section::UtLocalIndicators));
        }

        // UT/local indicators.
        let need: u64 = header.tzh_ttisutcnt as u64;
        let avail: u64 = (len - cursor) as u64;
        if need > avail {
            return Err(TzError::TruncatedBody(Section::UtLocalIndicators, need - avail));
        }
        let utcnt = header.tzh_ttisutcnt as usize;
        let ut_indicators = read_bool_section(bytes, cursor, utcnt);

        let body = TzFileBody {
            tt_trans,
            ttinfo_indices,
            ttinfo_entries,
            tz_designations,
            leap_pairs,
            std_indicators,
            ut_indicators,
        };
        proof {
            let m = spec_body_decode(bytes@, h)->Ok_0;
            assert(body@.tt_trans =~= m.tt_trans);
            assert(body@.ttinfo_indices =~= m.ttinfo_indices);
            assert(body@.ttinfo_entries =~= m.ttinfo_entries);
            assert(body@.tz_designations =~= m.tz_designations);
            assert(body@.leap_pairs =~= m.leap_pairs);
            assert(body@.std_indicators =~= m.std_indicators);
            assert(body@.ut_indicators =~= m.ut_indicators);
            assert(body@ =~= m);
        }
        Ok(body)
    }
}

impl TzFileBody {
    /// The designation blob decoded as one lossy-UTF-8 string, embedded NUL
    /// bytes preserved; consumers split on NUL to recover individual names.
    pub fn designations_string(&self) -> (r: String)
        ensures
            r@ == crate::text::lossy_of(self@.tz_designations),
            vstd::utf8::valid_utf8(self@.tz_designations) ==> r@ == vstd::utf8::decode_utf8(
                self@.tz_designations,
            ),
    {
        crate::text::lossy_utf8(self.tz_designations.as_slice())
    }
}

/// A declared transition-time section that overruns the remaining buffer is
/// reported as the truncated section, with the number of missing bytes.
pub proof fn lemma_truncated_transitions(bytes: Seq<u8>, h: HeaderModel)
    requires
        h.wf(),
        h.tzh_timecnt * 4 > bytes.len(),
    ensures
        spec_body_decode(bytes, h) == Err::<BodyModel, TzError>(
            TzError::TruncatedBody(
                Section::TransitionTimes,
                (h.tzh_timecnt * 4 - bytes.len()) as u64,
            ),
        ),
{
}

} // verus!
