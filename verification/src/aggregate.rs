//! Grouping decoded transitions into one record per designation name.
//!
//! The aggregation pass walks the transition-type indices in file order,
//! excluding the final sentinel entry, resolves each index to its
//! local-time-type record and that record's NUL-terminated name in the
//! designation blob, and appends the transition time to the record of that
//! name, creating it on first sight.  The first-seen offset and DST flag of
//! a name win; later transitions under the same name never overwrite them.

use vstd::prelude::*;

use crate::body::{BodyModel, TzFileBody};
use crate::error::TzError;
use crate::text::{lossy_of, lossy_utf8};
use crate::wire::read_byte_section;

verus! {

/// One aggregated record: a designation name with the offset and DST flag
/// first seen under it, and the transition times that resolved to it, in
/// file order.
#[derive(Debug, Hash, PartialEq, Eq)]
pub struct Timezone {
    /// The resolved designation: the blob bytes from the designation index
    /// up to, not including, the next NUL.
    pub name: Vec<u8>,
    /// UTC offset in seconds, from the first record seen under this name.
    pub ut_offset: i32,
    /// DST flag, from the first record seen under this name.
    pub is_daylight_savings: bool,
    /// Transition times that use this name, in file order.
    pub transitions: Vec<i32>,
}

/// Mathematical model of an aggregated record.
#[verifier::ext_equal]
pub ghost struct TzModel {
    pub name: Seq<u8>,
    pub ut_offset: i32,
    pub is_daylight_savings: bool,
    pub transitions: Seq<i32>,
}

impl View for Timezone {
    type V = TzModel;

    open spec fn view(&self) -> TzModel {
        TzModel {
            name: self.name@,
            ut_offset: self.ut_offset,
            is_daylight_savings: self.is_daylight_savings,
            transitions: self.transitions@,
        }
    }
}

impl Timezone {
    /// The record's name decoded as lossy UTF-8.
    pub fn name_string(&self) -> (r: String)
        ensures
            r@ == lossy_of(self@.name),
            vstd::utf8::valid_utf8(self@.name) ==> r@ == vstd::utf8::decode_utf8(self@.name),
    {
        lossy_utf8(self.name.as_slice())
    }
}

/// The models of a sequence of records.
pub open spec fn recs_view(s: Seq<Timezone>) -> Seq<TzModel> {
    s.map_values(|t: Timezone| t@)
}

/// The position of the first NUL byte at or after `from`, or the blob length
/// when no NUL follows.
pub open spec fn spec_first_nul(blob: Seq<u8>, from: int) -> int
    decreases blob.len() - from,
{
    if from < 0 || from >= blob.len() {
        blob.len() as int
    } else if blob[from] == 0 {
        from
    } else {
        spec_first_nul(blob, from + 1)
    }
}

/// The name a designation index resolves to: the blob bytes from the index
/// up to, not including, the next NUL.
pub open spec fn spec_desig_name(blob: Seq<u8>, from: int) -> Seq<u8>
    recommends
        0 <= from <= blob.len(),
{
    blob.subrange(from, spec_first_nul(blob, from))
}

/// The index of the first record carrying `name`, or `-1` when none does.
pub open spec fn spec_find(recs: Seq<TzModel>, name: Seq<u8>) -> int
    decreases recs.len(),
{
    if recs.len() == 0 {
        -1
    } else if recs[0].name == name {
        0
    } else {
        let rest = spec_find(recs.skip(1), name);
        if rest < 0 {
            -1
        } else {
            rest + 1
        }
    }
}

/// One aggregation step at position `i`: resolve the type index and the
/// designation name, then append to the name's record or create it.
pub open spec fn spec_agg_step(b: BodyModel, acc: Seq<TzModel>, i: int) -> Result<
    Seq<TzModel>,
    TzError,
>
    recommends
        0 <= i < b.ttinfo_indices.len(),
        i < b.tt_trans.len(),
{
    let t = b.ttinfo_indices[i] as int;
    if t >= b.ttinfo_entries.len() {
        Err(TzError::IndexOutOfRange)
    } else {
        let info = b.ttinfo_entries[t];
        let d = info.tt_desigidx as int;
        if d >= b.tz_designations.len() {
            Err(TzError::IndexOutOfRange)
        } else if spec_first_nul(b.tz_designations, d) >= b.tz_designations.len() {
            Err(TzError::UnterminatedDesignation)
        } else {
            let name = spec_desig_name(b.tz_designations, d);
            let k = spec_find(acc, name);
            if k >= 0 {
                Ok(
                    acc.update(
                        k,
                        TzModel {
                            name: acc[k].name,
                            ut_offset: acc[k].ut_offset,
                            is_daylight_savings: acc[k].is_daylight_savings,
                            transitions: acc[k].transitions.push(b.tt_trans[i]),
                        },
                    ),
                )
            } else {
                Ok(
                    acc.push(
                        TzModel {
                            name: name,
                            ut_offset: info.tt_utoff,
                            is_daylight_savings: info.tt_isdst,
                            transitions: seq![b.tt_trans[i]],
                        },
                    ),
                )
            }
        }
    }
}

/// The aggregation after processing positions `0 .. n`, folding one step at
/// a time and stopping at the first failure.
pub open spec fn spec_agg_upto(b: BodyModel, n: int) -> Result<Seq<TzModel>, TzError>
    decreases n,
{
    if n <= 0 {
        Ok(Seq::empty())
    } else {
        match spec_agg_upto(b, n - 1) {
            Err(e) => Err(e),
            Ok(acc) => spec_agg_step(b, acc, n - 1),
        }
    }
}

/// The whole aggregation: every position except the final sentinel entry,
/// which indexes the type applying only after all known transitions.
pub open spec fn spec_aggregate(b: BodyModel) -> Result<Seq<TzModel>, TzError> {
    spec_agg_upto(b, b.ttinfo_indices.len() - 1)
}

/// Once a step fails, the failure stands for every longer prefix.
proof fn lemma_agg_upto_err(b: BodyModel, n: int, m: int)
    requires
        n <= m,
        spec_agg_upto(b, n) is Err,
    ensures
        spec_agg_upto(b, m) == spec_agg_upto(b, n),
    decreases m - n,
{
    if m > n {
        lemma_agg_upto_err(b, n, m - 1);
    }
}

/// A record index returned by `spec_find` is the first carrying the name.
proof fn lemma_spec_find_is(recs: Seq<TzModel>, name: Seq<u8>, k: int)
    requires
        0 <= k < recs.len(),
        recs[k].name == name,
        forall|j: int| 0 <= j < k ==> recs[j].name != name,
    ensures
        spec_find(recs, name) == k,
    decreases recs.len(),
{
    if recs[0].name != name {
        assert(k > 0);
        let rest = recs.skip(1);
        assert(forall|j: int| 0 <= j < k - 1 ==> rest[j] == recs[j + 1]);
        lemma_spec_find_is(rest, name, k - 1);
    }
}

/// When no record carries the name, `spec_find` reports `-1`.
proof fn lemma_spec_find_none(recs: Seq<TzModel>, name: Seq<u8>)
    requires
        forall|j: int| 0 <= j < recs.len() ==> recs[j].name != name,
    ensures
        spec_find(recs, name) == -1,
    decreases recs.len(),
{
    if recs.len() > 0 {
        let rest = recs.skip(1);
        assert(forall|j: int| 0 <= j < rest.len() ==> rest[j] == recs[j + 1]);
        lemma_spec_find_none(rest, name);
    }
}

/// A blob holding no NUL at or after `from` has no terminator there.
proof fn lemma_first_nul_not_found(blob: Seq<u8>, from: int)
    requires
        forall|j: int| from <= j < blob.len() ==> blob[j] != 0,
    ensures
        spec_first_nul(blob, from) == blob.len(),
    decreases blob.len() - from,
{
    if 0 <= from < blob.len() {
        lemma_first_nul_not_found(blob, from + 1);
    }
}

/// Compares two byte vectors for equality of their contents.
fn bytes_eq(a: &Vec<u8>, b: &Vec<u8>) -> (r: bool)
    ensures
        r == (a@ == b@),
{
    if a.len() != b.len() {
        return false;
    }
    let n = a.len();
    let mut idx: usize = 0;
    while idx < n
        invariant
            n == a@.len(),
            n == b@.len(),
            idx <= n,
            forall|j: int| 0 <= j < idx ==> a@[j] == b@[j],
        decreases n - idx,
    {
        if a[idx] != b[idx] {
            return false;
        }
        idx += 1;
    }
    proof {
        assert(a@ =~= b@);
    }
    true
}

/// Finds the first record whose name equals `name`.
fn find_by_name(recs: &Vec<Timezone>, name: &Vec<u8>) -> (r: Option<usize>)
    ensures
        match r {
            Some(k) => k < recs@.len() && spec_find(recs_view(recs@), name@) == k,
            None => spec_find(recs_view(recs@), name@) == -1,
        },
{
    let n = recs.len();
    let mut k: usize = 0;
    while k < n
        invariant
            n == recs@.len(),
            k <= n,
            forall|j: int| 0 <= j < k ==> recs_view(recs@)[j].name != name@,
        decreases n - k,
    {
        if bytes_eq(&recs[k].name, name) {
            proof {
                lemma_spec_find_is(recs_view(recs@), name@, k as int);
            }
            return Some(k);
        }
        k += 1;
    }
    proof {
        lemma_spec_find_none(recs_view(recs@), name@);
    }
    None
}

impl TzFileBody {
    /// Groups the decoded transitions into one record per designation name,
    /// in order of first appearance, walking every transition except the
    /// final sentinel entry.
    pub fn aggregate(&self) -> (r: Result<Vec<Timezone>, TzError>)
        requires
            self@.wf(),
        ensures
            match r {
                Ok(v) => spec_aggregate(self@) == Ok::<Seq<TzModel>, TzError>(recs_view(v@)),
                Err(e) => spec_aggregate(self@) == Err::<Seq<TzModel>, TzError>(e),
            },
    {
        let n = self.ttinfo_indices.len();
        let mut out: Vec<Timezone> = Vec::new();
        if n == 0 {
            proof {
                assert(recs_view(out@) =~= Seq::<TzModel>::empty());
            }
            return Ok(out);
        }
        proof {
            assert(recs_view(out@) =~= Seq::<TzModel>::empty());
        }
        let mut i: usize = 0;
        while i < n - 1
            invariant
                self@.wf(),
                n == self@.ttinfo_indices.len(),
                1 <= n,
                i <= n - 1,
                spec_agg_upto(self@, i as int) == Ok::<Seq<TzModel>, TzError>(recs_view(out@)),
            decreases n - 1 - i,
        {
            let ghost acc = recs_view(out@);
            let t = self.ttinfo_indices[i];
            let trans = self.tt_trans[i];
            if (t as usize) >= self.ttinfo_entries.len() {
                proof {
                    lemma_agg_upto_err(self@, i + 1, n - 1);
                }
                return Err(TzError::IndexOutOfRange);
            }
            let info = self.ttinfo_entries[t as usize];
            let d = info.tt_desigidx as usize;
            let blob_len = self.tz_designations.len();
            if d >= blob_len {
                proof {
                    lemma_agg_upto_err(self@, i + 1, n - 1);
                }
                return Err(TzError::IndexOutOfRange);
            }
            let mut j: usize = d;
            while j < blob_len && self.tz_designations[j] != 0
                invariant
                    d <= j <= blob_len,
                    blob_len == self@.tz_designations.len(),
                    spec_first_nul(self@.tz_designations, d as int) == spec_first_nul(
                        self@.tz_designations,
                        j as int,
                    ),
                decreases blob_len - j,
            {
                j += 1;
            }
            if j == blob_len {
                proof {
                    lemma_agg_upto_err(self@, i + 1, n - 1);
                }
                return Err(TzError::UnterminatedDesignation);
            }
            proof {
                assert(spec_first_nul(self@.tz_designations, d as int) == j);
            }
            let name = read_byte_section(self.tz_designations.as_slice(), d, j - d);
            proof {
                assert(name@ =~= spec_desig_name(self@.tz_designations, d as int));
            }
            match find_by_name(&out, &name) {
                Some(k) => {
                    let mut new_trans = vstd::slice::slice_to_vec(out[k].transitions.as_slice());
                    new_trans.push(trans);
                    let new_rec = Timezone {
                        name: vstd::slice::slice_to_vec(out[k].name.as_slice()),
                        ut_offset: out[k].ut_offset,
                        is_daylight_savings: out[k].is_daylight_savings,
                        transitions: new_trans,
                    };
                    out.set(k, new_rec);
                    proof {
                        let stepped = spec_agg_step(self@, acc, i as int)->Ok_0;
                        assert(recs_view(out@) =~~= stepped);
                    }
                },
                None => {
                    out.push(
                        Timezone {
                            name,
                            ut_offset: info.tt_utoff,
                            is_daylight_savings: info.tt_isdst,
                            transitions: vec![trans],
                        },
                    );
                    proof {
                        let stepped = spec_agg_step(self@, acc, i as int)->Ok_0;
                        assert(recs_view(out@) =~~= stepped);
                    }
                },
            }
            i += 1;
        }
        Ok(out)
    }
}

/// A type index pointing at or past the end of the local-time-type records
/// fails the step with the out-of-range error.
pub proof fn lemma_type_index_out_of_range(b: BodyModel, acc: Seq<TzModel>, i: int)
    requires
        0 <= i < b.ttinfo_indices.len(),
        (b.ttinfo_indices[i] as int) >= b.ttinfo_entries.len(),
    ensures
        spec_agg_step(b, acc, i) == Err::<Seq<TzModel>, TzError>(TzError::IndexOutOfRange),
{
}

/// A designation index equal to the blob length — one past the blob — fails
/// the step with the out-of-range error.
pub proof fn lemma_designation_index_out_of_range(b: BodyModel, acc: Seq<TzModel>, i: int)
    requires
        0 <= i < b.ttinfo_indices.len(),
        (b.ttinfo_indices[i] as int) < b.ttinfo_entries.len(),
        (b.ttinfo_entries[b.ttinfo_indices[i] as int].tt_desigidx as int) == b.tz_designations.len(),
    ensures
        spec_agg_step(b, acc, i) == Err::<Seq<TzModel>, TzError>(TzError::IndexOutOfRange),
{
}

/// An in-bounds designation index with no NUL anywhere after it fails the
/// step with the unterminated-designation error.
pub proof fn lemma_unterminated_designation(b: BodyModel, acc: Seq<TzModel>, i: int)
    requires
        0 <= i < b.ttinfo_indices.len(),
        (b.ttinfo_indices[i] as int) < b.ttinfo_entries.len(),
        (b.ttinfo_entries[b.ttinfo_indices[i] as int].tt_desigidx as int) < b.tz_designations.len(),
        forall|j: int|
            (b.ttinfo_entries[b.ttinfo_indices[i] as int].tt_desigidx as int) <= j
                < b.tz_designations.len() ==> b.tz_designations[j] != 0,
    ensures
        spec_agg_step(b, acc, i) == Err::<Seq<TzModel>, TzError>(TzError::UnterminatedDesignation),
{
    lemma_first_nul_not_found(
        b.tz_designations,
        b.ttinfo_entries[b.ttinfo_indices[i] as int].tt_desigidx as int,
    );
}

} // verus!
