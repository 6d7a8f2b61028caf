//! Dataset conversion: each dataset's points are projected to their resolved
//! data-space (x, y) pair and sorted ascending under a lexicographic key,
//! x first and y as the tie-break.
//!
//! A coordinate is the bit pattern of an IEEE-754 double. `spec_key` ranks
//! bit patterns in the standard total order over the encoded values:
//! negative values ascend towards zero, a negative zero sits just below a
//! positive one, positives ascend, and the patterns above the largest finite
//! encodings (infinities and NaNs) rank highest.

use vstd::prelude::*;
use vstd::relations::sorted_by;
use vstd::relations::total_ordering;
use vstd::seq_lib::lemma_sorted_unique;
use vstd::seq_lib::to_multiset_build;
use vstd::seq_lib::to_multiset_insert;

use crate::model::DataPoint;
use crate::model::DataSet;
use crate::model::Wpd;

verus! {

/// One sample: a resolved data-space coordinate pair, as bit patterns.
#[derive(Debug, Clone, Copy, PartialEq, Eq, Structural)]
pub struct Sample {
    pub x: u64,
    pub y: u64,
}

/// An ordered, named sequence of samples with descriptive axis labels.
/// When the source format offers no authoritative labels, each label is the
/// placeholder "-".
#[derive(Debug, Clone, PartialEq)]
pub struct DataVector {
    pub name: String,
    pub x_name: String,
    pub x_units: String,
    pub y_name: String,
    pub y_units: String,
    pub values: Vec<Sample>,
}

/// The rank of an IEEE-754 bit pattern in the total order over encoded
/// values: patterns with the sign bit clear keep their order above all
/// patterns with the sign bit set, which are reversed.
pub open spec fn spec_key(bits: u64) -> u64 {
    if bits < 0x8000_0000_0000_0000 {
        (bits + 0x8000_0000_0000_0000) as u64
    } else {
        (0xFFFF_FFFF_FFFF_FFFF - bits) as u64
    }
}

/// Lexicographic sample order: x rank first, y rank as the tie-break.
pub open spec fn sample_le(a: Sample, b: Sample) -> bool {
    ||| spec_key(a.x) < spec_key(b.x)
    ||| (spec_key(a.x) == spec_key(b.x) && spec_key(a.y) <= spec_key(b.y))
}

/// The sample order as a relation value.
pub open spec fn fn_sample_le() -> spec_fn(Sample, Sample) -> bool {
    |a: Sample, b: Sample| sample_le(a, b)
}

/// Equal ranks come only from equal bit patterns.
pub proof fn lemma_key_injective(a: u64, b: u64)
    ensures
        spec_key(a) == spec_key(b) ==> a == b,
{
}

/// The sample order is a total order, so a sorted arrangement of any
/// multiset of samples is unique.
pub proof fn lemma_sample_le_total_ordering()
    ensures
        total_ordering(fn_sample_le()),
{
    let le = fn_sample_le();
    assert forall|a: Sample, b: Sample| #[trigger] le(a, b) && le(b, a) implies a == b by {
        lemma_key_injective(a.x, b.x);
        lemma_key_injective(a.y, b.y);
    }
    assert forall|a: Sample, b: Sample| !(#[trigger] le(a, b)) implies le(b, a) by {}
}

/// The rank of a bit pattern, executable.
fn key(bits: u64) -> (r: u64)
    ensures
        r == spec_key(bits),
{
    if bits < 0x8000_0000_0000_0000 {
        bits + 0x8000_0000_0000_0000
    } else {
        0xFFFF_FFFF_FFFF_FFFF - bits
    }
}

/// The sample order, executable.
pub fn sample_le_exec(a: &Sample, b: &Sample) -> (r: bool)
    ensures
        r == sample_le(*a, *b),
{
    let ka = key(a.x);
    let kb = key(b.x);
    if ka < kb {
        true
    } else if ka == kb {
        key(a.y) <= key(b.y)
    } else {
        false
    }
}

/// The projection of a point sequence to its data-space samples.
pub open spec fn spec_samples_of(data: Seq<DataPoint>) -> Seq<Sample> {
    data.map_values(|dp: DataPoint| Sample { x: dp.value.0, y: dp.value.1 })
}

/// The unique sorted arrangement of a sample sequence.
pub open spec fn spec_sorted_samples(s: Seq<Sample>) -> Seq<Sample> {
    s.sort_by(fn_sample_le())
}

/// Sorting a sequence that is already sorted yields the same sequence.
pub proof fn lemma_sort_idempotent(s: Seq<Sample>)
    requires
        sorted_by(s, fn_sample_le()),
    ensures
        spec_sorted_samples(s) == s,
{
    lemma_sample_le_total_ordering();
    s.lemma_sort_by_ensures(fn_sample_le());
    lemma_sorted_unique(s.sort_by(fn_sample_le()), s, fn_sample_le());
}

/// Inserts a sample into a sorted vector, keeping it sorted.
fn insert_sorted(v: Vec<Sample>, s: Sample) -> (r: Vec<Sample>)
    requires
        sorted_by(v@, fn_sample_le()),
    ensures
        sorted_by(r@, fn_sample_le()),
        r@.to_multiset() == v@.to_multiset().insert(s),
        r@.len() == v@.len() + 1,
{
    let ghost le = fn_sample_le();
    let ghost orig = v@;
    let mut i: usize = 0;
    while i < v.len() && !sample_le_exec(&s, &v[i])
        invariant
            0 <= i <= orig.len(),
            orig == v@,
            forall|k: int| 0 <= k < i ==> !sample_le(s, #[trigger] orig[k]),
        decreases orig.len() - i,
    {
        i = i + 1;
    }
    let ghost iv = i as int;
    proof {
        assert(iv == orig.len() || sample_le(s, orig[iv]));
    }
    let mut r = v;
    r.insert(i, s);
    proof {
        broadcast use to_multiset_insert;

        lemma_sample_le_total_ordering();
        orig.insert_ensures(iv, s);
        assert(r@ == orig.insert(iv, s));
        assert(r@.to_multiset() == orig.to_multiset().insert(s));
        assert forall|p: int, q: int| 0 <= p < q < r@.len() implies le(r@[p], r@[q]) by {
            if q < iv {
                assert(le(orig[p], orig[q]));
            } else if q == iv {
                // everything left of the insertion point refuses s from the
                // left, so it stands at or below s
                assert(le(orig[p], s));
            } else if p == iv {
                // the insertion point is the first place where s fits
                assert(le(s, orig[iv]));
                if iv < q - 1 {
                    assert(le(orig[iv], orig[q - 1]));
                }
                assert(le(s, orig[q - 1]));
            } else if p < iv {
                assert(le(orig[p], orig[q - 1]));
            } else {
                assert(le(orig[p - 1], orig[q - 1]));
            }
        }
    }
    r
}

impl DataSet {
    /// Projects every point to its data-space sample and sorts the samples
    /// ascending under the lexicographic sample order. The result keeps the
    /// dataset's name and carries placeholder axis labels; a dataset of no
    /// points yields a vector of no samples.
    pub fn to_data_vec(&self) -> (r: DataVector)
        ensures
            r.name@ == self.name@,
            r.x_name@ == "-"@,
            r.x_units@ == "-"@,
            r.y_name@ == "-"@,
            r.y_units@ == "-"@,
            r.values@ == spec_sorted_samples(spec_samples_of(self.data@)),
            r.values@.len() == self.data@.len(),
            sorted_by(r.values@, fn_sample_le()),
            r.values@.to_multiset() == spec_samples_of(self.data@).to_multiset(),
    {
        let mut values: Vec<Sample> = Vec::new();
        proof {
            assert(values@ =~= spec_samples_of(self.data@.take(0)));
        }
        let mut i: usize = 0;
        while i < self.data.len()
            invariant
                0 <= i <= self.data@.len(),
                sorted_by(values@, fn_sample_le()),
                values@.to_multiset() == spec_samples_of(self.data@.take(i as int)).to_multiset(),
                values@.len() == i,
            decreases self.data@.len() - i,
        {
            let dp = &self.data[i];
            let s = Sample { x: dp.x(), y: dp.y() };
            proof {
                broadcast use to_multiset_build;

                assert(spec_samples_of(self.data@.take(i + 1)) =~= spec_samples_of(
                    self.data@.take(i as int),
                ).push(s));
                assert(spec_samples_of(self.data@.take(i + 1)).to_multiset() == spec_samples_of(
                    self.data@.take(i as int),
                ).to_multiset().insert(s));
            }
            values = insert_sorted(values, s);
            i = i + 1;
        }
        proof {
            assert(self.data@.take(self.data@.len() as int) =~= self.data@);
            let smp = spec_samples_of(self.data@);
            lemma_sample_le_total_ordering();
            smp.lemma_sort_by_ensures(fn_sample_le());
            lemma_sorted_unique(values@, smp.sort_by(fn_sample_le()), fn_sample_le());
        }
        DataVector {
            name: self.name.clone(),
            x_name: dash(),
            x_units: dash(),
            y_name: dash(),
            y_units: dash(),
            values,
        }
    }
}

/// The placeholder label.
fn dash() -> (r: String)
    ensures
        r@ == "-"@,
{
    "-".to_owned()
}

impl Wpd {
    /// One sorted vector per dataset, in dataset order; each vector carries
    /// its dataset's name and exactly as many samples as the dataset has
    /// points.
    pub fn to_data_vecs(&self) -> (r: Vec<DataVector>)
        ensures
            r@.len() == self.datasets@.len(),
            forall|i: int|
                0 <= i < r@.len() ==> {
                    &&& (#[trigger] r@[i]).name@ == self.datasets@[i].name@
                    &&& r@[i].values@ == spec_sorted_samples(
                        spec_samples_of(self.datasets@[i].data@),
                    )
                    &&& r@[i].values@.len() == self.datasets@[i].data@.len()
                },
    {
        let mut out: Vec<DataVector> = Vec::new();
        let mut i: usize = 0;
        while i < self.datasets.len()
            invariant
                0 <= i <= self.datasets@.len(),
                out@.len() == i,
                forall|k: int|
                    0 <= k < i ==> {
                        &&& (#[trigger] out@[k]).name@ == self.datasets@[k].name@
                        &&& out@[k].values@ == spec_sorted_samples(
                            spec_samples_of(self.datasets@[k].data@),
                        )
                        &&& out@[k].values@.len() == self.datasets@[k].data@.len()
                    },
            decreases self.datasets@.len() - i,
        {
            let dv = self.datasets[i].to_data_vec();
            out.push(dv);
            i = i + 1;
        }
        out
    }
}

} // verus!
