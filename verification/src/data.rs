//! Decoded statistics values.
//!
//! A directory entry decodes to a name, a value and a flag saying whether
//! the entry was reached through a symlink.  Values are scalars (kept as
//! the raw 64-bit word of the stored IEEE-754 double, so that every bit,
//! NaN payloads included, survives decoding), two-dimensional counter
//! tables, or name vectors.

use vstd::prelude::*;

verus! {

/// Combined counter: packets and bytes.
#[allow(non_camel_case_types)]
#[derive(Debug, Default, Copy, Clone, PartialEq, Eq, Structural)]
pub struct vlib_counter_t {
    pub packets: u64,
    pub bytes: u64,
}

/// A decoded two-dimensional table: one inner vector per producer worker,
/// each holding the counters of that worker.  Row lengths are independent.
#[derive(Debug, Clone)]
pub struct DataVecVec<T> {
    pub vector: Vec<Vec<T>>,
}

/// The rows of a table of vectors, as a sequence of sequences.
pub open spec fn rows_view<T>(v: Seq<Vec<T>>) -> Seq<Seq<T>> {
    Seq::new(v.len(), |k: int| v[k]@)
}

impl<T> DataVecVec<T> {
    /// Number of rows (producer workers).
    pub fn len(&self) -> (n: usize)
        ensures
            n == self.vector@.len(),
    {
        self.vector.len()
    }

    /// The counters of row `index`.
    pub fn row(&self, index: usize) -> (r: &Vec<T>)
        requires
            index < self.vector@.len(),
        ensures
            r@ == rows_view(self.vector@)[index as int],
    {
        &self.vector[index]
    }
}

/// A decoded name vector: owned strings.
#[derive(Debug, Clone)]
pub struct NameVec {
    pub names: Vec<String>,
}

/// The character sequences of a vector of strings.
pub open spec fn names_view(v: Seq<String>) -> Seq<Seq<char>> {
    Seq::new(v.len(), |k: int| v[k]@)
}

impl NameVec {
    pub fn len(&self) -> (n: usize)
        ensures
            n == self.names@.len(),
    {
        self.names.len()
    }

    /// The string at `index`.
    pub fn name_at(&self, index: usize) -> (r: &String)
        requires
            index < self.names@.len(),
        ensures
            r@ == names_view(self.names@)[index as int],
    {
        &self.names[index]
    }
}

/// A decoded entry value.
#[derive(Debug, Clone)]
pub enum StatValue {
    Illegal,
    /// The raw 64 bits of the stored IEEE-754 double.
    ScalarIndex(u64),
    CounterVectorSimple(DataVecVec<u64>),
    CounterVectorCombined(DataVecVec<vlib_counter_t>),
    NameVector(NameVec),
    Empty,
    Symlink,
}

/// Mathematical model of a decoded value.
pub enum StatValueModel {
    Illegal,
    Scalar(u64),
    Simple(Seq<Seq<u64>>),
    Combined(Seq<Seq<vlib_counter_t>>),
    Names(Seq<Seq<char>>),
    Empty,
    Symlink,
}

impl View for StatValue {
    type V = StatValueModel;

    open spec fn view(&self) -> StatValueModel {
        match self {
            StatValue::Illegal => StatValueModel::Illegal,
            StatValue::ScalarIndex(bits) => StatValueModel::Scalar(*bits),
            StatValue::CounterVectorSimple(t) => StatValueModel::Simple(rows_view(t.vector@)),
            StatValue::CounterVectorCombined(t) => StatValueModel::Combined(rows_view(t.vector@)),
            StatValue::NameVector(nv) => StatValueModel::Names(names_view(nv.names@)),
            StatValue::Empty => StatValueModel::Empty,
            StatValue::Symlink => StatValueModel::Symlink,
        }
    }
}

/// Mathematical model of one decoded directory entry.
pub struct StatEntryModel {
    pub name: Seq<char>,
    pub value: StatValueModel,
    pub via_symlink: bool,
}

/// One decoded directory entry: its name, its value, and whether it was
/// reached through a symlink (in which case the name is the symlink's own).
#[derive(Debug, Clone)]
pub struct StatSegmentData {
    pub name: String,
    pub value: StatValue,
    pub via_symlink: bool,
}

impl View for StatSegmentData {
    type V = StatEntryModel;

    open spec fn view(&self) -> StatEntryModel {
        StatEntryModel { name: self.name@, value: self.value@, via_symlink: self.via_symlink }
    }
}

/// The models of a sequence of decoded entries.
pub open spec fn entries_view(v: Seq<StatSegmentData>) -> Seq<StatEntryModel> {
    Seq::new(v.len(), |k: int| v[k]@)
}

/// The result of one `dump`: the decoded entries, in directory order.
#[derive(Debug, Clone)]
pub struct VppStatData {
    pub data: Vec<StatSegmentData>,
}

impl VppStatData {
    pub fn len(&self) -> (n: usize)
        ensures
            n == self.data@.len(),
    {
        self.data.len()
    }

    pub fn is_empty(&self) -> (b: bool)
        ensures
            b == (self.data@.len() == 0),
    {
        self.data.len() == 0
    }

    /// The decoded entry at `index`.
    pub fn get(&self, index: usize) -> (r: &StatSegmentData)
        requires
            index < self.data@.len(),
        ensures
            *r == self.data@[index as int],
    {
        &self.data[index]
    }
}

} // verus!
