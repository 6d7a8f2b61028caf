//! The typed model of a WebPlotDigitizer project: the root document, its
//! axes and datasets, the archive manifest, and the error taxonomy.
//!
//! Every coordinate that the source format stores as a floating-point number
//! is carried here as its IEEE-754 bit pattern (a `u64`), so that all logic
//! over coordinates is stated over plain integers.

use vstd::prelude::*;

verus! {

/// A pixel/data-space anchor used to calibrate an axis mapping.
///
/// `px`/`py` are pixel coordinates (bit patterns of the stored numbers);
/// `dx`/`dy` are data-space coordinates kept as strings, since they may
/// encode non-numeric axis labels; `dz` is an optional third coordinate
/// used by bar/polar calibration schemes.
#[derive(Debug, Clone, PartialEq)]
pub struct CalibrationPoint {
    pub px: u64,
    pub py: u64,
    pub dx: String,
    pub dy: String,
    pub dz: Option<String>,
}

/// One axis definition, carried through unmodified from the source.
#[derive(Debug, Clone, PartialEq)]
pub struct Axes {
    pub name: String,
    pub type_: String,
    pub is_log_x: bool,
    pub is_log_y: bool,
    pub calibration_points: Vec<CalibrationPoint>,
}

/// A digitized mark: its pixel position (`x`, `y`) and the resolved
/// data-space coordinate pair (`value`), all as IEEE-754 bit patterns.
#[derive(Debug, Clone, Copy, PartialEq)]
pub struct DataPoint {
    pub x: u64,
    pub y: u64,
    pub value: (u64, u64),
}

impl DataPoint {
    /// The data-space x coordinate (first component of `value`), as distinct
    /// from the pixel-space field `x`.
    pub fn x(&self) -> (r: u64)
        ensures
            r == self.value.0,
    {
        self.value.0
    }

    /// The data-space y coordinate (second component of `value`), as distinct
    /// from the pixel-space field `y`.
    pub fn y(&self) -> (r: u64)
        ensures
            r == self.value.1,
    {
        self.value.1
    }
}

/// A named collection of digitized points; point order is whatever the
/// producing tool stored.
#[derive(Debug, Clone, PartialEq)]
pub struct DataSet {
    pub name: String,
    pub metadata_keys: Vec<String>,
    pub data: Vec<DataPoint>,
}

/// The root project document.
#[derive(Debug, PartialEq)]
pub struct Wpd {
    pub version: (u32, u32),
    pub axes: Vec<Axes>,
    pub datasets: Vec<DataSet>,
}

/// The archive manifest: names the member that holds the real document.
#[derive(Debug, Clone, PartialEq)]
pub struct Info {
    pub version: Vec<u64>,
    pub json: String,
    pub images: Vec<String>,
}

/// Malformed input: the bytes are not a JSON document, or the document does
/// not match the project schema.
#[derive(Debug, Clone, Copy, PartialEq, Eq, Structural)]
pub enum FormatError {
    MalformedJson,
    SchemaMismatch,
}

/// Archive indirection failed: a required member was not found before the
/// entry stream was exhausted.
#[derive(Debug, Clone, Copy, PartialEq, Eq, Structural)]
pub enum ResolutionError {
    ManifestNotFound,
    PayloadNotFound,
}

/// Everything archive resolution can fail with: an unreadable entry stream,
/// a malformed member, or a missing member.
#[derive(Debug, Clone, Copy, PartialEq, Eq, Structural)]
pub enum WpdError {
    Io,
    Format(FormatError),
    Resolution(ResolutionError),
}

impl Wpd {
    /// The first dataset whose name equals `name`, if any; uniqueness of
    /// dataset names is not enforced by the format.
    pub fn get(&self, name: &str) -> (r: Option<&DataSet>)
        ensures
            (match r {
                Some(d) => spec_get(self.datasets@, name@) == Some(*d),
                None => spec_get(self.datasets@, name@) is None,
            }),
    {
        let key: String = name.to_owned();
        let mut i: usize = 0;
        while i < self.datasets.len()
            invariant
                0 <= i <= self.datasets@.len(),
                key@ == name@,
                forall|k: int| 0 <= k < i ==> (#[trigger] self.datasets@[k]).name@ != name@,
                spec_get(self.datasets@, name@) == spec_get_from(self.datasets@, name@, i as int),
            decreases self.datasets@.len() - i,
        {
            if self.datasets[i].name == key {
                return Some(&self.datasets[i]);
            }
            i = i + 1;
        }
        None
    }
}

/// The mathematical value of a `CalibrationPoint`.
pub ghost struct CalibrationPointView {
    pub px: u64,
    pub py: u64,
    pub dx: Seq<char>,
    pub dy: Seq<char>,
    pub dz: Option<Seq<char>>,
}

/// The mathematical value of an `Axes`.
pub ghost struct AxesView {
    pub name: Seq<char>,
    pub type_: Seq<char>,
    pub is_log_x: bool,
    pub is_log_y: bool,
    pub calibration_points: Seq<CalibrationPointView>,
}

/// The mathematical value of a `DataSet`. Points are plain copyable
/// records, so they stand for themselves.
pub ghost struct DataSetView {
    pub name: Seq<char>,
    pub metadata_keys: Seq<Seq<char>>,
    pub data: Seq<DataPoint>,
}

/// The mathematical value of a `Wpd`.
pub ghost struct WpdView {
    pub version: (u32, u32),
    pub axes: Seq<AxesView>,
    pub datasets: Seq<DataSetView>,
}

/// The mathematical value of an `Info`.
pub ghost struct InfoView {
    pub version: Seq<u64>,
    pub json: Seq<char>,
    pub images: Seq<Seq<char>>,
}

pub open spec fn views_of_strings(s: Seq<String>) -> Seq<Seq<char>> {
    s.map_values(|x: String| x@)
}

pub open spec fn views_of_cal_points(s: Seq<CalibrationPoint>) -> Seq<CalibrationPointView> {
    s.map_values(|c: CalibrationPoint| c@)
}

pub open spec fn views_of_axes(s: Seq<Axes>) -> Seq<AxesView> {
    s.map_values(|a: Axes| a@)
}

pub open spec fn views_of_datasets(s: Seq<DataSet>) -> Seq<DataSetView> {
    s.map_values(|d: DataSet| d@)
}

impl View for CalibrationPoint {
    type V = CalibrationPointView;

    open spec fn view(&self) -> CalibrationPointView {
        CalibrationPointView {
            px: self.px,
            py: self.py,
            dx: self.dx@,
            dy: self.dy@,
            dz: match self.dz {
                Some(s) => Some(s@),
                None => None,
            },
        }
    }
}

impl View for Axes {
    type V = AxesView;

    open spec fn view(&self) -> AxesView {
        AxesView {
            name: self.name@,
            type_: self.type_@,
            is_log_x: self.is_log_x,
            is_log_y: self.is_log_y,
            calibration_points: views_of_cal_points(self.calibration_points@),
        }
    }
}

impl View for DataSet {
    type V = DataSetView;

    open spec fn view(&self) -> DataSetView {
        DataSetView {
            name: self.name@,
            metadata_keys: views_of_strings(self.metadata_keys@),
            data: self.data@,
        }
    }
}

impl View for Wpd {
    type V = WpdView;

    open spec fn view(&self) -> WpdView {
        WpdView {
            version: self.version,
            axes: views_of_axes(self.axes@),
            datasets: views_of_datasets(self.datasets@),
        }
    }
}

impl View for Info {
    type V = InfoView;

    open spec fn view(&self) -> InfoView {
        InfoView { version: self.version@, json: self.json@, images: views_of_strings(self.images@) }
    }
}

/// The first dataset in `ds` (from index `i` on) whose name reads `name`.
pub open spec fn spec_get_from(ds: Seq<DataSet>, name: Seq<char>, i: int) -> Option<DataSet>
    decreases ds.len() - i,
{
    if i < 0 || i >= ds.len() {
        None
    } else if ds[i].name@ == name {
        Some(ds[i])
    } else {
        spec_get_from(ds, name, i + 1)
    }
}

/// The first dataset in `ds` whose name reads `name`.
pub open spec fn spec_get(ds: Seq<DataSet>, name: Seq<char>) -> Option<DataSet>
{
    spec_get_from(ds, name, 0)
}

} // verus!
