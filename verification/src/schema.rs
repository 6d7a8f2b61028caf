//! The project schema: verified mapping from a parsed `Json` tree to the
//! typed model.
//!
//! On-the-wire field names follow the source format: `axesColl`,
//! `datasetColl`, `metadataKeys`, `isLogX`, `isLogY`, `calibrationPoints`,
//! `type`. Unknown fields are ignored; a wrong type, a missing required
//! field, or an out-of-range number is a schema mismatch.

use vstd::prelude::*;

use crate::json::{json_of, parse_json_bytes, obj_get, spec_obj_get, Json};
use crate::model::{
    Axes, AxesView, CalibrationPoint, CalibrationPointView, DataPoint, DataSet, DataSetView,
    FormatError, Info, InfoView, Wpd, WpdView, views_of_axes, views_of_cal_points,
    views_of_datasets, views_of_strings,
};

verus! {

// ---------------------------------------------------------------------------
// Leaf readings of a single `Json` value.
// ---------------------------------------------------------------------------

/// A string value.
pub open spec fn spec_string_of(j: Json) -> Option<Seq<char>> {
    match j {
        Json::Str(s) => Some(s@),
        _ => None,
    }
}

/// A boolean value.
pub open spec fn spec_bool_of(j: Json) -> Option<bool> {
    match j {
        Json::Bool(b) => Some(b),
        _ => None,
    }
}

/// A number, read as the bit pattern of its closest double.
pub open spec fn spec_bits_of(j: Json) -> Option<u64> {
    match j {
        Json::Num { uint: _, bits } => bits,
        _ => None,
    }
}

/// A number, read as a non-negative integer.
pub open spec fn spec_uint_of(j: Json) -> Option<u64> {
    match j {
        Json::Num { uint, bits: _ } => uint,
        _ => None,
    }
}

/// A number, read as a non-negative integer that fits `u32`.
pub open spec fn spec_u32_of(j: Json) -> Option<u32> {
    match spec_uint_of(j) {
        Some(u) => if u <= 0xFFFF_FFFF {
            Some(u as u32)
        } else {
            None
        },
        None => None,
    }
}

/// An array of exactly two numbers, read as a pair of bit patterns.
pub open spec fn spec_pair_of(j: Json) -> Option<(u64, u64)> {
    match j {
        Json::Arr(items) => if items@.len() == 2 {
            match (spec_bits_of(items@[0]), spec_bits_of(items@[1])) {
                (Some(a), Some(b)) => Some((a, b)),
                _ => None,
            }
        } else {
            None
        },
        _ => None,
    }
}

/// An array of exactly two integers fitting `u32`: the document version.
pub open spec fn spec_version_of(j: Json) -> Option<(u32, u32)> {
    match j {
        Json::Arr(items) => if items@.len() == 2 {
            match (spec_u32_of(items@[0]), spec_u32_of(items@[1])) {
                (Some(a), Some(b)) => Some((a, b)),
                _ => None,
            }
        } else {
            None
        },
        _ => None,
    }
}

fn num_bits(j: &Json) -> (r: Option<u64>)
    ensures
        r == spec_bits_of(*j),
{
    match j {
        Json::Num { uint: _, bits } => *bits,
        _ => None,
    }
}

fn num_u32(j: &Json) -> (r: Option<u32>)
    ensures
        r == spec_u32_of(*j),
{
    match j {
        Json::Num { uint: Some(u), bits: _ } => {
            if *u <= 0xFFFF_FFFF {
                Some(*u as u32)
            } else {
                None
            }
        },
        _ => None,
    }
}

fn num_u64(j: &Json) -> (r: Option<u64>)
    ensures
        r == spec_uint_of(*j),
{
    match j {
        Json::Num { uint, bits: _ } => *uint,
        _ => None,
    }
}

fn parse_pair(j: &Json) -> (r: Option<(u64, u64)>)
    ensures
        r == spec_pair_of(*j),
{
    match j {
        Json::Arr(items) => {
            if items.len() != 2 {
                return None;
            }
            match (num_bits(&items[0]), num_bits(&items[1])) {
                (Some(a), Some(b)) => Some((a, b)),
                _ => None,
            }
        },
        _ => None,
    }
}

fn parse_version(j: &Json) -> (r: Option<(u32, u32)>)
    ensures
        r == spec_version_of(*j),
{
    match j {
        Json::Arr(items) => {
            if items.len() != 2 {
                return None;
            }
            match (num_u32(&items[0]), num_u32(&items[1])) {
                (Some(a), Some(b)) => Some((a, b)),
                _ => None,
            }
        },
        _ => None,
    }
}

// ---------------------------------------------------------------------------
// Element-wise reading of an array, failing as a whole when any element
// fails.
// ---------------------------------------------------------------------------

/// Reads every element of `a` with `f`; `None` as soon as one element fails.
pub open spec fn spec_list_of<T>(a: Seq<Json>, f: spec_fn(Json) -> Option<T>) -> Option<Seq<T>>
    decreases a.len(),
{
    if a.len() == 0 {
        Some(Seq::empty())
    } else {
        match spec_list_of(a.drop_last(), f) {
            None => None,
            Some(ps) => match f(a.last()) {
                None => None,
                Some(p) => Some(ps.push(p)),
            },
        }
    }
}

/// Once a prefix fails to read, the whole array fails.
pub proof fn lemma_list_of_extends_none<T>(a: Seq<Json>, f: spec_fn(Json) -> Option<T>, i: int)
    requires
        0 <= i <= a.len(),
        spec_list_of(a.take(i), f) is None,
    ensures
        spec_list_of(a, f) is None,
    decreases a.len() - i,
{
    if i < a.len() {
        assert(a.take(i + 1).drop_last() =~= a.take(i));
        assert(spec_list_of(a.take(i + 1), f) is None);
        lemma_list_of_extends_none(a, f, i + 1);
    } else {
        assert(a.take(i) =~= a);
    }
}

pub open spec fn fn_string() -> spec_fn(Json) -> Option<Seq<char>> {
    |j: Json| spec_string_of(j)
}

pub open spec fn fn_u64() -> spec_fn(Json) -> Option<u64> {
    |j: Json| spec_uint_of(j)
}

pub open spec fn fn_data_point() -> spec_fn(Json) -> Option<DataPoint> {
    |j: Json| spec_data_point_of(j)
}

pub open spec fn fn_cal_point() -> spec_fn(Json) -> Option<CalibrationPointView> {
    |j: Json| spec_cal_point_of(j)
}

pub open spec fn fn_axes() -> spec_fn(Json) -> Option<AxesView> {
    |j: Json| spec_axes_of(j)
}

pub open spec fn fn_dataset() -> spec_fn(Json) -> Option<DataSetView> {
    |j: Json| spec_dataset_of(j)
}

// ---------------------------------------------------------------------------
// Record readings.
// ---------------------------------------------------------------------------

/// A digitized point: pixel coordinates `x`/`y` and the resolved data-space
/// pair `value`.
pub open spec fn spec_data_point_of(j: Json) -> Option<DataPoint> {
    match j {
        Json::Obj(fields) => match (
            spec_obj_get(fields@, "x"@),
            spec_obj_get(fields@, "y"@),
            spec_obj_get(fields@, "value"@),
        ) {
            (Some(jx), Some(jy), Some(jv)) => match (
                spec_bits_of(jx),
                spec_bits_of(jy),
                spec_pair_of(jv),
            ) {
                (Some(x), Some(y), Some(value)) => Some(DataPoint { x, y, value }),
                _ => None,
            },
            _ => None,
        },
        _ => None,
    }
}

/// A calibration point; `dz` may be absent or null.
pub open spec fn spec_cal_point_of(j: Json) -> Option<CalibrationPointView> {
    match j {
        Json::Obj(fields) => match (
            spec_obj_get(fields@, "px"@),
            spec_obj_get(fields@, "py"@),
            spec_obj_get(fields@, "dx"@),
            spec_obj_get(fields@, "dy"@),
        ) {
            (Some(jpx), Some(jpy), Some(jdx), Some(jdy)) => match (
                spec_bits_of(jpx),
                spec_bits_of(jpy),
                spec_string_of(jdx),
                spec_string_of(jdy),
            ) {
                (Some(px), Some(py), Some(dx), Some(dy)) => match spec_obj_get(
                    fields@,
                    "dz"@,
                ) {
                    None => Some(CalibrationPointView { px, py, dx, dy, dz: None }),
                    Some(Json::Null) => Some(CalibrationPointView { px, py, dx, dy, dz: None }),
                    Some(Json::Str(s)) => Some(
                        CalibrationPointView { px, py, dx, dy, dz: Some(s@) },
                    ),
                    Some(_) => None,
                },
                _ => None,
            },
            _ => None,
        },
        _ => None,
    }
}

/// One axis record.
pub open spec fn spec_axes_of(j: Json) -> Option<AxesView> {
    match j {
        Json::Obj(fields) => match (
            spec_obj_get(fields@, "name"@),
            spec_obj_get(fields@, "type"@),
            spec_obj_get(fields@, "isLogX"@),
            spec_obj_get(fields@, "isLogY"@),
            spec_obj_get(fields@, "calibrationPoints"@),
        ) {
            (Some(jn), Some(jt), Some(jx), Some(jy), Some(jc)) => match (
                spec_string_of(jn),
                spec_string_of(jt),
                spec_bool_of(jx),
                spec_bool_of(jy),
                spec_cal_points_field(jc),
            ) {
                (Some(name), Some(type_), Some(is_log_x), Some(is_log_y), Some(cps)) => Some(
                    AxesView { name, type_, is_log_x, is_log_y, calibration_points: cps },
                ),
                _ => None,
            },
            _ => None,
        },
        _ => None,
    }
}

/// One dataset record.
pub open spec fn spec_dataset_of(j: Json) -> Option<DataSetView> {
    match j {
        Json::Obj(fields) => match (
            spec_obj_get(fields@, "name"@),
            spec_obj_get(fields@, "metadataKeys"@),
            spec_obj_get(fields@, "data"@),
        ) {
            (Some(jn), Some(jm), Some(jd)) => match (
                spec_string_of(jn),
                spec_strings_field(jm),
                spec_data_points_field(jd),
            ) {
                (Some(name), Some(mk), Some(data)) => Some(
                    DataSetView { name, metadata_keys: mk, data },
                ),
                _ => None,
            },
            _ => None,
        },
        _ => None,
    }
}

/// An array field of strings.
pub open spec fn spec_strings_field(j: Json) -> Option<Seq<Seq<char>>> {
    match j {
        Json::Arr(items) => spec_list_of(items@, fn_string()),
        _ => None,
    }
}

/// An array field of non-negative integers.
pub open spec fn spec_u64s_field(j: Json) -> Option<Seq<u64>> {
    match j {
        Json::Arr(items) => spec_list_of(items@, fn_u64()),
        _ => None,
    }
}

/// An array field of digitized points.
pub open spec fn spec_data_points_field(j: Json) -> Option<Seq<DataPoint>> {
    match j {
        Json::Arr(items) => spec_list_of(items@, fn_data_point()),
        _ => None,
    }
}

/// An array field of calibration points.
pub open spec fn spec_cal_points_field(j: Json) -> Option<Seq<CalibrationPointView>> {
    match j {
        Json::Arr(items) => spec_list_of(items@, fn_cal_point()),
        _ => None,
    }
}

/// An array field of axis records.
pub open spec fn spec_axes_field(j: Json) -> Option<Seq<AxesView>> {
    match j {
        Json::Arr(items) => spec_list_of(items@, fn_axes()),
        _ => None,
    }
}

/// An array field of dataset records.
pub open spec fn spec_datasets_field(j: Json) -> Option<Seq<DataSetView>> {
    match j {
        Json::Arr(items) => spec_list_of(items@, fn_dataset()),
        _ => None,
    }
}

/// The root document: `version`, `axesColl`, `datasetColl`.
pub open spec fn spec_wpd_of_json(j: Json) -> Option<WpdView> {
    match j {
        Json::Obj(fields) => match (
            spec_obj_get(fields@, "version"@),
            spec_obj_get(fields@, "axesColl"@),
            spec_obj_get(fields@, "datasetColl"@),
        ) {
            (Some(jv), Some(ja), Some(jd)) => match (
                spec_version_of(jv),
                spec_axes_field(ja),
                spec_datasets_field(jd),
            ) {
                (Some(version), Some(axes), Some(datasets)) => Some(
                    WpdView { version, axes, datasets },
                ),
                _ => None,
            },
            _ => None,
        },
        _ => None,
    }
}

/// The archive manifest: `version`, `json`, `images`.
pub open spec fn spec_info_of_json(j: Json) -> Option<InfoView> {
    match j {
        Json::Obj(fields) => match (
            spec_obj_get(fields@, "version"@),
            spec_obj_get(fields@, "json"@),
            spec_obj_get(fields@, "images"@),
        ) {
            (Some(jv), Some(jj), Some(ji)) => match (
                spec_u64s_field(jv),
                spec_string_of(jj),
                spec_strings_field(ji),
            ) {
                (Some(version), Some(json), Some(images)) => Some(
                    InfoView { version, json, images },
                ),
                _ => None,
            },
            _ => None,
        },
        _ => None,
    }
}

/// What parsing a byte sequence as a root document returns: malformed bytes
/// are a `MalformedJson` error, a well-formed document that misses the
/// schema is a `SchemaMismatch`, everything else is the document's value.
pub open spec fn spec_parse_from_json(bytes: Seq<u8>) -> Result<WpdView, FormatError> {
    match json_of(bytes) {
        None => Err(FormatError::MalformedJson),
        Some(j) => match spec_wpd_of_json(j) {
            Some(w) => Ok(w),
            None => Err(FormatError::SchemaMismatch),
        },
    }
}

/// What parsing a byte sequence as a manifest returns.
pub open spec fn spec_parse_info_from_json(bytes: Seq<u8>) -> Result<InfoView, FormatError> {
    match json_of(bytes) {
        None => Err(FormatError::MalformedJson),
        Some(j) => match spec_info_of_json(j) {
            Some(v) => Ok(v),
            None => Err(FormatError::SchemaMismatch),
        },
    }
}

// ---------------------------------------------------------------------------
// Executable parsers.
// ---------------------------------------------------------------------------

fn parse_data_point(j: &Json) -> (r: Option<DataPoint>)
    ensures
        r == spec_data_point_of(*j),
{
    let fields = match j {
        Json::Obj(fs) => fs,
        _ => {
            return None;
        },
    };
    let jx = match obj_get(fields, "x") {
        Some(v) => v,
        None => {
            return None;
        },
    };
    let jy = match obj_get(fields, "y") {
        Some(v) => v,
        None => {
            return None;
        },
    };
    let jv = match obj_get(fields, "value") {
        Some(v) => v,
        None => {
            return None;
        },
    };
    let x = match num_bits(jx) {
        Some(b) => b,
        None => {
            return None;
        },
    };
    let y = match num_bits(jy) {
        Some(b) => b,
        None => {
            return None;
        },
    };
    let value = match parse_pair(jv) {
        Some(p) => p,
        None => {
            return None;
        },
    };
    Some(DataPoint { x, y, value })
}

fn parse_cal_point(j: &Json) -> (r: Option<CalibrationPoint>)
    ensures
        (match r {
            Some(c) => spec_cal_point_of(*j) == Some(c@),
            None => spec_cal_point_of(*j) is None,
        }),
{
    let fields = match j {
        Json::Obj(fs) => fs,
        _ => {
            return None;
        },
    };
    let jpx = match obj_get(fields, "px") {
        Some(v) => v,
        None => {
            return None;
        },
    };
    let jpy = match obj_get(fields, "py") {
        Some(v) => v,
        None => {
            return None;
        },
    };
    let jdx = match obj_get(fields, "dx") {
        Some(v) => v,
        None => {
            return None;
        },
    };
    let jdy = match obj_get(fields, "dy") {
        Some(v) => v,
        None => {
            return None;
        },
    };
    let px = match num_bits(jpx) {
        Some(b) => b,
        None => {
            return None;
        },
    };
    let py = match num_bits(jpy) {
        Some(b) => b,
        None => {
            return None;
        },
    };
    let dx = match jdx {
        Json::Str(s) => s.clone(),
        _ => {
            return None;
        },
    };
    let dy = match jdy {
        Json::Str(s) => s.clone(),
        _ => {
            return None;
        },
    };
    let dz = match obj_get(fields, "dz") {
        None => None,
        Some(v) => match v {
            Json::Null => None,
            Json::Str(s) => Some(s.clone()),
            _ => {
                return None;
            },
        },
    };
    Some(CalibrationPoint { px, py, dx, dy, dz })
}

fn parse_data_points(items: &Vec<Json>) -> (r: Option<Vec<DataPoint>>)
    ensures
        (match r {
            Some(ps) => spec_list_of(items@, fn_data_point()) == Some(ps@),
            None => spec_list_of(items@, fn_data_point()) is None,
        }),
{
    let mut out: Vec<DataPoint> = Vec::new();
    let mut i: usize = 0;
    while i < items.len()
        invariant
            0 <= i <= items@.len(),
            spec_list_of(items@.take(i as int), fn_data_point()) == Some(out@),
        decreases items@.len() - i,
    {
        proof {
            assert(items@.take(i + 1).drop_last() =~= items@.take(i as int));
        }
        match parse_data_point(&items[i]) {
            Some(p) => {
                out.push(p);
            },
            None => {
                proof {
                    assert(spec_list_of(items@.take(i + 1), fn_data_point()) is None);
                    lemma_list_of_extends_none(items@, fn_data_point(), i + 1);
                }
                return None;
            },
        }
        i = i + 1;
    }
    proof {
        assert(items@.take(items@.len() as int) =~= items@);
    }
    Some(out)
}

fn parse_cal_points(items: &Vec<Json>) -> (r: Option<Vec<CalibrationPoint>>)
    ensures
        (match r {
            Some(ps) => spec_list_of(items@, fn_cal_point()) == Some(views_of_cal_points(ps@)),
            None => spec_list_of(items@, fn_cal_point()) is None,
        }),
{
    let mut out: Vec<CalibrationPoint> = Vec::new();
    let mut i: usize = 0;
    while i < items.len()
        invariant
            0 <= i <= items@.len(),
            spec_list_of(items@.take(i as int), fn_cal_point()) == Some(views_of_cal_points(out@)),
        decreases items@.len() - i,
    {
        proof {
            assert(items@.take(i + 1).drop_last() =~= items@.take(i as int));
        }
        match parse_cal_point(&items[i]) {
            Some(p) => {
                proof {
                    assert(views_of_cal_points(out@.push(p)) =~= views_of_cal_points(out@).push(
                        p@,
                    ));
                }
                out.push(p);
            },
            None => {
                proof {
                    assert(spec_list_of(items@.take(i + 1), fn_cal_point()) is None);
                    lemma_list_of_extends_none(items@, fn_cal_point(), i + 1);
                }
                return None;
            },
        }
        i = i + 1;
    }
    proof {
        assert(items@.take(items@.len() as int) =~= items@);
    }
    Some(out)
}

fn parse_strings(items: &Vec<Json>) -> (r: Option<Vec<String>>)
    ensures
        (match r {
            Some(ss) => spec_list_of(items@, fn_string()) == Some(views_of_strings(ss@)),
            None => spec_list_of(items@, fn_string()) is None,
        }),
{
    let mut out: Vec<String> = Vec::new();
    let mut i: usize = 0;
    while i < items.len()
        invariant
            0 <= i <= items@.len(),
            spec_list_of(items@.take(i as int), fn_string()) == Some(views_of_strings(out@)),
        decreases items@.len() - i,
    {
        proof {
            assert(items@.take(i + 1).drop_last() =~= items@.take(i as int));
        }
        match &items[i] {
            Json::Str(s) => {
                let c = s.clone();
                proof {
                    assert(views_of_strings(out@.push(c)) =~= views_of_strings(out@).push(c@));
                }
                out.push(c);
            },
            _ => {
                proof {
                    assert(spec_list_of(items@.take(i + 1), fn_string()) is None);
                    lemma_list_of_extends_none(items@, fn_string(), i + 1);
                }
                return None;
            },
        }
        i = i + 1;
    }
    proof {
        assert(items@.take(items@.len() as int) =~= items@);
    }
    Some(out)
}

fn parse_u64s(items: &Vec<Json>) -> (r: Option<Vec<u64>>)
    ensures
        (match r {
            Some(us) => spec_list_of(items@, fn_u64()) == Some(us@),
            None => spec_list_of(items@, fn_u64()) is None,
        }),
{
    let mut out: Vec<u64> = Vec::new();
    let mut i: usize = 0;
    while i < items.len()
        invariant
            0 <= i <= items@.len(),
            spec_list_of(items@.take(i as int), fn_u64()) == Some(out@),
        decreases items@.len() - i,
    {
        proof {
            assert(items@.take(i + 1).drop_last() =~= items@.take(i as int));
        }
        match num_u64(&items[i]) {
            Some(u) => {
                out.push(u);
            },
            None => {
                proof {
                    assert(spec_list_of(items@.take(i + 1), fn_u64()) is None);
                    lemma_list_of_extends_none(items@, fn_u64(), i + 1);
                }
                return None;
            },
        }
        i = i + 1;
    }
    proof {
        assert(items@.take(items@.len() as int) =~= items@);
    }
    Some(out)
}

fn parse_axes_item(j: &Json) -> (r: Option<Axes>)
    ensures
        (match r {
            Some(a) => spec_axes_of(*j) == Some(a@),
            None => spec_axes_of(*j) is None,
        }),
{
    let fields = match j {
        Json::Obj(fs) => fs,
        _ => {
            return None;
        },
    };
    let jn = match obj_get(fields, "name") {
        Some(v) => v,
        None => {
            return None;
        },
    };
    let jt = match obj_get(fields, "type") {
        Some(v) => v,
        None => {
            return None;
        },
    };
    let jx = match obj_get(fields, "isLogX") {
        Some(v) => v,
        None => {
            return None;
        },
    };
    let jy = match obj_get(fields, "isLogY") {
        Some(v) => v,
        None => {
            return None;
        },
    };
    let jc = match obj_get(fields, "calibrationPoints") {
        Some(v) => v,
        None => {
            return None;
        },
    };
    let name = match jn {
        Json::Str(s) => s.clone(),
        _ => {
            return None;
        },
    };
    let type_ = match jt {
        Json::Str(s) => s.clone(),
        _ => {
            return None;
        },
    };
    let is_log_x = match jx {
        Json::Bool(b) => *b,
        _ => {
            return None;
        },
    };
    let is_log_y = match jy {
        Json::Bool(b) => *b,
        _ => {
            return None;
        },
    };
    let cal_items = match jc {
        Json::Arr(a) => a,
        _ => {
            return None;
        },
    };
    let calibration_points = match parse_cal_points(cal_items) {
        Some(cs) => cs,
        None => {
            return None;
        },
    };
    Some(Axes { name, type_, is_log_x, is_log_y, calibration_points })
}

fn parse_dataset(j: &Json) -> (r: Option<DataSet>)
    ensures
        (match r {
            Some(d) => spec_dataset_of(*j) == Some(d@),
            None => spec_dataset_of(*j) is None,
        }),
{
    let fields = match j {
        Json::Obj(fs) => fs,
        _ => {
            return None;
        },
    };
    let jn = match obj_get(fields, "name") {
        Some(v) => v,
        None => {
            return None;
        },
    };
    let jm = match obj_get(fields, "metadataKeys") {
        Some(v) => v,
        None => {
            return None;
        },
    };
    let jd = match obj_get(fields, "data") {
        Some(v) => v,
        None => {
            return None;
        },
    };
    let name = match jn {
        Json::Str(s) => s.clone(),
        _ => {
            return None;
        },
    };
    let mk_items = match jm {
        Json::Arr(a) => a,
        _ => {
            return None;
        },
    };
    let metadata_keys = match parse_strings(mk_items) {
        Some(ss) => ss,
        None => {
            return None;
        },
    };
    let data_items = match jd {
        Json::Arr(a) => a,
        _ => {
            return None;
        },
    };
    let data = match parse_data_points(data_items) {
        Some(ps) => ps,
        None => {
            return None;
        },
    };
    Some(DataSet { name, metadata_keys, data })
}

fn parse_axes_list(items: &Vec<Json>) -> (r: Option<Vec<Axes>>)
    ensures
        (match r {
            Some(a) => spec_list_of(items@, fn_axes()) == Some(views_of_axes(a@)),
            None => spec_list_of(items@, fn_axes()) is None,
        }),
{
    let mut out: Vec<Axes> = Vec::new();
    let mut i: usize = 0;
    while i < items.len()
        invariant
            0 <= i <= items@.len(),
            spec_list_of(items@.take(i as int), fn_axes()) == Some(views_of_axes(out@)),
        decreases items@.len() - i,
    {
        proof {
            assert(items@.take(i + 1).drop_last() =~= items@.take(i as int));
        }
        match parse_axes_item(&items[i]) {
            Some(a) => {
                proof {
                    assert(views_of_axes(out@.push(a)) =~= views_of_axes(out@).push(a@));
                }
                out.push(a);
            },
            None => {
                proof {
                    assert(spec_list_of(items@.take(i + 1), fn_axes()) is None);
                    lemma_list_of_extends_none(items@, fn_axes(), i + 1);
                }
                return None;
            },
        }
        i = i + 1;
    }
    proof {
        assert(items@.take(items@.len() as int) =~= items@);
    }
    Some(out)
}

fn parse_datasets(items: &Vec<Json>) -> (r: Option<Vec<DataSet>>)
    ensures
        (match r {
            Some(d) => spec_list_of(items@, fn_dataset()) == Some(views_of_datasets(d@)),
            None => spec_list_of(items@, fn_dataset()) is None,
        }),
{
    let mut out: Vec<DataSet> = Vec::new();
    let mut i: usize = 0;
    while i < items.len()
        invariant
            0 <= i <= items@.len(),
            spec_list_of(items@.take(i as int), fn_dataset()) == Some(views_of_datasets(out@)),
        decreases items@.len() - i,
    {
        proof {
            assert(items@.take(i + 1).drop_last() =~= items@.take(i as int));
        }
        match parse_dataset(&items[i]) {
            Some(d) => {
                proof {
                    assert(views_of_datasets(out@.push(d)) =~= views_of_datasets(out@).push(d@));
                }
                out.push(d);
            },
            None => {
                proof {
                    assert(spec_list_of(items@.take(i + 1), fn_dataset()) is None);
                    lemma_list_of_extends_none(items@, fn_dataset(), i + 1);
                }
                return None;
            },
        }
        i = i + 1;
    }
    proof {
        assert(items@.take(items@.len() as int) =~= items@);
    }
    Some(out)
}

fn parse_wpd_json(j: &Json) -> (r: Option<Wpd>)
    ensures
        (match r {
            Some(w) => spec_wpd_of_json(*j) == Some(w@),
            None => spec_wpd_of_json(*j) is None,
        }),
{
    let fields = match j {
        Json::Obj(fs) => fs,
        _ => {
            return None;
        },
    };
    let jv = match obj_get(fields, "version") {
        Some(v) => v,
        None => {
            return None;
        },
    };
    let ja = match obj_get(fields, "axesColl") {
        Some(v) => v,
        None => {
            return None;
        },
    };
    let jd = match obj_get(fields, "datasetColl") {
        Some(v) => v,
        None => {
            return None;
        },
    };
    let version = match parse_version(jv) {
        Some(v) => v,
        None => {
            return None;
        },
    };
    let axes_items = match ja {
        Json::Arr(a) => a,
        _ => {
            return None;
        },
    };
    let axes = match parse_axes_list(axes_items) {
        Some(a) => a,
        None => {
            return None;
        },
    };
    let ds_items = match jd {
        Json::Arr(a) => a,
        _ => {
            return None;
        },
    };
    let datasets = match parse_datasets(ds_items) {
        Some(d) => d,
        None => {
            return None;
        },
    };
    Some(Wpd { version, axes, datasets })
}

fn parse_info_json(j: &Json) -> (r: Option<Info>)
    ensures
        (match r {
            Some(v) => spec_info_of_json(*j) == Some(v@),
            None => spec_info_of_json(*j) is None,
        }),
{
    let fields = match j {
        Json::Obj(fs) => fs,
        _ => {
            return None;
        },
    };
    let jv = match obj_get(fields, "version") {
        Some(v) => v,
        None => {
            return None;
        },
    };
    let jj = match obj_get(fields, "json") {
        Some(v) => v,
        None => {
            return None;
        },
    };
    let ji = match obj_get(fields, "images") {
        Some(v) => v,
        None => {
            return None;
        },
    };
    let ver_items = match jv {
        Json::Arr(a) => a,
        _ => {
            return None;
        },
    };
    let version = match parse_u64s(ver_items) {
        Some(u) => u,
        None => {
            return None;
        },
    };
    let json = match jj {
        Json::Str(s) => s.clone(),
        _ => {
            return None;
        },
    };
    let img_items = match ji {
        Json::Arr(a) => a,
        _ => {
            return None;
        },
    };
    let images = match parse_strings(img_items) {
        Some(ss) => ss,
        None => {
            return None;
        },
    };
    Some(Info { version, json, images })
}

/// Parsing is a function of the bytes alone: two successful parses of the
/// same byte sequence yield structurally equal documents, field by field.
pub proof fn lemma_parse_deterministic(bytes: Seq<u8>, w1: Wpd, w2: Wpd)
    requires
        spec_parse_from_json(bytes) == Ok::<WpdView, FormatError>(w1@),
        spec_parse_from_json(bytes) == Ok::<WpdView, FormatError>(w2@),
    ensures
        w1@ == w2@,
{
}

impl Wpd {
    /// Parses one JSON document as a root project document.
    pub fn parse_from_json(bytes: &[u8]) -> (r: Result<Wpd, FormatError>)
        ensures
            (match r {
                Ok(w) => spec_parse_from_json(bytes@) == Ok::<WpdView, FormatError>(w@),
                Err(e) => spec_parse_from_json(bytes@) == Err::<WpdView, FormatError>(e),
            }),
    {
        match parse_json_bytes(bytes) {
            None => Err(FormatError::MalformedJson),
            Some(j) => match parse_wpd_json(&j) {
                Some(w) => Ok(w),
                None => Err(FormatError::SchemaMismatch),
            },
        }
    }
}

impl Info {
    /// Parses one JSON document as an archive manifest.
    pub fn parse_from_json(bytes: &[u8]) -> (r: Result<Info, FormatError>)
        ensures
            (match r {
                Ok(v) => spec_parse_info_from_json(bytes@) == Ok::<InfoView, FormatError>(v@),
                Err(e) => spec_parse_info_from_json(bytes@) == Err::<InfoView, FormatError>(e),
            }),
    {
        match parse_json_bytes(bytes) {
            None => Err(FormatError::MalformedJson),
            Some(j) => match parse_info_json(&j) {
                Some(v) => Ok(v),
                None => Err(FormatError::SchemaMismatch),
            },
        }
    }
}

} // verus!
