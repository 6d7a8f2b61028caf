use web_plot_digitizer::FormatError;
use web_plot_digitizer::Wpd;

fn sample_doc() -> &'static str {
    r#"{
        "version": [4, 2],
        "axesColl": [
            {
                "name": "XY",
                "type": "linear",
                "isLogX": false,
                "isLogY": true,
                "calibrationPoints": [
                    {"px": 10.0, "py": 20.0, "dx": "0", "dy": "1", "dz": null},
                    {"px": 30.5, "py": 40.5, "dx": "2", "dy": "3", "dz": "4"}
                ]
            }
        ],
        "datasetColl": [
            {
                "name": "run",
                "metadataKeys": ["k1", "k2"],
                "data": [
                    {"x": 1.0, "y": 2.0, "value": [2.0, 5.0]},
                    {"x": 3, "y": 4.0, "value": [1.0, 9.0]},
                    {"x": 5.0, "y": 6.0, "value": [1.0, 3.0]}
                ]
            }
        ]
    }"#
}

#[test]
fn parses_plain_document() {
    let w = Wpd::parse_from_json(sample_doc().as_bytes()).unwrap();
    assert_eq!(w.version, (4, 2));
    assert_eq!(w.axes.len(), 1);
    let axes = &w.axes[0];
    assert_eq!(axes.name, "XY");
    assert_eq!(axes.type_, "linear");
    assert!(!axes.is_log_x);
    assert!(axes.is_log_y);
    assert_eq!(axes.calibration_points.len(), 2);
    assert_eq!(axes.calibration_points[0].px, 10.0f64.to_bits());
    assert_eq!(axes.calibration_points[0].py, 20.0f64.to_bits());
    assert_eq!(axes.calibration_points[0].dx, "0");
    assert_eq!(axes.calibration_points[0].dy, "1");
    assert_eq!(axes.calibration_points[0].dz, None);
    assert_eq!(axes.calibration_points[1].px, 30.5f64.to_bits());
    assert_eq!(axes.calibration_points[1].dz, Some("4".to_string()));
    assert_eq!(w.datasets.len(), 1);
    let ds = &w.datasets[0];
    assert_eq!(ds.name, "run");
    assert_eq!(ds.metadata_keys, vec!["k1".to_string(), "k2".to_string()]);
    assert_eq!(ds.data.len(), 3);
    assert_eq!(ds.data[0].x, 1.0f64.to_bits());
    assert_eq!(ds.data[0].y, 2.0f64.to_bits());
    assert_eq!(ds.data[0].value, (2.0f64.to_bits(), 5.0f64.to_bits()));
    // an integer literal reads as the closest double
    assert_eq!(ds.data[1].x, 3.0f64.to_bits());
    // accessors expose the resolved data-space pair, not the pixel fields
    assert_eq!(ds.data[2].x(), 1.0f64.to_bits());
    assert_eq!(ds.data[2].y(), 3.0f64.to_bits());
}

#[test]
fn rejects_malformed_json() {
    let r = Wpd::parse_from_json(b"this is not json");
    assert_eq!(r.unwrap_err(), FormatError::MalformedJson);
}

#[test]
fn rejects_missing_collections() {
    let r = Wpd::parse_from_json(br#"{"version": [1, 0]}"#);
    assert_eq!(r.unwrap_err(), FormatError::SchemaMismatch);
}

#[test]
fn rejects_version_out_of_range() {
    let doc = r#"{"version": [4294967296, 0], "axesColl": [], "datasetColl": []}"#;
    let r = Wpd::parse_from_json(doc.as_bytes());
    assert_eq!(r.unwrap_err(), FormatError::SchemaMismatch);
}

#[test]
fn rejects_fractional_version() {
    let doc = r#"{"version": [1.5, 0], "axesColl": [], "datasetColl": []}"#;
    let r = Wpd::parse_from_json(doc.as_bytes());
    assert_eq!(r.unwrap_err(), FormatError::SchemaMismatch);
}

#[test]
fn rejects_wrongly_typed_point() {
    let doc = r#"{
        "version": [1, 0],
        "axesColl": [],
        "datasetColl": [
            {"name": "d", "metadataKeys": [], "data": [{"x": "no", "y": 1.0, "value": [1.0, 2.0]}]}
        ]
    }"#;
    let r = Wpd::parse_from_json(doc.as_bytes());
    assert_eq!(r.unwrap_err(), FormatError::SchemaMismatch);
}

#[test]
fn accepts_empty_collections() {
    let doc = r#"{"version": [0, 0], "axesColl": [], "datasetColl": []}"#;
    let w = Wpd::parse_from_json(doc.as_bytes()).unwrap();
    assert_eq!(w.version, (0, 0));
    assert!(w.axes.is_empty());
    assert!(w.datasets.is_empty());
}

#[test]
fn missing_dz_reads_as_none() {
    let doc = r#"{
        "version": [1, 0],
        "axesColl": [
            {"name": "a", "type": "linear", "isLogX": false, "isLogY": false,
             "calibrationPoints": [{"px": 1.0, "py": 2.0, "dx": "0", "dy": "0"}]}
        ],
        "datasetColl": []
    }"#;
    let w = Wpd::parse_from_json(doc.as_bytes()).unwrap();
    assert_eq!(w.axes[0].calibration_points[0].dz, None);
}

#[test]
fn round_trip_identity() {
    let w1 = Wpd::parse_from_json(sample_doc().as_bytes()).unwrap();
    let w2 = Wpd::parse_from_json(sample_doc().as_bytes()).unwrap();
    assert_eq!(w1, w2);
}

#[test]
fn get_returns_first_match() {
    let doc = r#"{
        "version": [1, 0],
        "axesColl": [],
        "datasetColl": [
            {"name": "a", "metadataKeys": [], "data": [{"x": 0, "y": 0, "value": [1.0, 1.0]}]},
            {"name": "b", "metadataKeys": [], "data": []},
            {"name": "a", "metadataKeys": [], "data": []}
        ]
    }"#;
    let w = Wpd::parse_from_json(doc.as_bytes()).unwrap();
    let first = w.get("a").unwrap();
    assert_eq!(first.data.len(), 1);
    assert_eq!(w.get("b").unwrap().name, "b");
    assert!(w.get("missing").is_none());
}
