use web_plot_digitizer::DataPoint;
use web_plot_digitizer::DataSet;
use web_plot_digitizer::Sample;
use web_plot_digitizer::Wpd;

fn point(x: f64, y: f64) -> DataPoint {
    DataPoint { x: 0, y: 0, value: (x.to_bits(), y.to_bits()) }
}

fn dataset(name: &str, points: Vec<DataPoint>) -> DataSet {
    DataSet { name: name.to_string(), metadata_keys: Vec::new(), data: points }
}

fn sample(x: f64, y: f64) -> Sample {
    Sample { x: x.to_bits(), y: y.to_bits() }
}

#[test]
fn sorts_lexicographically() {
    let ds = dataset("d", vec![point(2.0, 5.0), point(1.0, 9.0), point(1.0, 3.0)]);
    let v = ds.to_data_vec();
    assert_eq!(v.values, vec![sample(1.0, 3.0), sample(1.0, 9.0), sample(2.0, 5.0)]);
}

#[test]
fn sorting_is_idempotent() {
    let ds = dataset("d", vec![point(3.0, 1.0), point(-2.5, 4.0), point(0.5, 0.0)]);
    let once = ds.to_data_vec();
    let again = dataset(
        "d",
        once.values.iter().map(|s| DataPoint { x: 0, y: 0, value: (s.x, s.y) }).collect(),
    )
    .to_data_vec();
    assert_eq!(once.values, again.values);
}

#[test]
fn orders_negative_below_positive() {
    let ds = dataset("d", vec![point(2.0, 0.0), point(-1.5, 0.0), point(0.0, 0.0)]);
    let v = ds.to_data_vec();
    assert_eq!(v.values, vec![sample(-1.5, 0.0), sample(0.0, 0.0), sample(2.0, 0.0)]);
}

#[test]
fn keeps_name_and_placeholder_labels() {
    let ds = dataset("heat release", vec![point(1.0, 2.0)]);
    let v = ds.to_data_vec();
    assert_eq!(v.name, "heat release");
    assert_eq!(v.x_name, "-");
    assert_eq!(v.x_units, "-");
    assert_eq!(v.y_name, "-");
    assert_eq!(v.y_units, "-");
}

#[test]
fn empty_dataset_yields_empty_vector() {
    let v = dataset("empty", Vec::new()).to_data_vec();
    assert!(v.values.is_empty());
}

#[test]
fn one_vector_per_dataset_with_matching_counts() {
    let doc = r#"{
        "version": [1, 0],
        "axesColl": [],
        "datasetColl": [
            {"name": "a", "metadataKeys": [], "data": [
                {"x": 0, "y": 0, "value": [4.0, 1.0]},
                {"x": 0, "y": 0, "value": [3.0, 2.0]}
            ]},
            {"name": "b", "metadataKeys": [], "data": []},
            {"name": "c", "metadataKeys": [], "data": [
                {"x": 0, "y": 0, "value": [1.0, 1.0]},
                {"x": 0, "y": 0, "value": [2.0, 2.0]},
                {"x": 0, "y": 0, "value": [0.5, 9.0]}
            ]}
        ]
    }"#;
    let w = Wpd::parse_from_json(doc.as_bytes()).unwrap();
    let vecs = w.to_data_vecs();
    assert_eq!(vecs.len(), w.datasets.len());
    for (vec, ds) in vecs.iter().zip(w.datasets.iter()) {
        assert_eq!(vec.name, ds.name);
        assert_eq!(vec.values.len(), ds.data.len());
    }
    assert_eq!(vecs[0].values, vec![sample(3.0, 2.0), sample(4.0, 1.0)]);
    assert_eq!(vecs[2].values[0], sample(0.5, 9.0));
}
