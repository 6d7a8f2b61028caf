use web_plot_digitizer::FormatError;
use web_plot_digitizer::ResolutionError;
use web_plot_digitizer::Wpd;
use web_plot_digitizer::WpdError;

fn build_archive(members: &[(&str, &[u8])]) -> Vec<u8> {
    let mut builder = tar::Builder::new(Vec::new());
    for (name, data) in members {
        let mut header = tar::Header::new_gnu();
        header.set_size(data.len() as u64);
        header.set_cksum();
        builder.append_data(&mut header, name, *data).unwrap();
    }
    builder.into_inner().unwrap()
}

fn payload_doc() -> &'static [u8] {
    br#"{
        "version": [4, 2],
        "axesColl": [],
        "datasetColl": [
            {"name": "run", "metadataKeys": ["k"], "data": [
                {"x": 1.0, "y": 2.0, "value": [3.0, 4.0]}
            ]}
        ]
    }"#
}

fn manifest_doc() -> &'static [u8] {
    br#"{"version": [4], "json": "data.json", "images": ["plot.png"]}"#
}

#[test]
fn resolves_manifest_then_payload() {
    let archive = build_archive(&[("info.json", manifest_doc()), ("data.json", payload_doc())]);
    let from_archive = Wpd::parse_from_archive(&archive).unwrap();
    let direct = Wpd::parse_from_json(payload_doc()).unwrap();
    assert_eq!(from_archive, direct);
}

#[test]
fn resolves_by_base_file_name() {
    let archive = build_archive(&[
        ("project/info.json", manifest_doc()),
        ("project/data.json", payload_doc()),
    ]);
    let from_archive = Wpd::parse_from_archive(&archive).unwrap();
    assert_eq!(from_archive, Wpd::parse_from_json(payload_doc()).unwrap());
}

#[test]
fn skips_unrelated_members() {
    let archive = build_archive(&[
        ("readme.txt", b"notes"),
        ("info.json", manifest_doc()),
        ("plot.png", b"\x89PNG"),
        ("data.json", payload_doc()),
    ]);
    assert!(Wpd::parse_from_archive(&archive).is_ok());
}

#[test]
fn missing_manifest_is_resolution_error() {
    let archive = build_archive(&[("data.json", payload_doc())]);
    let e = Wpd::parse_from_archive(&archive).unwrap_err();
    assert_eq!(e, WpdError::Resolution(ResolutionError::ManifestNotFound));
}

#[test]
fn empty_archive_is_resolution_error() {
    let archive = build_archive(&[]);
    let e = Wpd::parse_from_archive(&archive).unwrap_err();
    assert_eq!(e, WpdError::Resolution(ResolutionError::ManifestNotFound));
}

#[test]
fn missing_payload_is_resolution_error() {
    let archive = build_archive(&[("info.json", manifest_doc()), ("other.json", payload_doc())]);
    let e = Wpd::parse_from_archive(&archive).unwrap_err();
    assert_eq!(e, WpdError::Resolution(ResolutionError::PayloadNotFound));
}

#[test]
fn payload_before_manifest_is_not_found() {
    // the stream is forward-only: a payload member placed before its
    // manifest has already been passed when the manifest is read
    let archive = build_archive(&[("data.json", payload_doc()), ("info.json", manifest_doc())]);
    let e = Wpd::parse_from_archive(&archive).unwrap_err();
    assert_eq!(e, WpdError::Resolution(ResolutionError::PayloadNotFound));
}

#[test]
fn malformed_manifest_is_format_error() {
    let archive = build_archive(&[("info.json", b"not json"), ("data.json", payload_doc())]);
    let e = Wpd::parse_from_archive(&archive).unwrap_err();
    assert_eq!(e, WpdError::Format(FormatError::MalformedJson));
}

#[test]
fn manifest_missing_fields_is_format_error() {
    let archive = build_archive(&[("info.json", br#"{"json": "data.json"}"#)]);
    let e = Wpd::parse_from_archive(&archive).unwrap_err();
    assert_eq!(e, WpdError::Format(FormatError::SchemaMismatch));
}

#[test]
fn unreadable_stream_is_io_error() {
    let garbage = [0xFFu8; 1024];
    let e = Wpd::parse_from_archive(&garbage).unwrap_err();
    assert_eq!(e, WpdError::Io);
}
