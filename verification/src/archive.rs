//! Archive resolution: a project wrapped in a tar container holds a manifest
//! member `info.json`, which names the member holding the real document.
//!
//! The entry stream is forward-only, so resolution scans for the manifest
//! first and then continues from the *next* entry on for the payload; a
//! payload member placed before its manifest is therefore not found, which
//! mirrors the producer contract that the manifest precedes the payload.

use std::io::Read;
use vstd::prelude::*;

use crate::model::{FormatError, Info, ResolutionError, Wpd, WpdError, WpdView};
use crate::schema::{spec_parse_from_json, spec_parse_info_from_json};

verus! {

/// The named entries of a tar archive, in stream order, each with its base
/// file name and its full contents; `None` when the stream cannot be read
/// to its end. Reading is a function of the bytes alone, so the result only
/// carries a name here.
pub uninterp spec fn archive_entries_of(bytes: Seq<u8>) -> Option<Vec<(String, Vec<u8>)>>;

/// Relies on `tar::Archive`: `entries` walks the members of the stream in
/// order, `Entry::path` gives a member's path (its base file name is kept,
/// rebuilt lossily as text, or empty when the path has none), and reading an
/// entry yields its contents. The stream is forward-only and entries borrow
/// the reader, so the one pass here buffers name and contents of every
/// member; any read error yields `None`.
#[verifier::external_body]
pub(crate) fn read_archive_entries(bytes: &[u8]) -> (r: Option<Vec<(String, Vec<u8>)>>)
    ensures
        r == archive_entries_of(bytes@),
{
    let mut archive = tar::Archive::new(bytes);
    let entries = match archive.entries() { Ok(es) => es, Err(_) => return None };
    let mut out: Vec<(String, Vec<u8>)> = Vec::new();
    for entry in entries {
        let mut e = match entry { Ok(e) => e, Err(_) => return None };
        let path = match e.path() { Ok(p) => p.into_owned(), Err(_) => return None };
        let name = path.file_name().map(|n| n.to_string_lossy().into_owned()).unwrap_or_default();
        let mut buf = Vec::new();
        if e.read_to_end(&mut buf).is_err() { return None; }
        out.push((name, buf));
    }
    Some(out)
}

/// The index of the first entry at or after `i` whose name reads `name`.
pub open spec fn spec_find_entry(es: Seq<(String, Vec<u8>)>, name: Seq<char>, i: int) -> Option<
    int,
>
    decreases es.len() - i,
{
    if i < 0 || i >= es.len() {
        None
    } else if es[i].0@ == name {
        Some(i)
    } else {
        spec_find_entry(es, name, i + 1)
    }
}

/// When no entry at or after `i` reads `name`, the scan finds nothing.
pub proof fn lemma_find_entry_none(es: Seq<(String, Vec<u8>)>, name: Seq<char>, i: int)
    requires
        forall|k: int| i <= k < es.len() ==> (#[trigger] es[k]).0@ != name,
    ensures
        spec_find_entry(es, name, i) is None,
    decreases es.len() - i,
{
    if 0 <= i < es.len() {
        lemma_find_entry_none(es, name, i + 1);
    }
}

fn find_entry(es: &Vec<(String, Vec<u8>)>, name: &String, start: usize) -> (r: Option<usize>)
    ensures
        (match r {
            Some(k) => {
                &&& spec_find_entry(es@, name@, start as int) == Some(k as int)
                &&& start <= k < es@.len()
                &&& es@[k as int].0@ == name@
            },
            None => spec_find_entry(es@, name@, start as int) is None,
        }),
{
    let mut i: usize = start;
    while i < es.len()
        invariant
            start <= i,
            i <= es@.len() || i == start,
            spec_find_entry(es@, name@, start as int) == spec_find_entry(es@, name@, i as int),
        decreases es@.len() - i,
    {
        if es[i].0 == *name {
            return Some(i);
        }
        i = i + 1;
    }
    None
}

/// What resolving a buffered entry list returns: the first `info.json`
/// entry is the manifest; the first later entry named by the manifest's
/// `json` field is the payload; each is parsed as JSON, and a missing
/// member is a resolution error.
pub open spec fn spec_resolve(es: Seq<(String, Vec<u8>)>) -> Result<WpdView, WpdError> {
    match spec_find_entry(es, "info.json"@, 0) {
        None => Err(WpdError::Resolution(ResolutionError::ManifestNotFound)),
        Some(i) => match spec_parse_info_from_json(es[i].1@) {
            Err(e) => Err(WpdError::Format(e)),
            Ok(info) => match spec_find_entry(es, info.json, i + 1) {
                None => Err(WpdError::Resolution(ResolutionError::PayloadNotFound)),
                Some(j) => match spec_parse_from_json(es[j].1@) {
                    Err(e) => Err(WpdError::Format(e)),
                    Ok(w) => Ok(w),
                },
            },
        },
    }
}

/// What parsing a byte stream as an archive returns: an unreadable stream
/// is an `Io` error, everything else resolves the buffered entries.
pub open spec fn spec_parse_from_archive(bytes: Seq<u8>) -> Result<WpdView, WpdError> {
    match archive_entries_of(bytes) {
        None => Err(WpdError::Io),
        Some(es) => spec_resolve(es@),
    }
}

impl Wpd {
    /// Parses a tar-format byte stream holding a manifest and the document
    /// member it names.
    pub fn parse_from_archive(bytes: &[u8]) -> (r: Result<Wpd, WpdError>)
        ensures
            (match r {
                Ok(w) => spec_parse_from_archive(bytes@) == Ok::<WpdView, WpdError>(w@),
                Err(e) => spec_parse_from_archive(bytes@) == Err::<WpdView, WpdError>(e),
            }),
    {
        let entries = match read_archive_entries(bytes) {
            Some(es) => es,
            None => {
                return Err(WpdError::Io);
            },
        };
        let manifest_name: String = "info.json".to_owned();
        let i = match find_entry(&entries, &manifest_name, 0) {
            Some(i) => i,
            None => {
                return Err(WpdError::Resolution(ResolutionError::ManifestNotFound));
            },
        };
        let info = match Info::parse_from_json(entries[i].1.as_slice()) {
            Ok(v) => v,
            Err(e) => {
                return Err(WpdError::Format(e));
            },
        };
        let j = match find_entry(&entries, &info.json, i + 1) {
            Some(j) => j,
            None => {
                return Err(WpdError::Resolution(ResolutionError::PayloadNotFound));
            },
        };
        match Wpd::parse_from_json(entries[j].1.as_slice()) {
            Ok(w) => Ok(w),
            Err(e) => Err(WpdError::Format(e)),
        }
    }
}

/// Resolution follows the manifest: in an archive whose first two entries
/// are a manifest named `info.json` and the payload member that the
/// manifest's `json` field names, the archive parses exactly as the payload
/// member's bytes parse on their own.
pub proof fn lemma_archive_resolves_payload(bytes: Seq<u8>, es: Vec<(String, Vec<u8>)>)
    requires
        archive_entries_of(bytes) == Some(es),
        es@.len() == 2,
        es@[0].0@ == "info.json"@,
        spec_parse_info_from_json(es@[0].1@) is Ok,
        spec_parse_info_from_json(es@[0].1@)->Ok_0.json == es@[1].0@,
    ensures
        (match spec_parse_from_json(es@[1].1@) {
            Ok(w) => spec_parse_from_archive(bytes) == Ok::<WpdView, WpdError>(w),
            Err(e) => spec_parse_from_archive(bytes) == Err::<WpdView, WpdError>(
                WpdError::Format(e),
            ),
        }),
{
    assert(spec_find_entry(es@, "info.json"@, 0) == Some(0int));
    let info = spec_parse_info_from_json(es@[0].1@)->Ok_0;
    assert(spec_find_entry(es@, info.json, 1) == Some(1int));
}

/// An archive with no `info.json` member resolves to `ManifestNotFound`.
pub proof fn lemma_missing_manifest(bytes: Seq<u8>, es: Vec<(String, Vec<u8>)>)
    requires
        archive_entries_of(bytes) == Some(es),
        forall|k: int| 0 <= k < es@.len() ==> (#[trigger] es@[k]).0@ != "info.json"@,
    ensures
        spec_parse_from_archive(bytes) == Err::<WpdView, WpdError>(
            WpdError::Resolution(ResolutionError::ManifestNotFound),
        ),
{
    lemma_find_entry_none(es@, "info.json"@, 0);
}

/// When the manifest parses but no later entry bears the name it declares,
/// resolution fails with `PayloadNotFound`.
pub proof fn lemma_missing_payload(bytes: Seq<u8>, es: Vec<(String, Vec<u8>)>, i: int)
    requires
        archive_entries_of(bytes) == Some(es),
        spec_find_entry(es@, "info.json"@, 0) == Some(i),
        spec_parse_info_from_json(es@[i].1@) is Ok,
        forall|k: int|
            i < k < es@.len() ==> (#[trigger] es@[k]).0@ != spec_parse_info_from_json(
                es@[i].1@,
            )->Ok_0.json,
    ensures
        spec_parse_from_archive(bytes) == Err::<WpdView, WpdError>(
            WpdError::Resolution(ResolutionError::PayloadNotFound),
        ),
{
    let info = spec_parse_info_from_json(es@[i].1@)->Ok_0;
    lemma_find_entry_none(es@, info.json, i + 1);
}

} // verus!
