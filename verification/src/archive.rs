//! The archive extractor: finds one named entry inside a gzip-compressed
//! tar archive and hands back its content, as raw bytes or as text.
//!
//! Decompression and tar framing are trusted library services; the walk over
//! the decoded entries — first exact path match wins — is verified. A failed
//! decompression, a malformed archive, and a missing entry are all reported
//! as plain absence: callers treat the three alike.

use vstd::prelude::*;
use vstd::utf8::{valid_utf8, decode_utf8};
use crate::text::str_eq;
use std::io::Read;

verus! {

/// The entry list (path, content) that the given gzip-compressed tar bytes
/// decode to, in archive order; `None` when the stream or the archive is
/// malformed. Decoding depends on the bytes alone.
pub uninterp spec fn tgz_entries(bytes: Seq<u8>) -> Option<Seq<(Seq<char>, Seq<u8>)>>;

/// The view of a decoded entry list.
pub open spec fn entries_view(entries: Seq<(String, Vec<u8>)>) -> Seq<(Seq<char>, Seq<u8>)> {
    entries.map_values(|e: (String, Vec<u8>)| (e.0@, e.1@))
}

/// Relies on `flate2::read::GzDecoder` and `tar::Archive`: decompressing a
/// gzip stream and walking the tar entries it frames is a function of the
/// bytes alone. Yields every entry's path and content in archive order, or
/// `None` when the stream, the archive, or any entry cannot be read.
#[verifier::external_body]
fn decode_tgz(bytes: &[u8]) -> (r: Option<Vec<(String, Vec<u8>)>>)
    ensures
        match r {
            Some(entries) => tgz_entries(bytes@) == Some(entries_view(entries@)),
            None => tgz_entries(bytes@) is None,
        },
{
    let gz = flate2::read::GzDecoder::new(bytes);
    let mut archive = tar::Archive::new(gz);
    let mut out: Vec<(String, Vec<u8>)> = Vec::new();
    for entry in archive.entries().ok()? {
        let mut entry = entry.ok()?;
        let path = entry.path().ok()?.to_string_lossy().into_owned();
        let mut content: Vec<u8> = Vec::new();
        entry.read_to_end(&mut content).ok()?;
        out.push((path, content));
    }
    Some(out)
}

/// The content of the first entry whose path is exactly `path`.
pub open spec fn spec_find_entry(entries: Seq<(Seq<char>, Seq<u8>)>, path: Seq<char>) -> Option<
    Seq<u8>,
>
    decreases entries.len(),
{
    if entries.len() == 0 {
        None
    } else if entries[0].0 == path {
        Some(entries[0].1)
    } else {
        spec_find_entry(entries.drop_first(), path)
    }
}

/// What extracting `path` from the archive bytes yields: the first matching
/// entry's content, or absence when the archive is malformed or no entry
/// matches.
pub open spec fn spec_extract(bytes: Seq<u8>, path: Seq<char>) -> Option<Seq<u8>> {
    match tgz_entries(bytes) {
        Some(entries) => spec_find_entry(entries, path),
        None => None,
    }
}

/// Extracts the raw bytes of the archive entry at exactly `path`.
pub fn extract_bytes_from_tarball(bytes: &[u8], path: &str) -> (r: Option<Vec<u8>>)
    ensures
        match r {
            Some(content) => spec_extract(bytes@, path@) == Some(content@),
            None => spec_extract(bytes@, path@) is None,
        },
{
    let entries = match decode_tgz(bytes) {
        Some(e) => e,
        None => {
            return None;
        },
    };
    let n = entries.len();
    let mut i: usize = 0;
    proof {
        assert(entries_view(entries@).skip(0) =~= entries_view(entries@));
    }
    while i < n
        invariant
            n == entries@.len(),
            0 <= i <= n,
            entries_view(entries@).len() == n,
            tgz_entries(bytes@) == Some(entries_view(entries@)),
            spec_find_entry(entries_view(entries@).skip(i as int), path@) == spec_find_entry(
                entries_view(entries@),
                path@,
            ),
        decreases n - i,
    {
        proof {
            assert(entries_view(entries@)[i as int] == (entries@[i as int].0@, entries@[
                i as int
            ].1@));
            assert(entries_view(entries@).skip(i as int)[0] == entries_view(entries@)[i as int]);
            assert(entries_view(entries@).skip(i as int).drop_first() =~= entries_view(
                entries@,
            ).skip(i as int + 1));
        }
        if str_eq(entries[i].0.as_str(), path) {
            let mut moved = entries;
            let pair = moved.swap_remove(i);
            return Some(pair.1);
        }
        i += 1;
    }
    proof {
        assert(entries_view(entries@).skip(n as int) =~= Seq::<(Seq<char>, Seq<u8>)>::empty());
    }
    None
}

/// What extracting `path` as text yields: the bytes of the first matching
/// entry when they are valid UTF-8.
pub open spec fn spec_extract_text(bytes: Seq<u8>, path: Seq<char>) -> Option<Seq<char>> {
    match spec_extract(bytes, path) {
        Some(content) => if valid_utf8(content) {
            Some(decode_utf8(content))
        } else {
            None
        },
        None => None,
    }
}

/// Relies on `String::from_utf8`: it succeeds exactly on valid UTF-8 input
/// and yields the decoded characters, as vstd's UTF-8 model states them.
#[verifier::external_body]
fn utf8_to_string(bytes: Vec<u8>) -> (r: Option<String>)
    ensures
        match r {
            Some(s) => valid_utf8(bytes@) && s@ == decode_utf8(bytes@),
            None => !valid_utf8(bytes@),
        },
{
    String::from_utf8(bytes).ok()
}

/// Extracts the archive entry at exactly `path` as text.
pub fn extract_file_from_tarball(bytes: &[u8], path: &str) -> (r: Option<String>)
    ensures
        match r {
            Some(text) => spec_extract_text(bytes@, path@) == Some(text@),
            None => spec_extract_text(bytes@, path@) is None,
        },
{
    match extract_bytes_from_tarball(bytes, path) {
        Some(content) => utf8_to_string(content),
        None => None,
    }
}

} // verus!
