use std::io::Write;

use plugin_registry::errors::RegistryError;
use plugin_registry::json::parse_json;
use plugin_registry::registry::{
    is_usefultools_package, merge_candidates, package_url, plugins_from_tarball,
    resolve_tarball_url, search_names_or_empty, search_queries, search_url,
};

#[test]
fn admission_filter_accepts_plugin_names() {
    assert!(is_usefultools_package("usefultools-plugin-official"));
    assert!(is_usefultools_package("@scope/usefultools-plugin-x"));
}

#[test]
fn admission_filter_rejects_other_names() {
    assert!(!is_usefultools_package("other-plugin"));
    assert!(!is_usefultools_package("@scope/other-plugin"));
}

#[test]
fn admission_filter_reads_only_the_first_slash() {
    assert!(is_usefultools_package("usefultools-plugin"));
    assert!(!is_usefultools_package("@scope/other/usefultools-plugin"));
}

#[test]
fn search_and_package_urls_are_built_exactly() {
    assert_eq!(
        search_url("https://registry.npmjs.org", "usefultools-plugin"),
        "https://registry.npmjs.org/-/v1/search?text=usefultools-plugin&size=100"
    );
    assert_eq!(
        package_url("https://registry.npmjs.org", "@s/usefultools-plugin-x"),
        "https://registry.npmjs.org/@s/usefultools-plugin-x"
    );
    let (keyword_query, text_query) = search_queries();
    assert_eq!(keyword_query, "keywords:usefultools-plugin");
    assert_eq!(text_query, "usefultools-plugin");
}

#[test]
fn search_names_come_from_the_hit_list() {
    let body = r##"{"objects": [
        {"package": {"name": "usefultools-plugin-a", "version": "1.0.0"}},
        {"package": {"name": "other", "version": "0.1.0"}}
    ]}"##
        .to_string();
    let names = search_names_or_empty(Some(&body));
    assert_eq!(names, vec!["usefultools-plugin-a".to_string(), "other".to_string()]);
}

#[test]
fn failed_or_malformed_search_yields_no_names() {
    assert_eq!(search_names_or_empty(None).len(), 0);
    let not_json = "no json here".to_string();
    assert_eq!(search_names_or_empty(Some(&not_json)).len(), 0);
    let wrong_shape = r##"{"objects": [{"package": {"name": "x"}}]}"##.to_string();
    assert_eq!(search_names_or_empty(Some(&wrong_shape)).len(), 0);
    let bad_links = r##"{"objects": [{"package":
        {"name": "x", "version": "1.0.0", "links": "not an object"}}]}"##
        .to_string();
    assert_eq!(search_names_or_empty(Some(&bad_links)).len(), 0);
}

#[test]
fn search_hits_may_carry_presentation_fields() {
    let body = r##"{"objects": [{"package": {
        "name": "usefultools-plugin-a", "version": "1.0.0",
        "description": "tools", "date": "2024-01-01",
        "links": {"npm": "https://npm/x", "homepage": null}
    }}]}"##
        .to_string();
    let names = search_names_or_empty(Some(&body));
    assert_eq!(names, vec!["usefultools-plugin-a".to_string()]);
}

#[test]
fn candidates_are_filtered_deduplicated_and_official_first() {
    let keyword_hits = vec![
        "usefultools-plugin-b".to_string(),
        "other-package".to_string(),
    ];
    let text_hits = vec![
        "usefultools-plugin-b".to_string(),
        "usefultools-plugin-official".to_string(),
        "@s/usefultools-plugin-c".to_string(),
    ];
    let merged = merge_candidates(&keyword_hits, &text_hits);
    assert_eq!(
        merged,
        vec![
            "usefultools-plugin-official".to_string(),
            "usefultools-plugin-b".to_string(),
            "@s/usefultools-plugin-c".to_string(),
        ]
    );
}

const GOOD_DETAIL: &str = r##"{
    "name": "usefultools-plugin-demo",
    "dist-tags": {"latest": "1.2.0"},
    "versions": {
        "1.0.0": {"version": "1.0.0", "dist": {"tarball": "https://r/old.tgz"}},
        "1.2.0": {"version": "1.2.0", "dist": {"tarball": "https://r/demo-1.2.0.tgz"}}
    }
}"##;

#[test]
fn tarball_resolution_follows_the_latest_tag() {
    let detail = parse_json(GOOD_DETAIL).expect("valid JSON");
    let url = resolve_tarball_url(&detail, "usefultools-plugin-demo").expect("resolves");
    assert_eq!(url, "https://r/demo-1.2.0.tgz");
}

#[test]
fn missing_latest_tag_is_reported() {
    let detail = parse_json(r##"{"name": "p", "versions": {}}"##).expect("valid JSON");
    let err = resolve_tarball_url(&detail, "p").unwrap_err();
    assert!(matches!(err, RegistryError::NoLatestTag(name) if name == "p"));
}

#[test]
fn missing_version_record_is_reported() {
    let detail = parse_json(
        r##"{"name": "p", "dist-tags": {"latest": "9.9.9"}, "versions": {}}"##,
    )
    .expect("valid JSON");
    let err = resolve_tarball_url(&detail, "p").unwrap_err();
    assert!(matches!(err, RegistryError::NoVersionRecord(v) if v == "9.9.9"));
}

#[test]
fn missing_tarball_address_is_reported() {
    let detail = parse_json(
        r##"{"name": "p", "dist-tags": {"latest": "1.0.0"},
            "versions": {"1.0.0": {"version": "1.0.0"}}}"##,
    )
    .expect("valid JSON");
    let err = resolve_tarball_url(&detail, "p").unwrap_err();
    assert!(matches!(err, RegistryError::NoTarballUrl));
}

#[test]
fn detail_of_the_wrong_shape_is_a_decode_failure() {
    let detail = parse_json(r##"[1, 2, 3]"##).expect("valid JSON");
    let err = resolve_tarball_url(&detail, "p").unwrap_err();
    assert!(matches!(err, RegistryError::Decode(_)));
}

#[test]
fn every_version_record_must_be_well_shaped() {
    // A malformed record, even one not selected, fails the whole decode.
    let sibling_junk = parse_json(
        r##"{"name": "p", "dist-tags": {"latest": "1.0.0"},
            "versions": {"1.0.0": {"version": "1.0.0"}, "0.1.0": 7}}"##,
    )
    .expect("valid JSON");
    assert!(matches!(
        resolve_tarball_url(&sibling_junk, "p").unwrap_err(),
        RegistryError::Decode(_)
    ));
    // A record without its version string is malformed too.
    let no_version = parse_json(
        r##"{"name": "p", "dist-tags": {"latest": "1.0.0"},
            "versions": {"1.0.0": {"dist": {"tarball": "https://r/t.tgz"}}}}"##,
    )
    .expect("valid JSON");
    assert!(matches!(
        resolve_tarball_url(&no_version, "p").unwrap_err(),
        RegistryError::Decode(_)
    ));
    // A non-string dist-tag value is malformed as well.
    let bad_tag = parse_json(
        r##"{"name": "p", "dist-tags": {"latest": "1.0.0", "beta": 2},
            "versions": {"1.0.0": {"version": "1.0.0"}}}"##,
    )
    .expect("valid JSON");
    assert!(matches!(
        resolve_tarball_url(&bad_tag, "p").unwrap_err(),
        RegistryError::Decode(_)
    ));
}

fn make_tgz(entries: &[(&str, &[u8])]) -> Vec<u8> {
    let mut builder = tar::Builder::new(Vec::new());
    for (path, data) in entries {
        let mut header = tar::Header::new_gnu();
        header.set_size(data.len() as u64);
        header.set_mode(0o644);
        header.set_cksum();
        builder.append_data(&mut header, path, *data).expect("append");
    }
    let tar_bytes = builder.into_inner().expect("finish tar");
    let mut encoder = flate2::write::GzEncoder::new(Vec::new(), flate2::Compression::default());
    encoder.write_all(&tar_bytes).expect("compress");
    encoder.finish().expect("finish gzip")
}

const ARCHIVE_MANIFEST: &[u8] = br##"{
    "id": "x", "version": "1.0.0", "author": "a", "icon": "i",
    "title": "t", "subtitle": "s", "description": "d",
    "bgColor": "#fff", "categories": [], "bundle": "dist/x.mjs"
}"##;

#[test]
fn archive_manifest_becomes_tagged_descriptors() {
    let tgz = make_tgz(&[
        ("package/plugin.json", ARCHIVE_MANIFEST),
        ("package/dist/x.mjs", b"export default 1;"),
    ]);
    let metas = plugins_from_tarball(&tgz, "usefultools-plugin-demo").expect("resolves");
    assert_eq!(metas.len(), 1);
    assert_eq!(metas[0].id, "x");
    assert_eq!(metas[0].package_name, "usefultools-plugin-demo");
}

#[test]
fn archive_without_manifest_is_reported() {
    let tgz = make_tgz(&[("package/readme.txt", b"hello")]);
    let err = plugins_from_tarball(&tgz, "p").unwrap_err();
    assert!(matches!(err, RegistryError::NoManifest(name) if name == "p"));
}

#[test]
fn archive_with_malformed_manifest_is_a_decode_failure() {
    let tgz = make_tgz(&[("package/plugin.json", b"not json")]);
    let err = plugins_from_tarball(&tgz, "p").unwrap_err();
    assert!(matches!(err, RegistryError::Decode(_)));
}

#[test]
fn error_messages_name_the_missing_piece() {
    let e = RegistryError::NoLatestTag("usefultools-plugin-demo".to_string());
    assert_eq!(e.message(), "package usefultools-plugin-demo has no latest version");
    let t = RegistryError::Transport("connection refused".to_string());
    assert_eq!(t.message(), "network request failed: connection refused");
}
