use plugin_registry::json::{parse_json, to_json_text, JsonValue};
use plugin_registry::manifest::{plugin_json_from_json, PluginJson};
use plugin_registry::meta::{meta_from_json, meta_to_json, metas_from_entries, PluginMeta};

fn parse(text: &str) -> JsonValue {
    parse_json(text).expect("valid JSON")
}

const SINGLE_MANIFEST: &str = r##"{
    "id": "x",
    "version": "1.0.0",
    "author": "a",
    "icon": "i",
    "title": "t",
    "subtitle": "s",
    "description": "d",
    "bgColor": "#fff",
    "categories": ["tools"],
    "bundle": "dist/x.mjs"
}"##;

#[test]
fn single_object_manifest_yields_one_entry() {
    let v = parse(SINGLE_MANIFEST);
    let manifest = plugin_json_from_json(&v).expect("manifest decodes");
    assert!(matches!(manifest, PluginJson::Single(_)));
    let entries = manifest.into_entries();
    assert_eq!(entries.len(), 1);
    assert_eq!(entries[0].id, "x");
    assert_eq!(entries[0].version, "1.0.0");
    assert_eq!(entries[0].bundle, "dist/x.mjs");
    assert_eq!(entries[0].required_caps.len(), 0);
    assert_eq!(entries[0].homepage, None);
}

#[test]
fn list_manifest_yields_each_entry() {
    let text = format!(
        r##"{{"plugins": [{}, {{
            "id": "y", "version": "2.0.0", "author": "a", "icon": "i",
            "title": "t", "subtitle": "s", "description": "d",
            "bgColor": "#000", "categories": [], "requires": ["net"],
            "bundle": "dist/y.mjs"
        }}]}}"##,
        SINGLE_MANIFEST
    );
    let v = parse(&text);
    let manifest = plugin_json_from_json(&v).expect("manifest decodes");
    assert!(matches!(manifest, PluginJson::Multi { .. }));
    let entries = manifest.into_entries();
    assert_eq!(entries.len(), 2);
    assert_eq!(entries[0].id, "x");
    assert_eq!(entries[1].id, "y");
    assert_eq!(entries[1].required_caps, vec!["net".to_string()]);
}

#[test]
fn entry_missing_required_field_is_rejected() {
    let v = parse(r##"{"id": "x", "version": "1.0.0"}"##);
    assert!(plugin_json_from_json(&v).is_none());
}

#[test]
fn entry_with_null_homepage_reads_as_absent() {
    let text = r##"{
        "id": "x", "version": "1.0.0", "author": "a", "homepage": null,
        "icon": "i", "title": "t", "subtitle": "s", "description": "d",
        "bgColor": "#fff", "categories": [], "bundle": "b.mjs"
    }"##;
    let manifest = plugin_json_from_json(&parse(text)).expect("decodes");
    let entries = manifest.into_entries();
    assert_eq!(entries[0].homepage, None);
}

#[test]
fn invalid_plugins_field_falls_back_to_single_form() {
    // `plugins` is present but not an array of entries, and the object is
    // itself not a valid entry: the manifest is rejected.
    let v = parse(r##"{"plugins": 5}"##);
    assert!(plugin_json_from_json(&v).is_none());
}

#[test]
fn entries_are_tagged_with_their_package() {
    let manifest = plugin_json_from_json(&parse(SINGLE_MANIFEST)).expect("decodes");
    let entries = manifest.into_entries();
    let metas = metas_from_entries(&entries, "usefultools-plugin-demo");
    assert_eq!(metas.len(), 1);
    assert_eq!(metas[0].package_name, "usefultools-plugin-demo");
    assert_eq!(metas[0].bundle_file, "dist/x.mjs");
    assert_eq!(metas[0].downloads, None);
}

fn sample_meta() -> PluginMeta {
    PluginMeta {
        id: "x".to_string(),
        version: "1.0.0".to_string(),
        author: "a".to_string(),
        homepage: Some("https://example.org".to_string()),
        icon: "i".to_string(),
        title: "t".to_string(),
        subtitle: "s".to_string(),
        description: "d".to_string(),
        bg_color: "#fff".to_string(),
        text_color: None,
        categories: vec!["tools".to_string()],
        required_caps: vec![],
        package_name: "usefultools-plugin-demo".to_string(),
        bundle_file: "dist/x.mjs".to_string(),
        downloads: Some(7),
        updated_at: None,
        created_at: Some("2024-01-01".to_string()),
    }
}

#[test]
fn descriptor_round_trips_through_its_persisted_form() {
    let m = sample_meta();
    let text = to_json_text(&meta_to_json(&m));
    let back = meta_from_json(&parse_json(&text).expect("valid JSON")).expect("decodes");
    assert_eq!(back, m);
}

#[test]
fn descriptor_with_unreadable_shape_is_rejected() {
    let v = parse(r##"{"id": "x", "version": 3}"##);
    assert!(meta_from_json(&v).is_none());
}

#[test]
fn descriptor_rating_must_be_numeric_or_absent() {
    let m = sample_meta();
    let text = to_json_text(&meta_to_json(&m));
    let with_rating = text.replace("\"rating\": null", "\"rating\": 4.5");
    assert!(meta_from_json(&parse(&with_rating)).is_some());
    let bad_rating = text.replace("\"rating\": null", "\"rating\": \"high\"");
    assert!(meta_from_json(&parse(&bad_rating)).is_none());
}

#[test]
fn descriptor_downloads_must_be_a_whole_count() {
    let mut m = sample_meta();
    m.downloads = None;
    let mut text = to_json_text(&meta_to_json(&m));
    text = text.replace("\"downloads\": null", "\"downloads\": 1.5");
    assert!(meta_from_json(&parse(&text)).is_none());
    text = text.replace("\"downloads\": 1.5", "\"downloads\": 12");
    let back = meta_from_json(&parse(&text)).expect("decodes");
    assert_eq!(back.downloads, Some(12));
}
