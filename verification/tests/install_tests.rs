use std::io::Write;

use plugin_registry::config::{config_from_text, config_to_json, PluginConfig};
use plugin_registry::install::{
    bundle_entry_path, check_updates, collect_installed, extract_bundle, local_debug_metas,
    make_installed_info, uninstall_from, InstalledPluginInfo, ScanRecord,
};
use plugin_registry::json::to_json_text;
use plugin_registry::manifest::plugin_json_from_json;
use plugin_registry::json::parse_json;
use plugin_registry::meta::{meta_to_json, PluginMeta};
use plugin_registry::registry::plugins_from_tarball;

fn meta(id: &str, version: &str) -> PluginMeta {
    PluginMeta {
        id: id.to_string(),
        version: version.to_string(),
        author: "a".to_string(),
        homepage: None,
        icon: "i".to_string(),
        title: "t".to_string(),
        subtitle: "s".to_string(),
        description: "d".to_string(),
        bg_color: "#fff".to_string(),
        text_color: None,
        categories: vec![],
        required_caps: vec![],
        package_name: "usefultools-plugin-demo".to_string(),
        bundle_file: "dist/x.mjs".to_string(),
        downloads: None,
        updated_at: None,
        created_at: None,
    }
}

fn record(id: &str, m: &PluginMeta) -> ScanRecord {
    ScanRecord {
        dir_name: id.to_string(),
        is_dir: true,
        has_meta: true,
        has_bundle: true,
        meta_text: Some(to_json_text(&meta_to_json(m))),
        bundle_path: format!("/data/plugins/{}/bundle.mjs", id),
        times: Some((100, 200)),
    }
}

fn installed(id: &str, version: &str) -> InstalledPluginInfo {
    make_installed_info(meta(id, version), format!("/data/plugins/{}/bundle.mjs", id), 42)
}

#[test]
fn scan_excludes_incomplete_and_unparsable_children() {
    let good = record("x", &meta("x", "1.0.0"));
    let mut no_meta = record("a", &meta("a", "1.0.0"));
    no_meta.has_meta = false;
    let mut no_bundle = record("b", &meta("b", "1.0.0"));
    no_bundle.has_bundle = false;
    let mut bad_text = record("c", &meta("c", "1.0.0"));
    bad_text.meta_text = Some("not json".to_string());
    let mut not_dir = record("d", &meta("d", "1.0.0"));
    not_dir.is_dir = false;
    let records = vec![no_meta, good, no_bundle, bad_text, not_dir];
    let list = collect_installed(&records, 7);
    assert_eq!(list.len(), 1);
    assert_eq!(list[0].meta.id, "x");
    assert_eq!(list[0].installed_at, 100);
    assert_eq!(list[0].updated_at, 200);
    assert!(list[0].enabled);
}

#[test]
fn scan_falls_back_to_now_for_unreadable_times() {
    let mut rec = record("x", &meta("x", "1.0.0"));
    rec.times = None;
    let list = collect_installed(&vec![rec], 7);
    assert_eq!(list[0].installed_at, 7);
    assert_eq!(list[0].updated_at, 7);
}

#[test]
fn uninstalling_a_missing_id_is_success_and_changes_nothing() {
    let records = vec![record("x", &meta("x", "1.0.0"))];
    let after = uninstall_from(&records, "not-installed");
    assert_eq!(after.len(), 1);
    assert_eq!(after[0].dir_name, "x");
    let on_empty = uninstall_from(&Vec::new(), "anything");
    assert_eq!(on_empty.len(), 0);
}

#[test]
fn uninstalling_removes_exactly_the_named_directory() {
    let records = vec![
        record("x", &meta("x", "1.0.0")),
        record("y", &meta("y", "1.0.0")),
    ];
    let after = uninstall_from(&records, "x");
    assert_eq!(after.len(), 1);
    assert_eq!(after[0].dir_name, "y");
}

#[test]
fn updates_need_a_shared_id_and_a_differing_version() {
    let installed_list = vec![installed("x", "1.0.0"), installed("y", "2.0.0")];
    let remote = vec![
        meta("x", "1.1.0"),  // shared id, new version: selected
        meta("y", "2.0.0"),  // shared id, same version: excluded
        meta("z", "9.9.9"),  // unmatched id: excluded
    ];
    let updates = check_updates(&installed_list, &remote);
    assert_eq!(updates.len(), 1);
    assert_eq!(updates[0].id, "x");
    assert_eq!(updates[0].version, "1.1.0");
}

#[test]
fn no_updates_without_installed_plugins() {
    let updates = check_updates(&Vec::new(), &vec![meta("x", "1.0.0")]);
    assert_eq!(updates.len(), 0);
}

fn make_tgz(entries: &[(&str, &[u8])]) -> Vec<u8> {
    let mut builder = tar::Builder::new(Vec::new());
    for (path, data) in entries {
        let mut header = tar::Header::new_gnu();
        header.set_size(data.len() as u64);
        header.set_mode(0o644);
        header.set_cksum();
        builder.append_data(&mut header, path, *data).expect("append");
    }
    let tar_bytes = builder.into_inner().expect("finish tar");
    let mut encoder = flate2::write::GzEncoder::new(Vec::new(), flate2::Compression::default());
    encoder.write_all(&tar_bytes).expect("compress");
    encoder.finish().expect("finish gzip")
}

#[test]
fn synthetic_package_installs_and_uninstalls_end_to_end() {
    let manifest: &[u8] = br##"{
        "id": "x", "version": "1.0.0", "author": "a", "icon": "i",
        "title": "t", "subtitle": "s", "description": "d",
        "bgColor": "#fff", "categories": [], "bundle": "dist/x.mjs"
    }"##;
    let tgz = make_tgz(&[
        ("package/plugin.json", manifest),
        ("package/dist/x.mjs", b"export default 1;"),
    ]);

    // Resolve the archive into descriptors, as an install does.
    let metas = plugins_from_tarball(&tgz, "usefultools-plugin-demo").expect("resolves");
    assert_eq!(metas.len(), 1);
    let m = &metas[0];
    assert_eq!(m.id, "x");
    assert_eq!(m.version, "1.0.0");

    // Extract the bundle artifact named by the descriptor.
    assert_eq!(bundle_entry_path(&m.bundle_file), "package/dist/x.mjs");
    let bundle = extract_bundle(&tgz, &m.bundle_file).expect("bundle present");
    assert_eq!(bundle, b"export default 1;");

    // The install writes the bundle and the serialized descriptor; the
    // subsequent scan sees exactly that directory.
    let meta_text = to_json_text(&meta_to_json(m));
    let store = vec![ScanRecord {
        dir_name: m.id.clone(),
        is_dir: true,
        has_meta: true,
        has_bundle: true,
        meta_text: Some(meta_text),
        bundle_path: "/data/plugins/x/bundle.mjs".to_string(),
        times: Some((500, 500)),
    }];
    let list = collect_installed(&store, 999);
    assert_eq!(list.len(), 1);
    assert_eq!(list[0].meta.id, "x");
    assert!(!list[0].local_bundle_path.is_empty());

    // Uninstalling the id empties the root; the scan then sees nothing.
    let store_after = uninstall_from(&store, "x");
    let list_after = collect_installed(&store_after, 999);
    assert_eq!(list_after.len(), 0);
}

#[test]
fn fresh_install_is_stamped_with_the_current_instant() {
    let info = make_installed_info(meta("x", "1.0.0"), "/p/bundle.mjs".to_string(), 4242);
    assert_eq!(info.installed_at, 4242);
    assert_eq!(info.updated_at, 4242);
    assert_eq!(info.local_bundle_path, "/p/bundle.mjs");
    assert!(info.enabled);
}

#[test]
fn local_manifest_entries_without_their_bundle_are_skipped() {
    let manifest = parse_json(
        r##"{"plugins": [
            {"id": "p", "version": "1.0.0", "author": "a", "icon": "i",
             "title": "t", "subtitle": "s", "description": "d",
             "bgColor": "#fff", "categories": [], "bundle": "p.mjs"},
            {"id": "q", "version": "1.0.0", "author": "a", "icon": "i",
             "title": "t", "subtitle": "s", "description": "d",
             "bgColor": "#fff", "categories": [], "bundle": "q.mjs"}
        ]}"##,
    )
    .expect("valid JSON");
    let entries = plugin_json_from_json(&manifest).expect("decodes").into_entries();
    let pairs: Vec<_> = entries.into_iter().zip([true, false]).collect();
    let metas = local_debug_metas(&pairs).expect("one entry is usable");
    assert_eq!(metas.len(), 1);
    assert_eq!(metas[0].id, "p");
    assert_eq!(metas[0].package_name, "local-debug");

    let no_bundles: Vec<_> = pairs.into_iter().map(|(e, _)| (e, false)).collect();
    assert!(local_debug_metas(&no_bundles).is_err());
}

#[test]
fn config_falls_back_to_the_default_registry() {
    assert_eq!(config_from_text(None).registry, "https://registry.npmjs.org");
    let broken = "{{{".to_string();
    assert_eq!(config_from_text(Some(&broken)).registry, "https://registry.npmjs.org");
    let wrong = r##"{"mirror": "x"}"##.to_string();
    assert_eq!(config_from_text(Some(&wrong)).registry, "https://registry.npmjs.org");
}

#[test]
fn stored_config_round_trips() {
    let c = PluginConfig { registry: "https://mirror.example".to_string() };
    let text = to_json_text(&config_to_json(&c));
    let back = config_from_text(Some(&text));
    assert_eq!(back.registry, "https://mirror.example");
}
