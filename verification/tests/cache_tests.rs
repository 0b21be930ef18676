use plugin_registry::cache::{
    cache_from_text, cache_to_json, is_fresh, plan_fetch, settle_refresh, FetchStep,
    RegistryCache,
};
use plugin_registry::errors::RegistryError;
use plugin_registry::json::to_json_text;
use plugin_registry::meta::PluginMeta;
use plugin_registry::DEFAULT_TTL_MS;

fn meta(id: &str, version: &str) -> PluginMeta {
    PluginMeta {
        id: id.to_string(),
        version: version.to_string(),
        author: "a".to_string(),
        homepage: None,
        icon: "i".to_string(),
        title: "t".to_string(),
        subtitle: "s".to_string(),
        description: "d".to_string(),
        bg_color: "#fff".to_string(),
        text_color: None,
        categories: vec![],
        required_caps: vec![],
        package_name: "usefultools-plugin-demo".to_string(),
        bundle_file: "dist/x.mjs".to_string(),
        downloads: None,
        updated_at: None,
        created_at: None,
    }
}

fn snapshot(fetched_at: u64, ttl: u64) -> RegistryCache {
    RegistryCache { fetched_at, ttl, plugins: vec![meta("x", "1.0.0")] }
}

#[test]
fn freshness_ends_exactly_at_expiry() {
    let c = snapshot(1000, 50);
    assert!(is_fresh(&c, 1049));
    assert!(!is_fresh(&c, 1050));
    assert!(!is_fresh(&c, 2000));
}

#[test]
fn fresh_snapshot_is_served_without_refresh() {
    let c = snapshot(1000, 50);
    match plan_fetch(Some(c), false, 1049) {
        FetchStep::Serve(list) => {
            assert_eq!(list.len(), 1);
            assert_eq!(list[0].id, "x");
        },
        FetchStep::Refresh(_) => panic!("a fresh snapshot must be served"),
    }
}

#[test]
fn forced_fetch_always_refreshes() {
    let c = snapshot(1000, 50);
    assert!(matches!(plan_fetch(Some(c), true, 1049), FetchStep::Refresh(Some(_))));
    assert!(matches!(plan_fetch(None, false, 0), FetchStep::Refresh(None)));
}

#[test]
fn expired_snapshot_triggers_a_refresh() {
    let c = snapshot(1000, 50);
    assert!(matches!(plan_fetch(Some(c), false, 1050), FetchStep::Refresh(Some(_))));
}

#[test]
fn failed_refresh_falls_back_to_the_expired_list() {
    let c = snapshot(1000, 50);
    let (result, to_persist) = settle_refresh(
        Some(c),
        Err(RegistryError::Transport("down".to_string())),
        2000,
    );
    let list = result.expect("the stale list is still served");
    assert_eq!(list.len(), 1);
    assert_eq!(list[0].version, "1.0.0");
    assert!(to_persist.is_none());
}

#[test]
fn successful_refresh_returns_fresh_list_and_persists_a_snapshot() {
    let fresh = vec![meta("x", "2.0.0"), meta("y", "1.0.0")];
    let (result, to_persist) = settle_refresh(None, Ok(fresh), 7777);
    let list = result.expect("fresh list is returned");
    assert_eq!(list.len(), 2);
    let snap = to_persist.expect("a snapshot is persisted");
    assert_eq!(snap.fetched_at, 7777);
    assert_eq!(snap.ttl, DEFAULT_TTL_MS);
    assert_eq!(snap.plugins.len(), 2);
    assert_eq!(snap.plugins[0].version, "2.0.0");
}

#[test]
fn failed_refresh_without_cache_is_the_combined_error() {
    let (result, to_persist) = settle_refresh(
        None,
        Err(RegistryError::Transport("down".to_string())),
        0,
    );
    assert!(to_persist.is_none());
    match result {
        Err(RegistryError::NoNetworkNoCache(d)) => {
            assert_eq!(d, "network request failed: down");
        },
        other => panic!("expected the combined error, got {:?}", other),
    }
}

#[test]
fn snapshot_round_trips_through_its_persisted_form() {
    let c = snapshot(123456, DEFAULT_TTL_MS);
    let text = to_json_text(&cache_to_json(&c));
    let back = cache_from_text(Some(&text)).expect("snapshot decodes");
    assert_eq!(back, c);
}

#[test]
fn unreadable_or_malformed_cache_file_counts_as_no_snapshot() {
    assert!(cache_from_text(None).is_none());
    let not_json = "###".to_string();
    assert!(cache_from_text(Some(&not_json)).is_none());
    let wrong_shape = r##"{"fetchedAt": 1}"##.to_string();
    assert!(cache_from_text(Some(&wrong_shape)).is_none());
}

#[test]
fn snapshot_instants_must_be_unsigned_integers() {
    let negative = r##"{"fetchedAt": -5, "ttl": 10, "plugins": []}"##.to_string();
    assert!(cache_from_text(Some(&negative)).is_none());
    let fractional = r##"{"fetchedAt": 5.5, "ttl": 10, "plugins": []}"##.to_string();
    assert!(cache_from_text(Some(&fractional)).is_none());
    let whole = r##"{"fetchedAt": 5, "ttl": 10, "plugins": []}"##.to_string();
    let c = cache_from_text(Some(&whole)).expect("decodes");
    assert_eq!(c.fetched_at, 5);
    assert_eq!(c.ttl, 10);
    assert_eq!(c.plugins.len(), 0);
}
