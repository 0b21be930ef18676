//! The registry cache: a persisted catalog snapshot with an absolute expiry
//! instant, served as-is while fresh and kept indefinitely as a fallback for
//! the day the registry cannot be reached.

use vstd::prelude::*;
use vstd::string::StringExecFns;
use crate::DEFAULT_TTL_MS;
use crate::errors::{RegistryError, spec_message};
use crate::json::{
    JsonValue, json_of, parse_json, spec_json_get, spec_get_uint, json_get, get_uint,
    lemma_obj_get_found,
};
use crate::meta::{
    PluginMeta, PluginMetaV, spec_meta_of, meta_from_json, meta_to_json, clone_metas,
};

verus! {

broadcast use vstd::string::group_string_axioms;

/// Mathematical image of a [`RegistryCache`].
#[verifier::ext_equal]
pub ghost struct RegistryCacheV {
    pub fetched_at: u64,
    pub ttl: u64,
    pub plugins: Seq<PluginMetaV>,
}

/// A persisted registry snapshot: when it was fetched, how long it lives,
/// and the catalog it recorded. `fetched_at + ttl` is the absolute expiry
/// instant; a snapshot with no successor is kept indefinitely past expiry.
#[derive(Debug, Clone, PartialEq)]
pub struct RegistryCache {
    pub fetched_at: u64,
    pub ttl: u64,
    pub plugins: Vec<PluginMeta>,
}

impl View for RegistryCache {
    type V = RegistryCacheV;

    open spec fn view(&self) -> RegistryCacheV {
        RegistryCacheV {
            fetched_at: self.fetched_at,
            ttl: self.ttl,
            plugins: self.plugins.deep_view(),
        }
    }
}

impl DeepView for RegistryCache {
    type V = RegistryCacheV;

    open spec fn deep_view(&self) -> RegistryCacheV {
        self.view()
    }
}

/// The view of an optional snapshot.
pub open spec fn opt_cache_view(c: Option<RegistryCache>) -> Option<RegistryCacheV> {
    match c {
        Some(x) => Some(x@),
        None => None,
    }
}

/// A snapshot is fresh at `now` while `now` lies before its expiry instant
/// `fetched_at + ttl`.
pub open spec fn spec_is_fresh(c: RegistryCacheV, now: u64) -> bool {
    (now as int) < c.fetched_at + c.ttl
}

/// Decides freshness; the sum is taken exactly, without wrapping.
pub fn is_fresh(c: &RegistryCache, now: u64) -> (r: bool)
    ensures
        r == spec_is_fresh(c@, now),
{
    (now as u128) < (c.fetched_at as u128) + (c.ttl as u128)
}

/// A cached snapshot is served without any refresh exactly when no forced
/// refresh was asked, a snapshot exists, and it is still fresh.
pub open spec fn spec_serve_cached(cache: Option<RegistryCacheV>, force_refresh: bool, now: u64) -> bool {
    &&& !force_refresh
    &&& cache matches Some(c) && spec_is_fresh(c, now)
}

/// The first step of a fetch: serve the stored list as-is, or attempt a
/// refresh (the stored snapshot is carried along for the fallback).
pub enum FetchStep {
    Serve(Vec<PluginMeta>),
    Refresh(Option<RegistryCache>),
}

/// Decides the first step of a fetch. Only when the serve-cached condition
/// holds is the cached list returned — exactly as stored, with no network
/// involved; otherwise a refresh must be attempted.
pub fn plan_fetch(cache: Option<RegistryCache>, force_refresh: bool, now: u64) -> (r: FetchStep)
    ensures
        spec_serve_cached(opt_cache_view(cache), force_refresh, now) ==> (r
            matches FetchStep::Serve(l) && l.deep_view() == cache.unwrap()@.plugins),
        !spec_serve_cached(opt_cache_view(cache), force_refresh, now) ==> (r
            matches FetchStep::Refresh(c) && c == cache),
{
    match cache {
        Some(c) => {
            if !force_refresh && is_fresh(&c, now) {
                FetchStep::Serve(c.plugins)
            } else {
                FetchStep::Refresh(Some(c))
            }
        },
        None => FetchStep::Refresh(None),
    }
}

/// The list a settled fetch returns: a successful refresh's fresh list; a
/// failed refresh falls back to any stored snapshot, even an expired one;
/// with neither, the fetch fails.
pub open spec fn spec_fetch_result(cache: Option<RegistryCacheV>, fresh: Option<Seq<PluginMetaV>>) -> Option<
    Seq<PluginMetaV>,
> {
    match fresh {
        Some(l) => Some(l),
        None => match cache {
            Some(c) => Some(c.plugins),
            None => None,
        },
    }
}

/// The snapshot a settled fetch persists: only a successful refresh writes
/// one, stamped with the refresh time and the fixed lifetime.
pub open spec fn spec_new_snapshot(fresh: Option<Seq<PluginMetaV>>, now: u64) -> Option<
    RegistryCacheV,
> {
    match fresh {
        Some(l) => Some(RegistryCacheV { fetched_at: now, ttl: DEFAULT_TTL_MS, plugins: l }),
        None => None,
    }
}

/// Settles a fetch whose refresh was attempted: pairs the list owed to the
/// caller with the snapshot to persist, per [`spec_fetch_result`] and
/// [`spec_new_snapshot`]. A refresh failure with a stored snapshot yields
/// that snapshot's list unchanged; without one it yields the combined
/// no-network-and-no-cache error carrying the refresh failure's description.
pub fn settle_refresh(
    cache: Option<RegistryCache>,
    outcome: Result<Vec<PluginMeta>, RegistryError>,
    now: u64,
) -> (r: (Result<Vec<PluginMeta>, RegistryError>, Option<RegistryCache>))
    ensures
        ({
            let fresh = match outcome {
                Ok(l) => Some(l.deep_view()),
                Err(_) => None,
            };
            &&& match spec_fetch_result(opt_cache_view(cache), fresh) {
                Some(l) => r.0 matches Ok(v) && v.deep_view() == l,
                None => r.0 matches Err(e2) && outcome matches Err(e1) && e2
                    matches RegistryError::NoNetworkNoCache(d) && d@ == spec_message(e1),
            }
            &&& opt_cache_view(r.1) == spec_new_snapshot(fresh, now)
        }),
{
    match outcome {
        Ok(list) => {
            let snapshot = RegistryCache {
                fetched_at: now,
                ttl: DEFAULT_TTL_MS,
                plugins: clone_metas(&list),
            };
            proof {
                assert(snapshot@ =~= spec_new_snapshot(Some(list.deep_view()), now).unwrap());
            }
            (Ok(list), Some(snapshot))
        },
        Err(e) => match cache {
            Some(c) => (Ok(c.plugins), None),
            None => {
                let d = e.message();
                (Err(RegistryError::NoNetworkNoCache(d)), None)
            },
        },
    }
}

/// Law: an unforced fetch before a snapshot's expiry serves exactly the
/// stored list; the serve-cached condition holds, so no refresh — and no
/// network request — is planned.
pub proof fn lemma_fresh_snapshot_served(c: RegistryCacheV, now: u64)
    requires
        (now as int) < c.fetched_at + c.ttl,
    ensures
        spec_serve_cached(Some(c), false, now),
        spec_fetch_result(Some(c), None) == Some(c.plugins),
{
}

/// Law: an unforced fetch at or past a snapshot's expiry plans a refresh,
/// and when that refresh fails the prior — expired — list is returned
/// unchanged.
pub proof fn lemma_expired_snapshot_falls_back(c: RegistryCacheV, now: u64)
    requires
        (now as int) >= c.fetched_at + c.ttl,
    ensures
        !spec_serve_cached(Some(c), false, now),
        spec_fetch_result(Some(c), None) == Some(c.plugins),
{
}

/// What a sequence of JSON values decodes to when every element is a
/// persisted descriptor.
pub open spec fn spec_metas_of(vals: Seq<JsonValue>) -> Option<Seq<PluginMetaV>>
    decreases vals.len(),
{
    if vals.len() == 0 {
        Some(Seq::empty())
    } else {
        match spec_meta_of(vals[0]) {
            Some(m) => match spec_metas_of(vals.drop_first()) {
                Some(rest) => Some(seq![m] + rest),
                None => None,
            },
            None => None,
        }
    }
}

/// Decodes an array of persisted descriptors.
pub fn metas_from_json(vals: &Vec<JsonValue>) -> (r: Option<Vec<PluginMeta>>)
    ensures
        match r {
            Some(out) => spec_metas_of(vals@) == Some(out.deep_view()),
            None => spec_metas_of(vals@) is None,
        },
{
    let n = vals.len();
    let mut out: Vec<PluginMeta> = Vec::new();
    let mut i: usize = 0;
    proof {
        assert(vals@.skip(0) =~= vals@);
    }
    while i < n
        invariant
            n == vals@.len(),
            0 <= i <= n,
            out.deep_view().len() == i,
            match spec_metas_of(vals@.skip(i as int)) {
                Some(rest) => spec_metas_of(vals@) == Some(out.deep_view() + rest),
                None => spec_metas_of(vals@) is None,
            },
        decreases n - i,
    {
        proof {
            assert(vals@.skip(i as int)[0] == vals@[i as int]);
            assert(vals@.skip(i as int).drop_first() =~= vals@.skip(i as int + 1));
        }
        match meta_from_json(&vals[i]) {
            Some(m) => {
                let ghost prior = out.deep_view();
                let ghost mv = m@;
                out.push(m);
                proof {
                    assert(out.deep_view() =~= prior.push(mv));
                    match spec_metas_of(vals@.skip(i as int + 1)) {
                        Some(rest2) => {
                            assert(prior.push(mv) + rest2 =~= prior + (seq![mv] + rest2));
                        },
                        None => {
                        },
                    }
                }
                i += 1;
            },
            None => {
                return None;
            },
        }
    }
    proof {
        assert(vals@.skip(n as int) =~= Seq::<JsonValue>::empty());
        assert(out.deep_view() + Seq::<PluginMetaV>::empty() =~= out.deep_view());
    }
    Some(out)
}

/// What a persisted snapshot document decodes to: the fetch instant, the
/// lifetime, and the recorded catalog, all required.
pub open spec fn spec_cache_of(v: JsonValue) -> Option<RegistryCacheV> {
    if spec_get_uint(v, "fetchedAt"@) is Some && spec_get_uint(v, "ttl"@) is Some && (match spec_json_get(
        v,
        "plugins"@,
    ) {
        Some(JsonValue::Arr(a)) => spec_metas_of(a@) is Some,
        _ => false,
    }) {
        Some(
            RegistryCacheV {
                fetched_at: spec_get_uint(v, "fetchedAt"@).unwrap(),
                ttl: spec_get_uint(v, "ttl"@).unwrap(),
                plugins: (match spec_json_get(v, "plugins"@) {
                    Some(JsonValue::Arr(a)) => spec_metas_of(a@).unwrap(),
                    _ => Seq::empty(),
                }),
            },
        )
    } else {
        None
    }
}

/// Decodes a persisted snapshot from a JSON value.
pub fn cache_from_json(v: &JsonValue) -> (r: Option<RegistryCache>)
    ensures
        match r {
            Some(c) => spec_cache_of(*v) == Some(c@),
            None => spec_cache_of(*v) is None,
        },
{
    let fetched_at = match get_uint(v, "fetchedAt") {
        Some(u) => u,
        None => {
            return None;
        },
    };
    let ttl = match get_uint(v, "ttl") {
        Some(u) => u,
        None => {
            return None;
        },
    };
    let plugins = match json_get(v, "plugins") {
        Some(JsonValue::Arr(a)) => match metas_from_json(a) {
            Some(ms) => ms,
            None => {
                return None;
            },
        },
        _ => {
            return None;
        },
    };
    let c = RegistryCache { fetched_at, ttl, plugins };
    proof {
        assert(spec_cache_of(*v) == Some(c@)) by {
            assert(spec_cache_of(*v).unwrap() =~= c@);
        }
    }
    Some(c)
}

/// What the stored snapshot file holds: a snapshot only when the file was
/// readable, parsed, and had the snapshot shape.
pub open spec fn spec_stored_cache(content: Option<Seq<char>>) -> Option<RegistryCacheV> {
    match content {
        Some(text) => match json_of(text) {
            Some(v) => spec_cache_of(v),
            None => None,
        },
        None => None,
    }
}

/// Reads the stored snapshot: an unreadable file, text that is not JSON,
/// and a document of the wrong shape all count as "no snapshot stored".
pub fn cache_from_text(content: Option<&String>) -> (r: Option<RegistryCache>)
    ensures
        ({
            let stored = spec_stored_cache(
                match content {
                    Some(t) => Some(t@),
                    None => None,
                },
            );
            match r {
                Some(c) => stored == Some(c@),
                None => stored is None,
            }
        }),
{
    let text = match content {
        Some(t) => t,
        None => {
            return None;
        },
    };
    let parsed = match parse_json(text.as_str()) {
        Some(v) => v,
        None => {
            return None;
        },
    };
    cache_from_json(&parsed)
}

/// An array whose elements encode exactly the given descriptors decodes
/// back to their views.
proof fn lemma_metas_of_pointwise(vals: Seq<JsonValue>, views: Seq<PluginMetaV>)
    requires
        vals.len() == views.len(),
        forall|j: int| 0 <= j < vals.len() ==> spec_meta_of(#[trigger] vals[j]) == Some(views[j]),
    ensures
        spec_metas_of(vals) == Some(views),
    decreases vals.len(),
{
    if vals.len() == 0 {
        assert(views =~= Seq::<PluginMetaV>::empty());
    } else {
        lemma_metas_of_pointwise(vals.drop_first(), views.drop_first());
        assert(spec_metas_of(vals) == Some(seq![views[0]] + views.drop_first()));
        assert(seq![views[0]] + views.drop_first() =~= views);
    }
}

/// Encodes a snapshot as the JSON object the cache file persists; the
/// encoding decodes back to the same snapshot.
pub fn cache_to_json(c: &RegistryCache) -> (r: JsonValue)
    ensures
        spec_cache_of(r) == Some(c@),
{
    let n = c.plugins.len();
    let mut arr: Vec<JsonValue> = Vec::new();
    let mut i: usize = 0;
    while i < n
        invariant
            n == c.plugins@.len(),
            0 <= i <= n,
            arr@.len() == i,
            forall|j: int| 0 <= j < i ==> spec_meta_of(#[trigger] arr@[j]) == Some(
                c.plugins.deep_view()[j],
            ),
        decreases n - i,
    {
        arr.push(meta_to_json(&c.plugins[i]));
        i += 1;
    }
    proof {
        lemma_metas_of_pointwise(arr@, c.plugins.deep_view());
    }
    let mut fields: Vec<(String, JsonValue)> = Vec::new();
    fields.push((String::from_str("fetchedAt"), JsonValue::UInt(c.fetched_at)));
    fields.push((String::from_str("ttl"), JsonValue::UInt(c.ttl)));
    fields.push((String::from_str("plugins"), JsonValue::Arr(arr)));
    let ghost f = fields@;
    let r = JsonValue::Obj(fields);
    proof {
        reveal_strlit("fetchedAt");
        reveal_strlit("ttl");
        reveal_strlit("plugins");
        assert(f[0].0@ == "fetchedAt"@);
        assert(f[1].0@ == "ttl"@);
        assert(f[2].0@ == "plugins"@);
        lemma_obj_get_found(f, "fetchedAt"@, 0);
        lemma_obj_get_found(f, "ttl"@, 1);
        lemma_obj_get_found(f, "plugins"@, 2);
        assert(spec_cache_of(r) == Some(c@)) by {
            assert(spec_cache_of(r).unwrap() =~= c@);
        }
    }
    r
}

} // verus!
