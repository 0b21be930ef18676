//! The registry resolver: which packages count as plugin packages, the
//! addresses the registry is queried at, what its responses must look like,
//! and how a downloaded package archive becomes a list of descriptors.

use vstd::prelude::*;
use vstd::string::{StringExecFns, StrSliceExecFns};
use crate::errors::RegistryError;
use crate::json::{
    JsonValue, json_of, parse_json, spec_json_get, spec_obj_get, spec_get_string,
    spec_get_opt_string, json_get, get_string, get_opt_string,
};
use crate::manifest::{spec_plugin_json_of, spec_into_entries, plugin_json_from_json};
use crate::meta::{PluginMeta, PluginMetaV, spec_meta_of_entry, metas_from_entries};
use crate::archive::{spec_extract_text, extract_file_from_tarball};
use crate::text::{is_prefix_of, is_prefix_at, str_eq, str_has_prefix, str_has_prefix_at};

verus! {

broadcast use vstd::string::group_string_axioms;

/// The naming-convention keyword every plugin package name carries.
pub open spec fn spec_keyword() -> Seq<char> {
    "usefultools-plugin"@
}

/// The package that is ordered first whenever it appears.
pub open spec fn spec_official_package() -> Seq<char> {
    "usefultools-plugin-official"@
}

/// The admission filter: a name qualifies when it starts with the keyword,
/// or — for scoped names — when the part after the first `/` starts with it.
pub open spec fn spec_is_plugin_name(s: Seq<char>) -> bool {
    is_prefix_of(spec_keyword(), s) || (exists|i: int|
        0 <= i < s.len() && s[i] == '/' && (forall|j: int| 0 <= j < i ==> s[j] != '/')
            && is_prefix_at(spec_keyword(), s, i + 1))
}

/// Decides whether a package name is admitted as a plugin package; the sole
/// admission filter, applied to every candidate however it was found.
pub fn is_usefultools_package(name: &str) -> (r: bool)
    ensures
        r == spec_is_plugin_name(name@),
{
    if str_has_prefix(name, "usefultools-plugin") {
        return true;
    }
    let n = name.unicode_len();
    let mut i: usize = 0;
    while i < n
        invariant
            n == name@.len(),
            0 <= i <= n,
            !is_prefix_of(spec_keyword(), name@),
            forall|j: int| 0 <= j < i ==> name@[j] != '/',
        decreases n - i,
    {
        if name.get_char(i) == '/' {
            let r = str_has_prefix_at(name, "usefultools-plugin", i + 1);
            proof {
                if r {
                    assert(spec_is_plugin_name(name@));
                } else {
                    assert forall|i2: int|
                        !(0 <= i2 < name@.len() && name@[i2] == '/' && (forall|j: int|
                            0 <= j < i2 ==> name@[j] != '/') && is_prefix_at(
                            spec_keyword(),
                            name@,
                            i2 + 1,
                        )) by {
                        if 0 <= i2 < name@.len() && name@[i2] == '/' && (forall|j: int|
                            0 <= j < i2 ==> name@[j] != '/') {
                            if i2 < i as int {
                                assert(name@[i2] != '/');
                            } else if i2 > i as int {
                                assert(name@[i as int] != '/');
                            }
                        }
                    }
                }
            }
            return r;
        }
        i += 1;
    }
    proof {
        assert forall|i2: int|
            !(0 <= i2 < name@.len() && name@[i2] == '/' && (forall|j: int|
                0 <= j < i2 ==> name@[j] != '/') && is_prefix_at(spec_keyword(), name@, i2 + 1))
            by {
            if 0 <= i2 < name@.len() {
                assert(name@[i2] != '/');
            }
        }
    }
    false
}

/// The address one search request goes to:
/// `{registry}/-/v1/search?text={query}&size=100`.
pub fn search_url(registry: &str, query: &str) -> (r: String)
    ensures
        r@ == registry@ + "/-/v1/search?text="@ + query@ + "&size=100"@,
{
    let mut u = String::from_str(registry);
    u.append("/-/v1/search?text=");
    u.append(query);
    u.append("&size=100");
    u
}

/// The two search texts the resolver tries: a keyword-scoped search and a
/// free-text search for the same keyword.
pub fn search_queries() -> (r: (String, String))
    ensures
        r.0@ == "keywords:"@ + spec_keyword(),
        r.1@ == spec_keyword(),
{
    let mut q = String::from_str("keywords:");
    q.append("usefultools-plugin");
    (q, String::from_str("usefultools-plugin"))
}

/// The address a package's metadata is fetched from: `{registry}/{name}`.
pub fn package_url(registry: &str, package_name: &str) -> (r: String)
    ensures
        r@ == registry@ + "/"@ + package_name@,
{
    let mut u = String::from_str(registry);
    u.append("/");
    u.append(package_name);
    u
}

/// A search hit's optional `links` object: absent or `null` is fine, an
/// object must carry only well-shaped optional addresses, anything else is
/// a decode failure.
pub open spec fn spec_links_ok(p: JsonValue) -> bool {
    match spec_json_get(p, "links"@) {
        None => true,
        Some(JsonValue::Null) => true,
        Some(l @ JsonValue::Obj(_)) => spec_get_opt_string(l, "npm"@) is Some
            && spec_get_opt_string(l, "homepage"@) is Some && spec_get_opt_string(
            l,
            "repository"@,
        ) is Some,
        Some(_) => false,
    }
}

/// The package name one search hit carries: its `package` object's `name`,
/// accepted only when `name` and `version` are strings and the optional
/// presentation fields have their expected shapes.
pub open spec fn spec_search_name_of(v: JsonValue) -> Option<String> {
    match spec_json_get(v, "package"@) {
        Some(p) => if spec_get_string(p, "version"@) is Some && spec_get_opt_string(
            p,
            "description"@,
        ) is Some && spec_get_opt_string(p, "date"@) is Some && spec_links_ok(p) {
            spec_get_string(p, "name"@)
        } else {
            None
        },
        None => None,
    }
}

/// Decodes one search hit; see [`spec_search_name_of`].
pub fn search_hit_name(v: &JsonValue) -> (r: Option<String>)
    ensures
        r == spec_search_name_of(*v),
{
    let p = match json_get(v, "package") {
        Some(p) => p,
        None => {
            return None;
        },
    };
    if get_string(p, "version").is_none() {
        return None;
    }
    if get_opt_string(p, "description").is_none() {
        return None;
    }
    if get_opt_string(p, "date").is_none() {
        return None;
    }
    match json_get(p, "links") {
        None => {},
        Some(JsonValue::Null) => {},
        Some(l @ JsonValue::Obj(_)) => {
            if get_opt_string(l, "npm").is_none() {
                return None;
            }
            if get_opt_string(l, "homepage").is_none() {
                return None;
            }
            if get_opt_string(l, "repository").is_none() {
                return None;
            }
        },
        Some(_) => {
            return None;
        },
    }
    get_string(p, "name")
}

/// The names a search response's hit list carries, when every hit is valid.
pub open spec fn spec_search_names(vals: Seq<JsonValue>) -> Option<Seq<String>>
    decreases vals.len(),
{
    if vals.len() == 0 {
        Some(Seq::empty())
    } else {
        match spec_search_name_of(vals[0]) {
            Some(name) => match spec_search_names(vals.drop_first()) {
                Some(rest) => Some(seq![name] + rest),
                None => None,
            },
            None => None,
        }
    }
}

/// The names a whole search response carries: its `objects` array's hits.
pub open spec fn spec_search_response_names(v: JsonValue) -> Option<Seq<String>> {
    match spec_json_get(v, "objects"@) {
        Some(JsonValue::Arr(a)) => spec_search_names(a@),
        _ => None,
    }
}

/// Extracts the package names from one search response body. Search is
/// advisory and never fatal: a missing body (the request failed), text that
/// is not JSON, and a response of the wrong shape all yield the empty list.
pub fn search_names_or_empty(body: Option<&String>) -> (r: Vec<String>)
    ensures
        ({
            let names = match body {
                Some(t) => match json_of(t@) {
                    Some(v) => spec_search_response_names(v),
                    None => None,
                },
                None => None,
            };
            match names {
                Some(ns) => r@ == ns,
                None => r@ == Seq::<String>::empty(),
            }
        }),
{
    let text = match body {
        Some(t) => t,
        None => {
            return Vec::new();
        },
    };
    let parsed = match parse_json(text.as_str()) {
        Some(v) => v,
        None => {
            return Vec::new();
        },
    };
    let vals = match json_get(&parsed, "objects") {
        Some(JsonValue::Arr(a)) => a,
        _ => {
            return Vec::new();
        },
    };
    let n = vals.len();
    let mut out: Vec<String> = Vec::new();
    let mut i: usize = 0;
    proof {
        assert(vals@.skip(0) =~= vals@);
    }
    while i < n
        invariant
            n == vals@.len(),
            0 <= i <= n,
            out@.len() == i,
            body == Some(text),
            json_of(text@) == Some(parsed),
            spec_search_response_names(parsed) == spec_search_names(vals@),
            match spec_search_names(vals@.skip(i as int)) {
                Some(rest) => spec_search_names(vals@) == Some(out@ + rest),
                None => spec_search_names(vals@) is None,
            },
        decreases n - i,
    {
        proof {
            assert(vals@.skip(i as int)[0] == vals@[i as int]);
            assert(vals@.skip(i as int).drop_first() =~= vals@.skip(i as int + 1));
        }
        let name = match search_hit_name(&vals[i]) {
            Some(s) => s,
            None => {
                return Vec::new();
            },
        };
        let ghost prior = out@;
        let ghost namev = name;
        out.push(name);
        proof {
            match spec_search_names(vals@.skip(i as int + 1)) {
                Some(rest2) => {
                    assert(prior.push(namev) + rest2 =~= prior + (seq![namev] + rest2));
                },
                None => {
                },
            }
        }
        i += 1;
    }
    proof {
        assert(vals@.skip(n as int) =~= Seq::<JsonValue>::empty());
        assert(out@ + Seq::<String>::empty() =~= out@);
    }
    out
}

/// One step of candidate merging: an admitted, not yet seen name is added —
/// the official package at the front, every other at the back.
pub open spec fn spec_merge_step(acc: Seq<Seq<char>>, name: Seq<char>) -> Seq<Seq<char>> {
    if spec_is_plugin_name(name) && !acc.contains(name) {
        if name == spec_official_package() {
            seq![name] + acc
        } else {
            acc.push(name)
        }
    } else {
        acc
    }
}

/// The candidate list the two searches merge into, in first-seen order with
/// the official package kept at the front.
pub open spec fn spec_merge(names: Seq<Seq<char>>) -> Seq<Seq<char>> {
    names.fold_left(Seq::empty(), |acc: Seq<Seq<char>>, n: Seq<char>| spec_merge_step(acc, n))
}

/// Whether the list already holds the given name.
pub fn contains_str(v: &Vec<String>, s: &str) -> (r: bool)
    ensures
        r == v.deep_view().contains(s@),
{
    let n = v.len();
    let mut i: usize = 0;
    while i < n
        invariant
            n == v@.len(),
            0 <= i <= n,
            forall|j: int| 0 <= j < i ==> v.deep_view()[j] != s@,
        decreases n - i,
    {
        if str_eq(v[i].as_str(), s) {
            proof {
                assert(v.deep_view()[i as int] == s@);
            }
            return true;
        }
        i += 1;
    }
    proof {
        assert forall|j: int| 0 <= j < v.deep_view().len() implies v.deep_view()[j] != s@ by {}
    }
    false
}

/// Merges one candidate into the list; see [`spec_merge_step`].
pub fn merge_candidate(out: &mut Vec<String>, name: &str)
    ensures
        final(out).deep_view() == spec_merge_step(old(out).deep_view(), name@),
{
    if !is_usefultools_package(name) {
        return ;
    }
    if contains_str(out, name) {
        return ;
    }
    if str_eq(name, "usefultools-plugin-official") {
        let ghost prior = out.deep_view();
        out.insert(0, String::from_str(name));
        proof {
            assert(out.deep_view() =~= seq![name@] + prior);
        }
    } else {
        let ghost prior = out.deep_view();
        out.push(String::from_str(name));
        proof {
            assert(out.deep_view() =~= prior.push(name@));
        }
    }
}

/// Merges the hits of the keyword search and the free-text search into one
/// deduplicated candidate list; see [`spec_merge`].
pub fn merge_candidates(keyword_results: &Vec<String>, text_results: &Vec<String>) -> (r: Vec<
    String,
>)
    ensures
        r.deep_view() == spec_merge(keyword_results.deep_view() + text_results.deep_view()),
{
    let ghost full = keyword_results.deep_view() + text_results.deep_view();
    let ghost step = |acc: Seq<Seq<char>>, n: Seq<char>| spec_merge_step(acc, n);
    let mut out: Vec<String> = Vec::new();
    let ka = keyword_results.len();
    let mut i: usize = 0;
    proof {
        assert(full.take(0) =~= Seq::<Seq<char>>::empty());
    }
    while i < ka
        invariant
            ka == keyword_results@.len(),
            full == keyword_results.deep_view() + text_results.deep_view(),
            step == (|acc: Seq<Seq<char>>, n: Seq<char>| spec_merge_step(acc, n)),
            0 <= i <= ka,
            full.len() == keyword_results@.len() + text_results@.len(),
            out.deep_view() == full.take(i as int).fold_left(Seq::<Seq<char>>::empty(), step),
        decreases ka - i,
    {
        merge_candidate(&mut out, keyword_results[i].as_str());
        proof {
            assert(full.take(i as int + 1).drop_last() =~= full.take(i as int));
            assert(full.take(i as int + 1).last() == keyword_results.deep_view()[i as int]);
        }
        i += 1;
    }
    let tb = text_results.len();
    let mut k: usize = 0;
    while k < tb
        invariant
            ka == keyword_results@.len(),
            tb == text_results@.len(),
            full == keyword_results.deep_view() + text_results.deep_view(),
            step == (|acc: Seq<Seq<char>>, n: Seq<char>| spec_merge_step(acc, n)),
            0 <= k <= tb,
            full.len() == ka + tb,
            out.deep_view() == full.take(ka + k).fold_left(Seq::<Seq<char>>::empty(), step),
        decreases tb - k,
    {
        merge_candidate(&mut out, text_results[k].as_str());
        proof {
            assert(full.take(ka + k + 1).drop_last() =~= full.take(ka + k));
            assert(full.take(ka + k + 1).last() == text_results.deep_view()[k as int]);
        }
        k += 1;
    }
    proof {
        assert(full.take(full.len() as int) =~= full);
    }
    out
}

/// Law: the merged candidate list holds only admitted names, and no name
/// twice.
pub proof fn lemma_merge_sound(names: Seq<Seq<char>>)
    ensures
        forall|i: int| 0 <= i < spec_merge(names).len() ==> spec_is_plugin_name(
            #[trigger] spec_merge(names)[i],
        ),
        forall|i: int, j: int| 0 <= i < j < spec_merge(names).len() ==> spec_merge(names)[i]
            != spec_merge(names)[j],
    decreases names.len(),
{
    if names.len() == 0 {
    } else {
        lemma_merge_sound(names.drop_last());
        let acc = spec_merge(names.drop_last());
        let name = names.last();
        assert(spec_merge(names) == spec_merge_step(acc, name));
        if spec_is_plugin_name(name) && !acc.contains(name) {
            assert(forall|j: int| 0 <= j < acc.len() ==> acc[j] != name);
            if name == spec_official_package() {
                let r = seq![name] + acc;
                assert(forall|i: int| 0 < i < r.len() ==> r[i] == acc[i - 1]);
            } else {
                let r = acc.push(name);
                assert(forall|i: int| 0 <= i < acc.len() ==> r[i] == acc[i]);
            }
        }
    }
}

/// Law: whenever the official package is among the merged candidates, it
/// stands first.
pub proof fn lemma_merge_official_first(names: Seq<Seq<char>>)
    ensures
        spec_merge(names).contains(spec_official_package()) ==> spec_merge(names)[0]
            == spec_official_package(),
    decreases names.len(),
{
    if names.len() == 0 {
    } else {
        lemma_merge_official_first(names.drop_last());
        let acc = spec_merge(names.drop_last());
        let name = names.last();
        assert(spec_merge(names) == spec_merge_step(acc, name));
        if spec_is_plugin_name(name) && !acc.contains(name) {
            if name == spec_official_package() {
                let r = seq![name] + acc;
                assert(r[0] == name);
            } else {
                let r = acc.push(name);
                if r.contains(spec_official_package()) {
                    let k = choose|k: int| 0 <= k < r.len() && r[k] == spec_official_package();
                    assert(k < acc.len() && acc[k] == spec_official_package());
                    assert(acc.contains(spec_official_package()));
                    assert(r[0] == acc[0]);
                }
            }
        }
    }
}

/// What resolving a package's archive address from its metadata yields.
pub ghost enum ResolveV {
    /// The `latest`-tagged version's tarball address.
    Url(Seq<char>),
    /// The metadata does not have the expected shape.
    BadDetail,
    /// No version is tagged `latest`.
    NoLatest,
    /// No record exists for the named version.
    NoVersion(Seq<char>),
    /// The version record names no tarball.
    NoTarball,
}

/// One version record as the registry advertises it: an object naming its
/// version, with an optional `dist` object naming an optional tarball.
pub open spec fn spec_version_record_ok(rec: JsonValue) -> bool {
    &&& rec matches JsonValue::Obj(_)
    &&& spec_get_string(rec, "version"@) is Some
    &&& match spec_json_get(rec, "dist"@) {
        None => true,
        Some(JsonValue::Null) => true,
        Some(d @ JsonValue::Obj(_)) => spec_get_opt_string(d, "tarball"@) is Some,
        Some(_) => false,
    }
}

/// Every field of the table holds a string.
pub open spec fn spec_all_string_fields(fields: Seq<(String, JsonValue)>) -> bool {
    forall|j: int| 0 <= j < fields.len() ==> (#[trigger] fields[j].1) matches JsonValue::Str(_)
}

/// Every field of the table holds a well-shaped version record.
pub open spec fn spec_all_version_records(fields: Seq<(String, JsonValue)>) -> bool {
    forall|j: int| 0 <= j < fields.len() ==> spec_version_record_ok(#[trigger] fields[j].1)
}

/// The whole metadata document's shape, checked before any piece is
/// selected — the response is decoded in full before use. The metadata
/// must name the package; `dist-tags`, when present, must map tags to
/// strings; `versions`, when present, must map versions to well-shaped
/// records.
pub open spec fn spec_detail_ok(v: JsonValue) -> bool {
    &&& spec_get_string(v, "name"@) is Some
    &&& match spec_json_get(v, "dist-tags"@) {
        None => true,
        Some(JsonValue::Null) => true,
        Some(JsonValue::Obj(tags)) => spec_all_string_fields(tags@),
        Some(_) => false,
    }
    &&& match spec_json_get(v, "versions"@) {
        None => true,
        Some(JsonValue::Null) => true,
        Some(JsonValue::Obj(vers)) => spec_all_version_records(vers@),
        Some(_) => false,
    }
}

/// Checks one version record's shape; see [`spec_version_record_ok`].
fn version_record_ok(rec: &JsonValue) -> (r: bool)
    ensures
        r == spec_version_record_ok(*rec),
{
    if !(matches!(rec, JsonValue::Obj(_))) {
        return false;
    }
    if get_string(rec, "version").is_none() {
        return false;
    }
    match json_get(rec, "dist") {
        None => true,
        Some(JsonValue::Null) => true,
        Some(d @ JsonValue::Obj(_)) => get_opt_string(d, "tarball").is_some(),
        Some(_) => false,
    }
}

/// Checks that a table maps every field to a string.
fn all_string_fields(fields: &Vec<(String, JsonValue)>) -> (r: bool)
    ensures
        r == spec_all_string_fields(fields@),
{
    let n = fields.len();
    let mut i: usize = 0;
    while i < n
        invariant
            n == fields@.len(),
            0 <= i <= n,
            forall|j: int| 0 <= j < i ==> (#[trigger] fields@[j].1) matches JsonValue::Str(_),
        decreases n - i,
    {
        if !(matches!(&fields[i].1, JsonValue::Str(_))) {
            return false;
        }
        i += 1;
    }
    true
}

/// Checks that a table maps every field to a well-shaped version record.
fn all_version_records(fields: &Vec<(String, JsonValue)>) -> (r: bool)
    ensures
        r == spec_all_version_records(fields@),
{
    let n = fields.len();
    let mut i: usize = 0;
    while i < n
        invariant
            n == fields@.len(),
            0 <= i <= n,
            forall|j: int| 0 <= j < i ==> spec_version_record_ok(#[trigger] fields@[j].1),
        decreases n - i,
    {
        if !version_record_ok(&fields[i].1) {
            return false;
        }
        i += 1;
    }
    true
}

/// Checks the whole metadata document; see [`spec_detail_ok`].
fn detail_ok(detail: &JsonValue) -> (r: bool)
    ensures
        r == spec_detail_ok(*detail),
{
    if get_string(detail, "name").is_none() {
        return false;
    }
    let tags_ok = match json_get(detail, "dist-tags") {
        None => true,
        Some(JsonValue::Null) => true,
        Some(JsonValue::Obj(tags)) => all_string_fields(tags),
        Some(_) => false,
    };
    if !tags_ok {
        return false;
    }
    match json_get(detail, "versions") {
        None => true,
        Some(JsonValue::Null) => true,
        Some(JsonValue::Obj(vers)) => all_version_records(vers),
        Some(_) => false,
    }
}

/// The tarball address the selected version record carries.
pub open spec fn spec_resolve_dist(rec: JsonValue) -> ResolveV {
    if !(rec matches JsonValue::Obj(_)) {
        ResolveV::BadDetail
    } else {
        match spec_json_get(rec, "dist"@) {
            None => ResolveV::NoTarball,
            Some(JsonValue::Null) => ResolveV::NoTarball,
            Some(JsonValue::Obj(fields)) => match spec_obj_get(fields@, "tarball"@) {
                None => ResolveV::NoTarball,
                Some(JsonValue::Null) => ResolveV::NoTarball,
                Some(JsonValue::Str(u)) => ResolveV::Url(u@),
                Some(_) => ResolveV::BadDetail,
            },
            Some(_) => ResolveV::BadDetail,
        }
    }
}

/// The version record the `versions` table holds under `latest`.
pub open spec fn spec_resolve_version(v: JsonValue, latest: Seq<char>) -> ResolveV {
    match spec_json_get(v, "versions"@) {
        None => ResolveV::NoVersion(latest),
        Some(JsonValue::Null) => ResolveV::NoVersion(latest),
        Some(JsonValue::Obj(vers)) => match spec_obj_get(vers@, latest) {
            Some(rec) => spec_resolve_dist(rec),
            None => ResolveV::NoVersion(latest),
        },
        Some(_) => ResolveV::BadDetail,
    }
}

/// What package metadata resolves to: the whole document must first have
/// the advertised shape; the `latest` dist-tag then selects the version
/// whose record names the tarball.
pub open spec fn spec_resolve_tarball(v: JsonValue) -> ResolveV {
    if !spec_detail_ok(v) {
        ResolveV::BadDetail
    } else {
        match spec_json_get(v, "dist-tags"@) {
            None => ResolveV::NoLatest,
            Some(JsonValue::Null) => ResolveV::NoLatest,
            Some(JsonValue::Obj(tags)) => match spec_obj_get(tags@, "latest"@) {
                None => ResolveV::NoLatest,
                Some(JsonValue::Str(latest)) => spec_resolve_version(v, latest@),
                Some(_) => ResolveV::BadDetail,
            },
            Some(_) => ResolveV::BadDetail,
        }
    }
}

/// Resolves the `latest` version's tarball address from parsed package
/// metadata, naming the missing piece when one is absent.
pub fn resolve_tarball_url(detail: &JsonValue, package_name: &str) -> (r: Result<
    String,
    RegistryError,
>)
    ensures
        match spec_resolve_tarball(*detail) {
            ResolveV::Url(u) => r matches Ok(s) && s@ == u,
            ResolveV::BadDetail => r matches Err(e) && e matches RegistryError::Decode(d) && d@
                == "package detail of "@ + package_name@,
            ResolveV::NoLatest => r matches Err(e) && e matches RegistryError::NoLatestTag(p) && p@
                == package_name@,
            ResolveV::NoVersion(latest) => r matches Err(e) && e
                matches RegistryError::NoVersionRecord(vv) && vv@ == latest,
            ResolveV::NoTarball => r == Err::<String, RegistryError>(RegistryError::NoTarballUrl),
        },
{
    let bad_detail = || -> (e: RegistryError)
        ensures
            e matches RegistryError::Decode(d) && d@ == "package detail of "@ + package_name@,
        {
            let mut s = String::from_str("package detail of ");
            s.append(package_name);
            RegistryError::Decode(s)
        };
    if !detail_ok(detail) {
        return Err(bad_detail());
    }
    let latest = match json_get(detail, "dist-tags") {
        None => {
            return Err(RegistryError::NoLatestTag(String::from_str(package_name)));
        },
        Some(JsonValue::Null) => {
            return Err(RegistryError::NoLatestTag(String::from_str(package_name)));
        },
        Some(tags @ JsonValue::Obj(_)) => match json_get(tags, "latest") {
            None => {
                return Err(RegistryError::NoLatestTag(String::from_str(package_name)));
            },
            Some(JsonValue::Str(latest)) => latest.clone(),
            Some(_) => {
                return Err(bad_detail());
            },
        },
        Some(_) => {
            return Err(bad_detail());
        },
    };
    let rec = match json_get(detail, "versions") {
        None => {
            return Err(RegistryError::NoVersionRecord(latest));
        },
        Some(JsonValue::Null) => {
            return Err(RegistryError::NoVersionRecord(latest));
        },
        Some(vers @ JsonValue::Obj(_)) => match json_get(vers, latest.as_str()) {
            Some(rec) => rec,
            None => {
                return Err(RegistryError::NoVersionRecord(latest));
            },
        },
        Some(_) => {
            return Err(bad_detail());
        },
    };
    if !(matches!(rec, JsonValue::Obj(_))) {
        return Err(bad_detail());
    }
    match json_get(rec, "dist") {
        None => Err(RegistryError::NoTarballUrl),
        Some(JsonValue::Null) => Err(RegistryError::NoTarballUrl),
        Some(dist @ JsonValue::Obj(_)) => match json_get(dist, "tarball") {
            None => Err(RegistryError::NoTarballUrl),
            Some(JsonValue::Null) => Err(RegistryError::NoTarballUrl),
            Some(JsonValue::Str(u)) => Ok(u.clone()),
            Some(_) => Err(bad_detail()),
        },
        Some(_) => Err(bad_detail()),
    }
}

/// What a downloaded package archive yields.
pub ghost enum TarballPluginsV {
    /// The descriptors its manifest declares, tagged with the package name.
    Metas(Seq<PluginMetaV>),
    /// The archive holds no readable manifest entry.
    NoManifest,
    /// The manifest entry is not a valid manifest document.
    BadManifest,
}

/// What extracting and decoding a package archive's manifest yields.
pub open spec fn spec_tarball_plugins(bytes: Seq<u8>, pkg: Seq<char>) -> TarballPluginsV {
    match spec_extract_text(bytes, "package/plugin.json"@) {
        None => TarballPluginsV::NoManifest,
        Some(text) => match json_of(text) {
            None => TarballPluginsV::BadManifest,
            Some(v) => match spec_plugin_json_of(v) {
                None => TarballPluginsV::BadManifest,
                Some(p) => TarballPluginsV::Metas(
                    spec_into_entries(p).map_values(
                        |e: crate::manifest::PluginJsonEntryV| spec_meta_of_entry(e, pkg),
                    ),
                ),
            },
        },
    }
}

/// Turns a downloaded package archive into the descriptors it advertises:
/// the manifest entry `package/plugin.json` is extracted, decoded, and each
/// declared entry is tagged with the package name.
pub fn plugins_from_tarball(tgz: &[u8], package_name: &str) -> (r: Result<
    Vec<PluginMeta>,
    RegistryError,
>)
    ensures
        match spec_tarball_plugins(tgz@, package_name@) {
            TarballPluginsV::Metas(ms) => r matches Ok(list) && list.deep_view() == ms,
            TarballPluginsV::NoManifest => r matches Err(e) && e
                matches RegistryError::NoManifest(p) && p@ == package_name@,
            TarballPluginsV::BadManifest => r matches Err(e) && e matches RegistryError::Decode(d)
                && d@ == "plugin.json of "@ + package_name@,
        },
{
    let text = match extract_file_from_tarball(tgz, "package/plugin.json") {
        Some(t) => t,
        None => {
            return Err(RegistryError::NoManifest(String::from_str(package_name)));
        },
    };
    let bad_manifest = || -> (e: RegistryError)
        ensures
            e matches RegistryError::Decode(d) && d@ == "plugin.json of "@ + package_name@,
        {
            let mut s = String::from_str("plugin.json of ");
            s.append(package_name);
            RegistryError::Decode(s)
        };
    let parsed = match parse_json(text.as_str()) {
        Some(v) => v,
        None => {
            return Err(bad_manifest());
        },
    };
    let manifest = match plugin_json_from_json(&parsed) {
        Some(p) => p,
        None => {
            return Err(bad_manifest());
        },
    };
    let entries = manifest.into_entries();
    Ok(metas_from_entries(&entries, package_name))
}

} // verus!
