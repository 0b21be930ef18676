//! Plugin descriptors: one advertised or installed tool, its provenance,
//! and its persisted JSON form.

use vstd::prelude::*;
use vstd::string::StringExecFns;
use crate::json::{
    JsonValue, spec_json_get, spec_get_string, spec_get_opt_string, spec_get_opt_uint,
    spec_string_views, json_get, get_string, get_opt_string, get_opt_uint, string_array,
};
use crate::manifest::{opt_view, PluginJsonEntry, PluginJsonEntryV};

verus! {

broadcast use vstd::string::group_string_axioms;

/// Mathematical image of a [`PluginMeta`].
#[verifier::ext_equal]
pub ghost struct PluginMetaV {
    pub id: Seq<char>,
    pub version: Seq<char>,
    pub author: Seq<char>,
    pub homepage: Option<Seq<char>>,
    pub icon: Seq<char>,
    pub title: Seq<char>,
    pub subtitle: Seq<char>,
    pub description: Seq<char>,
    pub bg_color: Seq<char>,
    pub text_color: Option<Seq<char>>,
    pub categories: Seq<Seq<char>>,
    pub required_caps: Seq<Seq<char>>,
    pub package_name: Seq<char>,
    pub bundle_file: Seq<char>,
    pub downloads: Option<u64>,
    pub updated_at: Option<Seq<char>>,
    pub created_at: Option<Seq<char>>,
}

/// One plugin descriptor: identity (`id`, `version`), provenance
/// (`package_name`, the registry package it came from; `bundle_file`, the
/// relative path of its artifact inside that package's archive), and
/// presentation metadata.
#[derive(Debug, Clone, PartialEq)]
pub struct PluginMeta {
    pub id: String,
    pub version: String,
    pub author: String,
    pub homepage: Option<String>,
    pub icon: String,
    pub title: String,
    pub subtitle: String,
    pub description: String,
    pub bg_color: String,
    pub text_color: Option<String>,
    pub categories: Vec<String>,
    pub required_caps: Vec<String>,
    pub package_name: String,
    pub bundle_file: String,
    pub downloads: Option<u64>,
    pub updated_at: Option<String>,
    pub created_at: Option<String>,
}

impl View for PluginMeta {
    type V = PluginMetaV;

    open spec fn view(&self) -> PluginMetaV {
        PluginMetaV {
            id: self.id@,
            version: self.version@,
            author: self.author@,
            homepage: opt_view(self.homepage),
            icon: self.icon@,
            title: self.title@,
            subtitle: self.subtitle@,
            description: self.description@,
            bg_color: self.bg_color@,
            text_color: opt_view(self.text_color),
            categories: self.categories.deep_view(),
            required_caps: self.required_caps.deep_view(),
            package_name: self.package_name@,
            bundle_file: self.bundle_file@,
            downloads: self.downloads,
            updated_at: opt_view(self.updated_at),
            created_at: opt_view(self.created_at),
        }
    }
}

impl DeepView for PluginMeta {
    type V = PluginMetaV;

    open spec fn deep_view(&self) -> PluginMetaV {
        self.view()
    }
}

/// Copies a vector of strings; the copy has the same view.
pub fn clone_strings(v: &Vec<String>) -> (r: Vec<String>)
    ensures
        r@ == v@,
        r.deep_view() == v.deep_view(),
{
    let n = v.len();
    let mut out: Vec<String> = Vec::new();
    let mut i: usize = 0;
    while i < n
        invariant
            n == v@.len(),
            0 <= i <= n,
            out@ =~= v@.subrange(0, i as int),
        decreases n - i,
    {
        out.push(v[i].clone());
        i += 1;
    }
    proof {
        assert(out@ =~= v@);
        assert(out.deep_view() =~= v.deep_view());
    }
    out
}

/// Copies an optional string; the copy has the same view.
pub fn clone_opt_string(o: &Option<String>) -> (r: Option<String>)
    ensures
        r == *o,
{
    match o {
        Some(s) => Some(s.clone()),
        None => None,
    }
}

/// Copies a descriptor; the copy has the same view.
pub fn clone_meta(m: &PluginMeta) -> (r: PluginMeta)
    ensures
        r@ == m@,
{
    let r = PluginMeta {
        id: m.id.clone(),
        version: m.version.clone(),
        author: m.author.clone(),
        homepage: clone_opt_string(&m.homepage),
        icon: m.icon.clone(),
        title: m.title.clone(),
        subtitle: m.subtitle.clone(),
        description: m.description.clone(),
        bg_color: m.bg_color.clone(),
        text_color: clone_opt_string(&m.text_color),
        categories: clone_strings(&m.categories),
        required_caps: clone_strings(&m.required_caps),
        package_name: m.package_name.clone(),
        bundle_file: m.bundle_file.clone(),
        downloads: m.downloads,
        updated_at: clone_opt_string(&m.updated_at),
        created_at: clone_opt_string(&m.created_at),
    };
    proof {
        assert(r@ =~= m@);
    }
    r
}

/// Copies a list of descriptors; the copy has the same view.
pub fn clone_metas(v: &Vec<PluginMeta>) -> (r: Vec<PluginMeta>)
    ensures
        r.deep_view() == v.deep_view(),
{
    let n = v.len();
    let mut out: Vec<PluginMeta> = Vec::new();
    let mut i: usize = 0;
    while i < n
        invariant
            n == v@.len(),
            0 <= i <= n,
            out.deep_view() =~= v.deep_view().take(i as int),
        decreases n - i,
    {
        let m = clone_meta(&v[i]);
        let ghost prior = out.deep_view();
        out.push(m);
        proof {
            assert(out.deep_view() =~= prior.push(m@));
            assert(out.deep_view() =~= v.deep_view().take(i as int + 1));
        }
        i += 1;
    }
    proof {
        assert(v.deep_view().take(n as int) =~= v.deep_view());
    }
    out
}

/// The descriptor a manifest entry becomes once its owning package is known:
/// the entry's declared fields, the supplied package name, the entry's
/// bundle path, and no popularity data.
pub open spec fn spec_meta_of_entry(e: PluginJsonEntryV, pkg: Seq<char>) -> PluginMetaV {
    PluginMetaV {
        id: e.id,
        version: e.version,
        author: e.author,
        homepage: e.homepage,
        icon: e.icon,
        title: e.title,
        subtitle: e.subtitle,
        description: e.description,
        bg_color: e.bg_color,
        text_color: e.text_color,
        categories: e.categories,
        required_caps: e.required_caps,
        package_name: pkg,
        bundle_file: e.bundle,
        downloads: None,
        updated_at: None,
        created_at: None,
    }
}

/// Tags a manifest entry with the package it came from.
pub fn meta_from_entry(entry: &PluginJsonEntry, package_name: &str) -> (m: PluginMeta)
    ensures
        m@ == spec_meta_of_entry(entry@, package_name@),
{
    let m = PluginMeta {
        id: entry.id.clone(),
        version: entry.version.clone(),
        author: entry.author.clone(),
        homepage: clone_opt_string(&entry.homepage),
        icon: entry.icon.clone(),
        title: entry.title.clone(),
        subtitle: entry.subtitle.clone(),
        description: entry.description.clone(),
        bg_color: entry.bg_color.clone(),
        text_color: clone_opt_string(&entry.text_color),
        categories: clone_strings(&entry.categories),
        required_caps: clone_strings(&entry.required_caps),
        package_name: String::from_str(package_name),
        bundle_file: entry.bundle.clone(),
        downloads: None,
        updated_at: None,
        created_at: None,
    };
    proof {
        assert(m@ =~= spec_meta_of_entry(entry@, package_name@));
    }
    m
}

/// Tags every entry of a manifest with the package it came from, keeping
/// the order.
pub fn metas_from_entries(entries: &Vec<PluginJsonEntry>, package_name: &str) -> (r: Vec<
    PluginMeta,
>)
    ensures
        r.deep_view() == entries.deep_view().map_values(
            |e: PluginJsonEntryV| spec_meta_of_entry(e, package_name@),
        ),
{
    let n = entries.len();
    let mut out: Vec<PluginMeta> = Vec::new();
    let mut i: usize = 0;
    while i < n
        invariant
            n == entries@.len(),
            0 <= i <= n,
            out.deep_view() =~= entries.deep_view().map_values(
                |e: PluginJsonEntryV| spec_meta_of_entry(e, package_name@),
            ).take(i as int),
        decreases n - i,
    {
        let m = meta_from_entry(&entries[i], package_name);
        let ghost prior = out.deep_view();
        out.push(m);
        proof {
            assert(out.deep_view() =~= prior.push(m@));
            assert(out.deep_view() =~= entries.deep_view().map_values(
                |e: PluginJsonEntryV| spec_meta_of_entry(e, package_name@),
            ).take(i as int + 1));
        }
        i += 1;
    }
    proof {
        let full = entries.deep_view().map_values(
            |e: PluginJsonEntryV| spec_meta_of_entry(e, package_name@),
        );
        assert(full.take(n as int) =~= full);
    }
    out
}

/// The categories field of a persisted descriptor: a required array of
/// strings.
pub open spec fn spec_meta_categories_of(v: JsonValue) -> Option<Seq<Seq<char>>> {
    match spec_json_get(v, "categories"@) {
        Some(JsonValue::Arr(a)) => spec_string_views(a@),
        _ => None,
    }
}

/// The capability-requirements field of a persisted descriptor: a required
/// array of strings.
pub open spec fn spec_meta_caps_of(v: JsonValue) -> Option<Seq<Seq<char>>> {
    match spec_json_get(v, "requires"@) {
        Some(JsonValue::Arr(a)) => spec_string_views(a@),
        _ => None,
    }
}

/// The optional popularity-rating field: the registry writes it as a
/// number; the library checks its shape but keeps no value for it.
pub open spec fn spec_rating_shape_ok(v: JsonValue) -> bool {
    match spec_json_get(v, "rating"@) {
        None => true,
        Some(JsonValue::Null) => true,
        Some(JsonValue::UInt(_)) => true,
        Some(JsonValue::OtherNumber) => true,
        Some(_) => false,
    }
}

/// Checks the popularity-rating field's shape; see
/// [`spec_rating_shape_ok`].
fn rating_shape_ok(v: &JsonValue) -> (r: bool)
    ensures
        r == spec_rating_shape_ok(*v),
{
    match json_get(v, "rating") {
        None => true,
        Some(JsonValue::Null) => true,
        Some(JsonValue::UInt(_)) => true,
        Some(JsonValue::OtherNumber) => true,
        Some(_) => false,
    }
}

/// What a persisted descriptor decodes to: every identity and presentation
/// field must be present with the right shape; homepage, text color,
/// popularity and date fields may be absent or `null`.
pub open spec fn spec_meta_of(v: JsonValue) -> Option<PluginMetaV> {
    if spec_get_string(v, "id"@) is Some && spec_get_string(v, "version"@) is Some
        && spec_get_string(v, "author"@) is Some && spec_get_opt_string(v, "homepage"@) is Some
        && spec_get_string(v, "icon"@) is Some && spec_get_string(v, "title"@) is Some
        && spec_get_string(v, "subtitle"@) is Some && spec_get_string(v, "description"@) is Some
        && spec_get_string(v, "bgColor"@) is Some && spec_get_opt_string(v, "textColor"@) is Some
        && spec_meta_categories_of(v) is Some && spec_meta_caps_of(v) is Some && spec_get_string(
        v,
        "packageName"@,
    ) is Some && spec_get_string(v, "bundleFile"@) is Some && spec_get_opt_uint(v, "downloads"@)
        is Some && spec_rating_shape_ok(v) && spec_get_opt_string(v, "updatedAt"@) is Some
        && spec_get_opt_string(v, "createdAt"@) is Some {
        Some(
            PluginMetaV {
                id: spec_get_string(v, "id"@).unwrap()@,
                version: spec_get_string(v, "version"@).unwrap()@,
                author: spec_get_string(v, "author"@).unwrap()@,
                homepage: opt_view(spec_get_opt_string(v, "homepage"@).unwrap()),
                icon: spec_get_string(v, "icon"@).unwrap()@,
                title: spec_get_string(v, "title"@).unwrap()@,
                subtitle: spec_get_string(v, "subtitle"@).unwrap()@,
                description: spec_get_string(v, "description"@).unwrap()@,
                bg_color: spec_get_string(v, "bgColor"@).unwrap()@,
                text_color: opt_view(spec_get_opt_string(v, "textColor"@).unwrap()),
                categories: spec_meta_categories_of(v).unwrap(),
                required_caps: spec_meta_caps_of(v).unwrap(),
                package_name: spec_get_string(v, "packageName"@).unwrap()@,
                bundle_file: spec_get_string(v, "bundleFile"@).unwrap()@,
                downloads: spec_get_opt_uint(v, "downloads"@).unwrap(),
                updated_at: opt_view(spec_get_opt_string(v, "updatedAt"@).unwrap()),
                created_at: opt_view(spec_get_opt_string(v, "createdAt"@).unwrap()),
            },
        )
    } else {
        None
    }
}

/// Decodes a persisted descriptor from a JSON value.
pub fn meta_from_json(v: &JsonValue) -> (r: Option<PluginMeta>)
    ensures
        match r {
            Some(m) => spec_meta_of(*v) == Some(m@),
            None => spec_meta_of(*v) is None,
        },
{
    let id = match get_string(v, "id") {
        Some(s) => s,
        None => {
            return None;
        },
    };
    let version = match get_string(v, "version") {
        Some(s) => s,
        None => {
            return None;
        },
    };
    let author = match get_string(v, "author") {
        Some(s) => s,
        None => {
            return None;
        },
    };
    let homepage = match get_opt_string(v, "homepage") {
        Some(o) => o,
        None => {
            return None;
        },
    };
    let icon = match get_string(v, "icon") {
        Some(s) => s,
        None => {
            return None;
        },
    };
    let title = match get_string(v, "title") {
        Some(s) => s,
        None => {
            return None;
        },
    };
    let subtitle = match get_string(v, "subtitle") {
        Some(s) => s,
        None => {
            return None;
        },
    };
    let description = match get_string(v, "description") {
        Some(s) => s,
        None => {
            return None;
        },
    };
    let bg_color = match get_string(v, "bgColor") {
        Some(s) => s,
        None => {
            return None;
        },
    };
    let text_color = match get_opt_string(v, "textColor") {
        Some(o) => o,
        None => {
            return None;
        },
    };
    let categories = match json_get(v, "categories") {
        Some(JsonValue::Arr(a)) => match string_array(a) {
            Some(c) => c,
            None => {
                return None;
            },
        },
        _ => {
            return None;
        },
    };
    let required_caps = match json_get(v, "requires") {
        Some(JsonValue::Arr(a)) => match string_array(a) {
            Some(c) => c,
            None => {
                return None;
            },
        },
        _ => {
            return None;
        },
    };
    let package_name = match get_string(v, "packageName") {
        Some(s) => s,
        None => {
            return None;
        },
    };
    let bundle_file = match get_string(v, "bundleFile") {
        Some(s) => s,
        None => {
            return None;
        },
    };
    let downloads = match get_opt_uint(v, "downloads") {
        Some(o) => o,
        None => {
            return None;
        },
    };
    if !rating_shape_ok(v) {
        return None;
    }
    let updated_at = match get_opt_string(v, "updatedAt") {
        Some(o) => o,
        None => {
            return None;
        },
    };
    let created_at = match get_opt_string(v, "createdAt") {
        Some(o) => o,
        None => {
            return None;
        },
    };
    let m = PluginMeta {
        id,
        version,
        author,
        homepage,
        icon,
        title,
        subtitle,
        description,
        bg_color,
        text_color,
        categories,
        required_caps,
        package_name,
        bundle_file,
        downloads,
        updated_at,
        created_at,
    };
    proof {
        assert(spec_meta_of(*v) == Some(m@)) by {
            assert(spec_meta_of(*v).unwrap() =~= m@);
        }
    }
    Some(m)
}

/// Encodes an optional string: a missing value is written as `null`.
pub fn opt_string_json(o: &Option<String>) -> (r: JsonValue)
    ensures
        r == (match o {
            Some(s) => JsonValue::Str(*s),
            None => JsonValue::Null,
        }),
{
    match o {
        Some(s) => JsonValue::Str(s.clone()),
        None => JsonValue::Null,
    }
}

/// Encodes an optional unsigned integer: a missing value is written as
/// `null`.
pub fn opt_uint_json(o: &Option<u64>) -> (r: JsonValue)
    ensures
        r == (match o {
            Some(u) => JsonValue::UInt(*u),
            None => JsonValue::Null,
        }),
{
    match o {
        Some(u) => JsonValue::UInt(*u),
        None => JsonValue::Null,
    }
}

/// Encodes a vector of strings as a JSON array of strings.
pub fn strings_json(v: &Vec<String>) -> (r: JsonValue)
    ensures
        r matches JsonValue::Arr(a) && spec_string_views(a@) == Some(v.deep_view()),
{
    let n = v.len();
    let mut out: Vec<JsonValue> = Vec::new();
    let mut i: usize = 0;
    while i < n
        invariant
            n == v@.len(),
            0 <= i <= n,
            out@.len() == i,
            forall|j: int| 0 <= j < i ==> out@[j] == JsonValue::Str(v@[j]),
        decreases n - i,
    {
        out.push(JsonValue::Str(v[i].clone()));
        i += 1;
    }
    proof {
        lemma_string_views_of_strs(out@, v.deep_view(), v@);
    }
    JsonValue::Arr(out)
}

/// An array whose elements are exactly the strings of `names` decodes back
/// to their views.
proof fn lemma_string_views_of_strs(vals: Seq<JsonValue>, views: Seq<Seq<char>>, names: Seq<String>)
    requires
        vals.len() == names.len(),
        views.len() == names.len(),
        forall|j: int| 0 <= j < names.len() ==> vals[j] == JsonValue::Str(names[j]),
        forall|j: int| 0 <= j < names.len() ==> views[j] == names[j]@,
    ensures
        spec_string_views(vals) == Some(views),
    decreases vals.len(),
{
    if vals.len() == 0 {
        assert(views =~= Seq::<Seq<char>>::empty());
    } else {
        lemma_string_views_of_strs(vals.drop_first(), views.drop_first(), names.drop_first());
        assert(spec_string_views(vals) == Some(seq![names[0]@] + views.drop_first()));
        assert(seq![names[0]@] + views.drop_first() =~= views);
    }
}

/// Encodes a descriptor as the JSON object the installer persists; the
/// encoding decodes back to the same descriptor.
#[verifier::rlimit(100)]
pub fn meta_to_json(m: &PluginMeta) -> (r: JsonValue)
    ensures
        spec_meta_of(r) == Some(m@),
{
    let mut fields: Vec<(String, JsonValue)> = Vec::new();
    fields.push((String::from_str("id"), JsonValue::Str(m.id.clone())));
    fields.push((String::from_str("version"), JsonValue::Str(m.version.clone())));
    fields.push((String::from_str("author"), JsonValue::Str(m.author.clone())));
    fields.push((String::from_str("homepage"), opt_string_json(&m.homepage)));
    fields.push((String::from_str("icon"), JsonValue::Str(m.icon.clone())));
    fields.push((String::from_str("title"), JsonValue::Str(m.title.clone())));
    fields.push((String::from_str("subtitle"), JsonValue::Str(m.subtitle.clone())));
    fields.push((String::from_str("description"), JsonValue::Str(m.description.clone())));
    fields.push((String::from_str("bgColor"), JsonValue::Str(m.bg_color.clone())));
    fields.push((String::from_str("textColor"), opt_string_json(&m.text_color)));
    fields.push((String::from_str("categories"), strings_json(&m.categories)));
    fields.push((String::from_str("requires"), strings_json(&m.required_caps)));
    fields.push((String::from_str("packageName"), JsonValue::Str(m.package_name.clone())));
    fields.push((String::from_str("bundleFile"), JsonValue::Str(m.bundle_file.clone())));
    fields.push((String::from_str("downloads"), opt_uint_json(&m.downloads)));
    fields.push((String::from_str("rating"), JsonValue::Null));
    fields.push((String::from_str("updatedAt"), opt_string_json(&m.updated_at)));
    fields.push((String::from_str("createdAt"), opt_string_json(&m.created_at)));
    let ghost f = fields@;
    let r = JsonValue::Obj(fields);
    proof {
        reveal_strlit("id");
        reveal_strlit("version");
        reveal_strlit("author");
        reveal_strlit("homepage");
        reveal_strlit("icon");
        reveal_strlit("title");
        reveal_strlit("subtitle");
        reveal_strlit("description");
        reveal_strlit("bgColor");
        reveal_strlit("textColor");
        reveal_strlit("categories");
        reveal_strlit("requires");
        reveal_strlit("packageName");
        reveal_strlit("bundleFile");
        reveal_strlit("downloads");
        reveal_strlit("rating");
        reveal_strlit("updatedAt");
        reveal_strlit("createdAt");
        assert(f[0].0@ == "id"@);
        assert(f[1].0@ == "version"@);
        assert(f[2].0@ == "author"@);
        assert(f[3].0@ == "homepage"@);
        assert(f[4].0@ == "icon"@);
        assert(f[5].0@ == "title"@);
        assert(f[6].0@ == "subtitle"@);
        assert(f[7].0@ == "description"@);
        assert(f[8].0@ == "bgColor"@);
        assert(f[9].0@ == "textColor"@);
        assert(f[10].0@ == "categories"@);
        assert(f[11].0@ == "requires"@);
        assert(f[12].0@ == "packageName"@);
        assert(f[13].0@ == "bundleFile"@);
        assert(f[14].0@ == "downloads"@);
        assert(f[15].0@ == "rating"@);
        assert(f[16].0@ == "updatedAt"@);
        assert(f[17].0@ == "createdAt"@);
        assert("version"@[0] != "bgColor"@[0]);
        assert("homepage"@[0] != "subtitle"@[0]);
        assert("homepage"@[0] != "requires"@[0]);
        assert("subtitle"@[0] != "requires"@[0]);
        assert("textColor"@[0] != "downloads"@[0]);
        assert("textColor"@[0] != "updatedAt"@[0]);
        assert("textColor"@[0] != "createdAt"@[0]);
        assert("downloads"@[0] != "updatedAt"@[0]);
        assert("downloads"@[0] != "createdAt"@[0]);
        assert("categories"@[0] != "bundleFile"@[0]);
        assert("description"@[0] != "packageName"@[0]);
        assert("updatedAt"@[0] != "createdAt"@[0]);
        assert("author"@[0] != "rating"@[0]);
        crate::json::lemma_obj_get_found(f, "id"@, 0);
        crate::json::lemma_obj_get_found(f, "version"@, 1);
        crate::json::lemma_obj_get_found(f, "author"@, 2);
        crate::json::lemma_obj_get_found(f, "homepage"@, 3);
        crate::json::lemma_obj_get_found(f, "icon"@, 4);
        crate::json::lemma_obj_get_found(f, "title"@, 5);
        crate::json::lemma_obj_get_found(f, "subtitle"@, 6);
        crate::json::lemma_obj_get_found(f, "description"@, 7);
        crate::json::lemma_obj_get_found(f, "bgColor"@, 8);
        crate::json::lemma_obj_get_found(f, "textColor"@, 9);
        crate::json::lemma_obj_get_found(f, "categories"@, 10);
        crate::json::lemma_obj_get_found(f, "requires"@, 11);
        crate::json::lemma_obj_get_found(f, "packageName"@, 12);
        crate::json::lemma_obj_get_found(f, "bundleFile"@, 13);
        crate::json::lemma_obj_get_found(f, "downloads"@, 14);
        crate::json::lemma_obj_get_found(f, "rating"@, 15);
        crate::json::lemma_obj_get_found(f, "updatedAt"@, 16);
        crate::json::lemma_obj_get_found(f, "createdAt"@, 17);
        assert(spec_meta_of(r) == Some(m@)) by {
            assert(spec_meta_of(r).unwrap() =~= m@);
        }
    }
    r
}

} // verus!
