//! The package-author-declared manifest: one plugin entry, or a named list
//! of them, read from the `plugin.json` entry of a package archive.

use vstd::prelude::*;
use crate::json::{JsonValue, spec_json_get, spec_get_string, spec_get_opt_string, spec_string_views, json_get, get_string, get_opt_string, string_array};

verus! {

/// Mathematical image of a [`PluginJsonEntry`].
#[verifier::ext_equal]
pub ghost struct PluginJsonEntryV {
    pub id: Seq<char>,
    pub version: Seq<char>,
    pub author: Seq<char>,
    pub homepage: Option<Seq<char>>,
    pub icon: Seq<char>,
    pub title: Seq<char>,
    pub subtitle: Seq<char>,
    pub description: Seq<char>,
    pub bg_color: Seq<char>,
    pub text_color: Option<Seq<char>>,
    pub categories: Seq<Seq<char>>,
    pub required_caps: Seq<Seq<char>>,
    pub bundle: Seq<char>,
}

/// One plugin as its package declares it, with the bundle artifact named by
/// a path relative to the archive's `package/` directory.
#[derive(Debug, Clone, PartialEq)]
pub struct PluginJsonEntry {
    pub id: String,
    pub version: String,
    pub author: String,
    pub homepage: Option<String>,
    pub icon: String,
    pub title: String,
    pub subtitle: String,
    pub description: String,
    pub bg_color: String,
    pub text_color: Option<String>,
    pub categories: Vec<String>,
    pub required_caps: Vec<String>,
    pub bundle: String,
}

/// The view of an optional owned string.
pub open spec fn opt_view(o: Option<String>) -> Option<Seq<char>> {
    match o {
        Some(s) => Some(s@),
        None => None,
    }
}

impl View for PluginJsonEntry {
    type V = PluginJsonEntryV;

    open spec fn view(&self) -> PluginJsonEntryV {
        PluginJsonEntryV {
            id: self.id@,
            version: self.version@,
            author: self.author@,
            homepage: opt_view(self.homepage),
            icon: self.icon@,
            title: self.title@,
            subtitle: self.subtitle@,
            description: self.description@,
            bg_color: self.bg_color@,
            text_color: opt_view(self.text_color),
            categories: self.categories.deep_view(),
            required_caps: self.required_caps.deep_view(),
            bundle: self.bundle@,
        }
    }
}

impl DeepView for PluginJsonEntry {
    type V = PluginJsonEntryV;

    open spec fn deep_view(&self) -> PluginJsonEntryV {
        self.view()
    }
}

/// Mathematical image of a [`PluginJson`].
#[verifier::ext_equal]
pub ghost enum PluginJsonV {
    Multi { plugins: Seq<PluginJsonEntryV> },
    Single(PluginJsonEntryV),
}

/// A manifest document: either a single entry, or a list under the
/// `plugins` key. Both forms are accepted transparently.
#[derive(Debug, Clone, PartialEq)]
pub enum PluginJson {
    Multi { plugins: Vec<PluginJsonEntry> },
    Single(PluginJsonEntry),
}

impl View for PluginJson {
    type V = PluginJsonV;

    open spec fn view(&self) -> PluginJsonV {
        match self {
            PluginJson::Multi { plugins } => PluginJsonV::Multi {
                plugins: plugins.deep_view(),
            },
            PluginJson::Single(e) => PluginJsonV::Single(e@),
        }
    }
}

/// The entries a manifest declares, as a list: a single-entry manifest
/// yields exactly that one entry, a list manifest yields its list.
pub open spec fn spec_into_entries(p: PluginJsonV) -> Seq<PluginJsonEntryV> {
    match p {
        PluginJsonV::Multi { plugins } => plugins,
        PluginJsonV::Single(e) => seq![e],
    }
}

impl PluginJson {
    /// Normalizes the manifest to its list of entries.
    pub fn into_entries(self) -> (r: Vec<PluginJsonEntry>)
        ensures
            r.deep_view() == spec_into_entries(self@),
    {
        match self {
            PluginJson::Multi { plugins } => plugins,
            PluginJson::Single(entry) => {
                let mut out: Vec<PluginJsonEntry> = Vec::new();
                out.push(entry);
                proof {
                    assert(out.deep_view() =~= seq![out@[0]@]);
                }
                out
            },
        }
    }
}

/// Law: a single-entry manifest normalizes to exactly one entry — that
/// entry itself; a list manifest with N entries normalizes to exactly
/// those N, in order.
pub proof fn lemma_into_entries_counts(p: PluginJsonV)
    ensures
        p matches PluginJsonV::Single(e) ==> (spec_into_entries(p) == seq![e]
            && spec_into_entries(p).len() == 1),
        p matches PluginJsonV::Multi { plugins } ==> (spec_into_entries(p) == plugins
            && spec_into_entries(p).len() == plugins.len()),
{
}

/// The categories field: a required array of strings.
pub open spec fn spec_categories_of(v: JsonValue) -> Option<Seq<Seq<char>>> {
    match spec_json_get(v, "categories"@) {
        Some(JsonValue::Arr(a)) => spec_string_views(a@),
        _ => None,
    }
}

/// The requires field: absent means none, present must be an array of
/// strings.
pub open spec fn spec_required_caps_of(v: JsonValue) -> Option<Seq<Seq<char>>> {
    match spec_json_get(v, "requires"@) {
        None => Some(Seq::empty()),
        Some(JsonValue::Arr(a)) => spec_string_views(a@),
        Some(_) => None,
    }
}

/// What a single manifest entry decodes to: every required field must be
/// present with the right shape, optional fields may be absent or `null`.
pub open spec fn spec_entry_of(v: JsonValue) -> Option<PluginJsonEntryV> {
    if spec_get_string(v, "id"@) is Some && spec_get_string(v, "version"@) is Some
        && spec_get_string(v, "author"@) is Some && spec_get_opt_string(v, "homepage"@) is Some
        && spec_get_string(v, "icon"@) is Some && spec_get_string(v, "title"@) is Some
        && spec_get_string(v, "subtitle"@) is Some && spec_get_string(v, "description"@) is Some
        && spec_get_string(v, "bgColor"@) is Some && spec_get_opt_string(v, "textColor"@) is Some
        && spec_categories_of(v) is Some && spec_required_caps_of(v) is Some && spec_get_string(
        v,
        "bundle"@,
    ) is Some {
        Some(
            PluginJsonEntryV {
                id: spec_get_string(v, "id"@).unwrap()@,
                version: spec_get_string(v, "version"@).unwrap()@,
                author: spec_get_string(v, "author"@).unwrap()@,
                homepage: opt_view(spec_get_opt_string(v, "homepage"@).unwrap()),
                icon: spec_get_string(v, "icon"@).unwrap()@,
                title: spec_get_string(v, "title"@).unwrap()@,
                subtitle: spec_get_string(v, "subtitle"@).unwrap()@,
                description: spec_get_string(v, "description"@).unwrap()@,
                bg_color: spec_get_string(v, "bgColor"@).unwrap()@,
                text_color: opt_view(spec_get_opt_string(v, "textColor"@).unwrap()),
                categories: spec_categories_of(v).unwrap(),
                required_caps: spec_required_caps_of(v).unwrap(),
                bundle: spec_get_string(v, "bundle"@).unwrap()@,
            },
        )
    } else {
        None
    }
}

/// Decodes one manifest entry from a JSON value.
pub fn entry_from_json(v: &JsonValue) -> (r: Option<PluginJsonEntry>)
    ensures
        match r {
            Some(e) => spec_entry_of(*v) == Some(e@),
            None => spec_entry_of(*v) is None,
        },
{
    let id = match get_string(v, "id") {
        Some(s) => s,
        None => {
            return None;
        },
    };
    let version = match get_string(v, "version") {
        Some(s) => s,
        None => {
            return None;
        },
    };
    let author = match get_string(v, "author") {
        Some(s) => s,
        None => {
            return None;
        },
    };
    let homepage = match get_opt_string(v, "homepage") {
        Some(o) => o,
        None => {
            return None;
        },
    };
    let icon = match get_string(v, "icon") {
        Some(s) => s,
        None => {
            return None;
        },
    };
    let title = match get_string(v, "title") {
        Some(s) => s,
        None => {
            return None;
        },
    };
    let subtitle = match get_string(v, "subtitle") {
        Some(s) => s,
        None => {
            return None;
        },
    };
    let description = match get_string(v, "description") {
        Some(s) => s,
        None => {
            return None;
        },
    };
    let bg_color = match get_string(v, "bgColor") {
        Some(s) => s,
        None => {
            return None;
        },
    };
    let text_color = match get_opt_string(v, "textColor") {
        Some(o) => o,
        None => {
            return None;
        },
    };
    let categories = match json_get(v, "categories") {
        Some(JsonValue::Arr(a)) => match string_array(a) {
            Some(c) => c,
            None => {
                return None;
            },
        },
        _ => {
            return None;
        },
    };
    let required_caps = match json_get(v, "requires") {
        None => Vec::new(),
        Some(JsonValue::Arr(a)) => match string_array(a) {
            Some(c) => c,
            None => {
                return None;
            },
        },
        Some(_) => {
            return None;
        },
    };
    let bundle = match get_string(v, "bundle") {
        Some(s) => s,
        None => {
            return None;
        },
    };
    let entry = PluginJsonEntry {
        id,
        version,
        author,
        homepage,
        icon,
        title,
        subtitle,
        description,
        bg_color,
        text_color,
        categories,
        required_caps,
        bundle,
    };
    proof {
        assert(spec_entry_of(*v) == Some(entry@)) by {
            assert(spec_entry_of(*v).unwrap() =~= entry@);
        }
    }
    Some(entry)
}

/// What a sequence of JSON values decodes to when every element is a
/// manifest entry.
pub open spec fn spec_entries_of(vals: Seq<JsonValue>) -> Option<Seq<PluginJsonEntryV>>
    decreases vals.len(),
{
    if vals.len() == 0 {
        Some(Seq::empty())
    } else {
        match spec_entry_of(vals[0]) {
            Some(e) => match spec_entries_of(vals.drop_first()) {
                Some(rest) => Some(seq![e] + rest),
                None => None,
            },
            None => None,
        }
    }
}

/// Decodes an array of manifest entries.
pub fn entries_from_json(vals: &Vec<JsonValue>) -> (r: Option<Vec<PluginJsonEntry>>)
    ensures
        match r {
            Some(out) => spec_entries_of(vals@) == Some(out.deep_view()),
            None => spec_entries_of(vals@) is None,
        },
{
    let n = vals.len();
    let mut out: Vec<PluginJsonEntry> = Vec::new();
    let mut i: usize = 0;
    proof {
        assert(vals@.skip(0) =~= vals@);
    }
    while i < n
        invariant
            n == vals@.len(),
            0 <= i <= n,
            out.deep_view().len() == i,
            match spec_entries_of(vals@.skip(i as int)) {
                Some(rest) => spec_entries_of(vals@) == Some(out.deep_view() + rest),
                None => spec_entries_of(vals@) is None,
            },
        decreases n - i,
    {
        proof {
            assert(vals@.skip(i as int)[0] == vals@[i as int]);
            assert(vals@.skip(i as int).drop_first() =~= vals@.skip(i as int + 1));
        }
        match entry_from_json(&vals[i]) {
            Some(e) => {
                let ghost prior = out.deep_view();
                let ghost ev = e@;
                out.push(e);
                proof {
                    assert(out.deep_view() =~= prior.push(ev));
                    match spec_entries_of(vals@.skip(i as int + 1)) {
                        Some(rest2) => {
                            assert(prior.push(ev) + rest2 =~= prior + (seq![ev] + rest2));
                        },
                        None => {
                        },
                    }
                }
                i += 1;
            },
            None => {
                return None;
            },
        }
    }
    proof {
        assert(vals@.skip(n as int) =~= Seq::<JsonValue>::empty());
        assert(out.deep_view() + Seq::<PluginJsonEntryV>::empty() =~= out.deep_view());
    }
    Some(out)
}

/// What a manifest document decodes to. The list form is preferred: an
/// object whose `plugins` field is an array of valid entries is the list
/// manifest; any other value is read as a single entry, and rejected when
/// that fails too.
pub open spec fn spec_plugin_json_of(v: JsonValue) -> Option<PluginJsonV> {
    match spec_json_get(v, "plugins"@) {
        Some(JsonValue::Arr(a)) if spec_entries_of(a@) is Some => Some(
            PluginJsonV::Multi { plugins: spec_entries_of(a@).unwrap() },
        ),
        _ => match spec_entry_of(v) {
            Some(e) => Some(PluginJsonV::Single(e)),
            None => None,
        },
    }
}

/// Decodes a manifest document; see [`spec_plugin_json_of`].
pub fn plugin_json_from_json(v: &JsonValue) -> (r: Option<PluginJson>)
    ensures
        match r {
            Some(p) => spec_plugin_json_of(*v) == Some(p@),
            None => spec_plugin_json_of(*v) is None,
        },
{
    match json_get(v, "plugins") {
        Some(JsonValue::Arr(a)) => match entries_from_json(a) {
            Some(plugins) => {
                return Some(PluginJson::Multi { plugins });
            },
            None => {
            },
        },
        _ => {
        },
    }
    match entry_from_json(v) {
        Some(e) => Some(PluginJson::Single(e)),
        None => None,
    }
}

} // verus!
