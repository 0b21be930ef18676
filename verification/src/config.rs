//! The single user-configurable setting: the registry base address.

use vstd::prelude::*;
use vstd::string::StringExecFns;
use crate::json::{JsonValue, json_of, parse_json, spec_get_string, get_string};

verus! {

broadcast use vstd::string::group_string_axioms;

/// The built-in registry address, used whenever no valid setting is stored.
pub open spec fn spec_default_registry() -> Seq<char> {
    "https://registry.npmjs.org"@
}

/// The process-wide setting: the registry base address.
#[derive(Debug, Clone, PartialEq, Eq)]
pub struct PluginConfig {
    pub registry: String,
}

impl Default for PluginConfig {
    /// The default setting points at the built-in registry.
    fn default() -> (c: PluginConfig)
        ensures
            c.registry@ == spec_default_registry(),
    {
        PluginConfig { registry: String::from_str("https://registry.npmjs.org") }
    }
}

/// The registry override a stored document carries: the string under
/// `registry`, when the document is an object holding one.
pub open spec fn spec_config_override(parsed: Option<JsonValue>) -> Option<String> {
    match parsed {
        Some(v) => spec_get_string(v, "registry"@),
        None => None,
    }
}

/// Reads the setting from the stored text: a missing file, unparsable text,
/// or a document without a `registry` string all fall back to the default;
/// nothing fails the caller.
pub fn config_from_text(content: Option<&String>) -> (c: PluginConfig)
    ensures
        ({
            let parsed = match content {
                Some(t) => json_of(t@),
                None => None,
            };
            match spec_config_override(parsed) {
                Some(s) => c.registry == s,
                None => c.registry@ == spec_default_registry(),
            }
        }),
{
    match content {
        Some(text) => match parse_json(text.as_str()) {
            Some(v) => match get_string(&v, "registry") {
                Some(s) => PluginConfig { registry: s },
                None => PluginConfig::default(),
            },
            None => PluginConfig::default(),
        },
        None => PluginConfig::default(),
    }
}

/// Encodes the setting as the JSON object the store persists; the encoding
/// decodes back to the same setting.
pub fn config_to_json(c: &PluginConfig) -> (r: JsonValue)
    ensures
        spec_config_override(Some(r)) == Some(c.registry),
{
    let mut fields: Vec<(String, JsonValue)> = Vec::new();
    fields.push((String::from_str("registry"), JsonValue::Str(c.registry.clone())));
    let ghost f = fields@;
    let r = JsonValue::Obj(fields);
    proof {
        crate::json::lemma_obj_get_found(f, "registry"@, 0);
    }
    r
}

} // verus!
