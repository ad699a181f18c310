//! The plugin's entry points: resolving a project's configuration together
//! with the file extensions it accepts, and formatting one request.

use crate::config_map::{ConfigKeyMap, ConfigurationDiagnostic, GlobalConfiguration};
use crate::configuration::Configuration;
use crate::format_text::{format_outcome, format_text, FormatError};
use crate::config_map::keys_unique;
use crate::resolve_config::{
    keys_present, resolve_config, resolved, unknown_diagnostics, value_diagnostics,
};
use crate::values::diagnostics_view;
use vstd::prelude::*;

verus! {

/// Extensions accepted under `c`: the JavaScript and JSON families always,
/// then `css` and `graphql` where enabled.
pub open spec fn extensions_for(c: Configuration) -> Seq<Seq<char>> {
    seq![
        "ts"@,
        "tsx"@,
        "cts"@,
        "mts"@,
        "js"@,
        "jsx"@,
        "cjs"@,
        "mjs"@,
        "json"@,
        "jsonc"@,
    ] + (if c.css_enabled == Some(true) {
        seq!["css"@]
    } else {
        seq![]
    }) + (if c.graphql_enabled == Some(true) {
        seq!["graphql"@]
    } else {
        seq![]
    })
}

pub open spec fn strings_view(v: Seq<String>) -> Seq<Seq<char>> {
    v.map_values(|s: String| s@)
}

/// The file extensions accepted under `config`.
pub fn file_extensions(config: &Configuration) -> (r: Vec<String>)
    ensures
        strings_view(r@) == extensions_for(*config),
{
    let mut v: Vec<String> = Vec::new();
    v.push("ts".to_owned());
    v.push("tsx".to_owned());
    v.push("cts".to_owned());
    v.push("mts".to_owned());
    v.push("js".to_owned());
    v.push("jsx".to_owned());
    v.push("cjs".to_owned());
    v.push("mjs".to_owned());
    v.push("json".to_owned());
    v.push("jsonc".to_owned());
    let ghost base = strings_view(v@);
    assert(base =~= seq![
        "ts"@,
        "tsx"@,
        "cts"@,
        "mts"@,
        "js"@,
        "jsx"@,
        "cjs"@,
        "mjs"@,
        "json"@,
        "jsonc"@,
    ]);
    if config.css_enabled == Some(true) {
        v.push("css".to_owned());
    }
    let ghost with_css = strings_view(v@);
    assert(with_css =~= base + (if config.css_enabled == Some(true) {
        seq!["css"@]
    } else {
        seq![]
    }));
    if config.graphql_enabled == Some(true) {
        v.push("graphql".to_owned());
    }
    assert(strings_view(v@) =~= extensions_for(*config));
    v
}

/// A resolved configuration with its diagnostics and accepted extensions.
#[derive(Debug)]
pub struct PluginResolveConfigurationResult {
    pub config: Configuration,
    pub diagnostics: Vec<ConfigurationDiagnostic>,
    pub file_extensions: Vec<String>,
}

/// The plugin: stateless, so every call stands alone.
#[derive(Clone, Copy, Debug)]
pub struct BiomePluginHandler;

impl BiomePluginHandler {
    /// Resolves a project's configuration and lists the extensions it accepts.
    pub fn resolve_config(&self, config: ConfigKeyMap, global_config: &GlobalConfiguration) -> (r:
        PluginResolveConfigurationResult)
        ensures
            r.config == resolved(config.view(), *global_config),
            diagnostics_view(r.diagnostics@) == value_diagnostics(config.view())
                + unknown_diagnostics(config.view()),
            strings_view(r.file_extensions@) == extensions_for(r.config),
            keys_unique(config.view()),
            keys_present(diagnostics_view(r.diagnostics@), config.view()),
    {
        let result = resolve_config(config, global_config);
        let file_extensions = file_extensions(&result.config);
        PluginResolveConfigurationResult {
            config: result.config,
            diagnostics: result.diagnostics,
            file_extensions,
        }
    }

    /// Formats one request. Formatting a range of a file is not supported
    /// and gives no change.
    pub fn format(
        &self,
        file_path: &str,
        file_text: &str,
        range: Option<(usize, usize)>,
        config: &Configuration,
    ) -> (r: Result<Option<String>, FormatError>)
        ensures
            range is Some ==> (r matches Ok(None)),
            range is None ==> format_outcome(file_path@, file_text@, *config, r),
    {
        if range.is_some() {
            return Ok(None);
        }
        format_text(file_path, file_text, config)
    }
}

} // verus!
