use dprint_plugin_biome::configuration::{
    resolve_config, Configuration, IndentStyle, LineEnding, QuoteStyle, TrailingComma,
};
use dprint_plugin_biome::plugin::file_extensions;
use dprint_plugin_biome::values::{int_to_text, parse_unsigned_text, IntParseError};
use dprint_plugin_biome::{
    BiomePluginHandler, ConfigKeyMap, ConfigKeyValue, GlobalConfiguration, NewLineKind,
};

fn no_globals() -> GlobalConfiguration {
    GlobalConfiguration { line_width: None, use_tabs: None, indent_width: None, new_line_kind: None }
}

fn map(entries: Vec<(&str, ConfigKeyValue)>) -> ConfigKeyMap {
    let mut m = ConfigKeyMap::new();
    for (k, v) in entries {
        m.insert(k.to_string(), v);
    }
    m
}

fn text(s: &str) -> ConfigKeyValue {
    ConfigKeyValue::String(s.to_string())
}

fn diagnostics_of(m: ConfigKeyMap, g: &GlobalConfiguration) -> Vec<(String, String)> {
    resolve_config(m, g)
        .diagnostics
        .into_iter()
        .map(|d| (d.property_name, d.message))
        .collect()
}

#[test]
fn empty_map_resolves_to_defaults() {
    let result = resolve_config(ConfigKeyMap::new(), &no_globals());
    assert_eq!(result.config, Configuration::default());
    assert!(result.diagnostics.is_empty());
}

#[test]
fn globals_fill_every_language() {
    let g = GlobalConfiguration {
        line_width: Some(100),
        use_tabs: Some(true),
        indent_width: Some(3),
        new_line_kind: Some(NewLineKind::CarriageReturnLineFeed),
    };
    let c = resolve_config(ConfigKeyMap::new(), &g).config;
    assert_eq!(c.css_indent_style, Some(IndentStyle::Tab));
    assert_eq!(c.json_indent_width, Some(3));
    assert_eq!(c.javascript_line_width, Some(100));
    assert_eq!(c.graphql_line_width, Some(100));
    assert_eq!(c.line_ending, Some(LineEnding::Crlf));
    assert_eq!(c.css_enabled, None);
}

#[test]
fn global_line_width_is_clamped() {
    let mut g = no_globals();
    g.line_width = Some(70000);
    let c = resolve_config(ConfigKeyMap::new(), &g).config;
    assert_eq!(c.json_line_width, Some(65535));
    g.line_width = Some(65535);
    assert_eq!(resolve_config(ConfigKeyMap::new(), &g).config.css_line_width, Some(65535));
}

#[test]
fn new_line_kind_maps_to_line_ending() {
    let mut g = no_globals();
    g.new_line_kind = Some(NewLineKind::LineFeed);
    assert_eq!(resolve_config(ConfigKeyMap::new(), &g).config.line_ending, Some(LineEnding::Lf));
    g.new_line_kind = Some(NewLineKind::Auto);
    assert_eq!(resolve_config(ConfigKeyMap::new(), &g).config.line_ending, None);
    let m = map(vec![("lineEnding", text("cr"))]);
    assert_eq!(resolve_config(m, &g).config.line_ending, Some(LineEnding::Cr));
}

#[test]
fn language_key_beats_shared_key_beats_global() {
    let g = GlobalConfiguration {
        line_width: Some(80),
        use_tabs: Some(false),
        indent_width: Some(2),
        new_line_kind: None,
    };
    let m = map(vec![
        ("css.indentWidth", ConfigKeyValue::Number(4)),
        ("indentWidth", ConfigKeyValue::Number(3)),
        ("json.indentStyle", text("tab")),
        ("lineWidth", ConfigKeyValue::Number(90)),
        ("javascript.lineWidth", ConfigKeyValue::Number(100)),
    ]);
    let c = resolve_config(m, &g).config;
    assert_eq!(c.css_indent_width, Some(4));
    assert_eq!(c.json_indent_width, Some(3));
    assert_eq!(c.javascript_indent_width, Some(3));
    assert_eq!(c.json_indent_style, Some(IndentStyle::Tab));
    assert_eq!(c.css_indent_style, Some(IndentStyle::Space));
    assert_eq!(c.javascript_line_width, Some(100));
    assert_eq!(c.css_line_width, Some(90));
    let c = resolve_config(ConfigKeyMap::new(), &g).config;
    assert_eq!(c.css_indent_width, Some(2));
    assert_eq!(c.json_line_width, Some(80));
}

#[test]
fn quote_and_spacing_fall_back_to_shared_keys() {
    let m = map(vec![
        ("quoteStyle", text("single")),
        ("css.quoteStyle", text("double")),
        ("bracketSpacing", ConfigKeyValue::Bool(false)),
        ("jsxQuoteStyle", text("single")),
    ]);
    let c = resolve_config(m, &no_globals()).config;
    assert_eq!(c.css_quote_style, Some(QuoteStyle::Double));
    assert_eq!(c.javascript_quote_style, Some(QuoteStyle::Single));
    assert_eq!(c.graphql_quote_style, Some(QuoteStyle::Single));
    assert_eq!(c.jsx_quote_style, Some(QuoteStyle::Single));
    assert_eq!(c.javascript_bracket_spacing, Some(false));
    assert_eq!(c.graphql_bracket_spacing, Some(false));
}

#[test]
fn jsx_quote_style_has_no_fallback() {
    let m = map(vec![("quoteStyle", text("single"))]);
    assert_eq!(resolve_config(m, &no_globals()).config.jsx_quote_style, None);
}

#[test]
fn plural_trailing_commas_wins() {
    let m = map(vec![("trailingComma", text("es5")), ("trailingCommas", text("none"))]);
    let result = resolve_config(m, &no_globals());
    assert_eq!(result.config.trailing_commas, Some(TrailingComma::Never));
    assert_eq!(
        result.diagnostics.iter().map(|d| d.property_name.clone()).collect::<Vec<_>>(),
        vec!["trailingComma".to_string()]
    );
    let m = map(vec![("trailingComma", text("all"))]);
    let result = resolve_config(m, &no_globals());
    assert_eq!(result.config.trailing_commas, Some(TrailingComma::All));
    assert!(result.diagnostics.is_empty());
}

#[test]
fn indent_size_is_an_alias_read_only_when_needed() {
    let m = map(vec![("indentSize", ConfigKeyValue::Number(8))]);
    let result = resolve_config(m, &no_globals());
    assert_eq!(result.config.css_indent_width, Some(8));
    assert!(result.diagnostics.is_empty());
    let m = map(vec![
        ("json.indentSize", ConfigKeyValue::Number(6)),
        ("json.indentWidth", ConfigKeyValue::Number(2)),
    ]);
    let d = diagnostics_of(m, &no_globals());
    assert_eq!(
        d,
        vec![("json.indentSize".to_string(), "Unknown property in configuration".to_string())]
    );
}

#[test]
fn unknown_keys_are_reported_once_in_order() {
    let m = map(vec![
        ("zeta", ConfigKeyValue::Bool(true)),
        ("indentWidth", ConfigKeyValue::Number(2)),
        ("alpha", ConfigKeyValue::Null),
        ("zeta", ConfigKeyValue::Number(1)),
        ("css.unknown", text("x")),
    ]);
    let d = diagnostics_of(m, &no_globals());
    let unknown = "Unknown property in configuration".to_string();
    assert_eq!(
        d,
        vec![
            ("zeta".to_string(), unknown.clone()),
            ("alpha".to_string(), unknown.clone()),
            ("css.unknown".to_string(), unknown),
        ]
    );
}

#[test]
fn invalid_values_leave_diagnostics_and_no_override() {
    let mut g = no_globals();
    g.indent_width = Some(2);
    let m = map(vec![
        ("unknownKey", ConfigKeyValue::Number(1)),
        ("css.indentStyle", text("bad")),
        ("indentWidth", text("abc")),
        ("css.enabled", ConfigKeyValue::Number(1)),
        ("json.lineWidth", ConfigKeyValue::Number(70000)),
        ("javascript.indentWidth", ConfigKeyValue::Number(-1)),
        ("semicolons", ConfigKeyValue::Array(vec![])),
        ("lineWidth", text("")),
    ]);
    let result = resolve_config(m, &g);
    assert_eq!(result.config.css_indent_style, None);
    assert_eq!(result.config.css_indent_width, Some(2));
    assert_eq!(result.config.css_enabled, None);
    assert_eq!(result.config.json_line_width, None);
    assert_eq!(result.config.javascript_indent_width, Some(2));
    assert_eq!(result.config.semicolons, None);
    let d: Vec<(String, String)> =
        result.diagnostics.into_iter().map(|d| (d.property_name, d.message)).collect();
    let s = |a: &str, b: &str| (a.to_string(), b.to_string());
    assert_eq!(
        d,
        vec![
            s("indentWidth", "invalid digit found in string"),
            s("lineWidth", "cannot parse integer from empty string"),
            s("css.enabled", "provided string was not `true` or `false`"),
            s("css.indentStyle", "Found invalid value 'bad'."),
            s("javascript.indentWidth", "invalid digit found in string"),
            s("json.lineWidth", "number too large to fit in target type"),
            s("semicolons", "Arrays and objects are not supported for this value"),
            s("unknownKey", "Unknown property in configuration"),
        ]
    );
}

#[test]
fn numbers_and_booleans_are_read_through_text() {
    let m = map(vec![
        ("indentWidth", text("+4")),
        ("css.enabled", text("true")),
        ("graphql.enabled", ConfigKeyValue::Bool(true)),
        ("css.lineWidth", ConfigKeyValue::Number(120)),
        ("javascript.indentStyle", ConfigKeyValue::Null),
    ]);
    let result = resolve_config(m, &no_globals());
    assert_eq!(result.config.json_indent_width, Some(4));
    assert_eq!(result.config.css_enabled, Some(true));
    assert_eq!(result.config.graphql_enabled, Some(true));
    assert_eq!(result.config.css_line_width, Some(120));
    assert_eq!(result.config.javascript_indent_style, None);
    assert!(result.diagnostics.is_empty());
}

#[test]
fn insert_replaces_in_place() {
    let mut m = ConfigKeyMap::new();
    m.insert("a".to_string(), ConfigKeyValue::Number(1));
    m.insert("b".to_string(), ConfigKeyValue::Number(2));
    m.insert("a".to_string(), ConfigKeyValue::Number(3));
    assert_eq!(m.len(), 2);
    assert_eq!(m.key_at(0), "a");
    assert!(matches!(m.get("a"), Some(ConfigKeyValue::Number(3))));
    assert!(m.get("c").is_none());
}

#[test]
fn unsigned_text_parsing() {
    assert_eq!(parse_unsigned_text("+12", 255), Ok(12));
    assert_eq!(parse_unsigned_text("255", 255), Ok(255));
    assert_eq!(parse_unsigned_text("256", 255), Err(IntParseError::PosOverflow));
    assert_eq!(parse_unsigned_text("", 255), Err(IntParseError::Empty));
    assert_eq!(parse_unsigned_text("+", 255), Err(IntParseError::InvalidDigit));
    assert_eq!(parse_unsigned_text("-1", 255), Err(IntParseError::InvalidDigit));
    assert_eq!(parse_unsigned_text(" 1", 255), Err(IntParseError::InvalidDigit));
    assert_eq!(parse_unsigned_text("9999x", 255), Err(IntParseError::PosOverflow));
    assert_eq!(parse_unsigned_text("65535", 65535), Ok(65535));
}

#[test]
fn enabled_languages_add_extensions() {
    let mut config = Configuration::default();
    let base = vec!["ts", "tsx", "cts", "mts", "js", "jsx", "cjs", "mjs", "json", "jsonc"];
    assert_eq!(file_extensions(&config), base);
    config.css_enabled = Some(true);
    let mut with_css = base.clone();
    with_css.push("css");
    assert_eq!(file_extensions(&config), with_css);
    config.graphql_enabled = Some(true);
    with_css.push("graphql");
    assert_eq!(file_extensions(&config), with_css);
    config.css_enabled = Some(false);
    let mut with_graphql = base.clone();
    with_graphql.push("graphql");
    assert_eq!(file_extensions(&config), with_graphql);
}

#[test]
fn plugin_resolution_lists_extensions() {
    let m = map(vec![("css.enabled", ConfigKeyValue::Bool(true)), ("other", text("x"))]);
    let result = BiomePluginHandler.resolve_config(m, &no_globals());
    assert_eq!(result.file_extensions.last().map(|s| s.as_str()), Some("css"));
    assert_eq!(result.file_extensions.len(), 11);
    assert_eq!(result.diagnostics.len(), 1);
    assert_eq!(result.diagnostics[0].property_name, "other");
}

#[test]
fn integers_render_in_decimal() {
    assert_eq!(int_to_text(0), "0");
    assert_eq!(int_to_text(305), "305");
    assert_eq!(int_to_text(-7), "-7");
    assert_eq!(int_to_text(i32::MIN), "-2147483648");
    assert_eq!(int_to_text(i32::MAX), "2147483647");
}
