use dprint_plugin_biome::configuration::Configuration;
use dprint_plugin_biome::format_text::{
    blank_json_result, build_css_settings, build_graphql_options, build_js_settings,
    build_json_settings, join_messages, report_change, route_file, route_for_extension, FileRoute,
};
use dprint_plugin_biome::{format_text, BiomePluginHandler, FormatError};

fn css_enabled() -> Configuration {
    let mut config = Configuration::default();
    config.css_enabled = Some(true);
    config
}

#[test]
fn handles_bom() {
    let input = "\u{FEFF}{}";
    let config = Configuration::default();
    let result = format_text("test.json", input, &config).unwrap().unwrap();
    // biome keeps the byte-order mark, so it is kept here too
    assert_eq!(result, "\u{FEFF}{}\n");
}

#[test]
fn should_fail_on_parse_error_js() {
    let config = Configuration::default();
    let err = format_text("./file.ts", "const t string = 5;", &config).unwrap_err();
    assert_eq!(
        err.message(),
        r#"parse ━━━━━━━━━━━━━━━━━━━━━━━━━━━━━━━━━━━━━━━━━━━━━━━━━━━━━━━━━━━━━━━━━━━━━━━━━━━━━━━━━━━━━━━━━━━━━━

  × Const declarations must have an initialized value.
  
  i This variable needs to be initialized.
  


parse ━━━━━━━━━━━━━━━━━━━━━━━━━━━━━━━━━━━━━━━━━━━━━━━━━━━━━━━━━━━━━━━━━━━━━━━━━━━━━━━━━━━━━━━━━━━━━━

  × Expected a semicolon or an implicit semicolon after a statement, but found none
  
  i An explicit or implicit semicolon is expected here...
  
  i ...Which is required to end this statement
  

"#
    );
}

#[test]
fn should_fail_on_parse_error_json() {
    let config = Configuration::default();
    let err = format_text("./file.json", "{", &config).unwrap_err();
    assert_eq!(
        err.message(),
        r#"parse ━━━━━━━━━━━━━━━━━━━━━━━━━━━━━━━━━━━━━━━━━━━━━━━━━━━━━━━━━━━━━━━━━━━━━━━━━━━━━━━━━━━━━━━━━━━━━━

  × expected `}` but instead the file ends
  
  i the file ends here
  

"#
    );
}

#[test]
fn empty_object_gains_trailing_newline() {
    let config = Configuration::default();
    let result = format_text("file.json", "{}", &config).unwrap();
    assert_eq!(result, Some("{}\n".to_string()));
}

#[test]
fn formatting_twice_reports_no_change() {
    let config = css_enabled();
    for (path, input) in [
        ("a.json", "{\"a\":1,\"b\":[1,2]}"),
        ("a.ts", "const a=1"),
        ("a.jsx", "let x = <div  />"),
        ("a.css", "a{color:red}"),
    ] {
        let once = format_text(path, input, &config).unwrap().unwrap();
        assert_ne!(once, input);
        assert_eq!(format_text(path, &once, &config).unwrap(), None);
    }
}

#[test]
fn typescript_is_formatted() {
    let config = Configuration::default();
    let result = format_text("a.ts", "const a=1", &config).unwrap();
    assert_eq!(result, Some("const a = 1;\n".to_string()));
}

#[test]
fn javascript_options_are_applied() {
    let mut config = Configuration::default();
    config.javascript_quote_style = Some(dprint_plugin_biome::configuration::QuoteStyle::Single);
    config.semicolons = Some(dprint_plugin_biome::configuration::Semicolons::AsNeeded);
    let result = format_text("a.js", "const a = \"x\";", &config).unwrap();
    assert_eq!(result, Some("const a = 'x'\n".to_string()));
}

#[test]
fn json_indent_width_is_applied() {
    let mut config = Configuration::default();
    config.json_indent_style = Some(dprint_plugin_biome::configuration::IndentStyle::Space);
    config.json_indent_width = Some(4);
    config.json_line_width = Some(10);
    let result = format_text("a.json", "{\"alpha\":1,\"beta\":2}", &config).unwrap();
    assert_eq!(result, Some("{\n    \"alpha\": 1,\n    \"beta\": 2\n}\n".to_string()));
}

#[test]
fn unknown_extension_is_no_change() {
    let config = css_enabled();
    assert_eq!(format_text("file.bogus", "anything {", &config).unwrap(), None);
    assert_eq!(format_text("file.bogus", "", &config).unwrap(), None);
    assert_eq!(format_text("no_extension", "{}", &config).unwrap(), None);
}

#[test]
fn css_without_flag_is_no_change() {
    let mut config = Configuration::default();
    config.css_line_width = Some(0);
    assert_eq!(format_text("a.css", "a{color:red}", &config).unwrap(), None);
    config.css_enabled = Some(false);
    assert_eq!(format_text("a.css", "a{color:red}", &config).unwrap(), None);
}

#[test]
fn graphql_without_flag_is_no_change() {
    let mut config = Configuration::default();
    assert_eq!(format_text("a.graphql", "query{a}", &config).unwrap(), None);
    config.graphql_enabled = Some(false);
    assert_eq!(format_text("a.graphql", "query{a}", &config).unwrap(), None);
}

#[test]
fn graphql_with_flag_has_no_engine() {
    let mut config = Configuration::default();
    config.graphql_enabled = Some(true);
    let err = format_text("a.graphql", "query{a}", &config).unwrap_err();
    assert!(matches!(err, FormatError::Unavailable(_)));
}

#[test]
fn css_with_flag_is_formatted() {
    let config = css_enabled();
    let result = format_text("a.css", "a{color:red}", &config).unwrap();
    assert_eq!(result, Some("a {\n\tcolor: red;\n}\n".to_string()));
}

#[test]
fn css_parse_error_is_fatal() {
    let config = css_enabled();
    let err = format_text("a.css", "a{", &config).unwrap_err();
    assert!(matches!(err, FormatError::Parse(_)));
}

#[test]
fn blank_json_is_trimmed_not_an_error() {
    let config = Configuration::default();
    assert_eq!(format_text("a.json", "  \n", &config).unwrap(), Some(String::new()));
    assert_eq!(format_text("a.json", "", &config).unwrap(), None);
}

#[test]
fn uppercase_extension_is_routed() {
    let config = Configuration::default();
    let result = format_text("DATA.JSON", "{}", &config).unwrap();
    assert_eq!(result, Some("{}\n".to_string()));
    assert_eq!(route_file("DATA.JSON", &config), FileRoute::Json);
}

#[test]
fn line_width_out_of_range_is_an_option_error() {
    let mut config = Configuration::default();
    config.json_line_width = Some(0);
    let err = format_text("a.json", "{}", &config).unwrap_err();
    assert!(matches!(err, FormatError::Options(_)));
    assert!(err.message().starts_with("The line width should be between 1 and 320"));
    assert!(err.message().ends_with("(Value: 0)"));
    let mut config = Configuration::default();
    config.javascript_line_width = Some(321);
    let err = format_text("a.ts", "a", &config).unwrap_err();
    assert!(err.message().ends_with("(Value: 321)"));
}

#[test]
fn line_width_at_bounds_is_accepted() {
    let mut config = Configuration::default();
    config.json_line_width = Some(320);
    assert!(format_text("a.json", "{}", &config).is_ok());
    config.json_line_width = Some(1);
    assert!(format_text("a.json", "{}", &config).is_ok());
}

#[test]
fn unrecognised_javascript_path_is_no_change() {
    let config = Configuration::default();
    assert_eq!(format_text("FILE.TS", "const a=1", &config).unwrap(), None);
    assert_eq!(route_file("FILE.TS", &config), FileRoute::JavaScript);
    assert_eq!(format_text(".ts", "const a=1", &config).unwrap(), None);
}

#[test]
fn range_requests_are_not_formatted() {
    let config = Configuration::default();
    let handler = BiomePluginHandler;
    assert_eq!(handler.format("a.json", "{}", Some((0, 1)), &config).unwrap(), None);
    assert_eq!(
        handler.format("a.json", "{}", None, &config).unwrap(),
        Some("{}\n".to_string())
    );
}

#[test]
fn routes_by_extension() {
    let mut config = Configuration::default();
    assert_eq!(route_for_extension(Some("jsonc"), &config), FileRoute::Json);
    assert_eq!(route_for_extension(Some("mts"), &config), FileRoute::JavaScript);
    assert_eq!(route_for_extension(Some("css"), &config), FileRoute::Unsupported);
    assert_eq!(route_for_extension(Some("graphql"), &config), FileRoute::Unsupported);
    assert_eq!(route_for_extension(None, &config), FileRoute::Unsupported);
    config.css_enabled = Some(true);
    config.graphql_enabled = Some(true);
    assert_eq!(route_for_extension(Some("css"), &config), FileRoute::Css);
    assert_eq!(route_for_extension(Some("graphql"), &config), FileRoute::Graphql);
    assert_eq!(route_for_extension(Some("JSON"), &config), FileRoute::Unsupported);
}

#[test]
fn identical_output_is_no_change() {
    assert_eq!(report_change("abc", "abc".to_string()), None);
    assert_eq!(report_change("abc", "abd".to_string()), Some("abd".to_string()));
    assert_eq!(blank_json_result("  ", ""), Some(String::new()));
    assert_eq!(blank_json_result("", ""), None);
}

#[test]
fn messages_are_joined_by_newlines() {
    assert_eq!(join_messages(&vec![]), "");
    assert_eq!(join_messages(&vec!["a".to_string()]), "a");
    assert_eq!(
        join_messages(&vec!["a".to_string(), "b\n".to_string(), "c".to_string()]),
        "a\nb\n\nc"
    );
}

#[test]
fn graphql_options_follow_configuration() {
    let mut config = Configuration::default();
    config.graphql_indent_width = Some(3);
    config.graphql_bracket_spacing = Some(false);
    let options = build_graphql_options(&config).unwrap();
    assert_eq!(options.indent_width, Some(3));
    assert_eq!(options.bracket_spacing, Some(false));
    assert_eq!(options.line_width, None);
    config.graphql_line_width = Some(400);
    assert!(matches!(build_graphql_options(&config), Err(FormatError::Options(_))));
}

#[test]
fn settings_follow_configuration() {
    let config = Configuration::default();
    let json = build_json_settings(&config).unwrap();
    assert_eq!(json.indent_style, None);
    assert_eq!(json.line_width, None);
    let mut config = Configuration::default();
    config.json_indent_width = Some(5);
    config.line_ending = Some(dprint_plugin_biome::configuration::LineEnding::Crlf);
    config.css_quote_style = Some(dprint_plugin_biome::configuration::QuoteStyle::Single);
    config.bracket_same_line = Some(true);
    let json = build_json_settings(&config).unwrap();
    assert_eq!(json.indent_width, Some(5));
    assert_eq!(json.line_ending, Some(dprint_plugin_biome::configuration::LineEnding::Crlf));
    let css = build_css_settings(&config).unwrap();
    assert_eq!(css.quote_style, Some(dprint_plugin_biome::configuration::QuoteStyle::Single));
    assert_eq!(css.indent_width, None);
    let js = build_js_settings(&config).unwrap();
    assert_eq!(js.bracket_same_line, Some(true));
    assert_eq!(js.line_ending, Some(dprint_plugin_biome::configuration::LineEnding::Crlf));
}

#[test]
fn line_width_error_names_the_value() {
    let mut config = Configuration::default();
    config.css_line_width = Some(1000);
    let err = build_css_settings(&config).unwrap_err();
    assert_eq!(err.message(), "The line width should be between 1 and 320\n (Value: 1000)");
    config.graphql_line_width = Some(0);
    let err = build_graphql_options(&config).unwrap_err();
    assert_eq!(err.message(), "The line width should be between 1 and 320\n (Value: 0)");
}
