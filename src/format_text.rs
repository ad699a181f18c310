//! Formatting one file: the extension picks the sub-formatter, the
//! configuration gives its options, and an unchanged result is reported as
//! no change.

use crate::configuration::{
    ArrowParentheses, Configuration, IndentStyle, LineEnding, QuoteProperties, QuoteStyle,
    Semicolons, TrailingComma,
};
use crate::values::{int_text, int_to_text};
use crate::engine::{
    css_file_source, css_parses, css_path_known, css_print_of, js_file_source, js_parses,
    js_path_known, js_print_of, json_parses, json_print_of, line_width_range_text,
    engine_line_width, parse_css_text, parse_js_file, parse_json_text, print_css, print_js,
    print_json, render_diagnostic, CssEngineOptions, JsEngineOptions, JsonEngineOptions,
};
use crate::text::{
    extension_of, lower_of, lowercase, opt_view, path_extension, str_eq, trim, trim_of,
};
use biome_parser::diagnostic::ParseDiagnostic;
use vstd::prelude::*;
use vstd::string::StringExecFns;

verus! {

/// Why a file could not be formatted.
#[derive(Debug)]
pub enum FormatError {
    /// The input does not parse; the rendered diagnostics.
    Parse(String),
    /// A configured value is outside what the engine accepts.
    Options(String),
    /// The engine failed while formatting or printing.
    Engine(String),
    /// No engine for this language is linked in.
    Unavailable(String),
}

impl FormatError {
    pub open spec fn text(&self) -> Seq<char> {
        match self {
            FormatError::Parse(m) => m@,
            FormatError::Options(m) => m@,
            FormatError::Engine(m) => m@,
            FormatError::Unavailable(m) => m@,
        }
    }

    /// The human-readable message.
    pub fn message(&self) -> (r: String)
        ensures
            r@ == self.text(),
    {
        match self {
            FormatError::Parse(m) => m.clone(),
            FormatError::Options(m) => m.clone(),
            FormatError::Engine(m) => m.clone(),
            FormatError::Unavailable(m) => m.clone(),
        }
    }
}

/// The sub-formatter a file goes to.
#[derive(Clone, Copy, PartialEq, Eq, Structural, Debug)]
pub enum FileRoute {
    Json,
    JavaScript,
    Css,
    Graphql,
    Unsupported,
}

pub open spec fn is_js_extension(e: Seq<char>) -> bool {
    e == "js"@ || e == "jsx"@ || e == "ts"@ || e == "tsx"@ || e == "cjs"@ || e == "mjs"@ || e
        == "cts"@ || e == "mts"@
}

/// The route for a lowercase extension: JSON and JavaScript always, CSS and
/// GraphQL only where explicitly enabled.
pub open spec fn route_of(ext: Option<Seq<char>>, c: Configuration) -> FileRoute {
    match ext {
        None => FileRoute::Unsupported,
        Some(e) => if e == "json"@ || e == "jsonc"@ {
            FileRoute::Json
        } else if is_js_extension(e) {
            FileRoute::JavaScript
        } else if e == "css"@ {
            if c.css_enabled == Some(true) {
                FileRoute::Css
            } else {
                FileRoute::Unsupported
            }
        } else if e == "graphql"@ {
            if c.graphql_enabled == Some(true) {
                FileRoute::Graphql
            } else {
                FileRoute::Unsupported
            }
        } else {
            FileRoute::Unsupported
        },
    }
}

/// The lowercase extension of `path`.
pub open spec fn lower_extension(path: Seq<char>) -> Option<Seq<char>> {
    match extension_of(path) {
        Some(e) => Some(lower_of(e)),
        None => None,
    }
}

/// Picks the sub-formatter for a lowercase extension.
pub fn route_for_extension(ext: Option<&str>, config: &Configuration) -> (r: FileRoute)
    ensures
        r == route_of(
            match ext {
                Some(e) => Some(e@),
                None => None,
            },
            *config,
        ),
{
    match ext {
        None => FileRoute::Unsupported,
        Some(e) => if str_eq(e, "json") || str_eq(e, "jsonc") {
            FileRoute::Json
        } else if str_eq(e, "js") || str_eq(e, "jsx") || str_eq(e, "ts") || str_eq(e, "tsx")
            || str_eq(e, "cjs") || str_eq(e, "mjs") || str_eq(e, "cts") || str_eq(e, "mts") {
            FileRoute::JavaScript
        } else if str_eq(e, "css") {
            if config.css_enabled == Some(true) {
                FileRoute::Css
            } else {
                FileRoute::Unsupported
            }
        } else if str_eq(e, "graphql") {
            if config.graphql_enabled == Some(true) {
                FileRoute::Graphql
            } else {
                FileRoute::Unsupported
            }
        } else {
            FileRoute::Unsupported
        },
    }
}

/// Picks the sub-formatter for the file at `path`.
pub fn route_file(path: &str, config: &Configuration) -> (r: FileRoute)
    ensures
        r == route_of(lower_extension(path@), *config),
{
    match path_extension(path) {
        None => route_for_extension(None, config),
        Some(e) => {
            let lower = lowercase(e.as_str());
            route_for_extension(Some(lower.as_str()), config)
        },
    }
}

// ---------------------------------------------------------------- diagnostics

/// Messages joined with a newline between each two.
pub open spec fn joined(parts: Seq<Seq<char>>) -> Seq<char>
    decreases parts.len(),
{
    if parts.len() == 0 {
        seq![]
    } else if parts.len() == 1 {
        parts[0]
    } else {
        joined(parts.drop_last()) + "\n"@ + parts.last()
    }
}

/// Joins messages with a newline between each two.
pub fn join_messages(parts: &Vec<String>) -> (r: String)
    ensures
        r@ == joined(parts@.map_values(|p: String| p@)),
{
    let ghost views = parts@.map_values(|p: String| p@);
    let mut text = String::new();
    let mut i: usize = 0;
    while i < parts.len()
        invariant
            0 <= i <= parts@.len(),
            views == parts@.map_values(|p: String| p@),
            text@ == joined(views.take(i as int)),
        decreases parts@.len() - i,
    {
        assert(views.take(i + 1).drop_last() =~= views.take(i as int));
        if i > 0 {
            text.append("\n");
        } else {
            assert(text@ =~= seq![]);
        }
        text.append(parts[i].as_str());
        assert(views.take(i + 1).last() == parts@[i as int]@);
        i = i + 1;
    }
    assert(views.take(parts@.len() as int) =~= views);
    text
}

/// Whether `m` is one message per diagnostic, joined by newlines.
pub open spec fn is_joined_message(m: Seq<char>, count: nat) -> bool {
    exists|parts: Seq<Seq<char>>| parts.len() == count && m == joined(parts)
}

/// The engine's rendering of each parse diagnostic, in order, joined by
/// newlines.
fn diagnostics_message(diagnostics: Vec<ParseDiagnostic>) -> (r: String)
    ensures
        is_joined_message(r@, diagnostics@.len()),
{
    let ghost count = diagnostics@.len();
    let mut rest = diagnostics;
    let mut parts: Vec<String> = Vec::new();
    while rest.len() > 0
        invariant
            parts@.len() + rest@.len() == count,
        decreases rest@.len(),
    {
        let d = rest.remove(0);
        parts.push(render_diagnostic(d));
    }
    let r = join_messages(&parts);
    assert(parts@.map_values(|p: String| p@).len() == count);
    r
}

// ---------------------------------------------------------------- options

/// Whether a configured line width is one the engine accepts.
pub open spec fn line_width_ok(w: Option<u16>) -> bool {
    match w {
        Some(v) => 1 <= v <= 320,
        None => true,
    }
}

/// The message for a line width the engine refuses: the engine's own text,
/// then the offending value.
pub open spec fn line_width_error_text(w: u16) -> Seq<char> {
    line_width_range_text() + " (Value: "@ + int_text(w as int) + ")"@
}

/// Whether `r` is the outcome of checking the configured line width `w`:
/// `Ok` where it is accepted, else the options error naming the value.
pub open spec fn line_width_checked<T>(w: Option<u16>, r: Result<T, FormatError>) -> bool {
    match w {
        Some(v) => if 1 <= v <= 320 {
            r is Ok
        } else {
            r matches Err(e) && e is Options && e.text() == line_width_error_text(v)
        },
        None => r is Ok,
    }
}

/// Checks a configured line width against the engine's range.
fn check_line_width(w: Option<u16>) -> (r: Result<(), FormatError>)
    ensures
        line_width_checked(w, r),
{
    if let Some(v) = w {
        if let Err(message) = engine_line_width(v) {
            let mut text = message;
            text.append(" (Value: ");
            let value = int_to_text(v as i32);
            text.append(value.as_str());
            text.append(")");
            return Err(FormatError::Options(text));
        }
    }
    Ok(())
}

/// The JSON formatter's settings, as plain values; `None` keeps the engine's
/// default.
#[derive(Clone, Copy, PartialEq, Eq, Structural, Debug)]
pub struct JsonSettings {
    pub indent_style: Option<IndentStyle>,
    pub indent_width: Option<u8>,
    pub line_width: Option<u16>,
    pub line_ending: Option<LineEnding>,
}

pub open spec fn json_settings_of(c: Configuration) -> JsonSettings {
    JsonSettings {
        indent_style: c.json_indent_style,
        indent_width: c.json_indent_width,
        line_width: c.json_line_width,
        line_ending: c.line_ending,
    }
}

/// The CSS formatter's settings, as plain values; `None` keeps the engine's
/// default.
#[derive(Clone, Copy, PartialEq, Eq, Structural, Debug)]
pub struct CssSettings {
    pub indent_style: Option<IndentStyle>,
    pub indent_width: Option<u8>,
    pub line_width: Option<u16>,
    pub quote_style: Option<QuoteStyle>,
}

pub open spec fn css_settings_of(c: Configuration) -> CssSettings {
    CssSettings {
        indent_style: c.css_indent_style,
        indent_width: c.css_indent_width,
        line_width: c.css_line_width,
        quote_style: c.css_quote_style,
    }
}

/// The JavaScript formatter's settings, as plain values; `None` keeps the
/// engine's default.
#[derive(Clone, Copy, PartialEq, Eq, Structural, Debug)]
pub struct JsSettings {
    pub line_ending: Option<LineEnding>,
    pub indent_style: Option<IndentStyle>,
    pub indent_width: Option<u8>,
    pub line_width: Option<u16>,
    pub semicolons: Option<Semicolons>,
    pub quote_style: Option<QuoteStyle>,
    pub jsx_quote_style: Option<QuoteStyle>,
    pub quote_properties: Option<QuoteProperties>,
    pub arrow_parentheses: Option<ArrowParentheses>,
    pub trailing_commas: Option<TrailingComma>,
    pub bracket_spacing: Option<bool>,
    pub bracket_same_line: Option<bool>,
}

pub open spec fn js_settings_of(c: Configuration) -> JsSettings {
    JsSettings {
        line_ending: c.line_ending,
        indent_style: c.javascript_indent_style,
        indent_width: c.javascript_indent_width,
        line_width: c.javascript_line_width,
        semicolons: c.semicolons,
        quote_style: c.javascript_quote_style,
        jsx_quote_style: c.jsx_quote_style,
        quote_properties: c.quote_properties,
        arrow_parentheses: c.arrow_parentheses,
        trailing_commas: c.trailing_commas,
        bracket_spacing: c.javascript_bracket_spacing,
        bracket_same_line: c.bracket_same_line,
    }
}

/// The options that GraphQL formatting uses, as plain values.
#[derive(Clone, Copy, PartialEq, Eq, Structural, Debug)]
pub struct GraphqlOptions {
    pub indent_style: Option<IndentStyle>,
    pub indent_width: Option<u8>,
    pub line_width: Option<u16>,
    pub quote_style: Option<QuoteStyle>,
    pub bracket_spacing: Option<bool>,
}

pub open spec fn graphql_options_of(c: Configuration) -> GraphqlOptions {
    GraphqlOptions {
        indent_style: c.graphql_indent_style,
        indent_width: c.graphql_indent_width,
        line_width: c.graphql_line_width,
        quote_style: c.graphql_quote_style,
        bracket_spacing: c.graphql_bracket_spacing,
    }
}

/// Settings for the JSON formatter: indent style and width, line width and
/// line ending; a line width the engine refuses is an error.
pub fn build_json_settings(config: &Configuration) -> (r: Result<JsonSettings, FormatError>)
    ensures
        line_width_checked(config.json_line_width, r),
        (r matches Ok(s) ==> s == json_settings_of(*config)),
{
    check_line_width(config.json_line_width)?;
    Ok(
        JsonSettings {
            indent_style: config.json_indent_style,
            indent_width: config.json_indent_width,
            line_width: config.json_line_width,
            line_ending: config.line_ending,
        },
    )
}

/// Settings for the CSS formatter: indent style and width, line width and
/// quote style; a line width the engine refuses is an error.
pub fn build_css_settings(config: &Configuration) -> (r: Result<CssSettings, FormatError>)
    ensures
        line_width_checked(config.css_line_width, r),
        (r matches Ok(s) ==> s == css_settings_of(*config)),
{
    check_line_width(config.css_line_width)?;
    Ok(
        CssSettings {
            indent_style: config.css_indent_style,
            indent_width: config.css_indent_width,
            line_width: config.css_line_width,
            quote_style: config.css_quote_style,
        },
    )
}

/// Settings for the JavaScript formatter: layout, semicolons, quotes (code
/// and JSX apart), property quoting, arrow parentheses, trailing commas and
/// brackets; a line width the engine refuses is an error.
pub fn build_js_settings(config: &Configuration) -> (r: Result<JsSettings, FormatError>)
    ensures
        line_width_checked(config.javascript_line_width, r),
        (r matches Ok(s) ==> s == js_settings_of(*config)),
{
    check_line_width(config.javascript_line_width)?;
    Ok(
        JsSettings {
            line_ending: config.line_ending,
            indent_style: config.javascript_indent_style,
            indent_width: config.javascript_indent_width,
            line_width: config.javascript_line_width,
            semicolons: config.semicolons,
            quote_style: config.javascript_quote_style,
            jsx_quote_style: config.jsx_quote_style,
            quote_properties: config.quote_properties,
            arrow_parentheses: config.arrow_parentheses,
            trailing_commas: config.trailing_commas,
            bracket_spacing: config.javascript_bracket_spacing,
            bracket_same_line: config.bracket_same_line,
        },
    )
}

/// Options for GraphQL formatting: indent style and width, line width, quote
/// style and bracket spacing; a line width the engine refuses is an error.
pub fn build_graphql_options(config: &Configuration) -> (r: Result<GraphqlOptions, FormatError>)
    ensures
        line_width_checked(config.graphql_line_width, r),
        (r matches Ok(o) ==> o == graphql_options_of(*config)),
{
    check_line_width(config.graphql_line_width)?;
    Ok(
        GraphqlOptions {
            indent_style: config.graphql_indent_style,
            indent_width: config.graphql_indent_width,
            line_width: config.graphql_line_width,
            quote_style: config.graphql_quote_style,
            bracket_spacing: config.graphql_bracket_spacing,
        },
    )
}

// ---------------------------------------------------------------- formatting

/// What formatting reports for engine output `output` of input `input`: no
/// change where the two are identical.
pub open spec fn change_of(input: Seq<char>, output: Seq<char>) -> Option<Seq<char>> {
    if output == input {
        None
    } else {
        Some(output)
    }
}

/// Reports engine output: `None` where it equals the input.
pub fn report_change(input: &str, output: String) -> (r: Option<String>)
    ensures
        opt_view(r) == change_of(input@, output@),
{
    if str_eq(output.as_str(), input) {
        None
    } else {
        Some(output)
    }
}

/// What a JSON document that does not parse yields when it holds only
/// whitespace: the trimmed text where trimming changed it, else no change.
pub fn blank_json_result(input: &str, trimmed: &str) -> (r: Option<String>)
    ensures
        opt_view(r) == change_of(input@, trimmed@),
{
    if str_eq(trimmed, input) {
        None
    } else {
        Some(trimmed.to_owned())
    }
}

/// Whether `r` reports the engine's printing outcome `printed` for input
/// `text`: the change (none where the code is the input), or the engine's
/// error.
pub open spec fn reports_print(
    text: Seq<char>,
    printed: Result<Seq<char>, Seq<char>>,
    r: Result<Option<String>, FormatError>,
) -> bool {
    match printed {
        Ok(code) => r is Ok && opt_view(r->Ok_0) == change_of(text, code),
        Err(m) => r matches Err(FormatError::Engine(e)) && e@ == m,
    }
}

/// What formatting `text` as the file at `path` under `c` returns.
///
/// An unknown extension, a disabled optional language or a path whose dialect
/// is not recognised gives no change. A line width the engine refuses is an
/// options error naming the value. A JSON document that does not parse but is
/// blank gives its trimmed text (or no change); any other input that does not
/// parse is a parse error. Input that parses is formatted by the engine, and
/// a result identical to the input is reported as no change.
pub open spec fn format_outcome(
    path: Seq<char>,
    text: Seq<char>,
    c: Configuration,
    r: Result<Option<String>, FormatError>,
) -> bool {
    let route = route_of(lower_extension(path), c);
    &&& route == FileRoute::Unsupported ==> (r matches Ok(None))
    &&& route == FileRoute::Graphql ==> (r matches Err(FormatError::Unavailable(_)))
    &&& (r matches Err(FormatError::Unavailable(_))) ==> route == FileRoute::Graphql
    &&& route == FileRoute::JavaScript && !js_path_known(path) ==> (r matches Ok(None))
    &&& route == FileRoute::JavaScript && js_path_known(path) && !line_width_ok(
        c.javascript_line_width,
    ) ==> line_width_checked(c.javascript_line_width, r)
    &&& route == FileRoute::JavaScript && js_path_known(path) && line_width_ok(
        c.javascript_line_width,
    ) ==> if js_parses(path, text, true) {
        reports_print(text, js_print_of(path, text, true, js_settings_of(c)), r)
    } else {
        r matches Err(FormatError::Parse(_))
    }
    &&& route == FileRoute::Css && !css_path_known(path) ==> (r matches Ok(None))
    &&& route == FileRoute::Css && css_path_known(path) && !line_width_ok(c.css_line_width)
        ==> line_width_checked(c.css_line_width, r)
    &&& route == FileRoute::Css && css_path_known(path) && line_width_ok(c.css_line_width) ==> if css_parses(
        text,
        true,
    ) {
        reports_print(text, css_print_of(path, text, true, css_settings_of(c)), r)
    } else {
        r matches Err(FormatError::Parse(_))
    }
    &&& route == FileRoute::Json && !json_parses(text, true, true) ==> if trim_of(text).len() == 0 {
        r is Ok && opt_view(r->Ok_0) == change_of(text, trim_of(text))
    } else {
        r matches Err(FormatError::Parse(_))
    }
    &&& route == FileRoute::Json && json_parses(text, true, true) && !line_width_ok(c.json_line_width)
        ==> line_width_checked(c.json_line_width, r)
    &&& route == FileRoute::Json && json_parses(text, true, true) && line_width_ok(c.json_line_width)
        ==> reports_print(text, json_print_of(text, true, true, json_settings_of(c)), r)
    &&& (r matches Ok(Some(out)) ==> out@ != text)
}

/// Formats `input_text` as the file at `file_path`; see [`format_outcome`].
pub fn format_text(file_path: &str, input_text: &str, config: &Configuration) -> (r: Result<
    Option<String>,
    FormatError,
>)
    ensures
        format_outcome(file_path@, input_text@, *config, r),
{
    let route = route_file(file_path, config);
    let printed = match route {
        FileRoute::Json => {
            match parse_json_text(input_text, true, true) {
                Err(diagnostics) => {
                    let trimmed = trim(input_text);
                    if trimmed.unicode_len() == 0 {
                        return Ok(blank_json_result(input_text, trimmed));
                    }
                    return Err(FormatError::Parse(diagnostics_message(diagnostics)));
                },
                Ok(_) => {
                    let settings = build_json_settings(config)?;
                    print_json(input_text, true, true, JsonEngineOptions::new(&settings))
                },
            }
        },
        FileRoute::JavaScript => {
            if js_file_source(file_path).is_none() {
                return Ok(None);
            }
            let settings = build_js_settings(config)?;
            let options = match JsEngineOptions::new(file_path, &settings) {
                Some(o) => o,
                None => {
                    return Ok(None);
                },
            };
            match parse_js_file(file_path, input_text, true) {
                Err(diagnostics) => {
                    return Err(FormatError::Parse(diagnostics_message(diagnostics)));
                },
                Ok(_) => print_js(input_text, true, options),
            }
        },
        FileRoute::Css => {
            if css_file_source(file_path).is_none() {
                return Ok(None);
            }
            let settings = build_css_settings(config)?;
            let options = match CssEngineOptions::new(file_path, &settings) {
                Some(o) => o,
                None => {
                    return Ok(None);
                },
            };
            match parse_css_text(input_text, true) {
                Err(diagnostics) => {
                    return Err(FormatError::Parse(diagnostics_message(diagnostics)));
                },
                Ok(_) => print_css(input_text, true, options),
            }
        },
        FileRoute::Graphql => {
            return Err(
                FormatError::Unavailable("GraphQL formatting is not available in this build".to_owned()),
            );
        },
        FileRoute::Unsupported => {
            return Ok(None);
        },
    };
    match printed {
        Ok(output) => Ok(report_change(input_text, output)),
        Err(message) => Err(FormatError::Engine(message)),
    }
}

} // verus!
