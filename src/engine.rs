//! The Biome formatting engine as this library sees it: its types, the calls
//! that parse and print, and the option builders. Everything here is trusted;
//! the decisions around these calls are made and verified elsewhere.

use crate::configuration::{
    ArrowParentheses, IndentStyle, LineEnding, QuoteProperties, QuoteStyle, Semicolons,
    TrailingComma,
};
use biome_css_formatter::context::CssFormatOptions;
use biome_css_parser::CssParse;
use biome_css_syntax::CssFileSource;
use biome_formatter::{IndentWidth, LineWidth};
use biome_js_formatter::context::{BracketSameLine, BracketSpacing, JsFormatOptions};
use biome_js_parser::Parse;
use biome_js_syntax::{AnyJsRoot, JsFileSource};
use biome_json_formatter::context::JsonFormatOptions;
use biome_json_parser::JsonParse;
use biome_parser::diagnostic::ParseDiagnostic;
use biome_formatter::IndentStyle as EngineIndentStyle;
use biome_formatter::LineEnding as EngineLineEnding;
use biome_formatter::QuoteStyle as EngineQuoteStyle;
use biome_js_formatter::context::Semicolons as EngineSemicolons;
use biome_js_formatter::context::QuoteProperties as EngineQuoteProperties;
use biome_js_formatter::context::ArrowParentheses as EngineArrowParentheses;
use biome_js_formatter::context::TrailingComma as EngineTrailingComma;
use crate::format_text::{line_width_ok, CssSettings, JsSettings, JsonSettings};
use vstd::prelude::*;

verus! {

// ---------------------------------------------------------------- engine types

/// The engine's `biome_json_parser::JsonParse`, carried through opaquely.
#[verifier::external_type_specification]
#[verifier::external_body]
pub struct ExJsonParse(biome_json_parser::JsonParse);

/// The engine's `biome_css_parser::CssParse`, carried through opaquely.
#[verifier::external_type_specification]
#[verifier::external_body]
pub struct ExCssParse(biome_css_parser::CssParse);

/// The engine's `biome_js_parser::Parse<T>`, carried through opaquely.
#[verifier::external_type_specification]
#[verifier::external_body]
#[verifier::reject_recursive_types(T)]
pub struct ExParse<T>(biome_js_parser::Parse<T>);

/// The engine's `biome_js_syntax::AnyJsRoot`, carried through opaquely.
#[verifier::external_type_specification]
#[verifier::external_body]
pub struct ExAnyJsRoot(biome_js_syntax::AnyJsRoot);

/// The engine's `biome_parser::diagnostic::ParseDiagnostic`, carried through opaquely.
#[verifier::external_type_specification]
#[verifier::external_body]
pub struct ExParseDiagnostic(biome_parser::diagnostic::ParseDiagnostic);

/// The engine's `biome_js_syntax::JsFileSource`, carried through opaquely.
#[verifier::external_type_specification]
#[verifier::external_body]
pub struct ExJsFileSource(biome_js_syntax::JsFileSource);

/// The engine's `biome_css_syntax::CssFileSource`, carried through opaquely.
#[verifier::external_type_specification]
#[verifier::external_body]
pub struct ExCssFileSource(biome_css_syntax::CssFileSource);

/// The engine's `biome_json_formatter::context::JsonFormatOptions`, carried through opaquely.
#[verifier::external_type_specification]
#[verifier::external_body]
pub struct ExJsonFormatOptions(biome_json_formatter::context::JsonFormatOptions);

/// The engine's `biome_js_formatter::context::JsFormatOptions`, carried through opaquely.
#[verifier::external_type_specification]
#[verifier::external_body]
pub struct ExJsFormatOptions(biome_js_formatter::context::JsFormatOptions);

/// The engine's `biome_css_formatter::context::CssFormatOptions`, carried through opaquely.
#[verifier::external_type_specification]
#[verifier::external_body]
pub struct ExCssFormatOptions(biome_css_formatter::context::CssFormatOptions);

/// The engine's `biome_formatter::IndentStyle`, carried through opaquely.
#[verifier::external_type_specification]
#[verifier::external_body]
pub struct ExEngineIndentStyle(EngineIndentStyle);

/// The engine's `biome_formatter::LineEnding`, carried through opaquely.
#[verifier::external_type_specification]
#[verifier::external_body]
pub struct ExEngineLineEnding(EngineLineEnding);

/// The engine's `biome_formatter::QuoteStyle`, carried through opaquely.
#[verifier::external_type_specification]
#[verifier::external_body]
pub struct ExEngineQuoteStyle(EngineQuoteStyle);

/// The engine's `biome_formatter::IndentWidth`, carried through opaquely.
#[verifier::external_type_specification]
#[verifier::external_body]
pub struct ExIndentWidth(biome_formatter::IndentWidth);

/// The engine's `biome_formatter::LineWidth`, carried through opaquely.
#[verifier::external_type_specification]
#[verifier::external_body]
pub struct ExLineWidth(biome_formatter::LineWidth);

/// The engine's `biome_js_formatter::context::Semicolons`, carried through opaquely.
#[verifier::external_type_specification]
#[verifier::external_body]
pub struct ExEngineSemicolons(EngineSemicolons);

/// The engine's `biome_js_formatter::context::QuoteProperties`, carried through opaquely.
#[verifier::external_type_specification]
#[verifier::external_body]
pub struct ExEngineQuoteProperties(EngineQuoteProperties);

/// The engine's `biome_js_formatter::context::ArrowParentheses`, carried through opaquely.
#[verifier::external_type_specification]
#[verifier::external_body]
pub struct ExEngineArrowParentheses(EngineArrowParentheses);

/// The engine's `biome_js_formatter::context::TrailingComma`, carried through opaquely.
#[verifier::external_type_specification]
#[verifier::external_body]
pub struct ExEngineTrailingComma(EngineTrailingComma);

/// The engine's `biome_js_formatter::context::BracketSpacing`, carried through opaquely.
#[verifier::external_type_specification]
#[verifier::external_body]
pub struct ExBracketSpacing(biome_js_formatter::context::BracketSpacing);

/// The engine's `biome_js_formatter::context::BracketSameLine`, carried through opaquely.
#[verifier::external_type_specification]
#[verifier::external_body]
pub struct ExBracketSameLine(biome_js_formatter::context::BracketSameLine);

// ---------------------------------------------------------------- parsing

/// Whether the JSON parser accepts `text` without errors under the given
/// comment and trailing-comma permissions.
pub uninterp spec fn json_parses(text: Seq<char>, comments: bool, trailing_commas: bool) -> bool;

/// Relies on `biome_json_parser::parse_json` and `JsonParse::has_errors` /
/// `into_diagnostics`: the tree when the parse has no errors, else its
/// diagnostics. The outcome depends on the text and options alone.
#[verifier::external_body]
pub(crate) fn parse_json_text(text: &str, comments: bool, trailing_commas: bool) -> (r: Result<
    JsonParse,
    Vec<ParseDiagnostic>,
>)
    ensures
        r is Ok == json_parses(text@, comments, trailing_commas),
{
    let options = biome_json_parser::JsonParserOptions {
        allow_comments: comments,
        allow_trailing_commas: trailing_commas,
    };
    let tree = biome_json_parser::parse_json(text, options);
    if tree.has_errors() {
        Err(tree.into_diagnostics())
    } else {
        Ok(tree)
    }
}

/// Whether the CSS parser accepts `text` without errors.
pub uninterp spec fn css_parses(text: Seq<char>, wrong_line_comments: bool) -> bool;

/// Whether the JavaScript family recognises the dialect of the file at `path`
/// (from its name and extension).
pub uninterp spec fn js_path_known(path: Seq<char>) -> bool;

/// Whether the CSS family recognises the file at `path` (from its
/// extension).
pub uninterp spec fn css_path_known(path: Seq<char>) -> bool;

/// Relies on `TryFrom<&Path> for biome_js_syntax::JsFileSource`: the dialect
/// of the file, which depends on the path alone.
#[verifier::external_body]
pub(crate) fn js_file_source(path: &str) -> (r: Option<JsFileSource>)
    ensures
        r is Some == js_path_known(path@),
{
    JsFileSource::try_from(std::path::Path::new(path)).ok()
}

/// Relies on `TryFrom<&Path> for biome_css_syntax::CssFileSource`: the
/// dialect of the file, which depends on the path alone.
#[verifier::external_body]
pub(crate) fn css_file_source(path: &str) -> (r: Option<CssFileSource>)
    ensures
        r is Some == css_path_known(path@),
{
    CssFileSource::try_from(std::path::Path::new(path)).ok()
}

/// Whether the JavaScript parser accepts `text` without errors, in the
/// dialect of the file at `path`.
pub uninterp spec fn js_parses(path: Seq<char>, text: Seq<char>, class_parameter_decorators: bool) -> bool;

/// Relies on `TryFrom<&Path> for JsFileSource`, `biome_js_parser::parse` and
/// `Parse::has_errors` / `into_diagnostics`: the tree when the parse in the
/// file's dialect has no errors, else its diagnostics. The dialect is known,
/// so the conversion does not fail.
#[verifier::external_body]
pub(crate) fn parse_js_file(path: &str, text: &str, class_parameter_decorators: bool) -> (r: Result<
    Parse<AnyJsRoot>,
    Vec<ParseDiagnostic>,
>)
    requires
        js_path_known(path@),
    ensures
        r is Ok == js_parses(path@, text@, class_parameter_decorators),
{
    let source = JsFileSource::try_from(std::path::Path::new(path)).expect("known dialect");
    let options = biome_js_parser::JsParserOptions {
        parse_class_parameter_decorators: class_parameter_decorators,
    };
    let tree = biome_js_parser::parse(text, source, options);
    if tree.has_errors() {
        Err(tree.into_diagnostics())
    } else {
        Ok(tree)
    }
}

/// Relies on `biome_css_parser::parse_css` and `CssParse::has_errors` /
/// `into_diagnostics`: the tree when the parse has no errors, else its
/// diagnostics. The outcome depends on the text and options alone.
#[verifier::external_body]
pub(crate) fn parse_css_text(text: &str, wrong_line_comments: bool) -> (r: Result<
    CssParse,
    Vec<ParseDiagnostic>,
>)
    ensures
        r is Ok == css_parses(text@, wrong_line_comments),
{
    let options = biome_css_parser::CssParserOptions { allow_wrong_line_comments: wrong_line_comments };
    let tree = biome_css_parser::parse_css(text, options);
    if tree.has_errors() {
        Err(tree.into_diagnostics())
    } else {
        Ok(tree)
    }
}

/// Relies on `biome_diagnostics::print_diagnostic_to_string`: the diagnostic
/// rendered as plain text, without colour.
#[verifier::external_body]
pub(crate) fn render_diagnostic(d: ParseDiagnostic) -> (r: String) {
    biome_diagnostics::print_diagnostic_to_string(&biome_diagnostics::Error::from(d))
}

// ---------------------------------------------------------------- printing

/// The engine's options for a set of plain settings. Only verified code in
/// this module builds them, so the options always follow `settings`.
pub struct JsonEngineOptions {
    settings: JsonSettings,
    options: JsonFormatOptions,
}

impl JsonEngineOptions {
    pub closed spec fn settings(&self) -> JsonSettings {
        self.settings
    }

    /// The options with each present setting applied to the engine default.
    pub fn new(s: &JsonSettings) -> (r: Self)
        requires
            line_width_ok(s.line_width),
        ensures
            r.settings() == *s,
    {
        let mut options = JsonFormatOptions::new();
        if let Some(style) = s.indent_style {
            options = options.with_indent_style(engine_indent_style(style));
        }
        if let Some(width) = s.indent_width {
            options = options.with_indent_width(engine_indent_width(width));
        }
        if let Some(ending) = s.line_ending {
            options = options.with_line_ending(engine_line_ending(ending));
        }
        if let Some(width) = s.line_width {
            if let Ok(w) = engine_line_width(width) {
                options = options.with_line_width(w);
            }
        }
        JsonEngineOptions { settings: *s, options }
    }
}

/// The engine's options for the CSS file at a path, with plain settings.
pub struct CssEngineOptions {
    path: Ghost<Seq<char>>,
    settings: CssSettings,
    options: CssFormatOptions,
}

impl CssEngineOptions {
    pub closed spec fn path(&self) -> Seq<char> {
        self.path@
    }

    pub closed spec fn settings(&self) -> CssSettings {
        self.settings
    }

    /// The options for the file's dialect with each present setting applied.
    pub fn new(path: &str, s: &CssSettings) -> (r: Option<Self>)
        requires
            line_width_ok(s.line_width),
        ensures
            r is Some == css_path_known(path@),
            (r matches Some(o) ==> o.path() == path@ && o.settings() == *s),
    {
        let source = css_file_source(path)?;
        let mut options = CssFormatOptions::new(source);
        if let Some(style) = s.indent_style {
            options = options.with_indent_style(engine_indent_style(style));
        }
        if let Some(width) = s.indent_width {
            options = options.with_indent_width(engine_indent_width(width));
        }
        if let Some(width) = s.line_width {
            if let Ok(w) = engine_line_width(width) {
                options = options.with_line_width(w);
            }
        }
        if let Some(quote) = s.quote_style {
            options = options.with_quote_style(engine_quote_style(quote));
        }
        Some(CssEngineOptions { path: Ghost(path@), settings: *s, options })
    }
}

/// The engine's options for the JavaScript file at a path, with plain
/// settings.
pub struct JsEngineOptions {
    path: Ghost<Seq<char>>,
    settings: JsSettings,
    options: JsFormatOptions,
}

impl JsEngineOptions {
    pub closed spec fn path(&self) -> Seq<char> {
        self.path@
    }

    pub closed spec fn settings(&self) -> JsSettings {
        self.settings
    }

    /// The options for the file's dialect with each present setting applied.
    pub fn new(path: &str, s: &JsSettings) -> (r: Option<Self>)
        requires
            line_width_ok(s.line_width),
        ensures
            r is Some == js_path_known(path@),
            (r matches Some(o) ==> o.path() == path@ && o.settings() == *s),
    {
        let source = js_file_source(path)?;
        let mut options = JsFormatOptions::new(source);
        if let Some(ending) = s.line_ending {
            options = options.with_line_ending(engine_line_ending(ending));
        }
        if let Some(style) = s.indent_style {
            options = options.with_indent_style(engine_indent_style(style));
        }
        if let Some(width) = s.indent_width {
            options = options.with_indent_width(engine_indent_width(width));
        }
        if let Some(width) = s.line_width {
            if let Ok(w) = engine_line_width(width) {
                options = options.with_line_width(w);
            }
        }
        if let Some(semicolons) = s.semicolons {
            options = options.with_semicolons(engine_semicolons(semicolons));
        }
        if let Some(quote) = s.quote_style {
            options = options.with_quote_style(engine_quote_style(quote));
        }
        if let Some(quote) = s.jsx_quote_style {
            options = options.with_jsx_quote_style(engine_quote_style(quote));
        }
        if let Some(properties) = s.quote_properties {
            options = options.with_quote_properties(engine_quote_properties(properties));
        }
        if let Some(parens) = s.arrow_parentheses {
            options = options.with_arrow_parentheses(engine_arrow_parentheses(parens));
        }
        if let Some(commas) = s.trailing_commas {
            options = options.with_trailing_comma(engine_trailing_comma(commas));
        }
        if let Some(spacing) = s.bracket_spacing {
            options = options.with_bracket_spacing(engine_bracket_spacing(spacing));
        }
        if let Some(same_line) = s.bracket_same_line {
            options = options.with_bracket_same_line(engine_bracket_same_line(same_line));
        }
        Some(JsEngineOptions { path: Ghost(path@), settings: *s, options })
    }
}

/// What the JSON engine prints for `text` (parsed with the given comment and
/// trailing-comma permissions) under settings `s`: the code, or the text of
/// the engine's error.
pub uninterp spec fn json_print_of(
    text: Seq<char>,
    comments: bool,
    trailing_commas: bool,
    s: JsonSettings,
) -> Result<Seq<char>, Seq<char>>;

/// What the CSS engine prints for `text` of the file at `path` under
/// settings `s`.
pub uninterp spec fn css_print_of(
    path: Seq<char>,
    text: Seq<char>,
    wrong_line_comments: bool,
    s: CssSettings,
) -> Result<Seq<char>, Seq<char>>;

/// What the JavaScript engine prints for `text` of the file at `path` under
/// settings `s`.
pub uninterp spec fn js_print_of(
    path: Seq<char>,
    text: Seq<char>,
    class_parameter_decorators: bool,
    s: JsSettings,
) -> Result<Seq<char>, Seq<char>>;

/// The view of a printing outcome.
pub open spec fn printed_view(r: Result<String, String>) -> Result<Seq<char>, Seq<char>> {
    match r {
        Ok(c) => Ok(c@),
        Err(m) => Err(m@),
    }
}

/// Relies on `biome_json_parser::parse_json`, `biome_json_formatter::format_node`
/// and `Formatted::print`: the printed code, or the error's text. The options
/// follow their settings, so the result depends on the text, the parser
/// permissions and the settings alone.
#[verifier::external_body]
pub(crate) fn print_json(text: &str, comments: bool, trailing_commas: bool, o: JsonEngineOptions) -> (r:
    Result<String, String>)
    ensures
        printed_view(r) == json_print_of(text@, comments, trailing_commas, o.settings()),
{
    let parser = biome_json_parser::JsonParserOptions { allow_comments: comments, allow_trailing_commas: trailing_commas };
    let tree = biome_json_parser::parse_json(text, parser);
    match biome_json_formatter::format_node(o.options, &tree.syntax()) {
        Err(e) => Err(e.to_string()),
        Ok(formatted) => formatted.print().map(|p| p.into_code()).map_err(|e| e.to_string()),
    }
}

/// Relies on `biome_css_parser::parse_css`, `biome_css_formatter::format_node`
/// and `Formatted::print`: the printed code, or the error's text. The options
/// follow the file's path and their settings, so the result depends on the
/// path, the text, the parser option and the settings alone.
#[verifier::external_body]
pub(crate) fn print_css(text: &str, wrong_line_comments: bool, o: CssEngineOptions) -> (r: Result<String, String>)
    ensures
        printed_view(r) == css_print_of(o.path(), text@, wrong_line_comments, o.settings()),
{
    let parser = biome_css_parser::CssParserOptions { allow_wrong_line_comments: wrong_line_comments };
    let tree = biome_css_parser::parse_css(text, parser);
    match biome_css_formatter::format_node(o.options, &tree.syntax()) {
        Err(e) => Err(e.to_string()),
        Ok(formatted) => formatted.print().map(|p| p.into_code()).map_err(|e| e.to_string()),
    }
}

/// Relies on `biome_js_parser::parse` (in the dialect the options were made
/// for), `biome_js_formatter::format_node` and `Formatted::print`: the printed
/// code, or the error's text. The result depends on the path, the text, the
/// parser option and the settings alone.
#[verifier::external_body]
pub(crate) fn print_js(text: &str, class_parameter_decorators: bool, o: JsEngineOptions) -> (r: Result<String, String>)
    ensures
        printed_view(r) == js_print_of(o.path(), text@, class_parameter_decorators, o.settings()),
{
    let parser = biome_js_parser::JsParserOptions { parse_class_parameter_decorators: class_parameter_decorators };
    let tree = biome_js_parser::parse(text, o.options.source_type(), parser);
    match biome_js_formatter::format_node(o.options, &tree.syntax()) {
        Err(e) => Err(e.to_string()),
        Ok(formatted) => formatted.print().map(|p| p.into_code()).map_err(|e| e.to_string()),
    }
}

// ---------------------------------------------------------------- option values

/// Relies on `EngineIndentStyle`: one variant for each of ours.
#[verifier::external_body]
pub(crate) fn engine_indent_style(s: IndentStyle) -> (r: EngineIndentStyle) {
    match s {
        IndentStyle::Tab => EngineIndentStyle::Tab,
        IndentStyle::Space => EngineIndentStyle::Space,
    }
}

/// Relies on `EngineLineEnding`: one variant for each of ours.
#[verifier::external_body]
pub(crate) fn engine_line_ending(e: LineEnding) -> (r: EngineLineEnding) {
    match e {
        LineEnding::Lf => EngineLineEnding::Lf,
        LineEnding::Cr => EngineLineEnding::Cr,
        LineEnding::Crlf => EngineLineEnding::Crlf,
    }
}

/// Relies on `biome_formatter::QuoteStyle`: one variant for each of ours.
#[verifier::external_body]
pub(crate) fn engine_quote_style(q: QuoteStyle) -> (r: EngineQuoteStyle) {
    match q {
        QuoteStyle::Single => EngineQuoteStyle::Single,
        QuoteStyle::Double => EngineQuoteStyle::Double,
    }
}

/// Relies on `biome_js_formatter::context::Semicolons`: one variant for each
/// of ours.
#[verifier::external_body]
pub(crate) fn engine_semicolons(s: Semicolons) -> (r: EngineSemicolons) {
    match s {
        Semicolons::Always => EngineSemicolons::Always,
        Semicolons::AsNeeded => EngineSemicolons::AsNeeded,
    }
}

/// Relies on `biome_js_formatter::context::QuoteProperties`: one variant for
/// each of ours.
#[verifier::external_body]
pub(crate) fn engine_quote_properties(q: QuoteProperties) -> (r: EngineQuoteProperties) {
    match q {
        QuoteProperties::AsNeeded => EngineQuoteProperties::AsNeeded,
        QuoteProperties::Preserve => EngineQuoteProperties::Preserve,
    }
}

/// Relies on `biome_js_formatter::context::ArrowParentheses`: one variant for
/// each of ours.
#[verifier::external_body]
pub(crate) fn engine_arrow_parentheses(a: ArrowParentheses) -> (r: EngineArrowParentheses) {
    match a {
        ArrowParentheses::Always => EngineArrowParentheses::Always,
        ArrowParentheses::AsNeeded => EngineArrowParentheses::AsNeeded,
    }
}

/// Relies on `biome_js_formatter::context::TrailingComma`: one variant for
/// each of ours.
#[verifier::external_body]
pub(crate) fn engine_trailing_comma(t: TrailingComma) -> (r: EngineTrailingComma) {
    match t {
        TrailingComma::All => EngineTrailingComma::All,
        TrailingComma::Es5 => EngineTrailingComma::Es5,
        TrailingComma::Never => EngineTrailingComma::None,
    }
}

/// Relies on `From<bool> for biome_js_formatter::context::BracketSpacing`.
#[verifier::external_body]
pub(crate) fn engine_bracket_spacing(b: bool) -> (r: BracketSpacing) {
    BracketSpacing::from(b)
}

/// Relies on `From<bool> for biome_js_formatter::context::BracketSameLine`.
#[verifier::external_body]
pub(crate) fn engine_bracket_same_line(b: bool) -> (r: BracketSameLine) {
    BracketSameLine::from(b)
}

/// Relies on `From<u8> for biome_formatter::IndentWidth`, which takes any
/// `u8`.
#[verifier::external_body]
pub(crate) fn engine_indent_width(w: u8) -> (r: IndentWidth) {
    IndentWidth::from(w)
}

/// The message of `biome_formatter::LineWidthFromIntError` (written with
/// `writeln!`, so it ends in a newline).
pub open spec fn line_width_range_text() -> Seq<char> {
    "The line width should be between 1 and 320\n"@
}

/// Relies on `TryFrom<u16> for biome_formatter::LineWidth`: accepted exactly
/// from `LineWidth::MIN` (1) to `LineWidth::MAX` (320); otherwise the error's
/// `Display`, which names that range.
#[verifier::external_body]
pub(crate) fn engine_line_width(w: u16) -> (r: Result<LineWidth, String>)
    ensures
        r is Ok == (1 <= w <= 320),
        (r matches Err(m) ==> m@ == line_width_range_text()),
{
    LineWidth::try_from(w).map_err(|e| e.to_string())
}

// ---------------------------------------------------------------- option builders

/// Relies on `JsonFormatOptions::new`: the engine's default options; nothing more is
/// claimed of them.
pub assume_specification[ JsonFormatOptions::new ]() -> JsonFormatOptions;

/// Relies on `JsonFormatOptions::with_indent_style`: the options with that one setting replaced;
/// nothing more is claimed of them.
pub assume_specification[ JsonFormatOptions::with_indent_style ](
    o: JsonFormatOptions,
    indent_style: EngineIndentStyle,
) -> JsonFormatOptions;

/// Relies on `JsonFormatOptions::with_indent_width`: the options with that one setting replaced;
/// nothing more is claimed of them.
pub assume_specification[ JsonFormatOptions::with_indent_width ](
    o: JsonFormatOptions,
    indent_width: IndentWidth,
) -> JsonFormatOptions;

/// Relies on `JsonFormatOptions::with_line_ending`: the options with that one setting replaced;
/// nothing more is claimed of them.
pub assume_specification[ JsonFormatOptions::with_line_ending ](
    o: JsonFormatOptions,
    line_ending: EngineLineEnding,
) -> JsonFormatOptions;

/// Relies on `JsonFormatOptions::with_line_width`: the options with that one setting replaced;
/// nothing more is claimed of them.
pub assume_specification[ JsonFormatOptions::with_line_width ](
    o: JsonFormatOptions,
    line_width: LineWidth,
) -> JsonFormatOptions;

/// Relies on `CssFormatOptions::new`: the engine's default options; nothing more is
/// claimed of them.
pub assume_specification[ CssFormatOptions::new ](file_source: CssFileSource) -> CssFormatOptions;

/// Relies on `CssFormatOptions::with_indent_style`: the options with that one setting replaced;
/// nothing more is claimed of them.
pub assume_specification[ CssFormatOptions::with_indent_style ](
    o: CssFormatOptions,
    indent_style: EngineIndentStyle,
) -> CssFormatOptions;

/// Relies on `CssFormatOptions::with_indent_width`: the options with that one setting replaced;
/// nothing more is claimed of them.
pub assume_specification[ CssFormatOptions::with_indent_width ](
    o: CssFormatOptions,
    indent_width: IndentWidth,
) -> CssFormatOptions;

/// Relies on `CssFormatOptions::with_line_width`: the options with that one setting replaced;
/// nothing more is claimed of them.
pub assume_specification[ CssFormatOptions::with_line_width ](
    o: CssFormatOptions,
    line_width: LineWidth,
) -> CssFormatOptions;

/// Relies on `CssFormatOptions::with_quote_style`: the options with that one setting replaced;
/// nothing more is claimed of them.
pub assume_specification[ CssFormatOptions::with_quote_style ](
    o: CssFormatOptions,
    quote_style: EngineQuoteStyle,
) -> CssFormatOptions;

/// Relies on `JsFormatOptions::new`: the engine's default options; nothing more is
/// claimed of them.
pub assume_specification[ JsFormatOptions::new ](source_type: JsFileSource) -> JsFormatOptions;

/// Relies on `JsFormatOptions::with_line_ending`: the options with that one setting replaced;
/// nothing more is claimed of them.
pub assume_specification[ JsFormatOptions::with_line_ending ](
    o: JsFormatOptions,
    line_ending: EngineLineEnding,
) -> JsFormatOptions;

/// Relies on `JsFormatOptions::with_indent_style`: the options with that one setting replaced;
/// nothing more is claimed of them.
pub assume_specification[ JsFormatOptions::with_indent_style ](
    o: JsFormatOptions,
    indent_style: EngineIndentStyle,
) -> JsFormatOptions;

/// Relies on `JsFormatOptions::with_indent_width`: the options with that one setting replaced;
/// nothing more is claimed of them.
pub assume_specification[ JsFormatOptions::with_indent_width ](
    o: JsFormatOptions,
    indent_width: IndentWidth,
) -> JsFormatOptions;

/// Relies on `JsFormatOptions::with_line_width`: the options with that one setting replaced;
/// nothing more is claimed of them.
pub assume_specification[ JsFormatOptions::with_line_width ](
    o: JsFormatOptions,
    line_width: LineWidth,
) -> JsFormatOptions;

/// Relies on `JsFormatOptions::with_semicolons`: the options with that one setting replaced;
/// nothing more is claimed of them.
pub assume_specification[ JsFormatOptions::with_semicolons ](
    o: JsFormatOptions,
    semicolons: EngineSemicolons,
) -> JsFormatOptions;

/// Relies on `JsFormatOptions::with_quote_style`: the options with that one setting replaced;
/// nothing more is claimed of them.
pub assume_specification[ JsFormatOptions::with_quote_style ](
    o: JsFormatOptions,
    quote_style: EngineQuoteStyle,
) -> JsFormatOptions;

/// Relies on `JsFormatOptions::with_jsx_quote_style`: the options with that one setting replaced;
/// nothing more is claimed of them.
pub assume_specification[ JsFormatOptions::with_jsx_quote_style ](
    o: JsFormatOptions,
    jsx_quote_style: EngineQuoteStyle,
) -> JsFormatOptions;

/// Relies on `JsFormatOptions::with_quote_properties`: the options with that one setting replaced;
/// nothing more is claimed of them.
pub assume_specification[ JsFormatOptions::with_quote_properties ](
    o: JsFormatOptions,
    quote_properties: EngineQuoteProperties,
) -> JsFormatOptions;

/// Relies on `JsFormatOptions::with_arrow_parentheses`: the options with that one setting replaced;
/// nothing more is claimed of them.
pub assume_specification[ JsFormatOptions::with_arrow_parentheses ](
    o: JsFormatOptions,
    arrow_parentheses: EngineArrowParentheses,
) -> JsFormatOptions;

/// Relies on `JsFormatOptions::with_trailing_comma`: the options with that one setting replaced;
/// nothing more is claimed of them.
pub assume_specification[ JsFormatOptions::with_trailing_comma ](
    o: JsFormatOptions,
    trailing_comma: EngineTrailingComma,
) -> JsFormatOptions;

/// Relies on `JsFormatOptions::with_bracket_spacing`: the options with that one setting replaced;
/// nothing more is claimed of them.
pub assume_specification[ JsFormatOptions::with_bracket_spacing ](
    o: JsFormatOptions,
    bracket_spacing: BracketSpacing,
) -> JsFormatOptions;

/// Relies on `JsFormatOptions::with_bracket_same_line`: the options with that one setting replaced;
/// nothing more is claimed of them.
pub assume_specification[ JsFormatOptions::with_bracket_same_line ](
    o: JsFormatOptions,
    bracket_same_line: BracketSameLine,
) -> JsFormatOptions;

} // verus!
