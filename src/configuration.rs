//! The resolved configuration and the named option values it holds.

pub use crate::resolve_config::resolve_config;
use crate::text::str_eq;
use vstd::prelude::*;

verus! {

/// Kind of newline written by the formatter.
#[derive(Clone, Copy, PartialEq, Eq, Structural, Debug)]
pub enum LineEnding {
    Lf,
    Cr,
    Crlf,
}

/// Indentation with tabs or with spaces.
#[derive(Clone, Copy, PartialEq, Eq, Structural, Debug)]
pub enum IndentStyle {
    Tab,
    Space,
}

/// Whether statements always end with a semicolon.
#[derive(Clone, Copy, PartialEq, Eq, Structural, Debug)]
pub enum Semicolons {
    Always,
    AsNeeded,
}

/// Preferred quote character for strings.
#[derive(Clone, Copy, PartialEq, Eq, Structural, Debug)]
pub enum QuoteStyle {
    Single,
    Double,
}

/// Whether object property names are quoted only where needed.
#[derive(Clone, Copy, PartialEq, Eq, Structural, Debug)]
pub enum QuoteProperties {
    AsNeeded,
    Preserve,
}

/// Whether a single arrow-function parameter is parenthesised.
#[derive(Clone, Copy, PartialEq, Eq, Structural, Debug)]
pub enum ArrowParentheses {
    Always,
    AsNeeded,
}

/// Where trailing commas are printed.
#[derive(Clone, Copy, PartialEq, Eq, Structural, Debug)]
pub enum TrailingComma {
    All,
    Es5,
    Never,
}

impl LineEnding {
    /// The value that a configuration name stands for.
    pub open spec fn spec_from_name(s: Seq<char>) -> Option<Self> {
        if s == "lf"@ {
            Some(LineEnding::Lf)
        } else if s == "cr"@ {
            Some(LineEnding::Cr)
        } else if s == "crlf"@ {
            Some(LineEnding::Crlf)
        } else {
            None
        }
    }

    /// The value named `s` in a configuration, if any.
    pub fn from_name(s: &str) -> (r: Option<Self>)
        ensures
            r == Self::spec_from_name(s@),
    {
        if str_eq(s, "lf") {
            Some(LineEnding::Lf)
        } else if str_eq(s, "cr") {
            Some(LineEnding::Cr)
        } else if str_eq(s, "crlf") {
            Some(LineEnding::Crlf)
        } else {
            None
        }
    }
}

impl IndentStyle {
    /// The value that a configuration name stands for.
    pub open spec fn spec_from_name(s: Seq<char>) -> Option<Self> {
        if s == "tab"@ {
            Some(IndentStyle::Tab)
        } else if s == "space"@ {
            Some(IndentStyle::Space)
        } else {
            None
        }
    }

    /// The value named `s` in a configuration, if any.
    pub fn from_name(s: &str) -> (r: Option<Self>)
        ensures
            r == Self::spec_from_name(s@),
    {
        if str_eq(s, "tab") {
            Some(IndentStyle::Tab)
        } else if str_eq(s, "space") {
            Some(IndentStyle::Space)
        } else {
            None
        }
    }
}

impl Semicolons {
    /// The value that a configuration name stands for.
    pub open spec fn spec_from_name(s: Seq<char>) -> Option<Self> {
        if s == "always"@ {
            Some(Semicolons::Always)
        } else if s == "asNeeded"@ {
            Some(Semicolons::AsNeeded)
        } else {
            None
        }
    }

    /// The value named `s` in a configuration, if any.
    pub fn from_name(s: &str) -> (r: Option<Self>)
        ensures
            r == Self::spec_from_name(s@),
    {
        if str_eq(s, "always") {
            Some(Semicolons::Always)
        } else if str_eq(s, "asNeeded") {
            Some(Semicolons::AsNeeded)
        } else {
            None
        }
    }
}

impl QuoteStyle {
    /// The value that a configuration name stands for.
    pub open spec fn spec_from_name(s: Seq<char>) -> Option<Self> {
        if s == "single"@ {
            Some(QuoteStyle::Single)
        } else if s == "double"@ {
            Some(QuoteStyle::Double)
        } else {
            None
        }
    }

    /// The value named `s` in a configuration, if any.
    pub fn from_name(s: &str) -> (r: Option<Self>)
        ensures
            r == Self::spec_from_name(s@),
    {
        if str_eq(s, "single") {
            Some(QuoteStyle::Single)
        } else if str_eq(s, "double") {
            Some(QuoteStyle::Double)
        } else {
            None
        }
    }
}

impl QuoteProperties {
    /// The value that a configuration name stands for.
    pub open spec fn spec_from_name(s: Seq<char>) -> Option<Self> {
        if s == "asNeeded"@ {
            Some(QuoteProperties::AsNeeded)
        } else if s == "preserve"@ {
            Some(QuoteProperties::Preserve)
        } else {
            None
        }
    }

    /// The value named `s` in a configuration, if any.
    pub fn from_name(s: &str) -> (r: Option<Self>)
        ensures
            r == Self::spec_from_name(s@),
    {
        if str_eq(s, "asNeeded") {
            Some(QuoteProperties::AsNeeded)
        } else if str_eq(s, "preserve") {
            Some(QuoteProperties::Preserve)
        } else {
            None
        }
    }
}

impl ArrowParentheses {
    /// The value that a configuration name stands for.
    pub open spec fn spec_from_name(s: Seq<char>) -> Option<Self> {
        if s == "always"@ {
            Some(ArrowParentheses::Always)
        } else if s == "asNeeded"@ {
            Some(ArrowParentheses::AsNeeded)
        } else {
            None
        }
    }

    /// The value named `s` in a configuration, if any.
    pub fn from_name(s: &str) -> (r: Option<Self>)
        ensures
            r == Self::spec_from_name(s@),
    {
        if str_eq(s, "always") {
            Some(ArrowParentheses::Always)
        } else if str_eq(s, "asNeeded") {
            Some(ArrowParentheses::AsNeeded)
        } else {
            None
        }
    }
}

impl TrailingComma {
    /// The value that a configuration name stands for.
    pub open spec fn spec_from_name(s: Seq<char>) -> Option<Self> {
        if s == "all"@ {
            Some(TrailingComma::All)
        } else if s == "es5"@ {
            Some(TrailingComma::Es5)
        } else if s == "none"@ {
            Some(TrailingComma::Never)
        } else {
            None
        }
    }

    /// The value named `s` in a configuration, if any.
    pub fn from_name(s: &str) -> (r: Option<Self>)
        ensures
            r == Self::spec_from_name(s@),
    {
        if str_eq(s, "all") {
            Some(TrailingComma::All)
        } else if str_eq(s, "es5") {
            Some(TrailingComma::Es5)
        } else if str_eq(s, "none") {
            Some(TrailingComma::Never)
        } else {
            None
        }
    }
}

/// The configuration of every language family. Each field is independent;
/// `None` leaves the engine's own default in place.
#[derive(Clone, Copy, PartialEq, Eq, Structural, Debug)]
pub struct Configuration {
    pub line_ending: Option<LineEnding>,
    pub css_enabled: Option<bool>,
    pub css_indent_style: Option<IndentStyle>,
    pub css_indent_width: Option<u8>,
    pub css_line_width: Option<u16>,
    pub css_quote_style: Option<QuoteStyle>,
    pub graphql_enabled: Option<bool>,
    pub graphql_indent_style: Option<IndentStyle>,
    pub graphql_indent_width: Option<u8>,
    pub graphql_line_width: Option<u16>,
    pub graphql_quote_style: Option<QuoteStyle>,
    pub graphql_bracket_spacing: Option<bool>,
    pub javascript_indent_style: Option<IndentStyle>,
    pub javascript_indent_width: Option<u8>,
    pub javascript_line_width: Option<u16>,
    pub javascript_quote_style: Option<QuoteStyle>,
    pub json_indent_style: Option<IndentStyle>,
    pub json_indent_width: Option<u8>,
    pub json_line_width: Option<u16>,
    pub semicolons: Option<Semicolons>,
    pub jsx_quote_style: Option<QuoteStyle>,
    pub quote_properties: Option<QuoteProperties>,
    pub arrow_parentheses: Option<ArrowParentheses>,
    pub trailing_commas: Option<TrailingComma>,
    pub bracket_same_line: Option<bool>,
    pub javascript_bracket_spacing: Option<bool>,
}

impl Configuration {
    /// Whether every field is absent.
    pub open spec fn is_empty(&self) -> bool {
        &&& self.line_ending is None
        &&& self.css_enabled is None
        &&& self.css_indent_style is None
        &&& self.css_indent_width is None
        &&& self.css_line_width is None
        &&& self.css_quote_style is None
        &&& self.graphql_enabled is None
        &&& self.graphql_indent_style is None
        &&& self.graphql_indent_width is None
        &&& self.graphql_line_width is None
        &&& self.graphql_quote_style is None
        &&& self.graphql_bracket_spacing is None
        &&& self.javascript_indent_style is None
        &&& self.javascript_indent_width is None
        &&& self.javascript_line_width is None
        &&& self.javascript_quote_style is None
        &&& self.json_indent_style is None
        &&& self.json_indent_width is None
        &&& self.json_line_width is None
        &&& self.semicolons is None
        &&& self.jsx_quote_style is None
        &&& self.quote_properties is None
        &&& self.arrow_parentheses is None
        &&& self.trailing_commas is None
        &&& self.bracket_same_line is None
        &&& self.javascript_bracket_spacing is None
    }
}

impl Default for Configuration {
    fn default() -> (r: Configuration)
        ensures
            r.is_empty(),
    {
        Configuration {
            line_ending: None,
            css_enabled: None,
            css_indent_style: None,
            css_indent_width: None,
            css_line_width: None,
            css_quote_style: None,
            graphql_enabled: None,
            graphql_indent_style: None,
            graphql_indent_width: None,
            graphql_line_width: None,
            graphql_quote_style: None,
            graphql_bracket_spacing: None,
            javascript_indent_style: None,
            javascript_indent_width: None,
            javascript_line_width: None,
            javascript_quote_style: None,
            json_indent_style: None,
            json_indent_width: None,
            json_line_width: None,
            semicolons: None,
            jsx_quote_style: None,
            quote_properties: None,
            arrow_parentheses: None,
            trailing_commas: None,
            bracket_same_line: None,
            javascript_bracket_spacing: None,
        }
    }
}

} // verus!
