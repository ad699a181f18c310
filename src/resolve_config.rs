//! Resolution of a raw configuration into a [`Configuration`]: per-language
//! keys first, then the cross-language key, then the host's defaults.

use crate::config_map::{
    has_key, is_first_position, keys_unique, ConfigKeyMap, ConfigurationDiagnostic, Entries, GlobalConfiguration, NewLineKind,
};
use crate::configuration::{Configuration, IndentStyle, LineEnding};
use crate::text::str_eq;
use crate::values::{
    read_text,
    diagnostics_of, diagnostics_view, get_arrow_parentheses, get_bool, get_indent_style,
    get_line_ending, get_quote_properties, get_quote_style, get_semicolons, get_trailing_comma,
    get_u16, get_u8, read_arrow_parentheses, read_bool, read_indent_style, read_line_ending,
    read_quote_properties, read_quote_style, read_semicolons, read_trailing_comma, read_u16,
    read_u8, value_of,
};
use vstd::prelude::*;

verus! {

/// The resolved configuration and the problems found on the way.
#[derive(Debug)]
pub struct ResolveConfigurationResult {
    pub config: Configuration,
    pub diagnostics: Vec<ConfigurationDiagnostic>,
}

/// `a`, or `b` where `a` is absent.
pub open spec fn or<T>(a: Option<T>, b: Option<T>) -> Option<T> {
    match a {
        Some(x) => Some(x),
        None => b,
    }
}

/// Indent style shared by every language: the `indentStyle` key, else the
/// host's tab preference.
pub open spec fn shared_indent_style(m: Entries, g: GlobalConfiguration) -> Option<IndentStyle> {
    or(
        value_of(read_indent_style(m, "indentStyle"@)),
        match g.use_tabs {
            Some(true) => Some(IndentStyle::Tab),
            Some(false) => Some(IndentStyle::Space),
            None => None,
        },
    )
}

/// Indent width shared by every language: `indentWidth`, else its older name
/// `indentSize`, else the host's width.
pub open spec fn shared_indent_width(m: Entries, g: GlobalConfiguration) -> Option<u8> {
    or(value_of(read_u8(m, "indentWidth"@)), or(value_of(read_u8(m, "indentSize"@)), g.indent_width))
}

/// The host's line width, clamped to the largest `u16`.
pub open spec fn clamp_line_width(l: u32) -> u16 {
    if l > 65535 {
        65535u16
    } else {
        l as u16
    }
}

/// Line width shared by every language: `lineWidth`, else the host's width
/// clamped to `u16`.
pub open spec fn shared_line_width(m: Entries, g: GlobalConfiguration) -> Option<u16> {
    or(
        value_of(read_u16(m, "lineWidth"@)),
        match g.line_width {
            Some(l) => Some(clamp_line_width(l)),
            None => None,
        },
    )
}

/// Line ending from the host's newline kind: only `lf` and `crlf` carry over.
pub open spec fn line_ending_of(k: Option<NewLineKind>) -> Option<LineEnding> {
    match k {
        Some(NewLineKind::CarriageReturnLineFeed) => Some(LineEnding::Crlf),
        Some(NewLineKind::LineFeed) => Some(LineEnding::Lf),
        _ => None,
    }
}

/// The configuration that a raw map and the host's defaults resolve to.
pub open spec fn resolved(m: Entries, g: GlobalConfiguration) -> Configuration {
    Configuration {
        line_ending: or(value_of(read_line_ending(m, "lineEnding"@)), line_ending_of(g.new_line_kind)),
        css_enabled: value_of(read_bool(m, "css.enabled"@)),
        css_indent_style: or(value_of(read_indent_style(m, "css.indentStyle"@)), shared_indent_style(m, g)),
        css_indent_width: or(value_of(read_u8(m, "css.indentWidth"@)), shared_indent_width(m, g)),
        css_line_width: or(value_of(read_u16(m, "css.lineWidth"@)), shared_line_width(m, g)),
        css_quote_style: or(value_of(read_quote_style(m, "css.quoteStyle"@)), value_of(read_quote_style(m, "quoteStyle"@))),
        graphql_enabled: value_of(read_bool(m, "graphql.enabled"@)),
        graphql_indent_style: or(value_of(read_indent_style(m, "graphql.indentStyle"@)), shared_indent_style(m, g)),
        graphql_indent_width: or(value_of(read_u8(m, "graphql.indentWidth"@)), shared_indent_width(m, g)),
        graphql_line_width: or(value_of(read_u16(m, "graphql.lineWidth"@)), shared_line_width(m, g)),
        graphql_quote_style: or(value_of(read_quote_style(m, "graphql.quoteStyle"@)), value_of(read_quote_style(m, "quoteStyle"@))),
        graphql_bracket_spacing: or(value_of(read_bool(m, "graphql.bracketSpacing"@)), value_of(read_bool(m, "bracketSpacing"@))),
        javascript_indent_style: or(value_of(read_indent_style(m, "javascript.indentStyle"@)), shared_indent_style(m, g)),
        javascript_indent_width: or(
            value_of(read_u8(m, "javascript.indentWidth"@)),
            or(value_of(read_u8(m, "javascript.indentSize"@)), shared_indent_width(m, g)),
        ),
        javascript_line_width: or(value_of(read_u16(m, "javascript.lineWidth"@)), shared_line_width(m, g)),
        javascript_quote_style: or(value_of(read_quote_style(m, "javascript.quoteStyle"@)), value_of(read_quote_style(m, "quoteStyle"@))),
        json_indent_style: or(value_of(read_indent_style(m, "json.indentStyle"@)), shared_indent_style(m, g)),
        json_indent_width: or(
            value_of(read_u8(m, "json.indentWidth"@)),
            or(value_of(read_u8(m, "json.indentSize"@)), shared_indent_width(m, g)),
        ),
        json_line_width: or(value_of(read_u16(m, "json.lineWidth"@)), shared_line_width(m, g)),
        semicolons: value_of(read_semicolons(m, "semicolons"@)),
        jsx_quote_style: value_of(read_quote_style(m, "jsxQuoteStyle"@)),
        quote_properties: value_of(read_quote_properties(m, "quoteProperties"@)),
        arrow_parentheses: value_of(read_arrow_parentheses(m, "arrowParentheses"@)),
        trailing_commas: or(value_of(read_trailing_comma(m, "trailingCommas"@)), value_of(read_trailing_comma(m, "trailingComma"@))),
        bracket_same_line: value_of(read_bool(m, "bracketSameLine"@)),
        javascript_bracket_spacing: or(value_of(read_bool(m, "javascript.bracketSpacing"@)), value_of(read_bool(m, "bracketSpacing"@))),
    }
}

/// Whether `k` is one of the keys that resolution always reads.
pub open spec fn is_known_key(k: Seq<char>) -> bool {
    k == "indentStyle"@
        || k == "indentWidth"@
        || k == "lineWidth"@
        || k == "quoteStyle"@
        || k == "jsxQuoteStyle"@
        || k == "bracketSpacing"@
        || k == "lineEnding"@
        || k == "css.enabled"@
        || k == "css.indentWidth"@
        || k == "css.lineWidth"@
        || k == "css.quoteStyle"@
        || k == "css.indentStyle"@
        || k == "graphql.enabled"@
        || k == "graphql.indentWidth"@
        || k == "graphql.lineWidth"@
        || k == "graphql.quoteStyle"@
        || k == "graphql.indentStyle"@
        || k == "graphql.bracketSpacing"@
        || k == "javascript.indentStyle"@
        || k == "javascript.indentWidth"@
        || k == "javascript.lineWidth"@
        || k == "javascript.quoteStyle"@
        || k == "json.indentStyle"@
        || k == "json.indentWidth"@
        || k == "json.lineWidth"@
        || k == "quoteProperties"@
        || k == "semicolons"@
        || k == "arrowParentheses"@
        || k == "trailingCommas"@
        || k == "bracketSameLine"@
        || k == "javascript.bracketSpacing"@
}

/// Whether resolution reads key `k` of `m`. An older alias is read only
/// where the current key gave no value.
pub open spec fn is_consumed(m: Entries, k: Seq<char>) -> bool {
    ||| is_known_key(k)
    ||| (k == "indentSize"@ && value_of(read_u8(m, "indentWidth"@)) is None)
    ||| (k == "javascript.indentSize"@ && value_of(read_u8(m, "javascript.indentWidth"@)) is None)
    ||| (k == "json.indentSize"@ && value_of(read_u8(m, "json.indentWidth"@)) is None)
    ||| (k == "trailingComma"@ && value_of(read_trailing_comma(m, "trailingCommas"@)) is None)
}

/// The message given for a key that resolution does not read.
pub open spec fn unknown_text() -> Seq<char> {
    "Unknown property in configuration"@
}

/// One diagnostic for each entry of `prefix` whose key resolution of `m`
/// does not read, in the order of the entries.
pub open spec fn unknown_in(prefix: Entries, m: Entries) -> Seq<(Seq<char>, Seq<char>)>
    decreases prefix.len(),
{
    if prefix.len() == 0 {
        seq![]
    } else {
        unknown_in(prefix.drop_last(), m) + if is_consumed(m, prefix.last().0) {
            seq![]
        } else {
            seq![(prefix.last().0, unknown_text())]
        }
    }
}

/// Diagnostics for unknown keys of `m`.
pub open spec fn unknown_diagnostics(m: Entries) -> Seq<(Seq<char>, Seq<char>)> {
    unknown_in(m, m)
}

/// Diagnostics for values that could not be read, in the order in which
/// resolution reads the keys.
pub open spec fn value_diagnostics(m: Entries) -> Seq<(Seq<char>, Seq<char>)> {
    seq![]
        + diagnostics_of("indentStyle"@, read_indent_style(m, "indentStyle"@))
        + diagnostics_of("indentWidth"@, read_u8(m, "indentWidth"@))
        + (if value_of(read_u8(m, "indentWidth"@)) is None { diagnostics_of("indentSize"@, read_u8(m, "indentSize"@)) } else { seq![] })
        + diagnostics_of("lineWidth"@, read_u16(m, "lineWidth"@))
        + diagnostics_of("quoteStyle"@, read_quote_style(m, "quoteStyle"@))
        + diagnostics_of("jsxQuoteStyle"@, read_quote_style(m, "jsxQuoteStyle"@))
        + diagnostics_of("bracketSpacing"@, read_bool(m, "bracketSpacing"@))
        + diagnostics_of("lineEnding"@, read_line_ending(m, "lineEnding"@))
        + diagnostics_of("css.enabled"@, read_bool(m, "css.enabled"@))
        + diagnostics_of("css.indentWidth"@, read_u8(m, "css.indentWidth"@))
        + diagnostics_of("css.lineWidth"@, read_u16(m, "css.lineWidth"@))
        + diagnostics_of("css.quoteStyle"@, read_quote_style(m, "css.quoteStyle"@))
        + diagnostics_of("css.indentStyle"@, read_indent_style(m, "css.indentStyle"@))
        + diagnostics_of("graphql.enabled"@, read_bool(m, "graphql.enabled"@))
        + diagnostics_of("graphql.indentWidth"@, read_u8(m, "graphql.indentWidth"@))
        + diagnostics_of("graphql.lineWidth"@, read_u16(m, "graphql.lineWidth"@))
        + diagnostics_of("graphql.quoteStyle"@, read_quote_style(m, "graphql.quoteStyle"@))
        + diagnostics_of("graphql.indentStyle"@, read_indent_style(m, "graphql.indentStyle"@))
        + diagnostics_of("graphql.bracketSpacing"@, read_bool(m, "graphql.bracketSpacing"@))
        + diagnostics_of("javascript.indentStyle"@, read_indent_style(m, "javascript.indentStyle"@))
        + diagnostics_of("javascript.indentWidth"@, read_u8(m, "javascript.indentWidth"@))
        + (if value_of(read_u8(m, "javascript.indentWidth"@)) is None { diagnostics_of("javascript.indentSize"@, read_u8(m, "javascript.indentSize"@)) } else { seq![] })
        + diagnostics_of("javascript.lineWidth"@, read_u16(m, "javascript.lineWidth"@))
        + diagnostics_of("javascript.quoteStyle"@, read_quote_style(m, "javascript.quoteStyle"@))
        + diagnostics_of("json.indentStyle"@, read_indent_style(m, "json.indentStyle"@))
        + diagnostics_of("json.indentWidth"@, read_u8(m, "json.indentWidth"@))
        + (if value_of(read_u8(m, "json.indentWidth"@)) is None { diagnostics_of("json.indentSize"@, read_u8(m, "json.indentSize"@)) } else { seq![] })
        + diagnostics_of("json.lineWidth"@, read_u16(m, "json.lineWidth"@))
        + diagnostics_of("quoteProperties"@, read_quote_properties(m, "quoteProperties"@))
        + diagnostics_of("semicolons"@, read_semicolons(m, "semicolons"@))
        + diagnostics_of("arrowParentheses"@, read_arrow_parentheses(m, "arrowParentheses"@))
        + diagnostics_of("trailingCommas"@, read_trailing_comma(m, "trailingCommas"@))
        + (if value_of(read_trailing_comma(m, "trailingCommas"@)) is None { diagnostics_of("trailingComma"@, read_trailing_comma(m, "trailingComma"@)) } else { seq![] })
        + diagnostics_of("bracketSameLine"@, read_bool(m, "bracketSameLine"@))
        + diagnostics_of("javascript.bracketSpacing"@, read_bool(m, "javascript.bracketSpacing"@))
}

fn is_known_key_exec(k: &str) -> (r: bool)
    ensures
        r == is_known_key(k@),
{
    str_eq(k, "indentStyle")
        || str_eq(k, "indentWidth")
        || str_eq(k, "lineWidth")
        || str_eq(k, "quoteStyle")
        || str_eq(k, "jsxQuoteStyle")
        || str_eq(k, "bracketSpacing")
        || str_eq(k, "lineEnding")
        || str_eq(k, "css.enabled")
        || str_eq(k, "css.indentWidth")
        || str_eq(k, "css.lineWidth")
        || str_eq(k, "css.quoteStyle")
        || str_eq(k, "css.indentStyle")
        || str_eq(k, "graphql.enabled")
        || str_eq(k, "graphql.indentWidth")
        || str_eq(k, "graphql.lineWidth")
        || str_eq(k, "graphql.quoteStyle")
        || str_eq(k, "graphql.indentStyle")
        || str_eq(k, "graphql.bracketSpacing")
        || str_eq(k, "javascript.indentStyle")
        || str_eq(k, "javascript.indentWidth")
        || str_eq(k, "javascript.lineWidth")
        || str_eq(k, "javascript.quoteStyle")
        || str_eq(k, "json.indentStyle")
        || str_eq(k, "json.indentWidth")
        || str_eq(k, "json.lineWidth")
        || str_eq(k, "quoteProperties")
        || str_eq(k, "semicolons")
        || str_eq(k, "arrowParentheses")
        || str_eq(k, "trailingCommas")
        || str_eq(k, "bracketSameLine")
        || str_eq(k, "javascript.bracketSpacing")
}

/// Whether every diagnostic in `d` names a key of `m`.
pub open spec fn keys_present(d: Seq<(Seq<char>, Seq<char>)>, m: Entries) -> bool {
    forall|j: int| 0 <= j < d.len() ==> has_key(m, #[trigger] d[j].0)
}

proof fn lemma_keys_present_concat(m: Entries, a: Seq<(Seq<char>, Seq<char>)>, b: Seq<(Seq<char>, Seq<char>)>)
    requires
        keys_present(a, m),
        forall|j: int| 0 <= j < b.len() ==> has_key(m, #[trigger] b[j].0),
    ensures
        keys_present(a + b, m),
{
    assert forall|j: int| 0 <= j < (a + b).len() implies has_key(m, #[trigger] (a + b)[j].0) by {
        if j < a.len() {
            assert((a + b)[j] == a[j]);
        } else {
            assert((a + b)[j] == b[j - a.len()]);
        }
    }
}

proof fn lemma_read_names_key(m: Entries, k: Seq<char>)
    ensures
        read_text(m, k) is Some ==> has_key(m, k),
{
    if read_text(m, k) is Some {
        let i = choose|i: int| is_first_position(m, k, i);
        assert(0 <= i < m.len() && m[i].0 == k);
    }
}

/// Every value diagnostic names a key of `m`.
proof fn lemma_value_diagnostics_keys(m: Entries)
    ensures
        keys_present(value_diagnostics(m), m),
{
    assert forall|k: Seq<char>| read_text(m, k) is Some implies has_key(m, k) by {
        lemma_read_names_key(m, k);
    }
    let s0: Seq<(Seq<char>, Seq<char>)> = seq![];
    let s1 = s0 + diagnostics_of("indentStyle"@, read_indent_style(m, "indentStyle"@));
    lemma_keys_present_concat(m, s0, diagnostics_of("indentStyle"@, read_indent_style(m, "indentStyle"@)));
    let s2 = s1 + diagnostics_of("indentWidth"@, read_u8(m, "indentWidth"@));
    lemma_keys_present_concat(m, s1, diagnostics_of("indentWidth"@, read_u8(m, "indentWidth"@)));
    let s3 = s2 + (if value_of(read_u8(m, "indentWidth"@)) is None { diagnostics_of("indentSize"@, read_u8(m, "indentSize"@)) } else { seq![] });
    lemma_keys_present_concat(m, s2, (if value_of(read_u8(m, "indentWidth"@)) is None { diagnostics_of("indentSize"@, read_u8(m, "indentSize"@)) } else { seq![] }));
    let s4 = s3 + diagnostics_of("lineWidth"@, read_u16(m, "lineWidth"@));
    lemma_keys_present_concat(m, s3, diagnostics_of("lineWidth"@, read_u16(m, "lineWidth"@)));
    let s5 = s4 + diagnostics_of("quoteStyle"@, read_quote_style(m, "quoteStyle"@));
    lemma_keys_present_concat(m, s4, diagnostics_of("quoteStyle"@, read_quote_style(m, "quoteStyle"@)));
    let s6 = s5 + diagnostics_of("jsxQuoteStyle"@, read_quote_style(m, "jsxQuoteStyle"@));
    lemma_keys_present_concat(m, s5, diagnostics_of("jsxQuoteStyle"@, read_quote_style(m, "jsxQuoteStyle"@)));
    let s7 = s6 + diagnostics_of("bracketSpacing"@, read_bool(m, "bracketSpacing"@));
    lemma_keys_present_concat(m, s6, diagnostics_of("bracketSpacing"@, read_bool(m, "bracketSpacing"@)));
    let s8 = s7 + diagnostics_of("lineEnding"@, read_line_ending(m, "lineEnding"@));
    lemma_keys_present_concat(m, s7, diagnostics_of("lineEnding"@, read_line_ending(m, "lineEnding"@)));
    let s9 = s8 + diagnostics_of("css.enabled"@, read_bool(m, "css.enabled"@));
    lemma_keys_present_concat(m, s8, diagnostics_of("css.enabled"@, read_bool(m, "css.enabled"@)));
    let s10 = s9 + diagnostics_of("css.indentWidth"@, read_u8(m, "css.indentWidth"@));
    lemma_keys_present_concat(m, s9, diagnostics_of("css.indentWidth"@, read_u8(m, "css.indentWidth"@)));
    let s11 = s10 + diagnostics_of("css.lineWidth"@, read_u16(m, "css.lineWidth"@));
    lemma_keys_present_concat(m, s10, diagnostics_of("css.lineWidth"@, read_u16(m, "css.lineWidth"@)));
    let s12 = s11 + diagnostics_of("css.quoteStyle"@, read_quote_style(m, "css.quoteStyle"@));
    lemma_keys_present_concat(m, s11, diagnostics_of("css.quoteStyle"@, read_quote_style(m, "css.quoteStyle"@)));
    let s13 = s12 + diagnostics_of("css.indentStyle"@, read_indent_style(m, "css.indentStyle"@));
    lemma_keys_present_concat(m, s12, diagnostics_of("css.indentStyle"@, read_indent_style(m, "css.indentStyle"@)));
    let s14 = s13 + diagnostics_of("graphql.enabled"@, read_bool(m, "graphql.enabled"@));
    lemma_keys_present_concat(m, s13, diagnostics_of("graphql.enabled"@, read_bool(m, "graphql.enabled"@)));
    let s15 = s14 + diagnostics_of("graphql.indentWidth"@, read_u8(m, "graphql.indentWidth"@));
    lemma_keys_present_concat(m, s14, diagnostics_of("graphql.indentWidth"@, read_u8(m, "graphql.indentWidth"@)));
    let s16 = s15 + diagnostics_of("graphql.lineWidth"@, read_u16(m, "graphql.lineWidth"@));
    lemma_keys_present_concat(m, s15, diagnostics_of("graphql.lineWidth"@, read_u16(m, "graphql.lineWidth"@)));
    let s17 = s16 + diagnostics_of("graphql.quoteStyle"@, read_quote_style(m, "graphql.quoteStyle"@));
    lemma_keys_present_concat(m, s16, diagnostics_of("graphql.quoteStyle"@, read_quote_style(m, "graphql.quoteStyle"@)));
    let s18 = s17 + diagnostics_of("graphql.indentStyle"@, read_indent_style(m, "graphql.indentStyle"@));
    lemma_keys_present_concat(m, s17, diagnostics_of("graphql.indentStyle"@, read_indent_style(m, "graphql.indentStyle"@)));
    let s19 = s18 + diagnostics_of("graphql.bracketSpacing"@, read_bool(m, "graphql.bracketSpacing"@));
    lemma_keys_present_concat(m, s18, diagnostics_of("graphql.bracketSpacing"@, read_bool(m, "graphql.bracketSpacing"@)));
    let s20 = s19 + diagnostics_of("javascript.indentStyle"@, read_indent_style(m, "javascript.indentStyle"@));
    lemma_keys_present_concat(m, s19, diagnostics_of("javascript.indentStyle"@, read_indent_style(m, "javascript.indentStyle"@)));
    let s21 = s20 + diagnostics_of("javascript.indentWidth"@, read_u8(m, "javascript.indentWidth"@));
    lemma_keys_present_concat(m, s20, diagnostics_of("javascript.indentWidth"@, read_u8(m, "javascript.indentWidth"@)));
    let s22 = s21 + (if value_of(read_u8(m, "javascript.indentWidth"@)) is None { diagnostics_of("javascript.indentSize"@, read_u8(m, "javascript.indentSize"@)) } else { seq![] });
    lemma_keys_present_concat(m, s21, (if value_of(read_u8(m, "javascript.indentWidth"@)) is None { diagnostics_of("javascript.indentSize"@, read_u8(m, "javascript.indentSize"@)) } else { seq![] }));
    let s23 = s22 + diagnostics_of("javascript.lineWidth"@, read_u16(m, "javascript.lineWidth"@));
    lemma_keys_present_concat(m, s22, diagnostics_of("javascript.lineWidth"@, read_u16(m, "javascript.lineWidth"@)));
    let s24 = s23 + diagnostics_of("javascript.quoteStyle"@, read_quote_style(m, "javascript.quoteStyle"@));
    lemma_keys_present_concat(m, s23, diagnostics_of("javascript.quoteStyle"@, read_quote_style(m, "javascript.quoteStyle"@)));
    let s25 = s24 + diagnostics_of("json.indentStyle"@, read_indent_style(m, "json.indentStyle"@));
    lemma_keys_present_concat(m, s24, diagnostics_of("json.indentStyle"@, read_indent_style(m, "json.indentStyle"@)));
    let s26 = s25 + diagnostics_of("json.indentWidth"@, read_u8(m, "json.indentWidth"@));
    lemma_keys_present_concat(m, s25, diagnostics_of("json.indentWidth"@, read_u8(m, "json.indentWidth"@)));
    let s27 = s26 + (if value_of(read_u8(m, "json.indentWidth"@)) is None { diagnostics_of("json.indentSize"@, read_u8(m, "json.indentSize"@)) } else { seq![] });
    lemma_keys_present_concat(m, s26, (if value_of(read_u8(m, "json.indentWidth"@)) is None { diagnostics_of("json.indentSize"@, read_u8(m, "json.indentSize"@)) } else { seq![] }));
    let s28 = s27 + diagnostics_of("json.lineWidth"@, read_u16(m, "json.lineWidth"@));
    lemma_keys_present_concat(m, s27, diagnostics_of("json.lineWidth"@, read_u16(m, "json.lineWidth"@)));
    let s29 = s28 + diagnostics_of("quoteProperties"@, read_quote_properties(m, "quoteProperties"@));
    lemma_keys_present_concat(m, s28, diagnostics_of("quoteProperties"@, read_quote_properties(m, "quoteProperties"@)));
    let s30 = s29 + diagnostics_of("semicolons"@, read_semicolons(m, "semicolons"@));
    lemma_keys_present_concat(m, s29, diagnostics_of("semicolons"@, read_semicolons(m, "semicolons"@)));
    let s31 = s30 + diagnostics_of("arrowParentheses"@, read_arrow_parentheses(m, "arrowParentheses"@));
    lemma_keys_present_concat(m, s30, diagnostics_of("arrowParentheses"@, read_arrow_parentheses(m, "arrowParentheses"@)));
    let s32 = s31 + diagnostics_of("trailingCommas"@, read_trailing_comma(m, "trailingCommas"@));
    lemma_keys_present_concat(m, s31, diagnostics_of("trailingCommas"@, read_trailing_comma(m, "trailingCommas"@)));
    let s33 = s32 + (if value_of(read_trailing_comma(m, "trailingCommas"@)) is None { diagnostics_of("trailingComma"@, read_trailing_comma(m, "trailingComma"@)) } else { seq![] });
    lemma_keys_present_concat(m, s32, (if value_of(read_trailing_comma(m, "trailingCommas"@)) is None { diagnostics_of("trailingComma"@, read_trailing_comma(m, "trailingComma"@)) } else { seq![] }));
    let s34 = s33 + diagnostics_of("bracketSameLine"@, read_bool(m, "bracketSameLine"@));
    lemma_keys_present_concat(m, s33, diagnostics_of("bracketSameLine"@, read_bool(m, "bracketSameLine"@)));
    let s35 = s34 + diagnostics_of("javascript.bracketSpacing"@, read_bool(m, "javascript.bracketSpacing"@));
    lemma_keys_present_concat(m, s34, diagnostics_of("javascript.bracketSpacing"@, read_bool(m, "javascript.bracketSpacing"@)));
    assert(s35 == value_diagnostics(m));
}

/// Every unknown-key diagnostic names a key of `prefix`.
proof fn lemma_unknown_keys_present(prefix: Entries, m: Entries)
    ensures
        forall|j: int| 0 <= j < unknown_in(prefix, m).len() ==> exists|i: int|
            0 <= i < prefix.len() && prefix[i].0 == #[trigger] unknown_in(prefix, m)[j].0,
    decreases prefix.len(),
{
    if prefix.len() > 0 {
        let p = prefix.drop_last();
        lemma_unknown_keys_present(p, m);
        let d = unknown_in(prefix, m);
        assert forall|j: int| 0 <= j < d.len() implies exists|i: int|
            0 <= i < prefix.len() && prefix[i].0 == #[trigger] d[j].0 by {
            if j < unknown_in(p, m).len() {
                assert(d[j] == unknown_in(p, m)[j]);
                let i = choose|i: int| 0 <= i < p.len() && p[i].0 == unknown_in(p, m)[j].0;
                assert(prefix[i] == p[i]);
            } else {
                assert(d[j].0 == prefix[prefix.len() - 1].0);
            }
        }
    }
}

/// Resolves a raw configuration against the host's defaults. Resolution
/// never fails: a value that cannot be read leaves a diagnostic and no
/// override, and every key that is not read leaves a diagnostic after them.
pub fn resolve_config(config: ConfigKeyMap, global_config: &GlobalConfiguration) -> (r:
    ResolveConfigurationResult)
    ensures
        keys_unique(config.view()),
        keys_present(diagnostics_view(r.diagnostics@), config.view()),
        r.config == resolved(config.view(), *global_config),
        diagnostics_view(r.diagnostics@) == value_diagnostics(config.view()) + unknown_diagnostics(
            config.view(),
        ),
{
    config.check_keys_unique();
    let ghost m = config.view();
    proof {
        lemma_value_diagnostics_keys(m);
        lemma_unknown_keys_present(m, m);
        assert(keys_present(unknown_diagnostics(m), m));
        lemma_keys_present_concat(m, value_diagnostics(m), unknown_diagnostics(m));
    }
    let mut diagnostics: Vec<ConfigurationDiagnostic> = Vec::new();
    let ghost d0 = diagnostics_view(diagnostics@);
    assert(d0 =~= seq![]);
    let v_indent_style = get_indent_style(&config, "indentStyle", &mut diagnostics);
    let v_indent_width = get_u8(&config, "indentWidth", &mut diagnostics);
    let indent_width_key = v_indent_width;
    let ghost before = diagnostics_view(diagnostics@);
    let v_indent_size = if indent_width_key.is_none() {
        get_u8(&config, "indentSize", &mut diagnostics)
    } else {
        None
    };
    assert(diagnostics_view(diagnostics@) =~= before + (if value_of(read_u8(m, "indentWidth"@)) is None { diagnostics_of("indentSize"@, read_u8(m, "indentSize"@)) } else { seq![] }));
    let v_line_width = get_u16(&config, "lineWidth", &mut diagnostics);
    let v_quote_style = get_quote_style(&config, "quoteStyle", &mut diagnostics);
    let v_jsx_quote_style = get_quote_style(&config, "jsxQuoteStyle", &mut diagnostics);
    let v_bracket_spacing = get_bool(&config, "bracketSpacing", &mut diagnostics);
    let v_line_ending = get_line_ending(&config, "lineEnding", &mut diagnostics);
    let v_css_enabled = get_bool(&config, "css.enabled", &mut diagnostics);
    let v_css_indent_width = get_u8(&config, "css.indentWidth", &mut diagnostics);
    let v_css_line_width = get_u16(&config, "css.lineWidth", &mut diagnostics);
    let v_css_quote_style = get_quote_style(&config, "css.quoteStyle", &mut diagnostics);
    let v_css_indent_style = get_indent_style(&config, "css.indentStyle", &mut diagnostics);
    let v_graphql_enabled = get_bool(&config, "graphql.enabled", &mut diagnostics);
    let v_graphql_indent_width = get_u8(&config, "graphql.indentWidth", &mut diagnostics);
    let v_graphql_line_width = get_u16(&config, "graphql.lineWidth", &mut diagnostics);
    let v_graphql_quote_style = get_quote_style(&config, "graphql.quoteStyle", &mut diagnostics);
    let v_graphql_indent_style = get_indent_style(&config, "graphql.indentStyle", &mut diagnostics);
    let v_graphql_bracket_spacing = get_bool(&config, "graphql.bracketSpacing", &mut diagnostics);
    let v_js_indent_style = get_indent_style(&config, "javascript.indentStyle", &mut diagnostics);
    let v_js_indent_width = get_u8(&config, "javascript.indentWidth", &mut diagnostics);
    let js_width_key = v_js_indent_width;
    let ghost before = diagnostics_view(diagnostics@);
    let v_js_indent_size = if js_width_key.is_none() {
        get_u8(&config, "javascript.indentSize", &mut diagnostics)
    } else {
        None
    };
    assert(diagnostics_view(diagnostics@) =~= before + (if value_of(read_u8(m, "javascript.indentWidth"@)) is None { diagnostics_of("javascript.indentSize"@, read_u8(m, "javascript.indentSize"@)) } else { seq![] }));
    let v_js_line_width = get_u16(&config, "javascript.lineWidth", &mut diagnostics);
    let v_js_quote_style = get_quote_style(&config, "javascript.quoteStyle", &mut diagnostics);
    let v_json_indent_style = get_indent_style(&config, "json.indentStyle", &mut diagnostics);
    let v_json_indent_width = get_u8(&config, "json.indentWidth", &mut diagnostics);
    let json_width_key = v_json_indent_width;
    let ghost before = diagnostics_view(diagnostics@);
    let v_json_indent_size = if json_width_key.is_none() {
        get_u8(&config, "json.indentSize", &mut diagnostics)
    } else {
        None
    };
    assert(diagnostics_view(diagnostics@) =~= before + (if value_of(read_u8(m, "json.indentWidth"@)) is None { diagnostics_of("json.indentSize"@, read_u8(m, "json.indentSize"@)) } else { seq![] }));
    let v_json_line_width = get_u16(&config, "json.lineWidth", &mut diagnostics);
    let v_quote_properties = get_quote_properties(&config, "quoteProperties", &mut diagnostics);
    let v_semicolons = get_semicolons(&config, "semicolons", &mut diagnostics);
    let v_arrow_parentheses = get_arrow_parentheses(&config, "arrowParentheses", &mut diagnostics);
    let v_trailing_commas = get_trailing_comma(&config, "trailingCommas", &mut diagnostics);
    let commas_key = v_trailing_commas;
    let ghost before = diagnostics_view(diagnostics@);
    let v_trailing_comma = if commas_key.is_none() {
        get_trailing_comma(&config, "trailingComma", &mut diagnostics)
    } else {
        None
    };
    assert(diagnostics_view(diagnostics@) =~= before + (if value_of(read_trailing_comma(m, "trailingCommas"@)) is None { diagnostics_of("trailingComma"@, read_trailing_comma(m, "trailingComma"@)) } else { seq![] }));
    let v_bracket_same_line = get_bool(&config, "bracketSameLine", &mut diagnostics);
    let v_js_bracket_spacing = get_bool(&config, "javascript.bracketSpacing", &mut diagnostics);
    let indent_style = or_exec(
        v_indent_style,
        match global_config.use_tabs {
            Some(true) => Some(IndentStyle::Tab),
            Some(false) => Some(IndentStyle::Space),
            None => None,
        },
    );
    let indent_width = or_exec(v_indent_width, or_exec(v_indent_size, global_config.indent_width));
    let line_width = or_exec(
        v_line_width,
        match global_config.line_width {
            Some(l) => Some(if l > 65535 { 65535u16 } else { l as u16 }),
            None => None,
        },
    );
    let line_ending = or_exec(
        v_line_ending,
        match global_config.new_line_kind {
            Some(NewLineKind::CarriageReturnLineFeed) => Some(LineEnding::Crlf),
            Some(NewLineKind::LineFeed) => Some(LineEnding::Lf),
            _ => None,
        },
    );
    let resolved_config = Configuration {
        line_ending,
        css_enabled: v_css_enabled,
        css_indent_style: or_exec(v_css_indent_style, indent_style),
        css_indent_width: or_exec(v_css_indent_width, indent_width),
        css_line_width: or_exec(v_css_line_width, line_width),
        css_quote_style: or_exec(v_css_quote_style, v_quote_style),
        graphql_enabled: v_graphql_enabled,
        graphql_indent_style: or_exec(v_graphql_indent_style, indent_style),
        graphql_indent_width: or_exec(v_graphql_indent_width, indent_width),
        graphql_line_width: or_exec(v_graphql_line_width, line_width),
        graphql_quote_style: or_exec(v_graphql_quote_style, v_quote_style),
        graphql_bracket_spacing: or_exec(v_graphql_bracket_spacing, v_bracket_spacing),
        javascript_indent_style: or_exec(v_js_indent_style, indent_style),
        javascript_indent_width: or_exec(v_js_indent_width, or_exec(v_js_indent_size, indent_width)),
        javascript_line_width: or_exec(v_js_line_width, line_width),
        javascript_quote_style: or_exec(v_js_quote_style, v_quote_style),
        json_indent_style: or_exec(v_json_indent_style, indent_style),
        json_indent_width: or_exec(v_json_indent_width, or_exec(v_json_indent_size, indent_width)),
        json_line_width: or_exec(v_json_line_width, line_width),
        semicolons: v_semicolons,
        jsx_quote_style: v_jsx_quote_style,
        quote_properties: v_quote_properties,
        arrow_parentheses: v_arrow_parentheses,
        trailing_commas: or_exec(v_trailing_commas, v_trailing_comma),
        bracket_same_line: v_bracket_same_line,
        javascript_bracket_spacing: or_exec(v_js_bracket_spacing, v_bracket_spacing),
    };
    assert(diagnostics_view(diagnostics@) == value_diagnostics(m));
    append_unknown_diagnostics(
        &config,
        indent_width_key.is_some(),
        js_width_key.is_some(),
        json_width_key.is_some(),
        commas_key.is_some(),
        &mut diagnostics,
    );
    ResolveConfigurationResult { config: resolved_config, diagnostics }
}

/// Appends a diagnostic for each key of `config` that resolution does not read.
fn append_unknown_diagnostics(
    config: &ConfigKeyMap,
    width_read: bool,
    js_width_read: bool,
    json_width_read: bool,
    commas_read: bool,
    diagnostics: &mut Vec<ConfigurationDiagnostic>,
)
    requires
        width_read == (value_of(read_u8(config.view(), "indentWidth"@)) is Some),
        js_width_read == (value_of(read_u8(config.view(), "javascript.indentWidth"@)) is Some),
        json_width_read == (value_of(read_u8(config.view(), "json.indentWidth"@)) is Some),
        commas_read == (value_of(read_trailing_comma(config.view(), "trailingCommas"@)) is Some),
    ensures
        diagnostics_view(final(diagnostics)@) == diagnostics_view(old(diagnostics)@)
            + unknown_diagnostics(config.view()),
{
    let ghost m = config.view();
    let ghost start = diagnostics_view(diagnostics@);
    let n = config.len();
    let mut i: usize = 0;
    assert(unknown_in(m.take(0), m) =~= seq![]);
    assert(start + unknown_in(m.take(0), m) =~= start);
    while i < n
        invariant
            n == m.len(),
            m == config.view(),
            0 <= i <= n,
            width_read == (value_of(read_u8(m, "indentWidth"@)) is Some),
            js_width_read == (value_of(read_u8(m, "javascript.indentWidth"@)) is Some),
            json_width_read == (value_of(read_u8(m, "json.indentWidth"@)) is Some),
            commas_read == (value_of(read_trailing_comma(m, "trailingCommas"@)) is Some),
            diagnostics_view(diagnostics@) == start + unknown_in(m.take(i as int), m),
        decreases n - i,
    {
        let key = config.key_at(i);
        let consumed = is_known_key_exec(key) || (!width_read && str_eq(key, "indentSize")) || (
        !js_width_read && str_eq(key, "javascript.indentSize")) || (!json_width_read && str_eq(
            key,
            "json.indentSize",
        )) || (!commas_read && str_eq(key, "trailingComma"));
        assert(consumed == is_consumed(m, key@));
        assert(m.take(i + 1).drop_last() =~= m.take(i as int));
        assert(m.take(i + 1).last() == m[i as int]);
        let ghost prev = unknown_in(m.take(i as int), m);
        assert(unknown_in(m.take(i + 1), m) == prev + if is_consumed(m, key@) {
            seq![]
        } else {
            seq![(key@, unknown_text())]
        });
        let ghost before = diagnostics@;
        if !consumed {
            let d = ConfigurationDiagnostic {
                property_name: key.to_owned(),
                message: "Unknown property in configuration".to_owned(),
            };
            assert(d.view() == (key@, unknown_text()));
            diagnostics.push(d);
            assert(diagnostics_view(diagnostics@) =~= diagnostics_view(before).push(d.view()));
            assert(diagnostics_view(diagnostics@) =~= start + unknown_in(m.take(i + 1), m));
        } else {
            assert(diagnostics_view(diagnostics@) =~= start + unknown_in(m.take(i + 1), m));
        }
        i = i + 1;
    }
    assert(m.take(n as int) =~= m);
}

fn or_exec<T>(a: Option<T>, b: Option<T>) -> (r: Option<T>)
    ensures
        r == or(a, b),
{
    match a {
        Some(x) => Some(x),
        None => b,
    }
}

} // verus!
