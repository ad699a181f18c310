//! Laws of configuration resolution and of file routing.

use crate::config_map::{keys_unique, Entries, GlobalConfiguration};
use crate::configuration::{Configuration, IndentStyle};
use crate::format_text::{is_js_extension, route_of, FileRoute};
use crate::resolve_config::{
    is_consumed, or, resolved, unknown_diagnostics, unknown_in, unknown_text,
};
use crate::values::{read_indent_style, read_u16, read_u8, value_of};
use vstd::prelude::*;

verus! {

/// `own` where present, else `shared` where present, else `fallback`.
pub open spec fn first_of<T>(own: Option<T>, shared: Option<T>, fallback: Option<T>) -> Option<T> {
    if own is Some {
        own
    } else if shared is Some {
        shared
    } else {
        fallback
    }
}

/// For indent style, indent width and line width, a readable language key
/// overrides the cross-language key, which overrides the host's default.
pub proof fn language_key_overrides_shared_key(m: Entries, g: GlobalConfiguration)
    ensures
        ({
            let c = resolved(m, g);
            let style = value_of(read_indent_style(m, "indentStyle"@));
            let host_style = match g.use_tabs {
                Some(true) => Some(IndentStyle::Tab),
                Some(false) => Some(IndentStyle::Space),
                None => None,
            };
            let width = or(value_of(read_u8(m, "indentWidth"@)), value_of(read_u8(m, "indentSize"@)));
            let line = value_of(read_u16(m, "lineWidth"@));
            let host_line = match g.line_width {
                Some(l) => Some(if l > 65535 { 65535u16 } else { l as u16 }),
                None => None,
            };
            &&& c.css_indent_style == first_of(value_of(read_indent_style(m, "css.indentStyle"@)), style, host_style)
            &&& c.graphql_indent_style == first_of(value_of(read_indent_style(m, "graphql.indentStyle"@)), style, host_style)
            &&& c.javascript_indent_style == first_of(value_of(read_indent_style(m, "javascript.indentStyle"@)), style, host_style)
            &&& c.json_indent_style == first_of(value_of(read_indent_style(m, "json.indentStyle"@)), style, host_style)
            &&& c.css_indent_width == first_of(value_of(read_u8(m, "css.indentWidth"@)), width, g.indent_width)
            &&& c.graphql_indent_width == first_of(value_of(read_u8(m, "graphql.indentWidth"@)), width, g.indent_width)
            &&& c.javascript_indent_width == first_of(
                or(value_of(read_u8(m, "javascript.indentWidth"@)), value_of(read_u8(m, "javascript.indentSize"@))),
                width,
                g.indent_width,
            )
            &&& c.json_indent_width == first_of(
                or(value_of(read_u8(m, "json.indentWidth"@)), value_of(read_u8(m, "json.indentSize"@))),
                width,
                g.indent_width,
            )
            &&& c.css_line_width == first_of(value_of(read_u16(m, "css.lineWidth"@)), line, host_line)
            &&& c.graphql_line_width == first_of(value_of(read_u16(m, "graphql.lineWidth"@)), line, host_line)
            &&& c.javascript_line_width == first_of(value_of(read_u16(m, "javascript.lineWidth"@)), line, host_line)
            &&& c.json_line_width == first_of(value_of(read_u16(m, "json.lineWidth"@)), line, host_line)
        }),
{
}

proof fn lemma_unknown_in(prefix: Entries, m: Entries) -> (idx: Seq<int>)
    ensures
        idx.len() == unknown_in(prefix, m).len(),
        forall|j: int| 0 <= j < idx.len() ==> 0 <= #[trigger] idx[j] < prefix.len(),
        forall|a: int, b: int| 0 <= a < b < idx.len() ==> idx[a] < idx[b],
        forall|j: int|
            0 <= j < unknown_in(prefix, m).len() ==> #[trigger] unknown_in(prefix, m)[j] == (
                prefix[idx[j]].0,
                unknown_text(),
            ) && !is_consumed(m, prefix[idx[j]].0),
        forall|i: int|
            0 <= i < prefix.len() && !is_consumed(m, #[trigger] prefix[i].0) ==> exists|j: int|
                0 <= j < idx.len() && idx[j] == i,
    decreases prefix.len(),
{
    if prefix.len() == 0 {
        let idx: Seq<int> = seq![];
        assert(unknown_in(prefix, m) =~= seq![]);
        idx
    } else {
        let p = prefix.drop_last();
        let prev = lemma_unknown_in(p, m);
        let last = prefix.len() - 1;
        let d = unknown_in(prefix, m);
        if is_consumed(m, prefix.last().0) {
            assert(d =~= unknown_in(p, m));
            assert forall|j: int| 0 <= j < prev.len() implies 0 <= #[trigger] prev[j] < prefix.len() by {
                assert(0 <= prev[j] < p.len());
            }
            assert forall|i: int|
                0 <= i < prefix.len() && !is_consumed(m, #[trigger] prefix[i].0) implies exists|j: int|
                0 <= j < prev.len() && prev[j] == i by {
                assert(i != last);
                assert(p[i] == prefix[i]);
                assert(!is_consumed(m, p[i].0));
            }
            assert forall|j: int| 0 <= j < d.len() implies #[trigger] d[j] == (
                prefix[prev[j]].0,
                unknown_text(),
            ) && !is_consumed(m, prefix[prev[j]].0) by {
                assert(p[prev[j]] == prefix[prev[j]]);
            }
            prev
        } else {
            let idx = prev.push(last);
            assert(d =~= unknown_in(p, m).push((prefix.last().0, unknown_text())));
            assert forall|j: int| 0 <= j < idx.len() implies 0 <= #[trigger] idx[j] < prefix.len() by {
                if j < prev.len() {
                    assert(0 <= prev[j] < p.len());
                }
            }
            assert forall|a: int, b: int| 0 <= a < b < idx.len() implies idx[a] < idx[b] by {
                if b < prev.len() {
                    assert(prev[a] < prev[b]);
                } else {
                    assert(0 <= prev[a] < p.len());
                }
            }
            assert forall|i: int|
                0 <= i < prefix.len() && !is_consumed(m, #[trigger] prefix[i].0) implies exists|j: int|
                0 <= j < idx.len() && idx[j] == i by {
                if i == last {
                    assert(idx[idx.len() - 1] == i);
                } else {
                    assert(p[i] == prefix[i]);
                    assert(!is_consumed(m, p[i].0));
                    let j = choose|j: int| 0 <= j < prev.len() && prev[j] == i;
                    assert(idx[j] == i);
                }
            }
            assert forall|j: int| 0 <= j < d.len() implies #[trigger] d[j] == (
                prefix[idx[j]].0,
                unknown_text(),
            ) && !is_consumed(m, prefix[idx[j]].0) by {
                if j < prev.len() {
                    assert(p[prev[j]] == prefix[prev[j]]);
                }
            }
            idx
        }
    }
}

/// Every key that resolution does not read is reported once, in the order in
/// which it first appears in the map, and no other key is reported as
/// unknown. `idx` gives the map position of each reported key.
pub proof fn unknown_keys_reported_once_in_order(m: Entries) -> (idx: Seq<int>)
    requires
        keys_unique(m),
    ensures
        unknown_diagnostics(m) == unknown_in(m, m),
        idx.len() == unknown_in(m, m).len(),
        forall|j: int| 0 <= j < idx.len() ==> 0 <= #[trigger] idx[j] < m.len(),
        forall|a: int, b: int| 0 <= a < b < idx.len() ==> idx[a] < idx[b],
        forall|j: int|
            0 <= j < unknown_in(m, m).len() ==> #[trigger] unknown_in(m, m)[j] == (
                m[idx[j]].0,
                unknown_text(),
            ) && !is_consumed(m, m[idx[j]].0),
        forall|i: int|
            0 <= i < m.len() && !is_consumed(m, #[trigger] m[i].0) ==> exists|j: int|
                0 <= j < idx.len() && idx[j] == i,
        forall|a: int, b: int|
            0 <= a < b < unknown_diagnostics(m).len() ==> unknown_diagnostics(m)[a].0
                != unknown_diagnostics(m)[b].0,
{
    let idx = lemma_unknown_in(m, m);
    let d = unknown_diagnostics(m);
    assert forall|a: int, b: int| 0 <= a < b < d.len() implies d[a].0 != d[b].0 by {
        assert(d[a] == (m[idx[a]].0, unknown_text()));
        assert(d[b] == (m[idx[b]].0, unknown_text()));
        assert(idx[a] < idx[b]);
    }
    idx
}

/// CSS and GraphQL files are routed to no formatter unless their language is
/// explicitly enabled, whatever else the configuration holds; an extension
/// outside the supported families is never routed to a formatter.
pub proof fn optional_languages_need_their_flag(ext: Option<Seq<char>>, c: Configuration)
    ensures
        ext == Some("css"@) && c.css_enabled != Some(true) ==> route_of(ext, c)
            == FileRoute::Unsupported,
        ext == Some("graphql"@) && c.graphql_enabled != Some(true) ==> route_of(ext, c)
            == FileRoute::Unsupported,
        (ext matches Some(e) && e != "json"@ && e != "jsonc"@ && !is_js_extension(e) && e
            != "css"@ && e != "graphql"@) ==> route_of(ext, c) == FileRoute::Unsupported,
        ext is None ==> route_of(ext, c) == FileRoute::Unsupported,
{
    reveal_strlit("json");
    reveal_strlit("jsonc");
    reveal_strlit("js");
    reveal_strlit("jsx");
    reveal_strlit("ts");
    reveal_strlit("tsx");
    reveal_strlit("cjs");
    reveal_strlit("mjs");
    reveal_strlit("cts");
    reveal_strlit("mts");
    reveal_strlit("css");
    reveal_strlit("graphql");
    assert("css"@.len() != "json"@.len());
    assert("css"@.len() != "jsonc"@.len());
    assert("css"@.len() != "js"@.len());
    assert("css"@[0] != "jsx"@[0]);
    assert("css"@.len() != "ts"@.len());
    assert("css"@[0] != "tsx"@[0]);
    assert("css"@[1] != "cjs"@[1]);
    assert("css"@[0] != "mjs"@[0]);
    assert("css"@[1] != "cts"@[1]);
    assert("css"@[0] != "mts"@[0]);
    assert("css"@.len() != "graphql"@.len());
    assert("graphql"@.len() != "json"@.len());
    assert("graphql"@.len() != "jsonc"@.len());
    assert("graphql"@.len() != "js"@.len());
    assert("graphql"@.len() != "jsx"@.len());
    assert("graphql"@.len() != "ts"@.len());
    assert("graphql"@.len() != "tsx"@.len());
    assert("graphql"@.len() != "cjs"@.len());
    assert("graphql"@.len() != "mjs"@.len());
    assert("graphql"@.len() != "cts"@.len());
    assert("graphql"@.len() != "mts"@.len());
}

} // verus!
