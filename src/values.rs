//! Reading typed values out of raw configuration values. A value is first
//! turned into text (numbers in decimal, booleans as `true` / `false`) and the
//! text is then parsed as the expected type; a failure becomes a diagnostic.

use crate::config_map::{lookup, ConfigKeyMap, ConfigKeyValue, ConfigurationDiagnostic, Entries};
use crate::configuration::{
    ArrowParentheses, IndentStyle, LineEnding, QuoteProperties, QuoteStyle, Semicolons,
    TrailingComma,
};
use crate::text::str_eq;
use vstd::prelude::*;
use vstd::string::StringExecFns;

verus! {

// ---------------------------------------------------------------- decimal text

pub open spec fn digit_char(d: nat) -> char {
    seq!['0', '1', '2', '3', '4', '5', '6', '7', '8', '9'][d as int]
}

pub open spec fn digit_value(c: char) -> Option<nat> {
    match c {
        '0' => Some(0nat),
        '1' => Some(1nat),
        '2' => Some(2nat),
        '3' => Some(3nat),
        '4' => Some(4nat),
        '5' => Some(5nat),
        '6' => Some(6nat),
        '7' => Some(7nat),
        '8' => Some(8nat),
        '9' => Some(9nat),
        _ => None,
    }
}

/// Decimal digits of `n`, without leading zeros.
pub open spec fn nat_text(n: nat) -> Seq<char>
    decreases n,
{
    if n < 10 {
        seq![digit_char(n)]
    } else {
        nat_text(n / 10).push(digit_char(n % 10))
    }
}

/// Decimal form of `n`, with a leading `-` when negative.
pub open spec fn int_text(n: int) -> Seq<char> {
    if n < 0 {
        seq!['-'] + nat_text((-n) as nat)
    } else {
        nat_text(n as nat)
    }
}

/// The one-character text of decimal digit `d`.
fn digit_text(d: u32) -> (r: &'static str)
    requires
        d < 10,
    ensures
        r@ == seq![digit_char(d as nat)],
{
    proof {
        reveal_strlit("0");
        reveal_strlit("1");
        reveal_strlit("2");
        reveal_strlit("3");
        reveal_strlit("4");
        reveal_strlit("5");
        reveal_strlit("6");
        reveal_strlit("7");
        reveal_strlit("8");
        reveal_strlit("9");
    }
    match d {
        0 => "0",
        1 => "1",
        2 => "2",
        3 => "3",
        4 => "4",
        5 => "5",
        6 => "6",
        7 => "7",
        8 => "8",
        9 => "9",
        _ => "9",
    }
}

/// Appends the decimal digits of `n`.
fn append_nat_text(out: &mut String, n: u32)
    ensures
        final(out)@ == old(out)@ + nat_text(n as nat),
    decreases n,
{
    if n >= 10 {
        append_nat_text(out, n / 10);
    }
    out.append(digit_text(n % 10));
    assert(final(out)@ =~= old(out)@ + nat_text(n as nat));
}

/// The decimal form of `n`, with a leading `-` when negative.
pub fn int_to_text(n: i32) -> (r: String)
    ensures
        r@ == int_text(n as int),
{
    let mut out = String::new();
    if n < 0 {
        proof {
            reveal_strlit("-");
        }
        out.append("-");
        assert(out@ =~= seq!['-']);
        let magnitude: u32 = (-(n as i64)) as u32;
        append_nat_text(&mut out, magnitude);
        assert(magnitude as nat == (-(n as int)) as nat);
        assert(out@ =~= int_text(n as int));
    } else {
        append_nat_text(&mut out, n as u32);
        assert(out@ =~= int_text(n as int));
    }
    out
}

// ---------------------------------------------------------------- unsigned integers

/// Why text is not an unsigned integer in range.
#[derive(Clone, Copy, PartialEq, Eq, Structural, Debug)]
pub enum IntParseError {
    Empty,
    InvalidDigit,
    PosOverflow,
}

/// Reads digits left to right; the first non-digit, or the first digit that
/// takes the value past `max`, is the error.
pub open spec fn scan_digits(s: Seq<char>, max: nat) -> Result<nat, IntParseError>
    decreases s.len(),
{
    if s.len() == 0 {
        Ok(0nat)
    } else {
        match scan_digits(s.drop_last(), max) {
            Err(e) => Err(e),
            Ok(v) => match digit_value(s.last()) {
                None => Err(IntParseError::InvalidDigit),
                Some(d) => if v * 10 + d > max {
                    Err(IntParseError::PosOverflow)
                } else {
                    Ok(v * 10 + d)
                },
            },
        }
    }
}

/// An optional `+` followed by decimal digits, at most `max`.
pub open spec fn parse_unsigned(s: Seq<char>, max: nat) -> Result<nat, IntParseError> {
    if s.len() == 0 {
        Err(IntParseError::Empty)
    } else if s[0] == '+' && s.len() > 1 {
        scan_digits(s.skip(1), max)
    } else {
        scan_digits(s, max)
    }
}

pub open spec fn int_error_text(e: IntParseError) -> Seq<char> {
    match e {
        IntParseError::Empty => "cannot parse integer from empty string"@,
        IntParseError::InvalidDigit => "invalid digit found in string"@,
        IntParseError::PosOverflow => "number too large to fit in target type"@,
    }
}

proof fn lemma_scan_error_stays(s: Seq<char>, k: int, max: nat)
    requires
        0 <= k <= s.len(),
        scan_digits(s.take(k), max) is Err,
    ensures
        scan_digits(s, max) == scan_digits(s.take(k), max),
    decreases s.len() - k,
{
    if k < s.len() {
        assert(s.take(k + 1).drop_last() =~= s.take(k));
        lemma_scan_error_stays(s, k + 1, max);
    } else {
        assert(s.take(k) =~= s);
    }
}

fn digit_of(c: char) -> (r: Option<u32>)
    ensures
        match r {
            Some(d) => digit_value(c) == Some(d as nat),
            None => digit_value(c) is None,
        },
{
    match c {
        '0' => Some(0),
        '1' => Some(1),
        '2' => Some(2),
        '3' => Some(3),
        '4' => Some(4),
        '5' => Some(5),
        '6' => Some(6),
        '7' => Some(7),
        '8' => Some(8),
        '9' => Some(9),
        _ => None,
    }
}

/// Parses `s` as an unsigned decimal integer no greater than `max`.
pub fn parse_unsigned_text(s: &str, max: u32) -> (r: Result<u32, IntParseError>)
    requires
        max <= 65535,
    ensures
        match r {
            Ok(v) => parse_unsigned(s@, max as nat) == Ok::<nat, IntParseError>(v as nat),
            Err(e) => parse_unsigned(s@, max as nat) == Err::<nat, IntParseError>(e),
        },
{
    let n = s.unicode_len();
    if n == 0 {
        return Err(IntParseError::Empty);
    }
    let start: usize = if s.get_char(0) == '+' && n > 1 { 1 } else { 0 };
    let ghost body = if start == 1 { s@.skip(1) } else { s@ };
    assert(body =~= s@.subrange(start as int, n as int));
    assert(parse_unsigned(s@, max as nat) == scan_digits(body, max as nat));
    let mut v: u32 = 0;
    let mut i: usize = start;
    while i < n
        invariant
            n == s@.len(),
            start <= i <= n,
            body == s@.subrange(start as int, n as int),
            parse_unsigned(s@, max as nat) == scan_digits(body, max as nat),
            v <= max,
            max <= 65535,
            scan_digits(body.take(i - start), max as nat) == Ok::<nat, IntParseError>(v as nat),
        decreases n - i,
    {
        let c = s.get_char(i);
        assert(body.take(i - start + 1).drop_last() =~= body.take(i - start));
        assert(body.take(i - start + 1).last() == c);
        match digit_of(c) {
            None => {
                assert(scan_digits(body.take(i - start + 1), max as nat) == Err::<nat, IntParseError>(IntParseError::InvalidDigit));
                proof { lemma_scan_error_stays(body, i - start + 1, max as nat); }
                assert(parse_unsigned(s@, max as nat) == scan_digits(body, max as nat));
                return Err(IntParseError::InvalidDigit);
            },
            Some(d) => {
                if v * 10 + d > max {
                    assert(scan_digits(body.take(i - start + 1), max as nat) == Err::<nat, IntParseError>(IntParseError::PosOverflow));
                    proof { lemma_scan_error_stays(body, i - start + 1, max as nat); }
                    assert(parse_unsigned(s@, max as nat) == scan_digits(body, max as nat));
                    return Err(IntParseError::PosOverflow);
                }
                v = v * 10 + d;
            },
        }
        i = i + 1;
    }
    assert(body.take(n - start) =~= body);
    assert(parse_unsigned(s@, max as nat) == scan_digits(body, max as nat));
    Ok(v)
}

pub fn int_error_message(e: IntParseError) -> (r: String)
    ensures
        r@ == int_error_text(e),
{
    match e {
        IntParseError::Empty => "cannot parse integer from empty string".to_owned(),
        IntParseError::InvalidDigit => "invalid digit found in string".to_owned(),
        IntParseError::PosOverflow => "number too large to fit in target type".to_owned(),
    }
}

// ---------------------------------------------------------------- reading values

pub open spec fn compound_text() -> Seq<char> {
    "Arrays and objects are not supported for this value"@
}

pub open spec fn invalid_value_text(t: Seq<char>) -> Seq<char> {
    "Found invalid value '"@ + t + "'."@
}

pub open spec fn bool_text(t: Seq<char>) -> Result<bool, Seq<char>> {
    if t == "true"@ {
        Ok(true)
    } else if t == "false"@ {
        Ok(false)
    } else {
        Err("provided string was not `true` or `false`"@)
    }
}

pub open spec fn u8_text(t: Seq<char>) -> Result<u8, Seq<char>> {
    match parse_unsigned(t, 255) {
        Ok(v) => Ok(v as u8),
        Err(e) => Err(int_error_text(e)),
    }
}

pub open spec fn u16_text(t: Seq<char>) -> Result<u16, Seq<char>> {
    match parse_unsigned(t, 65535) {
        Ok(v) => Ok(v as u16),
        Err(e) => Err(int_error_text(e)),
    }
}

/// The text a raw value reads as: `None` for null, an error for arrays and
/// objects.
pub open spec fn value_text(v: ConfigKeyValue) -> Option<Result<Seq<char>, Seq<char>>> {
    match v {
        ConfigKeyValue::String(s) => Some(Ok(s@)),
        ConfigKeyValue::Number(n) => Some(Ok(int_text(n as int))),
        ConfigKeyValue::Bool(b) => Some(Ok(if b { "true"@ } else { "false"@ })),
        ConfigKeyValue::Array(_) => Some(Err(compound_text())),
        ConfigKeyValue::Object(_) => Some(Err(compound_text())),
        ConfigKeyValue::Null => None,
    }
}

/// The text stored under `key`: `None` when the key is absent or null.
pub open spec fn read_text(m: Entries, key: Seq<char>) -> Option<Result<Seq<char>, Seq<char>>> {
    match lookup(m, key) {
        None => None,
        Some(v) => value_text(v),
    }
}

pub open spec fn lift<T>(
    o: Option<Result<Seq<char>, Seq<char>>>,
    parse: spec_fn(Seq<char>) -> Result<T, Seq<char>>,
) -> Option<Result<T, Seq<char>>> {
    match o {
        None => None,
        Some(Err(e)) => Some(Err(e)),
        Some(Ok(t)) => Some(parse(t)),
    }
}

/// The value read, if it could be read.
pub open spec fn value_of<T>(o: Option<Result<T, Seq<char>>>) -> Option<T> {
    match o {
        Some(Ok(v)) => Some(v),
        _ => None,
    }
}

/// The diagnostic left by a read: one when the value could not be read.
pub open spec fn diagnostics_of<T>(key: Seq<char>, o: Option<Result<T, Seq<char>>>) -> Seq<
    (Seq<char>, Seq<char>),
> {
    match o {
        Some(Err(e)) => seq![(key, e)],
        _ => seq![],
    }
}

pub open spec fn diagnostics_view(d: Seq<ConfigurationDiagnostic>) -> Seq<(Seq<char>, Seq<char>)> {
    d.map_values(|x: ConfigurationDiagnostic| x.view())
}

pub open spec fn read_u8(m: Entries, key: Seq<char>) -> Option<Result<u8, Seq<char>>> {
    lift(read_text(m, key), |t: Seq<char>| u8_text(t))
}

pub open spec fn read_u16(m: Entries, key: Seq<char>) -> Option<Result<u16, Seq<char>>> {
    lift(read_text(m, key), |t: Seq<char>| u16_text(t))
}

pub open spec fn read_bool(m: Entries, key: Seq<char>) -> Option<Result<bool, Seq<char>>> {
    lift(read_text(m, key), |t: Seq<char>| bool_text(t))
}

pub open spec fn read_line_ending(m: Entries, key: Seq<char>) -> Option<Result<LineEnding, Seq<char>>> {
    lift(read_text(m, key), |t: Seq<char>| line_ending_text(t))
}

pub open spec fn line_ending_text(t: Seq<char>) -> Result<LineEnding, Seq<char>> {
    match LineEnding::spec_from_name(t) {
        Some(v) => Ok(v),
        None => Err(invalid_value_text(t)),
    }
}

pub open spec fn read_indent_style(m: Entries, key: Seq<char>) -> Option<Result<IndentStyle, Seq<char>>> {
    lift(read_text(m, key), |t: Seq<char>| indent_style_text(t))
}

pub open spec fn indent_style_text(t: Seq<char>) -> Result<IndentStyle, Seq<char>> {
    match IndentStyle::spec_from_name(t) {
        Some(v) => Ok(v),
        None => Err(invalid_value_text(t)),
    }
}

pub open spec fn read_semicolons(m: Entries, key: Seq<char>) -> Option<Result<Semicolons, Seq<char>>> {
    lift(read_text(m, key), |t: Seq<char>| semicolons_text(t))
}

pub open spec fn semicolons_text(t: Seq<char>) -> Result<Semicolons, Seq<char>> {
    match Semicolons::spec_from_name(t) {
        Some(v) => Ok(v),
        None => Err(invalid_value_text(t)),
    }
}

pub open spec fn read_quote_style(m: Entries, key: Seq<char>) -> Option<Result<QuoteStyle, Seq<char>>> {
    lift(read_text(m, key), |t: Seq<char>| quote_style_text(t))
}

pub open spec fn quote_style_text(t: Seq<char>) -> Result<QuoteStyle, Seq<char>> {
    match QuoteStyle::spec_from_name(t) {
        Some(v) => Ok(v),
        None => Err(invalid_value_text(t)),
    }
}

pub open spec fn read_quote_properties(m: Entries, key: Seq<char>) -> Option<Result<QuoteProperties, Seq<char>>> {
    lift(read_text(m, key), |t: Seq<char>| quote_properties_text(t))
}

pub open spec fn quote_properties_text(t: Seq<char>) -> Result<QuoteProperties, Seq<char>> {
    match QuoteProperties::spec_from_name(t) {
        Some(v) => Ok(v),
        None => Err(invalid_value_text(t)),
    }
}

pub open spec fn read_arrow_parentheses(m: Entries, key: Seq<char>) -> Option<Result<ArrowParentheses, Seq<char>>> {
    lift(read_text(m, key), |t: Seq<char>| arrow_parentheses_text(t))
}

pub open spec fn arrow_parentheses_text(t: Seq<char>) -> Result<ArrowParentheses, Seq<char>> {
    match ArrowParentheses::spec_from_name(t) {
        Some(v) => Ok(v),
        None => Err(invalid_value_text(t)),
    }
}

pub open spec fn read_trailing_comma(m: Entries, key: Seq<char>) -> Option<Result<TrailingComma, Seq<char>>> {
    lift(read_text(m, key), |t: Seq<char>| trailing_comma_text(t))
}

pub open spec fn trailing_comma_text(t: Seq<char>) -> Result<TrailingComma, Seq<char>> {
    match TrailingComma::spec_from_name(t) {
        Some(v) => Ok(v),
        None => Err(invalid_value_text(t)),
    }
}

fn push_diagnostic(diags: &mut Vec<ConfigurationDiagnostic>, key: &str, message: String)
    ensures
        diagnostics_view(final(diags)@) == diagnostics_view(old(diags)@).push((key@, message@)),
{
    diags.push(ConfigurationDiagnostic { property_name: key.to_owned(), message });
    assert(diagnostics_view(diags@) =~= diagnostics_view(old(diags)@).push((key@, message@)));
}

fn invalid_value_message(t: &str) -> (r: String)
    ensures
        r@ == invalid_value_text(t@),
{
    let mut r = "Found invalid value '".to_owned();
    r.append(t);
    r.append("'.");
    r
}

/// The text stored under `key`, leaving a diagnostic for an array or object.
fn read_raw_text(m: &ConfigKeyMap, key: &str, diags: &mut Vec<ConfigurationDiagnostic>) -> (r: Option<String>)
    ensures
        match read_text(m.view(), key@) {
            Some(Ok(t)) => r is Some && r->0@ == t && final(diags)@ == old(diags)@,
            Some(Err(e)) => r is None && diagnostics_view(final(diags)@) == diagnostics_view(old(diags)@).push((key@, e)),
            None => r is None && final(diags)@ == old(diags)@,
        },
{
    match m.get(key) {
        None => None,
        Some(v) => match v {
            ConfigKeyValue::String(s) => Some(s.clone()),
            ConfigKeyValue::Number(n) => Some(int_to_text(*n)),
            ConfigKeyValue::Bool(b) => if *b {
                Some("true".to_owned())
            } else {
                Some("false".to_owned())
            },
            ConfigKeyValue::Array(_) | ConfigKeyValue::Object(_) => {
                push_diagnostic(diags, key, "Arrays and objects are not supported for this value".to_owned());
                None
            },
            ConfigKeyValue::Null => None,
        },
    }
}

/// Reads `key` as an `u8`; an unreadable value leaves a diagnostic.
pub fn get_u8(m: &ConfigKeyMap, key: &str, diags: &mut Vec<ConfigurationDiagnostic>) -> (r: Option<u8>)
    ensures
        r == value_of(read_u8(m.view(), key@)),
        diagnostics_view(final(diags)@) == diagnostics_view(old(diags)@) + diagnostics_of(
            key@,
            read_u8(m.view(), key@),
        ),
{
    match read_raw_text(m, key, diags) {
        None => None,
        Some(t) => match parse_unsigned_text(t.as_str(), 255) {
            Ok(v) => Some(v as u8),
            Err(e) => {
                push_diagnostic(diags, key, int_error_message(e));
                None
            },
        },
    }
}

/// Reads `key` as an `u16`; an unreadable value leaves a diagnostic.
pub fn get_u16(m: &ConfigKeyMap, key: &str, diags: &mut Vec<ConfigurationDiagnostic>) -> (r: Option<u16>)
    ensures
        r == value_of(read_u16(m.view(), key@)),
        diagnostics_view(final(diags)@) == diagnostics_view(old(diags)@) + diagnostics_of(
            key@,
            read_u16(m.view(), key@),
        ),
{
    match read_raw_text(m, key, diags) {
        None => None,
        Some(t) => match parse_unsigned_text(t.as_str(), 65535) {
            Ok(v) => Some(v as u16),
            Err(e) => {
                push_diagnostic(diags, key, int_error_message(e));
                None
            },
        },
    }
}

/// Reads `key` as a `bool`; an unreadable value leaves a diagnostic.
pub fn get_bool(m: &ConfigKeyMap, key: &str, diags: &mut Vec<ConfigurationDiagnostic>) -> (r: Option<bool>)
    ensures
        r == value_of(read_bool(m.view(), key@)),
        diagnostics_view(final(diags)@) == diagnostics_view(old(diags)@) + diagnostics_of(
            key@,
            read_bool(m.view(), key@),
        ),
{
    match read_raw_text(m, key, diags) {
        None => None,
        Some(t) => if str_eq(t.as_str(), "true") {
            Some(true)
        } else if str_eq(t.as_str(), "false") {
            Some(false)
        } else {
            push_diagnostic(diags, key, "provided string was not `true` or `false`".to_owned());
            None
        },
    }
}

/// Reads `key` as a `LineEnding`; an unreadable value leaves a diagnostic.
pub fn get_line_ending(m: &ConfigKeyMap, key: &str, diags: &mut Vec<ConfigurationDiagnostic>) -> (r: Option<LineEnding>)
    ensures
        r == value_of(read_line_ending(m.view(), key@)),
        diagnostics_view(final(diags)@) == diagnostics_view(old(diags)@) + diagnostics_of(
            key@,
            read_line_ending(m.view(), key@),
        ),
{
    match read_raw_text(m, key, diags) {
        None => None,
        Some(t) => match LineEnding::from_name(t.as_str()) {
            Some(v) => Some(v),
            None => {
                push_diagnostic(diags, key, invalid_value_message(t.as_str()));
                None
            },
        },
    }
}

/// Reads `key` as an `IndentStyle`; an unreadable value leaves a diagnostic.
pub fn get_indent_style(m: &ConfigKeyMap, key: &str, diags: &mut Vec<ConfigurationDiagnostic>) -> (r: Option<IndentStyle>)
    ensures
        r == value_of(read_indent_style(m.view(), key@)),
        diagnostics_view(final(diags)@) == diagnostics_view(old(diags)@) + diagnostics_of(
            key@,
            read_indent_style(m.view(), key@),
        ),
{
    match read_raw_text(m, key, diags) {
        None => None,
        Some(t) => match IndentStyle::from_name(t.as_str()) {
            Some(v) => Some(v),
            None => {
                push_diagnostic(diags, key, invalid_value_message(t.as_str()));
                None
            },
        },
    }
}

/// Reads `key` as a `Semicolons`; an unreadable value leaves a diagnostic.
pub fn get_semicolons(m: &ConfigKeyMap, key: &str, diags: &mut Vec<ConfigurationDiagnostic>) -> (r: Option<Semicolons>)
    ensures
        r == value_of(read_semicolons(m.view(), key@)),
        diagnostics_view(final(diags)@) == diagnostics_view(old(diags)@) + diagnostics_of(
            key@,
            read_semicolons(m.view(), key@),
        ),
{
    match read_raw_text(m, key, diags) {
        None => None,
        Some(t) => match Semicolons::from_name(t.as_str()) {
            Some(v) => Some(v),
            None => {
                push_diagnostic(diags, key, invalid_value_message(t.as_str()));
                None
            },
        },
    }
}

/// Reads `key` as a `QuoteStyle`; an unreadable value leaves a diagnostic.
pub fn get_quote_style(m: &ConfigKeyMap, key: &str, diags: &mut Vec<ConfigurationDiagnostic>) -> (r: Option<QuoteStyle>)
    ensures
        r == value_of(read_quote_style(m.view(), key@)),
        diagnostics_view(final(diags)@) == diagnostics_view(old(diags)@) + diagnostics_of(
            key@,
            read_quote_style(m.view(), key@),
        ),
{
    match read_raw_text(m, key, diags) {
        None => None,
        Some(t) => match QuoteStyle::from_name(t.as_str()) {
            Some(v) => Some(v),
            None => {
                push_diagnostic(diags, key, invalid_value_message(t.as_str()));
                None
            },
        },
    }
}

/// Reads `key` as a `QuoteProperties`; an unreadable value leaves a diagnostic.
pub fn get_quote_properties(m: &ConfigKeyMap, key: &str, diags: &mut Vec<ConfigurationDiagnostic>) -> (r: Option<QuoteProperties>)
    ensures
        r == value_of(read_quote_properties(m.view(), key@)),
        diagnostics_view(final(diags)@) == diagnostics_view(old(diags)@) + diagnostics_of(
            key@,
            read_quote_properties(m.view(), key@),
        ),
{
    match read_raw_text(m, key, diags) {
        None => None,
        Some(t) => match QuoteProperties::from_name(t.as_str()) {
            Some(v) => Some(v),
            None => {
                push_diagnostic(diags, key, invalid_value_message(t.as_str()));
                None
            },
        },
    }
}

/// Reads `key` as an `ArrowParentheses`; an unreadable value leaves a diagnostic.
pub fn get_arrow_parentheses(m: &ConfigKeyMap, key: &str, diags: &mut Vec<ConfigurationDiagnostic>) -> (r: Option<ArrowParentheses>)
    ensures
        r == value_of(read_arrow_parentheses(m.view(), key@)),
        diagnostics_view(final(diags)@) == diagnostics_view(old(diags)@) + diagnostics_of(
            key@,
            read_arrow_parentheses(m.view(), key@),
        ),
{
    match read_raw_text(m, key, diags) {
        None => None,
        Some(t) => match ArrowParentheses::from_name(t.as_str()) {
            Some(v) => Some(v),
            None => {
                push_diagnostic(diags, key, invalid_value_message(t.as_str()));
                None
            },
        },
    }
}

/// Reads `key` as a `TrailingComma`; an unreadable value leaves a diagnostic.
pub fn get_trailing_comma(m: &ConfigKeyMap, key: &str, diags: &mut Vec<ConfigurationDiagnostic>) -> (r: Option<TrailingComma>)
    ensures
        r == value_of(read_trailing_comma(m.view(), key@)),
        diagnostics_view(final(diags)@) == diagnostics_view(old(diags)@) + diagnostics_of(
            key@,
            read_trailing_comma(m.view(), key@),
        ),
{
    match read_raw_text(m, key, diags) {
        None => None,
        Some(t) => match TrailingComma::from_name(t.as_str()) {
            Some(v) => Some(v),
            None => {
                push_diagnostic(diags, key, invalid_value_message(t.as_str()));
                None
            },
        },
    }
}

} // verus!
