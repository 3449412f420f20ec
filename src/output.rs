//! Output styles and the rendering of JSON values.
use vstd::prelude::*;

verus! {

/// The three ways a command prints what it received.
#[derive(Clone, Copy, Debug, PartialEq, Eq, Structural)]
pub enum OutputFormat {
    Json,
    Pretty,
    Table,
}

/// What `str::to_lowercase` returns for a text.
pub uninterp spec fn lower_of(s: Seq<char>) -> Seq<char>;

/// Relies on str::to_lowercase: the lowercase form depends on the characters alone.
#[verifier::external_body]
fn lowercase(s: &str) -> (r: String)
    ensures
        r@ == lower_of(s@),
{
    s.to_lowercase()
}

pub const INVALID_FORMAT: &'static str = "Invalid output format. Use: json, pretty, or table";

/// The format a lowercase name stands for, if any.
pub open spec fn format_named(name: Seq<char>) -> Option<OutputFormat> {
    if name == "json"@ {
        Some(OutputFormat::Json)
    } else if name == "pretty"@ {
        Some(OutputFormat::Pretty)
    } else if name == "table"@ {
        Some(OutputFormat::Table)
    } else {
        None
    }
}

/// Equality of a text with a literal.
fn text_is(a: &str, b: &str) -> (r: bool)
    ensures
        r == (a@ == b@),
{
    let x = String::from_str(a);
    let y = String::from_str(b);
    x == y
}

impl OutputFormat {
    /// The format named by an already lowercased text; anything else is refused.
    pub fn from_lowercase(name: &str) -> (r: Result<OutputFormat, String>)
        ensures
            match format_named(name@) {
                Some(f) => r == Ok::<OutputFormat, String>(f),
                None => (r matches Err(m) && m@ == INVALID_FORMAT@),
            },
    {
        if text_is(name, "json") {
            Ok(OutputFormat::Json)
        } else if text_is(name, "pretty") {
            Ok(OutputFormat::Pretty)
        } else if text_is(name, "table") {
            Ok(OutputFormat::Table)
        } else {
            Err(String::from_str(INVALID_FORMAT))
        }
    }

    /// The format a name stands for, in any letter case.
    pub fn from_str(s: &str) -> (r: Result<OutputFormat, String>)
        ensures
            match format_named(lower_of(s@)) {
                Some(f) => r == Ok::<OutputFormat, String>(f),
                None => (r matches Err(m) && m@ == INVALID_FORMAT@),
            },
    {
        let lower = lowercase(s);
        OutputFormat::from_lowercase(lower.as_str())
    }
}

/// What `serde_json::to_string` writes for a JSON value.
pub uninterp spec fn compact_of(v: serde_json::Value) -> Seq<char>;

/// What `serde_json::to_string_pretty` writes for a JSON value.
pub uninterp spec fn pretty_of(v: serde_json::Value) -> Seq<char>;

/// Relies on serde_json::to_string_pretty: renders a JSON value indented, which
/// cannot fail for a `Value` (its map keys are strings and it writes to memory).
#[verifier::external_body]
pub fn pretty_print_json(value: &serde_json::Value) -> (r: Result<String, serde_json::Error>)
    ensures
        r is Ok,
        r->Ok_0@ == pretty_of(*value),
{
    serde_json::to_string_pretty(value)
}

/// Relies on serde_json::to_string: renders a JSON value compactly, which cannot
/// fail for a `Value`.
#[verifier::external_body]
fn compact_json(value: &serde_json::Value) -> (r: Result<String, serde_json::Error>)
    ensures
        r is Ok,
        r->Ok_0@ == compact_of(*value),
{
    serde_json::to_string(value)
}

/// How a JSON value is laid out when printed.
#[derive(Clone, Copy, Debug, PartialEq, Eq, Structural)]
pub enum JsonStyle {
    Compact,
    Indented,
}

/// `Json` prints compact JSON; the other two formats print it indented (a value
/// that has no table of its own is shown indented under `Table`).
pub fn json_style(format: OutputFormat) -> (r: JsonStyle)
    ensures
        r == (if format == OutputFormat::Json {
            JsonStyle::Compact
        } else {
            JsonStyle::Indented
        }),
{
    match format {
        OutputFormat::Json => JsonStyle::Compact,
        _ => JsonStyle::Indented,
    }
}

/// Renders a JSON value for printing in the style the format asks for.
pub fn render_json(format: OutputFormat, value: &serde_json::Value) -> (r: Result<String, serde_json::Error>)
    ensures
        r is Ok,
        r->Ok_0@ == if format == OutputFormat::Json {
            compact_of(*value)
        } else {
            pretty_of(*value)
        },
{
    match json_style(format) {
        JsonStyle::Compact => compact_json(value),
        JsonStyle::Indented => pretty_print_json(value),
    }
}

} // verus!
