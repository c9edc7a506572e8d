use vstd::prelude::*;

use minijinja::value::Value;

verus! {

/// Extension flag: tables (the bit pulldown-cmark uses for it).
pub const ENABLE_TABLES: u32 = 1 << 1;

/// Extension flag: footnotes.
pub const ENABLE_FOOTNOTES: u32 = 1 << 2;

/// Extension flag: strikethrough.
pub const ENABLE_STRIKETHROUGH: u32 = 1 << 3;

/// Extension flag: task lists.
pub const ENABLE_TASKLISTS: u32 = 1 << 4;

/// The extensions enabled for post bodies, beyond baseline markdown.
pub open spec fn site_markdown_options() -> u32 {
    ENABLE_STRIKETHROUGH | ENABLE_TABLES | ENABLE_FOOTNOTES | ENABLE_TASKLISTS
}

/// The HTML that pulldown-cmark produces for markdown source `text` with the
/// extension flags `options`.
pub uninterp spec fn markdown_html(text: Seq<char>, options: u32) -> Seq<char>;

/// Relies on pulldown_cmark::Parser::new_ext and pulldown_cmark::html::push_html:
/// the HTML written for `text` depends on the text and the flags alone.
#[verifier::external_body]
fn render_markdown(text: &str, options: u32) -> (r: String)
    ensures
        r@ == markdown_html(text@, options),
{
    let parser = pulldown_cmark::Parser::new_ext(
        text,
        pulldown_cmark::Options::from_bits_truncate(options),
    );
    let mut out = String::new();
    pulldown_cmark::html::push_html(&mut out, parser);
    out
}

/// The extension flags used for post bodies: strikethrough, tables,
/// footnotes and task lists.
pub fn markdown_options() -> (r: u32)
    ensures
        r == site_markdown_options(),
{
    ENABLE_STRIKETHROUGH | ENABLE_TABLES | ENABLE_FOOTNOTES | ENABLE_TASKLISTS
}

/// Converts markdown source to an HTML fragment with the site's extensions.
pub fn markdown_to_html(text: &str) -> (r: String)
    ensures
        r@ == markdown_html(text@, site_markdown_options()),
{
    render_markdown(text, markdown_options())
}

/// The HTML the `markdown` template filter produces for an argument whose
/// text is `text`; an argument that is not a string counts as empty.
pub fn markdown_filter_text(text: Option<&str>) -> (r: String)
    ensures
        text matches Some(t) ==> r@ == markdown_html(t@, site_markdown_options()),
        text is None ==> r@ == markdown_html(Seq::empty(), site_markdown_options()),
{
    match text {
        Some(t) => markdown_to_html(t),
        None => {
            proof {
                reveal_strlit("");
                assert(""@ =~= Seq::<char>::empty());
            }
            markdown_to_html("")
        },
    }
}

#[verifier::external_type_specification]
#[verifier::external_body]
pub struct ExValue(Value);

/// The text minijinja's `Value::as_str` reads from a template value, if it
/// holds a string.
pub uninterp spec fn value_text(v: Value) -> Option<Seq<char>>;

/// Whether a template value is a string marked safe, which the template
/// engine embeds without escaping.
pub uninterp spec fn value_is_safe(v: Value) -> bool;

/// Relies on minijinja's `Value::as_str`: the string a value holds, if any.
pub assume_specification[ Value::as_str ](v: &Value) -> (r: Option<&str>)
    ensures
        r matches Some(s) ==> value_text(*v) == Some(s@),
        r is None ==> value_text(*v) is None,
;

/// Relies on minijinja's `Value::from_safe_string`: a string value holding
/// `s`, marked safe.
pub assume_specification[ Value::from_safe_string ](s: String) -> (r: Value)
    ensures
        value_text(r) == Some(s@),
        value_is_safe(r),
;

/// The text the `markdown` filter renders for a template value: its string,
/// or nothing when it holds none.
pub open spec fn filter_source(v: Value) -> Seq<char> {
    match value_text(v) {
        Some(t) => t,
        None => Seq::empty(),
    }
}

/// The `markdown` template filter: renders a string argument as markdown and
/// marks the HTML as safe, so the template engine does not escape it.
pub fn markdown_filter(value: Value) -> (r: Value)
    ensures
        value_text(r) == Some(markdown_html(filter_source(value), site_markdown_options())),
        value_is_safe(r),
{
    let html = markdown_filter_text(value.as_str());
    Value::from_safe_string(html)
}

} // verus!
