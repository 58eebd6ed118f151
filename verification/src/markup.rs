//! Markup: Markdown, the sanitizer that its HTML passes, and text inside HTML attributes.
use vstd::prelude::*;

verus! {

broadcast use vstd::string::group_string_axioms;

/// What the Markdown renderer is to understand beyond CommonMark, and how it is to write.
#[derive(Debug, Clone, Copy, PartialEq, Eq, Structural)]
pub struct MarkdownOptions {
    pub strikethrough: bool,
    pub table: bool,
    pub autolink: bool,
    pub tasklist: bool,
    pub footnotes: bool,
    /// Whether a code block's language goes to its `pre` element.
    pub github_pre_lang: bool,
    /// Whether raw HTML and links of any scheme are kept.
    pub raw_html: bool,
}

/// The HTML that comrak renders `text` to with these options, all others as they are by default.
pub uninterp spec fn markdown_html(
    text: Seq<char>,
    strikethrough: bool,
    table: bool,
    autolink: bool,
    tasklist: bool,
    footnotes: bool,
    github_pre_lang: bool,
    raw_html: bool,
) -> Seq<char>;

/// Calls `comrak::markdown_to_html`: what it returns depends on the text and on the options,
/// and on nothing else. It walks the document recursively, so that nesting too deep for the
/// stack at hand ends the process; how deep that is depends on the machine, and no clause says so.
#[verifier::external_body]
fn markdown_to_html(text: &str, options: MarkdownOptions) -> (html: String)
    ensures
        html@ == markdown_html(
            text@,
            options.strikethrough,
            options.table,
            options.autolink,
            options.tasklist,
            options.footnotes,
            options.github_pre_lang,
            options.raw_html,
        ),
{
    let mut comrak_options = comrak::ComrakOptions::default();
    comrak_options.extension.strikethrough = options.strikethrough;
    comrak_options.extension.table = options.table;
    comrak_options.extension.autolink = options.autolink;
    comrak_options.extension.tasklist = options.tasklist;
    comrak_options.extension.footnotes = options.footnotes;
    comrak_options.render.github_pre_lang = options.github_pre_lang;
    comrak_options.render.unsafe_ = options.raw_html;
    comrak::markdown_to_html(text, &comrak_options)
}

/// An attribute of a tag with the values that it may have.
#[derive(Debug)]
pub struct AllowedValues {
    pub attribute: &'static str,
    pub values: Vec<&'static str>,
}

impl View for AllowedValues {
    type V = (Seq<char>, Seq<Seq<char>>);

    open spec fn view(&self) -> (Seq<char>, Seq<Seq<char>>) {
        (self.attribute@, self.values@.map_values(|value: &'static str| value@))
    }
}

/// Whether the sanitizer can be told to keep `tag`: it refuses those whose content it drops and
/// those that animate.
pub open spec fn can_keep(tag: Seq<char>) -> bool {
    &&& tag != "script"@
    &&& tag != "style"@
    &&& tag != "animate"@
    &&& tag != "animateTransform"@
    &&& tag != "animateMotion"@
    &&& tag != "animateColor"@
    &&& tag != "set"@
}

/// What ammonia's sanitizer leaves of `html` when, beyond what it does by default, links get
/// `link_rel` as their relation, `tag` is kept and its attributes keep the `allowed` values.
pub uninterp spec fn sanitized_html(
    html: Seq<char>,
    link_rel: Seq<char>,
    tag: Seq<char>,
    allowed: Seq<(Seq<char>, Seq<Seq<char>>)>,
) -> Seq<char>;

/// Calls `ammonia::Builder::clean` on a builder with these rules and `to_string` on the document
/// it returns: the text depends on the HTML and on the rules, and on nothing else.
#[verifier::external_body]
fn clean(
    html: &str,
    link_rel: &str,
    tag: &str,
    first: &AllowedValues,
    second: &AllowedValues,
    third: &AllowedValues,
) -> (cleaned: String)
    requires
        can_keep(tag@),
    ensures
        cleaned@ == sanitized_html(html@, link_rel@, tag@, seq![first@, second@, third@]),
{
    let mut builder = ammonia::Builder::default();
    builder
        .link_rel(Some(link_rel))
        .add_tags(std::iter::once(tag))
        .add_tag_attribute_values(tag, first.attribute, first.values.iter().copied())
        .add_tag_attribute_values(tag, second.attribute, second.values.iter().copied())
        .add_tag_attribute_values(tag, third.attribute, third.values.iter().copied());
    builder.clean(html).to_string()
}

/// How tera writes one character of escaped text.
pub open spec fn escaped_char(c: char) -> Seq<char> {
    match c {
        '&' => "&amp;"@,
        '<' => "&lt;"@,
        '>' => "&gt;"@,
        '"' => "&quot;"@,
        '\'' => "&#x27;"@,
        '/' => "&#x2F;"@,
        _ => seq![c],
    }
}

/// `text` with the characters that mean something in HTML written as references.
pub open spec fn escaped(text: Seq<char>) -> Seq<char>
    decreases text.len(),
{
    if text.len() == 0 {
        Seq::empty()
    } else {
        escaped(text.drop_last()) + escaped_char(text.last())
    }
}

/// Calls `tera::escape_html`: it replaces each of six characters by its reference and leaves the
/// others as they are.
#[verifier::external_body]
fn escape_html(text: &str) -> (html: String)
    ensures
        html@ == escaped(text@),
{
    tera::escape_html(text)
}

/// The HTML of a Markdown text: GitHub's extensions, with raw HTML kept for the sanitizer to
/// judge.
pub open spec fn markdown(text: Seq<char>) -> Seq<char> {
    markdown_html(text, true, true, true, true, true, true, true)
}

/// What the sanitizer leaves of `html`: links carry no referrer and no endorsement, and of forms
/// the checkboxes of task lists are kept.
pub open spec fn sanitized(html: Seq<char>) -> Seq<char> {
    sanitized_html(
        html,
        "noopener noreferrer nofollow"@,
        "input"@,
        seq![
            ("checked"@, seq![""@, "checked"@]),
            ("disabled"@, seq![""@, "disabled"@]),
            ("type"@, seq!["checkbox"@]),
        ],
    )
}

/// Sanitizes HTML.
pub fn sanitize(html: &str) -> (cleaned: String)
    ensures
        cleaned@ == sanitized(html@),
{
    let checked = AllowedValues { attribute: "checked", values: vec!["", "checked"] };
    let disabled = AllowedValues { attribute: "disabled", values: vec!["", "disabled"] };
    let kind = AllowedValues { attribute: "type", values: vec!["checkbox"] };
    proof {
        reveal_strlit("input");
        reveal_strlit("script");
        reveal_strlit("style");
        reveal_strlit("animate");
        reveal_strlit("animateTransform");
        reveal_strlit("animateMotion");
        reveal_strlit("animateColor");
        reveal_strlit("set");
        assert("input"@[0] != "style"@[0]);
        assert(checked@.1 =~= seq![""@, "checked"@]);
        assert(disabled@.1 =~= seq![""@, "disabled"@]);
        assert(kind@.1 =~= seq!["checkbox"@]);
    }
    clean(html, "noopener noreferrer nofollow", "input", &checked, &disabled, &kind)
}

/// Renders a Markdown text to HTML that passed the sanitizer.
pub fn render_markdown(text: &str) -> (html: String)
    ensures
        html@ == sanitized(markdown(text@)),
{
    let options = MarkdownOptions {
        strikethrough: true,
        table: true,
        autolink: true,
        tasklist: true,
        footnotes: true,
        github_pre_lang: true,
        raw_html: true,
    };
    sanitize(markdown_to_html(text, options).as_str())
}

/// The image that previews an SVG file.
pub open spec fn svg_preview(src: Seq<char>, name: Seq<char>) -> Seq<char> {
    "<img src=\""@ + escaped(src) + "\" alt=\""@ + escaped(name) + " SVG preview\"/>"@
}

/// Writes the image that previews the SVG file called `name`, whose content is at `src`.
pub fn preview_svg(src: &str, name: &str) -> (html: String)
    ensures
        html@ == svg_preview(src@, name@),
{
    let mut html = String::new();
    html.append("<img src=\"");
    html.append(escape_html(src).as_str());
    html.append("\" alt=\"");
    html.append(escape_html(name).as_str());
    html.append(" SVG preview\"/>");
    assert(html@ =~= svg_preview(src@, name@));
    html
}

/// Whether `c` can end an attribute's value or open or close a tag.
pub open spec fn is_markup(c: char) -> bool {
    c == '<' || c == '>' || c == '"' || c == '\''
}

proof fn escaped_char_is_inert(c: char)
    ensures
        forall|i: int| 0 <= i < escaped_char(c).len() ==> !is_markup(#[trigger] escaped_char(c)[i]),
{
    reveal_strlit("&amp;");
    reveal_strlit("&lt;");
    reveal_strlit("&gt;");
    reveal_strlit("&quot;");
    reveal_strlit("&#x27;");
    reveal_strlit("&#x2F;");
}

/// Escaped text holds nothing that ends an attribute's value or that opens or closes a tag.
pub proof fn escaped_is_inert(text: Seq<char>)
    ensures
        forall|i: int| 0 <= i < escaped(text).len() ==> !is_markup(#[trigger] escaped(text)[i]),
    decreases text.len(),
{
    if text.len() > 0 {
        let before = escaped(text.drop_last());
        escaped_is_inert(text.drop_last());
        escaped_char_is_inert(text.last());
        assert forall|i: int| 0 <= i < escaped(text).len() implies !is_markup(
            #[trigger] escaped(text)[i],
        ) by {
            if i < before.len() {
                assert(escaped(text)[i] == before[i]);
            } else {
                assert(escaped(text)[i] == escaped_char(text.last())[i - before.len()]);
            }
        }
    }
}

/// Whatever a file is called and wherever it is, its preview is one tag: nothing in its name or
/// address opens another or closes this one.
pub proof fn svg_preview_is_one_tag(src: Seq<char>, name: Seq<char>)
    ensures
        forall|i: int|
            0 <= i < svg_preview(src, name).len() ==> ((#[trigger] svg_preview(src, name)[i] == '<')
                <==> i == 0),
        forall|i: int|
            0 <= i < svg_preview(src, name).len() ==> ((#[trigger] svg_preview(src, name)[i] == '>')
                <==> i == svg_preview(src, name).len() - 1),
{
    reveal_strlit("<img src=\"");
    reveal_strlit("\" alt=\"");
    reveal_strlit(" SVG preview\"/>");
    escaped_is_inert(src);
    escaped_is_inert(name);
    let (open, middle, close) = ("<img src=\""@, "\" alt=\""@, " SVG preview\"/>"@);
    let (first, second) = (escaped(src), escaped(name));
    let preview = svg_preview(src, name);
    let start2 = open.len() + first.len();
    let start3 = start2 + middle.len();
    let start4 = start3 + second.len();
    assert forall|i: int| 0 <= i < preview.len() implies (#[trigger] preview[i] == '<' <==> i == 0)
        && (preview[i] == '>' <==> i == preview.len() - 1) by {
        if i < open.len() {
            assert(preview[i] == open[i]);
        } else if i < start2 {
            assert(preview[i] == first[i - open.len()]);
        } else if i < start3 {
            assert(preview[i] == middle[i - start2]);
        } else if i < start4 {
            assert(preview[i] == second[i - start3]);
        } else {
            assert(preview[i] == close[i - start4]);
        }
    }
}

} // verus!
