//! What the markup of previews is made of.
use vstd::prelude::*;

use crate::markup::{
    escaped, escaped_char, markdown, markdown_html, sanitized, sanitized_html, svg_preview,
};

verus! {

/// Every Markdown text is rendered with all of the extensions on, and with raw HTML kept.
pub proof fn every_extension_is_on(text: Seq<char>)
    ensures
        markdown(text) == markdown_html(text, true, true, true, true, true, true, true),
{
}

/// All HTML is sanitized by the same rules: what they add to the sanitizer's own is the relation
/// of links and the attributes of checkboxes.
pub proof fn rules_are_the_same_for_all(html: Seq<char>)
    ensures
        sanitized(html) == sanitized_html(
            html,
            "noopener noreferrer nofollow"@,
            "input"@,
            seq![
                ("checked"@, seq![""@, "checked"@]),
                ("disabled"@, seq![""@, "disabled"@]),
                ("type"@, seq!["checkbox"@]),
            ],
        ),
{
}

/// Text is escaped character by character: what stands before and after changes nothing.
pub proof fn escaping_goes_by_characters(a: Seq<char>, b: Seq<char>)
    ensures
        escaped(a + b) == escaped(a) + escaped(b),
        escaped(Seq::<char>::empty()) == Seq::<char>::empty(),
    decreases b.len(),
{
    if b.len() == 0 {
        assert(a + b =~= a);
        assert(escaped(a) + escaped(b) =~= escaped(a));
    } else {
        escaping_goes_by_characters(a, b.drop_last());
        assert((a + b).drop_last() =~= a + b.drop_last());
        assert(escaped(a + b) =~= escaped(a) + escaped(b));
    }
}

/// Each of the six characters that mean something in HTML becomes its reference, and every other
/// character stays itself.
pub proof fn only_markup_is_escaped(c: char)
    ensures
        c == '&' ==> escaped(seq![c]) == "&amp;"@,
        c == '<' ==> escaped(seq![c]) == "&lt;"@,
        c == '>' ==> escaped(seq![c]) == "&gt;"@,
        c == '"' ==> escaped(seq![c]) == "&quot;"@,
        c == '\'' ==> escaped(seq![c]) == "&#x27;"@,
        c == '/' ==> escaped(seq![c]) == "&#x2F;"@,
        c != '&' && c != '<' && c != '>' && c != '"' && c != '\'' && c != '/' ==> escaped(seq![c])
            == seq![c],
{
    let text = seq![c];
    assert(text.drop_last() =~= Seq::empty());
    assert(escaped(text.drop_last()) =~= Seq::empty());
    assert(escaped(text) =~= escaped_char(c));
}

/// The preview of an image is a tag with its whole address as the source and its whole name in
/// the description, both escaped.
pub proof fn image_shows_address_and_name(src: Seq<char>, name: Seq<char>)
    ensures
        ({
            let html = svg_preview(src, name);
            let middle = 10 + escaped(src).len() as int;
            let end = middle + 7 + escaped(name).len() as int;
            &&& html.len() == end + 15
            &&& html.take(10) =~= "<img src=\""@
            &&& html.subrange(10, middle) =~= escaped(src)
            &&& html.subrange(middle, middle + 7) =~= "\" alt=\""@
            &&& html.subrange(middle + 7, end) =~= escaped(name)
            &&& html.skip(end) =~= " SVG preview\"/>"@
        }),
{
    reveal_strlit("<img src=\"");
    reveal_strlit("\" alt=\"");
    reveal_strlit(" SVG preview\"/>");
}

} // verus!
