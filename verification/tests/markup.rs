use webserver::markup::{preview_svg, render_markdown, sanitize};

#[test]
fn markdown_becomes_html() {
    assert_eq!(render_markdown("# Hi\n\nSome *text*.\n"), "<h1>Hi</h1>\n<p>Some <em>text</em>.</p>\n");
    assert_eq!(render_markdown(""), "");
}

#[test]
fn extensions_are_on() {
    assert_eq!(render_markdown("~~old~~\n"), "<p><del>old</del></p>\n");
    assert!(render_markdown("|a|\n|-|\n|b|\n").contains("<table>"));
    assert_eq!(
        render_markdown("https://example.com\n"),
        "<p><a href=\"https://example.com\" rel=\"noopener noreferrer nofollow\">https://example.com</a></p>\n",
    );
    assert_eq!(
        render_markdown("- [x] done\n- [ ] open\n"),
        "<ul>\n<li><input type=\"checkbox\" disabled=\"\" checked=\"\"> done</li>\n\
         <li><input type=\"checkbox\" disabled=\"\"> open</li>\n</ul>\n",
    );
    assert!(render_markdown("note[^1]\n\n[^1]: below\n").contains("<sup>"));
    assert_eq!(
        render_markdown("```rust\nfn f();\n```\n"),
        "<pre lang=\"rust\"><code>fn f();\n</code></pre>\n",
    );
}

#[test]
fn raw_html_reaches_the_sanitizer() {
    assert_eq!(render_markdown("<b>bold</b>\n"), "<p><b>bold</b></p>\n");
    assert_eq!(render_markdown("<script>alert(1)</script>\n"), "\n");
    assert_eq!(
        render_markdown("[x](javascript:alert(1))\n"),
        "<p><a rel=\"noopener noreferrer nofollow\">x</a></p>\n",
    );
}

#[test]
fn sanitizer_keeps_checkboxes_alone_of_forms() {
    assert_eq!(sanitize("<input type=\"checkbox\" checked>"), "<input type=\"checkbox\" checked=\"\">");
    assert_eq!(
        sanitize("<input type=\"checkbox\" checked=\"checked\" disabled=\"disabled\">"),
        "<input type=\"checkbox\" checked=\"checked\" disabled=\"disabled\">",
    );
    assert_eq!(sanitize("<input type=\"text\" onclick=\"x()\">"), "<input>");
    assert_eq!(sanitize("<input disabled=\"yes\">"), "<input>");
    assert_eq!(sanitize("<form>a</form>"), "a");
    assert_eq!(
        sanitize("<a href=\"https://example.com\">x</a>"),
        "<a href=\"https://example.com\" rel=\"noopener noreferrer nofollow\">x</a>",
    );
}

#[test]
fn svg_previews_are_images() {
    assert_eq!(
        preview_svg("/p/me/1", "a.svg"),
        "<img src=\"&#x2F;p&#x2F;me&#x2F;1\" alt=\"a.svg SVG preview\"/>",
    );
}

#[test]
fn svg_previews_escape_names() {
    let html = preview_svg("x", "\"><script>'&.svg");
    assert_eq!(
        html,
        "<img src=\"x\" alt=\"&quot;&gt;&lt;script&gt;&#x27;&amp;.svg SVG preview\"/>",
    );
    assert_eq!(html.matches('<').count(), 1);
    assert_eq!(html.matches('>').count(), 1);
}
