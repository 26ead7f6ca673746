use djoc::event::{Container, Event, ListKind, OrderedListNumbering, OrderedListStyle};
use djoc::html::{render_text, write_escaped};

fn render(events: Vec<Event>) -> String {
    render_text(&events)
}

#[test]
fn escapes_the_five_significant_characters() {
    let mut out = String::new();
    write_escaped(&mut out, "&<>\"'");
    assert_eq!(out, "&amp;&lt;&gt;&quot;&#39;");
}

#[test]
fn escape_round_trip_on_significant_characters() {
    let input = "&<>\"'";
    let mut escaped = String::new();
    write_escaped(&mut escaped, input);
    let recovered = escaped
        .replace("&amp;", "\u{0}")
        .replace("&lt;", "<")
        .replace("&gt;", ">")
        .replace("&quot;", "\"")
        .replace("&#39;", "'")
        .replace('\u{0}', "&");
    assert_eq!(recovered, input);
}

#[test]
fn paragraphs_and_headings() {
    let out = render(vec![
        Event::Start(
            Container::Heading {
                level: 2,
                id: "intro".to_string(),
            },
            vec![],
        ),
        Event::Str("Intro".to_string()),
        Event::End(Container::Heading {
            level: 2,
            id: "intro".to_string(),
        }),
        Event::Start(Container::Paragraph, vec![]),
        Event::Str("Hello".to_string()),
        Event::End(Container::Paragraph),
    ]);
    assert_eq!(out, "<h2 id=\"intro\">Intro</h2>\n\n<p>Hello</p>\n");
}

#[test]
fn heading_levels_are_clamped() {
    let out = render(vec![
        Event::Start(
            Container::Heading {
                level: 9,
                id: "x".to_string(),
            },
            vec![],
        ),
        Event::End(Container::Heading {
            level: 9,
            id: "x".to_string(),
        }),
    ]);
    assert_eq!(out, "<h6 id=\"x\"></h6>\n");
}

#[test]
fn ordered_list_attributes() {
    let kind = ListKind::Ordered {
        numbering: OrderedListNumbering::AlphaUpper,
        style: OrderedListStyle::Period,
        start: 3,
    };
    let out = render(vec![
        Event::Start(Container::List { kind, tight: false }, vec![]),
        Event::End(Container::List { kind, tight: false }),
    ]);
    assert_eq!(out, "<ol type=\"A\" start=\"3\"></ol>\n");

    let kind = ListKind::Ordered {
        numbering: OrderedListNumbering::Decimal,
        style: OrderedListStyle::Paren,
        start: 1,
    };
    let out = render(vec![
        Event::Start(Container::List { kind, tight: false }, vec![]),
        Event::End(Container::List { kind, tight: false }),
    ]);
    assert_eq!(out, "<ol></ol>\n");
}

#[test]
fn foreign_latex_raw_block_is_dropped() {
    let events = vec![
        Event::Start(
            Container::RawBlock {
                format: "latex".to_string(),
            },
            vec![],
        ),
        Event::Str("\\maketitle".to_string()),
        Event::End(Container::RawBlock {
            format: "latex".to_string(),
        }),
    ];
    assert_eq!(render(events), "");
}

#[test]
fn own_html_raw_block_passes_through() {
    let events = vec![
        Event::Start(
            Container::RawBlock {
                format: "html".to_string(),
            },
            vec![],
        ),
        Event::Str("<hr class=\"x\">".to_string()),
        Event::End(Container::RawBlock {
            format: "html".to_string(),
        }),
    ];
    assert_eq!(render(events), "<hr class=\"x\">");
}

#[test]
fn inline_wrappers_and_entities() {
    let out = render(vec![
        Event::Start(Container::Strong, vec![]),
        Event::Str("b".to_string()),
        Event::End(Container::Strong),
        Event::LeftDoubleQuote,
        Event::RightDoubleQuote,
        Event::Ellipsis,
        Event::NonBreakingSpace,
        Event::Hardbreak,
    ]);
    assert_eq!(out, "<strong>b</strong>&ldquo;&rdquo;&hellip;&nbsp;<br>\n");
}

#[test]
fn code_content_is_escaped() {
    let out = render(vec![
        Event::Start(
            Container::CodeBlock {
                language: "rust".to_string(),
            },
            vec![],
        ),
        Event::Str("a < b && c".to_string()),
        Event::End(Container::CodeBlock {
            language: "rust".to_string(),
        }),
    ]);
    assert_eq!(
        out,
        "<pre><code class=\"language-rust\">a &lt; b &amp;&amp; c</code></pre>\n"
    );
}

#[test]
fn links_and_footnote_references() {
    let out = render(vec![
        Event::Start(
            Container::Link {
                destination: "https://example.org/?a=1&b=2".to_string(),
            },
            vec![],
        ),
        Event::Str("x".to_string()),
        Event::End(Container::Link {
            destination: "https://example.org/?a=1&b=2".to_string(),
        }),
        Event::FootnoteReference(2),
    ]);
    assert_eq!(
        out,
        "<a href=\"https://example.org/?a=1&amp;b=2\">x</a><sup><a href=\"#fn2\">2</a></sup>"
    );
}
