use djoc::adapter::{substitute_citations, substitute_math, Bibliography};
use djoc::event::{Attribute, Container, Event};

fn cite_span(key: &str) -> Vec<Event> {
    vec![
        Event::Start(
            Container::Span,
            vec![Attribute {
                key: "cite".to_string(),
                value: key.to_string(),
            }],
        ),
        Event::Str("@".to_string()),
        Event::End(Container::Span),
    ]
}

fn str_of(e: &Event) -> &str {
    match e {
        Event::Str(s) => s.as_str(),
        _ => panic!("expected a text run"),
    }
}

#[test]
fn resolved_citation_replaces_placeholder() {
    let mut bib = Bibliography::new();
    bib.insert("knuth84".to_string(), "Knuth (1984)".to_string());
    let out = substitute_citations(&cite_span("knuth84"), &bib);
    assert_eq!(out.len(), 3);
    assert_eq!(str_of(&out[1]), "Knuth (1984)");
}

#[test]
fn missing_citation_leaves_placeholder_unchanged() {
    let mut bib = Bibliography::new();
    bib.insert("other".to_string(), "Other (2001)".to_string());
    let out = substitute_citations(&cite_span("missing"), &bib);
    assert_eq!(out.len(), 3);
    assert_eq!(str_of(&out[1]), "@");
}

#[test]
fn pending_substitution_is_consumed_once() {
    let mut bib = Bibliography::new();
    bib.insert("k".to_string(), "K (2000)".to_string());
    let mut events = cite_span("k");
    events.push(Event::Str("@".to_string()));
    let out = substitute_citations(&events, &bib);
    assert_eq!(str_of(&out[1]), "K (2000)");
    assert_eq!(str_of(&out[3]), "@");
}

#[test]
fn ordinary_text_passes_through() {
    let bib = Bibliography::new();
    let events = vec![
        Event::Start(Container::Paragraph, vec![]),
        Event::Str("plain @ text".to_string()),
        Event::End(Container::Paragraph),
    ];
    let out = substitute_citations(&events, &bib);
    assert_eq!(out.len(), 3);
    assert_eq!(str_of(&out[1]), "plain @ text");
}

#[test]
fn bibliography_lookup_finds_first_entry() {
    let mut bib = Bibliography::new();
    bib.insert("a".to_string(), "first".to_string());
    bib.insert("a".to_string(), "second".to_string());
    assert_eq!(bib.lookup("a"), Some("first".to_string()));
    assert_eq!(bib.lookup("b"), None);
}

#[test]
fn math_regions_become_raw_hypertext() {
    let events = vec![
        Event::Start(Container::Math { display: false }, vec![]),
        Event::Str("x^2".to_string()),
        Event::End(Container::Math { display: false }),
    ];
    let out = substitute_math(&events);
    assert_eq!(out.len(), 3);
    match &out[0] {
        Event::Start(Container::RawBlock { format }, _) => assert_eq!(format, "html"),
        _ => panic!("expected a raw block start"),
    }
    match &out[2] {
        Event::End(Container::RawBlock { format }) => assert_eq!(format, "html"),
        _ => panic!("expected a raw block end"),
    }
    // The outside math renderer rewrote the formula into markup.
    let rendered = str_of(&out[1]);
    assert_ne!(rendered, "x^2");
    assert!(rendered.contains("<"), "math output should be markup: {rendered}");
}

#[test]
fn text_outside_math_is_untouched_by_math_substitution() {
    let events = vec![
        Event::Start(Container::Paragraph, vec![]),
        Event::Str("x^2".to_string()),
        Event::End(Container::Paragraph),
    ];
    let out = substitute_math(&events);
    assert_eq!(str_of(&out[1]), "x^2");
}
