use djoc::author::Author;
use djoc::builder::Builder;
use djoc::date::Date;
use djoc::document::Document;
use djoc::event::{Container, Event};
use djoc::manifest::BuilderManifest;

fn heading(level: u64, id: &str, text: &str) -> Vec<Event> {
    vec![
        Event::Start(
            Container::Heading {
                level,
                id: id.to_string(),
            },
            vec![],
        ),
        Event::Str(text.to_string()),
        Event::End(Container::Heading {
            level,
            id: id.to_string(),
        }),
    ]
}

fn paragraph(text: &str) -> Vec<Event> {
    vec![
        Event::Start(Container::Paragraph, vec![]),
        Event::Str(text.to_string()),
        Event::End(Container::Paragraph),
    ]
}

#[test]
fn report_scenario() {
    // Title "Report", one author, a level-1 heading and a paragraph,
    // numbering disabled, standalone wrapper enabled.
    let mut body = heading(1, "intro", "Intro");
    body.extend(paragraph("Hello, world!"));
    let mut document = Document::default();
    document.title("Report".to_string());
    document.author(Author::from_name("A. Author".to_string()));
    document.text(body);

    let mut builder = Builder::default();
    builder.number_sections(false);
    builder.standalone(true);
    let latex = builder.write_latex(&document);

    assert!(latex.contains("\\section*{Intro}"), "{latex}");
    assert!(latex.contains("Hello, world!"), "{latex}");
    assert_eq!(latex.matches("\\author{").count(), 1);
    assert!(latex.contains("\\author{A. Author}"), "{latex}");
    assert!(!latex.contains("\\thanks"), "{latex}");
    assert!(latex.contains("\\documentclass{article}"));
    assert!(latex.contains("\\title{Report}"));
    assert!(latex.contains("\\begin{document}"));
    assert!(latex.contains("\\end{document}"));
}

#[test]
fn zero_authors_emit_placeholder_commands() {
    let document = Document::default();
    let latex = Builder::default().write_latex(&document);
    assert!(latex.contains("\\preauthor{}\\author{}\\postauthor{}"));
}

#[test]
fn author_with_email_gets_mailto_wrapper() {
    let mut document = Document::default();
    document.author(Author {
        name: "A. Author".to_string(),
        email: Some("a@example.org".to_string()),
        affiliation: None,
    });
    let latex = Builder::default().write_latex(&document);
    assert!(latex
        .contains("\\author{A. Author \\thanks{\\href{mailto:a@example.org}{a@example.org}}}"));
}

#[test]
fn absent_date_emits_balanced_placeholders() {
    let document = Document::default();
    let latex = Builder::default().write_latex(&document);
    assert!(latex.contains("\\predate{}\\date{}\\postdate{}"));
}

#[test]
fn present_date_is_locale_formatted() {
    let mut document = Document::default();
    document.date(Date::from_ymd(2020, 1, 1));
    let mut builder = Builder::default();
    builder.locale("de_DE".to_string());
    let latex = builder.write_latex(&document);
    assert!(latex.contains("\\date{ 1 Januar 2020}"), "{latex}");
}

#[test]
fn locale_language_part_is_declared() {
    let mut builder = Builder::default();
    builder.locale("de_DE".to_string());
    let latex = builder.write_latex(&Document::default());
    assert!(latex.contains("\\setdefaultlanguage{de}"));

    let mut builder = Builder::default();
    builder.locale("fr".to_string());
    let latex = builder.write_latex(&Document::default());
    assert!(latex.contains("\\setdefaultlanguage{fr}"));
}

#[test]
fn title_is_escaped_in_header() {
    let mut document = Document::default();
    document.title("Q&A".to_string());
    let latex = Builder::default().write_latex(&document);
    assert!(latex.contains("\\title{Q\\&A}"));
    let html = Builder::default().write_html(&document);
    assert!(html.contains("<title>Q&amp;A</title>"));
}

#[test]
fn parallel_texts_concatenate_in_source_order() {
    let mut document = Document::default();
    document.texts(vec![
        paragraph("first"),
        paragraph("second"),
        paragraph("third"),
        paragraph("fourth"),
    ]);
    let latex = Builder::default().write_latex(&document);
    let a = latex.find("first").unwrap();
    let b = latex.find("second").unwrap();
    let c = latex.find("third").unwrap();
    let d = latex.find("fourth").unwrap();
    assert!(a < b && b < c && c < d, "{latex}");

    // The concatenation equals rendering each text alone, in order.
    let sequential: String = ["first", "second", "third", "fourth"]
        .iter()
        .map(|t| djoc::latex::render_text(&paragraph(t), false))
        .collect();
    let start = latex.find("\\begin{document}\n").unwrap() + "\\begin{document}\n".len();
    let end = latex.find("\\end{document}\n").unwrap();
    assert_eq!(&latex[start..end], sequential);
}

#[test]
fn add_title_inserts_maketitle_inside_body() {
    let mut builder = Builder::default();
    builder.add_title(true);
    let latex = builder.write_latex(&Document::default());
    assert!(latex.contains("\\begin{document}\n\\maketitle\n"));

    let latex = Builder::default().write_latex(&Document::default());
    assert!(!latex.contains("\\maketitle"));
}

#[test]
fn standalone_html_has_shell() {
    let mut document = Document::default();
    document.title("T".to_string());
    document.text(paragraph("body text"));
    let html = Builder::default().write_html(&document);
    assert!(html.starts_with("<!DOCTYPE html>\n"));
    assert!(html.contains("<meta charset=\"utf-8\">"));
    assert!(html.contains("<title>T</title>"));
    assert!(html.contains("<style>"));
    assert!(html.contains("<p>body text</p>"));
    assert!(html.ends_with("</body>\n</html>\n"));

    let mut builder = Builder::default();
    builder.standalone(false);
    let bare = builder.write_html(&document);
    assert_eq!(bare, "<p>body text</p>\n");
}

#[test]
fn raw_foreign_content_is_in_neither_output() {
    let secret = "THIS-TEXT-MUST-NOT-APPEAR";
    let latex_raw = vec![
        Event::Start(
            Container::RawBlock {
                format: "html".to_string(),
            },
            vec![],
        ),
        Event::Str(secret.to_string()),
        Event::End(Container::RawBlock {
            format: "html".to_string(),
        }),
    ];
    let html_raw = vec![
        Event::Start(
            Container::RawBlock {
                format: "latex".to_string(),
            },
            vec![],
        ),
        Event::Str(secret.to_string()),
        Event::End(Container::RawBlock {
            format: "latex".to_string(),
        }),
    ];
    let mut document = Document::default();
    document.text(latex_raw);
    let latex = Builder::default().write_latex(&document);
    assert!(!latex.contains(secret));

    let mut document = Document::default();
    document.text(html_raw);
    let html = Builder::default().write_html(&document);
    assert!(!html.contains(secret));
}

#[test]
fn builder_from_manifest_fills_defaults() {
    let manifest = BuilderManifest::new();
    let builder = Builder::from_manifest(&manifest);
    assert_eq!(builder.number_sections, false);
    assert_eq!(builder.locale, "en_US");
    assert_eq!(builder.add_title, false);
    assert_eq!(builder.standalone, true);
    assert!(builder.build_dir.is_none());

    let mut manifest = BuilderManifest::new();
    manifest.number_sections = Some(true);
    manifest.locale = Some("nb_NO".to_string());
    manifest.build_dir = Some("build".to_string());
    manifest.add_title = Some(true);
    let builder = Builder::from_manifest(&manifest);
    assert_eq!(builder.number_sections, true);
    assert_eq!(builder.locale, "nb_NO");
    assert_eq!(builder.build_dir, Some("build".to_string()));
    assert_eq!(builder.add_title, true);
}
