use djoc::chapter::{chapters_to_latex, Chapter};
use djoc::config::Config;
use djoc::document::DocumentType;
use djoc::event::{Container, Event};

fn paragraph(text: &str) -> Vec<Event> {
    vec![
        Event::Start(Container::Paragraph, vec![]),
        Event::Str(text.to_string()),
        Event::End(Container::Paragraph),
    ]
}

#[test]
fn config_defaults() {
    let config = Config::default();
    assert_eq!(config.title, "Document title");
    assert_eq!(config.bib.csl, "apa");
    assert_eq!(config.build.output, "pdf");
    assert!(config.build.tidy_logs);
    assert!(!config.style.number_sections);
    assert!(config.latex_header().is_none());
}

#[test]
fn latex_header_collects_head_and_packages() {
    let mut config = Config::default();
    config.latex.head = "\\raggedright\n".to_string();
    config.latex.packages = vec!["siunitx".to_string(), "booktabs".to_string()];
    assert_eq!(
        config.latex_header(),
        Some("\\raggedright\n\\usepackage{siunitx}\n\\usepackage{booktabs}\n".to_string())
    );

    let mut config = Config::default();
    config.latex.packages = vec!["siunitx".to_string()];
    assert_eq!(
        config.latex_header(),
        Some("\\usepackage{siunitx}\n".to_string())
    );
}

#[test]
fn config_filename_prefers_fixed_name() {
    let mut config = Config::default();
    assert_eq!(config.filename(), "document-title");
    config.build.filename = Some("out".to_string());
    assert_eq!(config.filename(), "out");
}

#[test]
fn config_date_string() {
    let mut config = Config::default();
    assert_eq!(config.date_string("1 May 2024"), "");
    config.date = Some("now".to_string());
    assert_eq!(config.date_string("1 May 2024"), "1 May 2024");
    config.date = Some("yesterday".to_string());
    assert_eq!(config.date_string("1 May 2024"), "yesterday");
}

#[test]
fn chapters_of_books_get_chapter_commands() {
    let chapters = vec![
        Chapter::new(paragraph("one")).with_title("One".to_string()),
        Chapter::new(paragraph("two")).with_title("Two".to_string()),
    ];
    let out = chapters_to_latex(&chapters, DocumentType::Book);
    assert!(out.contains("\\chapter{One}"));
    assert!(out.contains("\\chapter{Two}"));

    // A lone chapter gets no chapter command, nor does an article.
    let single = vec![Chapter::new(paragraph("one")).with_title("One".to_string())];
    let out = chapters_to_latex(&single, DocumentType::Book);
    assert!(!out.contains("\\chapter{"));

    let chapters = vec![
        Chapter::new(paragraph("one")).with_title("One".to_string()),
        Chapter::new(paragraph("two")).with_title("Two".to_string()),
    ];
    let out = chapters_to_latex(&chapters, DocumentType::Article);
    assert!(!out.contains("\\chapter{"));
}

#[test]
fn chapter_title_div_becomes_title_command() {
    let events = vec![
        Event::Start(
            Container::Div {
                class: "title".to_string(),
            },
            vec![],
        ),
        Event::End(Container::Div {
            class: "title".to_string(),
        }),
        Event::Start(Container::Paragraph, vec![]),
        Event::Str("body".to_string()),
        Event::End(Container::Paragraph),
    ];
    let chapter = Chapter::new(events);
    let mut latex = String::new();
    chapter.write_latex(&mut latex);
    assert!(latex.contains("\\maketitle"), "{latex}");
    assert!(latex.contains("body"));

    // The raw typeset region is foreign to the hypertext renderer.
    let mut html = String::new();
    chapter.write_html(&mut html);
    assert!(!html.contains("\\maketitle"), "{html}");
    assert!(html.contains("body"));
}
