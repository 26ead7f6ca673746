use djoc::author::Author;
use djoc::date::Date;
use djoc::document::{Document, DocumentType};
use djoc::event::{Container, Event};
use djoc::manifest::{BuilderManifest, DocumentManifest};

fn paragraph(text: &str) -> Vec<Event> {
    vec![
        Event::Start(Container::Paragraph, vec![]),
        Event::Str(text.to_string()),
        Event::End(Container::Paragraph),
    ]
}

#[test]
fn builder_methods_accumulate() {
    let mut document = Document::default();
    document.title("My Document".to_string());
    document.document_type(DocumentType::from_name("report"));
    document.author(Author::from_name("John Doe".to_string()));
    document.authors(vec![
        Author::from_name("Jane Doe".to_string()),
        Author::from_name("John Smith".to_string()),
    ]);
    document.text(paragraph("This is the first paragraph."));

    assert_eq!(document.title, "My Document");
    assert!(matches!(document.document_type, DocumentType::Report));
    assert_eq!(document.authors.len(), 3);
    assert_eq!(document.authors[0].name, "John Doe");
    assert_eq!(document.authors[2].name, "John Smith");
    assert_eq!(document.texts.len(), 1);
}

#[test]
fn default_document() {
    let document = Document::default();
    assert_eq!(document.title, "Document");
    assert_eq!(document.locale, "en_US");
    assert!(matches!(document.document_type, DocumentType::Article));
    assert!(document.authors.is_empty());
    assert!(document.texts.is_empty());
}

#[test]
fn filename_is_title_slug() {
    let mut document = Document::default();
    document.title("Hello, world!".to_string());
    assert_eq!(document.filename(), "hello-world");
}

#[test]
fn document_type_names_round_trip() {
    for name in ["article", "report", "book"] {
        assert_eq!(DocumentType::from_name(name).as_ref(), name);
    }
    assert!(matches!(
        DocumentType::from_name("novel"),
        DocumentType::Article
    ));
}

#[test]
fn document_from_single_text() {
    let document = Document::from(paragraph("content"));
    assert_eq!(document.texts.len(), 1);
    assert_eq!(document.title, "Document");
}

#[test]
fn from_manifest_maps_fields() {
    let mut builder = BuilderManifest::new();
    builder.locale = Some("de_DE".to_string());
    let manifest = DocumentManifest {
        title: "My Document".to_string(),
        date: Some(Date::from_ymd(2020, 1, 1)),
        authors: vec![Author::from_name("John Doe".to_string())],
        texts: vec!["src/main.dj".to_string()],
        document_type: DocumentType::Book,
        builder,
    };
    let document = Document::from_manifest(&manifest, vec![paragraph("one")]);
    assert_eq!(document.title, "My Document");
    assert_eq!(document.locale, "de_DE");
    assert!(matches!(document.document_type, DocumentType::Book));
    assert_eq!(document.authors.len(), 1);
    assert_eq!(document.texts.len(), 1);
    assert_eq!(document.date.to_plain_string(), "2020-01-01");
}

#[test]
fn author_display_forms() {
    let plain = Author::from_name("A".to_string());
    assert_eq!(plain.display_string(), "A");
    let full = Author {
        name: "A".to_string(),
        email: Some("a@example.org".to_string()),
        affiliation: Some("Example U".to_string()),
    };
    assert_eq!(full.display_string(), "A <a@example.org> (Example U)");
    let named: Author = Author::from("B".to_string());
    assert_eq!(named.display_string(), "B");
}
