use djoc::manifest::{
    output_path, BuilderManifest, ExecutionError, Output, OutputFormat,
};

#[test]
fn merge_prefers_the_override_where_set() {
    let mut global = BuilderManifest::new();
    global.number_sections = Some(false);
    global.locale = Some("en_US".to_string());
    global.build_dir = Some("build".to_string());
    global.outputs.push(Output {
        name: None,
        format: OutputFormat::Pdf,
    });

    let mut per_document = BuilderManifest::new();
    per_document.number_sections = Some(true);
    per_document.add_title = Some(true);
    per_document.outputs.push(Output {
        name: Some("out".to_string()),
        format: OutputFormat::Html,
    });

    let merged = global.merge(per_document);
    assert_eq!(merged.number_sections, Some(true));
    assert_eq!(merged.locale, Some("en_US".to_string()));
    assert_eq!(merged.build_dir, Some("build".to_string()));
    assert_eq!(merged.add_title, Some(true));
    // Output lists are concatenated, global first.
    assert_eq!(merged.outputs.len(), 2);
    assert!(matches!(merged.outputs[0].format, OutputFormat::Pdf));
    assert!(matches!(merged.outputs[1].format, OutputFormat::Html));
    assert_eq!(merged.outputs[1].name, Some("out".to_string()));
}

#[test]
fn format_names() {
    assert_eq!(OutputFormat::Pdf.as_ref(), "pdf");
    assert_eq!(OutputFormat::Html.as_ref(), "html");
    assert_eq!(OutputFormat::Latex.as_ref(), "latex");
    assert_eq!(OutputFormat::Unknown("docx".to_string()).as_ref(), "unknown");
}

#[test]
fn format_parsing() {
    assert!(matches!(OutputFormat::from("pdf".to_string()), OutputFormat::Pdf));
    assert!(matches!(OutputFormat::from("html".to_string()), OutputFormat::Html));
    assert!(matches!(OutputFormat::from("tex".to_string()), OutputFormat::Latex));
    match OutputFormat::from("docx".to_string()) {
        OutputFormat::Unknown(s) => assert_eq!(s, "docx"),
        _ => panic!("expected an unknown format"),
    }
}

#[test]
fn output_paths_use_name_or_title_slug() {
    let named = Output {
        name: Some("thesis".to_string()),
        format: OutputFormat::Pdf,
    };
    match output_path(&named, "My Title") {
        Ok(p) => assert_eq!(p, "thesis.pdf"),
        Err(_) => panic!("expected a path"),
    }

    let unnamed = Output {
        name: None,
        format: OutputFormat::Latex,
    };
    match output_path(&unnamed, "My Title") {
        Ok(p) => assert_eq!(p, "my-title.latex"),
        Err(_) => panic!("expected a path"),
    }
}

#[test]
fn unknown_format_is_reported_per_output() {
    let bad = Output {
        name: None,
        format: OutputFormat::Unknown("docx".to_string()),
    };
    match output_path(&bad, "T") {
        Err(e) => {
            let ExecutionError::UnknownFormat(f) = &e;
            assert_eq!(f, "docx");
            assert_eq!(e.message(), "unknown output format: docx");
        }
        Ok(_) => panic!("expected an error"),
    }
}
