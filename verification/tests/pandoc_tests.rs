use djoc::pandoc::{Pandoc, PandocError, PandocFormat, PandocOption};

#[test]
fn option_argument_strings() {
    assert_eq!(PandocOption::Citeproc.to_arg_string(), "-C");
    assert_eq!(
        PandocOption::NumberSections.to_arg_string(),
        "--number-sections"
    );
    assert_eq!(PandocOption::Standalone.to_arg_string(), "-s");
    assert_eq!(
        PandocOption::LinkCitations.to_arg_string(),
        "--metadata=link-citations"
    );
    assert_eq!(PandocOption::Katex.to_arg_string(), "--katex");
    assert_eq!(
        PandocOption::From(PandocFormat::Markdown).to_arg_string(),
        "--from=markdown"
    );
    assert_eq!(
        PandocOption::To(PandocFormat::Latex).to_arg_string(),
        "--to=latex"
    );
    assert_eq!(
        PandocOption::Csl("apa.csl".to_string()).to_arg_string(),
        "--csl=apa.csl"
    );
    assert_eq!(
        PandocOption::LuaFilter("f.lua".to_string()).to_arg_string(),
        "--lua-filter=f.lua"
    );
    assert_eq!(
        PandocOption::Bibliography("refs.bib".to_string()).to_arg_string(),
        "--bibliography=refs.bib"
    );
    assert_eq!(
        PandocOption::IncludeInHeader("h.tex".to_string()).to_arg_string(),
        "--include-in-header=h.tex"
    );
    assert_eq!(
        PandocOption::Template("t.tex".to_string()).to_arg_string(),
        "--template=t.tex"
    );
    assert_eq!(
        PandocOption::Title("T".to_string()).to_arg_string(),
        "--variable=title:T"
    );
    assert_eq!(
        PandocOption::TitleScript("s".to_string()).to_arg_string(),
        "--variable=title-script:s"
    );
    assert_eq!(
        PandocOption::Author("A".to_string()).to_arg_string(),
        "--variable=author:A"
    );
    assert_eq!(
        PandocOption::Date("2020".to_string()).to_arg_string(),
        "--variable=date:2020"
    );
    assert_eq!(
        PandocOption::DocumentClass("book".to_string()).to_arg_string(),
        "--variable=documentclass:book"
    );
}

#[test]
fn invocation_collects_args_in_order() {
    let mut pandoc = Pandoc::new();
    assert_eq!(pandoc.path, "pandoc");
    pandoc.push_opt(PandocOption::Standalone);
    pandoc.push_opt(PandocOption::From(PandocFormat::Markdown));
    pandoc.push_opt(PandocOption::To(PandocFormat::Html));
    let args = pandoc.args();
    assert_eq!(args, vec!["-s", "--from=markdown", "--to=html"]);
}

#[test]
fn exit_codes_decode_to_errors() {
    let m = || "msg".to_string();
    assert!(matches!(PandocError::from_code(1, m()), PandocError::Io(_)));
    assert!(matches!(PandocError::from_code(4, m()), PandocError::App(_)));
    assert!(matches!(
        PandocError::from_code(5, m()),
        PandocError::Template(_)
    ));
    assert!(matches!(
        PandocError::from_code(6, m()),
        PandocError::OptionError(_)
    ));
    assert!(matches!(
        PandocError::from_code(21, m()),
        PandocError::UnknownReader
    ));
    assert!(matches!(
        PandocError::from_code(22, m()),
        PandocError::UnknownWriter
    ));
    assert!(matches!(
        PandocError::from_code(23, m()),
        PandocError::UnsupportedExtension
    ));
    assert!(matches!(
        PandocError::from_code(24, m()),
        PandocError::Citeproc(_)
    ));
    assert!(matches!(
        PandocError::from_code(25, m()),
        PandocError::Bibliography(_)
    ));
    assert!(matches!(
        PandocError::from_code(31, m()),
        PandocError::EpubSubdirectory
    ));
    assert!(matches!(PandocError::from_code(43, m()), PandocError::Pdf(_)));
    assert!(matches!(PandocError::from_code(44, m()), PandocError::Xml(_)));
    assert!(matches!(
        PandocError::from_code(47, m()),
        PandocError::PdfProgramNotFound
    ));
    assert!(matches!(
        PandocError::from_code(61, m()),
        PandocError::Http(_)
    ));
    assert!(matches!(
        PandocError::from_code(62, m()),
        PandocError::ShouldNeverHappen
    ));
    assert!(matches!(PandocError::from_code(64, m()), PandocError::Parse));
    assert!(matches!(PandocError::from_code(65, m()), PandocError::Parsec));
    assert!(matches!(
        PandocError::from_code(66, m()),
        PandocError::MakePdf
    ));
    assert!(matches!(
        PandocError::from_code(67, m()),
        PandocError::SyntaxMap(_)
    ));
    assert!(matches!(
        PandocError::from_code(83, m()),
        PandocError::Filter(_)
    ));
    assert!(matches!(PandocError::from_code(84, m()), PandocError::Lua(_)));
    assert!(matches!(
        PandocError::from_code(91, m()),
        PandocError::MacroLoop
    ));
    assert!(matches!(
        PandocError::from_code(92, m()),
        PandocError::Utf8Decoding
    ));
    assert!(matches!(
        PandocError::from_code(94, m()),
        PandocError::UnsupportedCharset
    ));
    assert!(matches!(
        PandocError::from_code(97, m()),
        PandocError::CouldNotFindDataFile(_)
    ));
    assert!(matches!(
        PandocError::from_code(99, m()),
        PandocError::ResourceNotFound(_)
    ));
    match PandocError::from_code(123, "odd".to_string()) {
        PandocError::Other(s) => assert_eq!(s, "odd"),
        _ => panic!("expected the catch-all"),
    }
}
