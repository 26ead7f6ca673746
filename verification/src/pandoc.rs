//! Invocation data for an outside document converter: the command-line
//! options it takes, and the mapping from its exit codes to errors.
//!
//! Spawning the converter is I/O and lives outside this crate; what is
//! verified here is the exact argument strings handed to it and the exact
//! decoding of its exit codes.

use vstd::prelude::*;

verus! {

/// A source or target format of the outside converter.
pub enum PandocFormat {
    Html,
    Latex,
    Markdown,
}

/// The name of a converter format.
pub open spec fn pandoc_format_name(f: PandocFormat) -> Seq<char> {
    match f {
        PandocFormat::Html => ("html")@,
        PandocFormat::Latex => ("latex")@,
        PandocFormat::Markdown => ("markdown")@,
    }
}

impl PandocFormat {
    /// The name of the format as the converter spells it.
    pub fn as_str(&self) -> (r: &'static str)
        ensures
            r@ == pandoc_format_name(*self),
    {
        match self {
            PandocFormat::Html => "html",
            PandocFormat::Latex => "latex",
            PandocFormat::Markdown => "markdown",
        }
    }
}

/// One command-line option of the outside converter.
pub enum PandocOption {
    Citeproc,
    NumberSections,
    Standalone,
    LinkCitations,
    Katex,
    From(PandocFormat),
    To(PandocFormat),
    Csl(String),
    LuaFilter(String),
    Bibliography(String),
    IncludeInHeader(String),
    Template(String),
    Title(String),
    TitleScript(String),
    Author(String),
    Date(String),
    DocumentClass(String),
}

/// The exact argument string of one option.
pub open spec fn option_arg(o: PandocOption) -> Seq<char> {
    match o {
        PandocOption::Citeproc => ("-C")@,
        PandocOption::NumberSections => ("--number-sections")@,
        PandocOption::Standalone => ("-s")@,
        PandocOption::LinkCitations => ("--metadata=link-citations")@,
        PandocOption::Katex => ("--katex")@,
        PandocOption::From(f) => ("--from=")@ + pandoc_format_name(f),
        PandocOption::To(f) => ("--to=")@ + pandoc_format_name(f),
        PandocOption::Csl(p) => ("--csl=")@ + p@,
        PandocOption::LuaFilter(p) => ("--lua-filter=")@ + p@,
        PandocOption::Bibliography(p) => ("--bibliography=")@ + p@,
        PandocOption::IncludeInHeader(p) => ("--include-in-header=")@ + p@,
        PandocOption::Template(p) => ("--template=")@ + p@,
        PandocOption::Title(t) => ("--variable=title:")@ + t@,
        PandocOption::TitleScript(t) => ("--variable=title-script:")@ + t@,
        PandocOption::Author(a) => ("--variable=author:")@ + a@,
        PandocOption::Date(d) => ("--variable=date:")@ + d@,
        PandocOption::DocumentClass(c) => ("--variable=documentclass:")@ + c@,
    }
}

impl PandocOption {
    /// The argument string handed to the converter for this option.
    pub fn to_arg_string(&self) -> (r: String)
        ensures
            r@ == option_arg(*self),
    {
        match self {
            PandocOption::Citeproc => String::from_str("-C"),
            PandocOption::NumberSections => String::from_str("--number-sections"),
            PandocOption::Standalone => String::from_str("-s"),
            PandocOption::LinkCitations => String::from_str("--metadata=link-citations"),
            PandocOption::Katex => String::from_str("--katex"),
            PandocOption::From(f) => {
                let mut s = String::from_str("--from=");
                s.append(f.as_str());
                s
            },
            PandocOption::To(f) => {
                let mut s = String::from_str("--to=");
                s.append(f.as_str());
                s
            },
            PandocOption::Csl(p) => {
                let mut s = String::from_str("--csl=");
                s.append(p.as_str());
                s
            },
            PandocOption::LuaFilter(p) => {
                let mut s = String::from_str("--lua-filter=");
                s.append(p.as_str());
                s
            },
            PandocOption::Bibliography(p) => {
                let mut s = String::from_str("--bibliography=");
                s.append(p.as_str());
                s
            },
            PandocOption::IncludeInHeader(p) => {
                let mut s = String::from_str("--include-in-header=");
                s.append(p.as_str());
                s
            },
            PandocOption::Template(p) => {
                let mut s = String::from_str("--template=");
                s.append(p.as_str());
                s
            },
            PandocOption::Title(t) => {
                let mut s = String::from_str("--variable=title:");
                s.append(t.as_str());
                s
            },
            PandocOption::TitleScript(t) => {
                let mut s = String::from_str("--variable=title-script:");
                s.append(t.as_str());
                s
            },
            PandocOption::Author(a) => {
                let mut s = String::from_str("--variable=author:");
                s.append(a.as_str());
                s
            },
            PandocOption::Date(d) => {
                let mut s = String::from_str("--variable=date:");
                s.append(d.as_str());
                s
            },
            PandocOption::DocumentClass(c) => {
                let mut s = String::from_str("--variable=documentclass:");
                s.append(c.as_str());
                s
            },
        }
    }
}

/// A planned invocation of the outside converter: the program path and its
/// options.
pub struct Pandoc {
    /// The program path.
    pub path: String,
    /// The options, in the order they will be handed over.
    pub opts: Vec<PandocOption>,
}

impl Pandoc {
    /// A fresh invocation of the converter found on the search path.
    pub fn new() -> (r: Self)
        ensures
            r.path@ == ("pandoc")@,
            r.opts@ == Seq::<PandocOption>::empty(),
    {
        let opts: Vec<PandocOption> = Vec::new();
        proof {
            assert(opts@ =~= Seq::<PandocOption>::empty());
        }
        Pandoc { path: String::from_str("pandoc"), opts }
    }

    /// Appends one option.
    pub fn push_opt(&mut self, opt: PandocOption)
        ensures
            final(self).path == old(self).path,
            final(self).opts@ == old(self).opts@.push(opt),
    {
        self.opts.push(opt);
    }

    /// The argument strings of all options, in order: what the caller
    /// hands to the converter process.
    pub fn args(&self) -> (r: Vec<String>)
        ensures
            r@.len() == self.opts@.len(),
            forall|i: int|
                0 <= i < self.opts@.len() ==> (#[trigger] r@[i])@ == option_arg(self.opts@[i]),
    {
        let mut out: Vec<String> = Vec::new();
        let mut i: usize = 0;
        while i < self.opts.len()
            invariant
                i <= self.opts@.len(),
                out@.len() == i,
                forall|j: int| 0 <= j < i ==> (#[trigger] out@[j])@ == option_arg(self.opts@[j]),
            decreases self.opts@.len() - i,
        {
            out.push(self.opts[i].to_arg_string());
            i = i + 1;
        }
        out
    }
}

/// An error reported by the outside converter.
pub enum PandocError {
    Missing,
    Io(String),
    App(String),
    Template(String),
    OptionError(String),
    UnknownReader,
    UnknownWriter,
    UnsupportedExtension,
    Citeproc(String),
    Bibliography(String),
    EpubSubdirectory,
    Pdf(String),
    Xml(String),
    PdfProgramNotFound,
    Http(String),
    ShouldNeverHappen,
    Parse,
    Parsec,
    MakePdf,
    SyntaxMap(String),
    Filter(String),
    Lua(String),
    MacroLoop,
    Utf8Decoding,
    UnsupportedCharset,
    CouldNotFindDataFile(String),
    ResourceNotFound(String),
    Other(String),
}

/// The error named by one of the converter's documented exit codes; codes
/// without a documented meaning carry the message as-is.
pub open spec fn error_of_code(code: int, msg: String) -> PandocError {
    if code == 1 {
        PandocError::Io(msg)
    } else if code == 4 {
        PandocError::App(msg)
    } else if code == 5 {
        PandocError::Template(msg)
    } else if code == 6 {
        PandocError::OptionError(msg)
    } else if code == 21 {
        PandocError::UnknownReader
    } else if code == 22 {
        PandocError::UnknownWriter
    } else if code == 23 {
        PandocError::UnsupportedExtension
    } else if code == 24 {
        PandocError::Citeproc(msg)
    } else if code == 25 {
        PandocError::Bibliography(msg)
    } else if code == 31 {
        PandocError::EpubSubdirectory
    } else if code == 43 {
        PandocError::Pdf(msg)
    } else if code == 44 {
        PandocError::Xml(msg)
    } else if code == 47 {
        PandocError::PdfProgramNotFound
    } else if code == 61 {
        PandocError::Http(msg)
    } else if code == 62 {
        PandocError::ShouldNeverHappen
    } else if code == 64 {
        PandocError::Parse
    } else if code == 65 {
        PandocError::Parsec
    } else if code == 66 {
        PandocError::MakePdf
    } else if code == 67 {
        PandocError::SyntaxMap(msg)
    } else if code == 83 {
        PandocError::Filter(msg)
    } else if code == 84 {
        PandocError::Lua(msg)
    } else if code == 91 {
        PandocError::MacroLoop
    } else if code == 92 {
        PandocError::Utf8Decoding
    } else if code == 94 {
        PandocError::UnsupportedCharset
    } else if code == 97 {
        PandocError::CouldNotFindDataFile(msg)
    } else if code == 99 {
        PandocError::ResourceNotFound(msg)
    } else {
        PandocError::Other(msg)
    }
}

impl PandocError {
    /// Decodes one of the converter's exit codes.
    pub fn from_code(code: i32, msg: String) -> (r: Self)
        ensures
            r == error_of_code(code as int, msg),
    {
        match code {
            1 => Self::Io(msg),
            4 => Self::App(msg),
            5 => Self::Template(msg),
            6 => Self::OptionError(msg),
            21 => Self::UnknownReader,
            22 => Self::UnknownWriter,
            23 => Self::UnsupportedExtension,
            24 => Self::Citeproc(msg),
            25 => Self::Bibliography(msg),
            31 => Self::EpubSubdirectory,
            43 => Self::Pdf(msg),
            44 => Self::Xml(msg),
            47 => Self::PdfProgramNotFound,
            61 => Self::Http(msg),
            62 => Self::ShouldNeverHappen,
            64 => Self::Parse,
            65 => Self::Parsec,
            66 => Self::MakePdf,
            67 => Self::SyntaxMap(msg),
            83 => Self::Filter(msg),
            84 => Self::Lua(msg),
            91 => Self::MacroLoop,
            92 => Self::Utf8Decoding,
            94 => Self::UnsupportedCharset,
            97 => Self::CouldNotFindDataFile(msg),
            99 => Self::ResourceNotFound(msg),
            _ => Self::Other(msg),
        }
    }
}

} // verus!
