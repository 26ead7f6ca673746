//! Build manifests: per-document build settings, the field-level merge with
//! the global settings, and the dispatch of requested output formats.

use vstd::prelude::*;

use crate::author::{Author, AuthorV};
use crate::date::Date;
use crate::document::DocumentType;
use crate::utils::{kebab_spec, lemma_deep_view_all};

verus! {

/// A requested output format.
pub enum OutputFormat {
    Pdf,
    Html,
    Latex,
    /// A format identifier this crate does not know.
    Unknown(String),
}

/// Mathematical view of an [`OutputFormat`].
pub enum OutputFormatV {
    Pdf,
    Html,
    Latex,
    Unknown(Seq<char>),
}

impl View for OutputFormat {
    type V = OutputFormatV;

    open spec fn view(&self) -> OutputFormatV {
        match self {
            OutputFormat::Pdf => OutputFormatV::Pdf,
            OutputFormat::Html => OutputFormatV::Html,
            OutputFormat::Latex => OutputFormatV::Latex,
            OutputFormat::Unknown(s) => OutputFormatV::Unknown(s@),
        }
    }
}

impl DeepView for OutputFormat {
    type V = OutputFormatV;

    open spec fn deep_view(&self) -> OutputFormatV {
        self.view()
    }
}

/// The format named by a string: `pdf`, `html` and `tex` are known, any
/// other name is kept as unknown.
pub open spec fn format_of_name(s: Seq<char>) -> OutputFormatV {
    if s == ("pdf")@ {
        OutputFormatV::Pdf
    } else if s == ("html")@ {
        OutputFormatV::Html
    } else if s == ("tex")@ {
        OutputFormatV::Latex
    } else {
        OutputFormatV::Unknown(s)
    }
}

/// The canonical name of a format, used as the output file extension.
pub open spec fn format_name(f: OutputFormatV) -> Seq<char> {
    match f {
        OutputFormatV::Pdf => ("pdf")@,
        OutputFormatV::Html => ("html")@,
        OutputFormatV::Latex => ("latex")@,
        OutputFormatV::Unknown(_) => ("unknown")@,
    }
}

impl OutputFormat {
    /// The canonical name of the format.
    pub fn as_ref(&self) -> (r: &'static str)
        ensures
            r@ == format_name(self@),
    {
        match self {
            OutputFormat::Pdf => "pdf",
            OutputFormat::Html => "html",
            OutputFormat::Latex => "latex",
            OutputFormat::Unknown(_) => "unknown",
        }
    }
}

impl Clone for OutputFormat {
    fn clone(&self) -> (r: Self)
        ensures
            r@ == self@,
    {
        match self {
            OutputFormat::Pdf => OutputFormat::Pdf,
            OutputFormat::Html => OutputFormat::Html,
            OutputFormat::Latex => OutputFormat::Latex,
            OutputFormat::Unknown(s) => OutputFormat::Unknown(s.clone()),
        }
    }
}

impl From<String> for OutputFormat {
    /// Parses a format name.
    fn from(s: String) -> (r: Self) {
        let pdf = String::from_str("pdf");
        let html = String::from_str("html");
        let tex = String::from_str("tex");
        if s.eq(&pdf) {
            OutputFormat::Pdf
        } else if s.eq(&html) {
            OutputFormat::Html
        } else if s.eq(&tex) {
            OutputFormat::Latex
        } else {
            OutputFormat::Unknown(s)
        }
    }
}

impl vstd::std_specs::convert::FromSpecImpl<String> for OutputFormat {
    open spec fn obeys_from_spec() -> bool {
        true
    }

    open spec fn from_spec(s: String) -> Self {
        if s@ == ("pdf")@ {
            OutputFormat::Pdf
        } else if s@ == ("html")@ {
            OutputFormat::Html
        } else if s@ == ("tex")@ {
            OutputFormat::Latex
        } else {
            OutputFormat::Unknown(s)
        }
    }
}

/// One requested output: an optional file name and a format.
pub struct Output {
    /// The output file name; when absent, a slug of the document title is
    /// used.
    pub name: Option<String>,
    /// The requested format.
    pub format: OutputFormat,
}

/// Mathematical view of an [`Output`].
pub struct OutputV {
    pub name: Option<Seq<char>>,
    pub format: OutputFormatV,
}

impl View for Output {
    type V = OutputV;

    open spec fn view(&self) -> OutputV {
        OutputV {
            name: match self.name {
                Some(ref n) => Some(n@),
                None => None,
            },
            format: self.format@,
        }
    }
}

impl DeepView for Output {
    type V = OutputV;

    open spec fn deep_view(&self) -> OutputV {
        self.view()
    }
}

impl Clone for Output {
    fn clone(&self) -> (r: Self)
        ensures
            r@ == self@,
    {
        Output {
            name: match &self.name {
                Some(n) => Some(n.clone()),
                None => None,
            },
            format: self.format.clone(),
        }
    }
}

/// The build settings of one document, or the global defaults: every field
/// may be left unset.
pub struct BuilderManifest {
    /// The requested outputs.
    pub outputs: Vec<Output>,
    /// Whether sectioning commands are numbered.
    pub number_sections: Option<bool>,
    /// The directory where build artifacts are placed.
    pub build_dir: Option<String>,
    /// The locale identifier.
    pub locale: Option<String>,
    /// Whether a title-emission command is inserted into the body.
    pub add_title: Option<bool>,
}

/// Mathematical view of a [`BuilderManifest`].
pub struct BuilderManifestV {
    pub outputs: Seq<OutputV>,
    pub number_sections: Option<bool>,
    pub build_dir: Option<Seq<char>>,
    pub locale: Option<Seq<char>>,
    pub add_title: Option<bool>,
}

impl View for BuilderManifest {
    type V = BuilderManifestV;

    open spec fn view(&self) -> BuilderManifestV {
        BuilderManifestV {
            outputs: self.outputs.deep_view(),
            number_sections: self.number_sections,
            build_dir: match self.build_dir {
                Some(ref d) => Some(d@),
                None => None,
            },
            locale: match self.locale {
                Some(ref l) => Some(l@),
                None => None,
            },
            add_title: self.add_title,
        }
    }
}

/// The field-level merge of a global manifest with a per-document
/// override: the override wins where it is set, and the output lists are
/// concatenated.
pub open spec fn merge_spec(base: BuilderManifestV, other: BuilderManifestV) -> BuilderManifestV {
    BuilderManifestV {
        outputs: base.outputs + other.outputs,
        number_sections: if other.number_sections is Some {
            other.number_sections
        } else {
            base.number_sections
        },
        build_dir: if other.build_dir is Some {
            other.build_dir
        } else {
            base.build_dir
        },
        locale: if other.locale is Some {
            other.locale
        } else {
            base.locale
        },
        add_title: if other.add_title is Some {
            other.add_title
        } else {
            base.add_title
        },
    }
}

impl BuilderManifest {
    /// A manifest with nothing set.
    pub fn new() -> (r: Self)
        ensures
            r@ == (BuilderManifestV {
                outputs: Seq::<OutputV>::empty(),
                number_sections: None,
                build_dir: None,
                locale: None,
                add_title: None,
            }),
    {
        let outputs: Vec<Output> = Vec::new();
        proof {
            assert(outputs.deep_view() =~= Seq::<OutputV>::empty());
        }
        BuilderManifest { outputs, number_sections: None, build_dir: None, locale: None, add_title: None }
    }

    /// Merges this manifest (the global defaults) with a per-document
    /// override, field by field: the override wins where it is set, and
    /// the output lists are concatenated.
    pub fn merge(&self, other: Self) -> (r: Self)
        ensures
            r@ == merge_spec(self@, other@),
    {
        let mut outputs: Vec<Output> = Vec::new();
        let mut i: usize = 0;
        while i < self.outputs.len()
            invariant
                i <= self.outputs@.len(),
                outputs.deep_view().len() == i,
                forall|j: int| 0 <= j < i ==> outputs.deep_view()[j] == self.outputs.deep_view()[j],
            decreases self.outputs@.len() - i,
        {
            proof {
                lemma_deep_view_all(&outputs);
                lemma_deep_view_all(&self.outputs);
            }
            let ghost dv_old = outputs.deep_view();
            let cloned = self.outputs[i].clone();
            outputs.push(cloned);
            proof {
                lemma_deep_view_all(&outputs);
                assert(outputs.deep_view()[i as int] == outputs@[i as int].deep_view());
                assert(outputs@[i as int].deep_view() == self.outputs@[i as int]@);
                assert(self.outputs.deep_view()[i as int] == self.outputs@[i as int]@);
                assert(forall|j: int| 0 <= j < i ==> outputs.deep_view()[j] == dv_old[j]);
                assert forall|j: int| 0 <= j < i + 1 implies outputs.deep_view()[j]
                    == self.outputs.deep_view()[j] by {
                    if j < i {
                        assert(outputs.deep_view()[j] == dv_old[j]);
                        assert(dv_old[j] == self.outputs.deep_view()[j]);
                    }
                }
            }
            i = i + 1;
        }
        let mut k: usize = 0;
        let n: usize = outputs.len();
        while k < other.outputs.len()
            invariant
                k <= other.outputs@.len(),
                n == self.outputs@.len(),
                outputs.deep_view().len() == n + k,
                forall|j: int| 0 <= j < n ==> outputs.deep_view()[j] == self.outputs.deep_view()[j],
                forall|j: int|
                    0 <= j < k ==> outputs.deep_view()[n + j] == other.outputs.deep_view()[j],
            decreases other.outputs@.len() - k,
        {
            proof {
                lemma_deep_view_all(&outputs);
                lemma_deep_view_all(&other.outputs);
            }
            let ghost dv_old = outputs.deep_view();
            let cloned = other.outputs[k].clone();
            outputs.push(cloned);
            proof {
                lemma_deep_view_all(&outputs);
                assert(outputs.deep_view()[n + k as int] == outputs@[n + k as int].deep_view());
                assert(outputs@[n + k as int].deep_view() == other.outputs@[k as int]@);
                assert(other.outputs.deep_view()[k as int] == other.outputs@[k as int]@);
                assert(forall|j: int| 0 <= j < n + k ==> outputs.deep_view()[j] == dv_old[j]);
                assert forall|j: int| 0 <= j < n implies outputs.deep_view()[j]
                    == self.outputs.deep_view()[j] by {
                    assert(outputs.deep_view()[j] == dv_old[j]);
                    assert(dv_old[j] == self.outputs.deep_view()[j]);
                }
                assert forall|j: int| 0 <= j < k + 1 implies outputs.deep_view()[n + j]
                    == other.outputs.deep_view()[j] by {
                    if j < k {
                        assert(outputs.deep_view()[n + j] == dv_old[n + j]);
                        assert(dv_old[n + j] == other.outputs.deep_view()[j]);
                    }
                }
            }
            k = k + 1;
        }
        proof {
            assert(outputs.deep_view() =~= self.outputs.deep_view() + other.outputs.deep_view());
        }
        BuilderManifest {
            outputs,
            number_sections: if other.number_sections.is_some() {
                other.number_sections
            } else {
                self.number_sections
            },
            build_dir: if other.build_dir.is_some() {
                other.build_dir
            } else {
                match &self.build_dir {
                    Some(d) => Some(d.clone()),
                    None => None,
                }
            },
            locale: if other.locale.is_some() {
                other.locale
            } else {
                match &self.locale {
                    Some(l) => Some(l.clone()),
                    None => None,
                }
            },
            add_title: if other.add_title.is_some() {
                other.add_title
            } else {
                self.add_title
            },
        }
    }
}

/// The declaration of one document in a build manifest, with its texts as
/// pre-parsed event streams read in by the caller.
pub struct DocumentManifest {
    /// The document title.
    pub title: String,
    /// The document date, if declared.
    pub date: Option<Date>,
    /// The document authors.
    pub authors: Vec<Author>,
    /// The paths of the document's text bodies.
    pub texts: Vec<String>,
    /// The document type.
    pub document_type: DocumentType,
    /// The document's own build settings.
    pub builder: BuilderManifest,
}

/// An error that occurred while executing a manifest: a requested output
/// format was not recognized.
pub enum ExecutionError {
    UnknownFormat(String),
}

impl ExecutionError {
    /// A human-readable description of the error.
    pub fn message(&self) -> (r: String)
        ensures
            match *self {
                ExecutionError::UnknownFormat(ref f) => r@ == ("unknown output format: ")@ + f@,
            },
    {
        match self {
            ExecutionError::UnknownFormat(f) => {
                let mut out = String::from_str("unknown output format: ");
                out.append(f.as_str());
                out
            },
        }
    }
}

/// The output path of one requested output: the declared name, or a slug
/// of the document title, followed by a dot and the format's canonical
/// extension. An unknown format is the one per-output error; the caller
/// keeps handling sibling outputs.
pub open spec fn output_path_spec(o: OutputV, title: Seq<char>) -> Result<Seq<char>, Seq<char>> {
    match o.format {
        OutputFormatV::Unknown(f) => Err(f),
        _ => Ok(
            (match o.name {
                Some(n) => n,
                None => kebab_spec(title),
            }) + (".")@ + format_name(o.format),
        ),
    }
}

/// Computes the output path of one requested output, or reports the
/// unknown format identifier.
pub fn output_path(output: &Output, title: &str) -> (r: Result<String, ExecutionError>)
    ensures
        match r {
            Ok(p) => output_path_spec(output@, title@) == Ok::<Seq<char>, Seq<char>>(p@),
            Err(ExecutionError::UnknownFormat(f)) => output_path_spec(output@, title@) == Err::<
                Seq<char>,
                Seq<char>,
            >(f@),
        },
{
    match &output.format {
        OutputFormat::Unknown(f) => Err(ExecutionError::UnknownFormat(f.clone())),
        _ => {
            let mut s = match &output.name {
                Some(n) => n.clone(),
                None => crate::utils::kebab(title),
            };
            s.append(".");
            s.append(output.format.as_ref());
            assert(s@ =~= (match output@.name {
                Some(n) => n,
                None => kebab_spec(title@),
            }) + (".")@ + format_name(output@.format));
            Ok(s)
        },
    }
}

} // verus!
