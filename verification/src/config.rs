//! Project-level configuration: metadata, bibliography, build, style and
//! typeset-preamble settings, with their defaults and derived values.

use vstd::prelude::*;

use crate::utils::{kebab, kebab_spec};

verus! {

/// Bibliography settings.
pub struct BibConfig {
    /// The citation style identifier.
    pub csl: String,
    /// The bibliography source, if any.
    pub src: Option<String>,
}

impl Default for BibConfig {
    /// The default citation style with no bibliography source.
    fn default() -> (r: Self)
        ensures
            r.csl@ == ("apa")@,
            r.src is None,
    {
        BibConfig { csl: String::from_str("apa"), src: None }
    }
}

/// Build settings.
pub struct BuildConfig {
    /// The output file name, if fixed; else a slug of the title is used.
    pub filename: Option<String>,
    /// Whether build logs are tidied up afterwards.
    pub tidy_logs: bool,
    /// The default output format name.
    pub output: String,
}

impl Default for BuildConfig {
    /// No fixed filename, tidy logs, and a paginated output format.
    fn default() -> (r: Self)
        ensures
            r.filename is None,
            r.tidy_logs == true,
            r.output@ == ("pdf")@,
    {
        BuildConfig { filename: None, tidy_logs: true, output: String::from_str("pdf") }
    }
}

/// Style settings.
pub struct StyleConfig {
    /// Whether sectioning commands are numbered.
    pub number_sections: bool,
    /// The document class, if overridden.
    pub document_class: Option<String>,
    /// Options handed to the document class, if any.
    pub class_options: Option<Vec<String>>,
}

impl Default for StyleConfig {
    /// Unnumbered sections and no class override.
    fn default() -> (r: Self)
        ensures
            r.number_sections == false,
            r.document_class is None,
            r.class_options is None,
    {
        StyleConfig { number_sections: false, document_class: None, class_options: None }
    }
}

/// Typeset-preamble settings.
pub struct LatexConfig {
    /// Text placed verbatim at the top of the preamble.
    pub head: String,
    /// Additional packages to load.
    pub packages: Vec<String>,
    /// A script applied to the title, if any.
    pub title_script: Option<String>,
}

impl Default for LatexConfig {
    /// An empty preamble.
    fn default() -> (r: Self)
        ensures
            r.head@ == Seq::<char>::empty(),
            r.packages@ == Seq::<String>::empty(),
            r.title_script is None,
    {
        let packages: Vec<String> = Vec::new();
        proof {
            assert(packages@ =~= Seq::<String>::empty());
        }
        LatexConfig { head: String::new(), packages, title_script: None }
    }
}

/// A project configuration.
pub struct Config {
    /// Where the sources live, if configured.
    pub src: Option<String>,
    /// The document title.
    pub title: String,
    /// The author names.
    pub authors: Vec<String>,
    /// The date, as written in the configuration; the literal `now` stands
    /// for the current time, which the caller supplies.
    pub date: Option<String>,
    /// Bibliography settings.
    pub bib: BibConfig,
    /// Build settings.
    pub build: BuildConfig,
    /// Typeset-preamble settings.
    pub latex: LatexConfig,
    /// Style settings.
    pub style: StyleConfig,
}

impl Default for Config {
    /// The default project: a placeholder title and all sub-settings at
    /// their defaults.
    fn default() -> (r: Self)
        ensures
            r.src is None,
            r.title@ == ("Document title")@,
            r.authors@ == Seq::<String>::empty(),
            r.date is None,
            r.bib.csl@ == ("apa")@,
            r.bib.src is None,
            r.build.filename is None,
            r.build.tidy_logs == true,
            r.build.output@ == ("pdf")@,
            r.latex.head@ == Seq::<char>::empty(),
            r.latex.packages@ == Seq::<String>::empty(),
            r.latex.title_script is None,
            r.style.number_sections == false,
            r.style.document_class is None,
            r.style.class_options is None,
    {
        let authors: Vec<String> = Vec::new();
        proof {
            assert(authors@ =~= Seq::<String>::empty());
        }
        Config {
            src: None,
            title: String::from_str("Document title"),
            authors,
            date: None,
            bib: BibConfig::default(),
            build: BuildConfig::default(),
            latex: LatexConfig::default(),
            style: StyleConfig::default(),
        }
    }
}

/// One package-loading line per extra package, in order.
pub open spec fn usepackage_lines(packages: Seq<Seq<char>>) -> Seq<char>
    decreases packages.len(),
{
    if packages.len() == 0 {
        Seq::empty()
    } else {
        ("\\usepackage{")@ + packages[0] + ("}\n")@ + usepackage_lines(packages.drop_first())
    }
}

/// Extending the package list by one package appends its loading line.
pub proof fn lemma_usepackage_snoc(packages: Seq<Seq<char>>, i: int)
    requires
        0 <= i < packages.len(),
    ensures
        usepackage_lines(packages.take(i + 1)) == usepackage_lines(packages.take(i)) + (
        ("\\usepackage{")@ + packages[i] + ("}\n")@),
    decreases i,
{
    if i == 0 {
        assert(packages.take(1).drop_first() =~= Seq::<Seq<char>>::empty());
        assert(packages.take(0) =~= Seq::<Seq<char>>::empty());
        assert(packages.take(1)[0] == packages[0]);
        assert(usepackage_lines(Seq::<Seq<char>>::empty()) == Seq::<char>::empty());
        assert(usepackage_lines(packages.take(1)) == ("\\usepackage{")@ + packages.take(1)[0] + (
        "}\n")@ + usepackage_lines(packages.take(1).drop_first()));
        assert(usepackage_lines(packages.take(1)) =~= ("\\usepackage{")@ + packages[0] + ("}\n")@);
        assert(usepackage_lines(packages.take(0)) + (("\\usepackage{")@ + packages[0] + ("}\n")@)
            =~= ("\\usepackage{")@ + packages[0] + ("}\n")@);
    } else {
        let t = packages.drop_first();
        lemma_usepackage_snoc(t, i - 1);
        assert(packages.take(i + 1).drop_first() =~= t.take(i));
        assert(packages.take(i).drop_first() =~= t.take(i - 1));
        assert(packages.take(i + 1)[0] == packages[0]);
        assert(packages.take(i)[0] == packages[0]);
        let j = i - 1;
        assert(usepackage_lines(packages.take(i)) + (("\\usepackage{")@ + packages[i] + ("}\n")@)
            =~= ("\\usepackage{")@ + packages[0] + ("}\n")@ + (usepackage_lines(t.take(j)) + ((
        "\\usepackage{")@ + t[j] + ("}\n")@)));
    }
}

/// The extra preamble derived from the settings: the verbatim head text
/// followed by one loading line per extra package; `None` when both are
/// empty.
pub open spec fn latex_header_spec(head: Seq<char>, packages: Seq<Seq<char>>) -> Option<Seq<char>> {
    if head.len() == 0 && packages.len() == 0 {
        None
    } else {
        Some(head + usepackage_lines(packages))
    }
}

impl Config {
    /// The extra typeset preamble these settings ask for, if any.
    pub fn latex_header(&self) -> (r: Option<String>)
        ensures
            match r {
                Some(s) => latex_header_spec(self.latex.head@, self.latex.packages.deep_view())
                    == Some(s@),
                None => latex_header_spec(self.latex.head@, self.latex.packages.deep_view())
                    is None,
            },
    {
        let ghost ps = self.latex.packages.deep_view();
        proof {
            crate::utils::lemma_deep_view_all(&self.latex.packages);
        }
        if self.latex.head.as_str().is_empty() && self.latex.packages.len() == 0 {
            return None;
        }
        let mut header = self.latex.head.clone();
        let ghost head_v = self.latex.head@;
        let mut i: usize = 0;
        proof {
            assert(ps.take(0) =~= Seq::<Seq<char>>::empty());
            assert(header@ =~= head_v + usepackage_lines(ps.take(0)));
        }
        while i < self.latex.packages.len()
            invariant
                ps == self.latex.packages.deep_view(),
                ps.len() == self.latex.packages@.len(),
                i <= self.latex.packages@.len(),
                header@ == head_v + usepackage_lines(ps.take(i as int)),
            decreases self.latex.packages@.len() - i,
        {
            proof {
                lemma_usepackage_snoc(ps, i as int);
                crate::utils::lemma_deep_view_all(&self.latex.packages);
            }
            let ghost prev = header@;
            header.append("\\usepackage{");
            header.append(self.latex.packages[i].as_str());
            header.append("}\n");
            proof {
                assert(header@ =~= prev + (("\\usepackage{")@ + ps[i as int] + ("}\n")@));
            }
            i = i + 1;
        }
        proof {
            assert(ps.take(ps.len() as int) =~= ps);
        }
        Some(header)
    }

    /// The output file name: the fixed name from the build settings, or a
    /// slug of the title.
    pub fn filename(&self) -> (r: String)
        ensures
            r@ == (match self.build.filename {
                Some(ref f) => f@,
                None => kebab_spec(self.title@),
            }),
    {
        match &self.build.filename {
            Some(f) => f.clone(),
            None => kebab(self.title.as_str()),
        }
    }

    /// The date to display: the configured text, with the literal `now`
    /// standing for the caller-supplied current time, and nothing when no
    /// date is configured.
    pub fn date_string(&self, now: &str) -> (r: String)
        ensures
            r@ == (match self.date {
                Some(ref d) => if d@ == ("now")@ {
                    now@
                } else {
                    d@
                },
                None => Seq::<char>::empty(),
            }),
    {
        match &self.date {
            Some(d) => {
                let now_tag = String::from_str("now");
                if d.eq(&now_tag) {
                    String::from_str(now)
                } else {
                    d.clone()
                }
            },
            None => String::new(),
        }
    }
}

} // verus!
