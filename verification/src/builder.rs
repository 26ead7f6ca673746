//! Document assembly: turns a [`Document`](crate::document::Document) and the
//! builder's settings into one complete output buffer per target format.
//!
//! Every text body is rendered independently — in parallel, through an
//! outside worker pool whose collection order is pinned to source order —
//! and the concatenation is wrapped with the format's header and footer.

use vstd::prelude::*;

use rayon::iter::IntoParallelRefIterator;
use rayon::iter::ParallelIterator;

use crate::adapter::{math_events, substitute_math};
use crate::author::AuthorV;
use crate::date::{Date, date_wf, format_with_locale_spec};
use crate::document::{Document, DocumentV, document_type_name, document_wf};
use crate::event::{Event, EventV};
use crate::manifest::BuilderManifest;
use crate::utils::lemma_deep_view_all;

verus! {

/// Struct responsible for building a document.
///
/// It is usually constructed by using the [`Builder::default`] method.
pub struct Builder {
    /// Whether sectioning commands are numbered.
    pub number_sections: bool,
    /// The directory where build artifacts are placed, if any.
    pub build_dir: Option<String>,
    /// The locale used for presentation (dates, language declarations).
    pub locale: String,
    /// Whether a title-emission command is inserted into the body.
    pub add_title: bool,
    /// Whether the hypertext output is wrapped in a standalone document
    /// shell.
    pub standalone: bool,
}

impl Default for Builder {
    /// The default build settings: unnumbered sections, the `en_US`
    /// locale, a standalone shell, and no title command.
    fn default() -> (r: Self)
        ensures
            r.number_sections == false,
            r.build_dir is None,
            r.locale@ == ("en_US")@,
            r.add_title == false,
            r.standalone == true,
    {
        Builder {
            number_sections: false,
            build_dir: None,
            locale: String::from_str("en_US"),
            add_title: false,
            standalone: true,
        }
    }
}

impl Builder {
    /// Derives build settings from a merged manifest, filling unset fields
    /// with the defaults.
    pub fn from_manifest(manifest: &BuilderManifest) -> (r: Self)
        ensures
            r.number_sections == (match manifest@.number_sections {
                Some(b) => b,
                None => false,
            }),
            (match manifest@.build_dir {
                Some(d) => r.build_dir matches Some(rd) && rd@ == d,
                None => r.build_dir is None,
            }),
            r.locale@ == (match manifest@.locale {
                Some(l) => l,
                None => ("en_US")@,
            }),
            r.add_title == (match manifest@.add_title {
                Some(b) => b,
                None => false,
            }),
            r.standalone == true,
    {
        Builder {
            number_sections: match manifest.number_sections {
                Some(b) => b,
                None => false,
            },
            build_dir: match &manifest.build_dir {
                Some(d) => Some(d.clone()),
                None => None,
            },
            locale: match &manifest.locale {
                Some(l) => l.clone(),
                None => String::from_str("en_US"),
            },
            add_title: match &manifest.add_title {
                Some(b) => *b,
                None => false,
            },
            standalone: true,
        }
    }

    /// Set whether to number sections in the built document.
    pub fn number_sections(&mut self, number_sections: bool)
        ensures
            *final(self) == (Builder { number_sections, ..*old(self) }),
    {
        self.number_sections = number_sections;
    }

    /// Set the directory where any build artifacts will be placed (e.g.
    /// auxiliary files and/or logs). If not set, only the output is
    /// written to disk.
    pub fn build_dir(&mut self, build_dir: String)
        ensures
            *final(self) == (Builder { build_dir: Some(build_dir), ..*old(self) }),
    {
        self.build_dir = Some(build_dir);
    }

    /// Sets the locale for the document.
    pub fn locale(&mut self, locale: String)
        ensures
            *final(self) == (Builder { locale, ..*old(self) }),
    {
        self.locale = locale;
    }

    /// Set whether the hypertext output carries a standalone document
    /// shell.
    pub fn standalone(&mut self, standalone: bool)
        ensures
            *final(self) == (Builder { standalone, ..*old(self) }),
    {
        self.standalone = standalone;
    }

    /// Set whether a title-emission command is inserted into the body.
    pub fn add_title(&mut self, add_title: bool)
        ensures
            *final(self) == (Builder { add_title, ..*old(self) }),
    {
        self.add_title = add_title;
    }
}

/// The language declared to the typesetting engine: the portion of the
/// locale identifier before any regional subtag.
pub open spec fn language_of(locale: Seq<char>) -> Seq<char> {
    locale.take(underscore_at(locale))
}

/// The index of the first `_` in a locale identifier, or its length.
pub open spec fn underscore_at(locale: Seq<char>) -> int
    decreases locale.len(),
{
    if locale.len() == 0 {
        0
    } else if locale[0] == '_' {
        0
    } else {
        1 + underscore_at(locale.drop_first())
    }
}

/// The first `_` really is first: everything before [`underscore_at`] is
/// not an underscore, and the index is in range.
pub proof fn lemma_underscore_at(locale: Seq<char>)
    ensures
        0 <= underscore_at(locale) <= locale.len(),
        forall|j: int| 0 <= j < underscore_at(locale) ==> locale[j] != '_',
        underscore_at(locale) < locale.len() ==> locale[underscore_at(locale)] == '_',
    decreases locale.len(),
{
    if locale.len() == 0 {
    } else if locale[0] == '_' {
    } else {
        lemma_underscore_at(locale.drop_first());
        let t = locale.drop_first();
        assert(forall|j: int| 0 <= j < underscore_at(t) ==> t[j] != '_');
        assert(forall|j: int| 1 <= j < underscore_at(locale) ==> locale[j] == t[j - 1]);
    }
}

/// Extracts the language part of a locale identifier: everything before
/// the first `_`.
fn language_part(locale: &str) -> (r: String)
    ensures
        r@ == language_of(locale@),
{
    let n: usize = locale.unicode_len();
    let mut i: usize = 0;
    proof {
        lemma_underscore_at(locale@);
    }
    while i < n
        invariant
            i <= n,
            n == locale@.len(),
            forall|j: int| 0 <= j < i ==> locale@[j] != '_',
        decreases n - i,
    {
        let c = locale.get_char(i);
        if c == '_' {
            proof {
                lemma_underscore_prefix(locale@, i as int);
            }
            let part = locale.substring_char(0, i);
            return String::from_str(part);
        }
        i = i + 1;
    }
    proof {
        lemma_underscore_prefix(locale@, n as int);
        assert(locale@.take(n as int) =~= locale@);
    }
    String::from_str(locale)
}

/// If no underscore appears before `i`, and either `i` is the whole string
/// or position `i` holds one, then `i` is where the first underscore sits.
pub proof fn lemma_underscore_prefix(locale: Seq<char>, i: int)
    requires
        0 <= i <= locale.len(),
        forall|j: int| 0 <= j < i ==> locale[j] != '_',
        i < locale.len() ==> locale[i] == '_',
    ensures
        underscore_at(locale) == i,
    decreases i,
{
    if locale.len() == 0 {
    } else if i == 0 {
    } else {
        let t = locale.drop_first();
        assert(forall|j: int| 0 <= j < i - 1 ==> t[j] == locale[j + 1] && t[j] != '_');
        assert(i - 1 < t.len() ==> t[i - 1] == locale[i]);
        lemma_underscore_prefix(t, i - 1);
    }
}

/// The fixed package declarations of the typeset preamble.
pub open spec fn packages_text() -> Seq<char> {
    (
    "\\usepackage{amsmath}\n\\usepackage{authblk}\n\\usepackage{bookmark}\n\\usepackage{graphicx}\n\\usepackage{hyperref}\n\\usepackage{microtype}\n\\usepackage{parskip}\n\\usepackage{soul}\n\\usepackage{titling}\n\\usepackage{upquote}\n\\usepackage{xurl}\n\\usepackage{xcolor}\n\\usepackage{lmodern}\n\\usepackage{unicode-math}\n\\usepackage{polyglossia}\n\\usepackage{pifont}\n\\usepackage{enumitem}\n\\usepackage{subcaption}\n")@
}

/// The fixed command definitions and settings of the typeset preamble.
pub open spec fn preamble_text() -> Seq<char> {
    (
    "\n\\defaultfontfeatures{Scale=MatchLowercase}\n\\defaultfontfeatures[\\rmfamily]{Ligatures=TeX,Scale=1}\n\n% Task lists\n\\newcommand{\\checkbox}{\\text{\\fboxsep=-.15pt\\fbox{\\rule{0pt}{1.5ex}\\rule{1.5ex}{0pt}}}}\n\\newcommand{\\done}{\\rlap{\\checkbox}{\\raisebox{2pt}{\\large\\hspace{1pt}\\ding{51}}}\\hspace{-2.5pt}}\n\\newlist{tasklist}{itemize}{2}\n\\setlist[tasklist]{label=\\checkbox}\n\n% Other settings\n\\UseMicrotypeSet[protrusion]{basicmath}\n\\setlength{\\emergencystretch}{3em}\n\\providecommand{\\tightlist}{%\n  \\setlength{\\itemsep}{0pt}\\setlength{\\parskip}{0pt}}\n\\urlstyle{same}\n\\hypersetup{\n  colorlinks=true,\n  allcolors=.,\n  urlcolor=blue,\n  linktocpage,\n  pdfcreator={djoc}}\n")@
}

/// The embedded stylesheet of the standalone hypertext shell.
pub open spec fn style_text() -> Seq<char> {
    ("body{max-width:46rem;margin:auto;padding:1rem;font-family:sans-serif;}\n")@
}

/// The author command emitted for one author: the name, and the email —
/// when known — inside a thanks/mailto wrapper.
pub open spec fn author_line(a: AuthorV) -> Seq<char> {
    ("\\author{")@ + a.name + (match a.email {
        Some(e) => (" \\thanks{\\href{mailto:")@ + e + ("}{")@ + e + ("}}")@,
        None => Seq::<char>::empty(),
    }) + ("}\n")@
}

/// The author commands of a list of authors, in order.
pub open spec fn author_lines(authors: Seq<AuthorV>) -> Seq<char>
    decreases authors.len(),
{
    if authors.len() == 0 {
        Seq::empty()
    } else {
        author_line(authors[0]) + author_lines(authors.drop_first())
    }
}

/// The author block of the header: the empty-author placeholder commands
/// when there is no author, else one author command per author.
pub open spec fn authors_block(authors: Seq<AuthorV>) -> Seq<char> {
    if authors.len() == 0 {
        ("\\preauthor{}\\author{}\\postauthor{}\n")@
    } else {
        author_lines(authors)
    }
}

/// The date command of the header: the locale-formatted date, or balanced
/// empty placeholders when the date is absent or the locale unknown.
pub open spec fn date_block(d: Date, locale: Seq<char>) -> Seq<char> {
    match format_with_locale_spec(d, locale) {
        Some(s) => ("\\date{")@ + s + ("}\n")@,
        None => ("\\predate{}\\date{}\\postdate{}\n")@,
    }
}

/// The concatenation, in source order, of the typeset renderings of the
/// text bodies: by definition the sequential rendering of the streams.
pub open spec fn latex_texts(texts: Seq<Seq<EventV>>, number_sections: bool) -> Seq<char>
    decreases texts.len(),
{
    if texts.len() == 0 {
        Seq::empty()
    } else {
        crate::latex::body_output(texts[0], number_sections) + latex_texts(
            texts.drop_first(),
            number_sections,
        )
    }
}

/// Extending the text list by one body appends that body's rendering.
pub proof fn lemma_latex_texts_snoc(texts: Seq<Seq<EventV>>, i: int, number_sections: bool)
    requires
        0 <= i < texts.len(),
    ensures
        latex_texts(texts.take(i + 1), number_sections) == latex_texts(
            texts.take(i),
            number_sections,
        ) + crate::latex::body_output(texts[i], number_sections),
    decreases i,
{
    if i == 0 {
        assert(texts.take(1).drop_first() =~= Seq::<Seq<EventV>>::empty());
        assert(texts.take(0) =~= Seq::<Seq<EventV>>::empty());
        assert(texts.take(1)[0] == texts[0]);
        assert(latex_texts(Seq::<Seq<EventV>>::empty(), number_sections) == Seq::<char>::empty());
        assert(latex_texts(texts.take(1), number_sections) == crate::latex::body_output(
            texts.take(1)[0],
            number_sections,
        ) + latex_texts(texts.take(1).drop_first(), number_sections));
        assert(latex_texts(texts.take(1), number_sections) =~= crate::latex::body_output(
            texts[0],
            number_sections,
        ));
        assert(latex_texts(texts.take(0), number_sections) + crate::latex::body_output(
            texts[0],
            number_sections,
        ) =~= crate::latex::body_output(texts[0], number_sections));
    } else {
        let t = texts.drop_first();
        lemma_latex_texts_snoc(t, i - 1, number_sections);
        assert(texts.take(i + 1).drop_first() =~= t.take(i));
        assert(texts.take(i).drop_first() =~= t.take(i - 1));
        assert(texts.take(i + 1)[0] == texts[0]);
        assert(texts.take(i)[0] == texts[0]);
        let j = i - 1;
        assert(latex_texts(texts.take(i), number_sections) + crate::latex::body_output(
            texts[i],
            number_sections,
        ) =~= crate::latex::body_output(texts[0], number_sections) + (latex_texts(
            t.take(j),
            number_sections,
        ) + crate::latex::body_output(t[j], number_sections)));
    }
}

/// The hypertext rendering of one text body: math regions substituted,
/// then rendered.
pub open spec fn html_text(es: Seq<EventV>) -> Seq<char> {
    crate::html::body_output(math_events(es, None))
}

/// The concatenation, in source order, of the hypertext renderings of the
/// text bodies: by definition the sequential rendering of the streams.
pub open spec fn html_texts(texts: Seq<Seq<EventV>>) -> Seq<char>
    decreases texts.len(),
{
    if texts.len() == 0 {
        Seq::empty()
    } else {
        html_text(texts[0]) + html_texts(texts.drop_first())
    }
}

/// Extending the text list by one body appends that body's rendering.
pub proof fn lemma_html_texts_snoc(texts: Seq<Seq<EventV>>, i: int)
    requires
        0 <= i < texts.len(),
    ensures
        html_texts(texts.take(i + 1)) == html_texts(texts.take(i)) + html_text(texts[i]),
    decreases i,
{
    if i == 0 {
        assert(texts.take(1).drop_first() =~= Seq::<Seq<EventV>>::empty());
        assert(texts.take(0) =~= Seq::<Seq<EventV>>::empty());
        assert(texts.take(1)[0] == texts[0]);
        assert(html_texts(Seq::<Seq<EventV>>::empty()) == Seq::<char>::empty());
        assert(html_texts(texts.take(1)) == html_text(texts.take(1)[0]) + html_texts(
            texts.take(1).drop_first(),
        ));
        assert(html_texts(texts.take(1)) =~= html_text(texts[0]));
        assert(html_texts(texts.take(0)) + html_text(texts[0]) =~= html_text(texts[0]));
    } else {
        let t = texts.drop_first();
        lemma_html_texts_snoc(t, i - 1);
        assert(texts.take(i + 1).drop_first() =~= t.take(i));
        assert(texts.take(i).drop_first() =~= t.take(i - 1));
        assert(texts.take(i + 1)[0] == texts[0]);
        assert(texts.take(i)[0] == texts[0]);
        let j = i - 1;
        assert(html_texts(texts.take(i)) + html_text(texts[i]) =~= html_text(texts[0]) + (
        html_texts(t.take(j)) + html_text(t[j])));
    }
}

/// The complete typeset-markup source of a document: class and package
/// declarations, language, title, date and author commands, and the body
/// wrapped in the document environment.
pub open spec fn latex_document(
    doc: DocumentV,
    number_sections: bool,
    locale: Seq<char>,
    add_title: bool,
) -> Seq<char> {
    ("\\documentclass{")@ + document_type_name(doc.document_type) + ("}\n")@ + packages_text()
        + preamble_text() + ("\\setdefaultlanguage{")@ + language_of(locale) + ("}\n")@ + (
    "\\title{")@ + crate::latex::escape(doc.title) + ("}\n")@ + date_block(doc.date, locale)
        + authors_block(doc.authors) + ("\\begin{document}\n")@ + (if add_title {
        ("\\maketitle\n")@
    } else {
        Seq::<char>::empty()
    }) + latex_texts(doc.texts, number_sections) + ("\\end{document}\n")@
}

/// The complete hypertext source of a document: the rendered bodies,
/// wrapped in a minimal standalone shell when requested.
pub open spec fn html_document(doc: DocumentV, standalone: bool) -> Seq<char> {
    if standalone {
        ("<!DOCTYPE html>\n<html lang=\"en\">\n<head>\n<meta charset=\"utf-8\">\n<title>")@
            + crate::html::escape(doc.title) + ("</title>\n<style>\n")@ + style_text() + (
        "</style>\n</head>\n<body>\n")@ + html_texts(doc.texts) + ("</body>\n</html>\n")@
    } else {
        html_texts(doc.texts)
    }
}

/// Renders one text body for hypertext output: math substitution, then
/// rendering.
pub fn render_html_text(events: &Vec<Event>) -> (r: String)
    ensures
        r@ == html_text(events.deep_view()),
{
    let substituted = substitute_math(events);
    crate::html::render_text(&substituted)
}

/// Relies on rayon's `par_iter`, `map` and `collect`: collecting an
/// indexed parallel map into a `Vec` yields exactly one result per input,
/// in input order; each result comes from the verified per-text renderer.
#[verifier::external_body]
fn par_render_latex(texts: &Vec<Vec<Event>>, number_sections: bool) -> (r: Vec<String>)
    ensures
        r@.len() == texts@.len(),
        forall|i: int|
            0 <= i < texts@.len() ==> (#[trigger] r@[i])@ == crate::latex::body_output(
                texts.deep_view()[i],
                number_sections,
            ),
{
    texts.par_iter().map(|t| crate::latex::render_text(t, number_sections)).collect()
}

/// Relies on rayon's `par_iter`, `map` and `collect`: collecting an
/// indexed parallel map into a `Vec` yields exactly one result per input,
/// in input order; each result comes from the verified per-text renderer.
#[verifier::external_body]
fn par_render_html(texts: &Vec<Vec<Event>>) -> (r: Vec<String>)
    ensures
        r@.len() == texts@.len(),
        forall|i: int|
            0 <= i < texts@.len() ==> (#[trigger] r@[i])@ == html_text(texts.deep_view()[i]),
{
    texts.par_iter().map(render_html_text).collect()
}

/// Appends the renderings of all text bodies, in source order: the result
/// equals the sequential rendering of the same streams in the same order,
/// whatever the parallel completion order was.
pub fn append_latex_texts(out: &mut String, texts: &Vec<Vec<Event>>, number_sections: bool)
    ensures
        final(out)@ == old(out)@ + latex_texts(texts.deep_view(), number_sections),
{
    let ghost ts = texts.deep_view();
    let parts = par_render_latex(texts, number_sections);
    proof {
        lemma_deep_view_all(texts);
        assert(ts.take(0) =~= Seq::<Seq<EventV>>::empty());
        assert(out@ =~= out@ + Seq::<char>::empty());
    }
    let mut i: usize = 0;
    while i < parts.len()
        invariant
            ts == texts.deep_view(),
            ts.len() == texts@.len(),
            parts@.len() == texts@.len(),
            forall|j: int|
                0 <= j < texts@.len() ==> (#[trigger] parts@[j])@ == crate::latex::body_output(
                    ts[j],
                    number_sections,
                ),
            i <= parts@.len(),
            out@ == old(out)@ + latex_texts(ts.take(i as int), number_sections),
        decreases parts@.len() - i,
    {
        proof {
            lemma_latex_texts_snoc(ts, i as int, number_sections);
        }
        out.append(parts[i].as_str());
        i = i + 1;
    }
    proof {
        assert(ts.take(ts.len() as int) =~= ts);
    }
}

/// Appends the renderings of all text bodies, in source order: the result
/// equals the sequential rendering of the same streams in the same order,
/// whatever the parallel completion order was.
pub fn append_html_texts(out: &mut String, texts: &Vec<Vec<Event>>)
    ensures
        final(out)@ == old(out)@ + html_texts(texts.deep_view()),
{
    let ghost ts = texts.deep_view();
    let parts = par_render_html(texts);
    proof {
        lemma_deep_view_all(texts);
        assert(ts.take(0) =~= Seq::<Seq<EventV>>::empty());
        assert(out@ =~= out@ + Seq::<char>::empty());
    }
    let mut i: usize = 0;
    while i < parts.len()
        invariant
            ts == texts.deep_view(),
            ts.len() == texts@.len(),
            parts@.len() == texts@.len(),
            forall|j: int|
                0 <= j < texts@.len() ==> (#[trigger] parts@[j])@ == html_text(ts[j]),
            i <= parts@.len(),
            out@ == old(out)@ + html_texts(ts.take(i as int)),
        decreases parts@.len() - i,
    {
        proof {
            lemma_html_texts_snoc(ts, i as int);
        }
        out.append(parts[i].as_str());
        i = i + 1;
    }
    proof {
        assert(ts.take(ts.len() as int) =~= ts);
    }
}

/// Appends the author block: placeholders for no author, else one author
/// command per author.
fn append_authors_block(out: &mut String, authors: &Vec<crate::author::Author>)
    ensures
        final(out)@ == old(out)@ + authors_block(authors.deep_view()),
{
    let ghost avs = authors.deep_view();
    proof {
        lemma_deep_view_all(authors);
    }
    if authors.len() == 0 {
        out.append("\\preauthor{}\\author{}\\postauthor{}\n");
        assert(out@ =~= old(out)@ + authors_block(avs));
        return ;
    }
    let mut i: usize = 0;
    proof {
        assert(avs.take(0) =~= Seq::<AuthorV>::empty());
        assert(out@ =~= out@ + Seq::<char>::empty());
    }
    while i < authors.len()
        invariant
            avs == authors.deep_view(),
            avs.len() == authors@.len(),
            i <= authors@.len(),
            out@ == old(out)@ + author_lines(avs.take(i as int)),
        decreases authors@.len() - i,
    {
        proof {
            lemma_author_lines_snoc(avs, i as int);
            lemma_deep_view_all(authors);
        }
        let ghost prev = out@;
        let a = &authors[i];
        out.append("\\author{");
        out.append(a.name.as_str());
        match &a.email {
            Some(e) => {
                out.append(" \\thanks{\\href{mailto:");
                out.append(e.as_str());
                out.append("}{");
                out.append(e.as_str());
                out.append("}}");
            },
            None => (),
        }
        out.append("}\n");
        proof {
            assert(out@ =~= prev + author_line(avs[i as int]));
        }
        i = i + 1;
    }
    proof {
        assert(avs.take(avs.len() as int) =~= avs);
        assert(avs.len() > 0);
    }
}

/// Extending the author list by one author appends that author's command.
pub proof fn lemma_author_lines_snoc(authors: Seq<AuthorV>, i: int)
    requires
        0 <= i < authors.len(),
    ensures
        author_lines(authors.take(i + 1)) == author_lines(authors.take(i)) + author_line(
            authors[i],
        ),
    decreases i,
{
    if i == 0 {
        assert(authors.take(1).drop_first() =~= Seq::<AuthorV>::empty());
        assert(authors.take(0) =~= Seq::<AuthorV>::empty());
        assert(authors.take(1)[0] == authors[0]);
        assert(author_lines(Seq::<AuthorV>::empty()) == Seq::<char>::empty());
        assert(author_lines(authors.take(1)) == author_line(authors.take(1)[0]) + author_lines(
            authors.take(1).drop_first(),
        ));
        assert(author_lines(authors.take(1)) =~= author_line(authors[0]));
        assert(author_lines(authors.take(0)) + author_line(authors[0]) =~= author_line(
            authors[0],
        ));
    } else {
        let t = authors.drop_first();
        lemma_author_lines_snoc(t, i - 1);
        assert(authors.take(i + 1).drop_first() =~= t.take(i));
        assert(authors.take(i).drop_first() =~= t.take(i - 1));
        assert(authors.take(i + 1)[0] == authors[0]);
        assert(authors.take(i)[0] == authors[0]);
        let j = i - 1;
        assert(author_lines(authors.take(i)) + author_line(authors[i]) =~= author_line(authors[0])
            + (author_lines(t.take(j)) + author_line(t[j])));
    }
}

/// Appends the date command or its balanced empty placeholders.
fn append_date_block(out: &mut String, date: &Date, locale: &str)
    requires
        date_wf(*date),
    ensures
        final(out)@ == old(out)@ + date_block(*date, locale@),
{
    match date.format_with_locale(locale) {
        Some(s) => {
            out.append("\\date{");
            out.append(s.as_str());
            out.append("}\n");
            assert(out@ =~= old(out)@ + date_block(*date, locale@));
        },
        None => {
            out.append("\\predate{}\\date{}\\postdate{}\n");
            assert(out@ =~= old(out)@ + date_block(*date, locale@));
        },
    }
}

impl Builder {
    /// Build the document as typeset markup.
    ///
    /// The returned buffer is exactly [`latex_document`] of the document
    /// and these settings; the text bodies are rendered in parallel and
    /// reassembled in source order.
    pub fn write_latex(&self, document: &Document) -> (r: String)
        requires
            document_wf(document@),
        ensures
            r@ == latex_document(document@, self.number_sections, self.locale@, self.add_title),
    {
        let mut out = String::new();
        out.append("\\documentclass{");
        out.append(document.document_type.as_ref());
        out.append("}\n");
        out.append(
            "\\usepackage{amsmath}\n\\usepackage{authblk}\n\\usepackage{bookmark}\n\\usepackage{graphicx}\n\\usepackage{hyperref}\n\\usepackage{microtype}\n\\usepackage{parskip}\n\\usepackage{soul}\n\\usepackage{titling}\n\\usepackage{upquote}\n\\usepackage{xurl}\n\\usepackage{xcolor}\n\\usepackage{lmodern}\n\\usepackage{unicode-math}\n\\usepackage{polyglossia}\n\\usepackage{pifont}\n\\usepackage{enumitem}\n\\usepackage{subcaption}\n",
        );
        out.append(
            "\n\\defaultfontfeatures{Scale=MatchLowercase}\n\\defaultfontfeatures[\\rmfamily]{Ligatures=TeX,Scale=1}\n\n% Task lists\n\\newcommand{\\checkbox}{\\text{\\fboxsep=-.15pt\\fbox{\\rule{0pt}{1.5ex}\\rule{1.5ex}{0pt}}}}\n\\newcommand{\\done}{\\rlap{\\checkbox}{\\raisebox{2pt}{\\large\\hspace{1pt}\\ding{51}}}\\hspace{-2.5pt}}\n\\newlist{tasklist}{itemize}{2}\n\\setlist[tasklist]{label=\\checkbox}\n\n% Other settings\n\\UseMicrotypeSet[protrusion]{basicmath}\n\\setlength{\\emergencystretch}{3em}\n\\providecommand{\\tightlist}{%\n  \\setlength{\\itemsep}{0pt}\\setlength{\\parskip}{0pt}}\n\\urlstyle{same}\n\\hypersetup{\n  colorlinks=true,\n  allcolors=.,\n  urlcolor=blue,\n  linktocpage,\n  pdfcreator={djoc}}\n",
        );
        out.append("\\setdefaultlanguage{");
        let lang = language_part(self.locale.as_str());
        out.append(lang.as_str());
        out.append("}\n");
        out.append("\\title{");
        crate::latex::write_escaped(&mut out, document.title.as_str());
        out.append("}\n");
        append_date_block(&mut out, &document.date, self.locale.as_str());
        append_authors_block(&mut out, &document.authors);
        out.append("\\begin{document}\n");
        if self.add_title {
            out.append("\\maketitle\n");
        }
        append_latex_texts(&mut out, &document.texts, self.number_sections);
        out.append("\\end{document}\n");
        assert(out@ =~= latex_document(
            document@,
            self.number_sections,
            self.locale@,
            self.add_title,
        ));
        out
    }

    /// Build the document as hypertext markup.
    ///
    /// The returned buffer is exactly [`html_document`] of the document
    /// and these settings; the text bodies are rendered in parallel and
    /// reassembled in source order.
    pub fn write_html(&self, document: &Document) -> (r: String)
        ensures
            r@ == html_document(document@, self.standalone),
    {
        let mut out = String::new();
        if self.standalone {
            out.append(
                "<!DOCTYPE html>\n<html lang=\"en\">\n<head>\n<meta charset=\"utf-8\">\n<title>",
            );
            crate::html::write_escaped(&mut out, document.title.as_str());
            out.append("</title>\n<style>\n");
            out.append("body{max-width:46rem;margin:auto;padding:1rem;font-family:sans-serif;}\n");
            out.append("</style>\n</head>\n<body>\n");
        }
        append_html_texts(&mut out, &document.texts);
        if self.standalone {
            out.append("</body>\n</html>\n");
        }
        assert(out@ =~= html_document(document@, self.standalone));
        out
    }
}

/// A document with no authors gets the balanced empty placeholder
/// commands; a lone author without email gets exactly one plain author
/// command with no thanks wrapper; an author with an email gets the
/// mailto wrapper.
pub proof fn lemma_author_block_forms(authors: Seq<AuthorV>, name: Seq<char>, email: Seq<char>)
    ensures
        authors.len() == 0 ==> authors_block(authors) == (
        "\\preauthor{}\\author{}\\postauthor{}\n")@,
        authors_block(seq![AuthorV { name, email: None, affiliation: None }]) == ("\\author{")@
            + name + ("}\n")@,
        authors_block(seq![AuthorV { name, email: Some(email), affiliation: None }]) == (
        "\\author{")@ + name + (" \\thanks{\\href{mailto:")@ + email + ("}{")@ + email + ("}}")@ + (
        "}\n")@,
{
    let plain = AuthorV { name, email: None, affiliation: None };
    let mailed = AuthorV { name, email: Some(email), affiliation: None };
    assert(seq![plain].drop_first() =~= Seq::<AuthorV>::empty());
    assert(seq![plain].drop_first() == Seq::<AuthorV>::empty());
    assert(seq![mailed].drop_first() =~= Seq::<AuthorV>::empty());
    assert(seq![mailed].drop_first() == Seq::<AuthorV>::empty());
    assert(author_lines(Seq::<AuthorV>::empty()) == Seq::<char>::empty());
    assert(author_lines(seq![plain]) == author_line(seq![plain][0]) + author_lines(
        seq![plain].drop_first(),
    ));
    assert(author_lines(seq![mailed]) == author_line(seq![mailed][0]) + author_lines(
        seq![mailed].drop_first(),
    ));
    assert(author_lines(seq![plain]) =~= author_line(plain));
    assert(author_lines(seq![mailed]) =~= author_line(mailed));
    assert(authors_block(seq![plain]) =~= ("\\author{")@ + name + ("}\n")@);
    assert(authors_block(seq![mailed]) =~= ("\\author{")@ + name + (" \\thanks{\\href{mailto:")@
        + email + ("}{")@ + email + ("}}")@ + ("}\n")@);
}

} // verus!
