//! In-memory representation of a document: title, authors, date, locale,
//! document type, and an ordered list of text bodies given as pre-parsed
//! event streams.

use vstd::prelude::*;

use crate::author::{Author, AuthorV};
use crate::date::{Date, date_wf};
use crate::event::{Event, EventV};
use crate::manifest::DocumentManifest;
use crate::utils::{kebab, kebab_spec, lemma_deep_view_all};

verus! {

/// Enumerates the types of documents that can be generated.
///
/// The type dictates the top-level sectioning semantics of the document.
#[derive(Clone, Copy, PartialEq, Eq, Structural, Debug)]
pub enum DocumentType {
    Article,
    Report,
    Book,
}

/// The class name of a document type.
pub open spec fn document_type_name(t: DocumentType) -> Seq<char> {
    match t {
        DocumentType::Article => ("article")@,
        DocumentType::Report => ("report")@,
        DocumentType::Book => ("book")@,
    }
}

/// The document type named by a string; an unrecognized name falls back to
/// the default.
pub open spec fn document_type_of_name(s: Seq<char>) -> DocumentType {
    if s == ("article")@ {
        DocumentType::Article
    } else if s == ("report")@ {
        DocumentType::Report
    } else if s == ("book")@ {
        DocumentType::Book
    } else {
        DocumentType::Article
    }
}

impl DocumentType {
    /// The class name of the document type.
    pub fn as_ref(&self) -> (r: &'static str)
        ensures
            r@ == document_type_name(*self),
    {
        match self {
            DocumentType::Article => "article",
            DocumentType::Report => "report",
            DocumentType::Book => "book",
        }
    }

    /// The document type named by a string; an unrecognized name gives the
    /// default type.
    pub fn from_name(s: &str) -> (r: Self)
        ensures
            r == document_type_of_name(s@),
    {
        let name = String::from_str(s);
        let article = String::from_str("article");
        let report = String::from_str("report");
        let book = String::from_str("book");
        if name.eq(&article) {
            DocumentType::Article
        } else if name.eq(&report) {
            DocumentType::Report
        } else if name.eq(&book) {
            DocumentType::Book
        } else {
            DocumentType::Article
        }
    }
}

impl Default for DocumentType {
    /// Articles are the default document type.
    fn default() -> (r: Self)
        ensures
            r == DocumentType::Article,
    {
        DocumentType::Article
    }
}

/// In-memory representation of a document.
pub struct Document {
    /// The document title, plain text.
    pub title: String,
    /// The document authors, in order.
    pub authors: Vec<Author>,
    /// The document date.
    pub date: Date,
    /// The locale identifier of the document.
    pub locale: String,
    /// The document type.
    pub document_type: DocumentType,
    /// The text bodies, each an independent event stream, in source order.
    pub texts: Vec<Vec<Event>>,
}

/// Mathematical view of a [`Document`].
pub struct DocumentV {
    pub title: Seq<char>,
    pub authors: Seq<AuthorV>,
    pub date: Date,
    pub locale: Seq<char>,
    pub document_type: DocumentType,
    pub texts: Seq<Seq<EventV>>,
}

impl View for Document {
    type V = DocumentV;

    open spec fn view(&self) -> DocumentV {
        DocumentV {
            title: self.title@,
            authors: self.authors.deep_view(),
            date: self.date,
            locale: self.locale@,
            document_type: self.document_type,
            texts: self.texts.deep_view(),
        }
    }
}

/// A well-formed document holds a well-formed date.
pub open spec fn document_wf(d: DocumentV) -> bool {
    date_wf(d.date)
}

impl Document {
    /// Sets the document title.
    pub fn title(&mut self, title: String)
        ensures
            final(self)@ == (DocumentV { title: title@, ..old(self)@ }),
    {
        self.title = title;
    }

    /// Adds a text body to the document.
    pub fn text(&mut self, text: Vec<Event>)
        ensures
            final(self)@ == (DocumentV {
                texts: old(self)@.texts.push(text.deep_view()),
                ..old(self)@
            }),
    {
        let ghost before = self.texts.deep_view();
        self.texts.push(text);
        proof {
            assert(self.texts.deep_view() =~= before.push(
                self.texts.deep_view()[before.len() as int],
            ));
        }
    }

    /// Adds multiple text bodies to the document, in order.
    pub fn texts(&mut self, texts: Vec<Vec<Event>>)
        ensures
            final(self)@ == (DocumentV {
                texts: old(self)@.texts + texts.deep_view(),
                ..old(self)@
            }),
    {
        let ghost added = texts.deep_view();
        let mut remaining = texts;
        let ghost n = added.len();
        proof {
            assert(self@.texts + added.take(0) =~= self@.texts);
            assert(remaining.deep_view() =~= added.skip(0));
        }
        while remaining.len() > 0
            invariant
                added.len() == n,
                remaining@.len() <= n,
                remaining.deep_view() == added.skip(n - remaining@.len()),
                self@ == (DocumentV {
                    texts: old(self)@.texts + added.take(n - remaining@.len()),
                    ..old(self)@
                }),
            decreases remaining@.len(),
        {
            let ghost i = n - remaining@.len();
            let ghost rem_at = remaining@;
            let ghost rem_dv = remaining.deep_view();
            proof {
                lemma_deep_view_all(&remaining);
            }
            let t = remaining.remove(0);
            proof {
                lemma_deep_view_all(&remaining);
                assert(t.deep_view() == rem_dv[0]);
                assert(rem_dv[0] == added.skip(i)[0]);
                assert(added.skip(i)[0] == added[i]);
                assert(remaining@ =~= rem_at.drop_first());
                assert forall|j: int| 0 <= j < remaining@.len() implies remaining.deep_view()[j]
                    == added.skip(i + 1)[j] by {
                    assert(remaining@[j] == rem_at[j + 1]);
                    assert(remaining.deep_view()[j] == remaining@[j].deep_view());
                    assert(rem_dv[j + 1] == rem_at[j + 1].deep_view());
                    assert(added.skip(i)[j + 1] == added[i + 1 + j]);
                    assert(added.skip(i + 1)[j] == added[i + 1 + j]);
                }
                assert(remaining.deep_view() =~= added.skip(i + 1));
                assert((old(self)@.texts + added.take(i)).push(added[i]) =~= old(self)@.texts
                    + added.take(i + 1));
            }
            self.text(t);
        }
        proof {
            assert(added.take(n as int) =~= added);
        }
    }

    /// Adds an author to the document.
    pub fn author(&mut self, author: Author)
        ensures
            final(self)@ == (DocumentV {
                authors: old(self)@.authors.push(author@),
                ..old(self)@
            }),
    {
        let ghost before = self.authors.deep_view();
        self.authors.push(author);
        proof {
            assert(self.authors.deep_view() =~= before.push(
                self.authors.deep_view()[before.len() as int],
            ));
        }
    }

    /// Adds multiple authors to the document, in order.
    pub fn authors(&mut self, authors: Vec<Author>)
        ensures
            final(self)@ == (DocumentV {
                authors: old(self)@.authors + authors.deep_view(),
                ..old(self)@
            }),
    {
        let ghost added = authors.deep_view();
        let mut remaining = authors;
        let ghost n = added.len();
        proof {
            assert(self@.authors + added.take(0) =~= self@.authors);
            assert(remaining.deep_view() =~= added.skip(0));
        }
        while remaining.len() > 0
            invariant
                added.len() == n,
                remaining@.len() <= n,
                remaining.deep_view() == added.skip(n - remaining@.len()),
                self@ == (DocumentV {
                    authors: old(self)@.authors + added.take(n - remaining@.len()),
                    ..old(self)@
                }),
            decreases remaining@.len(),
        {
            let ghost i = n - remaining@.len();
            let ghost rem_at = remaining@;
            let ghost rem_dv = remaining.deep_view();
            proof {
                lemma_deep_view_all(&remaining);
            }
            let a = remaining.remove(0);
            proof {
                lemma_deep_view_all(&remaining);
                assert(remaining@ =~= rem_at.drop_first());
                assert(a.deep_view() == rem_dv[0]);
                assert(rem_dv[0] == added.skip(i)[0]);
                assert(added.skip(i)[0] == added[i]);
                assert forall|j: int| 0 <= j < remaining@.len() implies remaining.deep_view()[j]
                    == added.skip(i + 1)[j] by {
                    assert(remaining@[j] == rem_at[j + 1]);
                    assert(remaining.deep_view()[j] == remaining@[j].deep_view());
                    assert(rem_dv[j + 1] == rem_at[j + 1].deep_view());
                    assert(added.skip(i)[j + 1] == added[i + 1 + j]);
                    assert(added.skip(i + 1)[j] == added[i + 1 + j]);
                }
                assert(remaining.deep_view() =~= added.skip(i + 1));
                assert((old(self)@.authors + added.take(i)).push(added[i]) =~= old(self)@.authors
                    + added.take(i + 1));
            }
            self.author(a);
        }
        proof {
            assert(added.take(n as int) =~= added);
        }
    }

    /// Sets the document type.
    pub fn document_type(&mut self, document_type: DocumentType)
        ensures
            final(self)@ == (DocumentV { document_type, ..old(self)@ }),
    {
        self.document_type = document_type;
    }

    /// Sets the date of the document.
    pub fn date(&mut self, date: Date)
        requires
            date_wf(date),
        ensures
            final(self)@ == (DocumentV { date, ..old(self)@ }),
    {
        self.date = date;
    }

    /// Sets the locale for the document.
    pub fn locale(&mut self, locale: String)
        ensures
            final(self)@ == (DocumentV { locale: locale@, ..old(self)@ }),
    {
        self.locale = locale;
    }

    /// Produces a filename for naming the output file(s): a slug of the
    /// title.
    pub fn filename(&self) -> (r: String)
        ensures
            r@ == kebab_spec(self.title@),
    {
        kebab(self.title.as_str())
    }

    /// Builds a document from a manifest declaration and the pre-parsed
    /// event streams of the texts the declaration names.
    pub fn from_manifest(manifest: &DocumentManifest, texts: Vec<Vec<Event>>) -> (r: Document)
        requires
            match manifest.date {
                Some(d) => date_wf(d),
                None => true,
            },
        ensures
            r@ == (DocumentV {
                title: manifest.title@,
                authors: manifest.authors.deep_view(),
                date: match manifest.date {
                    Some(d) => d,
                    None => Date { date: None, time: None },
                },
                locale: match manifest.builder.locale {
                    Some(ref l) => l@,
                    None => ("en_US")@,
                },
                document_type: manifest.document_type,
                texts: texts.deep_view(),
            }),
            document_wf(r@),
    {
        let mut authors: Vec<Author> = Vec::new();
        let mut i: usize = 0;
        while i < manifest.authors.len()
            invariant
                i <= manifest.authors@.len(),
                authors.deep_view().len() == i,
                forall|j: int|
                    0 <= j < i ==> authors.deep_view()[j] == manifest.authors.deep_view()[j],
            decreases manifest.authors@.len() - i,
        {
            proof {
                lemma_deep_view_all(&authors);
                lemma_deep_view_all(&manifest.authors);
            }
            let ghost dv_old = authors.deep_view();
            let cloned = manifest.authors[i].clone();
            authors.push(cloned);
            proof {
                lemma_deep_view_all(&authors);
                assert(authors.deep_view()[i as int] == authors@[i as int].deep_view());
                assert(authors@[i as int].deep_view() == manifest.authors@[i as int]@);
                assert(manifest.authors.deep_view()[i as int] == manifest.authors@[i as int]@);
                assert(forall|j: int| 0 <= j < i ==> authors.deep_view()[j] == dv_old[j]);
                assert forall|j: int| 0 <= j < i + 1 implies authors.deep_view()[j]
                    == manifest.authors.deep_view()[j] by {
                    if j < i {
                        assert(authors.deep_view()[j] == dv_old[j]);
                        assert(dv_old[j] == manifest.authors.deep_view()[j]);
                    }
                }
            }
            i = i + 1;
        }
        proof {
            assert(authors.deep_view() =~= manifest.authors.deep_view());
        }
        Document {
            title: manifest.title.clone(),
            authors,
            date: match &manifest.date {
                Some(d) => *d,
                None => Date::default(),
            },
            locale: match &manifest.builder.locale {
                Some(l) => l.clone(),
                None => String::from_str("en_US"),
            },
            document_type: manifest.document_type,
            texts,
        }
    }
}

impl Default for Document {
    /// An empty document titled `Document` in the default locale.
    fn default() -> (r: Self)
        ensures
            r@ == (DocumentV {
                title: ("Document")@,
                authors: Seq::<AuthorV>::empty(),
                date: Date { date: None, time: None },
                locale: ("en_US")@,
                document_type: DocumentType::Article,
                texts: Seq::<Seq<EventV>>::empty(),
            }),
            document_wf(r@),
    {
        let authors: Vec<Author> = Vec::new();
        let texts: Vec<Vec<Event>> = Vec::new();
        proof {
            assert(authors.deep_view() =~= Seq::<AuthorV>::empty());
            assert(texts.deep_view() =~= Seq::<Seq<EventV>>::empty());
        }
        Document {
            title: String::from_str("Document"),
            authors,
            date: Date::default(),
            locale: String::from_str("en_US"),
            document_type: DocumentType::Article,
            texts,
        }
    }
}

impl From<Vec<Event>> for Document {
    /// A document holding one text body, with everything else defaulted.
    fn from(content: Vec<Event>) -> (r: Self) {
        let mut doc = Document::default();
        doc.text(content);
        doc
    }
}

impl vstd::std_specs::convert::FromSpecImpl<Vec<Event>> for Document {
    open spec fn obeys_from_spec() -> bool {
        false
    }

    open spec fn from_spec(content: Vec<Event>) -> Self {
        vstd::pervasive::arbitrary()
    }
}

} // verus!
