//! Declarative document structure as read from a project definition: a
//! titled document with authors and chapter references.

use vstd::prelude::*;

verus! {

/// The declaration of a document: title, authors and chapter references.
pub struct DocumentDef {
    /// The document title.
    pub title: String,
    /// The declared authors.
    pub authors: Vec<AuthorDef>,
    /// The declared chapters.
    pub chapters: Vec<ChapterDef>,
}

/// The declaration of an author: a name and an optional organization.
pub struct AuthorDef {
    /// The author's name.
    pub name: String,
    /// The author's organization, if any.
    pub organization: Option<String>,
}

impl Default for AuthorDef {
    /// An unnamed author without organization.
    fn default() -> (r: Self)
        ensures
            r.name@ == Seq::<char>::empty(),
            r.organization is None,
    {
        AuthorDef { name: String::new(), organization: None }
    }
}

/// The declaration of a chapter: a title and the path of its source.
pub struct ChapterDef {
    /// The chapter title.
    pub title: String,
    /// The path of the chapter's source text.
    pub path: String,
}

} // verus!
