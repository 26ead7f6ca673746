//! Authors of a document.

use vstd::prelude::*;

verus! {

/// Represents an author of a document.
pub struct Author {
    /// The name of the author.
    pub name: String,
    /// The email of the author.
    pub email: Option<String>,
    /// The affiliation of the author.
    pub affiliation: Option<String>,
}

/// Mathematical view of an [`Author`].
pub struct AuthorV {
    pub name: Seq<char>,
    pub email: Option<Seq<char>>,
    pub affiliation: Option<Seq<char>>,
}

impl View for Author {
    type V = AuthorV;

    open spec fn view(&self) -> AuthorV {
        AuthorV {
            name: self.name@,
            email: match self.email {
                Some(ref e) => Some(e@),
                None => None,
            },
            affiliation: match self.affiliation {
                Some(ref a) => Some(a@),
                None => None,
            },
        }
    }
}

impl DeepView for Author {
    type V = AuthorV;

    open spec fn deep_view(&self) -> AuthorV {
        self.view()
    }
}

/// The display form of an author: `name [<email>] [(affiliation)]`.
pub open spec fn display_spec(a: AuthorV) -> Seq<char> {
    a.name + (match a.email {
        Some(e) => (" <")@ + e + (">")@,
        None => Seq::empty(),
    }) + (match a.affiliation {
        Some(f) => (" (")@ + f + (")")@,
        None => Seq::empty(),
    })
}

impl Author {
    /// An author known by name alone.
    pub fn from_name(name: String) -> (r: Author)
        ensures
            r@ == (AuthorV { name: name@, email: None, affiliation: None }),
    {
        Author { name, email: None, affiliation: None }
    }

    /// Renders the author in display form: the name, then the email in
    /// angle brackets if known, then the affiliation in parentheses if
    /// known.
    pub fn display_string(&self) -> (r: String)
        ensures
            r@ == display_spec(self@),
    {
        let mut out = self.name.clone();
        match &self.email {
            Some(e) => {
                out.append(" <");
                out.append(e.as_str());
                out.append(">");
            },
            None => (),
        }
        match &self.affiliation {
            Some(f) => {
                out.append(" (");
                out.append(f.as_str());
                out.append(")");
            },
            None => (),
        }
        assert(out@ =~= display_spec(self@));
        out
    }
}

impl Clone for Author {
    fn clone(&self) -> (r: Self)
        ensures
            r@ == self@,
    {
        Author {
            name: self.name.clone(),
            email: match &self.email {
                Some(e) => Some(e.clone()),
                None => None,
            },
            affiliation: match &self.affiliation {
                Some(a) => Some(a.clone()),
                None => None,
            },
        }
    }
}

impl From<String> for Author {
    /// A bare string names an author without email or affiliation.
    fn from(name: String) -> (r: Self) {
        Author { name, email: None, affiliation: None }
    }
}

impl vstd::std_specs::convert::FromSpecImpl<String> for Author {
    open spec fn obeys_from_spec() -> bool {
        true
    }

    open spec fn from_spec(name: String) -> Self {
        Author { name, email: None, affiliation: None }
    }
}

} // verus!
