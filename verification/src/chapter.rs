//! Chapters: one text body with an optional title and source path, and the
//! per-chapter rendering used by multi-chapter documents.

use vstd::prelude::*;

use crate::adapter::math_events;
use crate::document::DocumentType;
use crate::event::{Container, ContainerV, Event, EventV};
use crate::utils::lemma_deep_view_all;

verus! {

/// One chapter of a document: a pre-parsed event stream with an optional
/// title and the path it was read from.
pub struct Chapter {
    /// The chapter title, if any.
    pub title: Option<String>,
    /// The chapter content.
    pub content: Vec<Event>,
    /// The path the content was read from, if any.
    pub path: Option<String>,
}

/// Mathematical view of a [`Chapter`].
pub struct ChapterV {
    pub title: Option<Seq<char>>,
    pub content: Seq<EventV>,
    pub path: Option<Seq<char>>,
}

impl View for Chapter {
    type V = ChapterV;

    open spec fn view(&self) -> ChapterV {
        ChapterV {
            title: match self.title {
                Some(ref t) => Some(t@),
                None => None,
            },
            content: self.content.deep_view(),
            path: match self.path {
                Some(ref p) => Some(p@),
                None => None,
            },
        }
    }
}

impl DeepView for Chapter {
    type V = ChapterV;

    open spec fn deep_view(&self) -> ChapterV {
        self.view()
    }
}

/// What one event of a chapter becomes: a div of class `title` turns into
/// a raw typeset region emitting the title command, everything else passes
/// through.
pub open spec fn title_div_image(e: EventV) -> Seq<EventV> {
    match e {
        EventV::Start(ContainerV::Div { class }, attrs) => if class == ("title")@ {
            seq![
                EventV::Start(ContainerV::RawBlock { format: ("latex")@ }, attrs),
                EventV::Str(("\\maketitle")@),
                EventV::End(ContainerV::RawBlock { format: ("latex")@ }),
            ]
        } else {
            seq![e]
        },
        EventV::End(ContainerV::Div { class }) => if class == ("title")@ {
            seq![EventV::End(ContainerV::RawBlock { format: ("latex")@ })]
        } else {
            seq![e]
        },
        _ => seq![e],
    }
}

/// The chapter stream with title divs rewritten to raw title commands.
pub open spec fn title_transform(es: Seq<EventV>) -> Seq<EventV>
    decreases es.len(),
{
    if es.len() == 0 {
        Seq::empty()
    } else {
        title_div_image(es[0]) + title_transform(es.drop_first())
    }
}

/// Extending the input of [`title_transform`] by one event appends that
/// event's image.
pub proof fn lemma_title_transform_snoc(es: Seq<EventV>, i: int)
    requires
        0 <= i < es.len(),
    ensures
        title_transform(es.take(i + 1)) == title_transform(es.take(i)) + title_div_image(es[i]),
    decreases i,
{
    if i == 0 {
        assert(es.take(1).drop_first() =~= Seq::<EventV>::empty());
        assert(es.take(0) =~= Seq::<EventV>::empty());
        assert(es.take(1)[0] == es[0]);
        assert(title_transform(Seq::<EventV>::empty()) == Seq::<EventV>::empty());
        assert(title_transform(es.take(1)) == title_div_image(es.take(1)[0]) + title_transform(
            es.take(1).drop_first(),
        ));
        assert(title_transform(es.take(1)) =~= title_div_image(es[0]));
        assert(title_transform(es.take(0)) + title_div_image(es[0]) =~= title_div_image(es[0]));
    } else {
        let t = es.drop_first();
        lemma_title_transform_snoc(t, i - 1);
        assert(es.take(i + 1).drop_first() =~= t.take(i));
        assert(es.take(i).drop_first() =~= t.take(i - 1));
        assert(es.take(i + 1)[0] == es[0]);
        assert(es.take(i)[0] == es[0]);
        let j = i - 1;
        assert(title_transform(es.take(i)) + title_div_image(es[i]) =~= title_div_image(es[0]) + (
        title_transform(t.take(j)) + title_div_image(t[j])));
    }
}

/// Rewrites title divs into raw typeset regions holding the title command.
pub fn apply_title_transform(events: &Vec<Event>) -> (r: Vec<Event>)
    ensures
        r.deep_view() == title_transform(events.deep_view()),
{
    let ghost es = events.deep_view();
    let mut out: Vec<Event> = Vec::new();
    let mut i: usize = 0;
    proof {
        assert(es.take(0) =~= Seq::<EventV>::empty());
        assert(out.deep_view() =~= title_transform(es.take(0)));
    }
    while i < events.len()
        invariant
            es == events.deep_view(),
            es.len() == events@.len(),
            i <= events@.len(),
            out.deep_view() == title_transform(es.take(i as int)),
        decreases events@.len() - i,
    {
        proof {
            lemma_title_transform_snoc(es, i as int);
            assert(events@[i as int]@ == es[i as int]);
        }
        let ghost out_prev = out.deep_view();
        let e = &events[i];
        let title_tag = String::from_str("title");
        match e {
            Event::Start(Container::Div { class }, _) => {
                if class.eq(&title_tag) {
                    let cloned = e.clone();
                    match cloned {
                        Event::Start(_, attrs) => {
                            out.push(
                                Event::Start(
                                    Container::RawBlock { format: String::from_str("latex") },
                                    attrs,
                                ),
                            );
                            out.push(Event::Str(String::from_str("\\maketitle")));
                            out.push(
                                Event::End(
                                    Container::RawBlock { format: String::from_str("latex") },
                                ),
                            );
                        },
                        _ => {
                            proof {
                                assert(false);
                            }
                        },
                    }
                } else {
                    out.push(e.clone());
                }
            },
            Event::End(Container::Div { class }) => {
                if class.eq(&title_tag) {
                    out.push(
                        Event::End(Container::RawBlock { format: String::from_str("latex") }),
                    );
                } else {
                    out.push(e.clone());
                }
            },
            _ => out.push(e.clone()),
        }
        proof {
            assert(out.deep_view() =~= out_prev + title_div_image(es[i as int]));
        }
        i = i + 1;
    }
    proof {
        assert(es.take(es.len() as int) =~= es);
    }
    out
}

/// The typeset rendering of one chapter: the title transform applied, then
/// the stream rendered.
pub open spec fn chapter_latex(content: Seq<EventV>) -> Seq<char> {
    crate::latex::body_output(title_transform(content), false)
}

/// The hypertext rendering of one chapter: the title transform applied
/// (its raw typeset region is foreign to the hypertext renderer and thus
/// dropped), math substituted, then the stream rendered.
pub open spec fn chapter_html(content: Seq<EventV>) -> Seq<char> {
    crate::html::body_output(math_events(title_transform(content), None))
}

impl Chapter {
    /// A chapter from bare content.
    pub fn new(content: Vec<Event>) -> (r: Self)
        ensures
            r@ == (ChapterV { title: None, content: content.deep_view(), path: None }),
    {
        Chapter { content, title: None, path: None }
    }

    /// The same chapter under a title.
    #[must_use]
    pub fn with_title(self, title: String) -> (r: Self)
        ensures
            r@ == (ChapterV { title: Some(title@), ..self@ }),
    {
        Chapter { title: Some(title), ..self }
    }

    /// Appends the typeset rendering of this chapter.
    pub fn write_latex(&self, w: &mut String)
        ensures
            final(w)@ == old(w)@ + chapter_latex(self@.content),
    {
        let transformed = apply_title_transform(&self.content);
        let mut renderer = crate::latex::Renderer::default();
        renderer.push(&transformed, w);
    }

    /// Appends the hypertext rendering of this chapter.
    pub fn write_html(&self, w: &mut String)
        ensures
            final(w)@ == old(w)@ + chapter_html(self@.content),
    {
        let transformed = apply_title_transform(&self.content);
        let substituted = crate::adapter::substitute_math(&transformed);
        let mut renderer = crate::html::Renderer::default();
        renderer.push(&substituted, w);
    }
}

/// The chapter command emitted before a chapter of a book or report with
/// more than one chapter, when the chapter has a title.
pub open spec fn chapter_heading(
    c: ChapterV,
    document_type: DocumentType,
    multi: bool,
) -> Seq<char> {
    match c.title {
        Some(t) => if multi && (document_type is Book || document_type is Report) {
            ("\\chapter{")@ + t + ("}\n")@
        } else {
            Seq::empty()
        },
        None => Seq::empty(),
    }
}

/// The typeset rendering of a chapter list: each chapter's heading command
/// where one is due, followed by its rendered content, in order.
pub open spec fn chapters_latex(
    cs: Seq<ChapterV>,
    document_type: DocumentType,
    multi: bool,
) -> Seq<char>
    decreases cs.len(),
{
    if cs.len() == 0 {
        Seq::empty()
    } else {
        chapter_heading(cs[0], document_type, multi) + chapter_latex(cs[0].content)
            + chapters_latex(cs.drop_first(), document_type, multi)
    }
}

/// Extending the chapter list by one chapter appends that chapter's
/// heading and rendering.
pub proof fn lemma_chapters_latex_snoc(
    cs: Seq<ChapterV>,
    i: int,
    document_type: DocumentType,
    multi: bool,
)
    requires
        0 <= i < cs.len(),
    ensures
        chapters_latex(cs.take(i + 1), document_type, multi) == chapters_latex(
            cs.take(i),
            document_type,
            multi,
        ) + chapter_heading(cs[i], document_type, multi) + chapter_latex(cs[i].content),
    decreases i,
{
    if i == 0 {
        assert(cs.take(1).drop_first() =~= Seq::<ChapterV>::empty());
        assert(cs.take(0) =~= Seq::<ChapterV>::empty());
        assert(cs.take(1)[0] == cs[0]);
        assert(chapters_latex(Seq::<ChapterV>::empty(), document_type, multi)
            == Seq::<char>::empty());
        assert(chapters_latex(cs.take(1), document_type, multi) == chapter_heading(
            cs.take(1)[0],
            document_type,
            multi,
        ) + chapter_latex(cs.take(1)[0].content) + chapters_latex(
            cs.take(1).drop_first(),
            document_type,
            multi,
        ));
        assert(chapters_latex(cs.take(1), document_type, multi) =~= chapter_heading(
            cs[0],
            document_type,
            multi,
        ) + chapter_latex(cs[0].content));
        assert(chapters_latex(cs.take(0), document_type, multi) + chapter_heading(
            cs[0],
            document_type,
            multi,
        ) + chapter_latex(cs[0].content) =~= chapter_heading(cs[0], document_type, multi)
            + chapter_latex(cs[0].content));
    } else {
        let t = cs.drop_first();
        lemma_chapters_latex_snoc(t, i - 1, document_type, multi);
        assert(cs.take(i + 1).drop_first() =~= t.take(i));
        assert(cs.take(i).drop_first() =~= t.take(i - 1));
        assert(cs.take(i + 1)[0] == cs[0]);
        assert(cs.take(i)[0] == cs[0]);
        let j = i - 1;
        assert(chapters_latex(cs.take(i), document_type, multi) + chapter_heading(
            cs[i],
            document_type,
            multi,
        ) + chapter_latex(cs[i].content) =~= chapter_heading(cs[0], document_type, multi)
            + chapter_latex(cs[0].content) + (chapters_latex(t.take(j), document_type, multi)
            + chapter_heading(t[j], document_type, multi) + chapter_latex(t[j].content)));
    }
}

/// Renders a chapter list as typeset markup: books and reports with more
/// than one chapter get a chapter command before each titled chapter.
pub fn chapters_to_latex(chapters: &Vec<Chapter>, document_type: DocumentType) -> (r: String)
    ensures
        r@ == chapters_latex(chapters.deep_view(), document_type, chapters@.len() > 1),
{
    let ghost cs = chapters.deep_view();
    let multi = chapters.len() > 1;
    let mut out = String::new();
    let mut i: usize = 0;
    proof {
        lemma_deep_view_all(chapters);
        assert(cs.take(0) =~= Seq::<ChapterV>::empty());
    }
    while i < chapters.len()
        invariant
            cs == chapters.deep_view(),
            cs.len() == chapters@.len(),
            i <= chapters@.len(),
            multi == (chapters@.len() > 1),
            out@ == chapters_latex(cs.take(i as int), document_type, multi),
        decreases chapters@.len() - i,
    {
        proof {
            lemma_chapters_latex_snoc(cs, i as int, document_type, multi);
            lemma_deep_view_all(chapters);
        }
        let ghost prev = out@;
        let ch = &chapters[i];
        let is_book_or_report = match document_type {
            DocumentType::Book => true,
            DocumentType::Report => true,
            DocumentType::Article => false,
        };
        match &ch.title {
            Some(t) => {
                if multi && is_book_or_report {
                    out.append("\\chapter{");
                    out.append(t.as_str());
                    out.append("}\n");
                }
            },
            None => (),
        }
        proof {
            assert(out@ =~= prev + chapter_heading(cs[i as int], document_type, multi));
        }
        ch.write_latex(&mut out);
        i = i + 1;
    }
    proof {
        assert(cs.take(cs.len() as int) =~= cs);
    }
    out
}

} // verus!
