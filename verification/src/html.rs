//! The hypertext-markup renderer: folds a semantic event stream into HTML
//! source text.
//!
//! It shares the event model and container taxonomy with the typeset-markup
//! renderer but differs in emitted syntax and in its escaping rules: only
//! the five characters significant to the target syntax are escaped.

use vstd::prelude::*;

use crate::event::{Container, ContainerV, Emit, Event, EventV, ListKind, OrderedListNumbering};
use crate::utils::{append_dec, dec_of, push_char};

verus! {

/// The HTML renderer state.
pub struct Renderer {
    /// The current emit mode.
    pub emit: Emit,
    /// True until the first event has been processed; suppresses the
    /// leading block separator.
    pub first_line: bool,
}

/// Whether `c` is significant in HTML text and must be escaped.
pub open spec fn reserved_char(c: char) -> bool {
    c == '&' || c == '<' || c == '>' || c == '"' || c == '\''
}

/// The escape sequence of one character; non-reserved characters pass
/// through unchanged.
pub open spec fn escape_char(c: char) -> Seq<char> {
    if c == '&' {
        ("&amp;")@
    } else if c == '<' {
        ("&lt;")@
    } else if c == '>' {
        ("&gt;")@
    } else if c == '"' {
        ("&quot;")@
    } else if c == '\'' {
        ("&#39;")@
    } else {
        seq![c]
    }
}

/// The HTML-escaped form of a string.
pub open spec fn escape(s: Seq<char>) -> Seq<char>
    decreases s.len(),
{
    if s.len() == 0 {
        Seq::empty()
    } else {
        escape_char(s[0]) + escape(s.drop_first())
    }
}

/// Extending the input of [`escape`] by one character appends that
/// character's escape sequence to the output.
pub proof fn lemma_escape_snoc(s: Seq<char>, i: int)
    requires
        0 <= i < s.len(),
    ensures
        escape(s.take(i + 1)) == escape(s.take(i)) + escape_char(s[i]),
    decreases i,
{
    if i == 0 {
        assert(s.take(1).drop_first() =~= Seq::<char>::empty());
        assert(s.take(0) =~= Seq::<char>::empty());
        assert(s.take(1)[0] == s[0]);
        assert(escape(Seq::<char>::empty()) == Seq::<char>::empty());
        assert(escape(s.take(1)) == escape_char(s.take(1)[0]) + escape(s.take(1).drop_first()));
        assert(escape(s.take(1)) =~= escape_char(s[0]));
        assert(escape(s.take(0)) + escape_char(s[0]) =~= escape_char(s[0]));
    } else {
        let t = s.drop_first();
        lemma_escape_snoc(t, i - 1);
        assert(s.take(i + 1).drop_first() =~= t.take(i));
        assert(s.take(i).drop_first() =~= t.take(i - 1));
        assert(s.take(i + 1)[0] == s[0]);
        assert(s.take(i)[0] == s[0]);
        let j = i - 1;
        assert(escape(s.take(i)) + escape_char(s[i]) =~= escape_char(s[0]) + (escape(t.take(j))
            + escape_char(t[j])));
    }
}

/// Writes `s` to `w` with every reserved HTML character replaced by its
/// escape sequence.
pub fn write_escaped(w: &mut String, s: &str)
    ensures
        final(w)@ == old(w)@ + escape(s@),
{
    let n: usize = s.unicode_len();
    let mut i: usize = 0;
    while i < n
        invariant
            i <= n,
            n == s@.len(),
            w@ == old(w)@ + escape(s@.take(i as int)),
        decreases n - i,
    {
        let c = s.get_char(i);
        proof {
            lemma_escape_snoc(s@, i as int);
        }
        let ghost w_prev = w@;
        match c {
            '&' => w.append("&amp;"),
            '<' => w.append("&lt;"),
            '>' => w.append("&gt;"),
            '"' => w.append("&quot;"),
            '\'' => w.append("&#39;"),
            _ => push_char(w, c),
        }
        proof {
            assert(w@ =~= w_prev + escape_char(s@[i as int]));
            assert(w@ =~= old(w)@ + escape(s@.take(i + 1)));
        }
        i = i + 1;
    }
    proof {
        assert(s@.take(n as int) =~= s@);
    }
}

/// The renderer state before any event has been processed.
pub open spec fn init_renderer() -> Renderer {
    Renderer { emit: Emit::Escaped, first_line: true }
}

/// Heading levels are clamped into the range the target syntax offers.
pub open spec fn clamp_level(level: u64) -> u64 {
    if level < 1 {
        1
    } else if level > 6 {
        6
    } else {
        level
    }
}

/// The `type` attribute carried by an ordered list, derived from its
/// numbering scheme; decimal numbering is the default and has none.
pub open spec fn ol_type_attr(numbering: OrderedListNumbering) -> Seq<char> {
    match numbering {
        OrderedListNumbering::Decimal => Seq::empty(),
        OrderedListNumbering::AlphaLower => (" type=\"a\"")@,
        OrderedListNumbering::AlphaUpper => (" type=\"A\"")@,
        OrderedListNumbering::RomanLower => (" type=\"i\"")@,
        OrderedListNumbering::RomanUpper => (" type=\"I\"")@,
    }
}

/// The tag that opens a list.
pub open spec fn list_open(kind: ListKind) -> Seq<char> {
    match kind {
        ListKind::Unordered => ("<ul>")@,
        ListKind::Task => ("<ul class=\"task-list\">")@,
        ListKind::Ordered { numbering, style: _, start } => ("<ol")@ + ol_type_attr(numbering) + (
        if start != 1 {
            (" start=\"")@ + dec_of(start as nat) + ("\"")@
        } else {
            Seq::empty()
        }) + (">")@,
    }
}

/// The tag that closes a list.
pub open spec fn list_close(kind: ListKind) -> Seq<char> {
    match kind {
        ListKind::Unordered => ("</ul>\n")@,
        ListKind::Ordered { .. } => ("</ol>\n")@,
        ListKind::Task => ("</ul>\n")@,
    }
}

/// The blank-line separator emitted before a block-level container start.
pub open spec fn separator(c: ContainerV, r: Renderer) -> Seq<char> {
    if r.first_line {
        Seq::empty()
    } else if c.is_block() && !(c is Section) {
        ("\n")@
    } else {
        Seq::empty()
    }
}

/// The markup emitted for a container start, not counting the block
/// separator.
pub open spec fn start_output(c: ContainerV) -> Seq<char> {
    match c {
        ContainerV::Paragraph => ("<p>")@,
        ContainerV::Section { .. } => Seq::empty(),
        ContainerV::DescriptionDetails => ("<dd>")@,
        ContainerV::Div { class } => ("<div class=\"")@ + escape(class) + ("\">")@,
        ContainerV::Blockquote => ("<blockquote>")@,
        ContainerV::DescriptionList => ("<dl>\n")@,
        ContainerV::Span => ("<span>")@,
        ContainerV::Strong => ("<strong>")@,
        ContainerV::Emphasis => ("<em>")@,
        ContainerV::Superscript => ("<sup>")@,
        ContainerV::Subscript => ("<sub>")@,
        ContainerV::Insert => ("<ins>")@,
        ContainerV::Delete => ("<del>")@,
        ContainerV::Mark => ("<mark>")@,
        ContainerV::Link { destination } => ("<a href=\"")@ + escape(destination) + ("\">")@,
        ContainerV::DescriptionTerm => ("<dt>")@,
        ContainerV::Footnote { number } => ("<div class=\"footnote\" id=\"fn")@ + dec_of(
            number as nat,
        ) + ("\">")@,
        ContainerV::Image { destination } => ("<figure><img src=\"")@ + escape(destination) + (
        "\" alt=\"")@,
        ContainerV::Heading { level, id } => ("<h")@ + dec_of(clamp_level(level) as nat) + (
        " id=\"")@ + escape(id) + ("\">")@,
        ContainerV::RawBlock { .. } => Seq::empty(),
        ContainerV::RawInline { .. } => Seq::empty(),
        ContainerV::Math { display } => if display {
            ("<span class=\"math display\">\\[")@
        } else {
            ("<span class=\"math inline\">\\(")@
        },
        ContainerV::List { kind, .. } => list_open(kind),
        ContainerV::ListItem => ("<li>")@,
        ContainerV::Verbatim => ("<code>")@,
        ContainerV::CodeBlock { language } => if language.len() == 0 {
            ("<pre><code>")@
        } else {
            ("<pre><code class=\"language-")@ + escape(language) + ("\">")@
        },
        ContainerV::TaskListItem { checked } => if checked {
            ("<li class=\"checked\">")@
        } else {
            ("<li class=\"unchecked\">")@
        },
    }
}

/// The markup emitted for a container end.
pub open spec fn end_output(c: ContainerV) -> Seq<char> {
    match c {
        ContainerV::Paragraph => ("</p>\n")@,
        ContainerV::Section { .. } => Seq::empty(),
        ContainerV::DescriptionDetails => ("</dd>\n")@,
        ContainerV::Div { .. } => ("</div>\n")@,
        ContainerV::Blockquote => ("</blockquote>\n")@,
        ContainerV::DescriptionList => ("</dl>\n")@,
        ContainerV::Span => ("</span>")@,
        ContainerV::Strong => ("</strong>")@,
        ContainerV::Emphasis => ("</em>")@,
        ContainerV::Superscript => ("</sup>")@,
        ContainerV::Subscript => ("</sub>")@,
        ContainerV::Insert => ("</ins>")@,
        ContainerV::Delete => ("</del>")@,
        ContainerV::Mark => ("</mark>")@,
        ContainerV::Link { .. } => ("</a>")@,
        ContainerV::DescriptionTerm => ("</dt>\n")@,
        ContainerV::Footnote { .. } => ("</div>\n")@,
        ContainerV::Image { .. } => ("\"></figure>\n")@,
        ContainerV::Heading { level, .. } => ("</h")@ + dec_of(clamp_level(level) as nat) + (
        ">\n")@,
        ContainerV::RawBlock { .. } => Seq::empty(),
        ContainerV::RawInline { .. } => Seq::empty(),
        ContainerV::Math { display } => if display {
            ("\\]</span>")@
        } else {
            ("\\)</span>")@
        },
        ContainerV::List { kind, .. } => list_close(kind),
        ContainerV::ListItem => ("</li>\n")@,
        ContainerV::Verbatim => ("</code>")@,
        ContainerV::CodeBlock { .. } => ("</code></pre>\n")@,
        ContainerV::TaskListItem { .. } => ("</li>\n")@,
    }
}

/// Whether a raw region's format tag selects raw pass-through for this
/// renderer; any other tag suppresses the region's content.
pub open spec fn own_format(format: Seq<char>) -> bool {
    format == ("html")@
}

/// The emit mode in force after a container start.
pub open spec fn start_emit(c: ContainerV, m: Emit) -> Emit {
    match c {
        ContainerV::RawBlock { format } => if own_format(format) {
            Emit::Raw
        } else {
            Emit::Suppressed
        },
        ContainerV::RawInline { format } => if own_format(format) {
            Emit::Raw
        } else {
            Emit::Suppressed
        },
        ContainerV::Math { .. } => Emit::Raw,
        _ => m,
    }
}

/// The emit mode in force after a container end.
pub open spec fn end_emit(c: ContainerV, m: Emit) -> Emit {
    match c {
        ContainerV::RawBlock { .. } => Emit::Escaped,
        ContainerV::RawInline { .. } => Emit::Escaped,
        ContainerV::Math { .. } => Emit::Escaped,
        _ => m,
    }
}

/// The emit mode in force after one event.
pub open spec fn emit_after(e: EventV, m: Emit) -> Emit {
    match e {
        EventV::Start(c, _) => start_emit(c, m),
        EventV::End(c) => end_emit(c, m),
        _ => m,
    }
}

/// The text emitted for one event in a given renderer state.
pub open spec fn event_output(e: EventV, r: Renderer) -> Seq<char> {
    match e {
        EventV::Str(s) => match r.emit {
            Emit::Escaped => escape(s),
            Emit::Raw => s,
            Emit::Suppressed => Seq::empty(),
        },
        EventV::Symbol(s) => (":")@ + s + (":")@,
        EventV::LeftSingleQuote => ("&lsquo;")@,
        EventV::RightSingleQuote => ("&rsquo;")@,
        EventV::LeftDoubleQuote => ("&ldquo;")@,
        EventV::RightDoubleQuote => ("&rdquo;")@,
        EventV::Ellipsis => ("&hellip;")@,
        EventV::EnDash => ("&ndash;")@,
        EventV::EmDash => ("&mdash;")@,
        EventV::NonBreakingSpace => ("&nbsp;")@,
        EventV::Softbreak => ("\n")@,
        EventV::Hardbreak => ("<br>\n")@,
        EventV::Escape => Seq::empty(),
        EventV::Blankline => Seq::empty(),
        EventV::ThematicBreak => ("\n<hr>")@,
        EventV::FootnoteReference(n) => ("<sup><a href=\"#fn")@ + dec_of(n as nat) + ("\">")@
            + dec_of(n as nat) + ("</a></sup>")@,
        EventV::Start(c, _) => separator(c, r) + start_output(c),
        EventV::End(c) => end_output(c),
    }
}

/// The renderer state after one event.
pub open spec fn event_next(e: EventV, r: Renderer) -> Renderer {
    Renderer { emit: emit_after(e, r.emit), first_line: false }
}

/// The text emitted for a whole event stream started in state `r`.
pub open spec fn events_output(es: Seq<EventV>, r: Renderer) -> Seq<char>
    decreases es.len(),
{
    if es.len() == 0 {
        Seq::empty()
    } else {
        event_output(es[0], r) + events_output(es.drop_first(), event_next(es[0], r))
    }
}

/// The renderer state after a whole event stream started in state `r`.
pub open spec fn events_next(es: Seq<EventV>, r: Renderer) -> Renderer
    decreases es.len(),
{
    if es.len() == 0 {
        r
    } else {
        events_next(es.drop_first(), event_next(es[0], r))
    }
}

/// The HTML source of one text body, rendered from its initial state.
pub open spec fn body_output(es: Seq<EventV>) -> Seq<char> {
    events_output(es, init_renderer())
}

impl Default for Renderer {
    /// A fresh renderer: escaping, before its first line.
    fn default() -> (r: Self)
        ensures
            r == init_renderer(),
    {
        Renderer { emit: Emit::Escaped, first_line: true }
    }
}

impl Renderer {
    /// Emits the opening tag of a list.
    fn append_list_start(out: &mut String, kind: &ListKind)
        ensures
            final(out)@ == old(out)@ + list_open(*kind),
    {
        match kind {
            ListKind::Unordered => out.append("<ul>"),
            ListKind::Task => out.append("<ul class=\"task-list\">"),
            ListKind::Ordered { numbering, style: _, start } => {
                out.append("<ol");
                match numbering {
                    OrderedListNumbering::Decimal => (),
                    OrderedListNumbering::AlphaLower => out.append(" type=\"a\""),
                    OrderedListNumbering::AlphaUpper => out.append(" type=\"A\""),
                    OrderedListNumbering::RomanLower => out.append(" type=\"i\""),
                    OrderedListNumbering::RomanUpper => out.append(" type=\"I\""),
                }
                if *start != 1 {
                    out.append(" start=\"");
                    append_dec(out, *start);
                    out.append("\"");
                }
                out.append(">");
            },
        }
        assert(out@ =~= old(out)@ + list_open(*kind));
    }

    /// Emits the opening tag of a heading of the given level.
    fn append_heading_start(out: &mut String, level: u64, id: &String)
        ensures
            final(out)@ == old(out)@ + start_output(ContainerV::Heading { level, id: id@ }),
    {
        out.append("<h");
        let clamped: u64 = if level < 1 {
            1
        } else if level > 6 {
            6
        } else {
            level
        };
        append_dec(out, clamped);
        out.append(" id=\"");
        write_escaped(out, id.as_str());
        out.append("\">");
        assert(out@ =~= old(out)@ + start_output(ContainerV::Heading { level, id: id@ }));
    }

    /// Emits the block separator and opening markup of one container, and
    /// switches the emit mode where the container demands it.
    #[verifier::rlimit(60)]
    fn render_start(&mut self, c: &Container, out: &mut String)
        ensures
            final(out)@ == old(out)@ + separator(c@, *old(self)) + start_output(c@),
            *final(self) == (Renderer {
                emit: start_emit(c@, old(self).emit),
                ..*old(self)
            }),
    {
        let ghost sep = separator(c@, *old(self));
        if self.first_line {
        } else {
            let is_section = match c {
                Container::Section { .. } => true,
                _ => false,
            };
            if c.is_block() && !is_section {
                out.append("\n");
            }
        }
        assert(out@ =~= old(out)@ + sep);
        let ghost mid = out@;
        match c {
            Container::Paragraph => out.append("<p>"),
            Container::Section { .. } => (),
            Container::DescriptionDetails => out.append("<dd>"),
            Container::Div { class } => {
                out.append("<div class=\"");
                write_escaped(out, class.as_str());
                out.append("\">");
            },
            Container::Blockquote => out.append("<blockquote>"),
            Container::DescriptionList => out.append("<dl>\n"),
            Container::Span => out.append("<span>"),
            Container::Strong => out.append("<strong>"),
            Container::Emphasis => out.append("<em>"),
            Container::Superscript => out.append("<sup>"),
            Container::Subscript => out.append("<sub>"),
            Container::Insert => out.append("<ins>"),
            Container::Delete => out.append("<del>"),
            Container::Mark => out.append("<mark>"),
            Container::Link { destination } => {
                out.append("<a href=\"");
                write_escaped(out, destination.as_str());
                out.append("\">");
            },
            Container::DescriptionTerm => out.append("<dt>"),
            Container::Footnote { number } => {
                out.append("<div class=\"footnote\" id=\"fn");
                append_dec(out, *number);
                out.append("\">");
            },
            Container::Image { destination } => {
                out.append("<figure><img src=\"");
                write_escaped(out, destination.as_str());
                out.append("\" alt=\"");
            },
            Container::Heading { level, id } => Self::append_heading_start(out, *level, id),
            Container::RawBlock { format } | Container::RawInline { format } => {
                let html_tag = String::from_str("html");
                if format.eq(&html_tag) {
                    self.emit = Emit::Raw;
                } else {
                    self.emit = Emit::Suppressed;
                }
            },
            Container::Math { display } => {
                self.emit = Emit::Raw;
                if *display {
                    out.append("<span class=\"math display\">\\[");
                } else {
                    out.append("<span class=\"math inline\">\\(");
                }
            },
            Container::List { kind, .. } => Self::append_list_start(out, kind),
            Container::ListItem => out.append("<li>"),
            Container::Verbatim => out.append("<code>"),
            Container::CodeBlock { language } => {
                if language.as_str().is_empty() {
                    out.append("<pre><code>");
                } else {
                    out.append("<pre><code class=\"language-");
                    write_escaped(out, language.as_str());
                    out.append("\">");
                }
            },
            Container::TaskListItem { checked } => {
                if *checked {
                    out.append("<li class=\"checked\">");
                } else {
                    out.append("<li class=\"unchecked\">");
                }
            },
        }
        assert(out@ =~= mid + start_output(c@));
        assert(out@ =~= old(out)@ + separator(c@, *old(self)) + start_output(c@));
    }

    /// Emits the closing markup of one container, and restores escaping
    /// where the container had switched the emit mode.
    #[verifier::rlimit(60)]
    fn render_end(&mut self, c: &Container, out: &mut String)
        ensures
            final(out)@ == old(out)@ + end_output(c@),
            *final(self) == (Renderer { emit: end_emit(c@, old(self).emit), ..*old(self) }),
    {
        match c {
            Container::Paragraph => out.append("</p>\n"),
            Container::Section { .. } => (),
            Container::DescriptionDetails => out.append("</dd>\n"),
            Container::Div { .. } => out.append("</div>\n"),
            Container::Blockquote => out.append("</blockquote>\n"),
            Container::DescriptionList => out.append("</dl>\n"),
            Container::Span => out.append("</span>"),
            Container::Strong => out.append("</strong>"),
            Container::Emphasis => out.append("</em>"),
            Container::Superscript => out.append("</sup>"),
            Container::Subscript => out.append("</sub>"),
            Container::Insert => out.append("</ins>"),
            Container::Delete => out.append("</del>"),
            Container::Mark => out.append("</mark>"),
            Container::Link { .. } => out.append("</a>"),
            Container::DescriptionTerm => out.append("</dt>\n"),
            Container::Footnote { .. } => out.append("</div>\n"),
            Container::Image { .. } => out.append("\"></figure>\n"),
            Container::Heading { level, .. } => {
                out.append("</h");
                let clamped: u64 = if *level < 1 {
                    1
                } else if *level > 6 {
                    6
                } else {
                    *level
                };
                append_dec(out, clamped);
                out.append(">\n");
            },
            Container::RawBlock { .. } | Container::RawInline { .. } => {
                self.emit = Emit::Escaped;
            },
            Container::Math { display } => {
                self.emit = Emit::Escaped;
                if *display {
                    out.append("\\]</span>");
                } else {
                    out.append("\\)</span>");
                }
            },
            Container::List { kind, .. } => {
                match kind {
                    ListKind::Unordered => out.append("</ul>\n"),
                    ListKind::Ordered { .. } => out.append("</ol>\n"),
                    ListKind::Task => out.append("</ul>\n"),
                }
            },
            Container::ListItem => out.append("</li>\n"),
            Container::Verbatim => out.append("</code>"),
            Container::CodeBlock { .. } => out.append("</code></pre>\n"),
            Container::TaskListItem { .. } => out.append("</li>\n"),
        }
        assert(out@ =~= old(out)@ + end_output(c@));
    }

    /// Processes one event: appends exactly [`event_output`] to `out` and
    /// steps the renderer state to [`event_next`].
    pub fn render_event(&mut self, e: &Event, out: &mut String)
        ensures
            final(out)@ == old(out)@ + event_output(e@, *old(self)),
            *final(self) == event_next(e@, *old(self)),
    {
        match e {
            Event::Str(s) => match self.emit {
                Emit::Escaped => write_escaped(out, s.as_str()),
                Emit::Raw => out.append(s.as_str()),
                Emit::Suppressed => (),
            },
            Event::Symbol(s) => {
                out.append(":");
                out.append(s.as_str());
                out.append(":");
            },
            Event::LeftSingleQuote => out.append("&lsquo;"),
            Event::RightSingleQuote => out.append("&rsquo;"),
            Event::LeftDoubleQuote => out.append("&ldquo;"),
            Event::RightDoubleQuote => out.append("&rdquo;"),
            Event::Ellipsis => out.append("&hellip;"),
            Event::EnDash => out.append("&ndash;"),
            Event::EmDash => out.append("&mdash;"),
            Event::NonBreakingSpace => out.append("&nbsp;"),
            Event::Softbreak => out.append("\n"),
            Event::Hardbreak => out.append("<br>\n"),
            Event::Escape => (),
            Event::Blankline => (),
            Event::ThematicBreak => out.append("\n<hr>"),
            Event::FootnoteReference(n) => {
                out.append("<sup><a href=\"#fn");
                append_dec(out, *n);
                out.append("\">");
                append_dec(out, *n);
                out.append("</a></sup>");
            },
            Event::Start(c, _) => self.render_start(c, out),
            Event::End(c) => self.render_end(c, out),
        }
        self.first_line = false;
        assert(out@ =~= old(out)@ + event_output(e@, *old(self)));
    }

    /// Renders a whole event stream, appending its output to `out`.
    pub fn push(&mut self, events: &Vec<Event>, out: &mut String)
        ensures
            final(out)@ == old(out)@ + events_output(events.deep_view(), *old(self)),
            *final(self) == events_next(events.deep_view(), *old(self)),
    {
        let ghost es = events.deep_view();
        let mut i: usize = 0;
        proof {
            assert(es.take(0) =~= Seq::<EventV>::empty());
            assert(out@ =~= out@ + Seq::<char>::empty());
        }
        while i < events.len()
            invariant
                es == events.deep_view(),
                es.len() == events@.len(),
                i <= events@.len(),
                out@ == old(out)@ + events_output(es.take(i as int), *old(self)),
                *self == events_next(es.take(i as int), *old(self)),
            decreases events@.len() - i,
        {
            proof {
                lemma_events_snoc(es, i as int, *old(self));
                assert(events@[i as int]@ == es[i as int]);
            }
            self.render_event(&events[i], out);
            i = i + 1;
        }
        proof {
            assert(es.take(es.len() as int) =~= es);
        }
    }
}

/// Extending an event stream by one event appends that event's output,
/// taken in the state the prefix leads to.
pub proof fn lemma_events_snoc(es: Seq<EventV>, i: int, r: Renderer)
    requires
        0 <= i < es.len(),
    ensures
        events_output(es.take(i + 1), r) == events_output(es.take(i), r) + event_output(
            es[i],
            events_next(es.take(i), r),
        ),
        events_next(es.take(i + 1), r) == event_next(es[i], events_next(es.take(i), r)),
    decreases i,
{
    if i == 0 {
        assert(es.take(1).drop_first() =~= Seq::<EventV>::empty());
        assert(es.take(0) =~= Seq::<EventV>::empty());
        assert(es.take(1)[0] == es[0]);
        assert(events_output(Seq::<EventV>::empty(), event_next(es[0], r))
            == Seq::<char>::empty());
        assert(events_output(es.take(1), r) == event_output(es.take(1)[0], r) + events_output(
            es.take(1).drop_first(),
            event_next(es.take(1)[0], r),
        ));
        assert(events_output(es.take(1), r) =~= event_output(es[0], r));
        assert(events_output(es.take(0), r) + event_output(es[0], events_next(es.take(0), r)) =~=
            event_output(es[0], r));
        assert(events_next(es.take(1), r) == events_next(
            es.take(1).drop_first(),
            event_next(es.take(1)[0], r),
        ));
        assert(events_next(Seq::<EventV>::empty(), event_next(es[0], r)) == event_next(es[0], r));
        assert(events_next(es.take(0), r) == r);
    } else {
        let t = es.drop_first();
        let r1 = event_next(es[0], r);
        lemma_events_snoc(t, i - 1, r1);
        assert(es.take(i + 1).drop_first() =~= t.take(i));
        assert(es.take(i).drop_first() =~= t.take(i - 1));
        assert(es.take(i + 1)[0] == es[0]);
        assert(es.take(i)[0] == es[0]);
        let j = i - 1;
        assert(events_output(es.take(i), r) + event_output(es[i], events_next(es.take(i), r)) =~=
            event_output(es[0], r) + (events_output(t.take(j), r1) + event_output(
            t[j],
            events_next(t.take(j), r1),
        )));
        assert(events_next(es.take(i + 1), r) == events_next(t.take(i), r1));
        assert(events_next(es.take(i), r) == events_next(t.take(j), r1));
    }
}

/// Renders one text body to a fresh buffer.
pub fn render_text(events: &Vec<Event>) -> (r: String)
    ensures
        r@ == body_output(events.deep_view()),
{
    let mut renderer = Renderer::default();
    let mut out = String::new();
    renderer.push(events, &mut out);
    out
}

/// Mechanically reverses the escaping of [`escape`]: each entity emitted
/// by the escaping function is replaced by the character it stands for,
/// and every other character passes through.
pub open spec fn unescape(t: Seq<char>) -> Seq<char>
    decreases t.len(),
{
    if t.len() == 0 {
        Seq::empty()
    } else if t[0] == '&' {
        if t.len() >= 5 && t.subrange(0, 5) == ("&amp;")@ {
            seq!['&'] + unescape(t.skip(5))
        } else if t.len() >= 4 && t.subrange(0, 4) == ("&lt;")@ {
            seq!['<'] + unescape(t.skip(4))
        } else if t.len() >= 4 && t.subrange(0, 4) == ("&gt;")@ {
            seq!['>'] + unescape(t.skip(4))
        } else if t.len() >= 6 && t.subrange(0, 6) == ("&quot;")@ {
            seq!['"'] + unescape(t.skip(6))
        } else if t.len() >= 5 && t.subrange(0, 5) == ("&#39;")@ {
            seq!['\''] + unescape(t.skip(5))
        } else {
            seq![t[0]] + unescape(t.skip(1))
        }
    } else {
        seq![t[0]] + unescape(t.skip(1))
    }
}

/// Unescaping consumes one whole entity at the front of the buffer,
/// whatever follows it.
proof fn lemma_unescape_step(c: char, tail: Seq<char>)
    ensures
        unescape(escape_char(c) + tail) == seq![c] + unescape(tail),
{
    reveal_strlit("&amp;");
    reveal_strlit("&lt;");
    reveal_strlit("&gt;");
    reveal_strlit("&quot;");
    reveal_strlit("&#39;");
    let t = escape_char(c) + tail;
    if c == '&' {
        assert(t.subrange(0, 5) =~= ("&amp;")@);
        assert(t.skip(5) =~= tail);
        assert(unescape(t) =~= seq![c] + unescape(tail));
    } else if c == '<' {
        assert(t.len() >= 5 ==> t.subrange(0, 5)[1] == 'l' && (("&amp;")@)[1] == 'a');
        assert(t.len() >= 5 ==> t.subrange(0, 5) != ("&amp;")@);
        assert(t.subrange(0, 4) =~= ("&lt;")@);
        assert(t.skip(4) =~= tail);
        assert(unescape(t) =~= seq![c] + unescape(tail));
    } else if c == '>' {
        assert(t.len() >= 5 ==> t.subrange(0, 5)[1] == 'g' && (("&amp;")@)[1] == 'a');
        assert(t.len() >= 5 ==> t.subrange(0, 5) != ("&amp;")@);
        assert(t.subrange(0, 4)[1] == 'g' && (("&lt;")@)[1] == 'l');
        assert(t.subrange(0, 4) != ("&lt;")@);
        assert(t.subrange(0, 4) =~= ("&gt;")@);
        assert(t.skip(4) =~= tail);
        assert(unescape(t) =~= seq![c] + unescape(tail));
    } else if c == '"' {
        assert(t.len() >= 5 ==> t.subrange(0, 5)[1] == 'q' && (("&amp;")@)[1] == 'a');
        assert(t.len() >= 5 ==> t.subrange(0, 5) != ("&amp;")@);
        assert(t.subrange(0, 4)[1] == 'q' && (("&lt;")@)[1] == 'l' && (("&gt;")@)[1] == 'g');
        assert(t.subrange(0, 4) != ("&lt;")@);
        assert(t.subrange(0, 4) != ("&gt;")@);
        assert(t.subrange(0, 6) =~= ("&quot;")@);
        assert(t.skip(6) =~= tail);
        assert(unescape(t) =~= seq![c] + unescape(tail));
    } else if c == '\'' {
        assert(t.subrange(0, 5)[1] == '#' && (("&amp;")@)[1] == 'a');
        assert(t.subrange(0, 5) != ("&amp;")@);
        assert(t.subrange(0, 4)[1] == '#' && (("&lt;")@)[1] == 'l' && (("&gt;")@)[1] == 'g');
        assert(t.subrange(0, 4) != ("&lt;")@);
        assert(t.subrange(0, 4) != ("&gt;")@);
        assert(t.len() >= 6 ==> t.subrange(0, 6)[1] == '#' && (("&quot;")@)[1] == 'q');
        assert(t.len() >= 6 ==> t.subrange(0, 6) != ("&quot;")@);
        assert(t.subrange(0, 5) =~= ("&#39;")@);
        assert(t.skip(5) =~= tail);
        assert(unescape(t) =~= seq![c] + unescape(tail));
    } else {
        assert(escape_char(c) =~= seq![c]);
        assert(t[0] == c && c != '&');
        assert(t.skip(1) =~= tail);
        assert(unescape(t) =~= seq![c] + unescape(tail));
    }
}

/// Round trip of the escaping function: mechanically reversing the
/// entities in the renderer's output for a text run reconstructs the input
/// exactly.
pub proof fn lemma_escape_round_trip(s: Seq<char>)
    ensures
        unescape(escape(s)) == s,
    decreases s.len(),
{
    if s.len() == 0 {
        assert(unescape(escape(s)) =~= s);
    } else {
        lemma_escape_round_trip(s.drop_first());
        lemma_unescape_step(s[0], escape(s.drop_first()));
        assert(unescape(escape(s)) =~= s);
    }
}

/// A text run rendered in escaped mode can be mechanically unescaped back
/// to the original string.
pub proof fn lemma_str_round_trip(s: Seq<char>, r: Renderer)
    requires
        r.emit is Escaped,
    ensures
        unescape(event_output(EventV::Str(s), r)) == s,
{
    lemma_escape_round_trip(s);
}

/// Raw content tagged with a foreign format identifier is dropped: the
/// stream that carries text inside such a raw region renders to exactly
/// the same output as the stream without the text.
pub proof fn lemma_foreign_raw_dropped(
    format: Seq<char>,
    s: Seq<char>,
    attrs: Seq<crate::event::AttributeV>,
    r: Renderer,
)
    requires
        !own_format(format),
    ensures
        events_output(
            seq![
                EventV::Start(ContainerV::RawBlock { format }, attrs),
                EventV::Str(s),
                EventV::End(ContainerV::RawBlock { format }),
            ],
            r,
        ) == events_output(
            seq![
                EventV::Start(ContainerV::RawBlock { format }, attrs),
                EventV::End(ContainerV::RawBlock { format }),
            ],
            r,
        ),
{
    let start = EventV::Start(ContainerV::RawBlock { format }, attrs);
    let stop = EventV::End(ContainerV::RawBlock { format });
    let with_text = seq![start, EventV::Str(s), stop];
    let without = seq![start, stop];
    let r1 = event_next(start, r);
    assert(r1.emit is Suppressed);
    assert(event_output(EventV::Str(s), r1) == Seq::<char>::empty());
    assert(event_next(EventV::Str(s), r1) == r1);
    let last = seq![stop];
    assert(last.drop_first() =~= Seq::<EventV>::empty());
    assert(last.drop_first() == Seq::<EventV>::empty());
    assert(events_output(last, r1) == event_output(stop, r1) + events_output(
        last.drop_first(),
        event_next(stop, r1),
    ));
    assert(events_output(last, r1) =~= event_output(stop, r1));
    let mid = seq![EventV::Str(s), stop];
    assert(mid.drop_first() =~= last);
    assert(mid.drop_first() == last);
    assert(mid[0] == EventV::Str(s));
    assert(events_output(mid, r1) =~= events_output(last, r1));
    assert(with_text.drop_first() =~= mid);
    assert(with_text.drop_first() == mid);
    assert(with_text[0] == start);
    assert(events_output(with_text, r) == event_output(start, r) + events_output(mid, r1));
    assert(without.drop_first() =~= last);
    assert(without.drop_first() == last);
    assert(without[0] == start);
    assert(events_output(without, r) == event_output(start, r) + events_output(last, r1));
    assert(events_output(with_text, r) =~= events_output(without, r));
}

} // verus!
