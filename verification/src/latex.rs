//! The typeset-markup renderer: folds a semantic event stream into LaTeX
//! source text.
//!
//! The renderer is a small state machine: an emit mode decides whether text
//! runs are escaped, passed through raw, or discarded, and a first-line flag
//! suppresses the blank line that otherwise separates block-level containers.
//! Every emitted byte is pinned down by the spec functions in this module.

use vstd::prelude::*;

use crate::event::{AttributeV, Container, ContainerV, Emit, Event, EventV, ListKind,
    OrderedListNumbering, OrderedListStyle};
use crate::utils::{append_dec, dec_of, push_char};

verus! {

/// The LaTeX renderer state.
pub struct Renderer {
    /// Whether headings are numbered; when false, sectioning commands carry
    /// the starred no-numbering form.
    pub number_sections: bool,
    /// The current emit mode.
    pub emit: Emit,
    /// True until the first event has been processed; suppresses the
    /// leading block separator.
    pub first_line: bool,
}

/// Whether `c` is reserved in LaTeX text and must be escaped.
pub open spec fn reserved_char(c: char) -> bool {
    c == '&' || c == '%' || c == '$' || c == '#' || c == '_' || c == '{' || c == '}' || c == '~'
        || c == '^' || c == '\\'
}

/// The escape sequence of one character; non-reserved characters pass
/// through unchanged.
pub open spec fn escape_char(c: char) -> Seq<char> {
    if c == '&' {
        ("\\&")@
    } else if c == '%' {
        ("\\%")@
    } else if c == '$' {
        ("\\$")@
    } else if c == '#' {
        ("\\#")@
    } else if c == '_' {
        ("\\_")@
    } else if c == '{' {
        ("\\{")@
    } else if c == '}' {
        ("\\}")@
    } else if c == '~' {
        ("\\textasciitilde")@
    } else if c == '^' {
        ("\\textasciicircum")@
    } else if c == '\\' {
        ("\\textasciibackslash")@
    } else {
        seq![c]
    }
}

/// The LaTeX-escaped form of a string.
pub open spec fn escape(s: Seq<char>) -> Seq<char>
    decreases s.len(),
{
    if s.len() == 0 {
        Seq::empty()
    } else {
        escape_char(s[0]) + escape(s.drop_first())
    }
}

/// Extending the input of [`escape`] by one character appends that
/// character's escape sequence to the output.
pub proof fn lemma_escape_snoc(s: Seq<char>, i: int)
    requires
        0 <= i < s.len(),
    ensures
        escape(s.take(i + 1)) == escape(s.take(i)) + escape_char(s[i]),
    decreases i,
{
    if i == 0 {
        assert(s.take(1).drop_first() =~= Seq::<char>::empty());
        assert(s.take(0) =~= Seq::<char>::empty());
        assert(s.take(1)[0] == s[0]);
        assert(escape(Seq::<char>::empty()) == Seq::<char>::empty());
        assert(escape(s.take(1)) == escape_char(s.take(1)[0]) + escape(s.take(1).drop_first()));
        assert(escape(s.take(1)) =~= escape_char(s[0]));
        assert(escape(s.take(0)) + escape_char(s[0]) =~= escape_char(s[0]));
    } else {
        let t = s.drop_first();
        lemma_escape_snoc(t, i - 1);
        assert(s.take(i + 1).drop_first() =~= t.take(i));
        assert(s.take(i).drop_first() =~= t.take(i - 1));
        assert(s.take(i + 1)[0] == s[0]);
        assert(s.take(i)[0] == s[0]);
        let j = i - 1;
        assert(escape(s.take(i)) + escape_char(s[i]) =~= escape_char(s[0]) + (escape(t.take(j))
            + escape_char(t[j])));
    }
}

/// Writes `s` to `w` with every reserved LaTeX character replaced by its
/// escape sequence.
pub fn write_escaped(w: &mut String, s: &str)
    ensures
        final(w)@ == old(w)@ + escape(s@),
{
    let n: usize = s.unicode_len();
    let mut i: usize = 0;
    while i < n
        invariant
            i <= n,
            n == s@.len(),
            w@ == old(w)@ + escape(s@.take(i as int)),
        decreases n - i,
    {
        let c = s.get_char(i);
        proof {
            lemma_escape_snoc(s@, i as int);
        }
        let ghost w_prev = w@;
        match c {
            '&' => w.append("\\&"),
            '%' => w.append("\\%"),
            '$' => w.append("\\$"),
            '#' => w.append("\\#"),
            '_' => w.append("\\_"),
            '{' => w.append("\\{"),
            '}' => w.append("\\}"),
            '~' => w.append("\\textasciitilde"),
            '^' => w.append("\\textasciicircum"),
            '\\' => w.append("\\textasciibackslash"),
            _ => push_char(w, c),
        }
        proof {
            assert(w@ =~= w_prev + escape_char(s@[i as int]));
            assert(w@ =~= old(w)@ + escape(s@.take(i + 1)));
        }
        i = i + 1;
    }
    proof {
        assert(s@.take(n as int) =~= s@);
    }
}

/// The renderer state before any event has been processed.
pub open spec fn init_renderer(number_sections: bool) -> Renderer {
    Renderer { number_sections, emit: Emit::Escaped, first_line: true }
}

/// The sectioning command for one heading level; levels outside 1..=5 have
/// no command.
pub open spec fn heading_command(level: u64) -> Seq<char> {
    if level == 1 {
        ("\\section")@
    } else if level == 2 {
        ("\\subsection")@
    } else if level == 3 {
        ("\\subsubsection")@
    } else if level == 4 {
        ("\\paragraph")@
    } else if level == 5 {
        ("\\subparagraph")@
    } else {
        Seq::empty()
    }
}

/// The per-item counter command of an ordered list numbering scheme.
pub open spec fn numbering_command(numbering: OrderedListNumbering) -> Seq<char> {
    match numbering {
        OrderedListNumbering::Decimal => ("\\arabic*")@,
        OrderedListNumbering::AlphaLower => ("\\alph*")@,
        OrderedListNumbering::AlphaUpper => ("\\Alph*")@,
        OrderedListNumbering::RomanLower => ("\\roman*")@,
        OrderedListNumbering::RomanUpper => ("\\Roman*")@,
    }
}

/// The text that opens a list environment.
pub open spec fn list_open(kind: ListKind) -> Seq<char> {
    match kind {
        ListKind::Unordered => ("{itemize}\n")@,
        ListKind::Task => ("{tasklist}\n")@,
        ListKind::Ordered { numbering, style, start } => ("{enumerate}[label=")@ + (if style
            is ParenParen {
            ("(")@
        } else {
            Seq::empty()
        }) + numbering_command(numbering) + (if style is Period {
            (".")@
        } else {
            (")")@
        }) + (", start=")@ + dec_of(start as nat) + ("]\n")@,
    }
}

/// The environment name that closes a list.
pub open spec fn list_close(kind: ListKind) -> Seq<char> {
    match kind {
        ListKind::Unordered => ("itemize")@,
        ListKind::Ordered { .. } => ("enumerate")@,
        ListKind::Task => ("tasklist")@,
    }
}

/// The blank-line separator emitted before a block-level container start.
pub open spec fn separator(c: ContainerV, r: Renderer) -> Seq<char> {
    if r.first_line {
        Seq::empty()
    } else if c.is_block() && !(c is Section) {
        ("\n")@
    } else {
        Seq::empty()
    }
}

/// The markup emitted for a container start, not counting the block
/// separator.
pub open spec fn start_output(c: ContainerV, r: Renderer) -> Seq<char> {
    match c {
        ContainerV::Paragraph => Seq::empty(),
        ContainerV::Section { .. } => Seq::empty(),
        ContainerV::DescriptionDetails => Seq::empty(),
        ContainerV::Div { .. } => Seq::empty(),
        ContainerV::Blockquote => ("\\begin{quote}")@,
        ContainerV::DescriptionList => ("\\begin{description}\n")@,
        ContainerV::Span => ("{")@,
        ContainerV::Strong => ("\\textbf{")@,
        ContainerV::Emphasis => ("\\textit{")@,
        ContainerV::Superscript => ("\\textsuperscript{")@,
        ContainerV::Subscript => ("\\textsubscript{")@,
        ContainerV::Insert => ("\\ul{")@,
        ContainerV::Delete => ("\\st{")@,
        ContainerV::Mark => ("\\hl{")@,
        ContainerV::Link { destination } => ("\\href{")@ + destination + ("}{")@,
        ContainerV::DescriptionTerm => ("\\item[")@,
        ContainerV::Footnote { number } => ("\\footnotetext[")@ + dec_of(number as nat) + ("]{")@,
        ContainerV::Image { destination } => ("\\begin{figure}\n\\centering\n")@ + (
        "\\includegraphics[width=\\textwidth]{")@ + destination + ("}\\caption{")@,
        ContainerV::Heading { level, id } => {
            if level < 6 {
                ("\\hypertarget{")@ + escape(id) + ("}{%\n")@ + heading_command(level) + (
                if !r.number_sections {
                    ("*")@
                } else {
                    Seq::empty()
                }) + ("{")@
            } else {
                Seq::empty()
            }
        },
        ContainerV::RawBlock { .. } => Seq::empty(),
        ContainerV::RawInline { .. } => Seq::empty(),
        ContainerV::Math { display } => if display {
            ("\\[")@
        } else {
            ("\\(")@
        },
        ContainerV::List { kind, tight } => ("\\begin")@ + list_open(kind) + (if tight {
            ("\\tightlist")@
        } else {
            Seq::empty()
        }),
        ContainerV::ListItem => ("\\item")@,
        ContainerV::Verbatim => ("\\verb|")@,
        ContainerV::CodeBlock { .. } => ("\\begin{verbatim}\n")@,
        ContainerV::TaskListItem { checked } => ("\\item")@ + (if checked {
            ("[\\done]")@
        } else {
            Seq::empty()
        }),
    }
}

/// The markup emitted for a container end.
pub open spec fn end_output(c: ContainerV) -> Seq<char> {
    match c {
        ContainerV::Section { .. } => Seq::empty(),
        ContainerV::ListItem => Seq::empty(),
        ContainerV::DescriptionDetails => Seq::empty(),
        ContainerV::Div { .. } => Seq::empty(),
        ContainerV::Paragraph => ("\n")@,
        ContainerV::Heading { level, id } => {
            if level < 6 {
                ("}\\label{")@ + id + ("}}\n")@
            } else {
                Seq::empty()
            }
        },
        ContainerV::Blockquote => ("\\end{quote}\n")@,
        ContainerV::Image { .. } => ("}\n\\end{figure}\n")@,
        ContainerV::DescriptionList => ("\\end{description}\n")@,
        ContainerV::DescriptionTerm => ("]\n")@,
        ContainerV::List { kind, .. } => ("\\end{")@ + list_close(kind) + ("}")@,
        ContainerV::Strong => ("}")@,
        ContainerV::Emphasis => ("}")@,
        ContainerV::Superscript => ("}")@,
        ContainerV::Subscript => ("}")@,
        ContainerV::Insert => ("}")@,
        ContainerV::Delete => ("}")@,
        ContainerV::Mark => ("}")@,
        ContainerV::Span => ("}")@,
        ContainerV::Link { .. } => ("}")@,
        ContainerV::Footnote { .. } => ("}")@,
        ContainerV::RawBlock { .. } => Seq::empty(),
        ContainerV::RawInline { .. } => Seq::empty(),
        ContainerV::Math { display } => if display {
            ("\\]")@
        } else {
            ("\\)")@
        },
        ContainerV::Verbatim => ("|")@,
        ContainerV::CodeBlock { .. } => ("\\end{verbatim}\n")@,
        ContainerV::TaskListItem { .. } => Seq::empty(),
    }
}

/// Whether a raw region's format tag selects raw pass-through for this
/// renderer; any other tag suppresses the region's content.
pub open spec fn own_format(format: Seq<char>) -> bool {
    format == ("latex")@ || format == ("tex")@
}

/// The emit mode in force after a container start.
pub open spec fn start_emit(c: ContainerV, m: Emit) -> Emit {
    match c {
        ContainerV::RawBlock { format } => if own_format(format) {
            Emit::Raw
        } else {
            Emit::Suppressed
        },
        ContainerV::RawInline { format } => if own_format(format) {
            Emit::Raw
        } else {
            Emit::Suppressed
        },
        ContainerV::Math { .. } => Emit::Raw,
        ContainerV::Verbatim => Emit::Raw,
        ContainerV::CodeBlock { .. } => Emit::Raw,
        _ => m,
    }
}

/// The emit mode in force after a container end.
pub open spec fn end_emit(c: ContainerV, m: Emit) -> Emit {
    match c {
        ContainerV::RawBlock { .. } => Emit::Escaped,
        ContainerV::RawInline { .. } => Emit::Escaped,
        ContainerV::Math { .. } => Emit::Escaped,
        ContainerV::Verbatim => Emit::Escaped,
        ContainerV::CodeBlock { .. } => Emit::Escaped,
        _ => m,
    }
}

/// The emit mode in force after one event.
pub open spec fn emit_after(e: EventV, m: Emit) -> Emit {
    match e {
        EventV::Start(c, _) => start_emit(c, m),
        EventV::End(c) => end_emit(c, m),
        _ => m,
    }
}

/// The text emitted for one event in a given renderer state.
pub open spec fn event_output(e: EventV, r: Renderer) -> Seq<char> {
    match e {
        EventV::Str(s) => match r.emit {
            Emit::Escaped => escape(s),
            Emit::Raw => s,
            Emit::Suppressed => Seq::empty(),
        },
        EventV::Symbol(s) => (":")@ + s + (":")@,
        EventV::LeftSingleQuote => ("`")@,
        EventV::RightSingleQuote => ("'")@,
        EventV::LeftDoubleQuote => ("``")@,
        EventV::RightDoubleQuote => ("\"")@,
        EventV::Ellipsis => ("\\ldots")@,
        EventV::EnDash => ("\\textendash")@,
        EventV::EmDash => ("\\textemdash")@,
        EventV::NonBreakingSpace => ("~")@,
        EventV::Softbreak => ("\n")@,
        EventV::Hardbreak => ("\\\\\n")@,
        EventV::Escape => Seq::empty(),
        EventV::Blankline => Seq::empty(),
        EventV::ThematicBreak => (
        "\n\\begin{center}\\rule{0.5\\linewidth}{0.5pt}\\end{center}")@,
        EventV::FootnoteReference(n) => ("\\footnotemark[")@ + dec_of(n as nat) + ("]")@,
        EventV::Start(c, _) => separator(c, r) + start_output(c, r),
        EventV::End(c) => end_output(c),
    }
}

/// The renderer state after one event.
pub open spec fn event_next(e: EventV, r: Renderer) -> Renderer {
    Renderer { number_sections: r.number_sections, emit: emit_after(e, r.emit), first_line: false }
}

/// The text emitted for a whole event stream started in state `r`.
pub open spec fn events_output(es: Seq<EventV>, r: Renderer) -> Seq<char>
    decreases es.len(),
{
    if es.len() == 0 {
        Seq::empty()
    } else {
        event_output(es[0], r) + events_output(es.drop_first(), event_next(es[0], r))
    }
}

/// The renderer state after a whole event stream started in state `r`.
pub open spec fn events_next(es: Seq<EventV>, r: Renderer) -> Renderer
    decreases es.len(),
{
    if es.len() == 0 {
        r
    } else {
        events_next(es.drop_first(), event_next(es[0], r))
    }
}

/// The LaTeX source of one text body, rendered from its initial state.
pub open spec fn body_output(es: Seq<EventV>, number_sections: bool) -> Seq<char> {
    events_output(es, init_renderer(number_sections))
}

impl Default for Renderer {
    /// A fresh renderer: escaping, before its first line, with section
    /// numbering off.
    fn default() -> (r: Self)
        ensures
            r == init_renderer(false),
    {
        Renderer { number_sections: false, emit: Emit::Escaped, first_line: true }
    }
}

impl Renderer {
    /// Sets whether sectioning commands are numbered.
    #[must_use]
    pub fn number_sections(self, number_sections: bool) -> (r: Self)
        ensures
            r == (Renderer { number_sections, ..self }),
    {
        Renderer { number_sections, ..self }
    }

    /// Emits the opening markup of a heading of the given level.
    fn append_heading_start(out: &mut String, level: u64, id: &String, number_sections: bool)
        ensures
            final(out)@ == old(out)@ + start_output(
                ContainerV::Heading { level, id: id@ },
                Renderer { number_sections, emit: Emit::Escaped, first_line: false },
            ),
    {
        if level < 6 {
            out.append("\\hypertarget{");
            write_escaped(out, id.as_str());
            out.append("}{%\n");
            if level == 1 {
                out.append("\\section");
            } else if level == 2 {
                out.append("\\subsection");
            } else if level == 3 {
                out.append("\\subsubsection");
            } else if level == 4 {
                out.append("\\paragraph");
            } else if level == 5 {
                out.append("\\subparagraph");
            }
            if !number_sections {
                out.append("*");
            }
            out.append("{");
        }
        assert(out@ =~= old(out)@ + start_output(
            ContainerV::Heading { level, id: id@ },
            Renderer { number_sections, emit: Emit::Escaped, first_line: false },
        ));
    }

    /// Emits the opening of a list environment.
    #[verifier::rlimit(60)]
    fn append_list_start(out: &mut String, kind: &ListKind, tight: bool)
        ensures
            final(out)@ == old(out)@ + ("\\begin")@ + list_open(*kind) + (if tight {
                ("\\tightlist")@
            } else {
                Seq::<char>::empty()
            }),
    {
        out.append("\\begin");
        match kind {
            ListKind::Unordered => out.append("{itemize}\n"),
            ListKind::Task => out.append("{tasklist}\n"),
            ListKind::Ordered { numbering, style, start } => {
                out.append("{enumerate}[label=");
                if matches!(style, OrderedListStyle::ParenParen) {
                    out.append("(");
                }
                match numbering {
                    OrderedListNumbering::Decimal => out.append("\\arabic*"),
                    OrderedListNumbering::AlphaLower => out.append("\\alph*"),
                    OrderedListNumbering::AlphaUpper => out.append("\\Alph*"),
                    OrderedListNumbering::RomanLower => out.append("\\roman*"),
                    OrderedListNumbering::RomanUpper => out.append("\\Roman*"),
                }
                match style {
                    OrderedListStyle::Period => out.append("."),
                    _ => out.append(")"),
                }
                out.append(", start=");
                append_dec(out, *start);
                out.append("]\n");
            },
        }
        if tight {
            out.append("\\tightlist");
        }
        assert(out@ =~= old(out)@ + ("\\begin")@ + list_open(*kind) + (if tight {
            ("\\tightlist")@
        } else {
            Seq::<char>::empty()
        }));
    }

    /// Emits the figure wrapper that opens an image.
    fn append_image_start(out: &mut String, destination: &String)
        ensures
            final(out)@ == old(out)@ + start_output(
                ContainerV::Image { destination: destination@ },
                init_renderer(false),
            ),
    {
        out.append("\\begin{figure}\n\\centering\n");
        out.append("\\includegraphics[width=\\textwidth]{");
        out.append(destination.as_str());
        out.append("}\\caption{");
        assert(out@ =~= old(out)@ + start_output(
            ContainerV::Image { destination: destination@ },
            init_renderer(false),
        ));
    }

    /// Emits the block separator and opening markup of one container, and
    /// switches the emit mode where the container demands it.
    #[verifier::rlimit(60)]
    fn render_start(&mut self, c: &Container, out: &mut String)
        ensures
            final(out)@ == old(out)@ + separator(c@, *old(self)) + start_output(c@, *old(self)),
            *final(self) == (Renderer {
                emit: start_emit(c@, old(self).emit),
                ..*old(self)
            }),
    {
        let ghost sep = separator(c@, *old(self));
        if self.first_line {
        } else {
            let is_section = match c {
                Container::Section { .. } => true,
                _ => false,
            };
            if c.is_block() && !is_section {
                out.append("\n");
            }
        }
        assert(out@ =~= old(out)@ + sep);
        let ghost mid = out@;
        match c {
            Container::Paragraph => (),
            Container::Section { .. } => (),
            Container::DescriptionDetails => (),
            Container::Div { .. } => (),
            Container::Blockquote => out.append("\\begin{quote}"),
            Container::DescriptionList => out.append("\\begin{description}\n"),
            Container::Span => out.append("{"),
            Container::Strong => out.append("\\textbf{"),
            Container::Emphasis => out.append("\\textit{"),
            Container::Superscript => out.append("\\textsuperscript{"),
            Container::Subscript => out.append("\\textsubscript{"),
            Container::Insert => out.append("\\ul{"),
            Container::Delete => out.append("\\st{"),
            Container::Mark => out.append("\\hl{"),
            Container::Link { destination } => {
                out.append("\\href{");
                out.append(destination.as_str());
                out.append("}{");
            },
            Container::DescriptionTerm => out.append("\\item["),
            Container::Footnote { number } => {
                out.append("\\footnotetext[");
                append_dec(out, *number);
                out.append("]{");
            },
            Container::Image { destination } => Self::append_image_start(out, destination),
            Container::Heading { level, id } => Self::append_heading_start(
                out,
                *level,
                id,
                self.number_sections,
            ),
            Container::RawBlock { format } | Container::RawInline { format } => {
                let latex_tag = String::from_str("latex");
                let tex_tag = String::from_str("tex");
                if format.eq(&latex_tag) || format.eq(&tex_tag) {
                    self.emit = Emit::Raw;
                } else {
                    self.emit = Emit::Suppressed;
                }
            },
            Container::Math { display } => {
                self.emit = Emit::Raw;
                if *display {
                    out.append("\\[");
                } else {
                    out.append("\\(");
                }
            },
            Container::List { kind, tight } => Self::append_list_start(out, kind, *tight),
            Container::ListItem => out.append("\\item"),
            Container::Verbatim => {
                self.emit = Emit::Raw;
                out.append("\\verb|");
            },
            Container::CodeBlock { .. } => {
                self.emit = Emit::Raw;
                out.append("\\begin{verbatim}\n");
            },
            Container::TaskListItem { checked } => {
                out.append("\\item");
                if *checked {
                    out.append("[\\done]");
                }
            },
        }
        assert(out@ =~= mid + start_output(c@, *old(self)));
        assert(out@ =~= old(out)@ + separator(c@, *old(self)) + start_output(c@, *old(self)));
    }

    /// Emits the closing markup of one container, and restores escaping
    /// where the container had switched the emit mode.
    fn render_end(&mut self, c: &Container, out: &mut String)
        ensures
            final(out)@ == old(out)@ + end_output(c@),
            *final(self) == (Renderer { emit: end_emit(c@, old(self).emit), ..*old(self) }),
    {
        match c {
            Container::Section { .. } => (),
            Container::ListItem => (),
            Container::DescriptionDetails => (),
            Container::Div { .. } => (),
            Container::TaskListItem { .. } => (),
            Container::Paragraph => out.append("\n"),
            Container::Heading { level, id } => {
                if *level < 6 {
                    out.append("}\\label{");
                    out.append(id.as_str());
                    out.append("}}\n");
                }
            },
            Container::Blockquote => out.append("\\end{quote}\n"),
            Container::Image { .. } => out.append("}\n\\end{figure}\n"),
            Container::DescriptionList => out.append("\\end{description}\n"),
            Container::DescriptionTerm => out.append("]\n"),
            Container::List { kind, .. } => {
                out.append("\\end{");
                match kind {
                    ListKind::Unordered => out.append("itemize"),
                    ListKind::Ordered { .. } => out.append("enumerate"),
                    ListKind::Task => out.append("tasklist"),
                }
                out.append("}");
            },
            Container::Strong => out.append("}"),
            Container::Emphasis => out.append("}"),
            Container::Superscript => out.append("}"),
            Container::Subscript => out.append("}"),
            Container::Insert => out.append("}"),
            Container::Delete => out.append("}"),
            Container::Mark => out.append("}"),
            Container::Span => out.append("}"),
            Container::Link { .. } => out.append("}"),
            Container::Footnote { .. } => out.append("}"),
            Container::RawBlock { .. } | Container::RawInline { .. } => {
                self.emit = Emit::Escaped;
            },
            Container::Math { display } => {
                self.emit = Emit::Escaped;
                if *display {
                    out.append("\\]");
                } else {
                    out.append("\\)");
                }
            },
            Container::Verbatim => {
                self.emit = Emit::Escaped;
                out.append("|");
            },
            Container::CodeBlock { .. } => {
                self.emit = Emit::Escaped;
                out.append("\\end{verbatim}\n");
            },
        }
        assert(out@ =~= old(out)@ + end_output(c@));
    }

    /// Processes one event: appends exactly [`event_output`] to `out` and
    /// steps the renderer state to [`event_next`].
    pub fn render_event(&mut self, e: &Event, out: &mut String)
        ensures
            final(out)@ == old(out)@ + event_output(e@, *old(self)),
            *final(self) == event_next(e@, *old(self)),
    {
        match e {
            Event::Str(s) => match self.emit {
                Emit::Escaped => write_escaped(out, s.as_str()),
                Emit::Raw => out.append(s.as_str()),
                Emit::Suppressed => (),
            },
            Event::Symbol(s) => {
                out.append(":");
                out.append(s.as_str());
                out.append(":");
            },
            Event::LeftSingleQuote => out.append("`"),
            Event::RightSingleQuote => out.append("'"),
            Event::LeftDoubleQuote => out.append("``"),
            Event::RightDoubleQuote => out.append("\""),
            Event::Ellipsis => out.append("\\ldots"),
            Event::EnDash => out.append("\\textendash"),
            Event::EmDash => out.append("\\textemdash"),
            Event::NonBreakingSpace => out.append("~"),
            Event::Softbreak => out.append("\n"),
            Event::Hardbreak => out.append("\\\\\n"),
            Event::Escape => (),
            Event::Blankline => (),
            Event::ThematicBreak => out.append(
                "\n\\begin{center}\\rule{0.5\\linewidth}{0.5pt}\\end{center}",
            ),
            Event::FootnoteReference(n) => {
                out.append("\\footnotemark[");
                append_dec(out, *n);
                out.append("]");
            },
            Event::Start(c, _) => self.render_start(c, out),
            Event::End(c) => self.render_end(c, out),
        }
        self.first_line = false;
        assert(out@ =~= old(out)@ + event_output(e@, *old(self)));
    }

    /// Renders a whole event stream, appending its output to `out`.
    pub fn push(&mut self, events: &Vec<Event>, out: &mut String)
        ensures
            final(out)@ == old(out)@ + events_output(events.deep_view(), *old(self)),
            *final(self) == events_next(events.deep_view(), *old(self)),
    {
        let ghost es = events.deep_view();
        let mut i: usize = 0;
        proof {
            assert(es.take(0) =~= Seq::<EventV>::empty());
            assert(out@ =~= out@ + Seq::<char>::empty());
        }
        while i < events.len()
            invariant
                es == events.deep_view(),
                es.len() == events@.len(),
                i <= events@.len(),
                out@ == old(out)@ + events_output(es.take(i as int), *old(self)),
                *self == events_next(es.take(i as int), *old(self)),
            decreases events@.len() - i,
        {
            proof {
                lemma_events_snoc(es, i as int, *old(self));
                assert(events@[i as int]@ == es[i as int]);
            }
            self.render_event(&events[i], out);
            i = i + 1;
        }
        proof {
            assert(es.take(es.len() as int) =~= es);
        }
    }
}

/// Extending an event stream by one event appends that event's output,
/// taken in the state the prefix leads to.
pub proof fn lemma_events_snoc(es: Seq<EventV>, i: int, r: Renderer)
    requires
        0 <= i < es.len(),
    ensures
        events_output(es.take(i + 1), r) == events_output(es.take(i), r) + event_output(
            es[i],
            events_next(es.take(i), r),
        ),
        events_next(es.take(i + 1), r) == event_next(es[i], events_next(es.take(i), r)),
    decreases i,
{
    if i == 0 {
        assert(es.take(1).drop_first() =~= Seq::<EventV>::empty());
        assert(es.take(0) =~= Seq::<EventV>::empty());
        assert(es.take(1)[0] == es[0]);
        assert(events_output(Seq::<EventV>::empty(), event_next(es[0], r))
            == Seq::<char>::empty());
        assert(events_output(es.take(1), r) == event_output(es.take(1)[0], r) + events_output(
            es.take(1).drop_first(),
            event_next(es.take(1)[0], r),
        ));
        assert(events_output(es.take(1), r) =~= event_output(es[0], r));
        assert(events_output(es.take(0), r) + event_output(es[0], events_next(es.take(0), r)) =~=
            event_output(es[0], r));
        assert(events_next(es.take(1), r) == events_next(
            es.take(1).drop_first(),
            event_next(es.take(1)[0], r),
        ));
        assert(events_next(Seq::<EventV>::empty(), event_next(es[0], r)) == event_next(es[0], r));
        assert(events_next(es.take(0), r) == r);
    } else {
        let t = es.drop_first();
        let r1 = event_next(es[0], r);
        lemma_events_snoc(t, i - 1, r1);
        assert(es.take(i + 1).drop_first() =~= t.take(i));
        assert(es.take(i).drop_first() =~= t.take(i - 1));
        assert(es.take(i + 1)[0] == es[0]);
        assert(es.take(i)[0] == es[0]);
        let j = i - 1;
        assert(events_output(es.take(i), r) + event_output(es[i], events_next(es.take(i), r)) =~=
            event_output(es[0], r) + (events_output(t.take(j), r1) + event_output(
            t[j],
            events_next(t.take(j), r1),
        )));
        assert(events_next(es.take(i + 1), r) == events_next(t.take(i), r1));
        assert(events_next(es.take(i), r) == events_next(t.take(j), r1));
    }
}

/// Renders one text body to a fresh buffer with the given numbering
/// setting.
pub fn render_text(events: &Vec<Event>, number_sections: bool) -> (r: String)
    ensures
        r@ == body_output(events.deep_view(), number_sections),
{
    let mut renderer = Renderer::default().number_sections(number_sections);
    let mut out = String::new();
    renderer.push(events, &mut out);
    out
}

/// Whether `c` has a two-character escape sequence `\c`.
pub open spec fn single_escapee(c: char) -> bool {
    c == '&' || c == '%' || c == '$' || c == '#' || c == '_' || c == '{' || c == '}'
}

/// Mechanically reverses the escaping of [`escape`]: each escape sequence
/// is replaced by the character it stands for, and every other character
/// passes through.
pub open spec fn unescape(t: Seq<char>) -> Seq<char>
    decreases t.len(),
{
    if t.len() == 0 {
        Seq::empty()
    } else if t[0] == '\\' {
        if t.len() >= 2 && single_escapee(t[1]) {
            seq![t[1]] + unescape(t.skip(2))
        } else if t.len() >= 15 && t.subrange(1, 15) == ("textasciitilde")@ {
            seq!['~'] + unescape(t.skip(15))
        } else if t.len() >= 16 && t.subrange(1, 16) == ("textasciicircum")@ {
            seq!['^'] + unescape(t.skip(16))
        } else if t.len() >= 19 && t.subrange(1, 19) == ("textasciibackslash")@ {
            seq!['\\'] + unescape(t.skip(19))
        } else {
            seq![t[0]] + unescape(t.skip(1))
        }
    } else {
        seq![t[0]] + unescape(t.skip(1))
    }
}

/// Unescaping consumes one whole escape sequence at the front of the
/// buffer, whatever follows it.
proof fn lemma_unescape_step(c: char, tail: Seq<char>)
    ensures
        unescape(escape_char(c) + tail) == seq![c] + unescape(tail),
{
    reveal_strlit("\\&");
    reveal_strlit("\\%");
    reveal_strlit("\\$");
    reveal_strlit("\\#");
    reveal_strlit("\\_");
    reveal_strlit("\\{");
    reveal_strlit("\\}");
    reveal_strlit("\\textasciitilde");
    reveal_strlit("\\textasciicircum");
    reveal_strlit("\\textasciibackslash");
    reveal_strlit("textasciitilde");
    reveal_strlit("textasciicircum");
    reveal_strlit("textasciibackslash");
    let t = escape_char(c) + tail;
    if single_escapee(c) {
        assert(t[0] == '\\' && t[1] == c);
        assert(t.skip(2) =~= tail);
        assert(unescape(t) =~= seq![c] + unescape(tail));
    } else if c == '~' {
        assert(t[0] == '\\' && t[1] == 't');
        assert(t.subrange(1, 15) =~= ("textasciitilde")@);
        assert(t.skip(15) =~= tail);
        assert(unescape(t) =~= seq![c] + unescape(tail));
    } else if c == '^' {
        assert(t[0] == '\\' && t[1] == 't');
        assert(t.subrange(1, 15)[9] == 'c' && (("textasciitilde")@)[9] == 't');
        assert(t.subrange(1, 15) != ("textasciitilde")@);
        assert(t.subrange(1, 16) =~= ("textasciicircum")@);
        assert(t.skip(16) =~= tail);
        assert(unescape(t) =~= seq![c] + unescape(tail));
    } else if c == '\\' {
        assert(t[0] == '\\' && t[1] == 't');
        assert(t.subrange(1, 15)[9] == 'b' && (("textasciitilde")@)[9] == 't');
        assert(t.subrange(1, 15) != ("textasciitilde")@);
        assert(t.subrange(1, 16)[9] == 'b' && (("textasciicircum")@)[9] == 'c');
        assert(t.subrange(1, 16) != ("textasciicircum")@);
        assert(t.subrange(1, 19) =~= ("textasciibackslash")@);
        assert(t.skip(19) =~= tail);
        assert(unescape(t) =~= seq![c] + unescape(tail));
    } else {
        assert(escape_char(c) =~= seq![c]);
        assert(t[0] == c && c != '\\');
        assert(t.skip(1) =~= tail);
        assert(unescape(t) =~= seq![c] + unescape(tail));
    }
}

/// Round trip of the escaping function: mechanically reversing the escape
/// sequences in the renderer's output for a text run reconstructs the
/// input exactly.
pub proof fn lemma_escape_round_trip(s: Seq<char>)
    ensures
        unescape(escape(s)) == s,
    decreases s.len(),
{
    if s.len() == 0 {
        assert(unescape(escape(s)) =~= s);
    } else {
        lemma_escape_round_trip(s.drop_first());
        lemma_unescape_step(s[0], escape(s.drop_first()));
        assert(unescape(escape(s)) =~= s);
    }
}

/// A text run rendered in escaped mode can be mechanically unescaped back
/// to the original string.
pub proof fn lemma_str_round_trip(s: Seq<char>, r: Renderer)
    requires
        r.emit is Escaped,
    ensures
        unescape(event_output(EventV::Str(s), r)) == s,
{
    lemma_escape_round_trip(s);
}

/// Headings of level 1 to 5 with numbering disabled always carry the
/// starred no-numbering marker; headings of level 6 and above emit no
/// sectioning markup at all.
pub proof fn lemma_heading_numbering(level: u64, id: Seq<char>, r: Renderer)
    ensures
        1 <= level < 6 && !r.number_sections ==> start_output(
            ContainerV::Heading { level, id },
            r,
        ) == ("\\hypertarget{")@ + escape(id) + ("}{%\n")@ + heading_command(level) + ("*")@ + (
        "{")@,
        level >= 6 ==> start_output(ContainerV::Heading { level, id }, r) == Seq::<char>::empty()
            && end_output(ContainerV::Heading { level, id }) == Seq::<char>::empty(),
{
}

/// Raw content tagged with a foreign format identifier is dropped: the
/// stream that carries text inside such a raw region renders to exactly
/// the same output as the stream without the text.
pub proof fn lemma_foreign_raw_dropped(
    format: Seq<char>,
    s: Seq<char>,
    attrs: Seq<AttributeV>,
    r: Renderer,
)
    requires
        !own_format(format),
    ensures
        events_output(
            seq![
                EventV::Start(ContainerV::RawBlock { format }, attrs),
                EventV::Str(s),
                EventV::End(ContainerV::RawBlock { format }),
            ],
            r,
        ) == events_output(
            seq![
                EventV::Start(ContainerV::RawBlock { format }, attrs),
                EventV::End(ContainerV::RawBlock { format }),
            ],
            r,
        ),
{
    let start = EventV::Start(ContainerV::RawBlock { format }, attrs);
    let stop = EventV::End(ContainerV::RawBlock { format });
    let with_text = seq![start, EventV::Str(s), stop];
    let without = seq![start, stop];
    let r1 = event_next(start, r);
    assert(r1.emit is Suppressed);
    assert(event_output(EventV::Str(s), r1) == Seq::<char>::empty());
    assert(event_next(EventV::Str(s), r1) == r1);
    let last = seq![stop];
    assert(last.drop_first() =~= Seq::<EventV>::empty());
    assert(last.drop_first() == Seq::<EventV>::empty());
    assert(events_output(last, r1) == event_output(stop, r1) + events_output(
        last.drop_first(),
        event_next(stop, r1),
    ));
    assert(events_output(last, r1) =~= event_output(stop, r1));
    let mid = seq![EventV::Str(s), stop];
    assert(mid.drop_first() =~= last);
    assert(mid.drop_first() == last);
    assert(mid[0] == EventV::Str(s));
    assert(events_output(mid, r1) =~= events_output(last, r1));
    assert(with_text.drop_first() =~= mid);
    assert(with_text.drop_first() == mid);
    assert(with_text[0] == start);
    assert(events_output(with_text, r) == event_output(start, r) + events_output(mid, r1));
    assert(without.drop_first() =~= last);
    assert(without.drop_first() == last);
    assert(without[0] == start);
    assert(events_output(without, r) == event_output(start, r) + events_output(last, r1));
    assert(events_output(with_text, r) =~= events_output(without, r));
}

} // verus!

