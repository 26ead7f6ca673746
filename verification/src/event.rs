//! The semantic markup event model.
//!
//! A document body is an ordered stream of [`Event`]s produced by an outside
//! parser: text runs, inline markers, and well-nested `Start`/`End` pairs of
//! [`Container`]s. The renderers fold such a stream into target-format text.
//!
//! Each type comes with a mathematical view ([`EventV`], [`ContainerV`],
//! [`AttributeV`]) over which all contracts in this crate are stated.

use vstd::prelude::*;

verus! {

/// The emit mode of a renderer: escape text, pass it through raw, or
/// discard it.
#[derive(Clone, Copy, PartialEq, Eq, Structural, Debug)]
pub enum Emit {
    Escaped,
    Raw,
    Suppressed,
}

/// One `key="value"` attribute attached to a container start event.
pub struct Attribute {
    pub key: String,
    pub value: String,
}

/// Mathematical view of an [`Attribute`].
pub struct AttributeV {
    pub key: Seq<char>,
    pub value: Seq<char>,
}

/// The numbering scheme of an ordered list.
#[derive(Clone, Copy, PartialEq, Eq, Structural, Debug)]
pub enum OrderedListNumbering {
    Decimal,
    AlphaLower,
    AlphaUpper,
    RomanLower,
    RomanUpper,
}

/// The punctuation around an ordered list's item labels.
#[derive(Clone, Copy, PartialEq, Eq, Structural, Debug)]
pub enum OrderedListStyle {
    Period,
    Paren,
    ParenParen,
}

/// The kind of a list container.
#[derive(Clone, Copy, PartialEq, Eq, Structural, Debug)]
pub enum ListKind {
    Unordered,
    Ordered { numbering: OrderedListNumbering, style: OrderedListStyle, start: u64 },
    Task,
}

/// A structural or inline scope, bracketed by `Start`/`End` events.
pub enum Container {
    Paragraph,
    Section { id: String },
    Heading { level: u64, id: String },
    Blockquote,
    List { kind: ListKind, tight: bool },
    ListItem,
    TaskListItem { checked: bool },
    DescriptionList,
    DescriptionTerm,
    DescriptionDetails,
    Span,
    Strong,
    Emphasis,
    Superscript,
    Subscript,
    Insert,
    Delete,
    Mark,
    Link { destination: String },
    Image { destination: String },
    Footnote { number: u64 },
    RawBlock { format: String },
    RawInline { format: String },
    Math { display: bool },
    Verbatim,
    CodeBlock { language: String },
    Div { class: String },
}

/// Mathematical view of a [`Container`].
pub enum ContainerV {
    Paragraph,
    Section { id: Seq<char> },
    Heading { level: u64, id: Seq<char> },
    Blockquote,
    List { kind: ListKind, tight: bool },
    ListItem,
    TaskListItem { checked: bool },
    DescriptionList,
    DescriptionTerm,
    DescriptionDetails,
    Span,
    Strong,
    Emphasis,
    Superscript,
    Subscript,
    Insert,
    Delete,
    Mark,
    Link { destination: Seq<char> },
    Image { destination: Seq<char> },
    Footnote { number: u64 },
    RawBlock { format: Seq<char> },
    RawInline { format: Seq<char> },
    Math { display: bool },
    Verbatim,
    CodeBlock { language: Seq<char> },
    Div { class: Seq<char> },
}

/// One unit of the semantic markup stream.
pub enum Event {
    Str(String),
    Symbol(String),
    LeftSingleQuote,
    RightSingleQuote,
    LeftDoubleQuote,
    RightDoubleQuote,
    Ellipsis,
    EnDash,
    EmDash,
    NonBreakingSpace,
    Softbreak,
    Hardbreak,
    Escape,
    Blankline,
    ThematicBreak,
    FootnoteReference(u64),
    Start(Container, Vec<Attribute>),
    End(Container),
}

/// Mathematical view of an [`Event`].
pub enum EventV {
    Str(Seq<char>),
    Symbol(Seq<char>),
    LeftSingleQuote,
    RightSingleQuote,
    LeftDoubleQuote,
    RightDoubleQuote,
    Ellipsis,
    EnDash,
    EmDash,
    NonBreakingSpace,
    Softbreak,
    Hardbreak,
    Escape,
    Blankline,
    ThematicBreak,
    FootnoteReference(u64),
    Start(ContainerV, Seq<AttributeV>),
    End(ContainerV),
}

impl View for Attribute {
    type V = AttributeV;

    open spec fn view(&self) -> AttributeV {
        AttributeV { key: self.key@, value: self.value@ }
    }
}

impl DeepView for Attribute {
    type V = AttributeV;

    open spec fn deep_view(&self) -> AttributeV {
        self.view()
    }
}

impl View for Container {
    type V = ContainerV;

    open spec fn view(&self) -> ContainerV {
        match self {
            Container::Paragraph => ContainerV::Paragraph,
            Container::Section { id } => ContainerV::Section { id: id@ },
            Container::Heading { level, id } => ContainerV::Heading { level: *level, id: id@ },
            Container::Blockquote => ContainerV::Blockquote,
            Container::List { kind, tight } => ContainerV::List { kind: *kind, tight: *tight },
            Container::ListItem => ContainerV::ListItem,
            Container::TaskListItem { checked } => ContainerV::TaskListItem { checked: *checked },
            Container::DescriptionList => ContainerV::DescriptionList,
            Container::DescriptionTerm => ContainerV::DescriptionTerm,
            Container::DescriptionDetails => ContainerV::DescriptionDetails,
            Container::Span => ContainerV::Span,
            Container::Strong => ContainerV::Strong,
            Container::Emphasis => ContainerV::Emphasis,
            Container::Superscript => ContainerV::Superscript,
            Container::Subscript => ContainerV::Subscript,
            Container::Insert => ContainerV::Insert,
            Container::Delete => ContainerV::Delete,
            Container::Mark => ContainerV::Mark,
            Container::Link { destination } => ContainerV::Link { destination: destination@ },
            Container::Image { destination } => ContainerV::Image { destination: destination@ },
            Container::Footnote { number } => ContainerV::Footnote { number: *number },
            Container::RawBlock { format } => ContainerV::RawBlock { format: format@ },
            Container::RawInline { format } => ContainerV::RawInline { format: format@ },
            Container::Math { display } => ContainerV::Math { display: *display },
            Container::Verbatim => ContainerV::Verbatim,
            Container::CodeBlock { language } => ContainerV::CodeBlock { language: language@ },
            Container::Div { class } => ContainerV::Div { class: class@ },
        }
    }
}

impl DeepView for Container {
    type V = ContainerV;

    open spec fn deep_view(&self) -> ContainerV {
        self.view()
    }
}

impl View for Event {
    type V = EventV;

    open spec fn view(&self) -> EventV {
        match self {
            Event::Str(s) => EventV::Str(s@),
            Event::Symbol(s) => EventV::Symbol(s@),
            Event::LeftSingleQuote => EventV::LeftSingleQuote,
            Event::RightSingleQuote => EventV::RightSingleQuote,
            Event::LeftDoubleQuote => EventV::LeftDoubleQuote,
            Event::RightDoubleQuote => EventV::RightDoubleQuote,
            Event::Ellipsis => EventV::Ellipsis,
            Event::EnDash => EventV::EnDash,
            Event::EmDash => EventV::EmDash,
            Event::NonBreakingSpace => EventV::NonBreakingSpace,
            Event::Softbreak => EventV::Softbreak,
            Event::Hardbreak => EventV::Hardbreak,
            Event::Escape => EventV::Escape,
            Event::Blankline => EventV::Blankline,
            Event::ThematicBreak => EventV::ThematicBreak,
            Event::FootnoteReference(n) => EventV::FootnoteReference(*n),
            Event::Start(c, attrs) => EventV::Start(c@, attrs.deep_view()),
            Event::End(c) => EventV::End(c@),
        }
    }
}

impl DeepView for Event {
    type V = EventV;

    open spec fn deep_view(&self) -> EventV {
        self.view()
    }
}

impl ContainerV {
    /// Whether this container is a block-level scope: block starts are
    /// preceded by a separating blank line, inline scopes are not.
    pub open spec fn is_block(&self) -> bool {
        match self {
            ContainerV::Paragraph => true,
            ContainerV::Section { .. } => true,
            ContainerV::Heading { .. } => true,
            ContainerV::Blockquote => true,
            ContainerV::List { .. } => true,
            ContainerV::ListItem => true,
            ContainerV::TaskListItem { .. } => true,
            ContainerV::DescriptionList => true,
            ContainerV::DescriptionTerm => true,
            ContainerV::DescriptionDetails => true,
            ContainerV::Footnote { .. } => true,
            ContainerV::RawBlock { .. } => true,
            ContainerV::CodeBlock { .. } => true,
            ContainerV::Div { .. } => true,
            _ => false,
        }
    }
}

impl Container {
    /// Executable block test, equal to [`ContainerV::is_block`] on the view.
    pub fn is_block(&self) -> (r: bool)
        ensures
            r == self@.is_block(),
    {
        match self {
            Container::Paragraph => true,
            Container::Section { .. } => true,
            Container::Heading { .. } => true,
            Container::Blockquote => true,
            Container::List { .. } => true,
            Container::ListItem => true,
            Container::TaskListItem { .. } => true,
            Container::DescriptionList => true,
            Container::DescriptionTerm => true,
            Container::DescriptionDetails => true,
            Container::Footnote { .. } => true,
            Container::RawBlock { .. } => true,
            Container::CodeBlock { .. } => true,
            Container::Div { .. } => true,
            _ => false,
        }
    }
}

impl Clone for Attribute {
    fn clone(&self) -> (r: Self)
        ensures
            r@ == self@,
    {
        Attribute { key: self.key.clone(), value: self.value.clone() }
    }
}

impl Clone for Container {
    fn clone(&self) -> (r: Self)
        ensures
            r@ == self@,
    {
        match self {
            Container::Paragraph => Container::Paragraph,
            Container::Section { id } => Container::Section { id: id.clone() },
            Container::Heading { level, id } => Container::Heading {
                level: *level,
                id: id.clone(),
            },
            Container::Blockquote => Container::Blockquote,
            Container::List { kind, tight } => Container::List { kind: *kind, tight: *tight },
            Container::ListItem => Container::ListItem,
            Container::TaskListItem { checked } => Container::TaskListItem { checked: *checked },
            Container::DescriptionList => Container::DescriptionList,
            Container::DescriptionTerm => Container::DescriptionTerm,
            Container::DescriptionDetails => Container::DescriptionDetails,
            Container::Span => Container::Span,
            Container::Strong => Container::Strong,
            Container::Emphasis => Container::Emphasis,
            Container::Superscript => Container::Superscript,
            Container::Subscript => Container::Subscript,
            Container::Insert => Container::Insert,
            Container::Delete => Container::Delete,
            Container::Mark => Container::Mark,
            Container::Link { destination } => Container::Link { destination: destination.clone() },
            Container::Image { destination } => Container::Image {
                destination: destination.clone(),
            },
            Container::Footnote { number } => Container::Footnote { number: *number },
            Container::RawBlock { format } => Container::RawBlock { format: format.clone() },
            Container::RawInline { format } => Container::RawInline { format: format.clone() },
            Container::Math { display } => Container::Math { display: *display },
            Container::Verbatim => Container::Verbatim,
            Container::CodeBlock { language } => Container::CodeBlock {
                language: language.clone(),
            },
            Container::Div { class } => Container::Div { class: class.clone() },
        }
    }
}

impl Clone for Event {
    fn clone(&self) -> (r: Self)
        ensures
            r@ == self@,
    {
        match self {
            Event::Str(s) => Event::Str(s.clone()),
            Event::Symbol(s) => Event::Symbol(s.clone()),
            Event::LeftSingleQuote => Event::LeftSingleQuote,
            Event::RightSingleQuote => Event::RightSingleQuote,
            Event::LeftDoubleQuote => Event::LeftDoubleQuote,
            Event::RightDoubleQuote => Event::RightDoubleQuote,
            Event::Ellipsis => Event::Ellipsis,
            Event::EnDash => Event::EnDash,
            Event::EmDash => Event::EmDash,
            Event::NonBreakingSpace => Event::NonBreakingSpace,
            Event::Softbreak => Event::Softbreak,
            Event::Hardbreak => Event::Hardbreak,
            Event::Escape => Event::Escape,
            Event::Blankline => Event::Blankline,
            Event::ThematicBreak => Event::ThematicBreak,
            Event::FootnoteReference(n) => Event::FootnoteReference(*n),
            Event::Start(c, attrs) => {
                let mut cloned_attrs: Vec<Attribute> = Vec::new();
                let mut i: usize = 0;
                while i < attrs.len()
                    invariant
                        i <= attrs@.len(),
                        cloned_attrs@.len() == i,
                        forall|j: int| 0 <= j < i ==> cloned_attrs@[j]@ == attrs@[j]@,
                    decreases attrs@.len() - i,
                {
                    cloned_attrs.push(attrs[i].clone());
                    i = i + 1;
                }
                proof {
                    assert(cloned_attrs.deep_view() =~= attrs.deep_view());
                }
                Event::Start(c.clone(), cloned_attrs)
            },
            Event::End(c) => Event::End(c.clone()),
        }
    }
}

/// The value of the first attribute named `key`, if any.
pub open spec fn attr_value_spec(attrs: Seq<AttributeV>, key: Seq<char>) -> Option<Seq<char>>
    decreases attrs.len(),
{
    if attrs.len() == 0 {
        None
    } else if attrs[0].key == key {
        Some(attrs[0].value)
    } else {
        attr_value_spec(attrs.drop_first(), key)
    }
}

/// Looks up the first attribute named `key`.
pub fn attr_value(attrs: &Vec<Attribute>, key: &str) -> (r: Option<String>)
    ensures
        match r {
            Some(v) => attr_value_spec(attrs.deep_view(), key@) == Some(v@),
            None => attr_value_spec(attrs.deep_view(), key@) is None,
        },
{
    let ghost vs = attrs.deep_view();
    let key_owned = String::from_str(key);
    let mut i: usize = 0;
    proof {
        assert(vs.skip(0) =~= vs);
    }
    while i < attrs.len()
        invariant
            vs == attrs.deep_view(),
            key_owned@ == key@,
            i <= attrs@.len(),
            vs.len() == attrs@.len(),
            attr_value_spec(vs, key@) == attr_value_spec(vs.skip(i as int), key@),
        decreases attrs@.len() - i,
    {
        proof {
            assert(vs.skip(i as int).drop_first() =~= vs.skip(i + 1));
            assert(vs.skip(i as int)[0] == vs[i as int]);
        }
        if attrs[i].key.eq(&key_owned) {
            return Some(attrs[i].value.clone());
        }
        i = i + 1;
    }
    proof {
        assert(vs.skip(vs.len() as int) =~= Seq::<AttributeV>::empty());
    }
    None
}

} // verus!
