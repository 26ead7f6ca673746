//! The citation/math substitution adapter: stream transforms that run in
//! front of either renderer.
//!
//! Citation spans arm a pending substitution from an externally supplied
//! bibliography index; the next literal `@` placeholder is replaced by the
//! formatted citation, and a missing key leaves the placeholder untouched.
//! Math regions are rewritten to raw hypertext regions whose content is the
//! outside math renderer's output.

use vstd::prelude::*;

use crate::event::{AttributeV, Container, ContainerV, Event, EventV, attr_value, attr_value_spec};

verus! {

/// One resolved bibliography entry: a citation key and the formatted
/// citation text it stands for.
pub struct BibEntry {
    pub key: String,
    pub formatted: String,
}

/// Mathematical view of a [`BibEntry`].
pub struct BibEntryV {
    pub key: Seq<char>,
    pub formatted: Seq<char>,
}

impl View for BibEntry {
    type V = BibEntryV;

    open spec fn view(&self) -> BibEntryV {
        BibEntryV { key: self.key@, formatted: self.formatted@ }
    }
}

impl DeepView for BibEntry {
    type V = BibEntryV;

    open spec fn deep_view(&self) -> BibEntryV {
        self.view()
    }
}

/// An externally populated bibliography index mapping citation keys to
/// formatted citation strings.
pub struct Bibliography {
    pub entries: Vec<BibEntry>,
}

impl Bibliography {
    /// An empty index: every lookup misses.
    pub fn new() -> (r: Self)
        ensures
            r.entries.deep_view() == Seq::<BibEntryV>::empty(),
    {
        let entries: Vec<BibEntry> = Vec::new();
        proof {
            assert(entries.deep_view() =~= Seq::<BibEntryV>::empty());
        }
        Bibliography { entries }
    }

    /// Adds one resolved entry to the index.
    pub fn insert(&mut self, key: String, formatted: String)
        ensures
            final(self).entries.deep_view() == old(self).entries.deep_view().push(
                BibEntryV { key: key@, formatted: formatted@ },
            ),
    {
        let ghost before = self.entries.deep_view();
        self.entries.push(BibEntry { key, formatted });
        proof {
            assert(self.entries.deep_view() =~= before.push(
                self.entries.deep_view()[before.len() as int],
            ));
        }
    }

    /// Looks up the formatted citation for a key.
    pub fn lookup(&self, key: &str) -> (r: Option<String>)
        ensures
            match r {
                Some(v) => bib_lookup(self.entries.deep_view(), key@) == Some(v@),
                None => bib_lookup(self.entries.deep_view(), key@) is None,
            },
    {
        let ghost es = self.entries.deep_view();
        let key_owned = String::from_str(key);
        let mut i: usize = 0;
        proof {
            assert(es.skip(0) =~= es);
        }
        while i < self.entries.len()
            invariant
                es == self.entries.deep_view(),
                key_owned@ == key@,
                i <= self.entries@.len(),
                es.len() == self.entries@.len(),
                bib_lookup(es, key@) == bib_lookup(es.skip(i as int), key@),
            decreases self.entries@.len() - i,
        {
            proof {
                assert(es.skip(i as int).drop_first() =~= es.skip(i + 1));
                assert(es.skip(i as int)[0] == es[i as int]);
            }
            if self.entries[i].key.eq(&key_owned) {
                return Some(self.entries[i].formatted.clone());
            }
            i = i + 1;
        }
        proof {
            assert(es.skip(es.len() as int) =~= Seq::<BibEntryV>::empty());
        }
        None
    }
}

/// The formatted citation of the first entry with the given key, if any.
pub open spec fn bib_lookup(entries: Seq<BibEntryV>, key: Seq<char>) -> Option<Seq<char>>
    decreases entries.len(),
{
    if entries.len() == 0 {
        None
    } else if entries[0].key == key {
        Some(entries[0].formatted)
    } else {
        bib_lookup(entries.drop_first(), key)
    }
}

/// The pending substitution armed by one event: a citation span whose key
/// resolves arms the formatted citation, one whose key misses disarms, and
/// the placeholder text run consumes the pending value.
pub open spec fn cite_next(e: EventV, pending: Option<Seq<char>>, bib: Seq<BibEntryV>) -> Option<
    Seq<char>,
> {
    match e {
        EventV::Start(ContainerV::Span, attrs) => match attr_value_spec(attrs, ("cite")@) {
            Some(key) => bib_lookup(bib, key),
            None => pending,
        },
        EventV::Str(s) => if s == ("@")@ && pending is Some {
            None
        } else {
            pending
        },
        _ => pending,
    }
}

/// What one event is rewritten to: the `@` placeholder becomes the pending
/// formatted citation, everything else passes through unchanged.
pub open spec fn cite_event(e: EventV, pending: Option<Seq<char>>) -> EventV {
    match e {
        EventV::Str(s) => if s == ("@")@ && pending is Some {
            EventV::Str(pending->0)
        } else {
            e
        },
        _ => e,
    }
}

/// The citation-substituted form of a whole event stream.
pub open spec fn cite_events(es: Seq<EventV>, pending: Option<Seq<char>>, bib: Seq<BibEntryV>) -> Seq<
    EventV,
>
    decreases es.len(),
{
    if es.len() == 0 {
        Seq::empty()
    } else {
        seq![cite_event(es[0], pending)] + cite_events(
            es.drop_first(),
            cite_next(es[0], pending, bib),
            bib,
        )
    }
}

/// Extending the input of [`cite_events`] by one event appends that
/// event's image, taken with the pending value the prefix leads to.
pub proof fn lemma_cite_snoc(
    es: Seq<EventV>,
    i: int,
    pending: Option<Seq<char>>,
    bib: Seq<BibEntryV>,
)
    requires
        0 <= i < es.len(),
    ensures
        cite_events(es.take(i + 1), pending, bib) == cite_events(es.take(i), pending, bib) + seq![
            cite_event(es[i], cite_pending_at(es.take(i), pending, bib)),
        ],
        cite_pending_at(es.take(i + 1), pending, bib) == cite_next(
            es[i],
            cite_pending_at(es.take(i), pending, bib),
            bib,
        ),
    decreases i,
{
    if i == 0 {
        assert(es.take(1).drop_first() =~= Seq::<EventV>::empty());
        assert(es.take(1).drop_first() == Seq::<EventV>::empty());
        assert(es.take(0) =~= Seq::<EventV>::empty());
        assert(es.take(0) == Seq::<EventV>::empty());
        assert(es.take(1)[0] == es[0]);
        assert(cite_events(Seq::<EventV>::empty(), cite_next(es[0], pending, bib), bib)
            == Seq::<EventV>::empty());
        assert(cite_events(es.take(1), pending, bib) == seq![cite_event(es.take(1)[0], pending)]
            + cite_events(es.take(1).drop_first(), cite_next(es.take(1)[0], pending, bib), bib));
        assert(cite_pending_at(es.take(1), pending, bib) == cite_pending_at(
            es.take(1).drop_first(),
            cite_next(es.take(1)[0], pending, bib),
            bib,
        ));
        assert(cite_pending_at(
            Seq::<EventV>::empty(),
            cite_next(es[0], pending, bib),
            bib,
        ) == cite_next(es[0], pending, bib));
        assert(cite_events(es.take(1), pending, bib) =~= seq![cite_event(es[0], pending)]);
        assert(cite_events(es.take(0), pending, bib) + seq![cite_event(es[0], pending)] =~= seq![
            cite_event(es[0], pending),
        ]);
        assert(cite_pending_at(es.take(0), pending, bib) == pending);
        assert(cite_pending_at(es.take(1), pending, bib) == cite_next(es[0], pending, bib));
    } else {
        let t = es.drop_first();
        let p1 = cite_next(es[0], pending, bib);
        lemma_cite_snoc(t, i - 1, p1, bib);
        assert(es.take(i + 1).drop_first() =~= t.take(i));
        assert(es.take(i).drop_first() =~= t.take(i - 1));
        assert(es.take(i + 1)[0] == es[0]);
        assert(es.take(i)[0] == es[0]);
        let j = i - 1;
        assert(cite_events(es.take(i), pending, bib) + seq![
            cite_event(es[i], cite_pending_at(es.take(i), pending, bib)),
        ] =~= seq![cite_event(es[0], pending)] + (cite_events(t.take(j), p1, bib) + seq![
            cite_event(t[j], cite_pending_at(t.take(j), p1, bib)),
        ]));
    }
}

/// The pending substitution in force after a whole event stream.
pub open spec fn cite_pending_at(
    es: Seq<EventV>,
    pending: Option<Seq<char>>,
    bib: Seq<BibEntryV>,
) -> Option<Seq<char>>
    decreases es.len(),
{
    if es.len() == 0 {
        pending
    } else {
        cite_pending_at(es.drop_first(), cite_next(es[0], pending, bib), bib)
    }
}

/// Rewrites citation spans: on a span carrying a `cite` attribute whose
/// key resolves in the index, the next literal `@` text run is replaced by
/// the formatted citation; a key that misses leaves the placeholder
/// unchanged. Lookup failure never aborts rendering.
pub fn substitute_citations(events: &Vec<Event>, bib: &Bibliography) -> (r: Vec<Event>)
    ensures
        r.deep_view() == cite_events(events.deep_view(), None, bib.entries.deep_view()),
{
    let ghost es = events.deep_view();
    let ghost bs = bib.entries.deep_view();
    let mut out: Vec<Event> = Vec::new();
    let mut pending: Option<String> = None;
    let at = String::from_str("@");
    let mut i: usize = 0;
    proof {
        assert(es.take(0) =~= Seq::<EventV>::empty());
        assert(out.deep_view() =~= cite_events(es.take(0), None, bs));
    }
    while i < events.len()
        invariant
            es == events.deep_view(),
            bs == bib.entries.deep_view(),
            es.len() == events@.len(),
            i <= events@.len(),
            at@ == ("@")@,
            out.deep_view() == cite_events(es.take(i as int), None, bs),
            (match pending {
                Some(ref p) => cite_pending_at(es.take(i as int), None, bs) == Some(p@),
                None => cite_pending_at(es.take(i as int), None, bs) is None,
            }),
        decreases events@.len() - i,
    {
        proof {
            lemma_cite_snoc(es, i as int, None, bs);
            assert(events@[i as int]@ == es[i as int]);
        }
        let ghost out_prev = out.deep_view();
        let ghost pending_v = cite_pending_at(es.take(i as int), None, bs);
        let e = &events[i];
        match e {
            Event::Str(s) => {
                if s.eq(&at) && pending.is_some() {
                    let formatted = pending.unwrap();
                    pending = None;
                    out.push(Event::Str(formatted));
                } else {
                    out.push(e.clone());
                }
            },
            Event::Start(c, attrs) => {
                let is_span = match c {
                    Container::Span => true,
                    _ => false,
                };
                if is_span {
                    match attr_value(attrs, "cite") {
                        Some(key) => {
                            pending = bib.lookup(key.as_str());
                        },
                        None => (),
                    }
                }
                out.push(e.clone());
            },
            _ => out.push(e.clone()),
        }
        proof {
            assert(out.deep_view() =~= out_prev.push(cite_event(es[i as int], pending_v)));
            assert(out.deep_view() =~= cite_events(es.take(i as int), None, bs) + seq![
                cite_event(es[i as int], pending_v),
            ]);
        }
        i = i + 1;
    }
    proof {
        assert(es.take(es.len() as int) =~= es);
    }
    out
}

/// What the outside math renderer produces for a formula: hypertext markup
/// depending on the formula text and the display flag alone, or `None` on
/// a formula it rejects.
pub uninterp spec fn math_html(formula: Seq<char>, display: bool) -> Option<Seq<char>>;

/// The marker spliced in place of a formula the outside math renderer
/// rejects; rejection never aborts rendering.
pub open spec fn math_error_marker() -> Seq<char> {
    ("[math error]")@
}

/// Relies on `katex::render_with_opts` (with `throw_on_error` disabled and
/// the given display mode): the result depends on the formula text and the
/// display flag alone.
#[verifier::external_body]
fn render_math(formula: &str, display: bool) -> (r: Option<String>)
    ensures
        match r {
            Some(s) => math_html(formula@, display) == Some(s@),
            None => math_html(formula@, display) is None,
        },
{
    let opts = katex::Opts::builder().display_mode(display).throw_on_error(false).build().ok()?;
    katex::render_with_opts(formula, &opts).ok()
}

/// The display mode in force after one event: math starts arm it, math
/// ends disarm it.
pub open spec fn math_next(e: EventV, st: Option<bool>) -> Option<bool> {
    match e {
        EventV::Start(ContainerV::Math { display }, _) => Some(display),
        EventV::End(ContainerV::Math { .. }) => None,
        _ => st,
    }
}

/// What one event is rewritten to: math regions become raw hypertext
/// regions, and text inside them becomes the outside math renderer's
/// output (or the error marker where it rejects the formula).
pub open spec fn math_event(e: EventV, st: Option<bool>) -> EventV {
    match e {
        EventV::Start(ContainerV::Math { .. }, attrs) => EventV::Start(
            ContainerV::RawBlock { format: ("html")@ },
            attrs,
        ),
        EventV::End(ContainerV::Math { .. }) => EventV::End(
            ContainerV::RawBlock { format: ("html")@ },
        ),
        EventV::Str(s) => match st {
            Some(display) => match math_html(s, display) {
                Some(h) => EventV::Str(h),
                None => EventV::Str(math_error_marker()),
            },
            None => e,
        },
        _ => e,
    }
}

/// The math-substituted form of a whole event stream.
pub open spec fn math_events(es: Seq<EventV>, st: Option<bool>) -> Seq<EventV>
    decreases es.len(),
{
    if es.len() == 0 {
        Seq::empty()
    } else {
        seq![math_event(es[0], st)] + math_events(es.drop_first(), math_next(es[0], st))
    }
}

/// The display mode in force after a whole event stream.
pub open spec fn math_state_at(es: Seq<EventV>, st: Option<bool>) -> Option<bool>
    decreases es.len(),
{
    if es.len() == 0 {
        st
    } else {
        math_state_at(es.drop_first(), math_next(es[0], st))
    }
}

/// Extending the input of [`math_events`] by one event appends that
/// event's image, taken with the display mode the prefix leads to.
pub proof fn lemma_math_snoc(es: Seq<EventV>, i: int, st: Option<bool>)
    requires
        0 <= i < es.len(),
    ensures
        math_events(es.take(i + 1), st) == math_events(es.take(i), st) + seq![
            math_event(es[i], math_state_at(es.take(i), st)),
        ],
        math_state_at(es.take(i + 1), st) == math_next(es[i], math_state_at(es.take(i), st)),
    decreases i,
{
    if i == 0 {
        assert(es.take(1).drop_first() =~= Seq::<EventV>::empty());
        assert(es.take(1).drop_first() == Seq::<EventV>::empty());
        assert(es.take(0) =~= Seq::<EventV>::empty());
        assert(es.take(0) == Seq::<EventV>::empty());
        assert(es.take(1)[0] == es[0]);
        assert(math_events(Seq::<EventV>::empty(), math_next(es[0], st))
            == Seq::<EventV>::empty());
        assert(math_events(es.take(1), st) == seq![math_event(es.take(1)[0], st)] + math_events(
            es.take(1).drop_first(),
            math_next(es.take(1)[0], st),
        ));
        assert(math_state_at(es.take(1), st) == math_state_at(
            es.take(1).drop_first(),
            math_next(es.take(1)[0], st),
        ));
        assert(math_state_at(Seq::<EventV>::empty(), math_next(es[0], st)) == math_next(
            es[0],
            st,
        ));
        assert(math_events(es.take(1), st) =~= seq![math_event(es[0], st)]);
        assert(math_events(es.take(0), st) + seq![math_event(es[0], st)] =~= seq![
            math_event(es[0], st),
        ]);
    } else {
        let t = es.drop_first();
        let s1 = math_next(es[0], st);
        lemma_math_snoc(t, i - 1, s1);
        assert(es.take(i + 1).drop_first() =~= t.take(i));
        assert(es.take(i).drop_first() =~= t.take(i - 1));
        assert(es.take(i + 1)[0] == es[0]);
        assert(es.take(i)[0] == es[0]);
        let j = i - 1;
        assert(math_events(es.take(i), st) + seq![
            math_event(es[i], math_state_at(es.take(i), st)),
        ] =~= seq![math_event(es[0], st)] + (math_events(t.take(j), s1) + seq![
            math_event(t[j], math_state_at(t.take(j), s1)),
        ]));
    }
}

/// Rewrites math regions for the hypertext renderer: each math container
/// becomes a raw hypertext region and the formula text inside it becomes
/// the outside math renderer's output. A rejected formula is replaced by
/// the error marker, never aborting the transform.
pub fn substitute_math(events: &Vec<Event>) -> (r: Vec<Event>)
    ensures
        r.deep_view() == math_events(events.deep_view(), None),
{
    let ghost es = events.deep_view();
    let mut out: Vec<Event> = Vec::new();
    let mut state: Option<bool> = None;
    let mut i: usize = 0;
    proof {
        assert(es.take(0) =~= Seq::<EventV>::empty());
        assert(out.deep_view() =~= math_events(es.take(0), None));
    }
    while i < events.len()
        invariant
            es == events.deep_view(),
            es.len() == events@.len(),
            i <= events@.len(),
            out.deep_view() == math_events(es.take(i as int), None),
            state == math_state_at(es.take(i as int), None),
        decreases events@.len() - i,
    {
        proof {
            lemma_math_snoc(es, i as int, None);
            assert(events@[i as int]@ == es[i as int]);
        }
        let ghost out_prev = out.deep_view();
        let ghost state_v = math_state_at(es.take(i as int), None);
        let e = &events[i];
        match e {
            Event::Start(Container::Math { display }, _) => {
                state = Some(*display);
                let cloned = e.clone();
                match cloned {
                    Event::Start(_, attrs) => {
                        out.push(
                            Event::Start(
                                Container::RawBlock { format: String::from_str("html") },
                                attrs,
                            ),
                        );
                    },
                    _ => {
                        proof {
                            assert(false);
                        }
                    },
                }
            },
            Event::End(Container::Math { .. }) => {
                state = None;
                out.push(Event::End(Container::RawBlock { format: String::from_str("html") }));
            },
            Event::Str(s) => {
                match state {
                    Some(display) => {
                        match render_math(s.as_str(), display) {
                            Some(h) => out.push(Event::Str(h)),
                            None => out.push(Event::Str(String::from_str("[math error]"))),
                        }
                    },
                    None => out.push(e.clone()),
                }
            },
            _ => out.push(e.clone()),
        }
        proof {
            assert(out.deep_view() =~= out_prev.push(math_event(es[i as int], state_v)));
            assert(out.deep_view() =~= math_events(es.take(i as int), None) + seq![
                math_event(es[i as int], state_v),
            ]);
        }
        i = i + 1;
    }
    proof {
        assert(es.take(es.len() as int) =~= es);
    }
    out
}

/// A citation span whose key is absent from the bibliography index leaves
/// the literal placeholder untouched: the rewritten stream is the input
/// stream.
pub proof fn lemma_citation_miss(
    attrs: Seq<AttributeV>,
    key: Seq<char>,
    s: Seq<char>,
    bib: Seq<BibEntryV>,
)
    requires
        attr_value_spec(attrs, ("cite")@) == Some(key),
        bib_lookup(bib, key) is None,
    ensures
        cite_events(
            seq![
                EventV::Start(ContainerV::Span, attrs),
                EventV::Str(s),
                EventV::End(ContainerV::Span),
            ],
            None,
            bib,
        ) == seq![
            EventV::Start(ContainerV::Span, attrs),
            EventV::Str(s),
            EventV::End(ContainerV::Span),
        ],
{
    let start = EventV::Start(ContainerV::Span, attrs);
    let text = EventV::Str(s);
    let stop = EventV::End(ContainerV::Span);
    let stream = seq![start, text, stop];
    assert(cite_next(start, None, bib) is None);
    assert(cite_event(start, None) == start);
    assert(cite_event(text, None) == text);
    assert(cite_event(stop, None) == stop);
    let last = seq![stop];
    assert(last.drop_first() =~= Seq::<EventV>::empty());
    assert(last.drop_first() == Seq::<EventV>::empty());
    assert(cite_events(Seq::<EventV>::empty(), cite_next(stop, None, bib), bib)
        == Seq::<EventV>::empty());
    assert(cite_events(last, None, bib) == seq![cite_event(last[0], None)] + cite_events(
        last.drop_first(),
        cite_next(last[0], None, bib),
        bib,
    ));
    assert(cite_events(last, None, bib) =~= seq![stop]);
    let mid = seq![text, stop];
    assert(mid.drop_first() =~= last);
    assert(mid.drop_first() == last);
    assert(mid[0] == text);
    assert(cite_next(text, None, bib) is None);
    assert(cite_events(mid, None, bib) =~= seq![text] + cite_events(last, None, bib));
    assert(stream.drop_first() =~= mid);
    assert(stream.drop_first() == mid);
    assert(stream[0] == start);
    assert(cite_events(stream, None, bib) =~= seq![start] + cite_events(mid, None, bib));
    assert(cite_events(stream, None, bib) =~= stream);
}

} // verus!
