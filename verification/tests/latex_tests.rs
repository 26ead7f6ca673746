use djoc::event::OrderedListNumbering as Num;
use djoc::event::OrderedListStyle as Style;
use djoc::event::{
    Attribute, Container, Event, ListKind, OrderedListNumbering, OrderedListStyle,
};
use djoc::latex::{render_text, write_escaped, Renderer};

fn render(events: Vec<Event>) -> String {
    render_text(&events, false)
}

#[test]
fn escapes_every_reserved_character() {
    let mut out = String::new();
    write_escaped(&mut out, "&%$#_{}~^\\");
    assert_eq!(
        out,
        "\\&\\%\\$\\#\\_\\{\\}\\textasciitilde\\textasciicircum\\textasciibackslash"
    );
}

#[test]
fn escape_round_trip_on_reserved_characters() {
    // Mechanically reversing the emitted escapes reconstructs the input.
    let input = "&%$#_{}~^\\";
    let mut escaped = String::new();
    write_escaped(&mut escaped, input);
    let mut recovered = String::new();
    let mut rest = escaped.as_str();
    while !rest.is_empty() {
        let known = [
            ("\\&", '&'),
            ("\\%", '%'),
            ("\\$", '$'),
            ("\\#", '#'),
            ("\\_", '_'),
            ("\\{", '{'),
            ("\\}", '}'),
            ("\\textasciitilde", '~'),
            ("\\textasciicircum", '^'),
            ("\\textasciibackslash", '\\'),
        ];
        let mut matched = false;
        for (seq, c) in known {
            if rest.starts_with(seq) {
                recovered.push(c);
                rest = &rest[seq.len()..];
                matched = true;
                break;
            }
        }
        if !matched {
            let c = rest.chars().next().unwrap();
            recovered.push(c);
            rest = &rest[c.len_utf8()..];
        }
    }
    assert_eq!(recovered, input);
}

#[test]
fn unicode_passes_through_unchanged() {
    let mut out = String::new();
    write_escaped(&mut out, "héllo wörld こんにちは");
    assert_eq!(out, "héllo wörld こんにちは");
}

#[test]
fn paragraph_text_is_escaped() {
    let events = vec![
        Event::Start(Container::Paragraph, vec![]),
        Event::Str("100% sure".to_string()),
        Event::End(Container::Paragraph),
    ];
    assert_eq!(render(events), "100\\% sure\n");
}

#[test]
fn heading_without_numbering_gets_star() {
    let events = vec![
        Event::Start(
            Container::Heading {
                level: 1,
                id: "intro".to_string(),
            },
            vec![],
        ),
        Event::Str("Intro".to_string()),
        Event::End(Container::Heading {
            level: 1,
            id: "intro".to_string(),
        }),
    ];
    assert_eq!(
        render(events),
        "\\hypertarget{intro}{%\n\\section*{Intro}\\label{intro}}\n"
    );
}

#[test]
fn heading_with_numbering_has_no_star() {
    let events = vec![
        Event::Start(
            Container::Heading {
                level: 2,
                id: "a".to_string(),
            },
            vec![],
        ),
        Event::Str("A".to_string()),
        Event::End(Container::Heading {
            level: 2,
            id: "a".to_string(),
        }),
    ];
    let out = render_text(&events, true);
    assert_eq!(out, "\\hypertarget{a}{%\n\\subsection{A}\\label{a}}\n");
}

#[test]
fn heading_levels_map_to_commands() {
    let expect = [
        (1, "\\section"),
        (2, "\\subsection"),
        (3, "\\subsubsection"),
        (4, "\\paragraph"),
        (5, "\\subparagraph"),
    ];
    for (level, command) in expect {
        let events = vec![
            Event::Start(
                Container::Heading {
                    level,
                    id: "x".to_string(),
                },
                vec![],
            ),
            Event::End(Container::Heading {
                level,
                id: "x".to_string(),
            }),
        ];
        let out = render(events);
        assert!(out.contains(command), "level {level}: {out}");
    }
}

#[test]
fn heading_level_six_emits_no_sectioning_command() {
    let events = vec![
        Event::Start(
            Container::Heading {
                level: 6,
                id: "deep".to_string(),
            },
            vec![],
        ),
        Event::Str("Deep".to_string()),
        Event::End(Container::Heading {
            level: 6,
            id: "deep".to_string(),
        }),
    ];
    // No hypertarget, no command, no label: just the escaped text.
    assert_eq!(render(events), "Deep");
}

fn ordered_list(
    numbering: OrderedListNumbering,
    style: OrderedListStyle,
    start: u64,
) -> Vec<Event> {
    let kind = ListKind::Ordered {
        numbering,
        style,
        start,
    };
    vec![
        Event::Start(Container::List { kind, tight: false }, vec![]),
        Event::End(Container::List { kind, tight: false }),
    ]
}

#[test]
fn ordered_list_labels_cover_all_schemes_and_styles() {
    let cases = [
        (Num::Decimal, Style::Period, "\\begin{enumerate}[label=\\arabic*., start=1]\n\\end{enumerate}"),
        (Num::Decimal, Style::Paren, "\\begin{enumerate}[label=\\arabic*), start=1]\n\\end{enumerate}"),
        (Num::Decimal, Style::ParenParen, "\\begin{enumerate}[label=(\\arabic*), start=1]\n\\end{enumerate}"),
        (Num::AlphaLower, Style::Period, "\\begin{enumerate}[label=\\alph*., start=1]\n\\end{enumerate}"),
        (Num::AlphaLower, Style::Paren, "\\begin{enumerate}[label=\\alph*), start=1]\n\\end{enumerate}"),
        (Num::AlphaLower, Style::ParenParen, "\\begin{enumerate}[label=(\\alph*), start=1]\n\\end{enumerate}"),
        (Num::AlphaUpper, Style::Period, "\\begin{enumerate}[label=\\Alph*., start=1]\n\\end{enumerate}"),
        (Num::AlphaUpper, Style::Paren, "\\begin{enumerate}[label=\\Alph*), start=1]\n\\end{enumerate}"),
        (Num::AlphaUpper, Style::ParenParen, "\\begin{enumerate}[label=(\\Alph*), start=1]\n\\end{enumerate}"),
        (Num::RomanLower, Style::Period, "\\begin{enumerate}[label=\\roman*., start=1]\n\\end{enumerate}"),
        (Num::RomanLower, Style::Paren, "\\begin{enumerate}[label=\\roman*), start=1]\n\\end{enumerate}"),
        (Num::RomanLower, Style::ParenParen, "\\begin{enumerate}[label=(\\roman*), start=1]\n\\end{enumerate}"),
        (Num::RomanUpper, Style::Period, "\\begin{enumerate}[label=\\Roman*., start=1]\n\\end{enumerate}"),
        (Num::RomanUpper, Style::Paren, "\\begin{enumerate}[label=\\Roman*), start=1]\n\\end{enumerate}"),
        (Num::RomanUpper, Style::ParenParen, "\\begin{enumerate}[label=(\\Roman*), start=1]\n\\end{enumerate}"),
    ];
    for (numbering, style, expected) in cases {
        let out = render(ordered_list(numbering, style, 1));
        assert_eq!(out, expected, "{numbering:?} {style:?}");
    }
}

#[test]
fn ordered_list_start_value_is_emitted() {
    let out = render(ordered_list(
        OrderedListNumbering::Decimal,
        OrderedListStyle::Period,
        7,
    ));
    assert_eq!(
        out,
        "\\begin{enumerate}[label=\\arabic*., start=7]\n\\end{enumerate}"
    );
}

#[test]
fn unordered_task_and_tight_lists() {
    let kind = ListKind::Unordered;
    let out = render(vec![
        Event::Start(Container::List { kind, tight: true }, vec![]),
        Event::Start(Container::ListItem, vec![]),
        Event::Str("a".to_string()),
        Event::End(Container::ListItem),
        Event::End(Container::List { kind, tight: true }),
    ]);
    assert_eq!(out, "\\begin{itemize}\n\\tightlist\n\\itema\\end{itemize}");

    let kind = ListKind::Task;
    let out = render(vec![
        Event::Start(Container::List { kind, tight: false }, vec![]),
        Event::Start(Container::TaskListItem { checked: true }, vec![]),
        Event::Str("done".to_string()),
        Event::End(Container::TaskListItem { checked: true }),
        Event::End(Container::List { kind, tight: false }),
    ]);
    assert_eq!(out, "\\begin{tasklist}\n\n\\item[\\done]done\\end{tasklist}");
}

#[test]
fn foreign_html_raw_block_is_dropped() {
    let events = vec![
        Event::Start(
            Container::RawBlock {
                format: "html".to_string(),
            },
            vec![],
        ),
        Event::Str("<p>not for this target</p>".to_string()),
        Event::End(Container::RawBlock {
            format: "html".to_string(),
        }),
    ];
    assert_eq!(render(events), "");
}

#[test]
fn own_latex_raw_block_passes_through() {
    for format in ["latex", "tex"] {
        let events = vec![
            Event::Start(
                Container::RawBlock {
                    format: format.to_string(),
                },
                vec![],
            ),
            Event::Str("\\maketitle".to_string()),
            Event::End(Container::RawBlock {
                format: format.to_string(),
            }),
        ];
        assert_eq!(render(events), "\\maketitle");
    }
}

#[test]
fn math_region_is_raw_and_delimited() {
    let inline = vec![
        Event::Start(Container::Math { display: false }, vec![]),
        Event::Str("x_1".to_string()),
        Event::End(Container::Math { display: false }),
    ];
    assert_eq!(render(inline), "\\(x_1\\)");
    let display = vec![
        Event::Start(Container::Math { display: true }, vec![]),
        Event::Str("x^2".to_string()),
        Event::End(Container::Math { display: true }),
    ];
    assert_eq!(render(display), "\\[x^2\\]");
}

#[test]
fn inline_wrappers_and_symbols() {
    let out = render(vec![
        Event::Start(Container::Strong, vec![]),
        Event::Str("b".to_string()),
        Event::End(Container::Strong),
        Event::Start(Container::Emphasis, vec![]),
        Event::Str("i".to_string()),
        Event::End(Container::Emphasis),
        Event::Symbol("smiley".to_string()),
        Event::LeftDoubleQuote,
        Event::Str("q".to_string()),
        Event::RightDoubleQuote,
        Event::Ellipsis,
        Event::EnDash,
        Event::EmDash,
        Event::NonBreakingSpace,
    ]);
    assert_eq!(
        out,
        "\\textbf{b}\\textit{i}:smiley:``q\"\\ldots\\textendash\\textemdash~"
    );
}

#[test]
fn footnotes_and_references() {
    let out = render(vec![
        Event::Start(Container::Paragraph, vec![]),
        Event::Str("text".to_string()),
        Event::FootnoteReference(3),
        Event::End(Container::Paragraph),
        Event::Start(Container::Footnote { number: 3 }, vec![]),
        Event::Str("note".to_string()),
        Event::End(Container::Footnote { number: 3 }),
    ]);
    assert_eq!(
        out,
        "text\\footnotemark[3]\n\n\\footnotetext[3]{note}"
    );
}

#[test]
fn links_images_and_blockquote() {
    let out = render(vec![
        Event::Start(
            Container::Link {
                destination: "https://example.org".to_string(),
            },
            vec![],
        ),
        Event::Str("link".to_string()),
        Event::End(Container::Link {
            destination: "https://example.org".to_string(),
        }),
    ]);
    assert_eq!(out, "\\href{https://example.org}{link}");

    let out = render(vec![
        Event::Start(
            Container::Image {
                destination: "img.png".to_string(),
            },
            vec![],
        ),
        Event::Str("caption".to_string()),
        Event::End(Container::Image {
            destination: "img.png".to_string(),
        }),
    ]);
    assert_eq!(
        out,
        "\\begin{figure}\n\\centering\n\\includegraphics[width=\\textwidth]{img.png}\\caption{caption}\n\\end{figure}\n"
    );

    let out = render(vec![
        Event::Start(Container::Blockquote, vec![]),
        Event::Start(Container::Paragraph, vec![]),
        Event::Str("q".to_string()),
        Event::End(Container::Paragraph),
        Event::End(Container::Blockquote),
    ]);
    assert_eq!(out, "\\begin{quote}\nq\n\\end{quote}\n");
}

#[test]
fn verbatim_and_code_blocks_are_raw() {
    let out = render(vec![
        Event::Start(Container::Verbatim, vec![]),
        Event::Str("a & b".to_string()),
        Event::End(Container::Verbatim),
    ]);
    assert_eq!(out, "\\verb|a & b|");

    let out = render(vec![
        Event::Start(
            Container::CodeBlock {
                language: "rust".to_string(),
            },
            vec![],
        ),
        Event::Str("fn main() {}".to_string()),
        Event::End(Container::CodeBlock {
            language: "rust".to_string(),
        }),
    ]);
    assert_eq!(out, "\\begin{verbatim}\nfn main() {}\\end{verbatim}\n");
}

#[test]
fn blocks_are_separated_by_blank_lines() {
    let out = render(vec![
        Event::Start(Container::Paragraph, vec![]),
        Event::Str("one".to_string()),
        Event::End(Container::Paragraph),
        Event::Start(Container::Paragraph, vec![]),
        Event::Str("two".to_string()),
        Event::End(Container::Paragraph),
    ]);
    assert_eq!(out, "one\n\ntwo\n");
}

#[test]
fn renderer_state_threads_through_render_event() {
    let mut renderer = Renderer::default().number_sections(false);
    let mut out = String::new();
    renderer.render_event(&Event::Str("a%".to_string()), &mut out);
    renderer.render_event(&Event::Softbreak, &mut out);
    renderer.render_event(&Event::Hardbreak, &mut out);
    assert_eq!(out, "a\\%\n\\\\\n");
}

#[test]
fn attributes_do_not_change_rendering() {
    let attrs = vec![Attribute {
        key: "id".to_string(),
        value: "x".to_string(),
    }];
    let out = render(vec![
        Event::Start(Container::Paragraph, attrs),
        Event::Str("p".to_string()),
        Event::End(Container::Paragraph),
    ]);
    assert_eq!(out, "p\n");
}
