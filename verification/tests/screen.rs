use todo_rust::app::{App, Draft};
use todo_rust::geometry::{can_center_rect, centered_rect, Rect};
use todo_rust::model::DraftMode;
use todo_rust::paint::{
    panel, raw, styled, titled_panel, Content, Draw, Line, Panel, Paragraph, Shade, Span, Style,
    Widget,
};
use todo_rust::screen::{
    can_render, compose, lay_out, pill, render, render_clear_data_modal, render_draft_modal,
    render_focus_panel, render_footer, render_header, render_tasks_panel, ScreenLayout,
};
use todo_rust::task::{StoredState, Task};
use todo_rust::text::to_decimal;

fn at(x: u16, y: u16, width: u16, height: u16) -> Rect {
    Rect { x, y, width, height }
}

fn sample() -> App {
    let tasks = vec![
        Task { id: 7, title: "water".to_string(), completed: false },
        Task { id: 12, title: "bread".to_string(), completed: true },
    ];
    App::load(Some(StoredState { next_id: 13, tasks }), "p")
}

fn empty() -> App {
    App::load(None, "p")
}

fn fg(shade: Shade) -> Style {
    Style::plain().fg(shade)
}

fn line(text: &str, style: Style) -> Line {
    Line::Styled(styled(text, style))
}

fn boxed(lines: Vec<Line>) -> Widget {
    Widget::Paragraph(Paragraph {
        content: Content::Lines(lines),
        style: Style::plain(),
        panel: Some(panel(Shade::Border, Shade::Panel)),
        centered: false,
        wrapped: true,
    })
}

#[test]
fn numbers_are_written_in_decimal() {
    for n in [0u64, 9, 10, 99, 100, 1234567890, u64::MAX] {
        assert_eq!(to_decimal(n), n.to_string());
    }
}

#[test]
fn colours_have_their_parts() {
    assert_eq!(Shade::Background.rgb(), (11, 15, 20));
    assert_eq!(Shade::Panel.rgb(), (20, 26, 34));
    assert_eq!(Shade::PanelAlt.rgb(), (24, 32, 42));
    assert_eq!(Shade::Border.rgb(), (58, 71, 87));
    assert_eq!(Shade::Muted.rgb(), (142, 155, 170));
    assert_eq!(Shade::Text.rgb(), (229, 234, 239));
    assert_eq!(Shade::Accent.rgb(), (242, 191, 83));
    assert_eq!(Shade::AccentAlt.rgb(), (71, 176, 165));
    assert_eq!(Shade::Success.rgb(), (111, 197, 122));
    assert_eq!(Shade::Highlight.rgb(), (39, 52, 68));
    assert_eq!(Shade::Track.rgb(), (33, 43, 56));
}

#[test]
fn a_pill_holds_its_name_and_count() {
    assert_eq!(
        pill("Total", 42, Shade::Accent),
        Span {
            text: " Total 42 ".to_string(),
            style: fg(Shade::Background).bg(Shade::Accent).bold(),
        }
    );
}

#[test]
fn a_centred_rectangle_takes_its_share() {
    assert_eq!(centered_rect(70, 8, at(0, 0, 100, 40)), at(15, 16, 70, 8));
    assert_eq!(centered_rect(72, 8, at(10, 20, 50, 9)), at(17, 20, 36, 8));
    assert_eq!(centered_rect(70, 8, at(3, 4, 30, 5)), at(6, 4, 24, 5));
    assert_eq!(centered_rect(70, 8, at(3, 4, 10, 2)), at(3, 4, 10, 2));
    assert_eq!(centered_rect(70, 8, at(0, 0, 1000, 40)), at(172, 16, 655, 8));
}

#[test]
fn a_centred_rectangle_is_cut_off_at_the_last_coordinate() {
    assert_eq!(centered_rect(100, 8, at(65530, 0, 30, 8)), at(65530, 0, 5, 8));
    assert!(can_center_rect(100, 8, at(65530, 0, 30, 8)));
    assert!(!can_center_rect(70, 8, at(65535, 0, 100, 8)));
    assert!(!can_center_rect(70, 8, at(0, 65535, 100, 20)));
}

#[test]
fn a_centred_rectangle_lies_inside() {
    for width in [0u16, 1, 23, 24, 25, 80, 300] {
        for height in [0u16, 1, 2, 3, 7, 8, 9, 50] {
            let area = at(5, 6, width, height);
            let r = centered_rect(70, 8, area);
            assert!(r.x >= 5 && r.x + r.width <= 5 + width);
            assert!(r.y >= 6 && r.y + r.height <= 6 + height);
        }
    }
}

#[test]
fn the_screen_is_divided() {
    let mut app = sample();
    let layout = lay_out(at(0, 0, 100, 40), &app);
    assert_eq!(layout.rows, vec![at(0, 0, 100, 5), at(0, 5, 100, 31), at(0, 36, 100, 4)]);
    assert_eq!(layout.columns, vec![at(0, 5, 58, 31), at(58, 5, 42, 31)]);
    assert_eq!(layout.queue, vec![at(1, 6, 56, 3), at(1, 9, 56, 26)]);
    assert_eq!(layout.focus, vec![at(59, 6, 40, 8), at(59, 14, 40, 5), at(59, 19, 40, 16)]);
    assert!(layout.popup.is_none());
    app.start_add();
    let layout = lay_out(at(0, 0, 100, 40), &app);
    assert_eq!(
        layout.popup,
        Some(vec![at(17, 17, 66, 1), at(17, 18, 66, 3), at(17, 21, 66, 1)])
    );
}

#[test]
fn a_margin_that_does_not_fit_leaves_nothing() {
    let draws = render_clear_data_modal(at(0, 0, 3, 1));
    assert_eq!(draws[0].area, at(0, 0, 3, 1));
    assert_eq!(draws[2].area, at(0, 0, 0, 0));
    let draws = render_clear_data_modal(at(0, 0, 100, 40));
    assert_eq!(draws[0].area, at(14, 16, 72, 8));
    assert_eq!(draws[2].area, at(16, 17, 68, 6));
}

#[test]
fn the_header_counts() {
    let area = at(1, 2, 3, 4);
    let expected = vec![
        Line::Joined(vec![
            styled(" todo_rust ", fg(Shade::Accent).bold()),
            styled("beautiful console flow", fg(Shade::Muted)),
        ]),
        Line::Blank,
        Line::Joined(vec![
            pill("Total", 2, Shade::Accent),
            raw("  "),
            pill("Active", 1, Shade::AccentAlt),
            raw("  "),
            pill("Done", 1, Shade::Success),
            raw("  "),
            styled("Filter All", fg(Shade::Text).bold()),
        ]),
    ];
    assert_eq!(render_header(area, &sample()), vec![Draw { area, widget: boxed(expected) }]);
}

#[test]
fn the_list_marks_the_selected_task() {
    let area = at(1, 2, 30, 40);
    let rows = vec![at(2, 3, 28, 3), at(2, 6, 28, 35)];
    let mut app = sample();
    app.select_last();
    let draws = render_tasks_panel(area, &rows, &app);
    assert_eq!(draws.len(), 3);
    assert_eq!(draws[0].area, area);
    assert_eq!(
        draws[0].widget,
        Widget::Panel(Panel {
            border: Shade::Border,
            background: Shade::PanelAlt,
            title: Some(styled(" Queue ", fg(Shade::Text).bold())),
        })
    );
    assert_eq!(draws[1].area, rows[0]);
    match &draws[1].widget {
        Widget::Tabs(tabs) => {
            assert_eq!(tabs.titles, vec!["All", "Active", "Done"]);
            assert_eq!(tabs.selected, 0);
            assert_eq!(tabs.style, fg(Shade::Muted));
            assert_eq!(tabs.highlight, fg(Shade::Accent).bold().underlined());
            assert_eq!(tabs.divider, raw(" "));
        }
        _ => panic!("tabs"),
    }
    assert_eq!(draws[2].area, rows[1]);
    match &draws[2].widget {
        Widget::List(list) => {
            assert_eq!(
                list.items,
                vec![
                    Line::Joined(vec![
                        styled("○", fg(Shade::AccentAlt).bold()),
                        raw("  "),
                        styled("water", fg(Shade::Text)),
                    ]),
                    Line::Joined(vec![
                        styled("●", fg(Shade::Success).bold()),
                        raw("  "),
                        styled("bread", fg(Shade::Muted).crossed_out()),
                    ]),
                ]
            );
            assert_eq!(list.selected, Some(1));
            assert_eq!(list.symbol, "› ");
            assert_eq!(list.highlight, fg(Shade::Text).bg(Shade::Highlight).bold());
        }
        _ => panic!("list"),
    }
}

#[test]
fn an_empty_list_gives_a_hint() {
    let rows = vec![at(2, 3, 28, 3), at(2, 6, 28, 35)];
    let draws = render_tasks_panel(at(0, 0, 9, 9), &rows, &empty());
    match &draws[2].widget {
        Widget::Paragraph(p) => {
            assert_eq!(
                p.content,
                Content::Lines(vec![
                    line("No tasks in this view", fg(Shade::Text)),
                    Line::Blank,
                    line(
                        "Press 'a' to add a new task and start filling the list.",
                        fg(Shade::Muted)
                    ),
                ])
            );
            assert!(p.centered);
            assert!(p.wrapped);
        }
        _ => panic!("hint"),
    }
}

#[test]
fn the_focus_panel_shows_the_selected_task() {
    let rows = vec![at(0, 0, 1, 1), at(0, 1, 1, 1), at(0, 2, 1, 1)];
    let mut app = sample();
    let draws = render_focus_panel(at(0, 0, 9, 9), &rows, &app);
    assert_eq!(draws.len(), 4);
    assert_eq!(draws[1].area, rows[0]);
    assert_eq!(
        draws[1].widget,
        boxed(vec![
            Line::Joined(vec![
                styled("In progress", fg(Shade::Accent).bold()),
                raw("  "),
                styled("#7", fg(Shade::Muted)),
            ]),
            Line::Blank,
            line("water", fg(Shade::Text).bold().italic()),
            Line::Blank,
            line(&format!("Press Enter to mark this {} as done.", "task"), fg(Shade::Muted)),
        ])
    );
    match &draws[2].widget {
        Widget::Gauge(gauge) => {
            assert_eq!(gauge.ratio, Some((1, 2)));
            assert_eq!(gauge.label, "1/2 done");
            assert_eq!(gauge.panel, titled_panel(Shade::Border, Shade::Panel, " Progress "));
            assert_eq!(gauge.style, fg(Shade::AccentAlt).bg(Shade::Track));
        }
        _ => panic!("gauge"),
    }
    assert_eq!(
        draws[3].widget,
        boxed(vec![
            line("Quick flow", fg(Shade::Accent).bold()),
            Line::Blank,
            line("a new   e rename   d delete", fg(Shade::Text)),
            line("Space toggle   x clear done", fg(Shade::Text)),
            line("Shift+X wipe data", fg(Shade::Text)),
            line("1 2 3 filter   q quit", fg(Shade::Text)),
            Line::Blank,
            line("1 active tasks waiting", fg(Shade::Muted)),
        ])
    );
    app.select_last();
    let draws = render_focus_panel(at(0, 0, 9, 9), &rows, &app);
    assert_eq!(
        draws[1].widget,
        boxed(vec![
            Line::Joined(vec![
                styled("Completed", fg(Shade::Success).bold()),
                raw("  "),
                styled("#12", fg(Shade::Muted)),
            ]),
            Line::Blank,
            line("bread", fg(Shade::Text).bold().italic()),
            Line::Blank,
            line(&format!("Press Enter to reopen this {}.", "task"), fg(Shade::Muted)),
        ])
    );
}

#[test]
fn the_focus_panel_of_an_empty_list() {
    let rows = vec![at(0, 0, 1, 1), at(0, 1, 1, 1), at(0, 2, 1, 1)];
    let draws = render_focus_panel(at(0, 0, 9, 9), &rows, &empty());
    assert_eq!(
        draws[1].widget,
        boxed(vec![
            line("Nothing selected", fg(Shade::Text)),
            Line::Blank,
            line(
                "Add your first task with 'a' or switch the filter to another view.",
                fg(Shade::Muted)
            ),
        ])
    );
    match &draws[2].widget {
        Widget::Gauge(gauge) => {
            assert_eq!(gauge.ratio, None);
            assert_eq!(gauge.label, "0/0 done");
        }
        _ => panic!("gauge"),
    }
}

#[test]
fn the_footer_names_the_mode() {
    let area = at(0, 0, 9, 9);
    let mut app = sample();
    for mode in ["NORMAL", "INPUT: NEW TASK", "INPUT: RENAME TASK"] {
        if mode == "INPUT: NEW TASK" {
            app.start_add();
        }
        if mode == "INPUT: RENAME TASK" {
            app.start_edit_selected();
        }
        let expected = vec![
            Line::Joined(vec![
                styled(mode, fg(Shade::Accent).bold()),
                raw("  "),
                styled(app.status.as_str(), fg(Shade::Text)),
            ]),
            line(
                "j/k navigate  enter toggle  a add  e edit  x done  Shift+X reset  q quit",
                fg(Shade::Muted),
            ),
        ];
        assert_eq!(render_footer(area, &app), vec![Draw { area, widget: boxed(expected) }]);
    }
}

#[test]
fn the_draft_has_a_cursor_after_its_text() {
    let rows = vec![at(17, 17, 66, 1), at(17, 18, 10, 3), at(17, 21, 66, 1)];
    for (value, x) in [("", 18), ("añ", 20), ("1234567", 25), ("12345678", 25)] {
        let draft = Draft { mode: DraftMode::Add, value: value.to_string() };
        let draws = render_draft_modal(at(0, 0, 100, 40), &rows, &draft).unwrap();
        assert_eq!(draws.len(), 6);
        assert_eq!(draws[0], Draw { area: at(15, 16, 70, 8), widget: Widget::Clear });
        assert_eq!(
            draws[1].widget,
            Widget::Panel(titled_panel(Shade::Accent, Shade::Panel, " New Task "))
        );
        assert_eq!(draws[4], Draw { area: at(x, 19, 1, 1), widget: Widget::Cursor });
        match &draws[3].widget {
            Widget::Paragraph(p) => {
                assert_eq!(p.content, Content::Plain(value.to_string()));
                assert_eq!(p.style, fg(Shade::Text).bold());
            }
            _ => panic!("input"),
        }
    }
    let draft = Draft { mode: DraftMode::Edit(7), value: "x".to_string() };
    let narrow = vec![at(0, 0, 2, 1), at(0, 1, 2, 1), at(0, 2, 2, 1)];
    let draws = render_draft_modal(at(0, 0, 100, 40), &narrow, &draft).unwrap();
    assert_eq!(draws[4].area, at(1, 2, 1, 1));
    assert_eq!(
        draws[1].widget,
        Widget::Panel(titled_panel(Shade::Accent, Shade::Panel, " Rename Task "))
    );
    let last = vec![at(0, 0, 2, 1), at(0, 65535, 2, 0), at(0, 2, 2, 1)];
    assert_eq!(render_draft_modal(at(0, 0, 100, 40), &last, &draft), None);
}

#[test]
fn the_screen_is_drawn_in_order() {
    let area = at(0, 0, 100, 40);
    let mut app = sample();
    assert!(can_render(area, &app));
    let draws = render(area, &app).unwrap();
    assert_eq!(draws.len(), 10);
    assert_eq!(draws[0], Draw { area, widget: Widget::Backdrop(Shade::Background) });
    assert_eq!(draws[1].area, at(0, 0, 100, 5));
    assert_eq!(draws[2].area, at(0, 5, 58, 31));
    assert_eq!(draws[5].area, at(58, 5, 42, 31));
    assert_eq!(draws[9].area, at(0, 36, 100, 4));
    app.start_clear_data_confirmation();
    let draws = render(area, &app).unwrap();
    assert_eq!(draws.len(), 13);
    assert_eq!(draws[10], Draw { area: at(14, 16, 72, 8), widget: Widget::Clear });
    app.start_add();
    let draws = render(area, &app).unwrap();
    assert_eq!(draws.len(), 16);
    assert_eq!(draws[14], Draw { area: at(18, 19, 1, 1), widget: Widget::Cursor });
    assert!(!can_render(at(65535, 0, 100, 40), &app));
}

#[test]
fn a_given_layout_is_kept() {
    let app = empty();
    let layout = ScreenLayout {
        rows: vec![at(1, 1, 1, 1), at(2, 2, 2, 2), at(3, 3, 3, 3)],
        columns: vec![at(4, 4, 4, 4), at(5, 5, 5, 5)],
        queue: vec![at(6, 6, 6, 6), at(7, 7, 7, 7)],
        focus: vec![at(8, 8, 8, 8), at(9, 9, 9, 9), at(10, 10, 10, 10)],
        popup: None,
    };
    let draws = compose(at(0, 0, 50, 50), &layout, &app).unwrap();
    let xs: Vec<u16> = draws.iter().map(|d| d.area.x).collect();
    assert_eq!(xs, vec![0, 1, 4, 6, 7, 5, 8, 9, 10, 3]);
}

#[test]
fn the_cursor_stays_in_its_box() {
    let mut app = sample();
    app.draft = Some(Draft { mode: DraftMode::Add, value: "w".repeat(300) });
    for width in [10u16, 24, 40, 100, 250] {
        let area = at(3, 2, width, 30);
        let popup = centered_rect(70, 8, area);
        let draws = render(area, &app).unwrap();
        let cursor = draws.iter().find(|d| d.widget == Widget::Cursor).unwrap();
        assert!(popup.x < cursor.area.x);
        assert!(cursor.area.x < popup.x + popup.width - 1);
        assert!(popup.y < cursor.area.y);
        assert!(cursor.area.y < popup.y + popup.height - 1);
    }
}

fn inside(parts: &[Rect], whole: Rect) {
    let right = whole.x.saturating_add(whole.width);
    let bottom = whole.y.saturating_add(whole.height);
    for part in parts {
        assert!(whole.x <= part.x && part.x.checked_add(part.width).unwrap() <= right);
        assert!(whole.y <= part.y && part.y.checked_add(part.height).unwrap() <= bottom);
    }
}

fn within(whole: Rect, across: u16, down: u16) -> Rect {
    if whole.width < 2 * across || whole.height < 2 * down {
        at(0, 0, 0, 0)
    } else {
        at(
            whole.x + across,
            whole.y + down,
            whole.width - 2 * across,
            whole.height - 2 * down,
        )
    }
}

#[test]
fn every_part_lies_inside_what_is_divided() {
    let mut app = sample();
    app.start_add();
    for width in [0u16, 1, 2, 3, 5, 9, 24, 71, 80, 133] {
        for height in [0u16, 1, 2, 3, 4, 7, 8, 9, 12, 24, 51] {
            for (x, y) in [(0, 0), (7, 4), (u16::MAX - width, u16::MAX - height)] {
                let area = at(x, y, width, height);
                let layout = lay_out(area, &app);
                inside(&layout.rows, area);
                inside(&layout.columns, layout.rows[1]);
                inside(&layout.queue, within(layout.columns[0], 1, 1));
                inside(&layout.focus, within(layout.columns[1], 1, 1));
                let popup = centered_rect(70, 8, area);
                inside(&layout.popup.unwrap(), within(popup, 2, 1));
            }
        }
    }
}

#[test]
fn what_goes_on_past_the_last_coordinate_ends_there() {
    let area = at(u16::MAX - 10, u16::MAX - 6, 80, 24);
    let layout = lay_out(area, &sample());
    for part in &layout.rows {
        assert!(part.y >= area.y);
        assert!(part.y.checked_add(part.height).is_some());
        assert_eq!((part.x, part.width), (area.x, area.width));
    }
    for part in &layout.columns {
        assert!(part.x >= area.x);
        assert!(part.x.checked_add(part.width).is_some());
    }
}

#[test]
fn a_screen_that_ends_before_the_last_coordinate_is_drawn() {
    let mut drafting = sample();
    drafting.draft = Some(Draft { mode: DraftMode::Add, value: "w".repeat(90) });
    let mut asking = sample();
    asking.start_clear_data_confirmation();
    for app in [sample(), drafting, asking, empty()] {
        for width in [0u16, 1, 4, 30, 120] {
            for height in [0u16, 1, 2, 8, 40] {
                for (x, y) in [(0, 0), (u16::MAX - width, u16::MAX - height)] {
                    let area = at(x, y, width, height);
                    assert!(can_render(area, &app));
                    assert!(render(area, &app).is_some());
                }
            }
        }
    }
}
