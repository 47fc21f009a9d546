//! The screen: what is drawn, and where.

use crate::app::{App, Draft};
use crate::geometry::{
    can_center, can_center_rect, centered, centered_rect, ends_on_screen, inner, inset, lesser,
    may_split, spans, split, Constraint, Direction, Rect,
};
use crate::model::{ids, lemma_position, AppView, DraftMode, DraftView};
use crate::paint::{
    draw_views, panel, panel_view, raw, raw_view, styled, styled_view, titled_panel,
    titled_panel_view, Content, ContentView, Draw, DrawView, Gauge, GaugeView, Line, LineView,
    List, ListView, Panel, Paragraph, ParagraphView, PanelView, Shade, Span, SpanView, Style,
    Tabs, TabsView, Widget, WidgetView,
};
use crate::task::{Task, TaskView};
use crate::text::{decimal, to_decimal};
use vstd::prelude::*;

verus! {

/// The box around most of what is shown.
pub open spec fn plain_box() -> PanelView {
    panel_view(Shade::Border, Shade::Panel)
}

/// A paragraph of lines that are wrapped, in a box.
pub open spec fn boxed_lines(lines: Seq<LineView>, centered: bool) -> WidgetView {
    WidgetView::Paragraph(
        ParagraphView {
            content: ContentView::Lines(lines),
            style: Style::plain(),
            panel: Some(plain_box()),
            centered,
            wrapped: true,
        },
    )
}

/// A count with its name on a coloured ground.
pub open spec fn pill_view(label: Seq<char>, value: nat, shade: Shade) -> SpanView {
    styled_view(
        " "@ + label + " "@ + decimal(value) + " "@,
        Style::plain().fg(Shade::Background).bg(shade).bold(),
    )
}

/// What the header shows: the name of the list, the counts, and the filter.
pub open spec fn header(app: AppView, area: Rect) -> Seq<DrawView> {
    let (total, active, done) = app.counts();
    seq![
        DrawView {
            area,
            widget: boxed_lines(
                seq![
                    LineView::Joined(
                        seq![
                            styled_view(" todo_rust "@, Style::plain().fg(Shade::Accent).bold()),
                            styled_view(
                                "beautiful console flow"@,
                                Style::plain().fg(Shade::Muted),
                            ),
                        ],
                    ),
                    LineView::Blank,
                    LineView::Joined(
                        seq![
                            pill_view("Total"@, total, Shade::Accent),
                            raw_view("  "@),
                            pill_view("Active"@, active, Shade::AccentAlt),
                            raw_view("  "@),
                            pill_view("Done"@, done, Shade::Success),
                            raw_view("  "@),
                            styled_view(
                                "Filter "@ + app.filter.name(),
                                Style::plain().fg(Shade::Text).bold(),
                            ),
                        ],
                    ),
                ],
                false,
            ),
        },
    ]
}

fn plain_panel() -> (r: Panel)
    ensures
        r@ == plain_box(),
{
    panel(Shade::Border, Shade::Panel)
}

fn boxed(lines: Vec<Line>, centered: bool) -> (r: Widget)
    ensures
        r@ == boxed_lines(lines@.map_values(|l: Line| l@), centered),
{
    Widget::Paragraph(
        Paragraph {
            content: Content::Lines(lines),
            style: Style::plain(),
            panel: Some(plain_panel()),
            centered,
            wrapped: true,
        },
    )
}

/// A line in one style.
fn line(text: &str, style: Style) -> (r: Line)
    ensures
        r@ == LineView::Styled(styled_view(text@, style)),
{
    Line::Styled(styled(text, style))
}

/// A line of pieces.
fn joined(spans: Vec<Span>) -> (r: Line)
    ensures
        r@ == LineView::Joined(spans@.map_values(|s: Span| s@)),
{
    Line::Joined(spans)
}

/// A count with its name on a coloured ground.
pub fn pill(label: &str, value: usize, shade: Shade) -> (r: Span)
    ensures
        r@ == pill_view(label@, value as nat, shade),
{
    let mut text = " ".to_string();
    text.append(label);
    text.append(" ");
    text.append(to_decimal(value as u64).as_str());
    text.append(" ");
    Span { text, style: Style::plain().fg(Shade::Background).bg(shade).bold() }
}

/// Draws the name of the list, the counts, and the filter.
pub fn render_header(area: Rect, app: &App) -> (r: Vec<Draw>)
    ensures
        draw_views(r@) == header(app@, area),
{
    let (total, active, done) = app.counts();
    let title = joined(
        vec![
            styled(" todo_rust ", Style::plain().fg(Shade::Accent).bold()),
            styled("beautiful console flow", Style::plain().fg(Shade::Muted)),
        ],
    );
    let mut filter = "Filter ".to_string();
    filter.append(app.filter.title());
    let stats = joined(
        vec![
            pill("Total", total, Shade::Accent),
            raw("  "),
            pill("Active", active, Shade::AccentAlt),
            raw("  "),
            pill("Done", done, Shade::Success),
            raw("  "),
            styled(filter.as_str(), Style::plain().fg(Shade::Text).bold()),
        ],
    );
    let draws = vec![Draw { area, widget: boxed(vec![title, Line::Blank, stats], false) }];
    assert(draw_views(draws@) =~~= header(app@, area));
    draws
}

/// How a task is shown in the list: a marker and the title, struck out where the task is done.
pub open spec fn item_view(task: TaskView) -> LineView {
    LineView::Joined(
        if task.completed {
            seq![
                styled_view("●"@, Style::plain().fg(Shade::Success).bold()),
                raw_view("  "@),
                styled_view(task.title, Style::plain().fg(Shade::Muted).crossed_out()),
            ]
        } else {
            seq![
                styled_view("○"@, Style::plain().fg(Shade::AccentAlt).bold()),
                raw_view("  "@),
                styled_view(task.title, Style::plain().fg(Shade::Text)),
            ]
        },
    )
}

/// The tasks of the list: for each identifier that is shown, the first task that has it.
pub open spec fn items_view(app: AppView) -> Seq<LineView> {
    app.visible().map_values(
        |id: u64| item_view(app.data.tasks[app.place(id)->0 as int]),
    )
}

/// What the list panel shows in its two rows: the filters, and the tasks or a hint.
pub open spec fn tasks_panel(app: AppView, area: Rect, rows: Seq<Rect>) -> Seq<DrawView> {
    seq![
        DrawView {
            area,
            widget: WidgetView::Panel(
                titled_panel_view(Shade::Border, Shade::PanelAlt, " Queue "@),
            ),
        },
        DrawView {
            area: rows[0],
            widget: WidgetView::Tabs(
                TabsView {
                    titles: seq!["All"@, "Active"@, "Done"@],
                    selected: app.filter.place(),
                    panel: plain_box(),
                    style: Style::plain().fg(Shade::Muted),
                    highlight: Style::plain().fg(Shade::Accent).bold().underlined(),
                    divider: raw_view(" "@),
                },
            ),
        },
        DrawView {
            area: rows[1],
            widget: if app.visible().len() == 0 {
                boxed_lines(
                    seq![
                        LineView::Styled(
                            styled_view(
                                "No tasks in this view"@,
                                Style::plain().fg(Shade::Text),
                            ),
                        ),
                        LineView::Blank,
                        LineView::Styled(
                            styled_view(
                                "Press 'a' to add a new task and start filling the list."@,
                                Style::plain().fg(Shade::Muted),
                            ),
                        ),
                    ],
                    true,
                )
            } else {
                WidgetView::List(
                    ListView {
                        items: items_view(app),
                        selected: app.cursor(),
                        panel: plain_box(),
                        highlight: Style::plain().bg(Shade::Highlight).fg(Shade::Text).bold(),
                        symbol: "› "@,
                    },
                )
            },
        },
    ]
}

/// An identifier that is shown belongs to a task.
pub proof fn lemma_visible_known(app: AppView, i: int)
    requires
        0 <= i < app.visible().len(),
    ensures
        app.place(app.visible()[i]) is Some,
        app.place(app.visible()[i])->0 < app.data.tasks.len(),
{
    let id = app.visible()[i];
    let tasks = app.data.tasks;
    let pred = |t: TaskView| app.filter.accepts(t);
    let task = tasks.filter(pred)[i];
    assert(tasks.filter(pred).contains(task));
    tasks.lemma_filter_contains_rev(pred, task);
    let j = choose|j: int| 0 <= j < tasks.len() && tasks[j] == task;
    assert(ids(tasks)[j] == id);
    lemma_position(ids(tasks), id);
}

fn item(task: &Task) -> (r: Line)
    ensures
        r@ == item_view(task@),
{
    let marker = if task.completed {
        styled("●", Style::plain().fg(Shade::Success).bold())
    } else {
        styled("○", Style::plain().fg(Shade::AccentAlt).bold())
    };
    let style = if task.completed {
        Style::plain().fg(Shade::Muted).crossed_out()
    } else {
        Style::plain().fg(Shade::Text)
    };
    let r = joined(vec![marker, raw("  "), styled(task.title.as_str(), style)]);
    assert(r@ =~~= item_view(task@));
    r
}

/// Draws the filters, and the tasks that are shown or a hint.
pub fn render_tasks_panel(area: Rect, rows: &Vec<Rect>, app: &App) -> (r: Vec<Draw>)
    requires
        rows@.len() == 2,
    ensures
        draw_views(r@) == tasks_panel(app@, area, rows@),
{
    let outer = titled_panel(Shade::Border, Shade::PanelAlt, " Queue ");
    let tabs = Tabs {
        titles: vec!["All", "Active", "Done"],
        selected: app.filter.tab_index(),
        panel: plain_panel(),
        style: Style::plain().fg(Shade::Muted),
        highlight: Style::plain().fg(Shade::Accent).bold().underlined(),
        divider: raw(" "),
    };
    let visible = app.visible_ids();
    let body = if visible.len() == 0 {
        boxed(
            vec![
                line("No tasks in this view", Style::plain().fg(Shade::Text)),
                Line::Blank,
                line(
                    "Press 'a' to add a new task and start filling the list.",
                    Style::plain().fg(Shade::Muted),
                ),
            ],
            true,
        )
    } else {
        let mut items: Vec<Line> = Vec::new();
        let mut i: usize = 0;
        while i < visible.len()
            invariant
                visible@ == app@.visible(),
                i <= visible@.len(),
                items@.map_values(|l: Line| l@) == items_view(app@).take(i as int),
            decreases visible@.len() - i,
        {
            proof {
                lemma_visible_known(app@, i as int);
            }
            let ghost before = items@;
            if let Some(j) = app.task_index(visible[i]) {
                items.push(item(&app.data.tasks[j]));
            }
            assert(items@.map_values(|l: Line| l@) =~= items_view(app@).take(i + 1)) by {
                assert(items@.drop_last() =~= before);
                assert(before.map_values(|l: Line| l@)
                    =~= items@.map_values(|l: Line| l@).drop_last());
            }
            i += 1;
        }
        assert(items_view(app@).take(i as int) =~= items_view(app@));
        Widget::List(
            List {
                items,
                selected: app.selected_index_in_visible(),
                panel: plain_panel(),
                highlight: Style::plain().bg(Shade::Highlight).fg(Shade::Text).bold(),
                symbol: "› ",
            },
        )
    };
    let draws = vec![
        Draw { area, widget: Widget::Panel(outer) },
        Draw { area: rows[0], widget: Widget::Tabs(tabs) },
        Draw { area: rows[1], widget: body },
    ];
    assert(draw_views(draws@) =~~= tasks_panel(app@, area, rows@));
    draws
}

/// What Enter does to the selected task, in words.
pub open spec fn enter_hint_view(completed: bool) -> Seq<char> {
    if completed {
        "Press Enter to reopen this"@ + " task"@ + "."@
    } else {
        "Press Enter to mark this"@ + " task"@ + " as done."@
    }
}

/// What the focus panel says of the selected task.
pub open spec fn focus_lines(app: AppView) -> Seq<LineView> {
    match app.selected_place() {
        Some(i) => {
            let task = app.data.tasks[i as int];
            seq![
                LineView::Joined(
                    seq![
                        if task.completed {
                            styled_view("Completed"@, Style::plain().fg(Shade::Success).bold())
                        } else {
                            styled_view("In progress"@, Style::plain().fg(Shade::Accent).bold())
                        },
                        raw_view("  "@),
                        styled_view(
                            "#"@ + decimal(task.id as nat),
                            Style::plain().fg(Shade::Muted),
                        ),
                    ],
                ),
                LineView::Blank,
                LineView::Styled(
                    styled_view(task.title, Style::plain().fg(Shade::Text).bold().italic()),
                ),
                LineView::Blank,
                LineView::Styled(
                    styled_view(
                        enter_hint_view(task.completed),
                        Style::plain().fg(Shade::Muted),
                    ),
                ),
            ]
        },
        None => seq![
            LineView::Styled(styled_view("Nothing selected"@, Style::plain().fg(Shade::Text))),
            LineView::Blank,
            LineView::Styled(
                styled_view(
                    "Add your first task with 'a' or switch the filter to another view."@,
                    Style::plain().fg(Shade::Muted),
                ),
            ),
        ],
    }
}

/// How far the list is done.
pub open spec fn progress_view(app: AppView) -> GaugeView {
    let (total, active, done) = app.counts();
    GaugeView {
        ratio: if total == 0 {
            None
        } else {
            Some((done, total))
        },
        label: decimal(done) + "/"@ + decimal(total) + " done"@,
        panel: titled_panel_view(Shade::Border, Shade::Panel, " Progress "@),
        style: Style::plain().fg(Shade::AccentAlt).bg(Shade::Track),
    }
}

/// The keys, and how many tasks wait.
pub open spec fn guide_lines(app: AppView) -> Seq<LineView> {
    let text = Style::plain().fg(Shade::Text);
    seq![
        LineView::Styled(
            styled_view("Quick flow"@, Style::plain().fg(Shade::Accent).bold()),
        ),
        LineView::Blank,
        LineView::Styled(styled_view("a new   e rename   d delete"@, text)),
        LineView::Styled(styled_view("Space toggle   x clear done"@, text)),
        LineView::Styled(styled_view("Shift+X wipe data"@, text)),
        LineView::Styled(styled_view("1 2 3 filter   q quit"@, text)),
        LineView::Blank,
        LineView::Styled(
            styled_view(
                decimal(app.counts().1) + " active tasks waiting"@,
                Style::plain().fg(Shade::Muted),
            ),
        ),
    ]
}

/// What the focus panel shows in its three rows: the selected task, the progress, and the keys.
pub open spec fn focus_panel(app: AppView, area: Rect, rows: Seq<Rect>) -> Seq<DrawView> {
    seq![
        DrawView {
            area,
            widget: WidgetView::Panel(
                titled_panel_view(Shade::Border, Shade::PanelAlt, " Focus "@),
            ),
        },
        DrawView { area: rows[0], widget: boxed_lines(focus_lines(app), false) },
        DrawView { area: rows[1], widget: WidgetView::Gauge(progress_view(app)) },
        DrawView { area: rows[2], widget: boxed_lines(guide_lines(app), false) },
    ]
}

/// What Enter does to the selected task, in words.
fn enter_hint(completed: bool) -> (r: String)
    ensures
        r@ == enter_hint_view(completed),
{
    let mut hint = if completed {
        "Press Enter to reopen this".to_string()
    } else {
        "Press Enter to mark this".to_string()
    };
    hint.append(" task");
    hint.append(
        if completed {
            "."
        } else {
            " as done."
        },
    );
    hint
}

fn focus(app: &App) -> (r: Vec<Line>)
    ensures
        r@.map_values(|l: Line| l@) == focus_lines(app@),
{
    let muted = Style::plain().fg(Shade::Muted);
    let lines = match app.selected_task() {
        Some(task) => {
            let state = if task.completed {
                styled("Completed", Style::plain().fg(Shade::Success).bold())
            } else {
                styled("In progress", Style::plain().fg(Shade::Accent).bold())
            };
            let mut number = "#".to_string();
            number.append(to_decimal(task.id).as_str());
            vec![
                joined(vec![state, raw("  "), styled(number.as_str(), muted)]),
                Line::Blank,
                line(task.title.as_str(), Style::plain().fg(Shade::Text).bold().italic()),
                Line::Blank,
                line(enter_hint(task.completed).as_str(), muted),
            ]
        },
        None => vec![
            line("Nothing selected", Style::plain().fg(Shade::Text)),
            Line::Blank,
            line("Add your first task with 'a' or switch the filter to another view.", muted),
        ],
    };
    assert(lines@.map_values(|l: Line| l@) =~~= focus_lines(app@));
    lines
}

fn progress(app: &App) -> (r: Gauge)
    ensures
        r@ == progress_view(app@),
{
    let (total, _, done) = app.counts();
    let mut label = to_decimal(done as u64);
    label.append("/");
    label.append(to_decimal(total as u64).as_str());
    label.append(" done");
    Gauge {
        ratio: if total == 0 {
            None
        } else {
            Some((done, total))
        },
        label,
        panel: titled_panel(Shade::Border, Shade::Panel, " Progress "),
        style: Style::plain().fg(Shade::AccentAlt).bg(Shade::Track),
    }
}

fn guide(app: &App) -> (r: Vec<Line>)
    ensures
        r@.map_values(|l: Line| l@) == guide_lines(app@),
{
    let text = Style::plain().fg(Shade::Text);
    let (_, active, _) = app.counts();
    let mut waiting = to_decimal(active as u64);
    waiting.append(" active tasks waiting");
    let lines = vec![
        line("Quick flow", Style::plain().fg(Shade::Accent).bold()),
        Line::Blank,
        line("a new   e rename   d delete", text),
        line("Space toggle   x clear done", text),
        line("Shift+X wipe data", text),
        line("1 2 3 filter   q quit", text),
        Line::Blank,
        line(waiting.as_str(), Style::plain().fg(Shade::Muted)),
    ];
    assert(lines@.map_values(|l: Line| l@) =~~= guide_lines(app@));
    lines
}

/// Draws the selected task, the progress, and the keys.
pub fn render_focus_panel(area: Rect, rows: &Vec<Rect>, app: &App) -> (r: Vec<Draw>)
    requires
        rows@.len() == 3,
    ensures
        draw_views(r@) == focus_panel(app@, area, rows@),
{
    let outer = titled_panel(Shade::Border, Shade::PanelAlt, " Focus ");
    let draws = vec![
        Draw { area, widget: Widget::Panel(outer) },
        Draw { area: rows[0], widget: boxed(focus(app), false) },
        Draw { area: rows[1], widget: Widget::Gauge(progress(app)) },
        Draw { area: rows[2], widget: boxed(guide(app), false) },
    ];
    assert(draw_views(draws@) =~~= focus_panel(app@, area, rows@));
    draws
}

/// What the footer shows: the mode, the status, and the keys.
pub open spec fn footer(app: AppView, area: Rect) -> Seq<DrawView> {
    let mode = match app.draft {
        Some(draft) => match draft.mode {
            DraftMode::Add => "INPUT: NEW TASK"@,
            DraftMode::Edit(_) => "INPUT: RENAME TASK"@,
        },
        None => "NORMAL"@,
    };
    seq![
        DrawView {
            area,
            widget: boxed_lines(
                seq![
                    LineView::Joined(
                        seq![
                            styled_view(mode, Style::plain().fg(Shade::Accent).bold()),
                            raw_view("  "@),
                            styled_view(app.status, Style::plain().fg(Shade::Text)),
                        ],
                    ),
                    LineView::Styled(
                        styled_view(
                            "j/k navigate  enter toggle  a add  e edit  x done  Shift+X reset  q quit"@,
                            Style::plain().fg(Shade::Muted),
                        ),
                    ),
                ],
                false,
            ),
        },
    ]
}

/// Draws the mode, the status, and the keys.
pub fn render_footer(area: Rect, app: &App) -> (r: Vec<Draw>)
    ensures
        draw_views(r@) == footer(app@, area),
{
    let mode = match &app.draft {
        Some(draft) => match draft.mode {
            DraftMode::Add => "INPUT: NEW TASK",
            DraftMode::Edit(_) => "INPUT: RENAME TASK",
        },
        None => "NORMAL",
    };
    let draws = vec![
        Draw {
            area,
            widget: boxed(
                vec![
                    joined(
                        vec![
                            styled(mode, Style::plain().fg(Shade::Accent).bold()),
                            raw("  "),
                            styled(app.status.as_str(), Style::plain().fg(Shade::Text)),
                        ],
                    ),
                    line(
                        "j/k navigate  enter toggle  a add  e edit  x done  Shift+X reset  q quit",
                        Style::plain().fg(Shade::Muted),
                    ),
                ],
                false,
            ),
        },
    ];
    assert(draw_views(draws@) =~~= footer(app@, area));
    draws
}

/// A text in one style, without a box around it.
pub open spec fn note_view(text: Seq<char>) -> WidgetView {
    WidgetView::Paragraph(
        ParagraphView {
            content: ContentView::Plain(text),
            style: Style::plain().fg(Shade::Muted),
            panel: None,
            centered: false,
            wrapped: false,
        },
    )
}

/// The cell of the text cursor: after the text that fills `row`, as far as it fits.
pub open spec fn cursor_cell(value: Seq<char>, row: Rect) -> (int, int) {
    let room = if row.width < 3 {
        0
    } else {
        row.width - 3
    };
    (row.x + 1 + lesser(value.len() as int, room), row.y + 1)
}

/// What the draft shows above the rest of the screen, in its three rows.
pub open spec fn draft_modal(draft: DraftView, screen: Rect, rows: Seq<Rect>) -> Seq<DrawView> {
    let popup = centered(70, 8, screen);
    let (x, y) = cursor_cell(draft.value, rows[1]);
    let title = match draft.mode {
        DraftMode::Add => " New Task "@,
        DraftMode::Edit(_) => " Rename Task "@,
    };
    seq![
        DrawView { area: popup, widget: WidgetView::Clear },
        DrawView {
            area: popup,
            widget: WidgetView::Panel(titled_panel_view(Shade::Accent, Shade::Panel, title)),
        },
        DrawView {
            area: rows[0],
            widget: note_view("Type the task title. Enter saves, Esc cancels."@),
        },
        DrawView {
            area: rows[1],
            widget: WidgetView::Paragraph(
                ParagraphView {
                    content: ContentView::Plain(draft.value),
                    style: Style::plain().fg(Shade::Text).bold(),
                    panel: Some(panel_view(Shade::Border, Shade::PanelAlt)),
                    centered: false,
                    wrapped: false,
                },
            ),
        },
        DrawView {
            area: Rect { x: x as u16, y: y as u16, width: 1, height: 1 },
            widget: WidgetView::Cursor,
        },
        DrawView { area: rows[2], widget: note_view("Tip: Ctrl+U clears the current input."@) },
    ]
}

/// Whether the text cursor of a draft has a cell on the screen.
pub open spec fn has_cursor_cell(draft: DraftView, rows: Seq<Rect>) -> bool {
    let (x, y) = cursor_cell(draft.value, rows[1]);
    x <= u16::MAX && y <= u16::MAX
}

fn note(text: &str) -> (r: Widget)
    ensures
        r@ == note_view(text@),
{
    Widget::Paragraph(
        Paragraph {
            content: Content::Plain(text.to_string()),
            style: Style::plain().fg(Shade::Muted),
            panel: None,
            centered: false,
            wrapped: false,
        },
    )
}

/// Draws the draft above the rest of the screen, unless the text cursor would be past the last
/// coordinate.
pub fn render_draft_modal(screen: Rect, rows: &Vec<Rect>, draft: &Draft) -> (r: Option<Vec<Draw>>)
    requires
        can_center(70, 8, screen),
        rows@.len() == 3,
    ensures
        match r {
            Some(draws) => has_cursor_cell(draft@, rows@) && draw_views(draws@) == draft_modal(
                draft@,
                screen,
                rows@,
            ),
            None => !has_cursor_cell(draft@, rows@),
        },
{
    let popup = centered_rect(70, 8, screen);
    let title = match draft.mode {
        DraftMode::Add => " New Task ",
        DraftMode::Edit(_) => " Rename Task ",
    };
    let row = rows[1];
    let room = row.width.saturating_sub(3) as usize;
    let length = draft.value.as_str().unicode_len();
    let offset = if length < room {
        length
    } else {
        room
    };
    let x: u32 = row.x as u32 + 1 + offset as u32;
    let y: u32 = row.y as u32 + 1;
    if x > 0xffff || y > 0xffff {
        return None;
    }
    let input = Paragraph {
        content: Content::Plain(draft.value.as_str().to_string()),
        style: Style::plain().fg(Shade::Text).bold(),
        panel: Some(panel(Shade::Border, Shade::PanelAlt)),
        centered: false,
        wrapped: false,
    };
    let frame = titled_panel(Shade::Accent, Shade::Panel, title);
    let cell = Rect { x: x as u16, y: y as u16, width: 1, height: 1 };
    let draws = vec![
        Draw { area: popup, widget: Widget::Clear },
        Draw { area: popup, widget: Widget::Panel(frame) },
        Draw { area: rows[0], widget: note("Type the task title. Enter saves, Esc cancels.") },
        Draw { area: row, widget: Widget::Paragraph(input) },
        Draw { area: cell, widget: Widget::Cursor },
        Draw { area: rows[2], widget: note("Tip: Ctrl+U clears the current input.") },
    ];
    assert(draw_views(draws@) =~~= draft_modal(draft@, screen, rows@));
    Some(draws)
}

/// What the question before a full reset shows above the rest of the screen.
pub open spec fn clear_data_modal(screen: Rect) -> Seq<DrawView> {
    let popup = centered(72, 8, screen);
    seq![
        DrawView { area: popup, widget: WidgetView::Clear },
        DrawView {
            area: popup,
            widget: WidgetView::Panel(
                titled_panel_view(Shade::Accent, Shade::Panel, " Delete Local Data "@),
            ),
        },
        DrawView {
            area: inset(popup, 2, 1),
            widget: WidgetView::Paragraph(
                ParagraphView {
                    content: ContentView::Lines(
                        seq![
                            LineView::Styled(
                                styled_view(
                                    "This will remove all tasks and delete ~/.todo_rust/tasks.json."@,
                                    Style::plain().fg(Shade::Text),
                                ),
                            ),
                            LineView::Blank,
                            LineView::Styled(
                                styled_view(
                                    "Press Y to confirm or Esc to cancel."@,
                                    Style::plain().fg(Shade::Muted),
                                ),
                            ),
                        ],
                    ),
                    style: Style::plain(),
                    panel: None,
                    centered: false,
                    wrapped: true,
                },
            ),
        },
    ]
}

/// Draws the question before a full reset above the rest of the screen.
pub fn render_clear_data_modal(screen: Rect) -> (r: Vec<Draw>)
    requires
        can_center(72, 8, screen),
    ensures
        draw_views(r@) == clear_data_modal(screen),
{
    let popup = centered_rect(72, 8, screen);
    let frame = titled_panel(Shade::Accent, Shade::Panel, " Delete Local Data ");
    let lines = vec![
        line(
            "This will remove all tasks and delete ~/.todo_rust/tasks.json.",
            Style::plain().fg(Shade::Text),
        ),
        Line::Blank,
        line("Press Y to confirm or Esc to cancel.", Style::plain().fg(Shade::Muted)),
    ];
    let question = Paragraph {
        content: Content::Lines(lines),
        style: Style::plain(),
        panel: None,
        centered: false,
        wrapped: true,
    };
    let draws = vec![
        Draw { area: popup, widget: Widget::Clear },
        Draw { area: popup, widget: Widget::Panel(frame) },
        Draw { area: inner(popup, 2, 1), widget: Widget::Paragraph(question) },
    ];
    assert(draw_views(draws@) =~~= clear_data_modal(screen));
    draws
}

/// Where the parts of the screen go.
pub struct ScreenLayout {
    /// The header, the body, and the footer.
    pub rows: Vec<Rect>,
    /// The list and the focus panel, in the body.
    pub columns: Vec<Rect>,
    /// The rows of the list panel.
    pub queue: Vec<Rect>,
    /// The rows of the focus panel.
    pub focus: Vec<Rect>,
    /// The rows of the draft, where one is open.
    pub popup: Option<Vec<Rect>>,
}

/// Whether `parts` may be the parts of `area` with sizes that follow one another.
pub open spec fn divides(
    area: Rect,
    direction: Direction,
    sizes: Seq<Constraint>,
    parts: Seq<Rect>,
) -> bool {
    &&& may_split(area, direction, sizes, parts)
    &&& parts.len() == sizes.len()
    &&& spans(area, direction, parts)
}

impl ScreenLayout {
    /// Whether each part of the screen has its place.
    pub open spec fn fits(self, app: AppView) -> bool {
        &&& self.rows@.len() == 3
        &&& self.columns@.len() == 2
        &&& self.queue@.len() == 2
        &&& self.focus@.len() == 3
        &&& app.draft is Some ==> self.popup is Some && self.popup->0@.len() == 3
    }

    /// Whether the parts of the screen may go here.
    pub open spec fn is_for(self, app: AppView, area: Rect) -> bool {
        &&& divides(
            area,
            Direction::Vertical,
            seq![Constraint::Length(5), Constraint::Min(12), Constraint::Length(4)],
            self.rows@,
        )
        &&& divides(
            self.rows@[1],
            Direction::Horizontal,
            seq![Constraint::Percentage(58), Constraint::Percentage(42)],
            self.columns@,
        )
        &&& divides(
            inset(self.columns@[0], 1, 1),
            Direction::Vertical,
            seq![Constraint::Length(3), Constraint::Min(5)],
            self.queue@,
        )
        &&& divides(
            inset(self.columns@[1], 1, 1),
            Direction::Vertical,
            seq![Constraint::Length(8), Constraint::Length(5), Constraint::Min(7)],
            self.focus@,
        )
        &&& match app.draft {
            Some(_) => self.popup is Some && divides(
                inset(centered(70, 8, area), 2, 1),
                Direction::Vertical,
                seq![Constraint::Length(1), Constraint::Length(3), Constraint::Length(1)],
                self.popup->0@,
            ),
            None => self.popup is None,
        }
    }
}

/// Whether what is above the rest of the screen has a place on it.
pub open spec fn can_draw(app: AppView, area: Rect) -> bool {
    if app.draft is Some {
        can_center(70, 8, area)
    } else if app.confirm_clear_data {
        can_center(72, 8, area)
    } else {
        true
    }
}

/// Whether what is above the rest of the screen has a place on it.
pub fn can_render(area: Rect, app: &App) -> (r: bool)
    ensures
        r == can_draw(app@, area),
{
    if app.draft.is_some() {
        can_center_rect(70, 8, area)
    } else if app.confirm_clear_data {
        can_center_rect(72, 8, area)
    } else {
        true
    }
}

/// Divides the screen.
pub fn lay_out(area: Rect, app: &App) -> (r: ScreenLayout)
    requires
        can_draw(app@, area),
    ensures
        r.is_for(app@, area),
{
    let rows = split(
        area,
        Direction::Vertical,
        vec![Constraint::Length(5), Constraint::Min(12), Constraint::Length(4)],
    );
    let columns = split(
        rows[1],
        Direction::Horizontal,
        vec![Constraint::Percentage(58), Constraint::Percentage(42)],
    );
    let queue = split(
        inner(columns[0], 1, 1),
        Direction::Vertical,
        vec![Constraint::Length(3), Constraint::Min(5)],
    );
    let focus = split(
        inner(columns[1], 1, 1),
        Direction::Vertical,
        vec![Constraint::Length(8), Constraint::Length(5), Constraint::Min(7)],
    );
    let popup = if app.draft.is_some() {
        Some(
            split(
                inner(centered_rect(70, 8, area), 2, 1),
                Direction::Vertical,
                vec![Constraint::Length(1), Constraint::Length(3), Constraint::Length(1)],
            ),
        )
    } else {
        None
    };
    ScreenLayout { rows, columns, queue, focus, popup }
}

/// What is drawn above the rest of the screen.
pub open spec fn overlay(app: AppView, area: Rect, layout: ScreenLayout) -> Seq<DrawView> {
    match app.draft {
        Some(draft) => draft_modal(draft, area, layout.popup->0@),
        None => if app.confirm_clear_data {
            clear_data_modal(area)
        } else {
            Seq::empty()
        },
    }
}

/// Everything that is drawn, where the parts of the screen go where `layout` says.
pub open spec fn screen(app: AppView, area: Rect, layout: ScreenLayout) -> Seq<DrawView> {
    seq![DrawView { area, widget: WidgetView::Backdrop(Shade::Background) }]
        + header(app, layout.rows@[0])
        + tasks_panel(app, layout.columns@[0], layout.queue@)
        + focus_panel(app, layout.columns@[1], layout.focus@)
        + footer(app, layout.rows@[2])
        + overlay(app, area, layout)
}

/// Whether all that is drawn has a place on the screen.
pub open spec fn is_drawable(app: AppView, layout: ScreenLayout) -> bool {
    app.draft is Some ==> has_cursor_cell(app.draft->0, layout.popup->0@)
}

/// Draws everything, with the parts of the screen where `layout` says, unless the text cursor
/// would be past the last coordinate.
pub fn compose(area: Rect, layout: &ScreenLayout, app: &App) -> (r: Option<Vec<Draw>>)
    requires
        can_draw(app@, area),
        layout.fits(app@),
    ensures
        match r {
            Some(draws) => is_drawable(app@, *layout) && draw_views(draws@) == screen(
                app@,
                area,
                *layout,
            ),
            None => !is_drawable(app@, *layout),
        },
{
    let mut draws = vec![Draw { area, widget: Widget::Backdrop(Shade::Background) }];
    let mut header_draws = render_header(layout.rows[0], app);
    let mut tasks_draws = render_tasks_panel(layout.columns[0], &layout.queue, app);
    let mut focus_draws = render_focus_panel(layout.columns[1], &layout.focus, app);
    let mut footer_draws = render_footer(layout.rows[2], app);
    let mut overlay_draws = match &app.draft {
        Some(draft) => match &layout.popup {
            Some(rows) => match render_draft_modal(area, rows, draft) {
                Some(modal) => modal,
                None => return None,
            },
            None => return None,
        },
        None => if app.confirm_clear_data {
            render_clear_data_modal(area)
        } else {
            Vec::new()
        },
    };
    assert(draw_views(overlay_draws@) =~= overlay(app@, area, *layout));
    draws.append(&mut header_draws);
    draws.append(&mut tasks_draws);
    draws.append(&mut focus_draws);
    draws.append(&mut footer_draws);
    draws.append(&mut overlay_draws);
    assert(draw_views(draws@) =~= screen(app@, area, *layout));
    Some(draws)
}

/// On a screen that ends before the last coordinate, whatever is drawn has a place.
pub proof fn lemma_always_drawable(app: AppView, area: Rect, layout: ScreenLayout)
    requires
        ends_on_screen(area),
        layout.is_for(app, area),
    ensures
        is_drawable(app, layout),
{
    if app.draft is Some {
        let frame = inset(centered(70, 8, area), 2, 1);
        let row = layout.popup->0@[1];
        assert(row.x == frame.x && row.width == frame.width);
        assert(row.y <= frame.y + frame.height);
    }
}

/// Divides the screen and draws everything. Only on a screen that goes on past the last
/// coordinate may there be no place for the text cursor; then nothing comes back.
pub fn render(area: Rect, app: &App) -> (r: Option<Vec<Draw>>)
    requires
        can_draw(app@, area),
    ensures
        exists|layout: ScreenLayout| #[trigger]
            layout.is_for(app@, area) && match r {
                Some(draws) => is_drawable(app@, layout) && draw_views(draws@) == screen(
                    app@,
                    area,
                    layout,
                ),
                None => !is_drawable(app@, layout),
            },
        ends_on_screen(area) ==> r is Some,
        app@.draft is None ==> r is Some,
{
    let layout = lay_out(area, app);
    proof {
        if ends_on_screen(area) {
            lemma_always_drawable(app@, area, layout);
        }
    }
    compose(area, &layout, app)
}

} // verus!
