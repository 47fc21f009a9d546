//! What holds of the screen, told by the widgets that are drawn and the tasks that they show.

use crate::filter::Filter;
use crate::geometry::{
    can_center, centered, ends_on_screen, inset, may_split, Constraint, Direction, Rect,
};
use crate::input::{KeyCode, KeyEvent};
use crate::key_laws::{
    are_places, is_place, is_shown, law_counts_are_exact, law_number_done, law_place,
    law_selected_place, law_visible, lemma_is_place, lemma_visible, lists, number_done,
};
use crate::laws::has_distinct_ids;
use crate::model::{lemma_position, AppView, DraftMode};
use crate::paint::{ContentView, DrawView, LineView, Shade, SpanView, Style, WidgetView};
use crate::screen::{
    can_draw, focus_panel, footer, header, is_drawable, item_view, lemma_visible_known, overlay,
    pill_view, screen, tasks_panel, ScreenLayout,
};
use crate::task::TaskView;
use crate::text::decimal;
use vstd::prelude::*;

verus! {

/// The lines of a text widget.
pub open spec fn lines(draw: DrawView) -> Seq<LineView> {
    match draw.widget {
        WidgetView::Paragraph(paragraph) => match paragraph.content {
            ContentView::Lines(lines) => lines,
            ContentView::Plain(_) => Seq::empty(),
        },
        _ => Seq::empty(),
    }
}

/// The text of a text widget that holds one.
pub open spec fn text(draw: DrawView) -> Option<Seq<char>> {
    match draw.widget {
        WidgetView::Paragraph(paragraph) => match paragraph.content {
            ContentView::Plain(text) => Some(text),
            ContentView::Lines(_) => None,
        },
        _ => None,
    }
}

/// The title of a box.
pub open spec fn title(draw: DrawView) -> Option<Seq<char>> {
    match draw.widget {
        WidgetView::Panel(panel) => match panel.title {
            Some(span) => Some(span.text),
            None => None,
        },
        _ => None,
    }
}

/// The pieces of a line.
pub open spec fn pieces(line: LineView) -> Seq<SpanView> {
    match line {
        LineView::Blank => Seq::empty(),
        LineView::Styled(span) => seq![span],
        LineView::Joined(spans) => spans,
    }
}

proof fn lemma_parts_of_screen(app: AppView, area: Rect, layout: ScreenLayout)
    ensures
        ({
            let s = screen(app, area, layout);
            let o = overlay(app, area, layout);
            let queue = tasks_panel(app, layout.columns@[0], layout.queue@);
            let focus = focus_panel(app, layout.columns@[1], layout.focus@);
            &&& s.len() == 10 + o.len()
            &&& s[0] == (DrawView { area, widget: WidgetView::Backdrop(Shade::Background) })
            &&& s[1] == header(app, layout.rows@[0])[0]
            &&& s[2] == queue[0]
            &&& s[3] == queue[1]
            &&& s[4] == queue[2]
            &&& s[5] == focus[0]
            &&& s[6] == focus[1]
            &&& s[7] == focus[2]
            &&& s[8] == focus[3]
            &&& s[9] == footer(app, layout.rows@[2])[0]
            &&& forall|k: int| 0 <= k < o.len() ==> s[10 + k] == #[trigger] o[k]
            &&& forall|k: int| 10 <= k < s.len() ==> #[trigger] s[k] == o[k - 10]
        }),
{
}

/// Each part of the screen is drawn in its place, and what is above the rest comes after it.
pub proof fn law_parts_have_their_places(app: AppView, area: Rect, layout: ScreenLayout)
    ensures
        ({
            let s = screen(app, area, layout);
            &&& s.len() == 10 + if app.draft is Some {
                6int
            } else if app.confirm_clear_data {
                3
            } else {
                0
            }
            &&& s[0].area == area
            &&& s[0].widget is Backdrop
            &&& s[1].area == layout.rows@[0]
            &&& s[2].area == layout.columns@[0]
            &&& title(s[2]) == Some(" Queue "@)
            &&& s[3].area == layout.queue@[0]
            &&& s[4].area == layout.queue@[1]
            &&& s[5].area == layout.columns@[1]
            &&& title(s[5]) == Some(" Focus "@)
            &&& s[6].area == layout.focus@[0]
            &&& s[7].area == layout.focus@[1]
            &&& s[8].area == layout.focus@[2]
            &&& s[9].area == layout.rows@[2]
        }),
{
    lemma_parts_of_screen(app, area, layout);
}

/// The header counts all tasks, those that are not done and those that are, each on a ground of
/// its own colour, and names the filter.
pub proof fn law_header_counts(app: AppView, area: Rect, layout: ScreenLayout)
    ensures
        ({
            let l = lines(screen(app, area, layout)[1]);
            let stats = pieces(l[2]);
            let done = number_done(app.data.tasks);
            let total = app.data.tasks.len();
            let active = (total - done) as nat;
            &&& l.len() == 3
            &&& pieces(l[0])[0].text == " todo_rust "@
            &&& pieces(l[0])[1].text == "beautiful console flow"@
            &&& l[1] is Blank
            &&& stats.len() == 7
            &&& stats[0].text == " "@ + "Total"@ + " "@ + decimal(total) + " "@
            &&& stats[2].text == " "@ + "Active"@ + " "@ + decimal(active) + " "@
            &&& stats[4].text == " "@ + "Done"@ + " "@ + decimal(done) + " "@
            &&& stats[6].text == "Filter "@ + match app.filter {
                Filter::All => "All"@,
                Filter::Active => "Active"@,
                Filter::Done => "Done"@,
            }
            &&& stats[1].text == "  "@ && stats[3].text == "  "@ && stats[5].text == "  "@
            &&& stats[0].style.bg == Some(Shade::Accent)
            &&& stats[2].style.bg == Some(Shade::AccentAlt)
            &&& stats[4].style.bg == Some(Shade::Success)
        }),
{
    lemma_parts_of_screen(app, area, layout);
    law_counts_are_exact(app);
}

/// Of the tabs that are drawn the one with the name of the filter is marked, and looks otherwise
/// than the rest.
pub proof fn law_tabs_mark_the_filter(app: AppView, area: Rect, layout: ScreenLayout)
    ensures
        ({
            let s = screen(app, area, layout);
            let tabs = s[3].widget->Tabs_0;
            &&& s[3].widget is Tabs
            &&& forall|k: int| 0 <= k < s.len() && (#[trigger] s[k]).widget is Tabs ==> k == 3
            &&& tabs.titles == seq!["All"@, "Active"@, "Done"@]
            &&& tabs.selected < 3
            &&& tabs.titles[tabs.selected as int] == match app.filter {
                Filter::All => "All"@,
                Filter::Active => "Active"@,
                Filter::Done => "Done"@,
            }
            &&& app.filter == Filter::All ==> tabs.selected == 0
            &&& app.filter == Filter::Active ==> tabs.selected == 1
            &&& app.filter == Filter::Done ==> tabs.selected == 2
            &&& tabs.highlight.bold && tabs.highlight.underlined
            &&& !tabs.style.bold && !tabs.style.underlined
            &&& tabs.highlight.fg == Some(Shade::Accent)
            &&& tabs.style.fg == Some(Shade::Muted)
        }),
{
    lemma_parts_of_screen(app, area, layout);
    lemma_overlay(app, area, layout);
}

/// What is above the rest of the screen holds no list, no tabs and no bar.
proof fn lemma_overlay(app: AppView, area: Rect, layout: ScreenLayout)
    ensures
        ({
            let s = screen(app, area, layout);
            forall|k: int|
                10 <= k < s.len() ==> {
                    let widget = (#[trigger] s[k]).widget;
                    !(widget is List) && !(widget is Tabs) && !(widget is Gauge)
                }
        }),
{
    lemma_parts_of_screen(app, area, layout);
}

/// Whether a line shows a task: a full marker where it is done and a hollow one where it is not,
/// and its title, struck out where it is done.
pub open spec fn shows_task(line: LineView, task: TaskView) -> bool {
    let spans = pieces(line);
    &&& spans.len() == 3
    &&& spans[0].text == if task.completed {
        "●"@
    } else {
        "○"@
    }
    &&& spans[0].style.fg == Some(
        if task.completed {
            Shade::Success
        } else {
            Shade::AccentAlt
        },
    )
    &&& spans[0].style.bold && !spans[2].style.bold
    &&& spans[1].text == "  "@
    &&& spans[2].text == task.title
    &&& spans[2].style.crossed_out == task.completed
    &&& spans[2].style.fg == Some(
        if task.completed {
            Shade::Muted
        } else {
            Shade::Text
        },
    )
}

proof fn lemma_item(task: TaskView)
    ensures
        shows_task(item_view(task), task),
{
}

/// Where the filter shows tasks, one list is drawn. It has an item for each of them, in their
/// order, that shows the first task with its identifier; so where no two tasks have the same
/// identifier, the task itself. Where it shows none, no list is drawn but a hint.
pub proof fn law_list_items(app: AppView, area: Rect, layout: ScreenLayout, places: Seq<int>)
    requires
        are_places(app.data.tasks, app.filter, places),
    ensures
        ({
            let s = screen(app, area, layout);
            let list = s[4].widget->List_0;
            let tasks = app.data.tasks;
            &&& forall|k: int| 0 <= k < s.len() && (#[trigger] s[k]).widget is List ==> k == 4
            &&& s[4].widget is List <==> places.len() > 0
            &&& places.len() > 0 ==> {
                &&& list.items.len() == places.len()
                &&& forall|i: int, p: int|
                    0 <= i < places.len() && #[trigger] is_place(
                        tasks,
                        tasks[places[i]].id,
                        p,
                    ) ==> shows_task(list.items[i], tasks[p])
                &&& has_distinct_ids(app.data) ==> forall|i: int|
                    0 <= i < places.len() ==> shows_task(
                        #[trigger] list.items[i],
                        tasks[places[i]],
                    )
                &&& list.symbol == "› "@
                &&& list.highlight.bg == Some(Shade::Highlight)
                &&& list.highlight.bold
            }
            &&& places.len() == 0 ==> {
                &&& lines(s[4]).len() == 3
                &&& pieces(lines(s[4])[0])[0].text == "No tasks in this view"@
                &&& pieces(lines(s[4])[2])[0].text
                    == "Press 'a' to add a new task and start filling the list."@
            }
        }),
{
    lemma_parts_of_screen(app, area, layout);
    lemma_overlay(app, area, layout);
    law_visible(app, places);
    let tasks = app.data.tasks;
    let list = screen(app, area, layout)[4].widget->List_0;
    if places.len() > 0 {
        assert forall|i: int, p: int|
            0 <= i < places.len() && #[trigger] is_place(tasks, tasks[places[i]].id, p) implies
            shows_task(list.items[i], tasks[p]) by {
            lemma_is_place(app, tasks[places[i]].id, p);
            assert(list.items[i] == item_view(tasks[p]));
            lemma_item(tasks[p]);
        }
        if has_distinct_ids(app.data) {
            assert forall|i: int| 0 <= i < places.len() implies shows_task(
                #[trigger] list.items[i],
                tasks[places[i]],
            ) by {
                assert(is_place(tasks, tasks[places[i]].id, places[i]));
            }
        }
    }
}

/// In the list that is drawn the marked item is one of its items and shows the selected task. An
/// item is marked if and only if the selected task is shown.
pub proof fn law_list_marks_the_selected_task(app: AppView, area: Rect, layout: ScreenLayout)
    requires
        screen(app, area, layout)[4].widget is List,
    ensures
        ({
            let list = screen(app, area, layout)[4].widget->List_0;
            let tasks = app.data.tasks;
            &&& list.selected is Some <==> app.selected_id is Some && is_shown(
                app,
                app.selected_id->0,
            )
            &&& list.selected is Some ==> {
                &&& list.selected->0 < list.items.len()
                &&& forall|p: int| #[trigger]
                    is_place(tasks, app.selected_id->0, p) ==> shows_task(
                        list.items[list.selected->0 as int],
                        tasks[p],
                    )
                &&& exists|p: int| is_place(tasks, app.selected_id->0, p)
                &&& forall|places: Seq<int>|
                    are_places(tasks, app.filter, places) ==> {
                        &&& list.selected->0 < places.len()
                        &&& tasks[places[list.selected->0 as int]].id == app.selected_id->0
                        &&& forall|i: int|
                            0 <= i < list.selected->0 ==> tasks[#[trigger] places[i]].id
                                != app.selected_id->0
                    }
            }
        }),
{
    lemma_parts_of_screen(app, area, layout);
    lemma_visible(app);
    let s = screen(app, area, layout);
    let list = s[4].widget->List_0;
    let tasks = app.data.tasks;
    let v = app.visible();
    if let Some(id) = app.selected_id {
        lemma_position(v, id);
        assert(v.contains(id) == is_shown(app, id));
        if let Some(i) = app.cursor() {
            assert(v[i as int] == id);
            lemma_visible_known(app, i as int);
            law_place(app, id);
            assert(is_place(tasks, id, app.place(id)->0 as int));
            assert forall|p: int| #[trigger] is_place(tasks, id, p) implies shows_task(
                list.items[i as int],
                tasks[p],
            ) by {
                lemma_is_place(app, id, p);
                assert(list.items[i as int] == item_view(tasks[p]));
                lemma_item(tasks[p]);
            }
            assert forall|places: Seq<int>| are_places(tasks, app.filter, places) implies {
                &&& i < places.len()
                &&& tasks[places[i as int]].id == id
                &&& forall|k: int| 0 <= k < i ==> tasks[#[trigger] places[k]].id != id
            } by {
                law_visible(app, places);
                assert(v[i as int] == tasks[places[i as int]].id);
                assert forall|k: int| 0 <= k < i implies tasks[#[trigger] places[k]].id != id by {
                    assert(v[k] == tasks[places[k]].id);
                }
            }
        }
    }
}

/// One bar is drawn. Where there are tasks, it is filled by the number of tasks that are done out
/// of the number of all, so it is full exactly where all are done and empty exactly where none
/// is. Its label gives the same two numbers.
pub proof fn law_progress_is_what_is_done(app: AppView, area: Rect, layout: ScreenLayout)
    ensures
        ({
            let s = screen(app, area, layout);
            let gauge = s[7].widget->Gauge_0;
            let tasks = app.data.tasks;
            &&& s[7].widget is Gauge
            &&& forall|k: int| 0 <= k < s.len() && (#[trigger] s[k]).widget is Gauge ==> k == 7
            &&& tasks.len() == 0 ==> gauge.ratio is None
            &&& tasks.len() > 0 ==> {
                let (part, whole) = gauge.ratio->0;
                &&& gauge.ratio is Some
                &&& part == number_done(tasks)
                &&& whole == tasks.len()
                &&& part == whole <==> forall|i: int|
                    0 <= i < tasks.len() ==> (#[trigger] tasks[i]).completed
                &&& part == 0 <==> forall|i: int|
                    0 <= i < tasks.len() ==> !(#[trigger] tasks[i]).completed
            }
            &&& gauge.label == decimal(number_done(tasks)) + "/"@ + decimal(tasks.len())
                + " done"@
        }),
{
    lemma_parts_of_screen(app, area, layout);
    lemma_overlay(app, area, layout);
    law_counts_are_exact(app);
    law_number_done(app.data.tasks);
}

/// Beside the list stands the selected task: whether it is done, its identifier, its title, and
/// what Enter does to it; or, where none is selected, a hint.
pub proof fn law_focus_shows_the_selected_task(app: AppView, area: Rect, layout: ScreenLayout)
    ensures
        ({
            let l = lines(screen(app, area, layout)[6]);
            let tasks = app.data.tasks;
            &&& forall|p: int|
                app.selected_id is Some && #[trigger] is_place(tasks, app.selected_id->0, p) ==> {
                    &&& l.len() == 5
                    &&& pieces(l[0])[0].text == if tasks[p].completed {
                        "Completed"@
                    } else {
                        "In progress"@
                    }
                    &&& pieces(l[0])[0].style.fg == Some(
                        if tasks[p].completed {
                            Shade::Success
                        } else {
                            Shade::Accent
                        },
                    )
                    &&& pieces(l[0])[1].text == "  "@
                    &&& pieces(l[0])[2].text == "#"@ + decimal(app.selected_id->0 as nat)
                    &&& pieces(l[2])[0].text == tasks[p].title
                    &&& pieces(l[2])[0].style.bold && pieces(l[2])[0].style.italic
                    &&& pieces(l[4])[0].text == if tasks[p].completed {
                        "Press Enter to reopen this"@ + " task"@ + "."@
                    } else {
                        "Press Enter to mark this"@ + " task"@ + " as done."@
                    }
                }
            &&& (app.selected_id is None || forall|j: int|
                0 <= j < tasks.len() ==> (#[trigger] tasks[j]).id != app.selected_id->0) ==> {
                &&& l.len() == 3
                &&& pieces(l[0])[0].text == "Nothing selected"@
                &&& pieces(l[2])[0].text
                    == "Add your first task with 'a' or switch the filter to another view."@
            }
        }),
{
    lemma_parts_of_screen(app, area, layout);
    law_selected_place(app);
    if let Some(id) = app.selected_id {
        assert forall|p: int| #[trigger] is_place(app.data.tasks, id, p) implies app.place(id)
            == Some(p as nat) by {
            lemma_is_place(app, id, p);
        }
    }
}

/// What is said of Enter beside the list is what Enter does.
pub proof fn law_hint_is_kept(
    app: AppView,
    area: Rect,
    layout: ScreenLayout,
    p: int,
    key: KeyEvent,
)
    requires
        lists(app),
        app.selected_id is Some,
        is_place(app.data.tasks, app.selected_id->0, p),
        key.code == KeyCode::Enter,
    ensures
        ({
            let hint = pieces(lines(screen(app, area, layout)[6])[4])[0].text;
            let next = app.handle_key(key).0;
            &&& next.data.tasks[p].completed ==> hint == "Press Enter to mark this"@ + " task"@
                + " as done."@
            &&& !next.data.tasks[p].completed ==> hint == "Press Enter to reopen this"@ + " task"@
                + "."@
        }),
{
    law_focus_shows_the_selected_task(app, area, layout);
    lemma_is_place(app, app.selected_id->0, p);
}

/// The guide names the keys, and says how many tasks are not done.
pub proof fn law_guide_counts_what_waits(app: AppView, area: Rect, layout: ScreenLayout)
    ensures
        ({
            let l = lines(screen(app, area, layout)[8]);
            let waiting = (app.data.tasks.len() - number_done(app.data.tasks)) as nat;
            &&& l.len() == 8
            &&& pieces(l[0])[0].text == "Quick flow"@
            &&& pieces(l[2])[0].text == "a new   e rename   d delete"@
            &&& pieces(l[3])[0].text == "Space toggle   x clear done"@
            &&& pieces(l[4])[0].text == "Shift+X wipe data"@
            &&& pieces(l[5])[0].text == "1 2 3 filter   q quit"@
            &&& pieces(l[7])[0].text == decimal(waiting) + " active tasks waiting"@
        }),
{
    lemma_parts_of_screen(app, area, layout);
    law_counts_are_exact(app);
}

/// The footer says whether a title is being typed, and for what, and what happened last.
pub proof fn law_footer_tells_mode_and_status(app: AppView, area: Rect, layout: ScreenLayout)
    ensures
        ({
            let l = lines(screen(app, area, layout)[9]);
            let spans = pieces(l[0]);
            &&& l.len() == 2
            &&& spans.len() == 3
            &&& app.draft is None ==> spans[0].text == "NORMAL"@
            &&& app.draft is Some && app.draft->0.mode is Add ==> spans[0].text
                == "INPUT: NEW TASK"@
            &&& app.draft is Some && app.draft->0.mode is Edit ==> spans[0].text
                == "INPUT: RENAME TASK"@
            &&& spans[1].text == "  "@
            &&& spans[2].text == app.status
            &&& pieces(l[1])[0].text
                == "j/k navigate  enter toggle  a add  e edit  x done  Shift+X reset  q quit"@
        }),
{
    lemma_parts_of_screen(app, area, layout);
}

/// A draft is drawn above all else, in a box in the middle of the screen that is wiped first. The
/// box says whether the title is for a new task, shows what was typed, and has the text cursor in
/// the row of it: after the text, or before the last two cells where the text is longer than that.
/// It is drawn if and only if the cursor is not past the last coordinate.
pub proof fn law_draft_is_drawn(app: AppView, area: Rect, layout: ScreenLayout)
    requires
        app.draft is Some,
    ensures
        ({
            let s = screen(app, area, layout);
            let draft = app.draft->0;
            let rows = layout.popup->0@;
            let row = rows[1];
            let cursor = s[14].area;
            let room = if row.width < 3 {
                0
            } else {
                row.width - 3
            };
            let offset = if draft.value.len() < room {
                draft.value.len() as int
            } else {
                room
            };
            let x = row.x + 1 + offset;
            let y = row.y + 1;
            &&& s.len() == 16
            &&& s[10].widget is Clear
            &&& s[10].area == centered(70, 8, area)
            &&& s[11].area == s[10].area
            &&& title(s[11]) == Some(
                match draft.mode {
                    DraftMode::Add => " New Task "@,
                    DraftMode::Edit(_) => " Rename Task "@,
                },
            )
            &&& s[12].area == rows[0]
            &&& text(s[12]) == Some("Type the task title. Enter saves, Esc cancels."@)
            &&& s[13].area == row
            &&& text(s[13]) == Some(draft.value)
            &&& s[14].widget is Cursor
            &&& forall|k: int| 0 <= k < s.len() && (#[trigger] s[k]).widget is Cursor ==> k == 14
            &&& cursor.width == 1 && cursor.height == 1
            &&& is_drawable(app, layout) <==> x <= u16::MAX && y <= u16::MAX
            &&& is_drawable(app, layout) ==> cursor.x == x && cursor.y == y
            &&& s[15].area == rows[2]
            &&& text(s[15]) == Some("Tip: Ctrl+U clears the current input."@)
        }),
{
    lemma_parts_of_screen(app, area, layout);
    let s = screen(app, area, layout);
    let o = overlay(app, area, layout);
    assert(s[10] == o[0] && s[11] == o[1] && s[12] == o[2]);
    assert(s[13] == o[3] && s[14] == o[4] && s[15] == o[5]);
}

/// The question before a full reset is drawn above all else while it waits for an answer, in a box
/// in the middle of the screen that is wiped first; and never beside a draft.
pub proof fn law_question_is_drawn(app: AppView, area: Rect, layout: ScreenLayout)
    requires
        app.draft is None,
    ensures
        ({
            let s = screen(app, area, layout);
            &&& is_drawable(app, layout)
            &&& forall|k: int| 0 <= k < s.len() ==> !((#[trigger] s[k]).widget is Cursor)
            &&& !app.confirm_clear_data ==> {
                &&& s.len() == 10
                &&& forall|k: int| 0 <= k < s.len() ==> !((#[trigger] s[k]).widget is Clear)
            }
            &&& app.confirm_clear_data ==> {
                &&& s.len() == 13
                &&& s[10].widget is Clear
                &&& s[10].area == centered(72, 8, area)
                &&& s[11].area == s[10].area
                &&& title(s[11]) == Some(" Delete Local Data "@)
                &&& s[12].area == inset(s[10].area, 2, 1)
                &&& lines(s[12]).len() == 3
                &&& pieces(lines(s[12])[0])[0].text
                    == "This will remove all tasks and delete ~/.todo_rust/tasks.json."@
                &&& pieces(lines(s[12])[2])[0].text == "Press Y to confirm or Esc to cancel."@
            }
        }),
{
    lemma_parts_of_screen(app, area, layout);
    if app.confirm_clear_data {
        let s = screen(app, area, layout);
        let o = overlay(app, area, layout);
        assert(s[10] == o[0] && s[11] == o[1] && s[12] == o[2]);
    }
}

/// What is centred takes its share of the width, but at least 24 cells and at most all there is,
/// and the height asked for, but at least 3 cells and at most all there is. It has the same room
/// on both sides, but for one cell, and above and below. Where that would put its corner past
/// the last coordinate it has no place, and where it would go on past it, it ends there.
pub proof fn law_centered_is_in_the_middle(width_percent: u16, height: u16, area: Rect)
    ensures
        ({
            let r = centered(width_percent, height, area);
            let product = area.width * width_percent;
            let share = if product > u16::MAX {
                655
            } else {
                product / 100
            };
            let width = if area.width <= 24 || share > area.width {
                area.width as int
            } else if share < 24 {
                24
            } else {
                share
            };
            let tall = if height < 3 {
                3
            } else {
                height as int
            };
            let rows = if tall > area.height {
                area.height as int
            } else {
                tall
            };
            let left = (area.width - width) / 2;
            let above = (area.height - rows) / 2;
            &&& can_center(width_percent, height, area) <==> area.x + left <= u16::MAX && area.y
                + above <= u16::MAX
            &&& can_center(width_percent, height, area) ==> {
                &&& r.x == area.x + left
                &&& r.y == area.y + above
                &&& area.x + left + width <= u16::MAX ==> r.width == width
                &&& area.x + left + width > u16::MAX ==> r.x + r.width == u16::MAX
                &&& area.y + above + rows <= u16::MAX ==> r.height == rows
                &&& area.y + above + rows > u16::MAX ==> r.y + r.height == u16::MAX
            }
        }),
{
}

/// What is above the rest of the screen has a place if and only if its centred box has one.
pub proof fn law_what_can_be_drawn(app: AppView, area: Rect)
    ensures
        app.draft is Some ==> can_draw(app, area) == can_center(70, 8, area),
        app.draft is None && app.confirm_clear_data ==> can_draw(app, area) == can_center(
            72,
            8,
            area,
        ),
        app.draft is None && !app.confirm_clear_data ==> can_draw(app, area),
{
}

/// Whether a rectangle lies in another.
pub open spec fn lies_in(part: Rect, whole: Rect) -> bool {
    &&& whole.x <= part.x && part.x + part.width <= whole.x + whole.width
    &&& whole.y <= part.y && part.y + part.height <= whole.y + whole.height
}

/// Whether a rectangle lies in another, with a margin around it, or is empty where that has no
/// room for the margin.
pub open spec fn lies_within(part: Rect, whole: Rect, across: int, down: int) -> bool {
    if whole.width < 2 * across || whole.height < 2 * down {
        part.width == 0 && part.height == 0
    } else {
        &&& whole.x + across <= part.x
        &&& part.x + part.width <= whole.x + whole.width - across
        &&& whole.y + down <= part.y
        &&& part.y + part.height <= whole.y + whole.height - down
    }
}

/// On a screen that ends before the last coordinate, the header, the body and the footer lie on
/// the screen, as wide as it is; the two panels in the body, as high as it is; the rows of each
/// panel inside its box; and those of a draft inside its box.
pub proof fn law_parts_lie_in_their_wholes(app: AppView, area: Rect, layout: ScreenLayout)
    requires
        ends_on_screen(area),
        layout.is_for(app, area),
    ensures
        forall|i: int|
            0 <= i < 3 ==> lies_in(#[trigger] layout.rows@[i], area) && layout.rows@[i].x == area.x
                && layout.rows@[i].width == area.width,
        forall|i: int|
            0 <= i < 2 ==> lies_in(#[trigger] layout.columns@[i], layout.rows@[1])
                && layout.columns@[i].y == layout.rows@[1].y && layout.columns@[i].height
                == layout.rows@[1].height,
        forall|i: int|
            0 <= i < 2 ==> lies_within(#[trigger] layout.queue@[i], layout.columns@[0], 1, 1),
        forall|i: int|
            0 <= i < 3 ==> lies_within(#[trigger] layout.focus@[i], layout.columns@[1], 1, 1),
        app.draft is Some ==> forall|i: int|
            0 <= i < 3 ==> lies_within(
                #[trigger] layout.popup->0@[i],
                centered(70, 8, area),
                2,
                1,
            ),
        layout.rows@.len() == 3 && layout.columns@.len() == 2,
        layout.queue@.len() == 2 && layout.focus@.len() == 3,
        app.draft is Some ==> layout.popup is Some && layout.popup->0@.len() == 3,
        app.draft is None ==> layout.popup is None,
{
    law_centered_is_in_the_middle(70, 8, area);
    assert(lies_in(layout.rows@[1], area));
    assert(lies_in(layout.columns@[0], area));
    assert(lies_in(layout.columns@[1], area));
}

/// The sizes that the parts of the screen ask for.
pub proof fn law_parts_ask_for_their_sizes(app: AppView, area: Rect, layout: ScreenLayout)
    requires
        layout.is_for(app, area),
    ensures
        may_split(
            area,
            Direction::Vertical,
            seq![Constraint::Length(5), Constraint::Min(12), Constraint::Length(4)],
            layout.rows@,
        ),
        may_split(
            layout.rows@[1],
            Direction::Horizontal,
            seq![Constraint::Percentage(58), Constraint::Percentage(42)],
            layout.columns@,
        ),
        may_split(
            inset(layout.columns@[0], 1, 1),
            Direction::Vertical,
            seq![Constraint::Length(3), Constraint::Min(5)],
            layout.queue@,
        ),
        may_split(
            inset(layout.columns@[1], 1, 1),
            Direction::Vertical,
            seq![Constraint::Length(8), Constraint::Length(5), Constraint::Min(7)],
            layout.focus@,
        ),
        app.draft is Some ==> may_split(
            inset(centered(70, 8, area), 2, 1),
            Direction::Vertical,
            seq![Constraint::Length(1), Constraint::Length(3), Constraint::Length(1)],
            layout.popup->0@,
        ),
{
}

/// A count with its name stands between spaces, dark on its colour.
pub proof fn law_pill(label: Seq<char>, value: nat, shade: Shade)
    ensures
        pill_view(label, value, shade).text == " "@ + label + " "@ + decimal(value) + " "@,
        pill_view(label, value, shade).style.bg == Some(shade),
        pill_view(label, value, shade).style.fg == Some(Shade::Background),
        pill_view(label, value, shade).style.bold,
{
}

/// Lines are wrapped where they are too long, and a text that stands for itself is not. Only the
/// hint in place of the list is centred. Every box has the colour of a border, but that of what
/// is above the rest of the screen, which stands out.
pub proof fn law_looks(app: AppView, area: Rect, layout: ScreenLayout)
    ensures
        ({
            let s = screen(app, area, layout);
            forall|k: int|
                0 <= k < s.len() ==> match (#[trigger] s[k]).widget {
                    WidgetView::Paragraph(paragraph) => {
                        &&& paragraph.wrapped == (paragraph.content is Lines)
                        &&& paragraph.centered == (k == 4)
                        &&& paragraph.panel is Some ==> paragraph.panel->0.border == Shade::Border
                            && paragraph.panel->0.title is None
                        &&& k < 10 ==> paragraph.panel is Some && paragraph.panel->0.background
                            == Shade::Panel
                    },
                    WidgetView::Panel(panel) => {
                        &&& panel.title is Some
                        &&& panel.title->0.style.bold
                        &&& panel.title->0.style.fg == Some(Shade::Text)
                        &&& k < 10 ==> panel.border == Shade::Border && panel.background
                            == Shade::PanelAlt
                        &&& k >= 10 ==> panel.border == Shade::Accent && panel.background
                            == Shade::Panel
                    },
                    WidgetView::Gauge(gauge) => {
                        &&& gauge.panel.border == Shade::Border
                        &&& gauge.panel.background == Shade::Panel
                        &&& gauge.panel.title is Some
                        &&& gauge.panel.title->0.text == " Progress "@
                        &&& gauge.style.fg == Some(Shade::AccentAlt)
                        &&& gauge.style.bg == Some(Shade::Track)
                    },
                    WidgetView::List(list) => list.panel.border == Shade::Border
                        && list.panel.background == Shade::Panel && list.panel.title is None,
                    WidgetView::Tabs(tabs) => tabs.panel.border == Shade::Border
                        && tabs.panel.background == Shade::Panel && tabs.panel.title is None
                        && tabs.divider.text == " "@,
                    WidgetView::Backdrop(shade) => k == 0 && shade == Shade::Background,
                    WidgetView::Clear => k == 10,
                    WidgetView::Cursor => k == 14,
                }
        }),
{
    lemma_parts_of_screen(app, area, layout);
}

/// Whether a text has a colour of its own on the ground around it, and is bold or not.
pub open spec fn is_in(span: SpanView, shade: Shade, bold: bool) -> bool {
    span.style == (Style {
        fg: Some(shade),
        bg: None,
        bold,
        italic: false,
        underlined: false,
        crossed_out: false,
    })
}

/// What names the state of things stands out in colour, what belongs to the user is in the colour
/// of text, and what helps is muted.
pub proof fn law_text_shades(app: AppView, area: Rect, layout: ScreenLayout)
    ensures
        ({
            let s = screen(app, area, layout);
            let head = lines(s[1]);
            let focus = lines(s[6]);
            let guide = lines(s[8]);
            let foot = lines(s[9]);
            &&& is_in(pieces(head[0])[0], Shade::Accent, true)
            &&& is_in(pieces(head[0])[1], Shade::Muted, false)
            &&& is_in(pieces(head[2])[6], Shade::Text, true)
            &&& focus.len() == 5 ==> {
                &&& is_in(pieces(focus[0])[2], Shade::Muted, false)
                &&& pieces(focus[0])[0].style.bold
                &&& is_in(pieces(focus[4])[0], Shade::Muted, false)
                &&& pieces(focus[2])[0].style.fg == Some(Shade::Text)
                &&& focus[1] is Blank && focus[3] is Blank
            }
            &&& focus.len() == 3 ==> {
                &&& is_in(pieces(focus[0])[0], Shade::Text, false)
                &&& is_in(pieces(focus[2])[0], Shade::Muted, false)
                &&& focus[1] is Blank
            }
            &&& is_in(pieces(guide[0])[0], Shade::Accent, true)
            &&& is_in(pieces(guide[2])[0], Shade::Text, false)
            &&& is_in(pieces(guide[3])[0], Shade::Text, false)
            &&& is_in(pieces(guide[4])[0], Shade::Text, false)
            &&& is_in(pieces(guide[5])[0], Shade::Text, false)
            &&& is_in(pieces(guide[7])[0], Shade::Muted, false)
            &&& guide[1] is Blank && guide[6] is Blank
            &&& is_in(pieces(foot[0])[0], Shade::Accent, true)
            &&& is_in(pieces(foot[0])[2], Shade::Text, false)
            &&& is_in(pieces(foot[1])[0], Shade::Muted, false)
            &&& s[4].widget is List ==> s[4].widget->List_0.highlight.fg == Some(Shade::Text)
            &&& s[4].widget is Paragraph ==> {
                &&& is_in(pieces(lines(s[4])[0])[0], Shade::Text, false)
                &&& is_in(pieces(lines(s[4])[2])[0], Shade::Muted, false)
            }
        }),
{
    lemma_parts_of_screen(app, area, layout);
}

/// In what is above the rest of the screen, what was typed and what is asked is in the colour of
/// text, and what helps is muted.
pub proof fn law_overlay_shades(app: AppView, area: Rect, layout: ScreenLayout)
    ensures
        ({
            let s = screen(app, area, layout);
            &&& app.draft is Some ==> {
                let input = s[13].widget->Paragraph_0;
                &&& s[12].widget->Paragraph_0.style.fg == Some(Shade::Muted)
                &&& s[12].widget->Paragraph_0.panel is None
                &&& s[15].widget->Paragraph_0.style.fg == Some(Shade::Muted)
                &&& s[15].widget->Paragraph_0.panel is None
                &&& input.style.fg == Some(Shade::Text)
                &&& input.style.bold
                &&& input.panel is Some
                &&& input.panel->0.background == Shade::PanelAlt
            }
            &&& app.draft is None && app.confirm_clear_data ==> {
                &&& is_in(pieces(lines(s[12])[0])[0], Shade::Text, false)
                &&& lines(s[12])[1] is Blank
                &&& is_in(pieces(lines(s[12])[2])[0], Shade::Muted, false)
                &&& s[12].widget->Paragraph_0.panel is None
            }
        }),
{
    lemma_parts_of_screen(app, area, layout);
    let s = screen(app, area, layout);
    let o = overlay(app, area, layout);
    if app.draft is Some {
        assert(s[12] == o[2] && s[13] == o[3] && s[15] == o[5]);
    } else if app.confirm_clear_data {
        assert(s[12] == o[2]);
    }
}

} // verus!
