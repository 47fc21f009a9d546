//! What holds of the to-do list as a whole.

use crate::filter::Filter;
use crate::geometry::{can_center, centered, ends_on_screen, inset, Rect};
use crate::input::{Event, KeyCode, KeyEvent};
use crate::model::{
    ids, lemma_position, lemma_position_is, lemma_shown_push, shown, AppView, Change, DraftMode,
    DraftView, Reply, Request, Turn,
};
use crate::screen::{
    can_draw, cursor_cell, is_drawable, item_view, items_view, lemma_always_drawable,
    lemma_visible_known, progress_view, ScreenLayout,
};
use crate::storage::EraseStep;
use crate::task::{StoredView, TaskView};
use crate::text::{is_white_space, trim_back, trim_front, trimmed};
use vstd::prelude::*;

verus! {

/// Three steps from any filter lead back to it, and each step leads to the next tab.
pub proof fn law_filters_cycle(filter: Filter)
    ensures
        filter.successor().successor().successor() == filter,
        filter.successor().place() == (filter.place() + 1) % 3,
{
}

/// Every task is shown under All, and under exactly one of Active and Done.
pub proof fn law_active_or_done(task: TaskView)
    ensures
        Filter::All.accepts(task),
        Filter::Active.accepts(task) != Filter::Done.accepts(task),
{
}

/// The active tasks and those that are done make up all tasks.
proof fn lemma_parts(tasks: Seq<TaskView>)
    ensures
        shown(tasks, Filter::Active).len() + shown(tasks, Filter::Done).len() == tasks.len(),
        shown(tasks, Filter::All) == tasks,
    decreases tasks.len(),
{
    reveal(Seq::filter);
    if tasks.len() > 0 {
        let rest = tasks.drop_last();
        lemma_parts(rest);
        lemma_shown_push(rest, tasks.last(), Filter::Active);
        lemma_shown_push(rest, tasks.last(), Filter::Done);
        lemma_shown_push(rest, tasks.last(), Filter::All);
        assert(rest.push(tasks.last()) =~= tasks);
    } else {
        assert(shown(tasks, Filter::All) =~= tasks);
    }
}

/// The counts are the numbers of tasks that the three filters show, and the second and the
/// third add up to the first.
pub proof fn law_counts(app: AppView)
    ensures
        app.counts().0 == app.counts().1 + app.counts().2,
        app.counts().0 == shown(app.data.tasks, Filter::All).len(),
        app.counts().1 == shown(app.data.tasks, Filter::Active).len(),
        app.counts().2 == shown(app.data.tasks, Filter::Done).len(),
{
    lemma_parts(app.data.tasks);
}

/// The progress bar shows a part that is no more than the whole, and a whole that is not zero.
pub proof fn law_progress(app: AppView)
    ensures
        match progress_view(app).ratio {
            Some((part, whole)) => part <= whole && whole > 0,
            None => app.data.tasks.len() == 0,
        },
{
    law_counts(app);
}

/// A task that is shown is selected, or none is shown and none is selected.
pub open spec fn selects_shown(app: AppView) -> bool {
    match app.selected_id {
        Some(id) => app.visible().contains(id),
        None => app.visible().len() == 0,
    }
}

/// The state in which the list always is between two events: what is selected is shown, a title
/// that is being changed is that of the selected task, and no title is being typed while a full
/// reset waits for an answer.
pub open spec fn is_sound(app: AppView) -> bool {
    &&& selects_shown(app)
    &&& match app.draft {
        Some(draft) => !app.confirm_clear_data && match draft.mode {
            DraftMode::Add => true,
            DraftMode::Edit(id) => app.selected_id == Some(id),
        },
        None => true,
    }
}

proof fn lemma_ensured(app: AppView)
    ensures
        selects_shown(app.ensure_selection()),
{
    if let Some(id) = app.selected_id {
        lemma_position(app.visible(), id);
    }
    let first = app.select_first();
    assert(first.visible() == app.visible());
    if app.visible().len() > 0 {
        assert(app.visible().contains(app.visible().first()));
    }
}

/// The list is sound when it starts, whatever was stored.
pub proof fn law_loaded_is_sound(stored: Option<StoredView>, path: Seq<char>)
    ensures
        is_sound(AppView::loaded(stored, path)),
{
    let start = AppView {
        data: match stored {
            Some(data) => data,
            None => StoredView::fresh(),
        },
        filter: Filter::All,
        selected_id: None,
        draft: None,
        confirm_clear_data: false,
        should_quit: false,
        status: "autosave -> "@ + path,
    };
    lemma_ensured(start);
}

proof fn lemma_ids_push(tasks: Seq<TaskView>, task: TaskView)
    ensures
        ids(tasks.push(task)) == ids(tasks).push(task.id),
{
    assert(ids(tasks.push(task)) =~= ids(tasks).push(task.id));
}

/// A title says nothing of what is shown.
proof fn lemma_title_keeps_shown(tasks: Seq<TaskView>, i: int, title: Seq<char>, filter: Filter)
    requires
        0 <= i < tasks.len(),
    ensures
        ids(shown(tasks.update(i, TaskView { title, ..tasks[i] }), filter)) == ids(
            shown(tasks, filter),
        ),
    decreases tasks.len(),
{
    let after = tasks.update(i, TaskView { title, ..tasks[i] });
    let rest = tasks.drop_last();
    lemma_shown_push(rest, tasks.last(), filter);
    lemma_shown_push(after.drop_last(), after.last(), filter);
    assert(rest.push(tasks.last()) =~= tasks);
    assert(after.drop_last().push(after.last()) =~= after);
    if i < tasks.len() - 1 {
        lemma_title_keeps_shown(rest, i, title, filter);
        assert(after.drop_last() =~= rest.update(i, TaskView { title, ..rest[i] }));
    } else {
        assert(after.drop_last() =~= rest);
    }
    lemma_ids_push(shown(rest, filter), tasks.last());
    lemma_ids_push(shown(after.drop_last(), filter), after.last());
}

proof fn lemma_created_is_shown(app: AppView, title: Seq<char>)
    ensures
        app.create_task(title).0.visible().contains(app.data.next_id),
{
    let next = app.create_task(title).0;
    let task = next.data.tasks.last();
    lemma_shown_push(app.data.tasks, task, next.filter);
    assert(next.visible().last() == task.id);
}

/// A new task is selected and shown, whatever the filter was.
pub proof fn law_created_is_selected(app: AppView, title: Seq<char>)
    ensures
        ({
            let next = app.create_task(title).0;
            &&& next.selected_id == Some(app.data.next_id)
            &&& next.cursor() is Some
            &&& next.data.tasks.last() == (TaskView {
                id: app.data.next_id,
                title,
                completed: false,
            })
            &&& next.data.tasks.drop_last() == app.data.tasks
        }),
{
    let next = app.create_task(title).0;
    lemma_created_is_shown(app, title);
    lemma_position(next.visible(), app.data.next_id);
    assert(next.data.tasks.drop_last() =~= app.data.tasks);
}

proof fn lemma_submit_is_sound(app: AppView, draft: DraftView)
    requires
        is_sound(app),
        app.draft == Some(draft),
    ensures
        ({
            let (next, request) = app.submit_draft(draft);
            is_sound(next) && is_sound(next.completed(request))
        }),
{
    let closed = AppView { draft: None, ..app };
    assert(closed.visible() == app.visible());
    let title = trimmed(draft.value);
    let (next, request) = app.submit_draft(draft);
    if title.len() > 0 {
        match draft.mode {
            DraftMode::Add => {
                lemma_created_is_shown(closed, title);
            },
            DraftMode::Edit(id) => {
                lemma_position(ids(app.data.tasks), id);
                if let Some(i) = closed.place(id) {
                    lemma_title_keeps_shown(app.data.tasks, i as int, title, app.filter);
                }
            },
        }
    }
    assert(next.completed(request).visible() == next.visible());
}

/// A step through the list, or to one of its ends, selects a task that is shown.
proof fn lemma_moves_are_sound(app: AppView)
    requires
        is_sound(app),
        app.draft is None,
    ensures
        is_sound(app.select_next()),
        is_sound(app.select_previous()),
        is_sound(app.select_first()),
        is_sound(app.select_last()),
{
    let v = app.visible();
    if let Some(id) = app.selected_id {
        lemma_position(v, id);
    }
    if v.len() > 0 {
        let n = v.len() as int;
        let c = app.cursor_or_first() as int;
        vstd::arithmetic::div_mod::lemma_mod_bound(c + 1, n);
        vstd::arithmetic::div_mod::lemma_mod_bound(c - 1, n);
        assert(v.contains(v.first()));
        assert(v.contains(v.last()));
        assert(v.contains(v[(c + 1) % n]));
        assert(v.contains(v[(c - 1) % n]));
    }
    assert(app.select_next().visible() == v);
    assert(app.select_previous().visible() == v);
    assert(app.select_first().visible() == v);
    assert(app.select_last().visible() == v);
}

/// A change of filter selects a task that is then shown.
proof fn lemma_filter_is_sound(app: AppView, filter: Filter)
    requires
        app.draft is None,
    ensures
        is_sound(app.set_filter(filter)),
{
    lemma_ensured(AppView { filter, ..app });
}

/// A draft or a question that is opened leaves the selection as it is.
proof fn lemma_openings_are_sound(app: AppView)
    requires
        is_sound(app),
        app.draft is None,
        !app.confirm_clear_data,
    ensures
        is_sound(app.start_add()),
        is_sound(app.start_edit_selected()),
        is_sound(app.start_clear_data_confirmation()),
{
    if let Some(id) = app.selected_id {
        lemma_position(ids(app.data.tasks), id);
    }
    assert(app.start_add().visible() == app.visible());
    assert(app.start_edit_selected().visible() == app.visible());
    assert(app.start_clear_data_confirmation().visible() == app.visible());
}

/// A task that is marked, or tasks that are removed, leave a task selected that is shown, once
/// the change is saved.
proof fn lemma_changes_are_sound(app: AppView)
    requires
        is_sound(app),
        app.draft is None,
    ensures
        is_sound(app.toggle_selected().0.completed(app.toggle_selected().1)),
        is_sound(app.delete_selected().0.completed(app.delete_selected().1)),
        is_sound(app.purge_completed().0.completed(app.purge_completed().1)),
{
    assert(app.no_selected_task().0.visible() == app.visible());
    lemma_ensured(app.toggle_selected().0);
    lemma_ensured(app.with_tasks(shown(app.data.tasks, Filter::Active)));
    if let Some(i) = app.selected_place() {
        lemma_ensured(app.with_tasks(app.data.tasks.remove(i as int)));
    }
}

#[verifier::spinoff_prover]
proof fn lemma_list_key_is_sound(app: AppView, key: KeyEvent)
    requires
        is_sound(app),
        app.draft is None,
        !app.confirm_clear_data,
    ensures
        ({
            let (next, request) = app.handle_list_key(key);
            is_sound(next.completed(request))
        }),
{
    assert(is_sound(AppView { should_quit: true, ..app }));
    lemma_moves_are_sound(app);
    lemma_filter_is_sound(app, Filter::All);
    lemma_filter_is_sound(app, Filter::Active);
    lemma_filter_is_sound(app, Filter::Done);
    lemma_openings_are_sound(app);
    lemma_changes_are_sound(app);
}

/// Every event leaves the list sound once the storage has done its part, whatever the event is.
pub proof fn law_events_keep_it_sound(app: AppView, event: Event)
    requires
        is_sound(app),
    ensures
        ({
            let (next, request) = app.handle_event(event);
            is_sound(next.completed(request))
        }),
{
    if let Some(key) = event.stroke() {
        let (next, request) = app.handle_key(key);
        if let Some(draft) = app.draft {
            if key.code == KeyCode::Enter {
                lemma_submit_is_sound(app, draft);
            } else {
                assert(next.visible() == app.visible());
            }
        } else if app.confirm_clear_data {
            assert(next.visible() == app.visible());
            assert(shown(Seq::empty(), Filter::All) =~= Seq::empty()) by {
                reveal(Seq::filter);
            }
            assert(app.cleared().visible() =~= Seq::empty());
        } else {
            lemma_list_key_is_sound(app, key);
        }
    }
}

/// No two tasks have the same identifier.
pub open spec fn has_distinct_ids(data: StoredView) -> bool {
    forall|i: int, j: int|
        0 <= i < j < data.tasks.len() ==> data.tasks[i].id != data.tasks[j].id
}

/// No task has an identifier that is still to be given out.
pub open spec fn has_spare_ids(data: StoredView) -> bool {
    forall|i: int| 0 <= i < data.tasks.len() ==> (#[trigger] data.tasks[i]).id < data.next_id
}

/// No two tasks have the same identifier, and none has one that is still to be given out.
pub open spec fn has_fresh_ids(data: StoredView) -> bool {
    has_distinct_ids(data) && has_spare_ids(data)
}

/// Every task has a title that neither starts nor ends with white space.
pub open spec fn has_clean_titles(data: StoredView) -> bool {
    forall|i: int| 0 <= i < data.tasks.len() ==> is_clean_title((#[trigger] data.tasks[i]).title)
}

/// A text that neither starts nor ends with white space, and is not empty.
pub open spec fn is_clean_title(title: Seq<char>) -> bool {
    title.len() > 0 && !is_white_space(title.first()) && !is_white_space(title.last())
}

/// What a filter shows are some of the tasks, in their order.
proof fn lemma_shown_is_part(tasks: Seq<TaskView>, filter: Filter) -> (places: Seq<int>)
    ensures
        places.len() == shown(tasks, filter).len(),
        forall|i: int|
            0 <= i < places.len() ==> 0 <= #[trigger] places[i] < tasks.len() && shown(
                tasks,
                filter,
            )[i] == tasks[places[i]] && filter.accepts(tasks[places[i]]),
        forall|i: int, j: int| 0 <= i < j < places.len() ==> places[i] < places[j],
    decreases tasks.len(),
{
    reveal(Seq::filter);
    if tasks.len() == 0 {
        Seq::empty()
    } else {
        let rest = tasks.drop_last();
        let before = lemma_shown_is_part(rest, filter);
        if filter.accepts(tasks.last()) {
            before.push(tasks.len() - 1)
        } else {
            before
        }
    }
}

/// The empty list has fresh identifiers and clean titles.
pub proof fn law_empty_list_is_clean()
    ensures
        has_fresh_ids(StoredView::fresh()),
        has_clean_titles(StoredView::fresh()),
{
}

proof fn lemma_trim_back(s: Seq<char>)
    ensures
        trim_back(s).len() <= s.len(),
        trim_back(s).len() > 0 ==> !is_white_space(trim_back(s).last()) && trim_back(s).first()
            == s.first(),
    decreases s.len(),
{
    if s.len() > 0 && is_white_space(s.last()) {
        lemma_trim_back(s.drop_last());
    }
}

proof fn lemma_trim_front(s: Seq<char>)
    ensures
        trim_front(s).len() <= s.len(),
        trim_front(s).len() > 0 ==> !is_white_space(trim_front(s).first()),
    decreases s.len(),
{
    if s.len() > 0 && is_white_space(s.first()) {
        lemma_trim_front(s.drop_first());
    }
}

/// Trimming leaves nothing, or a text that neither starts nor ends with white space; and it
/// leaves such a text as it is.
pub proof fn law_trimmed_is_clean(s: Seq<char>)
    ensures
        trimmed(s).len() > 0 ==> is_clean_title(trimmed(s)),
        is_clean_title(s) ==> trimmed(s) == s,
        trimmed(trimmed(s)) == trimmed(s),
{
    lemma_trim_front(s);
    lemma_trim_back(trim_front(s));
}

/// Where identifiers are fresh, or only below the next one, or titles clean, they are still so
/// after a change.
pub open spec fn keeps_clean(before: StoredView, after: StoredView) -> bool {
    &&& has_fresh_ids(before) ==> has_fresh_ids(after)
    &&& has_spare_ids(before) ==> has_spare_ids(after)
    &&& has_clean_titles(before) ==> has_clean_titles(after)
}

proof fn lemma_submit_keeps_clean(app: AppView, draft: DraftView)
    requires
        draft.mode == DraftMode::Add && trimmed(draft.value).len() > 0 ==> app.data.next_id
            < u64::MAX,
    ensures
        keeps_clean(app.data, app.submit_draft(draft).0.data),
{
    law_trimmed_is_clean(draft.value);
    if let DraftMode::Edit(id) = draft.mode {
        lemma_position(ids(app.data.tasks), id);
    }
}

proof fn lemma_toggle_keeps_clean(app: AppView)
    ensures
        keeps_clean(app.data, app.toggle_selected().0.data),
{
    if let Some(id) = app.selected_id {
        lemma_position(ids(app.data.tasks), id);
    }
}

proof fn lemma_delete_keeps_clean(app: AppView)
    ensures
        keeps_clean(app.data, app.delete_selected().0.data),
{
    if let Some(id) = app.selected_id {
        lemma_position(ids(app.data.tasks), id);
    }
}

proof fn lemma_purge_keeps_clean(app: AppView)
    ensures
        keeps_clean(app.data, app.purge_completed().0.data),
{
    let tasks = app.data.tasks;
    let kept = shown(tasks, Filter::Active);
    let places = lemma_shown_is_part(tasks, Filter::Active);
    assert(forall|i: int| 0 <= i < kept.len() ==> #[trigger] kept[i] == tasks[places[i]]);
}

/// Where identifiers are fresh, or only below the next one, or titles clean, they stay so
/// whatever happens.
#[verifier::spinoff_prover]
pub proof fn law_events_keep_data_clean(app: AppView, event: Event)
    requires
        event.stroke() is Some ==> app.can_handle(event.stroke()->0),
    ensures
        ({
            let (next, request) = app.handle_event(event);
            keeps_clean(app.data, next.data) && keeps_clean(app.data, next.completed(request).data)
        }),
{
    law_empty_list_is_clean();
    if let Some(draft) = app.draft {
        if event.stroke() is Some && event.stroke()->0.code == KeyCode::Enter {
            lemma_submit_keeps_clean(app, draft);
        }
    }
    lemma_toggle_keeps_clean(app);
    lemma_delete_keeps_clean(app);
    lemma_purge_keeps_clean(app);
}

/// Where no task has an identifier that is still to be given out, a new task gets one that no
/// task has.
pub proof fn law_new_id_is_unused(app: AppView)
    requires
        has_spare_ids(app.data),
    ensures
        app.place(app.data.next_id) is None,
{
    lemma_position(ids(app.data.tasks), app.data.next_id);
}

/// The identifier that the next task gets only ever grows, until a full reset; and a new task
/// takes the one that was next. So no identifier is given out twice, not even that of a task
/// that was removed.
pub proof fn law_next_id_grows(app: AppView, event: Event)
    requires
        event.stroke() is Some ==> app.can_handle(event.stroke()->0),
    ensures
        ({
            let (next, request) = app.handle_event(event);
            let after = next.completed(request);
            &&& next.data.next_id >= app.data.next_id
            &&& request != Request::Erase ==> after.data.next_id >= app.data.next_id
            &&& request == Request::Save(Change::Created) ==> {
                &&& next.data.tasks.last().id == app.data.next_id
                &&& after.data.next_id > app.data.next_id
            }
        }),
{
}

/// Nothing is changed without being saved. Where an event asks nothing of the storage, the
/// stored state is as it was; where it asks for a save, what is to be saved is what the list
/// holds from then on; where it asks for the removal of what is stored, nothing is lost before
/// that is done, and nothing is left after it.
pub proof fn law_autosave(app: AppView, event: Event)
    ensures
        ({
            let (next, request) = app.handle_event(event);
            let after = next.completed(request);
            match request {
                Request::Nothing => after.data == app.data,
                Request::Save(_) => after.data == next.data,
                Request::Erase => next == app && after.data == StoredView::fresh(),
            }
        }),
{
}

/// The stored state is only ever removed after the question whether to do so was answered with
/// yes, and the question is only asked after its own key.
pub proof fn law_reset_is_confirmed(app: AppView, event: Event)
    ensures
        ({
            let (next, request) = app.handle_event(event);
            &&& request == Request::Erase ==> {
                &&& app.confirm_clear_data
                &&& event.stroke() is Some
                &&& event.stroke()->0.code == KeyCode::Char('y') || event.stroke()->0.code
                    == KeyCode::Char('Y')
            }
            &&& next.confirm_clear_data && !app.confirm_clear_data ==> {
                &&& event.stroke() is Some
                &&& event.stroke()->0.code == KeyCode::Char('X')
            }
        }),
{
}

/// No to the question before a full reset leaves all but the question and the status as it was.
pub proof fn law_reset_can_be_cancelled(app: AppView, key: KeyEvent)
    requires
        app.draft is None,
        app.confirm_clear_data,
        key.code == KeyCode::Esc || key.code == KeyCode::Char('n') || key.code == KeyCode::Char(
            'N',
        ),
    ensures
        app.handle_key(key) == (
            AppView {
                confirm_clear_data: false,
                status: "full reset cancelled"@,
                ..app
            },
            Request::Nothing,
        ),
{
}

/// While a title is being typed, no key but Enter touches anything but the draft and the
/// status.
pub proof fn law_draft_is_apart(app: AppView, key: KeyEvent)
    requires
        app.draft is Some,
        key.code != KeyCode::Enter,
    ensures
        ({
            let (next, request) = app.handle_key(key);
            &&& request == Request::Nothing
            &&& next == (AppView { draft: next.draft, status: next.status, ..app })
            &&& next.draft is None <==> key.code == KeyCode::Esc
        }),
{
}

/// A blank title is neither given to a new task nor to one that exists.
pub proof fn law_blank_title_is_refused(app: AppView, key: KeyEvent)
    requires
        app.draft is Some,
        key.code == KeyCode::Enter,
        trimmed(app.draft->0.value).len() == 0,
    ensures
        app.handle_key(key) == (
            AppView { draft: None, status: "task title cannot be empty"@, ..app },
            Request::Nothing,
        ),
{
}

/// Backspace takes back a character that was typed.
pub proof fn law_backspace_undoes_typing(app: AppView, typed: KeyEvent, back: KeyEvent)
    requires
        app.draft is Some,
        typed.code is Char,
        !typed.control,
        !typed.alt,
        back.code == KeyCode::Backspace,
    ensures
        app.handle_key(typed).0.handle_key(back) == (app, Request::Nothing),
{
    let value = app.draft->0.value;
    let c = typed.code->Char_0;
    assert(value.push(c).drop_last() =~= value);
    assert(app.handle_key(typed).0.handle_key(back).0 =~= app);
}

/// Whether a key of the list itself makes it quit: q, or c with the control key.
pub open spec fn quits(app: AppView, key: KeyEvent) -> bool {
    &&& app.draft is None
    &&& !app.confirm_clear_data
    &&& key.code == KeyCode::Char('q') || key.control && key.code == KeyCode::Char('c')
}

/// The list is to quit if and only if it was so before or one of the two keys was pressed that
/// make it quit; and then the event loop stops after the next drawing, and not else.
pub proof fn law_quitting(app: AppView, event: Event, reply: Reply)
    ensures
        ({
            let (next, request) = app.handle_event(event);
            let after = next.completed(request);
            &&& after.should_quit <==> app.should_quit || event.stroke() is Some && quits(
                app,
                event.stroke()->0,
            )
            &&& after.advance(Turn::Draw, reply).1 == Turn::Stop <==> after.should_quit
        }),
{
}

/// Where each identifier is shown once, a step down and a step up undo each other.
pub proof fn law_steps_undo_each_other(app: AppView)
    requires
        app.cursor() is Some,
        app.visible().no_duplicates(),
    ensures
        app.select_next().select_previous() == app,
        app.select_previous().select_next() == app,
{
    let v = app.visible();
    let n = v.len() as int;
    let id = app.selected_id->0;
    lemma_position(v, id);
    let c = app.cursor()->0 as int;
    let down = app.select_next();
    let up = app.select_previous();
    assert(down.visible() == v);
    assert(up.visible() == v);
    vstd::arithmetic::div_mod::lemma_mod_bound(c + 1, n);
    vstd::arithmetic::div_mod::lemma_mod_bound(c - 1, n);
    lemma_position_is(v, v[(c + 1) % n], (c + 1) % n);
    lemma_position_is(v, v[(c - 1) % n], (c - 1) % n);
    assert(((c + 1) % n - 1) % n == c) by {
        vstd::arithmetic::div_mod::lemma_sub_mod_noop(c + 1, 1, n);
        vstd::arithmetic::div_mod::lemma_sub_mod_noop((c + 1) % n, 1, n);
        vstd::arithmetic::div_mod::lemma_mod_twice(c + 1, n);
        vstd::arithmetic::div_mod::lemma_small_mod(c as nat, n as nat);
    }
    assert(((c - 1) % n + 1) % n == c) by {
        vstd::arithmetic::div_mod::lemma_add_mod_noop(c - 1, 1, n);
        vstd::arithmetic::div_mod::lemma_add_mod_noop((c - 1) % n, 1, n);
        vstd::arithmetic::div_mod::lemma_mod_twice(c - 1, n);
        vstd::arithmetic::div_mod::lemma_small_mod(c as nat, n as nat);
    }
}

/// `n` steps down.
pub open spec fn steps_down(app: AppView, n: nat) -> AppView
    decreases n,
{
    if n == 0 {
        app
    } else {
        steps_down(app, (n - 1) as nat).select_next()
    }
}

/// Where each identifier is shown once, `n` steps down lead `n` places on, around the end.
pub proof fn law_steps_go_round(app: AppView, n: nat)
    requires
        app.cursor() is Some,
        app.visible().no_duplicates(),
    ensures
        steps_down(app, n).selected_id == Some(
            app.visible()[((app.cursor()->0 + n) as int % app.visible().len() as int)],
        ),
        steps_down(app, n).cursor() == Some(
            ((app.cursor()->0 + n) as int % app.visible().len() as int) as nat,
        ),
        steps_down(app, n) == (AppView { selected_id: steps_down(app, n).selected_id, ..app }),
    decreases n,
{
    let v = app.visible();
    lemma_position(v, app.selected_id->0);
    let c = app.cursor()->0 as int;
    let m = v.len() as int;
    if n == 0 {
        vstd::arithmetic::div_mod::lemma_small_mod(c as nat, m as nat);
    } else {
        law_steps_go_round(app, (n - 1) as nat);
        let before = steps_down(app, (n - 1) as nat);
        assert(before.visible() == v);
        vstd::arithmetic::div_mod::lemma_mod_bound(c + n, m);
        assert(((c + n - 1) % m + 1) % m == (c + n) % m) by {
            vstd::arithmetic::div_mod::lemma_add_mod_noop(c + n - 1, 1, m);
            vstd::arithmetic::div_mod::lemma_add_mod_noop((c + n - 1) % m, 1, m);
            vstd::arithmetic::div_mod::lemma_mod_twice(c + n - 1, m);
        }
        lemma_position_is(v, v[(c + n) % m], (c + n) % m);
    }
}

/// Where each identifier is shown once, as many steps down as there are tasks lead back.
pub proof fn law_full_round_leads_back(app: AppView)
    requires
        app.cursor() is Some,
        app.visible().no_duplicates(),
    ensures
        steps_down(app, app.visible().len()) == app,
{
    let v = app.visible();
    lemma_position(v, app.selected_id->0);
    law_steps_go_round(app, v.len());
    let c = app.cursor()->0 as int;
    vstd::arithmetic::div_mod::lemma_mod_add_multiples_vanish(c, v.len() as int);
    vstd::arithmetic::div_mod::lemma_small_mod(c as nat, v.len());
}

/// Where no two tasks have the same identifier, each is shown once under every filter.
pub proof fn law_distinct_ids_are_shown_once(app: AppView)
    requires
        has_distinct_ids(app.data),
    ensures
        app.visible().no_duplicates(),
{
    let places = lemma_shown_is_part(app.data.tasks, app.filter);
    let v = app.visible();
    assert forall|i: int, j: int| 0 <= i < v.len() && 0 <= j < v.len() && i != j implies v[i]
        != v[j] by {
        assert(v[i] == app.data.tasks[places[i]].id);
        assert(v[j] == app.data.tasks[places[j]].id);
    }
}

/// Where the selected task is still shown after it was toggled, toggling it again leaves the
/// stored state as it was; and the selection too, where it was on a task that was shown.
pub proof fn law_toggle_undoes_itself(app: AppView)
    requires
        app.selected_place() is Some,
        app.toggle_selected().0.cursor() is Some,
    ensures
        ({
            let (once, first) = app.toggle_selected();
            let (twice, second) = once.completed(first).toggle_selected();
            let after = twice.completed(second);
            &&& after.data == app.data
            &&& app.cursor() is Some ==> after == app.with_status(after.status)
        }),
{
    let tasks = app.data.tasks;
    let id = app.selected_id->0;
    lemma_position(ids(tasks), id);
    let (once, first) = app.toggle_selected();
    assert(ids(once.data.tasks) =~= ids(tasks));
    let (twice, second) = once.completed(first).toggle_selected();
    assert(twice.data.tasks =~= tasks);
}

/// While all tasks are shown, the selected task is still shown after it was toggled.
pub proof fn law_toggled_is_shown_under_all(app: AppView)
    requires
        app.filter == Filter::All,
        app.selected_place() is Some,
    ensures
        app.toggle_selected().0.cursor() is Some,
        app.cursor() is Some,
{
    let tasks = app.data.tasks;
    lemma_position(ids(tasks), app.selected_id->0);
    let once = app.toggle_selected().0;
    lemma_parts(once.data.tasks);
    lemma_parts(tasks);
    assert(ids(once.data.tasks) =~= ids(tasks));
}

/// After a purge no task is done, the active ones are all there in their order, and a second
/// purge finds nothing.
pub proof fn law_purge(app: AppView)
    ensures
        ({
            let (next, request) = app.purge_completed();
            &&& next.data.tasks == shown(app.data.tasks, Filter::Active)
            &&& shown(next.data.tasks, Filter::Active) == next.data.tasks
            &&& shown(next.data.tasks, Filter::Done).len() == 0
            &&& next.data.next_id == app.data.next_id
            &&& next.purge_completed().0.data == next.data
            &&& next.purge_completed().1 == Request::Save(Change::Purged { count: 0 })
        }),
{
    let kept = shown(app.data.tasks, Filter::Active);
    let places = lemma_shown_is_part(app.data.tasks, Filter::Active);
    assert(forall|i: int| 0 <= i < kept.len() ==> #[trigger] kept[i] == app.data.tasks[places[i]]);
    lemma_all_active(kept);
    lemma_parts(kept);
}

proof fn lemma_all_active(tasks: Seq<TaskView>)
    requires
        forall|i: int| 0 <= i < tasks.len() ==> !(#[trigger] tasks[i]).completed,
    ensures
        shown(tasks, Filter::Active) == tasks,
    decreases tasks.len(),
{
    reveal(Seq::filter);
    if tasks.len() > 0 {
        let rest = tasks.drop_last();
        lemma_all_active(rest);
        lemma_shown_push(rest, tasks.last(), Filter::Active);
        assert(rest.push(tasks.last()) =~= tasks);
    } else {
        assert(shown(tasks, Filter::Active) =~= tasks);
    }
}

/// A removal takes the selected task out and leaves the others in their order. Where no two
/// tasks have the same identifier, that of the task is gone, and the first task that is shown is
/// selected.
pub proof fn law_delete(app: AppView)
    requires
        app.selected_place() is Some,
    ensures
        ({
            let (next, request) = app.delete_selected();
            let i = app.selected_place()->0 as int;
            &&& request == Request::Save(Change::Removed)
            &&& next.data.next_id == app.data.next_id
            &&& next.data.tasks == app.data.tasks.take(i) + app.data.tasks.skip(i + 1)
            &&& has_distinct_ids(app.data) ==> {
                &&& next.place(app.selected_id->0) is None
                &&& next.selected_id == if next.visible().len() > 0 {
                    Some(next.visible().first())
                } else {
                    None
                }
            }
        }),
{
    let tasks = app.data.tasks;
    let id = app.selected_id->0;
    lemma_position(ids(tasks), id);
    let i = app.selected_place()->0 as int;
    let removed = app.with_tasks(tasks.remove(i));
    let next = app.delete_selected().0;
    assert(next.data.tasks =~= tasks.take(i) + tasks.skip(i + 1));
    lemma_position(ids(next.data.tasks), id);
    if has_distinct_ids(app.data) {
        assert forall|j: int| 0 <= j < next.data.tasks.len() implies next.data.tasks[j].id
            != id by {
            if j < i {
                assert(next.data.tasks[j] == tasks[j]);
            } else {
                assert(next.data.tasks[j] == tasks[j + 1]);
            }
        }
        if let Some(place) = removed.cursor() {
            lemma_position(removed.visible(), id);
            lemma_visible_known(removed, place as int);
        }
    }
}

/// A change of filter, or of what is selected, leaves what is stored as it is.
pub proof fn law_looking_changes_nothing(app: AppView, filter: Filter)
    ensures
        app.set_filter(filter).data == app.data,
        app.select_first().data == app.data,
        app.select_last().data == app.data,
        app.select_next().data == app.data,
        app.select_previous().data == app.data,
        app.ensure_selection().data == app.data,
{
}

/// Where no two tasks have the same identifier, the list shows the tasks that the filter shows,
/// each once and in their order.
pub proof fn law_list_shows_tasks(app: AppView)
    requires
        has_distinct_ids(app.data),
    ensures
        items_view(app) == shown(app.data.tasks, app.filter).map_values(
            |t: TaskView| item_view(t),
        ),
{
    let tasks = app.data.tasks;
    let part = shown(tasks, app.filter);
    let places = lemma_shown_is_part(tasks, app.filter);
    let v = app.visible();
    assert forall|k: int| 0 <= k < v.len() implies #[trigger] items_view(app)[k] == item_view(
        part[k],
    ) by {
        lemma_visible_known(app, k);
        lemma_position(ids(tasks), v[k]);
        assert(v[k] == tasks[places[k]].id);
        assert(ids(tasks)[places[k]] == v[k]);
        let j = app.place(v[k])->0 as int;
        assert(ids(tasks)[j] == tasks[j].id);
    }
    assert(items_view(app) =~= part.map_values(|t: TaskView| item_view(t)));
}

/// The list has an item for each identifier that is shown. Where a task that is shown is
/// selected, an item is marked, and it is that of the selected task; else none is.
pub proof fn law_list_marks_selection(app: AppView)
    ensures
        items_view(app).len() == app.visible().len(),
        selects_shown(app) && app.visible().len() > 0 ==> app.cursor() is Some,
        match app.cursor() {
            Some(i) => {
                &&& i < items_view(app).len()
                &&& app.selected_place() is Some
                &&& items_view(app)[i as int] == item_view(
                    app.data.tasks[app.selected_place()->0 as int],
                )
            },
            None => app.selected_id is Some ==> !app.visible().contains(app.selected_id->0),
        },
{
    if let Some(id) = app.selected_id {
        lemma_position(app.visible(), id);
        if let Some(i) = app.cursor() {
            lemma_visible_known(app, i as int);
        }
    }
}

/// On a screen that ends before the last coordinate, what is centred lies inside it.
pub proof fn law_centered_is_inside(width_percent: u16, height: u16, area: Rect)
    requires
        ends_on_screen(area),
    ensures
        can_center(width_percent, height, area),
        ({
            let r = centered(width_percent, height, area);
            &&& area.x <= r.x
            &&& r.x + r.width <= area.x + area.width
            &&& area.y <= r.y
            &&& r.y + r.height <= area.y + area.height
        }),
{
}

/// The removal of what is stored removes the file if and only if there is one, then the folder
/// if and only if there is one and it is empty, and then ends.
pub proof fn law_erase(file: bool, folder: bool, empty: bool)
    ensures
        ({
            let find_folder = if file {
                EraseStep::FindFile.then_comes(true).then_comes(true)
            } else {
                EraseStep::FindFile.then_comes(false)
            };
            let found = find_folder.then_comes(folder);
            &&& EraseStep::FindFile.then_comes(file) == EraseStep::RemoveFile <==> file
            &&& find_folder == EraseStep::FindFolder
            &&& found == if folder { EraseStep::InspectFolder } else { EraseStep::Done }
            &&& folder ==> found.then_comes(empty) == if empty {
                EraseStep::RemoveFolder
            } else {
                EraseStep::Done
            }
            &&& EraseStep::RemoveFolder.then_comes(empty) == EraseStep::Done
        }),
{
}

/// What was saved is there again after a restart, with all of it shown and nothing being typed
/// or asked, whatever the list was doing when it was saved. Where nothing is stored, the list
/// starts as with no tasks stored.
pub proof fn law_restart_keeps_tasks(app: AppView, path: Seq<char>)
    ensures
        ({
            let again = AppView::loaded(Some(app.data), path);
            &&& again.data == app.data
            &&& again.filter == Filter::All
            &&& again.visible() == ids(app.data.tasks)
            &&& again.selected_id == if app.data.tasks.len() > 0 {
                Some(app.data.tasks.first().id)
            } else {
                None
            }
            &&& again.draft is None
            &&& !again.confirm_clear_data
            &&& !again.should_quit
        }),
        AppView::loaded(None, path) == AppView::loaded(Some(StoredView::fresh()), path),
{
    lemma_parts(app.data.tasks);
}

/// Enter saves a draft that is not blank: a new task gets its title, or the task that is being
/// renamed does, and no other task changes.
pub proof fn law_enter_saves_draft(app: AppView, key: KeyEvent)
    requires
        app.draft is Some,
        key.code == KeyCode::Enter,
        trimmed(app.draft->0.value).len() > 0,
    ensures
        ({
            let (next, request) = app.handle_key(key);
            let title = trimmed(app.draft->0.value);
            let tasks = app.data.tasks;
            &&& next.draft is None
            &&& match app.draft->0.mode {
                DraftMode::Add => {
                    &&& request == Request::Save(Change::Created)
                    &&& next.data.tasks.len() == tasks.len() + 1
                    &&& next.data.tasks.take(tasks.len() as int) == tasks
                    &&& next.data.tasks.last().title == title
                    &&& !next.data.tasks.last().completed
                },
                DraftMode::Edit(id) => match app.place(id) {
                    Some(place) => {
                        &&& request == Request::Save(Change::Renamed)
                        &&& next.data.tasks.len() == tasks.len()
                        &&& next.data.tasks[place as int] == (TaskView {
                            title,
                            ..tasks[place as int]
                        })
                        &&& forall|j: int|
                            0 <= j < tasks.len() && j != place ==> next.data.tasks[j] == tasks[j]
                    },
                    None => request == Request::Nothing && next.data == app.data,
                },
            }
        }),
{
    let tasks = app.data.tasks;
    match app.draft->0.mode {
        DraftMode::Add => {
            assert(app.handle_key(key).0.data.tasks.take(tasks.len() as int) =~= tasks);
        },
        DraftMode::Edit(id) => {
            lemma_position(ids(tasks), id);
        },
    }
}

/// Enter on the list marks the selected task as done, or reopens it, and changes no other.
pub proof fn law_enter_toggles(app: AppView, key: KeyEvent)
    requires
        app.draft is None,
        !app.confirm_clear_data,
        app.selected_place() is Some,
        key.code == KeyCode::Enter,
    ensures
        ({
            let (next, request) = app.handle_key(key);
            let place = app.selected_place()->0 as int;
            let tasks = app.data.tasks;
            let completed = !tasks[place].completed;
            &&& request == Request::Save(Change::Toggled { completed })
            &&& next.data.next_id == app.data.next_id
            &&& next.data.tasks.len() == tasks.len()
            &&& next.data.tasks[place] == (TaskView { completed, ..tasks[place] })
            &&& forall|j: int|
                0 <= j < tasks.len() && j != place ==> next.data.tasks[j] == tasks[j]
        }),
{
    lemma_position(ids(app.data.tasks), app.selected_id->0);
}

/// Ctrl+U empties the draft and leaves it open.
pub proof fn law_control_u_clears_draft(app: AppView, key: KeyEvent)
    requires
        app.draft is Some,
        key.code == KeyCode::Char('u'),
        key.control,
    ensures
        app.handle_key(key) == (
            AppView {
                draft: Some(DraftView { value: Seq::empty(), ..app.draft->0 }),
                ..app
            },
            Request::Nothing,
        ),
{
}

/// A screen that ends before the last coordinate is always drawn: what is above the rest of it
/// has a place, and so has the text cursor, wherever the parts of the screen may go.
pub proof fn law_screen_is_drawn(app: AppView, area: Rect, layout: ScreenLayout)
    requires
        ends_on_screen(area),
        layout.is_for(app, area),
    ensures
        can_draw(app, area),
        is_drawable(app, layout),
{
    law_centered_is_inside(70, 8, area);
    law_centered_is_inside(72, 8, area);
    lemma_always_drawable(app, area, layout);
}

/// On a screen that ends before the last coordinate, the text cursor of a draft stays on the
/// screen. Where its box has room for it, it stays between the side edges of the box and below
/// the upper one, and above the lower one where its row is two cells high.
pub proof fn law_cursor_stays_in_box(app: AppView, area: Rect, layout: ScreenLayout)
    requires
        ends_on_screen(area),
        app.draft is Some,
        layout.is_for(app, area),
    ensures
        ({
            let popup = centered(70, 8, area);
            let row = layout.popup->0@[1];
            let (x, y) = cursor_cell(app.draft->0.value, row);
            &&& x <= u16::MAX
            &&& y <= u16::MAX
            &&& popup.width >= 5 && popup.height >= 2 ==> {
                &&& popup.x < x < popup.x + popup.width - 1
                &&& popup.y < y <= popup.y + popup.height
                &&& row.height >= 2 ==> y < popup.y + popup.height - 1
            }
        }),
{
    law_centered_is_inside(70, 8, area);
    lemma_always_drawable(app, area, layout);
    let popup = centered(70, 8, area);
    let row = layout.popup->0@[1];
    let frame = inset(popup, 2, 1);
    assert(row.x == frame.x && row.width == frame.width);
    assert(frame.y <= row.y && row.y + row.height <= frame.y + frame.height);
}

/// How far a run of the event loop has come.
pub struct Run {
    pub app: AppView,
    /// The turn that comes next, or that failed.
    pub turn: Turn,
    pub failed: bool,
}

impl Run {
    /// Whether the loop has been left.
    pub open spec fn is_over(self) -> bool {
        self.failed || self.turn == Turn::Stop
    }
}

/// A run of the event loop from its start, where its turns went as `replies` says, one after the
/// other, and failed where that holds nothing. What comes after the end of the loop is not used.
pub open spec fn run(app: AppView, replies: Seq<Option<Reply>>) -> Run
    decreases replies.len(),
{
    if replies.len() == 0 {
        Run { app, turn: Turn::Draw, failed: false }
    } else {
        let before = run(app, replies.drop_last());
        if before.is_over() {
            before
        } else {
            match replies.last() {
                Some(reply) => {
                    let (next, turn) = before.app.advance(before.turn, reply);
                    Run { app: next, turn, failed: false }
                },
                None => Run { failed: true, ..before },
            }
        }
    }
}

/// The events that a run of the event loop has read, in their order.
pub open spec fn events_read(app: AppView, replies: Seq<Option<Reply>>) -> Seq<Event>
    decreases replies.len(),
{
    if replies.len() == 0 {
        Seq::empty()
    } else {
        let before = run(app, replies.drop_last());
        let events = events_read(app, replies.drop_last());
        if !before.is_over() && before.turn == Turn::Read && replies.last() is Some {
            events.push(replies.last()->0.read())
        } else {
            events
        }
    }
}

/// The keys among events that were pressed or held down, in their order.
pub open spec fn strokes(events: Seq<Event>) -> Seq<KeyEvent>
    decreases events.len(),
{
    if events.len() == 0 {
        Seq::empty()
    } else {
        match events.last().stroke() {
            Some(key) => strokes(events.drop_last()).push(key),
            None => strokes(events.drop_last()),
        }
    }
}

/// The list after keys, each handled once the one before it was complete.
pub open spec fn typed(app: AppView, keys: Seq<KeyEvent>) -> AppView
    decreases keys.len(),
{
    if keys.len() == 0 {
        app
    } else {
        let (next, request) = typed(app, keys.drop_last()).handle_key(keys.last());
        next.completed(request)
    }
}

/// The event loop handles the keys that were pressed or held down among the events that it has
/// read, each once and in their order, and nothing else changes the list: not another event, a
/// drawing, or a wait for input. While the storage is at work, or where it failed, the last key
/// is handled but not complete.
#[verifier::spinoff_prover]
pub proof fn law_run_handles_keys(app: AppView, replies: Seq<Option<Reply>>)
    ensures
        ({
            let now = run(app, replies);
            let keys = strokes(events_read(app, replies));
            match now.turn {
                Turn::Store(request) => keys.len() > 0 && (now.app, request) == typed(
                    app,
                    keys.drop_last(),
                ).handle_key(keys.last()),
                _ => now.app == typed(app, keys),
            }
        }),
    decreases replies.len(),
{
    if replies.len() > 0 {
        law_run_handles_keys(app, replies.drop_last());
        let before = run(app, replies.drop_last());
        if !before.is_over() && before.turn == Turn::Read && replies.last() is Some {
            let event = replies.last()->0.read();
            let events = events_read(app, replies.drop_last());
            assert(events.push(event).drop_last() =~= events);
            if let Some(key) = event.stroke() {
                let keys = strokes(events);
                assert(keys.push(key).drop_last() =~= keys);
            }
        }
    }
}

/// Only a drawing of a list that is to quit leads to the end of the event loop.
proof fn lemma_stops_after_drawing(app: AppView, turn: Turn, reply: Reply)
    requires
        turn != Turn::Stop,
        app.advance(turn, reply).1 == Turn::Stop,
    ensures
        turn == Turn::Draw,
        app.should_quit,
        app.advance(turn, reply).0 == app,
{
}

/// The event loop is left without an error only where the list is to quit, right after a drawing
/// of the list as it then is.
#[verifier::spinoff_prover]
pub proof fn law_run_stops_after_drawing(app: AppView, replies: Seq<Option<Reply>>)
    requires
        run(app, replies).turn == Turn::Stop,
    ensures
        run(app, replies).app.should_quit,
        !run(app, replies).failed,
        exists|n: int|
            #![trigger replies[n]]
            0 <= n < replies.len() && replies[n] is Some && run(app, replies.take(n)) == (Run {
                turn: Turn::Draw,
                ..run(app, replies)
            }),
    decreases replies.len(),
{
    let rest = replies.drop_last();
    let before = run(app, rest);
    if before.turn == Turn::Stop {
        law_run_stops_after_drawing(app, rest);
        let n = choose|n: int|
            #![trigger rest[n]]
            0 <= n < rest.len() && rest[n] is Some && run(app, rest.take(n)) == (Run {
                turn: Turn::Draw,
                ..before
            });
        assert(rest.take(n) =~= replies.take(n));
        assert(replies[n] == rest[n]);
    } else {
        lemma_stops_after_drawing(before.app, before.turn, replies.last()->0);
        assert(replies.take(replies.len() - 1) =~= rest);
        assert(replies[replies.len() - 1] == replies.last());
    }
}

/// Once a list that is to quit has been drawn, the event loop is left without an error.
pub proof fn law_run_stops_when_asked(app: AppView, replies: Seq<Option<Reply>>, reply: Reply)
    requires
        run(app, replies).turn == Turn::Draw,
        run(app, replies).app.should_quit,
        !run(app, replies).failed,
    ensures
        run(app, replies.push(Some(reply))) == (Run { turn: Turn::Stop, ..run(app, replies) }),
{
    assert(replies.push(Some(reply)).drop_last() =~= replies);
}

/// A turn that fails ends the event loop at once, with the list as it was; and once the loop has
/// been left, nothing more is drawn, read, stored or changed.
pub proof fn law_run_ends_at_failure(
    app: AppView,
    replies: Seq<Option<Reply>>,
    more: Seq<Option<Reply>>,
)
    ensures
        !run(app, replies).is_over() ==> run(app, replies.push(None)) == (Run {
            failed: true,
            ..run(app, replies)
        }),
        run(app, replies).is_over() ==> run(app, replies + more) == run(app, replies)
            && events_read(app, replies + more) == events_read(app, replies),
    decreases more.len(),
{
    assert(replies.push(None).drop_last() =~= replies);
    if more.len() == 0 {
        assert(replies + more =~= replies);
    } else {
        law_run_ends_at_failure(app, replies, more.drop_last());
        assert((replies + more).drop_last() =~= replies + more.drop_last());
    }
}

/// A sound list is sound whenever the event loop draws it.
pub proof fn law_run_keeps_it_sound(app: AppView, replies: Seq<Option<Reply>>)
    requires
        is_sound(app),
    ensures
        match run(app, replies).turn {
            Turn::Store(request) => is_sound(run(app, replies).app.completed(request)),
            _ => is_sound(run(app, replies).app),
        },
    decreases replies.len(),
{
    if replies.len() > 0 {
        law_run_keeps_it_sound(app, replies.drop_last());
        let before = run(app, replies.drop_last());
        if !before.is_over() && before.turn == Turn::Read && replies.last() is Some {
            law_events_keep_it_sound(before.app, replies.last()->0.read());
        }
    }
}

/// What the storage holds after a run of the event loop, where it held what the list starts
/// with: each save that did not fail has put there what the list held, and each reset that did
/// not fail has left nothing.
pub open spec fn stored(app: AppView, replies: Seq<Option<Reply>>) -> StoredView
    decreases replies.len(),
{
    if replies.len() == 0 {
        app.data
    } else {
        let before = run(app, replies.drop_last());
        if before.is_over() || replies.last() is None {
            stored(app, replies.drop_last())
        } else {
            match before.turn {
                Turn::Store(Request::Save(_)) => before.app.data,
                Turn::Store(Request::Erase) => StoredView::fresh(),
                _ => stored(app, replies.drop_last()),
            }
        }
    }
}

/// Whenever the event loop draws, waits for input, reads or stops, the list holds what the
/// storage holds: what it was loaded with where nothing was written, else what was written last,
/// and nothing after a reset. Only while a save is under way, or where it failed, is the list
/// ahead of the storage. So a restart leads back to the tasks that were last drawn.
pub proof fn law_run_is_stored(app: AppView, replies: Seq<Option<Reply>>, path: Seq<char>)
    ensures
        ({
            let now = run(app, replies);
            match now.turn {
                Turn::Store(Request::Save(_)) => true,
                _ => {
                    &&& stored(app, replies) == now.app.data
                    &&& AppView::loaded(Some(stored(app, replies)), path).data == now.app.data
                },
            }
        }),
    decreases replies.len(),
{
    if replies.len() > 0 {
        law_run_is_stored(app, replies.drop_last(), path);
        let before = run(app, replies.drop_last());
        if !before.is_over() && before.turn == Turn::Read && replies.last() is Some {
            law_autosave(before.app, replies.last()->0.read());
        }
    }
    law_restart_keeps_tasks(run(app, replies).app, path);
}

/// Whether each turn of a run could be handled: there was always an identifier after that of a
/// new task.
pub open spec fn can_run(app: AppView, replies: Seq<Option<Reply>>) -> bool
    decreases replies.len(),
{
    replies.len() > 0 ==> {
        let before = run(app, replies.drop_last());
        &&& can_run(app, replies.drop_last())
        &&& !before.is_over() && replies.last() is Some ==> before.app.can_advance(
            before.turn,
            replies.last()->0,
        )
    }
}

/// The identifiers that new tasks got in a run of the event loop since its start, or since the
/// last full reset, in their order.
pub open spec fn given_out(app: AppView, replies: Seq<Option<Reply>>) -> Seq<u64>
    decreases replies.len(),
{
    if replies.len() == 0 {
        Seq::empty()
    } else {
        let before = run(app, replies.drop_last());
        let given = given_out(app, replies.drop_last());
        if before.is_over() || replies.last() is None {
            given
        } else {
            let (next, turn) = before.app.advance(before.turn, replies.last()->0);
            if before.turn == Turn::Store(Request::Erase) {
                Seq::empty()
            } else if before.turn == Turn::Read && turn == Turn::Store(
                Request::Save(Change::Created),
            ) {
                given.push(next.data.tasks.last().id)
            } else {
                given
            }
        }
    }
}

/// In a run of the event loop no identifier is given out twice between two full resets: each
/// new task gets a greater one than those before it, and the next one is greater than all.
pub proof fn law_run_gives_ids_once(app: AppView, replies: Seq<Option<Reply>>)
    requires
        can_run(app, replies),
    ensures
        ({
            let given = given_out(app, replies);
            &&& forall|i: int, j: int| 0 <= i < j < given.len() ==> given[i] < given[j]
            &&& forall|i: int|
                0 <= i < given.len() ==> #[trigger] given[i] < run(app, replies).app.data.next_id
        }),
    decreases replies.len(),
{
    if replies.len() > 0 {
        law_run_gives_ids_once(app, replies.drop_last());
        let before = run(app, replies.drop_last());
        if !before.is_over() && before.turn == Turn::Read && replies.last() is Some {
            law_next_id_grows(before.app, replies.last()->0.read());
        }
        let given = given_out(app, replies.drop_last());
        let now = given_out(app, replies);
        assert(now == given || now.len() == 0 || now == given.push(before.app.data.next_id));
    }
}

} // verus!
