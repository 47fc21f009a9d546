//! What holds of each key, told by the tasks before and after it.

use crate::app::POLL_MILLIS;
use crate::filter::Filter;
use crate::input::{Event, KeyCode, KeyEvent, KeyEventKind};
use crate::laws::{is_clean_title, law_trimmed_is_clean};
use crate::model::{
    ids, lemma_position, lemma_position_is, lemma_shown_push, shown, AppView, Change, DraftMode,
    Reply, Request, Turn,
};
use crate::storage::EraseStep;
use crate::task::{StoredView, TaskView};
use crate::text::{decimal, digit, trimmed};
use vstd::prelude::*;

verus! {

/// Whether a task belongs to what a filter is named after.
pub open spec fn belongs(filter: Filter, task: TaskView) -> bool {
    filter != Filter::All ==> task.completed == (filter == Filter::Done)
}

/// Whether `places` are the places of all tasks that belong to a filter, from the first on.
pub open spec fn are_places(tasks: Seq<TaskView>, filter: Filter, places: Seq<int>) -> bool {
    &&& forall|i: int, j: int| 0 <= i < j < places.len() ==> places[i] < places[j]
    &&& forall|i: int|
        0 <= i < places.len() ==> 0 <= #[trigger] places[i] < tasks.len() && belongs(
            filter,
            tasks[places[i]],
        )
    &&& forall|j: int|
        0 <= j < tasks.len() && belongs(filter, #[trigger] tasks[j]) ==> places.contains(j)
}

/// Whether `p` is the place of the first task with an identifier.
pub open spec fn is_place(tasks: Seq<TaskView>, id: u64, p: int) -> bool {
    &&& 0 <= p < tasks.len()
    &&& tasks[p].id == id
    &&& forall|j: int| 0 <= j < p ==> (#[trigger] tasks[j]).id != id
}

/// How many tasks are done.
pub open spec fn number_done(tasks: Seq<TaskView>) -> nat
    decreases tasks.len(),
{
    if tasks.len() == 0 {
        0
    } else {
        number_done(tasks.drop_last()) + if tasks.last().completed {
            1nat
        } else {
            0nat
        }
    }
}

/// Whether a task with an identifier belongs to the filter.
pub open spec fn is_shown(app: AppView, id: u64) -> bool {
    exists|j: int|
        0 <= j < app.data.tasks.len() && (#[trigger] app.data.tasks[j]).id == id && belongs(
            app.filter,
            app.data.tasks[j],
        )
}

/// Whether `j` is the place of the first task that belongs to the filter.
pub open spec fn is_first_shown(app: AppView, j: int) -> bool {
    &&& 0 <= j < app.data.tasks.len()
    &&& belongs(app.filter, app.data.tasks[j])
    &&& forall|k: int| 0 <= k < j ==> !belongs(app.filter, #[trigger] app.data.tasks[k])
}

/// Whether the selection is where it was, if a task with that identifier is shown, and else on
/// the first task that is shown, or on none where none is.
pub open spec fn has_settled(app: AppView, was: Option<u64>) -> bool {
    if was is Some && is_shown(app, was->0) {
        app.selected_id == was
    } else {
        &&& forall|j: int| #[trigger]
            is_first_shown(app, j) ==> app.selected_id == Some(app.data.tasks[j].id)
        &&& (forall|j: int| !is_first_shown(app, j)) ==> app.selected_id is None
    }
}

/// Whether the list itself has the keyboard.
pub open spec fn lists(app: AppView) -> bool {
    app.draft is None && !app.confirm_clear_data
}

proof fn lemma_places(tasks: Seq<TaskView>, filter: Filter, places: Seq<int>)
    requires
        are_places(tasks, filter, places),
    ensures
        shown(tasks, filter) == Seq::new(places.len(), |i: int| tasks[places[i]]),
    decreases tasks.len(),
{
    let all = Seq::new(places.len(), |i: int| tasks[places[i]]);
    if tasks.len() == 0 {
        reveal(Seq::filter);
        assert(places.len() == 0) by {
            if places.len() > 0 {
                assert(0 <= places[0] < tasks.len());
            }
        }
        assert(shown(tasks, filter) =~= all);
    } else {
        let rest = tasks.drop_last();
        let n = rest.len() as int;
        assert(rest.push(tasks.last()) =~= tasks);
        lemma_shown_push(rest, tasks.last(), filter);
        if belongs(filter, tasks.last()) {
            assert(places.contains(n));
            let k = choose|k: int| 0 <= k < places.len() && places[k] == n;
            assert(k == places.len() - 1) by {
                if k < places.len() - 1 {
                    assert(places[k] < places[places.len() - 1]);
                }
            }
            let less = places.drop_last();
            assert forall|j: int|
                0 <= j < n && belongs(filter, #[trigger] rest[j]) implies less.contains(j) by {
                assert(rest[j] == tasks[j]);
                let i = choose|i: int| 0 <= i < places.len() && places[i] == j;
                assert(less[i] == j);
            }
            assert forall|i: int| 0 <= i < less.len() implies 0 <= #[trigger] less[i] < n
                && belongs(filter, rest[less[i]]) by {
                assert(less[i] == places[i]);
                assert(places[i] < places[k]);
                assert(rest[less[i]] == tasks[places[i]]);
            }
            lemma_places(rest, filter, less);
            assert(shown(tasks, filter) =~= all);
        } else {
            assert forall|i: int| 0 <= i < places.len() implies 0 <= #[trigger] places[i] < n
                && belongs(filter, rest[places[i]]) by {
                assert(belongs(filter, tasks[places[i]]));
            }
            assert forall|j: int|
                0 <= j < n && belongs(filter, #[trigger] rest[j]) implies places.contains(j) by {
                assert(rest[j] == tasks[j]);
            }
            lemma_places(rest, filter, places);
            assert(shown(tasks, filter) =~= all);
        }
    }
}

proof fn lemma_has_places(tasks: Seq<TaskView>, filter: Filter) -> (places: Seq<int>)
    ensures
        are_places(tasks, filter, places),
    decreases tasks.len(),
{
    if tasks.len() == 0 {
        Seq::empty()
    } else {
        let rest = tasks.drop_last();
        let n = rest.len() as int;
        let less = lemma_has_places(rest, filter);
        let places = if belongs(filter, tasks.last()) {
            less.push(n)
        } else {
            less
        };
        assert forall|j: int|
            0 <= j < tasks.len() && belongs(filter, #[trigger] tasks[j]) implies places.contains(
            j,
        ) by {
            if j < n {
                assert(rest[j] == tasks[j]);
                let i = choose|i: int| 0 <= i < less.len() && less[i] == j;
                assert(places[i] == j);
            } else {
                assert(places[less.len() as int] == j);
            }
        }
        assert forall|i: int| 0 <= i < places.len() implies 0 <= #[trigger] places[i]
            < tasks.len() && belongs(filter, tasks[places[i]]) by {
            if i < less.len() {
                assert(places[i] == less[i]);
                assert(rest[less[i]] == tasks[less[i]]);
            }
        }
        places
    }
}

/// The list shows the tasks that belong to its filter: all, those that are not done, or those
/// that are; each of them, no other, and in their order.
pub proof fn law_visible(app: AppView, places: Seq<int>)
    requires
        are_places(app.data.tasks, app.filter, places),
    ensures
        app.visible() == Seq::new(places.len(), |i: int| app.data.tasks[places[i]].id),
{
    lemma_places(app.data.tasks, app.filter, places);
    assert(app.visible() =~= Seq::new(places.len(), |i: int| app.data.tasks[places[i]].id));
}

/// Under each filter there are such places, whatever the tasks are.
pub proof fn law_places_exist(tasks: Seq<TaskView>, filter: Filter)
    ensures
        exists|places: Seq<int>| are_places(tasks, filter, places),
{
    let places = lemma_has_places(tasks, filter);
}

pub proof fn lemma_visible(app: AppView)
    ensures
        forall|id: u64| #[trigger] app.visible().contains(id) <==> is_shown(app, id),
        app.visible().len() == 0 <==> forall|j: int| !#[trigger] is_first_shown(app, j),
        forall|j: int| #[trigger]
            is_first_shown(app, j) ==> app.visible().len() > 0 && app.visible().first()
                == app.data.tasks[j].id,
{
    let tasks = app.data.tasks;
    let places = lemma_has_places(tasks, app.filter);
    law_visible(app, places);
    let v = app.visible();
    assert forall|id: u64| #[trigger] v.contains(id) <==> is_shown(app, id) by {
        if v.contains(id) {
            let i = choose|i: int| 0 <= i < v.len() && v[i] == id;
            assert(tasks[places[i]].id == id);
        }
        if is_shown(app, id) {
            let j = choose|j: int|
                0 <= j < tasks.len() && (#[trigger] tasks[j]).id == id && belongs(
                    app.filter,
                    tasks[j],
                );
            assert(places.contains(j));
            let i = choose|i: int| 0 <= i < places.len() && places[i] == j;
            assert(v[i] == id);
        }
    }
    if v.len() > 0 {
        assert forall|k: int| 0 <= k < places[0] implies !belongs(app.filter, #[trigger] tasks[k])
            by {
            if belongs(app.filter, tasks[k]) {
                assert(places.contains(k));
            }
        }
        assert(is_first_shown(app, places[0]));
        assert forall|j: int| #[trigger] is_first_shown(app, j) implies j == places[0] by {
            assert(places.contains(j));
        }
    } else {
        assert forall|j: int| !#[trigger] is_first_shown(app, j) by {
            if is_first_shown(app, j) {
                assert(places.contains(j));
            }
        }
    }
}

proof fn lemma_settles(app: AppView)
    ensures
        has_settled(app.ensure_selection(), app.selected_id),
{
    let next = app.ensure_selection();
    lemma_visible(app);
    assert forall|id: u64| is_shown(next, id) == #[trigger] is_shown(app, id) by {
        assert(app.visible().contains(id) == is_shown(app, id));
        assert(next.visible() == app.visible());
        lemma_visible(next);
        assert(next.visible().contains(id) == is_shown(next, id));
    }
    lemma_visible(next);
    if let Some(id) = app.selected_id {
        lemma_position(app.visible(), id);
        assert(app.visible().contains(id) == is_shown(app, id));
        assert(is_shown(next, id) == is_shown(app, id));
    }
}

pub proof fn lemma_is_place(app: AppView, id: u64, p: int)
    requires
        is_place(app.data.tasks, id, p),
    ensures
        app.place(id) == Some(p as nat),
{
    let all = ids(app.data.tasks);
    assert forall|j: int| 0 <= j < p implies all[j] != id by {
        assert(all[j] == app.data.tasks[j].id);
    }
    lemma_position_is(all, id, p);
}

proof fn lemma_is_missing(app: AppView, id: u64)
    requires
        forall|j: int| 0 <= j < app.data.tasks.len() ==> (#[trigger] app.data.tasks[j]).id != id,
    ensures
        app.place(id) is None,
{
    lemma_position(ids(app.data.tasks), id);
}

/// A task with an identifier is found at the first place that has it, and nowhere where none
/// has.
pub proof fn law_place(app: AppView, id: u64)
    ensures
        match app.place(id) {
            Some(p) => is_place(app.data.tasks, id, p as int),
            None => forall|j: int|
                0 <= j < app.data.tasks.len() ==> (#[trigger] app.data.tasks[j]).id != id,
        },
{
    let all = ids(app.data.tasks);
    lemma_position(all, id);
    assert forall|j: int| 0 <= j < app.data.tasks.len() implies (#[trigger] app.data.tasks[j]).id
        == all[j] by {}
}

/// The selected place is that of the first task with the selected identifier.
pub proof fn law_selected_place(app: AppView)
    ensures
        match app.selected_place() {
            Some(p) => app.selected_id is Some && is_place(
                app.data.tasks,
                app.selected_id->0,
                p as int,
            ),
            None => app.selected_id is Some ==> forall|j: int|
                0 <= j < app.data.tasks.len() ==> (#[trigger] app.data.tasks[j]).id
                    != app.selected_id->0,
        },
{
    if let Some(id) = app.selected_id {
        law_place(app, id);
    }
}

proof fn lemma_number_done(tasks: Seq<TaskView>)
    ensures
        shown(tasks, Filter::Done).len() == number_done(tasks),
        shown(tasks, Filter::Active).len() + number_done(tasks) == tasks.len(),
        number_done(tasks) <= tasks.len(),
    decreases tasks.len(),
{
    reveal(Seq::filter);
    if tasks.len() > 0 {
        let rest = tasks.drop_last();
        lemma_number_done(rest);
        lemma_shown_push(rest, tasks.last(), Filter::Done);
        lemma_shown_push(rest, tasks.last(), Filter::Active);
        assert(rest.push(tasks.last()) =~= tasks);
    }
}

/// The counts are those of all tasks, of those that are not done, and of those that are.
pub proof fn law_counts_are_exact(app: AppView)
    ensures
        app.counts().0 == app.data.tasks.len(),
        app.counts().1 + number_done(app.data.tasks) == app.data.tasks.len(),
        app.counts().2 == number_done(app.data.tasks),
{
    lemma_number_done(app.data.tasks);
}

/// All tasks are done if and only if as many are done as there are, and none is if and only if
/// none is counted.
pub proof fn law_number_done(tasks: Seq<TaskView>)
    ensures
        number_done(tasks) <= tasks.len(),
        number_done(tasks) == tasks.len() <==> forall|i: int|
            0 <= i < tasks.len() ==> (#[trigger] tasks[i]).completed,
        number_done(tasks) == 0 <==> forall|i: int|
            0 <= i < tasks.len() ==> !(#[trigger] tasks[i]).completed,
    decreases tasks.len(),
{
    if tasks.len() > 0 {
        let rest = tasks.drop_last();
        law_number_done(rest);
        assert(forall|i: int| 0 <= i < rest.len() ==> rest[i] == #[trigger] tasks[i]);
        assert(tasks[tasks.len() - 1] == tasks.last());
        if forall|i: int| 0 <= i < rest.len() ==> (#[trigger] rest[i]).completed {
            assert(forall|i: int| 0 <= i < rest.len() ==> (#[trigger] tasks[i]).completed);
        } else {
            let i = choose|i: int| 0 <= i < rest.len() && !(#[trigger] rest[i]).completed;
            assert(!tasks[i].completed);
        }
        if forall|i: int| 0 <= i < rest.len() ==> !(#[trigger] rest[i]).completed {
            assert(forall|i: int| 0 <= i < rest.len() ==> !(#[trigger] tasks[i]).completed);
        } else {
            let i = choose|i: int| 0 <= i < rest.len() && (#[trigger] rest[i]).completed;
            assert(tasks[i].completed);
        }
    }
}

/// The number that decimal digits stand for.
pub open spec fn number(digits: Seq<char>) -> nat
    decreases digits.len(),
{
    if digits.len() == 0 {
        0
    } else {
        10 * number(digits.drop_last()) + (digits.last() as nat - '0' as nat) as nat
    }
}

/// A number is written with decimal digits that stand for it, without a zero before them.
pub proof fn law_decimal(n: nat)
    ensures
        number(decimal(n)) == n,
        decimal(n).len() > 0,
        forall|i: int| 0 <= i < decimal(n).len() ==> '0' <= #[trigger] decimal(n)[i] <= '9',
        decimal(n).first() == '0' ==> n == 0,
        n == 0 ==> decimal(n).len() == 1,
    decreases n,
{
    reveal_with_fuel(number, 2);
    if n < 10 {
        assert(decimal(n) =~= seq![digit(n)]);
        assert(decimal(n).drop_last() =~= Seq::empty());
        assert(digit(n) as nat == '0' as nat + n);
    } else {
        law_decimal(n / 10);
        let before = decimal(n / 10);
        let last = digit(n % 10);
        assert(last as nat == '0' as nat + n % 10);
        assert(decimal(n) =~= before.push(last));
        assert(decimal(n).drop_last() =~= before);
        assert(decimal(n).first() == before.first());
        assert forall|i: int| 0 <= i < decimal(n).len() implies '0' <= #[trigger] decimal(n)[i]
            <= '9' by {
            if i < before.len() {
                assert(decimal(n)[i] == before[i]);
            }
        }
    }
}

/// A key counts when it is pressed and while it is held down. Its release, or anything else that
/// the terminal reports, changes nothing.
pub proof fn law_pressed_keys_count(app: AppView, event: Event)
    ensures
        match event {
            Event::Key(key) => if key.kind == KeyEventKind::Release {
                app.handle_event(event) == (app, Request::Nothing)
            } else {
                app.handle_event(event) == app.handle_key(key)
            },
            Event::Other => app.handle_event(event) == (app, Request::Nothing),
        },
{
}

/// Whether only the selection is another.
pub open spec fn only_selects(app: AppView, next: AppView) -> bool {
    next == (AppView { selected_id: next.selected_id, ..app })
}

/// Whether a key is one of those for a step down, a step up, the first task, or the last.
pub open spec fn is_down(key: KeyEvent) -> bool {
    key.code == KeyCode::Down || key.code == KeyCode::Char('j')
}

pub open spec fn is_up(key: KeyEvent) -> bool {
    key.code == KeyCode::Up || key.code == KeyCode::Char('k')
}

pub open spec fn is_home(key: KeyEvent) -> bool {
    key.code == KeyCode::Home || key.code == KeyCode::Char('g')
}

pub open spec fn is_end(key: KeyEvent) -> bool {
    key.code == KeyCode::End || key.code == KeyCode::Char('G')
}

/// A step down selects the task that is shown after the selected one, and after the last one the
/// first; a step up the one before it, and before the first one the last.
pub proof fn law_steps(app: AppView, places: Seq<int>, i: int)
    requires
        are_places(app.data.tasks, app.filter, places),
        0 <= i < places.len(),
        app.selected_id == Some(app.data.tasks[places[i]].id),
        forall|k: int| 0 <= k < i ==> app.data.tasks[#[trigger] places[k]].id
            != app.data.tasks[places[i]].id,
    ensures
        i + 1 < places.len() ==> app.select_next().selected_id == Some(
            app.data.tasks[places[i + 1]].id,
        ),
        i + 1 == places.len() ==> app.select_next().selected_id == Some(
            app.data.tasks[places[0]].id,
        ),
        i > 0 ==> app.select_previous().selected_id == Some(app.data.tasks[places[i - 1]].id),
        i == 0 ==> app.select_previous().selected_id == Some(app.data.tasks[places.last()].id),
{
    law_visible(app, places);
    let n = places.len() as int;
    lemma_position_is(app.visible(), app.selected_id->0, i);
    if i + 1 < n {
        vstd::arithmetic::div_mod::lemma_small_mod((i + 1) as nat, places.len());
    } else {
        vstd::arithmetic::div_mod::lemma_mod_self_0(n);
    }
    if i > 0 {
        vstd::arithmetic::div_mod::lemma_small_mod((i - 1) as nat, places.len());
    } else {
        vstd::arithmetic::div_mod::lemma_fundamental_div_mod_converse(-1, n, -1, n - 1);
    }
}

/// Where what is selected is not shown, a step goes as from the first task that is: down to the
/// second, or to the only one, and up to the last.
pub proof fn law_steps_from_nowhere(app: AppView, places: Seq<int>)
    requires
        are_places(app.data.tasks, app.filter, places),
        app.selected_id is Some ==> !is_shown(app, app.selected_id->0),
    ensures
        places.len() > 1 ==> app.select_next().selected_id == Some(app.data.tasks[places[1]].id),
        places.len() == 1 ==> app.select_next().selected_id == Some(app.data.tasks[places[0]].id),
        places.len() > 0 ==> app.select_previous().selected_id == Some(
            app.data.tasks[places.last()].id,
        ),
{
    law_visible(app, places);
    lemma_visible(app);
    let v = app.visible();
    let n = places.len() as int;
    if let Some(id) = app.selected_id {
        lemma_position(v, id);
        assert(v.contains(id) == is_shown(app, id));
    }
    if n > 1 {
        vstd::arithmetic::div_mod::lemma_small_mod(1, places.len());
    }
    if n == 1 {
        vstd::arithmetic::div_mod::lemma_mod_self_0(n);
    }
    if n > 0 {
        vstd::arithmetic::div_mod::lemma_fundamental_div_mod_converse(-1, n, -1, n - 1);
    }
}

/// The ends of the list are the first and the last task that are shown. Of these moves and the
/// steps, each selects none where none is shown, and changes nothing but the selection.
pub proof fn law_ends(app: AppView, places: Seq<int>)
    requires
        are_places(app.data.tasks, app.filter, places),
    ensures
        only_selects(app, app.select_next()),
        only_selects(app, app.select_previous()),
        only_selects(app, app.select_first()),
        only_selects(app, app.select_last()),
        places.len() > 0 ==> {
            &&& app.select_first().selected_id == Some(app.data.tasks[places.first()].id)
            &&& app.select_last().selected_id == Some(app.data.tasks[places.last()].id)
        },
        places.len() == 0 ==> {
            &&& app.select_next().selected_id is None
            &&& app.select_previous().selected_id is None
            &&& app.select_first().selected_id is None
            &&& app.select_last().selected_id is None
        },
{
    law_visible(app, places);
}

/// j and Down step down, k and Up step up, g and Home lead to the first task that is shown, G and
/// End to the last.
pub proof fn law_move_keys(app: AppView, places: Seq<int>, i: int, key: KeyEvent)
    requires
        lists(app),
        are_places(app.data.tasks, app.filter, places),
        0 <= i < places.len(),
        app.selected_id == Some(app.data.tasks[places[i]].id),
        forall|k: int| 0 <= k < i ==> app.data.tasks[#[trigger] places[k]].id
            != app.data.tasks[places[i]].id,
    ensures
        ({
            let (next, request) = app.handle_key(key);
            &&& is_down(key) || is_up(key) || is_home(key) || is_end(key) ==> request
                == Request::Nothing && only_selects(app, next)
            &&& is_down(key) ==> next.selected_id == Some(
                app.data.tasks[places[if i + 1 < places.len() {
                    i + 1
                } else {
                    0
                }]].id,
            )
            &&& is_up(key) ==> next.selected_id == Some(
                app.data.tasks[places[if i > 0 {
                    i - 1
                } else {
                    places.len() - 1
                }]].id,
            )
            &&& is_home(key) ==> next.selected_id == Some(app.data.tasks[places[0]].id)
            &&& is_end(key) ==> next.selected_id == Some(app.data.tasks[places.last()].id)
        }),
{
    law_steps(app, places, i);
    law_ends(app, places);
}

/// The same keys where what is selected is not shown.
pub proof fn law_move_keys_from_nowhere(app: AppView, places: Seq<int>, key: KeyEvent)
    requires
        lists(app),
        are_places(app.data.tasks, app.filter, places),
        app.selected_id is Some ==> !is_shown(app, app.selected_id->0),
    ensures
        ({
            let (next, request) = app.handle_key(key);
            is_down(key) || is_up(key) || is_home(key) || is_end(key) ==> {
                &&& request == Request::Nothing
                &&& only_selects(app, next)
                &&& places.len() == 0 ==> next.selected_id is None
                &&& places.len() > 0 ==> {
                    &&& is_down(key) ==> next.selected_id == Some(
                        app.data.tasks[places[if places.len() > 1 {
                            1int
                        } else {
                            0
                        }]].id,
                    )
                    &&& is_home(key) ==> next.selected_id == Some(app.data.tasks[places[0]].id)
                    &&& is_up(key) || is_end(key) ==> next.selected_id == Some(
                        app.data.tasks[places.last()].id,
                    )
                }
            }
        }),
{
    law_steps_from_nowhere(app, places);
    law_ends(app, places);
}

/// A change of filter keeps the selected task selected where the new filter shows it, and only
/// else selects the first task that is shown. The tasks are as they were.
pub proof fn law_filter_keeps_selection(app: AppView, filter: Filter)
    ensures
        ({
            let next = app.set_filter(filter);
            &&& next.filter == filter
            &&& has_settled(next, app.selected_id)
            &&& next == (AppView {
                filter,
                selected_id: next.selected_id,
                status: next.status,
                ..app
            })
        }),
{
    let turned = AppView { filter, ..app };
    lemma_settles(turned);
    lemma_same_tasks(turned.ensure_selection(), app.set_filter(filter), app.selected_id);
}

/// The status says nothing of what is shown and selected.
proof fn lemma_same_tasks(app: AppView, next: AppView, was: Option<u64>)
    requires
        has_settled(app, was),
        next.data == app.data,
        next.filter == app.filter,
        next.selected_id == app.selected_id,
    ensures
        has_settled(next, was),
{
    if let Some(id) = was {
        assert(is_shown(next, id) == is_shown(app, id));
    }
    assert forall|j: int| #[trigger] is_first_shown(next, j) == is_first_shown(app, j) by {}
    if forall|j: int| !is_first_shown(next, j) {
        assert forall|j: int| !is_first_shown(app, j) by {
            assert(is_first_shown(next, j) == is_first_shown(app, j));
        }
    }
}

/// 1 shows all tasks, 2 those that are not done, 3 those that are; Tab and / lead from each of
/// these to the next, and from the last to the first. The selection stays on its task where that
/// is shown then, the status names the filter, and nothing else changes.
pub proof fn law_filter_keys(app: AppView, key: KeyEvent)
    requires
        lists(app),
    ensures
        ({
            let (next, request) = app.handle_key(key);
            let on = key.code == KeyCode::Tab || key.code == KeyCode::Char('/');
            let all = key.code == KeyCode::Char('1') || on && app.filter == Filter::Done;
            let active = key.code == KeyCode::Char('2') || on && app.filter == Filter::All;
            let done = key.code == KeyCode::Char('3') || on && app.filter == Filter::Active;
            &&& all ==> next.filter == Filter::All && next.status == "filter -> "@ + "All"@
            &&& active ==> next.filter == Filter::Active && next.status == "filter -> "@
                + "Active"@
            &&& done ==> next.filter == Filter::Done && next.status == "filter -> "@ + "Done"@
            &&& all || active || done ==> {
                &&& request == Request::Nothing
                &&& has_settled(next, app.selected_id)
                &&& next == (AppView {
                    filter: next.filter,
                    selected_id: next.selected_id,
                    status: next.status,
                    ..app
                })
            }
        }),
{
    law_filter_keeps_selection(app, Filter::All);
    law_filter_keeps_selection(app, Filter::Active);
    law_filter_keeps_selection(app, Filter::Done);
}

/// Whether the task at `p`, which is the selected one, was turned from done to not done or back,
/// and nothing else was changed.
pub open spec fn turns(app: AppView, p: int, next: AppView, request: Request) -> bool {
    let tasks = app.data.tasks;
    &&& request == Request::Save(Change::Toggled { completed: !tasks[p].completed })
    &&& next == (AppView { data: next.data, ..app })
    &&& next.data.next_id == app.data.next_id
    &&& next.data.tasks.len() == tasks.len()
    &&& next.data.tasks[p].completed != tasks[p].completed
    &&& next.data.tasks[p].id == tasks[p].id
    &&& next.data.tasks[p].title == tasks[p].title
    &&& forall|j: int| 0 <= j < tasks.len() && j != p ==> #[trigger] next.data.tasks[j] == tasks[j]
}

/// Enter and Space turn the selected task from done to not done or back, and no other. Once that
/// is saved, the selection is still on the task where it is shown, and the status says which of
/// the two was done.
pub proof fn law_toggle(app: AppView, p: int, key: KeyEvent)
    requires
        app.selected_id is Some,
        is_place(app.data.tasks, app.selected_id->0, p),
    ensures
        turns(app, p, app.toggle_selected().0, app.toggle_selected().1),
        lists(app) && (key.code == KeyCode::Enter || key.code == KeyCode::Char(' ')) ==> ({
            let (next, request) = app.handle_key(key);
            let after = next.completed(request);
            &&& turns(app, p, next, request)
            &&& has_settled(after, app.selected_id)
            &&& after == (AppView {
                selected_id: after.selected_id,
                status: if app.data.tasks[p].completed {
                    "moved back to active"@
                } else {
                    "marked as done"@
                },
                ..next
            })
        }),
{
    lemma_is_place(app, app.selected_id->0, p);
    let (next, request) = app.toggle_selected();
    lemma_settles(next);
    lemma_same_tasks(next.ensure_selection(), next.completed(request), app.selected_id);
}

/// Whether the task at `p`, which is the selected one, was taken out, the others are there in
/// their order, and the selection has settled on what is left.
pub open spec fn takes_out(app: AppView, p: int, next: AppView, request: Request) -> bool {
    let tasks = app.data.tasks;
    &&& request == Request::Save(Change::Removed)
    &&& next == (AppView { data: next.data, selected_id: next.selected_id, ..app })
    &&& next.data.next_id == app.data.next_id
    &&& next.data.tasks.len() == tasks.len() - 1
    &&& forall|j: int| 0 <= j < p ==> #[trigger] next.data.tasks[j] == tasks[j]
    &&& forall|j: int| p <= j < tasks.len() - 1 ==> #[trigger] next.data.tasks[j] == tasks[j + 1]
    &&& has_settled(next, app.selected_id)
}

/// d and Delete take the selected task out and leave all others in their order, and ask for that
/// to be saved. Once it is, only the status is another.
pub proof fn law_delete_keys(app: AppView, p: int, key: KeyEvent)
    requires
        app.selected_id is Some,
        is_place(app.data.tasks, app.selected_id->0, p),
    ensures
        takes_out(app, p, app.delete_selected().0, app.delete_selected().1),
        lists(app) && (key.code == KeyCode::Char('d') || key.code == KeyCode::Delete) ==> ({
            let (next, request) = app.handle_key(key);
            &&& takes_out(app, p, next, request)
            &&& next.completed(request) == (AppView { status: "task removed"@, ..next })
        }),
{
    lemma_is_place(app, app.selected_id->0, p);
    lemma_settles(app.with_tasks(app.data.tasks.remove(p)));
}

/// Where no task is selected, the keys that act on one change nothing but the status.
pub proof fn law_nothing_selected(app: AppView, key: KeyEvent)
    requires
        lists(app),
        app.selected_id is Some ==> forall|j: int|
            0 <= j < app.data.tasks.len() ==> (#[trigger] app.data.tasks[j]).id
                != app.selected_id->0,
    ensures
        ({
            let acts = key.code == KeyCode::Enter || key.code == KeyCode::Char(' ') || key.code
                == KeyCode::Char('d') || key.code == KeyCode::Delete;
            let status = if app.selected_id is Some {
                "task not found"@
            } else {
                "nothing selected"@
            };
            &&& acts ==> app.handle_key(key) == (AppView { status, ..app }, Request::Nothing)
            &&& key.code == KeyCode::Char('e') ==> app.handle_key(key) == (
                AppView { status: "nothing selected"@, ..app },
                Request::Nothing,
            )
        }),
{
    if let Some(id) = app.selected_id {
        lemma_is_missing(app, id);
    }
}

/// Whether the tasks that were done are gone, the others are there in their order, and the
/// selection has settled on what is left.
pub open spec fn sweeps(app: AppView, kept: Seq<int>, next: AppView, request: Request) -> bool {
    let tasks = app.data.tasks;
    &&& request == Request::Save(Change::Purged { count: number_done(tasks) as usize })
    &&& next == (AppView { data: next.data, selected_id: next.selected_id, ..app })
    &&& next.data.next_id == app.data.next_id
    &&& next.data.tasks.len() == kept.len()
    &&& forall|i: int| 0 <= i < kept.len() ==> #[trigger] next.data.tasks[i] == tasks[kept[i]]
    &&& has_settled(next, app.selected_id)
}

/// x takes out all tasks that are done, and no other, and leaves the rest in their order. Once
/// that is saved, the status says how many there were.
pub proof fn law_purge_key(app: AppView, kept: Seq<int>, key: KeyEvent)
    requires
        are_places(app.data.tasks, Filter::Active, kept),
        app.data.tasks.len() <= usize::MAX,
    ensures
        sweeps(app, kept, app.purge_completed().0, app.purge_completed().1),
        lists(app) && key.code == KeyCode::Char('x') ==> ({
            let (next, request) = app.handle_key(key);
            let gone = number_done(app.data.tasks);
            &&& sweeps(app, kept, next, request)
            &&& next.completed(request) == (AppView {
                status: if gone == 0 {
                    "nothing to clean"@
                } else {
                    "removed "@ + decimal(gone) + " completed task(s)"@
                },
                ..next
            })
        }),
{
    let tasks = app.data.tasks;
    lemma_places(tasks, Filter::Active, kept);
    lemma_number_done(tasks);
    lemma_settles(app.with_tasks(shown(tasks, Filter::Active)));
}

/// a opens an empty draft for a new task.
pub proof fn law_add_key(app: AppView, key: KeyEvent)
    requires
        lists(app),
        key.code == KeyCode::Char('a'),
    ensures
        ({
            let (next, request) = app.handle_key(key);
            &&& request == Request::Nothing
            &&& next == (AppView { draft: next.draft, status: "new task"@, ..app })
            &&& next.draft is Some
            &&& next.draft->0.mode == DraftMode::Add
            &&& next.draft->0.value.len() == 0
        }),
{
}

/// A draft for a new task starts without a text, whatever was open before, and a question before a
/// full reset changes nothing but that it is asked. Both set the status.
pub proof fn law_openings(app: AppView)
    ensures
        ({
            let next = app.start_add();
            &&& next == (AppView { draft: next.draft, status: "new task"@, ..app })
            &&& next.draft is Some
            &&& next.draft->0.mode == DraftMode::Add
            &&& next.draft->0.value.len() == 0
        }),
        app.start_clear_data_confirmation() == (AppView {
            confirm_clear_data: true,
            status: "confirm full local reset"@,
            ..app
        }),
{
}

/// e opens a draft that names the selected task and holds its title.
pub proof fn law_edit_key(app: AppView, p: int, key: KeyEvent)
    requires
        app.selected_id is Some,
        is_place(app.data.tasks, app.selected_id->0, p),
    ensures
        ({
            let next = app.start_edit_selected();
            &&& next == (AppView { draft: next.draft, status: "rename task"@, ..app })
            &&& next.draft is Some
            &&& next.draft->0.mode == DraftMode::Edit(app.selected_id->0)
            &&& next.draft->0.value == app.data.tasks[p].title
        }),
        lists(app) && key.code == KeyCode::Char('e') ==> ({
            let (next, request) = app.handle_key(key);
            &&& request == Request::Nothing
            &&& next == (AppView { draft: next.draft, status: "rename task"@, ..app })
            &&& next.draft is Some
            &&& next.draft->0.mode == DraftMode::Edit(app.selected_id->0)
            &&& next.draft->0.value == app.data.tasks[p].title
        }),
{
    lemma_is_place(app, app.selected_id->0, p);
}

/// Where the selected task has a clean title, e and then Enter leave everything but the status
/// as it was.
pub proof fn law_edit_and_enter_change_nothing(
    app: AppView,
    p: int,
    edit: KeyEvent,
    enter: KeyEvent,
)
    requires
        lists(app),
        app.selected_id is Some,
        is_place(app.data.tasks, app.selected_id->0, p),
        is_clean_title(app.data.tasks[p].title),
        edit.code == KeyCode::Char('e'),
        enter.code == KeyCode::Enter,
    ensures
        ({
            let opened = app.handle_key(edit).0;
            let (next, request) = opened.handle_key(enter);
            let after = next.completed(request);
            after == (AppView { status: after.status, ..app })
        }),
{
    law_edit_key(app, p, edit);
    let opened = app.handle_key(edit).0;
    lemma_is_place(opened, app.selected_id->0, p);
    law_trimmed_is_clean(app.data.tasks[p].title);
    let next = opened.handle_key(enter).0;
    assert(next.data.tasks =~= app.data.tasks);
}

/// e and then Esc leave everything but the status as it was; so do a and then Esc.
pub proof fn law_draft_and_escape_change_nothing(app: AppView, start: KeyEvent, escape: KeyEvent)
    requires
        lists(app),
        start.code == KeyCode::Char('e') || start.code == KeyCode::Char('a'),
        escape.code == KeyCode::Esc,
        app.handle_key(start).0.draft is Some,
    ensures
        app.handle_key(start).0.handle_key(escape) == (
            AppView { status: "edit cancelled"@, ..app },
            Request::Nothing,
        ),
{
}

/// A character goes to the end of the draft, unless the control key or Alt is held. Backspace
/// takes the last one off where there is one, and with the control key u takes all. Each leaves
/// everything but the text of the draft as it was, and any other key but Enter and Esc
/// everything.
pub proof fn law_draft_keys(app: AppView, key: KeyEvent)
    requires
        app.draft is Some,
        key.code != KeyCode::Enter,
        key.code != KeyCode::Esc,
    ensures
        ({
            let (next, request) = app.handle_key(key);
            let value = app.draft->0.value;
            let text = next.draft->0.value;
            &&& request == Request::Nothing
            &&& next == (AppView { draft: next.draft, ..app })
            &&& next.draft is Some
            &&& next.draft->0.mode == app.draft->0.mode
            &&& match key.code {
                KeyCode::Char(c) => if !key.control && !key.alt {
                    &&& text.len() == value.len() + 1
                    &&& text.last() == c
                    &&& forall|i: int| 0 <= i < value.len() ==> #[trigger] text[i] == value[i]
                } else if key.control && c == 'u' {
                    text.len() == 0
                } else {
                    text == value
                },
                KeyCode::Backspace => {
                    &&& value.len() == 0 ==> text.len() == 0
                    &&& value.len() > 0 ==> text.len() == value.len() - 1
                    &&& forall|i: int| 0 <= i < text.len() ==> #[trigger] text[i] == value[i]
                },
                _ => text == value,
            }
        }),
{
}

/// Without a draft the keys of a draft change nothing; with one they are the only keys.
pub proof fn law_draft_comes_first(app: AppView, key: KeyEvent)
    ensures
        app.draft is None ==> app.handle_draft_key(key) == (app, Request::Nothing),
        app.draft is Some ==> app.handle_key(key) == app.handle_draft_key(key),
{
}

/// Esc drops the draft.
pub proof fn law_draft_escape(app: AppView, key: KeyEvent)
    requires
        app.draft is Some,
        key.code == KeyCode::Esc,
    ensures
        app.handle_key(key) == (
            AppView { draft: None, status: "edit cancelled"@, ..app },
            Request::Nothing,
        ),
{
}

/// Whether a task with a title was added at the end, not done and with the next identifier, is
/// selected, and is shown: under the filter that was there, but for one that would hide it.
pub open spec fn adds(app: AppView, title: Seq<char>, next: AppView, request: Request) -> bool {
    let tasks = app.data.tasks;
    let added = next.data.tasks.last();
    &&& request == Request::Save(Change::Created)
    &&& next.data.next_id == app.data.next_id + 1
    &&& next.data.tasks.len() == tasks.len() + 1
    &&& forall|j: int| 0 <= j < tasks.len() ==> #[trigger] next.data.tasks[j] == tasks[j]
    &&& added.id == app.data.next_id
    &&& added.title == title
    &&& !added.completed
    &&& next.selected_id == Some(added.id)
    &&& belongs(next.filter, added)
    &&& app.filter != Filter::Done ==> next.filter == app.filter
    &&& app.filter == Filter::Done ==> next.filter == Filter::Active
    &&& next == (AppView {
        data: next.data,
        filter: next.filter,
        selected_id: next.selected_id,
        ..app
    })
}

/// A new task is added at the end and selected, and nothing else changes.
pub proof fn law_create(app: AppView, title: Seq<char>)
    requires
        app.data.next_id < u64::MAX,
    ensures
        adds(app, title, app.create_task(title).0, app.create_task(title).1),
{
}

/// Whether the task at `p` got a title and is selected, and nothing else was changed.
pub open spec fn retitles(
    app: AppView,
    p: int,
    title: Seq<char>,
    next: AppView,
    request: Request,
) -> bool {
    let tasks = app.data.tasks;
    &&& request == Request::Save(Change::Renamed)
    &&& next.data.next_id == app.data.next_id
    &&& next.data.tasks.len() == tasks.len()
    &&& next.data.tasks[p].title == title
    &&& next.data.tasks[p].id == tasks[p].id
    &&& next.data.tasks[p].completed == tasks[p].completed
    &&& forall|j: int| 0 <= j < tasks.len() && j != p ==> #[trigger] next.data.tasks[j] == tasks[j]
    &&& next == (AppView { data: next.data, selected_id: Some(tasks[p].id), ..app })
}

/// A new title goes to the first task with the identifier, which is then selected. Where there is
/// none, only the status is another.
pub proof fn law_rename(app: AppView, id: u64, p: int, title: Seq<char>)
    ensures
        is_place(app.data.tasks, id, p) ==> retitles(
            app,
            p,
            title,
            app.rename_task(id, title).0,
            app.rename_task(id, title).1,
        ),
        (forall|j: int| 0 <= j < app.data.tasks.len() ==> (#[trigger] app.data.tasks[j]).id != id)
            ==> app.rename_task(id, title) == (
            AppView { status: "task not found"@, ..app },
            Request::Nothing,
        ),
{
    if is_place(app.data.tasks, id, p) {
        lemma_is_place(app, id, p);
    }
    if forall|j: int| 0 <= j < app.data.tasks.len() ==> (#[trigger] app.data.tasks[j]).id != id {
        lemma_is_missing(app, id);
    }
}

/// Enter in a draft for a new task adds it at the end, not done, with the trimmed text as its
/// title and the next identifier, and selects it. What is shown stays, but for a filter that
/// would hide the task. Once that is saved, only the status is another.
pub proof fn law_enter_creates(app: AppView, key: KeyEvent)
    requires
        app.draft is Some,
        app.draft->0.mode == DraftMode::Add,
        trimmed(app.draft->0.value).len() > 0,
        app.data.next_id < u64::MAX,
        key.code == KeyCode::Enter,
    ensures
        ({
            let (next, request) = app.handle_key(key);
            &&& adds(
                AppView { draft: None, ..app },
                trimmed(app.draft->0.value),
                next,
                request,
            )
            &&& next.completed(request) == (AppView { status: "task created"@, ..next })
        }),
{
    law_create(AppView { draft: None, ..app }, trimmed(app.draft->0.value));
}

/// Enter in a draft that names a task gives it the trimmed text as its title and selects it. Once
/// that is saved, only the status is another. Where there is no such task, nothing changes but
/// that the draft is closed, and the status.
pub proof fn law_enter_renames(app: AppView, id: u64, p: int, key: KeyEvent)
    requires
        app.draft is Some,
        app.draft->0.mode == DraftMode::Edit(id),
        trimmed(app.draft->0.value).len() > 0,
        key.code == KeyCode::Enter,
    ensures
        ({
            let (next, request) = app.handle_key(key);
            let tasks = app.data.tasks;
            &&& is_place(tasks, id, p) ==> {
                &&& retitles(
                    AppView { draft: None, ..app },
                    p,
                    trimmed(app.draft->0.value),
                    next,
                    request,
                )
                &&& next.completed(request) == (AppView { status: "task updated"@, ..next })
            }
            &&& (forall|j: int| 0 <= j < tasks.len() ==> (#[trigger] tasks[j]).id != id) ==> (
                next,
                request,
            ) == (AppView { draft: None, status: "task not found"@, ..app }, Request::Nothing)
        }),
{
    law_rename(AppView { draft: None, ..app }, id, p, trimmed(app.draft->0.value));
}

/// X asks whether to remove everything, and does no more.
pub proof fn law_reset_key(app: AppView, key: KeyEvent)
    requires
        lists(app),
        key.code == KeyCode::Char('X'),
    ensures
        app.handle_key(key) == (
            AppView { confirm_clear_data: true, status: "confirm full local reset"@, ..app },
            Request::Nothing,
        ),
{
}

/// While it is asked whether to remove everything, y and Y have what is stored removed, and when
/// that is done there is no task, no identifier was given out, and the list is as at its start.
/// n, N and Esc take the question back. Any other key changes nothing.
pub proof fn law_reset_answers(app: AppView, key: KeyEvent)
    ensures
        app.draft is None && app.confirm_clear_data ==> app.handle_key(key)
            == app.handle_clear_confirm_key(key),
        ({
            let (next, request) = app.handle_clear_confirm_key(key);
            let after = next.completed(request);
            let yes = key.code == KeyCode::Char('y') || key.code == KeyCode::Char('Y');
            let no = key.code == KeyCode::Char('n') || key.code == KeyCode::Char('N') || key.code
                == KeyCode::Esc;
            &&& yes ==> {
                &&& (next, request) == (app, Request::Erase)
                &&& after.data.tasks.len() == 0
                &&& after.data.next_id == 1
                &&& after.filter == Filter::All
                &&& after.selected_id is None
                &&& after.draft is None
                &&& !after.confirm_clear_data
                &&& after.should_quit == app.should_quit
                &&& after.status == "all local data removed"@
            }
            &&& no ==> (next, request) == (
                AppView { confirm_clear_data: false, status: "full reset cancelled"@, ..app },
                Request::Nothing,
            )
            &&& !yes && !no ==> (next, request) == (app, Request::Nothing)
        }),
{
}

/// q, and c with the control key, make the list quit, and do no more.
pub proof fn law_quit_keys(app: AppView, key: KeyEvent)
    requires
        lists(app),
        key.code == KeyCode::Char('q') || key.control && key.code == KeyCode::Char('c'),
    ensures
        app.handle_key(key) == (AppView { should_quit: true, ..app }, Request::Nothing),
{
}

/// Whether the list itself has a use for a key.
pub open spec fn is_list_key(key: KeyEvent) -> bool {
    match key.code {
        KeyCode::Char(c) => {
            ||| c == 'j' || c == 'k' || c == 'g' || c == 'G'
            ||| c == ' ' || c == 'a' || c == 'e' || c == 'd' || c == 'x' || c == 'X'
            ||| c == '1' || c == '2' || c == '3' || c == '/'
            ||| c == 'q' || c == 'c' && key.control
        },
        KeyCode::Up | KeyCode::Down | KeyCode::Home | KeyCode::End => true,
        KeyCode::Enter | KeyCode::Delete | KeyCode::Tab => true,
        KeyCode::Esc | KeyCode::Backspace | KeyCode::Other => false,
    }
}

/// A key that the list has no use for changes nothing.
pub proof fn law_other_keys(app: AppView, key: KeyEvent)
    requires
        lists(app),
        !is_list_key(key),
    ensures
        app.handle_key(key) == (app, Request::Nothing),
{
}

/// Only one key in one state cannot be handled: Enter in a draft for a new task that is not
/// blank, when the last identifier is the next.
pub proof fn law_what_can_be_handled(app: AppView, key: KeyEvent)
    ensures
        !app.can_handle(key) <==> {
            &&& key.code == KeyCode::Enter
            &&& app.draft is Some
            &&& app.draft->0.mode == DraftMode::Add
            &&& trimmed(app.draft->0.value).len() > 0
            &&& app.data.next_id == u64::MAX
        },
{
}

/// What is left of an action once the storage has done its part. A save changes only the status,
/// but that after a task was turned the selection settles. A removal of what is stored leaves no
/// task, no identifier that was given out, and the list as at its start.
pub proof fn law_completion(app: AppView, request: Request)
    ensures
        ({
            let after = app.completed(request);
            &&& request == Request::Nothing ==> after == app
            &&& request is Save ==> {
                &&& after == (AppView {
                    selected_id: after.selected_id,
                    status: after.status,
                    ..app
                })
                &&& match request->Save_0 {
                    Change::Created => after.selected_id == app.selected_id && after.status
                        == "task created"@,
                    Change::Renamed => after.selected_id == app.selected_id && after.status
                        == "task updated"@,
                    Change::Removed => after.selected_id == app.selected_id && after.status
                        == "task removed"@,
                    Change::Toggled { completed } => {
                        &&& has_settled(after, app.selected_id)
                        &&& completed ==> after.status == "marked as done"@
                        &&& !completed ==> after.status == "moved back to active"@
                    },
                    Change::Purged { count } => {
                        &&& after.selected_id == app.selected_id
                        &&& count == 0 ==> after.status == "nothing to clean"@
                        &&& count > 0 ==> after.status == "removed "@ + decimal(count as nat)
                            + " completed task(s)"@
                    },
                }
            }
            &&& request == Request::Erase ==> {
                &&& after.data.tasks.len() == 0
                &&& after.data.next_id == 1
                &&& after.filter == Filter::All
                &&& after.selected_id is None
                &&& after.draft is None
                &&& !after.confirm_clear_data
                &&& after.should_quit == app.should_quit
                &&& after.status == "all local data removed"@
            }
        }),
{
    lemma_settles(app);
    if let Request::Save(Change::Toggled { completed }) = request {
        lemma_same_tasks(app.ensure_selection(), app.completed(request), app.selected_id);
    }
}

/// The selection stays on a task that is shown, and else goes to the first one that is.
pub proof fn law_selection_settles(app: AppView)
    ensures
        has_settled(app.ensure_selection(), app.selected_id),
        only_selects(app, app.ensure_selection()),
{
    lemma_settles(app);
}

/// A turn can be handled unless it reads a key that cannot.
pub proof fn law_what_can_follow(app: AppView, turn: Turn, reply: Reply)
    ensures
        !app.can_advance(turn, reply) <==> {
            &&& turn == Turn::Read
            &&& reply is Event
            &&& reply->Event_0 is Key
            &&& reply->Event_0->Key_0.kind != KeyEventKind::Release
            &&& !app.can_handle(reply->Event_0->Key_0)
        },
{
}

/// The removal of what is stored goes on after each step whose answer means nothing, whatever the
/// answer is, and has an end.
pub proof fn law_erase_goes_on(answer: bool)
    ensures
        EraseStep::FindFile.then_comes(true) == EraseStep::RemoveFile,
        EraseStep::FindFile.then_comes(false) == EraseStep::FindFolder,
        EraseStep::RemoveFile.then_comes(answer) == EraseStep::FindFolder,
        EraseStep::FindFolder.then_comes(true) == EraseStep::InspectFolder,
        EraseStep::FindFolder.then_comes(false) == EraseStep::Done,
        EraseStep::InspectFolder.then_comes(true) == EraseStep::RemoveFolder,
        EraseStep::InspectFolder.then_comes(false) == EraseStep::Done,
        EraseStep::RemoveFolder.then_comes(answer) == EraseStep::Done,
        EraseStep::Done.then_comes(answer) == EraseStep::Done,
{
}

/// A list that starts has the tasks that were stored, or none, shows all of them with the first
/// one selected, and says where it saves them.
pub proof fn law_start(stored: Option<StoredView>, path: Seq<char>)
    ensures
        ({
            let app = AppView::loaded(stored, path);
            &&& stored is Some ==> app.data == stored->0
            &&& stored is None ==> app.data.tasks.len() == 0 && app.data.next_id == 1
            &&& app.filter == Filter::All
            &&& app.data.tasks.len() > 0 ==> app.selected_id == Some(app.data.tasks.first().id)
            &&& app.data.tasks.len() == 0 ==> app.selected_id is None
            &&& app.draft is None
            &&& !app.confirm_clear_data
            &&& !app.should_quit
            &&& app.status == "autosave -> "@ + path
        }),
{
    let app = AppView::loaded(stored, path);
    let start = AppView { selected_id: None, ..app };
    assert(start.visible() == app.visible());
    lemma_settles(start);
    assert(start.ensure_selection() == app);
    if app.data.tasks.len() > 0 {
        assert(is_first_shown(app, 0));
    } else {
        assert forall|j: int| !is_first_shown(app, j) by {}
    }
}

/// A drawing comes first and after every event. It is followed by the end where the list is to
/// quit, and else by a wait for input; a wait by a look at the event where there is one, and by a
/// drawing where there is none; and what an event asks of the storage is done before the next
/// drawing.
pub proof fn law_turns(app: AppView, reply: Reply, request: Request)
    ensures
        app.advance(Turn::Draw, reply) == (
            app,
            if app.should_quit {
                Turn::Stop
            } else {
                Turn::Poll
            },
        ),
        app.advance(Turn::Poll, Reply::Ready(true)) == (app, Turn::Read),
        app.advance(Turn::Poll, Reply::Ready(false)) == (app, Turn::Draw),
        app.advance(Turn::Read, reply).0 == app.handle_event(reply.read()).0,
        app.handle_event(reply.read()).1 == Request::Nothing ==> app.advance(Turn::Read, reply).1
            == Turn::Draw,
        app.handle_event(reply.read()).1 != Request::Nothing ==> app.advance(Turn::Read, reply).1
            == Turn::Store(app.handle_event(reply.read()).1),
        app.advance(Turn::Store(request), reply) == (app.completed(request), Turn::Draw),
        reply is Event ==> reply.read() == reply->Event_0,
        !(reply is Event) ==> reply.read() == Event::Other,
        reply != Reply::Ready(true) ==> app.advance(Turn::Poll, reply) == (app, Turn::Draw),
        app.advance(Turn::Stop, reply) == (app, Turn::Stop),
        POLL_MILLIS == 200,
{
}

} // verus!
