use todo_rust::app::{App, Draft};
use todo_rust::filter::Filter;
use todo_rust::input::{Event, KeyCode, KeyEvent, KeyEventKind};
use todo_rust::model::{Change, DraftMode, Reply, Request, Turn};
use todo_rust::task::{StoredState, Task};

fn key(code: KeyCode) -> KeyEvent {
    KeyEvent { code, control: false, alt: false, kind: KeyEventKind::Press }
}

fn control(c: char) -> KeyEvent {
    KeyEvent { code: KeyCode::Char(c), control: true, alt: false, kind: KeyEventKind::Press }
}

fn press(app: &mut App, code: KeyCode) -> Request {
    let k = key(code);
    assert!(app.can_handle(k));
    let request = app.handle_key(k);
    let outcome: Result<(), ()> = app.complete(request, Ok(()));
    assert_eq!(outcome, Ok(()));
    request
}

fn type_text(app: &mut App, text: &str) {
    for c in text.chars() {
        press(app, KeyCode::Char(c));
    }
}

fn add(app: &mut App, title: &str) {
    press(app, KeyCode::Char('a'));
    type_text(app, title);
    press(app, KeyCode::Enter);
}

fn empty() -> App {
    App::load(None, "/home/me/.todo_rust/tasks.json")
}

fn three() -> App {
    let mut app = empty();
    add(&mut app, "one");
    add(&mut app, "two");
    add(&mut app, "three");
    app
}

fn task(id: u64, title: &str, completed: bool) -> Task {
    Task { id, title: title.to_string(), completed }
}

#[test]
fn an_empty_list_starts_with_the_path_in_its_status() {
    let app = empty();
    assert_eq!(app.data, StoredState { next_id: 1, tasks: vec![] });
    assert_eq!(app.filter, Filter::All);
    assert_eq!(app.selected_id, None);
    assert_eq!(app.draft, None);
    assert!(!app.confirm_clear_data);
    assert!(!app.should_quit);
    assert_eq!(app.status, "autosave -> /home/me/.todo_rust/tasks.json");
}

#[test]
fn a_stored_list_starts_with_its_first_task_selected() {
    let stored = StoredState { next_id: 9, tasks: vec![task(4, "a", true), task(8, "b", false)] };
    let app = App::load(Some(stored), "p");
    assert_eq!(app.selected_id, Some(4));
    assert_eq!(app.data.next_id, 9);
    assert_eq!(app.visible_ids(), vec![4, 8]);
    assert_eq!(app.counts(), (2, 1, 1));
}

#[test]
fn typing_a_title_creates_a_task() {
    let mut app = empty();
    assert_eq!(press(&mut app, KeyCode::Char('a')), Request::Nothing);
    assert_eq!(app.status, "new task");
    assert_eq!(app.draft, Some(Draft { mode: DraftMode::Add, value: String::new() }));
    type_text(&mut app, "  buy milk ");
    assert_eq!(press(&mut app, KeyCode::Enter), Request::Save(Change::Created));
    assert_eq!(app.data, StoredState { next_id: 2, tasks: vec![task(1, "buy milk", false)] });
    assert_eq!(app.selected_id, Some(1));
    assert_eq!(app.draft, None);
    assert_eq!(app.status, "task created");
}

#[test]
fn a_new_task_leaves_the_filter_that_would_hide_it() {
    let mut app = three();
    press(&mut app, KeyCode::Char('3'));
    assert_eq!(app.selected_id, None);
    add(&mut app, "four");
    assert_eq!(app.filter, Filter::Active);
    assert_eq!(app.selected_id, Some(4));
    assert_eq!(app.selected_index_in_visible(), Some(3));
}

#[test]
fn a_blank_title_is_refused() {
    let mut app = three();
    press(&mut app, KeyCode::Char('a'));
    type_text(&mut app, " \u{a0}\u{3000} ");
    assert_eq!(press(&mut app, KeyCode::Enter), Request::Nothing);
    assert_eq!(app.status, "task title cannot be empty");
    assert_eq!(app.draft, None);
    assert_eq!(app.data, three().data);
}

#[test]
fn white_space_is_what_unicode_says() {
    for n in 0..=0x10ffffu32 {
        let c = match char::from_u32(n) {
            Some(c) => c,
            None => continue,
        };
        let listed = matches!(n, 0x9..=0xd | 0x20 | 0x85 | 0xa0 | 0x1680 | 0x2000..=0x200a
            | 0x2028 | 0x2029 | 0x202f | 0x205f | 0x3000);
        assert_eq!(c.is_whitespace(), listed, "{:x}", n);
        if listed || n < 0x3100 {
            let mut app = empty();
            press(&mut app, KeyCode::Char('a'));
            type_text(&mut app, &format!("{c}x{c}y{c}"));
            press(&mut app, KeyCode::Enter);
            let expected = if listed { format!("x{c}y") } else { format!("{c}x{c}y{c}") };
            assert_eq!(app.data.tasks[0].title, expected);
        }
    }
}

#[test]
fn editing_keys_change_the_draft() {
    let mut app = empty();
    press(&mut app, KeyCode::Char('a'));
    assert_eq!(press(&mut app, KeyCode::Backspace), Request::Nothing);
    assert_eq!(app.draft.as_ref().unwrap().value, "");
    type_text(&mut app, "añq");
    press(&mut app, KeyCode::Backspace);
    assert_eq!(app.draft.as_ref().unwrap().value, "añ");
    let alt = KeyEvent { alt: true, ..key(KeyCode::Char('z')) };
    assert_eq!(app.handle_key(alt), Request::Nothing);
    assert_eq!(app.handle_key(control('c')), Request::Nothing);
    assert_eq!(app.draft.as_ref().unwrap().value, "añ");
    assert!(!app.should_quit);
    press(&mut app, KeyCode::Up);
    assert_eq!(app.draft.as_ref().unwrap().value, "añ");
    assert_eq!(app.handle_key(control('u')), Request::Nothing);
    assert_eq!(app.draft.as_ref().unwrap().value, "");
    press(&mut app, KeyCode::Esc);
    assert_eq!(app.draft, None);
    assert_eq!(app.status, "edit cancelled");
}

#[test]
fn a_draft_key_without_a_draft_does_nothing() {
    let mut app = three();
    assert_eq!(app.handle_draft_key(key(KeyCode::Enter)), Request::Nothing);
    assert_eq!(app, three());
}

#[test]
fn a_task_can_be_renamed() {
    let mut app = three();
    press(&mut app, KeyCode::Home);
    press(&mut app, KeyCode::Char('e'));
    assert_eq!(app.status, "rename task");
    assert_eq!(
        app.draft,
        Some(Draft { mode: DraftMode::Edit(1), value: "one".to_string() })
    );
    type_text(&mut app, "!");
    assert_eq!(press(&mut app, KeyCode::Enter), Request::Save(Change::Renamed));
    assert_eq!(app.data.tasks[0], task(1, "one!", false));
    assert_eq!(app.selected_id, Some(1));
    assert_eq!(app.status, "task updated");
}

#[test]
fn a_rename_of_a_missing_task_is_reported() {
    let mut app = three();
    assert_eq!(app.rename_task(77, "x".to_string()), Request::Nothing);
    assert_eq!(app.status, "task not found");
    assert_eq!(app.data, three().data);
}

#[test]
fn actions_need_a_selected_task() {
    for code in [KeyCode::Enter, KeyCode::Char('d'), KeyCode::Char('e')] {
        let mut app = empty();
        assert_eq!(press(&mut app, code), Request::Nothing);
        assert_eq!(app.status, "nothing selected");
    }
    for code in [KeyCode::Char(' '), KeyCode::Delete] {
        let mut app = three();
        app.selected_id = Some(77);
        assert_eq!(press(&mut app, code), Request::Nothing);
        assert_eq!(app.status, "task not found");
    }
    let mut app = three();
    app.selected_id = Some(77);
    press(&mut app, KeyCode::Char('e'));
    assert_eq!(app.status, "nothing selected");
}

#[test]
fn toggling_moves_the_selection_to_what_is_shown() {
    let mut app = three();
    press(&mut app, KeyCode::Char('2'));
    press(&mut app, KeyCode::Char('g'));
    press(&mut app, KeyCode::Down);
    assert_eq!(app.selected_id, Some(2));
    assert_eq!(
        press(&mut app, KeyCode::Char(' ')),
        Request::Save(Change::Toggled { completed: true })
    );
    assert_eq!(app.status, "marked as done");
    assert_eq!(app.visible_ids(), vec![1, 3]);
    assert_eq!(app.selected_id, Some(1));
    press(&mut app, KeyCode::Char('3'));
    assert_eq!(app.status, "filter -> Done");
    assert_eq!(app.selected_id, Some(2));
    assert_eq!(
        press(&mut app, KeyCode::Enter),
        Request::Save(Change::Toggled { completed: false })
    );
    assert_eq!(app.status, "moved back to active");
    assert_eq!(app.selected_id, None);
    assert_eq!(app.data, three().data);
}

#[test]
fn a_selected_task_can_be_removed() {
    let mut app = three();
    press(&mut app, KeyCode::Up);
    assert_eq!(press(&mut app, KeyCode::Char('d')), Request::Save(Change::Removed));
    assert_eq!(app.status, "task removed");
    assert_eq!(app.visible_ids(), vec![1, 3]);
    assert_eq!(app.selected_id, Some(1));
    assert_eq!(app.data.next_id, 4);
}

#[test]
fn a_purge_keeps_the_active_tasks() {
    let mut app = three();
    assert_eq!(press(&mut app, KeyCode::Char('x')), Request::Save(Change::Purged { count: 0 }));
    assert_eq!(app.status, "nothing to clean");
    press(&mut app, KeyCode::Char(' '));
    press(&mut app, KeyCode::Home);
    press(&mut app, KeyCode::Char(' '));
    assert_eq!(app.counts(), (3, 1, 2));
    assert_eq!(press(&mut app, KeyCode::Char('x')), Request::Save(Change::Purged { count: 2 }));
    assert_eq!(app.status, "removed 2 completed task(s)");
    assert_eq!(app.data.tasks, vec![task(2, "two", false)]);
    assert_eq!(app.selected_id, Some(2));
}

#[test]
fn a_large_purge_is_counted_in_decimal() {
    let tasks: Vec<Task> = (1..=1203).map(|id| task(id, "t", true)).collect();
    let mut app = App::load(Some(StoredState { next_id: 1204, tasks }), "p");
    press(&mut app, KeyCode::Char('x'));
    assert_eq!(app.status, "removed 1203 completed task(s)");
}

#[test]
fn the_selection_goes_round() {
    let mut app = three();
    assert_eq!(app.selected_id, Some(3));
    press(&mut app, KeyCode::Down);
    assert_eq!(app.selected_id, Some(1));
    press(&mut app, KeyCode::Char('j'));
    assert_eq!(app.selected_id, Some(2));
    press(&mut app, KeyCode::Char('k'));
    press(&mut app, KeyCode::Up);
    assert_eq!(app.selected_id, Some(3));
    press(&mut app, KeyCode::Char('g'));
    assert_eq!(app.selected_id, Some(1));
    press(&mut app, KeyCode::End);
    assert_eq!(app.selected_id, Some(3));
    press(&mut app, KeyCode::Home);
    press(&mut app, KeyCode::Char('G'));
    assert_eq!(app.selected_id, Some(3));
}

#[test]
fn a_hidden_selection_moves_as_from_the_first_place() {
    let mut app = three();
    app.selected_id = Some(77);
    app.select_next();
    assert_eq!(app.selected_id, Some(2));
    app.selected_id = Some(77);
    app.select_previous();
    assert_eq!(app.selected_id, Some(3));
    let mut app = empty();
    app.selected_id = Some(77);
    app.select_next();
    assert_eq!(app.selected_id, None);
    app.selected_id = Some(77);
    app.select_previous();
    assert_eq!(app.selected_id, None);
    app.selected_id = Some(77);
    app.select_first();
    assert_eq!(app.selected_id, None);
    app.selected_id = Some(77);
    app.select_last();
    assert_eq!(app.selected_id, None);
}

#[test]
fn filters_are_set_and_cycled() {
    let mut app = three();
    for (code, filter, status) in [
        (KeyCode::Char('2'), Filter::Active, "filter -> Active"),
        (KeyCode::Tab, Filter::Done, "filter -> Done"),
        (KeyCode::Char('/'), Filter::All, "filter -> All"),
        (KeyCode::Char('3'), Filter::Done, "filter -> Done"),
        (KeyCode::Char('1'), Filter::All, "filter -> All"),
    ] {
        assert_eq!(press(&mut app, code), Request::Nothing);
        assert_eq!(app.filter, filter);
        assert_eq!(app.status, status);
    }
    assert_eq!(Filter::All.tab_index(), 0);
    assert_eq!(Filter::Active.tab_index(), 1);
    assert_eq!(Filter::Done.tab_index(), 2);
    assert_eq!(Filter::Done.title(), "Done");
    assert!(Filter::Done.matches(&task(1, "a", true)));
    assert!(!Filter::Active.matches(&task(1, "a", true)));
    assert!(Filter::All.matches(&task(1, "a", true)));
}

#[test]
fn a_full_reset_has_to_be_confirmed() {
    let mut app = three();
    press(&mut app, KeyCode::Char('X'));
    assert!(app.confirm_clear_data);
    assert_eq!(app.status, "confirm full local reset");
    assert_eq!(press(&mut app, KeyCode::Char('q')), Request::Nothing);
    assert!(!app.should_quit);
    for code in [KeyCode::Esc, KeyCode::Char('n'), KeyCode::Char('N')] {
        app.confirm_clear_data = true;
        assert_eq!(press(&mut app, code), Request::Nothing);
        assert!(!app.confirm_clear_data);
        assert_eq!(app.status, "full reset cancelled");
        assert_eq!(app.data, three().data);
    }
    for code in [KeyCode::Char('y'), KeyCode::Char('Y')] {
        let mut app = three();
        press(&mut app, KeyCode::Char('3'));
        press(&mut app, KeyCode::Char('X'));
        assert_eq!(press(&mut app, code), Request::Erase);
        assert_eq!(app.data, StoredState::default());
        assert_eq!(app.filter, Filter::All);
        assert_eq!(app.selected_id, None);
        assert!(!app.confirm_clear_data);
        assert_eq!(app.status, "all local data removed");
    }
}

#[test]
fn a_failure_of_the_storage_comes_back() {
    let mut app = three();
    press(&mut app, KeyCode::Char('X'));
    let request = app.handle_key(key(KeyCode::Char('y')));
    assert_eq!(app.complete(request, Err("disk")), Err("disk"));
    assert_eq!(app.data, three().data);
    assert!(app.confirm_clear_data);
    let mut app = three();
    let request = app.handle_key(key(KeyCode::Char('d')));
    let before = app.status.clone();
    assert_eq!(app.complete(request, Err("disk")), Err("disk"));
    assert_eq!(app.status, before);
}

fn step(app: &mut App, turn: Turn, reply: Reply) -> Turn {
    assert!(app.can_advance(turn, reply));
    let next: Result<Turn, ()> = app.advance(turn, Ok(reply));
    next.unwrap()
}

fn read(app: &mut App, event: Event) -> Turn {
    assert_eq!(step(app, Turn::Draw, Reply::Done), Turn::Poll);
    assert_eq!(step(app, Turn::Poll, Reply::Ready(true)), Turn::Read);
    step(app, Turn::Read, Reply::Event(event))
}

#[test]
fn quit_keys_stop_the_loop() {
    for k in [key(KeyCode::Char('q')), control('c')] {
        let mut app = three();
        assert_eq!(step(&mut app, Turn::Draw, Reply::Done), Turn::Poll);
        assert_eq!(step(&mut app, Turn::Poll, Reply::Ready(false)), Turn::Draw);
        assert_eq!(read(&mut app, Event::Key(k)), Turn::Draw);
        assert!(app.should_quit);
        assert_eq!(step(&mut app, Turn::Draw, Reply::Done), Turn::Stop);
        assert_eq!(step(&mut app, Turn::Stop, Reply::Done), Turn::Stop);
    }
}

#[test]
fn quit_keys_are_text_in_a_draft_and_nothing_in_a_question() {
    let mut app = three();
    press(&mut app, KeyCode::Char('a'));
    press(&mut app, KeyCode::Char('q'));
    assert!(!app.should_quit);
    assert_eq!(app.handle_key(control('c')), Request::Nothing);
    assert!(!app.should_quit);
    let mut app = three();
    press(&mut app, KeyCode::Char('X'));
    press(&mut app, KeyCode::Char('q'));
    assert_eq!(app.handle_key(control('c')), Request::Nothing);
    assert!(!app.should_quit);
    assert!(app.confirm_clear_data);
    let mut app = three();
    press(&mut app, KeyCode::Char('c'));
    assert!(!app.should_quit);
}

#[test]
fn the_loop_handles_each_pressed_key_once_and_in_order() {
    let release = KeyEvent { kind: KeyEventKind::Release, ..key(KeyCode::Char('x')) };
    let mut app = empty();
    for event in [
        Event::Key(key(KeyCode::Char('a'))),
        Event::Key(key(KeyCode::Char('b'))),
        Event::Other,
        Event::Key(release),
        Event::Key(KeyEvent { kind: KeyEventKind::Repeat, ..key(KeyCode::Char('c')) }),
    ] {
        assert_eq!(read(&mut app, event), Turn::Draw);
    }
    assert_eq!(app.draft.as_ref().unwrap().value, "bc");
    let turn = read(&mut app, Event::Key(key(KeyCode::Enter)));
    assert_eq!(turn, Turn::Store(Request::Save(Change::Created)));
    assert_eq!(app.data.tasks, vec![task(1, "bc", false)]);
    assert_eq!(step(&mut app, turn, Reply::Done), Turn::Draw);
    let mut same = empty();
    add(&mut same, "bc");
    assert_eq!(app.status, same.status);
    assert_eq!(app.data, same.data);
}

#[test]
fn a_failed_turn_ends_the_loop_with_its_error() {
    for turn in [
        Turn::Draw,
        Turn::Poll,
        Turn::Read,
        Turn::Store(Request::Erase),
        Turn::Stop,
    ] {
        let mut app = three();
        let status = app.status.clone();
        assert_eq!(app.advance(turn, Err("broken")), Err("broken"));
        assert_eq!(app.data, three().data);
        assert_eq!(app.status, status);
        assert!(!app.should_quit);
    }
}

#[test]
fn a_turn_that_needs_a_further_identifier_is_known_before() {
    let mut app = App::load(Some(StoredState { next_id: u64::MAX, tasks: vec![] }), "p");
    press(&mut app, KeyCode::Char('a'));
    type_text(&mut app, "x");
    let enter = Reply::Event(Event::Key(key(KeyCode::Enter)));
    assert!(!app.can_advance(Turn::Read, enter));
    assert!(app.can_advance(Turn::Draw, enter));
    assert!(app.can_advance(Turn::Read, Reply::Done));
    assert!(app.can_advance(Turn::Read, Reply::Event(Event::Key(key(KeyCode::Esc)))));
}

#[test]
fn only_pressed_and_held_keys_count() {
    let q = key(KeyCode::Char('q'));
    for (event, quits) in [
        (Event::Key(q), true),
        (Event::Key(KeyEvent { kind: KeyEventKind::Repeat, ..q }), true),
        (Event::Key(KeyEvent { kind: KeyEventKind::Release, ..q }), false),
        (Event::Other, false),
        (Event::Key(key(KeyCode::Other)), false),
    ] {
        let mut app = three();
        assert_eq!(app.handle_event(event), Request::Nothing);
        assert_eq!(app.should_quit, quits);
    }
}

#[test]
fn the_last_identifier_is_not_given_out() {
    let mut app = App::load(Some(StoredState { next_id: u64::MAX, tasks: vec![] }), "p");
    press(&mut app, KeyCode::Char('a'));
    assert!(app.can_handle(key(KeyCode::Enter)));
    type_text(&mut app, "x");
    assert!(!app.can_handle(key(KeyCode::Enter)));
    assert!(app.can_handle(key(KeyCode::Esc)));
    app.data.next_id = u64::MAX - 1;
    assert!(app.can_handle(key(KeyCode::Enter)));
}

#[test]
fn of_two_tasks_with_one_identifier_the_first_is_meant() {
    let stored = StoredState { next_id: 3, tasks: vec![task(2, "a", false), task(2, "b", true)] };
    let mut app = App::load(Some(stored), "p");
    assert_eq!(app.task_index(2), Some(0));
    assert_eq!(app.selected_task().unwrap().title, "a");
    press(&mut app, KeyCode::Char('d'));
    assert_eq!(app.data.tasks, vec![task(2, "b", true)]);
    assert_eq!(app.selected_id, Some(2));
}
