use todo_rust::app::App;
use todo_rust::filter::Filter;
use todo_rust::input::{Event, KeyCode, KeyEvent, KeyEventKind};
use todo_rust::model::{Change, Reply, Request, Turn};
use todo_rust::storage::{storage_path, EraseStep};
use todo_rust::task::{StoredState, Task};

fn key(code: KeyCode) -> KeyEvent {
    KeyEvent { code, control: false, alt: false, kind: KeyEventKind::Press }
}

fn press(app: &mut App, code: KeyCode) -> Request {
    let request = app.handle_event(Event::Key(key(code)));
    let outcome: Result<(), ()> = app.complete(request, Ok(()));
    assert_eq!(outcome, Ok(()));
    request
}

fn sample() -> App {
    let tasks = (1..=5)
        .map(|id| Task { id, title: format!("t{id}"), completed: id % 2 == 0 })
        .collect();
    App::load(Some(StoredState { next_id: 6, tasks }), "p")
}

fn copy(data: &StoredState) -> StoredState {
    StoredState { next_id: data.next_id, tasks: data.tasks.clone() }
}

fn is_sound(app: &App) -> bool {
    let visible = app.visible_ids();
    match app.selected_id {
        Some(id) => visible.contains(&id),
        None => visible.is_empty(),
    }
}

fn all_codes() -> Vec<KeyCode> {
    let mut codes = vec![
        KeyCode::Esc,
        KeyCode::Enter,
        KeyCode::Backspace,
        KeyCode::Delete,
        KeyCode::Tab,
        KeyCode::Up,
        KeyCode::Down,
        KeyCode::Home,
        KeyCode::End,
        KeyCode::Other,
    ];
    for c in "qjkgG aedxX123/yYnNz".chars() {
        codes.push(KeyCode::Char(c));
    }
    codes
}

#[test]
fn three_filters_make_a_cycle() {
    for f in [Filter::All, Filter::Active, Filter::Done] {
        assert_eq!(f.next().next().next(), f);
        assert_eq!(f.next().tab_index(), (f.tab_index() + 1) % 3);
    }
}

#[test]
fn counts_add_up() {
    let (total, active, done) = sample().counts();
    assert_eq!((total, active, done), (5, 3, 2));
    assert_eq!(total, active + done);
}

#[test]
fn the_list_stays_sound_and_saves_what_it_changes() {
    let codes = all_codes();
    let mut app = sample();
    let mut state: u32 = 7;
    for _ in 0..20000 {
        state = state.wrapping_mul(1664525).wrapping_add(1013904223);
        let code = codes[(state >> 16) as usize % codes.len()];
        let before = copy(&app.data);
        let request = app.handle_event(Event::Key(key(code)));
        match request {
            Request::Nothing => assert_eq!(app.data, before),
            Request::Save(_) => {}
            Request::Erase => assert_eq!(app.data, before),
        }
        let saved = copy(&app.data);
        let outcome: Result<(), ()> = app.complete(request, Ok(()));
        assert_eq!(outcome, Ok(()));
        match request {
            Request::Erase => assert_eq!(app.data, StoredState::default()),
            _ => assert_eq!(app.data, saved),
        }
        assert!(is_sound(&app));
        assert!(app.draft.is_none() || !app.confirm_clear_data);
        let mut ids: Vec<u64> = app.data.tasks.iter().map(|t| t.id).collect();
        let n = ids.len();
        ids.sort();
        ids.dedup();
        assert_eq!(ids.len(), n);
        assert!(ids.iter().all(|id| *id < app.data.next_id));
        assert!(app.data.tasks.iter().all(|t| !t.title.is_empty() && t.title.trim() == t.title));
        app.should_quit = false;
    }
}

#[test]
fn steps_undo_each_other_and_go_round() {
    for f in [Filter::All, Filter::Active, Filter::Done] {
        let mut app = sample();
        app.set_filter(f);
        let n = app.visible_ids().len();
        for _ in 0..n {
            let here = app.selected_id;
            app.select_next();
            app.select_previous();
            assert_eq!(app.selected_id, here);
            app.select_previous();
            app.select_next();
            assert_eq!(app.selected_id, here);
            app.select_next();
        }
        assert_eq!(app.selected_id, Some(app.visible_ids()[0]));
    }
}

#[test]
fn toggling_twice_changes_nothing() {
    let mut app = sample();
    press(&mut app, KeyCode::Char('j'));
    let before = copy(&app.data);
    press(&mut app, KeyCode::Char(' '));
    assert_ne!(app.data, before);
    press(&mut app, KeyCode::Char(' '));
    assert_eq!(app.data, before);
    assert_eq!(app.selected_id, Some(2));
}

#[test]
fn purging_twice_is_purging_once() {
    let mut app = sample();
    press(&mut app, KeyCode::Char('x'));
    let once = copy(&app.data);
    assert_eq!(once.tasks.iter().map(|t| t.id).collect::<Vec<u64>>(), vec![1, 3, 5]);
    press(&mut app, KeyCode::Char('x'));
    assert_eq!(app.data, once);
    assert_eq!(app.status, "nothing to clean");
}

#[test]
fn backspace_takes_a_character_back() {
    let mut app = sample();
    press(&mut app, KeyCode::Char('e'));
    let before = app.draft.clone();
    press(&mut app, KeyCode::Char('é'));
    assert_ne!(app.draft, before);
    press(&mut app, KeyCode::Backspace);
    assert_eq!(app.draft, before);
}

#[test]
fn a_cancelled_draft_leaves_everything() {
    let mut app = sample();
    press(&mut app, KeyCode::Char('e'));
    for c in "qx3 dX".chars() {
        press(&mut app, KeyCode::Char(c));
    }
    press(&mut app, KeyCode::Esc);
    assert_eq!(app.data, sample().data);
    assert_eq!(app.filter, Filter::All);
    assert_eq!(app.selected_id, Some(1));
    assert!(!app.should_quit);
}

#[test]
fn a_removed_task_is_gone() {
    let mut app = sample();
    press(&mut app, KeyCode::Char('j'));
    press(&mut app, KeyCode::Char('d'));
    assert_eq!(app.task_index(2), None);
    assert_eq!(app.visible_ids(), vec![1, 3, 4, 5]);
    assert_eq!(app.selected_id, Some(1));
}

#[test]
fn a_removal_needs_no_room_for_further_identifiers() {
    let tasks = vec![
        Task { id: 9, title: "a".to_string(), completed: false },
        Task { id: 4, title: "b".to_string(), completed: false },
    ];
    let mut app = App::load(Some(StoredState { next_id: 1, tasks }), "p");
    assert_eq!(app.visible_ids(), vec![9, 4]);
    press(&mut app, KeyCode::Char('d'));
    assert_eq!(app.task_index(9), None);
    assert_eq!(app.visible_ids(), vec![4]);
    assert_eq!(app.selected_id, Some(4));
}

#[test]
fn the_file_lies_below_the_home_folder() {
    assert_eq!(storage_path(true), vec![".todo_rust", "tasks.json"]);
    assert_eq!(storage_path(false), vec![".", ".todo_rust", "tasks.json"]);
}

#[test]
fn erasing_removes_what_is_there() {
    for file in [false, true] {
        for folder in [false, true] {
            for empty in [false, true] {
                let mut removed = vec![];
                let mut step = EraseStep::FindFile;
                while step != EraseStep::Done {
                    let yes = match step {
                        EraseStep::FindFile => file,
                        EraseStep::FindFolder => folder,
                        EraseStep::InspectFolder => empty,
                        _ => {
                            removed.push(step);
                            true
                        }
                    };
                    step = step.next(yes);
                }
                let mut expected = vec![];
                if file {
                    expected.push(EraseStep::RemoveFile);
                }
                if folder && empty {
                    expected.push(EraseStep::RemoveFolder);
                }
                assert_eq!(removed, expected);
                assert_eq!(EraseStep::Done.next(true), EraseStep::Done);
            }
        }
    }
}

#[test]
fn a_restart_keeps_the_tasks() {
    let mut app = sample();
    press(&mut app, KeyCode::Char('3'));
    press(&mut app, KeyCode::Char('d'));
    let again = App::load(Some(copy(&app.data)), "p");
    assert_eq!(again.data, app.data);
    assert_eq!(again.visible_ids(), vec![1, 3, 4, 5]);
    assert_eq!(again.selected_id, Some(1));
}

#[test]
fn an_identifier_never_comes_back() {
    let mut app = sample();
    press(&mut app, KeyCode::Char('G'));
    assert_eq!(app.selected_id, Some(5));
    press(&mut app, KeyCode::Char('d'));
    assert_eq!(app.data.next_id, 6);
    press(&mut app, KeyCode::Char('a'));
    press(&mut app, KeyCode::Char('n'));
    press(&mut app, KeyCode::Enter);
    assert_eq!(app.data.tasks.last().unwrap().id, 6);
    assert_eq!(app.data.next_id, 7);
    press(&mut app, KeyCode::Char('d'));
    press(&mut app, KeyCode::Char('x'));
    assert_eq!(app.data.next_id, 7);
    press(&mut app, KeyCode::Char('X'));
    press(&mut app, KeyCode::Char('y'));
    assert_eq!(app.data.next_id, 1);
}

#[test]
fn the_storage_holds_what_is_drawn() {
    let mut app = sample();
    let mut stored = copy(&app.data);
    let mut saves = 0;
    for code in [
        KeyCode::Char('j'),
        KeyCode::Enter,
        KeyCode::Char('2'),
        KeyCode::Char('a'),
        KeyCode::Char('z'),
        KeyCode::Enter,
        KeyCode::Char('d'),
        KeyCode::Char('x'),
        KeyCode::Char('X'),
        KeyCode::Char('y'),
    ] {
        let mut turn = Turn::Read;
        let mut reply = Reply::Event(Event::Key(key(code)));
        while turn != Turn::Draw {
            assert!(app.can_advance(turn, reply));
            let next: Result<Turn, ()> = app.advance(turn, Ok(reply));
            turn = next.unwrap();
            reply = Reply::Done;
            match turn {
                Turn::Store(Request::Save(_)) => {
                    stored = copy(&app.data);
                    saves += 1;
                }
                Turn::Store(Request::Erase) => {
                    assert_eq!(app.data, stored);
                    stored = StoredState { next_id: 1, tasks: vec![] };
                }
                _ => {}
            }
        }
        assert_eq!(app.data, stored);
    }
    assert_eq!(saves, 4);
}

#[test]
fn a_failed_save_leaves_the_list_ahead_of_the_storage() {
    let mut app = sample();
    let stored = copy(&app.data);
    let event = Reply::Event(Event::Key(key(KeyCode::Char('d'))));
    let turn: Result<Turn, &str> = app.advance(Turn::Read, Ok(event));
    assert_eq!(turn, Ok(Turn::Store(Request::Save(Change::Removed))));
    assert_eq!(app.advance(turn.unwrap(), Err("full")), Err("full"));
    assert_eq!(stored.tasks.len(), 5);
    assert_eq!(app.data.tasks.len(), 4);
}

#[test]
fn a_restart_forgets_filter_and_draft() {
    let mut app = sample();
    press(&mut app, KeyCode::Char('3'));
    press(&mut app, KeyCode::Char('a'));
    let again = App::load(Some(copy(&app.data)), "p");
    assert_eq!(again.data, app.data);
    assert_eq!(again.filter, Filter::All);
    assert_eq!(again.draft, None);
    assert_eq!(again.selected_id, Some(1));
}
