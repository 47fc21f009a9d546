//! The mathematical model of the to-do list: its state, and what each action makes of it.

use crate::filter::Filter;
use crate::input::{Event, KeyCode, KeyEvent};
use crate::task::{StoredView, TaskView};
use crate::text::{decimal, trimmed};
use vstd::prelude::*;

verus! {

/// What a draft becomes: a new task, or the title of the task with an identifier.
#[derive(Clone, Copy, Debug, PartialEq, Eq, Structural)]
pub enum DraftMode {
    Add,
    Edit(u64),
}

/// A change of the stored state.
#[derive(Clone, Copy, Debug, PartialEq, Eq, Structural)]
pub enum Change {
    Created,
    Renamed,
    Toggled { completed: bool },
    Removed,
    Purged { count: usize },
}

/// What the storage has to do before an action is complete.
#[derive(Clone, Copy, Debug, PartialEq, Eq, Structural)]
pub enum Request {
    /// Nothing: the action is complete.
    Nothing,
    /// Write the stored state, in which the change has been made.
    Save(Change),
    /// Remove what is stored.
    Erase,
}

/// A turn of the event loop.
#[derive(Clone, Copy, Debug, PartialEq, Eq, Structural)]
pub enum Turn {
    /// Draw the list.
    Draw,
    /// Wait a while for input.
    Poll,
    /// Read the event that is there.
    Read,
    /// Have the storage do what an action asks for.
    Store(Request),
    /// Leave the loop.
    Stop,
}

/// How a turn of the event loop went.
#[derive(Clone, Copy, Debug, PartialEq, Eq, Structural)]
pub enum Reply {
    /// It is done.
    Done,
    /// Whether there is input.
    Ready(bool),
    /// What was read.
    Event(Event),
}

impl Reply {
    /// The event that was read; one that means nothing where none was.
    pub open spec fn read(self) -> Event {
        match self {
            Reply::Event(event) => event,
            _ => Event::Other,
        }
    }

    /// The event that was read; one that means nothing where none was.
    pub fn event(self) -> (r: Event)
        ensures
            r == self.read(),
    {
        match self {
            Reply::Event(event) => event,
            _ => Event::Other,
        }
    }
}

/// What a draft holds.
#[verifier::ext_equal]
pub struct DraftView {
    pub mode: DraftMode,
    pub value: Seq<char>,
}

/// What the to-do list holds.
#[verifier::ext_equal]
pub struct AppView {
    pub data: StoredView,
    pub filter: Filter,
    pub selected_id: Option<u64>,
    pub draft: Option<DraftView>,
    pub confirm_clear_data: bool,
    pub should_quit: bool,
    pub status: Seq<char>,
}

/// The tasks that a filter shows, in their order.
pub open spec fn shown(tasks: Seq<TaskView>, filter: Filter) -> Seq<TaskView> {
    tasks.filter(|t: TaskView| filter.accepts(t))
}

/// The identifiers of tasks.
pub open spec fn ids(tasks: Seq<TaskView>) -> Seq<u64> {
    tasks.map_values(|t: TaskView| t.id)
}

/// The first place at which `id` stands in `s`.
pub open spec fn position(s: Seq<u64>, id: u64) -> Option<nat>
    decreases s.len(),
{
    if s.len() == 0 {
        None
    } else if s.first() == id {
        Some(0)
    } else {
        match position(s.drop_first(), id) {
            Some(i) => Some(i + 1),
            None => None,
        }
    }
}

/// [`position`] gives a place of `id`, before which there is none, and gives none only where
/// `id` is missing.
pub proof fn lemma_position(s: Seq<u64>, id: u64)
    ensures
        match position(s, id) {
            Some(i) => i < s.len() && s[i as int] == id && forall|j: int|
                0 <= j < i ==> s[j] != id,
            None => !s.contains(id),
        },
    decreases s.len(),
{
    if s.len() > 0 {
        let rest = s.drop_first();
        assert(forall|j: int| 0 < j < s.len() ==> s[j] == rest[j - 1]);
        lemma_position(rest, id);
        if position(s, id) is None && s.contains(id) {
            let j = choose|j: int| 0 <= j < s.len() && s[j] == id;
            assert(rest[j - 1] == id);
        }
    }
}

/// A place of `id` before which there is none is its [`position`].
pub proof fn lemma_position_is(s: Seq<u64>, id: u64, i: int)
    requires
        0 <= i < s.len(),
        s[i] == id,
        forall|j: int| 0 <= j < i ==> s[j] != id,
    ensures
        position(s, id) == Some(i as nat),
{
    lemma_position(s, id);
}

/// What a filter shows of one task more.
pub proof fn lemma_shown_push(tasks: Seq<TaskView>, task: TaskView, filter: Filter)
    ensures
        shown(tasks.push(task), filter) == if filter.accepts(task) {
            shown(tasks, filter).push(task)
        } else {
            shown(tasks, filter)
        },
{
    reveal(Seq::filter);
    assert(tasks.push(task).drop_last() =~= tasks);
}

impl AppView {
    /// The list as it starts, with what was stored, or with no tasks where nothing was.
    pub open spec fn loaded(stored: Option<StoredView>, path: Seq<char>) -> AppView {
        AppView {
            data: match stored {
                Some(data) => data,
                None => StoredView::fresh(),
            },
            filter: Filter::All,
            selected_id: None,
            draft: None,
            confirm_clear_data: false,
            should_quit: false,
            status: "autosave -> "@ + path,
        }.ensure_selection()
    }

    /// The identifiers of the tasks that are shown.
    pub open spec fn visible(self) -> Seq<u64> {
        ids(shown(self.data.tasks, self.filter))
    }

    /// Where the selection stands among the tasks that are shown.
    pub open spec fn cursor(self) -> Option<nat> {
        match self.selected_id {
            Some(id) => position(self.visible(), id),
            None => None,
        }
    }

    /// The place of the first task with an identifier.
    pub open spec fn place(self, id: u64) -> Option<nat> {
        position(ids(self.data.tasks), id)
    }

    /// The place of the task that is selected.
    pub open spec fn selected_place(self) -> Option<nat> {
        match self.selected_id {
            Some(id) => self.place(id),
            None => None,
        }
    }

    /// How many tasks there are, how many of them are active, and how many done.
    pub open spec fn counts(self) -> (nat, nat, nat) {
        let done = shown(self.data.tasks, Filter::Done).len();
        (self.data.tasks.len(), (self.data.tasks.len() - done) as nat, done)
    }

    pub open spec fn with_status(self, status: Seq<char>) -> AppView {
        AppView { status, ..self }
    }

    pub open spec fn with_tasks(self, tasks: Seq<TaskView>) -> AppView {
        AppView { data: StoredView { tasks, ..self.data }, ..self }
    }

    /// The selection stays where it is shown, and else goes to the first task that is.
    pub open spec fn ensure_selection(self) -> AppView {
        if self.cursor() is Some {
            self
        } else {
            self.select_first()
        }
    }

    pub open spec fn select_first(self) -> AppView {
        let v = self.visible();
        AppView { selected_id: if v.len() > 0 { Some(v.first()) } else { None }, ..self }
    }

    pub open spec fn select_last(self) -> AppView {
        let v = self.visible();
        AppView { selected_id: if v.len() > 0 { Some(v.last()) } else { None }, ..self }
    }

    /// The place from which the selection moves: the first one where it is not shown.
    pub open spec fn cursor_or_first(self) -> nat {
        match self.cursor() {
            Some(i) => i,
            None => 0,
        }
    }

    /// The selection moves one place down, and from the last place to the first.
    pub open spec fn select_next(self) -> AppView {
        let v = self.visible();
        AppView {
            selected_id: if v.len() > 0 {
                Some(v[(self.cursor_or_first() + 1) as int % v.len() as int])
            } else {
                None
            },
            ..self
        }
    }

    /// The selection moves one place up, and from the first place to the last.
    pub open spec fn select_previous(self) -> AppView {
        let v = self.visible();
        AppView {
            selected_id: if v.len() > 0 {
                Some(v[(self.cursor_or_first() - 1) % v.len() as int])
            } else {
                None
            },
            ..self
        }
    }

    pub open spec fn set_filter(self, filter: Filter) -> AppView {
        AppView { filter, ..self }.ensure_selection().with_status("filter -> "@ + filter.name())
    }

    pub open spec fn start_add(self) -> AppView {
        AppView {
            draft: Some(DraftView { mode: DraftMode::Add, value: Seq::empty() }),
            status: "new task"@,
            ..self
        }
    }

    pub open spec fn start_edit_selected(self) -> AppView {
        match self.selected_place() {
            None => self.with_status("nothing selected"@),
            Some(i) => {
                let task = self.data.tasks[i as int];
                AppView {
                    draft: Some(DraftView { mode: DraftMode::Edit(task.id), value: task.title }),
                    status: "rename task"@,
                    ..self
                }
            },
        }
    }

    pub open spec fn start_clear_data_confirmation(self) -> AppView {
        AppView { confirm_clear_data: true, status: "confirm full local reset"@, ..self }
    }

    /// A new active task at the end of the list is selected, under a filter that shows it.
    pub open spec fn create_task(self, title: Seq<char>) -> (AppView, Request) {
        let task = TaskView { id: self.data.next_id, title, completed: false };
        (
            AppView {
                data: StoredView {
                    next_id: (self.data.next_id + 1) as u64,
                    tasks: self.data.tasks.push(task),
                },
                filter: if self.filter == Filter::Done {
                    Filter::Active
                } else {
                    self.filter
                },
                selected_id: Some(task.id),
                ..self
            },
            Request::Save(Change::Created),
        )
    }

    pub open spec fn rename_task(self, id: u64, title: Seq<char>) -> (AppView, Request) {
        match self.place(id) {
            None => (self.with_status("task not found"@), Request::Nothing),
            Some(i) => (
                AppView {
                    selected_id: Some(id),
                    ..self.with_tasks(
                        self.data.tasks.update(
                            i as int,
                            TaskView { title, ..self.data.tasks[i as int] },
                        ),
                    )
                },
                Request::Save(Change::Renamed),
            ),
        }
    }

    /// What an action on the selected task reports where there is no such task.
    pub open spec fn no_selected_task(self) -> (AppView, Request) {
        (
            self.with_status(
                if self.selected_id is Some {
                    "task not found"@
                } else {
                    "nothing selected"@
                },
            ),
            Request::Nothing,
        )
    }

    pub open spec fn toggle_selected(self) -> (AppView, Request) {
        match self.selected_place() {
            None => self.no_selected_task(),
            Some(i) => {
                let task = self.data.tasks[i as int];
                let completed = !task.completed;
                (
                    self.with_tasks(
                        self.data.tasks.update(i as int, TaskView { completed, ..task }),
                    ),
                    Request::Save(Change::Toggled { completed }),
                )
            },
        }
    }

    pub open spec fn delete_selected(self) -> (AppView, Request) {
        match self.selected_place() {
            None => self.no_selected_task(),
            Some(i) => (
                self.with_tasks(self.data.tasks.remove(i as int)).ensure_selection(),
                Request::Save(Change::Removed),
            ),
        }
    }

    pub open spec fn purge_completed(self) -> (AppView, Request) {
        let kept = shown(self.data.tasks, Filter::Active);
        (
            self.with_tasks(kept).ensure_selection(),
            Request::Save(Change::Purged { count: (self.data.tasks.len() - kept.len()) as usize }),
        )
    }

    /// The list after a full reset.
    pub open spec fn cleared(self) -> AppView {
        AppView {
            data: StoredView::fresh(),
            filter: Filter::All,
            selected_id: None,
            draft: None,
            confirm_clear_data: false,
            should_quit: self.should_quit,
            status: "all local data removed"@,
        }
    }

    /// What is left of an action once the storage has done its part.
    pub open spec fn completed(self, request: Request) -> AppView {
        match request {
            Request::Nothing => self,
            Request::Erase => self.cleared(),
            Request::Save(Change::Created) => self.with_status("task created"@),
            Request::Save(Change::Renamed) => self.with_status("task updated"@),
            Request::Save(Change::Toggled { completed }) => self.ensure_selection().with_status(
                if completed {
                    "marked as done"@
                } else {
                    "moved back to active"@
                },
            ),
            Request::Save(Change::Removed) => self.with_status("task removed"@),
            Request::Save(Change::Purged { count }) => self.with_status(
                if count == 0 {
                    "nothing to clean"@
                } else {
                    "removed "@ + decimal(count as nat) + " completed task(s)"@
                },
            ),
        }
    }

    /// The draft, with another text in it.
    pub open spec fn with_draft_value(self, value: Seq<char>) -> AppView {
        match self.draft {
            Some(draft) => AppView { draft: Some(DraftView { value, ..draft }), ..self },
            None => self,
        }
    }

    /// What Enter makes of the draft.
    pub open spec fn submit_draft(self, draft: DraftView) -> (AppView, Request) {
        let closed = AppView { draft: None, ..self };
        let title = trimmed(draft.value);
        if title.len() == 0 {
            (closed.with_status("task title cannot be empty"@), Request::Nothing)
        } else {
            match draft.mode {
                DraftMode::Add => closed.create_task(title),
                DraftMode::Edit(id) => closed.rename_task(id, title),
            }
        }
    }

    /// What a key does while a draft is open.
    pub open spec fn handle_draft_key(self, key: KeyEvent) -> (AppView, Request) {
        match self.draft {
            None => (self, Request::Nothing),
            Some(draft) => match key.code {
                KeyCode::Esc => (
                    AppView { draft: None, status: "edit cancelled"@, ..self },
                    Request::Nothing,
                ),
                KeyCode::Enter => self.submit_draft(draft),
                KeyCode::Backspace => (
                    self.with_draft_value(
                        if draft.value.len() > 0 {
                            draft.value.drop_last()
                        } else {
                            draft.value
                        },
                    ),
                    Request::Nothing,
                ),
                KeyCode::Char(c) => (
                    if key.control && c == 'u' {
                        self.with_draft_value(Seq::empty())
                    } else if !key.control && !key.alt {
                        self.with_draft_value(draft.value.push(c))
                    } else {
                        self
                    },
                    Request::Nothing,
                ),
                _ => (self, Request::Nothing),
            },
        }
    }

    /// What a key does while a full reset waits for an answer.
    pub open spec fn handle_clear_confirm_key(self, key: KeyEvent) -> (AppView, Request) {
        match key.code {
            KeyCode::Esc | KeyCode::Char('n') | KeyCode::Char('N') => (
                AppView {
                    confirm_clear_data: false,
                    status: "full reset cancelled"@,
                    ..self
                },
                Request::Nothing,
            ),
            KeyCode::Char('y') | KeyCode::Char('Y') => (self, Request::Erase),
            _ => (self, Request::Nothing),
        }
    }

    /// What a key does while the list itself has the keyboard.
    pub open spec fn handle_list_key(self, key: KeyEvent) -> (AppView, Request) {
        if key.control && key.code == KeyCode::Char('c') {
            (AppView { should_quit: true, ..self }, Request::Nothing)
        } else {
            match key.code {
                KeyCode::Char('q') => (
                    AppView { should_quit: true, ..self },
                    Request::Nothing,
                ),
                KeyCode::Down | KeyCode::Char('j') => (self.select_next(), Request::Nothing),
                KeyCode::Up | KeyCode::Char('k') => (self.select_previous(), Request::Nothing),
                KeyCode::Home | KeyCode::Char('g') => (self.select_first(), Request::Nothing),
                KeyCode::End | KeyCode::Char('G') => (self.select_last(), Request::Nothing),
                KeyCode::Enter | KeyCode::Char(' ') => self.toggle_selected(),
                KeyCode::Char('a') => (self.start_add(), Request::Nothing),
                KeyCode::Char('e') => (self.start_edit_selected(), Request::Nothing),
                KeyCode::Char('d') | KeyCode::Delete => self.delete_selected(),
                KeyCode::Char('x') => self.purge_completed(),
                KeyCode::Char('X') => (self.start_clear_data_confirmation(), Request::Nothing),
                KeyCode::Char('1') => (self.set_filter(Filter::All), Request::Nothing),
                KeyCode::Char('2') => (self.set_filter(Filter::Active), Request::Nothing),
                KeyCode::Char('3') => (self.set_filter(Filter::Done), Request::Nothing),
                KeyCode::Tab | KeyCode::Char('/') => (
                    self.set_filter(self.filter.successor()),
                    Request::Nothing,
                ),
                _ => (self, Request::Nothing),
            }
        }
    }

    /// What a key does.
    pub open spec fn handle_key(self, key: KeyEvent) -> (AppView, Request) {
        if self.draft is Some {
            self.handle_draft_key(key)
        } else if self.confirm_clear_data {
            self.handle_clear_confirm_key(key)
        } else {
            self.handle_list_key(key)
        }
    }

    /// What an event does.
    pub open spec fn handle_event(self, event: Event) -> (AppView, Request) {
        match event.stroke() {
            Some(key) => self.handle_key(key),
            None => (self, Request::Nothing),
        }
    }

    /// Whether a key turns the draft into a new task.
    pub open spec fn creates_task(self, key: KeyEvent) -> bool {
        &&& key.code == KeyCode::Enter
        &&& self.draft is Some
        &&& self.draft->0.mode == DraftMode::Add
        &&& trimmed(self.draft->0.value).len() > 0
    }

    /// Whether a key can be handled: a new task needs an identifier after its own.
    pub open spec fn can_handle(self, key: KeyEvent) -> bool {
        self.creates_task(key) ==> self.data.next_id < u64::MAX
    }

    /// What a turn of the event loop leads to: every event ends in a drawing, after which the
    /// list stops or waits for input.
    pub open spec fn advance(self, turn: Turn, reply: Reply) -> (AppView, Turn) {
        match turn {
            Turn::Draw => (
                self,
                if self.should_quit {
                    Turn::Stop
                } else {
                    Turn::Poll
                },
            ),
            Turn::Poll => (
                self,
                if reply == Reply::Ready(true) {
                    Turn::Read
                } else {
                    Turn::Draw
                },
            ),
            Turn::Read => {
                let (next, request) = self.handle_event(reply.read());
                (
                    next,
                    if request == Request::Nothing {
                        Turn::Draw
                    } else {
                        Turn::Store(request)
                    },
                )
            },
            Turn::Store(request) => (self.completed(request), Turn::Draw),
            Turn::Stop => (self, Turn::Stop),
        }
    }

    /// Whether a turn can be handled: a new task needs an identifier after its own.
    pub open spec fn can_advance(self, turn: Turn, reply: Reply) -> bool {
        turn == Turn::Read && reply.read().stroke() is Some ==> self.can_handle(
            reply.read().stroke()->0,
        )
    }
}

} // verus!
