//! The to-do list: what is stored, what is shown and selected, and what each key does.

use crate::filter::Filter;
use crate::input::{Event, KeyCode, KeyEvent};
use crate::model::{
    ids, lemma_position, lemma_position_is, lemma_shown_push, position, shown, AppView, Change,
    DraftMode, DraftView, Reply, Request, Turn,
};
use crate::task::{task_views, StoredState, Task, TaskView};
use crate::text::to_decimal;
use vstd::prelude::*;

verus! {

/// A title that is being typed.
#[derive(Clone, Debug, PartialEq)]
pub struct Draft {
    pub mode: DraftMode,
    pub value: String,
}

impl View for Draft {
    type V = DraftView;

    open spec fn view(&self) -> DraftView {
        DraftView { mode: self.mode, value: self.value@ }
    }
}

/// What an optional draft holds.
pub open spec fn draft_view(draft: Option<Draft>) -> Option<DraftView> {
    match draft {
        Some(draft) => Some(draft@),
        None => None,
    }
}

/// The state of the to-do list.
#[derive(Debug, PartialEq)]
pub struct App {
    pub data: StoredState,
    pub filter: Filter,
    pub selected_id: Option<u64>,
    pub draft: Option<Draft>,
    pub confirm_clear_data: bool,
    pub should_quit: bool,
    pub status: String,
}

impl View for App {
    type V = AppView;

    open spec fn view(&self) -> AppView {
        AppView {
            data: self.data@,
            filter: self.filter,
            selected_id: self.selected_id,
            draft: draft_view(self.draft),
            confirm_clear_data: self.confirm_clear_data,
            should_quit: self.should_quit,
            status: self.status@,
        }
    }
}

/// How long the event loop waits for input before it draws again, in milliseconds.
pub const POLL_MILLIS: u64 = 200;

/// The first place at which `id` stands in `list`.
fn find(list: &Vec<u64>, id: u64) -> (r: Option<usize>)
    ensures
        match r {
            Some(i) => position(list@, id) == Some(i as nat) && i < list@.len(),
            None => position(list@, id) is None,
        },
{
    let mut i: usize = 0;
    while i < list.len()
        invariant
            i <= list@.len(),
            forall|j: int| 0 <= j < i ==> list@[j] != id,
        decreases list@.len() - i,
    {
        if list[i] == id {
            proof {
                lemma_position_is(list@, id, i as int);
            }
            return Some(i);
        }
        i += 1;
    }
    proof {
        lemma_position(list@, id);
    }
    None
}

/// One step back among `n` places, from the first to the last.
proof fn lemma_step_back(i: int, n: int)
    requires
        0 <= i < n,
    ensures
        (i - 1) % n == if i == 0 {
            n - 1
        } else {
            i - 1
        },
{
    if i == 0 {
        vstd::arithmetic::div_mod::lemma_fundamental_div_mod_converse(-1, n, -1, n - 1);
    } else {
        vstd::arithmetic::div_mod::lemma_small_mod((i - 1) as nat, n as nat);
    }
}

impl App {
    /// The list with what was stored under `path`, or an empty one where nothing was.
    pub fn load(stored: Option<StoredState>, path: &str) -> (r: App)
        ensures
            r@ == AppView::loaded(
                match stored {
                    Some(data) => Some(data@),
                    None => None,
                },
                path@,
            ),
    {
        let data = match stored {
            Some(data) => data,
            None => StoredState::default(),
        };
        let mut status = "autosave -> ".to_string();
        status.append(path);
        let mut app = App {
            data,
            filter: Filter::All,
            selected_id: None,
            draft: None,
            confirm_clear_data: false,
            should_quit: false,
            status,
        };
        app.ensure_selection();
        app
    }

    /// The identifiers of the tasks that are shown.
    pub fn visible_ids(&self) -> (r: Vec<u64>)
        ensures
            r@ == self@.visible(),
    {
        let mut visible: Vec<u64> = Vec::new();
        let ghost tasks = self@.data.tasks;
        let mut i: usize = 0;
        assert(tasks.take(0) =~= Seq::empty());
        assert(visible@ =~= ids(shown(tasks.take(0), self.filter))) by {
            reveal(Seq::filter);
        }
        while i < self.data.tasks.len()
            invariant
                tasks == task_views(self.data.tasks@),
                i <= self.data.tasks@.len(),
                visible@ == ids(shown(tasks.take(i as int), self.filter)),
            decreases self.data.tasks@.len() - i,
        {
            proof {
                lemma_shown_push(tasks.take(i as int), tasks[i as int], self.filter);
                assert(tasks.take(i + 1) =~= tasks.take(i as int).push(tasks[i as int]));
            }
            if self.filter.matches(&self.data.tasks[i]) {
                visible.push(self.data.tasks[i].id);
            }
            assert(visible@ =~= ids(shown(tasks.take(i + 1), self.filter)));
            i += 1;
        }
        assert(tasks.take(i as int) =~= tasks);
        visible
    }

    /// Where the selection stands among the tasks that are shown.
    pub fn selected_index_in_visible(&self) -> (r: Option<usize>)
        ensures
            match r {
                Some(i) => self@.cursor() == Some(i as nat),
                None => self@.cursor() is None,
            },
    {
        match self.selected_id {
            Some(id) => find(&self.visible_ids(), id),
            None => None,
        }
    }

    /// The place of the first task with an identifier.
    pub fn task_index(&self, id: u64) -> (r: Option<usize>)
        ensures
            match r {
                Some(i) => self@.place(id) == Some(i as nat) && i < self.data.tasks@.len(),
                None => self@.place(id) is None,
            },
    {
        let ghost all = ids(self@.data.tasks);
        let mut i: usize = 0;
        while i < self.data.tasks.len()
            invariant
                all == ids(task_views(self.data.tasks@)),
                i <= self.data.tasks@.len(),
                forall|j: int| 0 <= j < i ==> all[j] != id,
            decreases self.data.tasks@.len() - i,
        {
            if self.data.tasks[i].id == id {
                proof {
                    lemma_position_is(all, id, i as int);
                }
                return Some(i);
            }
            i += 1;
        }
        proof {
            lemma_position(all, id);
        }
        None
    }

    /// The task that is selected.
    pub fn selected_task(&self) -> (r: Option<&Task>)
        ensures
            match r {
                Some(task) => self@.selected_place() is Some && task@
                    == self@.data.tasks[self@.selected_place()->0 as int],
                None => self@.selected_place() is None,
            },
    {
        match self.selected_id {
            Some(id) => match self.task_index(id) {
                Some(i) => Some(&self.data.tasks[i]),
                None => None,
            },
            None => None,
        }
    }

    /// Keeps the selection where it is shown, and else moves it to the first task that is.
    pub fn ensure_selection(&mut self)
        ensures
            final(self)@ == old(self)@.ensure_selection(),
    {
        if self.selected_index_in_visible().is_none() {
            self.select_first();
        }
    }

    /// Selects the first task that is shown.
    pub fn select_first(&mut self)
        ensures
            final(self)@ == old(self)@.select_first(),
    {
        let visible = self.visible_ids();
        self.selected_id = if visible.len() > 0 {
            Some(visible[0])
        } else {
            None
        };
    }

    /// Selects the last task that is shown.
    pub fn select_last(&mut self)
        ensures
            final(self)@ == old(self)@.select_last(),
    {
        let visible = self.visible_ids();
        self.selected_id = if visible.len() > 0 {
            Some(visible[visible.len() - 1])
        } else {
            None
        };
    }

    /// Moves the selection one place down, and from the last place to the first.
    pub fn select_next(&mut self)
        ensures
            final(self)@ == old(self)@.select_next(),
    {
        let visible = self.visible_ids();
        if visible.len() == 0 {
            self.selected_id = None;
            return ;
        }
        let current = match self.selected_id {
            Some(id) => find(&visible, id).unwrap_or(0),
            None => 0,
        };
        let next: usize = (current + 1) % visible.len();
        self.selected_id = Some(visible[next]);
    }

    /// Moves the selection one place up, and from the first place to the last.
    pub fn select_previous(&mut self)
        ensures
            final(self)@ == old(self)@.select_previous(),
    {
        let visible = self.visible_ids();
        if visible.len() == 0 {
            self.selected_id = None;
            return ;
        }
        let current = match self.selected_id {
            Some(id) => find(&visible, id).unwrap_or(0),
            None => 0,
        };
        let previous: usize = if current == 0 {
            visible.len() - 1
        } else {
            current - 1
        };
        proof {
            lemma_step_back(current as int, visible@.len() as int);
        }
        self.selected_id = Some(visible[previous]);
    }

    /// Changes what is shown, and keeps the selection where it still is.
    pub fn set_filter(&mut self, filter: Filter)
        ensures
            final(self)@ == old(self)@.set_filter(filter),
    {
        self.filter = filter;
        self.ensure_selection();
        let mut status = "filter -> ".to_string();
        status.append(filter.title());
        self.status = status;
    }

    /// Opens an empty draft for a new task.
    pub fn start_add(&mut self)
        ensures
            final(self)@ == old(self)@.start_add(),
    {
        self.draft = Some(Draft { mode: DraftMode::Add, value: String::new() });
        self.status = "new task".to_string();
    }

    /// Opens a draft with the title of the selected task.
    pub fn start_edit_selected(&mut self)
        ensures
            final(self)@ == old(self)@.start_edit_selected(),
    {
        let draft = match self.selected_task() {
            Some(task) => Draft { mode: DraftMode::Edit(task.id), value: task.title.clone() },
            None => {
                self.status = "nothing selected".to_string();
                return ;
            },
        };
        self.draft = Some(draft);
        self.status = "rename task".to_string();
    }

    /// Asks whether everything is to be removed.
    pub fn start_clear_data_confirmation(&mut self)
        ensures
            final(self)@ == old(self)@.start_clear_data_confirmation(),
    {
        self.confirm_clear_data = true;
        self.status = "confirm full local reset".to_string();
    }

    /// Adds an active task with a title and selects it.
    pub fn create_task(&mut self, title: String) -> (r: Request)
        requires
            old(self).data.next_id < u64::MAX,
        ensures
            (final(self)@, r) == old(self)@.create_task(title@),
    {
        let id = self.data.next_id;
        let task = Task { id, title, completed: false };
        let ghost view = task@;
        self.data.next_id += 1;
        if matches!(self.filter, Filter::Done) {
            self.filter = Filter::Active;
        }
        self.selected_id = Some(id);
        self.data.tasks.push(task);
        proof {
            let tasks = old(self)@.data.tasks;
            assert(self@.data.tasks =~= tasks.push(view));
            lemma_shown_push(tasks, view, self.filter);
            let visible = self@.visible();
            assert(visible.last() == id);
            lemma_position(visible, id);
        }
        self.ensure_selection();
        Request::Save(Change::Created)
    }

    /// Gives the first task with an identifier another title and selects it.
    pub fn rename_task(&mut self, id: u64, title: String) -> (r: Request)
        ensures
            (final(self)@, r) == old(self)@.rename_task(id, title@),
    {
        match self.task_index(id) {
            Some(index) => {
                self.data.tasks[index].title = title;
                self.selected_id = Some(id);
                assert(self@.data.tasks =~= old(self)@.rename_task(id, title@).0.data.tasks);
                Request::Save(Change::Renamed)
            },
            None => {
                self.status = "task not found".to_string();
                Request::Nothing
            },
        }
    }

    /// Marks the selected task as done, or as active again.
    pub fn toggle_selected(&mut self) -> (r: Request)
        ensures
            (final(self)@, r) == old(self)@.toggle_selected(),
    {
        let id = match self.selected_id {
            Some(id) => id,
            None => {
                self.status = "nothing selected".to_string();
                return Request::Nothing;
            },
        };
        match self.task_index(id) {
            Some(index) => {
                let completed = !self.data.tasks[index].completed;
                self.data.tasks[index].completed = completed;
                assert(self@.data.tasks =~= old(self)@.toggle_selected().0.data.tasks);
                Request::Save(Change::Toggled { completed })
            },
            None => {
                self.status = "task not found".to_string();
                Request::Nothing
            },
        }
    }

    /// Removes the selected task.
    pub fn delete_selected(&mut self) -> (r: Request)
        ensures
            (final(self)@, r) == old(self)@.delete_selected(),
    {
        let id = match self.selected_id {
            Some(id) => id,
            None => {
                self.status = "nothing selected".to_string();
                return Request::Nothing;
            },
        };
        match self.task_index(id) {
            Some(index) => {
                let _ = self.data.tasks.remove(index);
                assert(self@.data.tasks =~= old(self)@.data.tasks.remove(index as int));
                self.ensure_selection();
                Request::Save(Change::Removed)
            },
            None => {
                self.status = "task not found".to_string();
                Request::Nothing
            },
        }
    }

    /// Removes the tasks that are done.
    pub fn purge_completed(&mut self) -> (r: Request)
        ensures
            (final(self)@, r) == old(self)@.purge_completed(),
    {
        let ghost tasks = self@.data.tasks;
        let before = self.data.tasks.len();
        let mut all: Vec<Task> = Vec::new();
        std::mem::swap(&mut all, &mut self.data.tasks);
        let ghost items = all@;
        assert(self@.data.tasks =~= shown(tasks.take(0), Filter::Active)) by {
            reveal(Seq::filter);
        }
        for task in it: all
            invariant
                before == tasks.len(),
                tasks == old(self)@.data.tasks,
                tasks == task_views(items),
                it.seq() == items,
                self@.data.tasks == shown(tasks.take(it.index() as int), Filter::Active),
                self@ == old(self)@.with_tasks(self@.data.tasks),
        {
            let ghost done = it.index() as int;
            let ghost kept = self@.data.tasks;
            proof {
                lemma_shown_push(tasks.take(done), task@, Filter::Active);
                assert(tasks.take(done + 1) =~= tasks.take(done).push(task@));
            }
            if !task.completed {
                self.data.tasks.push(task);
                assert(self@.data.tasks =~= kept.push(task@));
            }
        }
        proof {
            assert(tasks.take(tasks.len() as int) =~= tasks);
            tasks.lemma_filter_len(|t: TaskView| Filter::Active.accepts(t));
        }
        let count = before - self.data.tasks.len();
        self.ensure_selection();
        Request::Save(Change::Purged { count })
    }

    /// Puts the list back to where it is without anything stored.
    pub fn clear_all_data(&mut self)
        ensures
            final(self)@ == old(self)@.cleared(),
    {
        self.data = StoredState::default();
        self.filter = Filter::All;
        self.selected_id = None;
        self.draft = None;
        self.confirm_clear_data = false;
        self.status = "all local data removed".to_string();
    }

    /// Completes an action once the storage has tried to do its part. Where the storage failed,
    /// its error comes back and nothing more changes.
    pub fn complete<E>(&mut self, request: Request, outcome: Result<(), E>) -> (r: Result<(), E>)
        ensures
            r == outcome,
            final(self)@ == match outcome {
                Ok(_) => old(self)@.completed(request),
                Err(_) => old(self)@,
            },
    {
        if outcome.is_err() {
            return outcome;
        }
        match request {
            Request::Nothing => {},
            Request::Erase => self.clear_all_data(),
            Request::Save(Change::Created) => self.status = "task created".to_string(),
            Request::Save(Change::Renamed) => self.status = "task updated".to_string(),
            Request::Save(Change::Toggled { completed }) => {
                self.ensure_selection();
                self.status = if completed {
                    "marked as done".to_string()
                } else {
                    "moved back to active".to_string()
                };
            },
            Request::Save(Change::Removed) => self.status = "task removed".to_string(),
            Request::Save(Change::Purged { count }) => {
                self.status = if count == 0 {
                    "nothing to clean".to_string()
                } else {
                    let mut status = "removed ".to_string();
                    status.append(to_decimal(count as u64).as_str());
                    status.append(" completed task(s)");
                    status
                };
            },
        }
        outcome
    }

    /// How many tasks there are, how many of them are active, and how many done.
    pub fn counts(&self) -> (r: (usize, usize, usize))
        ensures
            (r.0 as nat, r.1 as nat, r.2 as nat) == self@.counts(),
    {
        let ghost tasks = self@.data.tasks;
        let total = self.data.tasks.len();
        let mut done: usize = 0;
        let mut i: usize = 0;
        assert(tasks.take(0) =~= Seq::empty());
        assert(shown(tasks.take(0), Filter::Done).len() == 0) by {
            reveal(Seq::filter);
        }
        while i < total
            invariant
                tasks == task_views(self.data.tasks@),
                i <= total == self.data.tasks@.len(),
                done <= i,
                done == shown(tasks.take(i as int), Filter::Done).len(),
            decreases total - i,
        {
            proof {
                lemma_shown_push(tasks.take(i as int), tasks[i as int], Filter::Done);
                assert(tasks.take(i + 1) =~= tasks.take(i as int).push(tasks[i as int]));
            }
            if self.data.tasks[i].completed {
                done += 1;
            }
            i += 1;
        }
        assert(tasks.take(i as int) =~= tasks);
        (total, total - done, done)
    }

    /// Handles a key while a draft is open, and does nothing where none is.
    pub fn handle_draft_key(&mut self, key: KeyEvent) -> (r: Request)
        requires
            old(self)@.can_handle(key),
        ensures
            (final(self)@, r) == old(self)@.handle_draft_key(key),
    {
        let mut draft = match self.draft.take() {
            Some(draft) => draft,
            None => return Request::Nothing,
        };
        match key.code {
            KeyCode::Esc => {
                self.status = "edit cancelled".to_string();
                Request::Nothing
            },
            KeyCode::Enter => {
                let title = draft.value.as_str().trim().to_string();
                if title.as_str().is_empty() {
                    self.status = "task title cannot be empty".to_string();
                    Request::Nothing
                } else {
                    match draft.mode {
                        DraftMode::Add => self.create_task(title),
                        DraftMode::Edit(id) => self.rename_task(id, title),
                    }
                }
            },
            KeyCode::Backspace => {
                let _ = draft.value.pop();
                self.draft = Some(draft);
                Request::Nothing
            },
            KeyCode::Char(c) => {
                if key.control && c == 'u' {
                    draft.value = String::new();
                } else if !key.control && !key.alt {
                    draft.value.push(c);
                }
                self.draft = Some(draft);
                Request::Nothing
            },
            _ => {
                self.draft = Some(draft);
                Request::Nothing
            },
        }
    }

    /// Handles a key while a full reset waits for an answer.
    pub fn handle_clear_confirm_key(&mut self, key: KeyEvent) -> (r: Request)
        ensures
            (final(self)@, r) == old(self)@.handle_clear_confirm_key(key),
    {
        match key.code {
            KeyCode::Esc | KeyCode::Char('n') | KeyCode::Char('N') => {
                self.confirm_clear_data = false;
                self.status = "full reset cancelled".to_string();
                Request::Nothing
            },
            KeyCode::Char('y') | KeyCode::Char('Y') => Request::Erase,
            _ => Request::Nothing,
        }
    }

    /// Handles a key, and says what the storage has to do before the action is complete.
    pub fn handle_key(&mut self, key: KeyEvent) -> (r: Request)
        requires
            old(self)@.can_handle(key),
        ensures
            (final(self)@, r) == old(self)@.handle_key(key),
    {
        if self.draft.is_some() {
            return self.handle_draft_key(key);
        }
        if self.confirm_clear_data {
            return self.handle_clear_confirm_key(key);
        }
        if key.control && key.code == KeyCode::Char('c') {
            self.should_quit = true;
            return Request::Nothing;
        }
        match key.code {
            KeyCode::Char('q') => self.should_quit = true,
            KeyCode::Down | KeyCode::Char('j') => self.select_next(),
            KeyCode::Up | KeyCode::Char('k') => self.select_previous(),
            KeyCode::Home | KeyCode::Char('g') => self.select_first(),
            KeyCode::End | KeyCode::Char('G') => self.select_last(),
            KeyCode::Enter | KeyCode::Char(' ') => return self.toggle_selected(),
            KeyCode::Char('a') => self.start_add(),
            KeyCode::Char('e') => self.start_edit_selected(),
            KeyCode::Char('d') | KeyCode::Delete => return self.delete_selected(),
            KeyCode::Char('x') => return self.purge_completed(),
            KeyCode::Char('X') => self.start_clear_data_confirmation(),
            KeyCode::Char('1') => self.set_filter(Filter::All),
            KeyCode::Char('2') => self.set_filter(Filter::Active),
            KeyCode::Char('3') => self.set_filter(Filter::Done),
            KeyCode::Tab | KeyCode::Char('/') => self.set_filter(self.filter.next()),
            _ => {},
        }
        Request::Nothing
    }

    /// Handles an event, and says what the storage has to do before the action is complete.
    pub fn handle_event(&mut self, event: Event) -> (r: Request)
        requires
            event.stroke() is Some ==> old(self)@.can_handle(event.stroke()->0),
        ensures
            (final(self)@, r) == old(self)@.handle_event(event),
    {
        match event.pressed() {
            Some(key) => self.handle_key(key),
            None => Request::Nothing,
        }
    }

    /// Whether a key can be handled: a new task needs an identifier after its own.
    pub fn can_handle(&self, key: KeyEvent) -> (r: bool)
        ensures
            r == self@.can_handle(key),
    {
        if key.code != KeyCode::Enter {
            return true;
        }
        match &self.draft {
            Some(draft) => match draft.mode {
                DraftMode::Add => draft.value.as_str().trim().is_empty() || self.data.next_id
                    < u64::MAX,
                DraftMode::Edit(_) => true,
            },
            None => true,
        }
    }

    /// Takes a turn of the event loop into account, and says which comes next. A turn that
    /// failed ends the loop with its error.
    pub fn advance<E>(&mut self, turn: Turn, reply: Result<Reply, E>) -> (r: Result<Turn, E>)
        requires
            reply is Ok ==> old(self)@.can_advance(turn, reply->Ok_0),
        ensures
            match reply {
                Ok(reply) => r is Ok && (final(self)@, r->Ok_0) == old(self)@.advance(turn, reply),
                Err(error) => r == Err::<Turn, E>(error) && final(self)@ == old(self)@,
            },
    {
        let reply = match reply {
            Ok(reply) => reply,
            Err(error) => return Err(error),
        };
        match turn {
            Turn::Draw => if self.should_quit {
                Ok(Turn::Stop)
            } else {
                Ok(Turn::Poll)
            },
            Turn::Poll => if reply == Reply::Ready(true) {
                Ok(Turn::Read)
            } else {
                Ok(Turn::Draw)
            },
            Turn::Read => {
                let request = self.handle_event(reply.event());
                if request == Request::Nothing {
                    Ok(Turn::Draw)
                } else {
                    Ok(Turn::Store(request))
                }
            },
            Turn::Store(request) => match self.complete(request, Ok(())) {
                Ok(_) => Ok(Turn::Draw),
                Err(error) => Err(error),
            },
            Turn::Stop => Ok(Turn::Stop),
        }
    }

    /// Whether a turn can be handled: a new task needs an identifier after its own.
    pub fn can_advance(&self, turn: Turn, reply: Reply) -> (r: bool)
        ensures
            r == self@.can_advance(turn, reply),
    {
        if turn != Turn::Read {
            return true;
        }
        match reply.event().pressed() {
            Some(key) => self.can_handle(key),
            None => true,
        }
    }
}

} // verus!
