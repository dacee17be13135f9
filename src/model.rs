use vstd::prelude::*;

use crate::codec::{
    fault_index, first_fault, items_from_records, load_outcome, parse_tasks, records_items, records_sound,
    records_view, LoadError, RawRecord,
};
use crate::store::{
    can_create, create_task, created, delete_task, edit_task, edited, tasks_view, tasks_wf,
};
use crate::types::{Draft, DraftView, Item, ItemView, Key, Message, Mode, RunningState};

verus! {

/// The whole state of a session.
pub struct App {
    task_selected: usize,
    items: Vec<Item>,
    state: RunningState,
    mode: Mode,
}

/// The mathematical value of an [`App`].
pub struct AppView {
    pub tasks: Seq<ItemView>,
    pub selected: nat,
    pub mode: Mode,
    pub running: RunningState,
}

/// The selection is a valid index, or 0 in an empty store.
pub open spec fn selection_ok(len: nat, selected: nat) -> bool {
    if len == 0 {
        selected == 0
    } else {
        selected < len
    }
}

/// `selected` brought into the valid range of a store of `len` tasks.
pub open spec fn clamp_selection(len: nat, selected: nat) -> nat {
    if len == 0 {
        0
    } else if selected >= len {
        (len - 1) as nat
    } else {
        selected
    }
}

/// A model whose store and selection are sound.
pub open spec fn model_wf(s: AppView) -> bool {
    tasks_wf(s.tasks) && selection_ok(s.tasks.len(), s.selected)
}

/// The model with a new mode.
pub open spec fn with_mode(s: AppView, mode: Mode) -> AppView {
    AppView { mode, ..s }
}

/// The effect of a confirmed popup.
pub open spec fn confirmed(s: AppView, d: DraftView) -> AppView {
    match s.mode {
        Mode::AddPopup => {
            if can_create(s.tasks, d) {
                AppView { tasks: s.tasks.push(created(s.tasks, d)), mode: Mode::Normal, ..s }
            } else {
                s
            }
        },
        Mode::EditPopup => {
            if s.tasks.len() == 0 {
                with_mode(s, Mode::Normal)
            } else if d.title.len() > 0 {
                AppView {
                    tasks: s.tasks.update(s.selected as int, edited(s.tasks[s.selected as int], d)),
                    mode: Mode::Normal,
                    ..s
                }
            } else {
                s
            }
        },
        Mode::DeletePopup => {
            if s.tasks.len() == 0 {
                with_mode(s, Mode::Normal)
            } else {
                let ts = s.tasks.remove(s.selected as int);
                AppView {
                    tasks: ts,
                    selected: clamp_selection(ts.len(), s.selected),
                    mode: Mode::Normal,
                    ..s
                }
            }
        },
        Mode::Normal => s,
    }
}

/// The model after `m`: one transition of the state machine.
pub open spec fn next_state(s: AppView, m: Message) -> AppView {
    if s.mode == Mode::Normal {
        match m {
            Message::MoveUp => {
                if s.tasks.len() > 0 && s.selected > 0 {
                    AppView { selected: (s.selected - 1) as nat, ..s }
                } else {
                    s
                }
            },
            Message::MoveDown => {
                if s.selected + 1 < s.tasks.len() {
                    AppView { selected: s.selected + 1, ..s }
                } else {
                    s
                }
            },
            Message::Add => with_mode(s, Mode::AddPopup),
            Message::Edit => if s.tasks.len() > 0 {
                with_mode(s, Mode::EditPopup)
            } else {
                s
            },
            Message::Delete => if s.tasks.len() > 0 {
                with_mode(s, Mode::DeletePopup)
            } else {
                s
            },
            Message::Quit => AppView { running: RunningState::Done, ..s },
            _ => s,
        }
    } else {
        match m {
            Message::Cancel => with_mode(s, Mode::Normal),
            Message::Confirm(d) => confirmed(s, d@),
            _ => s,
        }
    }
}

/// Whether `m` writes to the store, so that the store has to be saved.
pub open spec fn commits(s: AppView, m: Message) -> bool {
    match m {
        Message::Confirm(d) => match s.mode {
            Mode::AddPopup => can_create(s.tasks, d@),
            Mode::EditPopup => s.tasks.len() > 0 && d@.title.len() > 0,
            Mode::DeletePopup => s.tasks.len() > 0,
            Mode::Normal => false,
        },
        _ => false,
    }
}

/// What an open popup holds: the selected task's fields when editing, empty
/// fields otherwise.
pub open spec fn popup_draft(s: AppView) -> DraftView {
    if s.mode == Mode::EditPopup && s.selected < s.tasks.len() {
        DraftView {
            title: s.tasks[s.selected as int].title,
            content: s.tasks[s.selected as int].content,
        }
    } else {
        DraftView { title: Seq::empty(), content: Seq::empty() }
    }
}

/// The message that `key` stands for in mode `mode`, as far as its variant
/// goes.
pub open spec fn translates(mode: Mode, key: Key, m: Message) -> bool {
    match key {
        Key::Char('q') | Key::Esc => if mode == Mode::Normal {
            m is Quit
        } else {
            m is Cancel
        },
        Key::Up => m is MoveUp,
        Key::Down => m is MoveDown,
        Key::Char('a') => m is Add,
        Key::Char('e') => m is Edit,
        Key::Char('d') => m is Delete,
        Key::Enter => if mode == Mode::Normal {
            m is NoOp
        } else {
            m is Confirm
        },
        _ => m is NoOp,
    }
}

impl View for App {
    type V = AppView;

    closed spec fn view(&self) -> AppView {
        AppView {
            tasks: tasks_view(self.items@),
            selected: self.task_selected as nat,
            mode: self.mode,
            running: self.state,
        }
    }
}

impl App {
    /// A sound model.
    pub open spec fn wf(&self) -> bool {
        model_wf(self@)
    }

    /// An empty, running session in normal mode.
    pub fn new() -> (r: App)
        ensures
            r@.tasks.len() == 0,
            r@.selected == 0,
            r@.mode == Mode::Normal,
            r@.running == RunningState::Running,
            r.wf(),
    {
        App { task_selected: 0, items: Vec::new(), state: RunningState::Running, mode: Mode::Normal }
    }

    /// The tasks, in display order.
    pub fn tasks(&self) -> (r: &Vec<Item>)
        ensures
            tasks_view(r@) == self@.tasks,
    {
        &self.items
    }

    /// The index of the selected task.
    pub fn selected_index(&self) -> (r: usize)
        ensures
            r as nat == self@.selected,
    {
        self.task_selected
    }

    /// The active overlay.
    pub fn mode(&self) -> (r: Mode)
        ensures
            r == self@.mode,
    {
        self.mode
    }

    /// Whether the session goes on.
    pub fn state(&self) -> (r: RunningState)
        ensures
            r == self@.running,
    {
        self.state
    }

    /// Whether the run loop goes on.
    pub fn is_running(&self) -> (r: bool)
        ensures
            r == (self@.running == RunningState::Running),
    {
        self.state == RunningState::Running
    }

    /// Replaces the store with `items`, keeping the selection in range.
    fn install(&mut self, items: Vec<Item>)
        requires
            old(self).wf(),
            tasks_wf(tasks_view(items@)),
        ensures
            final(self)@ == (AppView {
                tasks: tasks_view(items@),
                selected: clamp_selection(items@.len(), old(self)@.selected),
                ..old(self)@
            }),
            final(self).wf(),
    {
        let len = items.len();
        self.items = items;
        if self.task_selected >= len {
            self.task_selected = if len == 0 {
                0
            } else {
                len - 1
            };
        }
    }

    /// Replaces the store with the tasks that `records` stand for, keeping
    /// the selection in range. On an error the model is unchanged; the first
    /// record at fault decides the error.
    pub fn load_records(&mut self, records: &Vec<RawRecord>) -> (r: Result<(), LoadError>)
        requires
            old(self).wf(),
        ensures
            r is Ok <==> records_sound(records_view(records@)),
            r is Ok ==> final(self)@ == (AppView {
                tasks: records_items(records_view(records@)),
                selected: clamp_selection(records@.len(), old(self)@.selected),
                ..old(self)@
            }),
            r is Err ==> final(self)@ == old(self)@,
            r is Err ==> first_fault(records_view(records@), fault_index(r->Err_0), r->Err_0),
            final(self).wf(),
    {
        match items_from_records(records) {
            Ok(items) => {
                self.install(items);
                Ok(())
            },
            Err(e) => Err(e),
        }
    }

    /// Replaces the store with the tasks of the task file `text`, keeping the
    /// selection in range and the mode. On an error the model is unchanged.
    pub fn reload(&mut self, text: &str) -> (r: Result<(), LoadError>)
        requires
            old(self).wf(),
        ensures
            load_outcome(
                text@,
                match r {
                    Ok(()) => Ok(final(self)@.tasks),
                    Err(e) => Err(e),
                },
            ),
            r is Err ==> final(self)@ == old(self)@,
            r is Ok ==> final(self)@.selected == clamp_selection(
                final(self)@.tasks.len(),
                old(self)@.selected,
            ),
            final(self)@.mode == old(self)@.mode,
            final(self)@.running == old(self)@.running,
            final(self).wf(),
    {
        match parse_tasks(text) {
            Ok(items) => {
                self.install(items);
                Ok(())
            },
            Err(e) => Err(e),
        }
    }

    /// Translates a key press into a message. Enter in a popup confirms what
    /// the popup holds.
    ///
    /// No key types into a popup: every key outside the table is `NoOp`. So
    /// Enter in the add popup confirms empty fields, which the update engine
    /// refuses, and a task is added only through a `Confirm` that carries its
    /// text.
    pub fn handle_key(&self, key: Key) -> (r: Message)
        requires
            self.wf(),
        ensures
            translates(self@.mode, key, r),
            r is Confirm ==> r->Confirm_0@ == popup_draft(self@),
    {
        match key {
            Key::Char('q') | Key::Esc => if self.mode == Mode::Normal {
                Message::Quit
            } else {
                Message::Cancel
            },
            Key::Up => Message::MoveUp,
            Key::Down => Message::MoveDown,
            Key::Char('a') => Message::Add,
            Key::Char('e') => Message::Edit,
            Key::Char('d') => Message::Delete,
            Key::Enter => if self.mode == Mode::Normal {
                Message::NoOp
            } else {
                Message::Confirm(self.popup_draft())
            },
            _ => Message::NoOp,
        }
    }

    /// What the open popup holds: the selected task's fields when editing,
    /// empty fields otherwise.
    pub fn popup_draft(&self) -> (r: Draft)
        requires
            self.wf(),
        ensures
            r@ == popup_draft(self@),
    {
        if self.mode == Mode::EditPopup && self.task_selected < self.items.len() {
            let t = &self.items[self.task_selected];
            Draft { title: t.title.clone(), content: t.content.clone() }
        } else {
            Draft::empty()
        }
    }

    /// Applies one message: the single transition of the state machine. The
    /// result says whether the store changed and has to be saved.
    pub fn update(&mut self, msg: Message) -> (save: bool)
        requires
            old(self).wf(),
        ensures
            final(self)@ == next_state(old(self)@, msg),
            final(self).wf(),
            save == commits(old(self)@, msg),
    {
        let ghost s = self@;
        let len = self.items.len();
        if self.mode == Mode::Normal {
            match msg {
                Message::MoveUp => {
                    if len > 0 && self.task_selected > 0 {
                        self.task_selected = self.task_selected - 1;
                    }
                },
                Message::MoveDown => {
                    if len > 0 && self.task_selected < len - 1 {
                        self.task_selected = self.task_selected + 1;
                    }
                },
                Message::Add => {
                    self.mode = Mode::AddPopup;
                },
                Message::Edit => {
                    if len > 0 {
                        self.mode = Mode::EditPopup;
                    }
                },
                Message::Delete => {
                    if len > 0 {
                        self.mode = Mode::DeletePopup;
                    }
                },
                Message::Quit => {
                    self.state = RunningState::Done;
                },
                _ => {},
            }
            assert(self@ =~= next_state(s, msg));
            false
        } else {
            match msg {
                Message::Cancel => {
                    self.mode = Mode::Normal;
                    assert(self@ =~= next_state(s, msg));
                    false
                },
                Message::Confirm(d) => self.confirm(d),
                _ => {
                    assert(self@ =~= next_state(s, msg));
                    false
                },
            }
        }
    }

    /// Applies the open popup's effect with `d` as what it holds.
    fn confirm(&mut self, d: Draft) -> (save: bool)
        requires
            old(self).wf(),
            old(self)@.mode != Mode::Normal,
        ensures
            final(self)@ == confirmed(old(self)@, d@),
            final(self).wf(),
            save == commits(old(self)@, Message::Confirm(d)),
    {
        let ghost s = self@;
        let ghost dv = d@;
        let len = self.items.len();
        match self.mode {
            Mode::AddPopup => {
                let ok = create_task(&mut self.items, d);
                if ok {
                    self.mode = Mode::Normal;
                    proof {
                        crate::store::lemma_create_keeps_wf(s.tasks, dv);
                    }
                }
                assert(self@ =~= confirmed(s, dv));
                ok
            },
            Mode::EditPopup => {
                if len == 0 {
                    self.mode = Mode::Normal;
                    assert(self@ =~= confirmed(s, dv));
                    return false;
                }
                let ok = edit_task(&mut self.items, self.task_selected, d);
                if ok {
                    self.mode = Mode::Normal;
                    proof {
                        lemma_edit_keeps_wf(s.tasks, s.selected as int, dv);
                    }
                }
                assert(self@ =~= confirmed(s, dv));
                ok
            },
            Mode::DeletePopup => {
                if len == 0 {
                    self.mode = Mode::Normal;
                    assert(self@ =~= confirmed(s, dv));
                    return false;
                }
                let ok = delete_task(&mut self.items, self.task_selected);
                let new_len = self.items.len();
                if self.task_selected >= new_len {
                    self.task_selected = if new_len == 0 {
                        0
                    } else {
                        new_len - 1
                    };
                }
                self.mode = Mode::Normal;
                proof {
                    lemma_remove_keeps_wf(s.tasks, s.selected as int);
                }
                assert(self@ =~= confirmed(s, dv));
                ok
            },
            Mode::Normal => false,
        }
    }
}

/// Overwriting one task's title and content with a non-empty title keeps the
/// store sound.
pub proof fn lemma_edit_keeps_wf(ts: Seq<ItemView>, i: int, d: DraftView)
    requires
        tasks_wf(ts),
        0 <= i < ts.len(),
        d.title.len() > 0,
    ensures
        tasks_wf(ts.update(i, edited(ts[i], d))),
{
    let ns = ts.update(i, edited(ts[i], d));
    assert forall|a: int| 0 <= a < ns.len() implies #[trigger] ns[a].id == ts[a].id by {}
    assert forall|a: int, b: int|
        0 <= a < ns.len() && 0 <= b < ns.len() && a != b implies #[trigger] ns[a].id
        != #[trigger] ns[b].id by {
        assert(ns[a].id == ts[a].id && ns[b].id == ts[b].id);
    }
}

/// Removing one task keeps the store sound.
pub proof fn lemma_remove_keeps_wf(ts: Seq<ItemView>, i: int)
    requires
        tasks_wf(ts),
        0 <= i < ts.len(),
    ensures
        tasks_wf(ts.remove(i)),
{
    let ns = ts.remove(i);
    assert forall|a: int| 0 <= a < ns.len() implies #[trigger] ns[a] == (if a < i {
        ts[a]
    } else {
        ts[a + 1]
    }) by {}
    assert forall|a: int, b: int|
        0 <= a < ns.len() && 0 <= b < ns.len() && a != b implies #[trigger] ns[a].id
        != #[trigger] ns[b].id by {
        let a2 = if a < i { a } else { a + 1 };
        let b2 = if b < i { b } else { b + 1 };
        assert(ns[a] == ts[a2] && ns[b] == ts[b2]);
    }
    assert forall|a: int| 0 <= a < ns.len() implies #[trigger] ns[a].title.len() > 0 by {
        let a2 = if a < i { a } else { a + 1 };
        assert(ns[a] == ts[a2]);
    }
}

} // verus!

verus! {

/// From a task that is neither the first nor the last, moving up and then
/// down returns to it, and so does moving down and then up.
pub proof fn lemma_up_down_returns(s: AppView)
    requires
        s.tasks.len() > 0,
        0 < s.selected,
        s.selected + 1 < s.tasks.len(),
    ensures
        next_state(next_state(s, Message::MoveUp), Message::MoveDown) == s,
        next_state(next_state(s, Message::MoveDown), Message::MoveUp) == s,
{
}

/// Moving up from the first task changes nothing, nor does moving down from
/// the last.
pub proof fn lemma_moves_stop_at_ends(s: AppView)
    requires
        model_wf(s),
    ensures
        s.selected == 0 ==> next_state(s, Message::MoveUp) == s,
        s.selected + 1 == s.tasks.len() ==> next_state(s, Message::MoveDown) == s,
{
}

/// Confirming the add popup with a non-empty title appends exactly one task,
/// with an id above every other task's, and returns to normal mode, keeping
/// the selection and the running state; the model stays sound.
pub proof fn lemma_add_appends_fresh(s: AppView, d: Draft)
    requires
        model_wf(s),
        s.mode == Mode::AddPopup,
        d@.title.len() > 0,
        crate::store::next_id(s.tasks) <= usize::MAX,
    ensures
        ({
            let n = next_state(s, Message::Confirm(d));
            &&& n.tasks.len() == s.tasks.len() + 1
            &&& n.tasks.drop_last() == s.tasks
            &&& n.tasks.last().title == d@.title
            &&& n.tasks.last().content == d@.content
            &&& forall|i: int| 0 <= i < s.tasks.len() ==> #[trigger] s.tasks[i].id < n.tasks.last().id
            &&& n.mode == Mode::Normal
            &&& n.selected == s.selected
            &&& n.running == s.running
            &&& model_wf(n)
        }),
{
    let n = next_state(s, Message::Confirm(d));
    crate::store::lemma_next_id_fresh(s.tasks);
    crate::store::lemma_create_keeps_wf(s.tasks, d@);
    assert(n.tasks.drop_last() =~= s.tasks);
}

/// Cancelling a popup leaves the store as it was and returns to normal mode.
pub proof fn lemma_cancel_keeps_tasks(s: AppView)
    requires
        s.mode != Mode::Normal,
    ensures
        next_state(s, Message::Cancel).tasks == s.tasks,
        next_state(s, Message::Cancel).mode == Mode::Normal,
{
}

/// Every transition keeps the model sound.
pub proof fn lemma_step_keeps_wf(s: AppView, m: Message)
    requires
        model_wf(s),
    ensures
        model_wf(next_state(s, m)),
{
    if s.mode != Mode::Normal {
        if let Message::Confirm(d) = m {
            match s.mode {
                Mode::AddPopup => if can_create(s.tasks, d@) {
                    crate::store::lemma_create_keeps_wf(s.tasks, d@);
                },
                Mode::EditPopup => if s.tasks.len() > 0 && d@.title.len() > 0 {
                    lemma_edit_keeps_wf(s.tasks, s.selected as int, d@);
                },
                Mode::DeletePopup => if s.tasks.len() > 0 {
                    lemma_remove_keeps_wf(s.tasks, s.selected as int);
                },
                Mode::Normal => {},
            }
        }
    }
}

/// A finished session stays finished.
pub proof fn lemma_done_stays_done(s: AppView, m: Message)
    requires
        s.running == RunningState::Done,
    ensures
        next_state(s, m).running == RunningState::Done,
{
}

} // verus!
