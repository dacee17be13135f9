use vstd::prelude::*;

verus! {

/// A single to-do entry.
pub struct Item {
    pub id: usize,
    pub title: String,
    pub content: String,
}

/// The mathematical value of an [`Item`].
pub struct ItemView {
    pub id: nat,
    pub title: Seq<char>,
    pub content: Seq<char>,
}

impl View for Item {
    type V = ItemView;

    open spec fn view(&self) -> ItemView {
        ItemView { id: self.id as nat, title: self.title@, content: self.content@ }
    }
}

/// The text typed into an add or edit popup.
pub struct Draft {
    pub title: String,
    pub content: String,
}

/// The mathematical value of a [`Draft`].
pub struct DraftView {
    pub title: Seq<char>,
    pub content: Seq<char>,
}

impl View for Draft {
    type V = DraftView;

    open spec fn view(&self) -> DraftView {
        DraftView { title: self.title@, content: self.content@ }
    }
}

impl Draft {
    /// A draft with both fields empty.
    pub fn empty() -> (r: Draft)
        ensures
            r@.title == Seq::<char>::empty(),
            r@.content == Seq::<char>::empty(),
    {
        Draft { title: String::new(), content: String::new() }
    }
}

/// Whether the session goes on.
#[derive(Clone, Copy, Debug, Default, PartialEq, Eq, Structural)]
pub enum RunningState {
    #[default]
    Running,
    Done,
}

/// Which overlay, if any, is drawn over the task list.
#[derive(Clone, Copy, Debug, PartialEq, Eq, Structural)]
pub enum Mode {
    Normal,
    AddPopup,
    EditPopup,
    DeletePopup,
}

/// A request to change the model, produced from one input event.
pub enum Message {
    MoveUp,
    MoveDown,
    Add,
    Edit,
    Delete,
    Cancel,
    Confirm(Draft),
    Quit,
    NoOp,
}

/// A key press, as far as the translator tells keys apart.
#[derive(Clone, Copy, Debug, PartialEq, Eq, Structural)]
pub enum Key {
    Char(char),
    Up,
    Down,
    Enter,
    Esc,
    Other,
}

/// One entry of the footer legend: the key to press, what it does, and the
/// message it stands for.
pub struct MenuItem {
    pub key: String,
    pub label: String,
    pub action: Message,
}

/// The command line: the path of the task file.
pub struct Cli {
    pub path: String,
}

} // verus!
