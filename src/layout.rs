use vstd::prelude::*;
use vstd::string::*;

use crate::model::{App, AppView};
use crate::store::tasks_view;
use crate::types::{Draft, MenuItem, Message, Mode};

verus! {

/// A rectangle of character cells.
///
/// The composer cuts the screen itself, with integer percentages rounded
/// down, so that every split is exact and the same on every run; the
/// rendering backend is handed finished rectangles and only paints them.
#[derive(Clone, Copy, Debug, PartialEq, Eq, Structural)]
pub struct Rect {
    pub x: u16,
    pub y: u16,
    pub width: u16,
    pub height: u16,
}

/// Width of a popup, in percent of the screen.
pub const POPUP_WIDTH_PERCENT: u16 = 60;

/// Height of a popup, in percent of the screen.
pub const POPUP_HEIGHT_PERCENT: u16 = 50;

/// The rectangle ends within the cell coordinates.
pub open spec fn rect_fits(r: Rect) -> bool {
    r.x + r.width <= u16::MAX && r.y + r.height <= u16::MAX
}

/// Height of the footer: one line, where the screen has one.
pub open spec fn footer_height(a: Rect) -> nat {
    if a.height >= 1 {
        1
    } else {
        0
    }
}

/// Everything above the footer.
pub open spec fn body_of(a: Rect) -> Rect {
    Rect { height: (a.height - footer_height(a)) as u16, ..a }
}

/// The bottom line of the screen.
pub open spec fn footer_of(a: Rect) -> Rect {
    Rect {
        x: a.x,
        y: (a.y + a.height - footer_height(a)) as u16,
        width: a.width,
        height: footer_height(a) as u16,
    }
}

/// The body less a one-column margin on the left and the right; no width at
/// all where the body is narrower than two columns.
pub open spec fn margin_inner(b: Rect) -> Rect {
    if b.width >= 2 {
        Rect { x: (b.x + 1) as u16, width: (b.width - 2) as u16, ..b }
    } else {
        Rect { width: 0, ..b }
    }
}

/// The list pane: the left 60% of the body's inner width, rounded down.
pub open spec fn list_pane(b: Rect) -> Rect {
    let i = margin_inner(b);
    Rect { width: (i.width * 60 / 100) as u16, ..i }
}

/// The description pane: the rest of the body's inner width.
pub open spec fn desc_pane(b: Rect) -> Rect {
    let i = margin_inner(b);
    let w = i.width * 60 / 100;
    Rect { x: (i.x + w) as u16, width: (i.width - w) as u16, ..i }
}

/// A rectangle of `px` by `py` percent of `r`, rounded down, centred in `r`
/// with the spare cells split evenly and the odd one after it.
pub open spec fn centered(px: nat, py: nat, r: Rect) -> Rect {
    let w = r.width * px / 100;
    let h = r.height * py / 100;
    Rect {
        x: (r.x + (r.width - w) / 2) as u16,
        y: (r.y + (r.height - h) / 2) as u16,
        width: w as u16,
        height: h as u16,
    }
}

/// Cuts a centred rectangle of `percent_x` by `percent_y` percent out of `rect`.
pub fn centered_rect(percent_x: u16, percent_y: u16, rect: Rect) -> (r: Rect)
    requires
        percent_x <= 100,
        percent_y <= 100,
        rect_fits(rect),
    ensures
        r == centered(percent_x as nat, percent_y as nat, rect),
        rect_fits(r),
        rect.x <= r.x,
        r.x + r.width <= rect.x + rect.width,
        rect.y <= r.y,
        r.y + r.height <= rect.y + rect.height,
{
    assert((rect.width as u32) * (percent_x as u32) <= 6553500) by (nonlinear_arith)
        requires
            rect.width <= 65535,
            percent_x <= 100,
    ;
    assert((rect.height as u32) * (percent_y as u32) <= 6553500) by (nonlinear_arith)
        requires
            rect.height <= 65535,
            percent_y <= 100,
    ;
    let w: u32 = (rect.width as u32) * (percent_x as u32) / 100;
    let h: u32 = (rect.height as u32) * (percent_y as u32) / 100;
    assert(w <= rect.width) by (nonlinear_arith)
        requires
            w == (rect.width as u32) * (percent_x as u32) / 100,
            percent_x <= 100,
    ;
    assert(h <= rect.height) by (nonlinear_arith)
        requires
            h == (rect.height as u32) * (percent_y as u32) / 100,
            percent_y <= 100,
    ;
    let x = rect.x + ((rect.width as u32 - w) / 2) as u16;
    let y = rect.y + ((rect.height as u32 - h) / 2) as u16;
    Rect { x, y, width: w as u16, height: h as u16 }
}

/// One line of the list pane.
pub struct ListLine {
    pub text: String,
    pub highlighted: bool,
}

/// The modal panel drawn over the body and the footer: its bordered area,
/// the area inside the border, the two input fields that adding and editing
/// show, and the question that deleting asks.
pub struct Popup {
    pub area: Rect,
    pub inner: Rect,
    pub title_area: Rect,
    pub content_area: Rect,
    pub kind: Mode,
    pub heading: String,
    pub title: String,
    pub content: String,
    pub prompt: String,
}

/// What one frame shows: the regions and what goes into each.
pub struct RenderTree {
    pub body: Rect,
    pub list_area: Rect,
    pub desc_area: Rect,
    pub footer: Rect,
    pub lines: Vec<ListLine>,
    pub description: String,
    pub legend: Vec<MenuItem>,
    pub popup: Option<Popup>,
}

/// The mathematical value of a [`Popup`].
pub struct PopupView {
    pub area: Rect,
    pub inner: Rect,
    pub title_area: Rect,
    pub content_area: Rect,
    pub kind: Mode,
    pub heading: Seq<char>,
    pub title: Seq<char>,
    pub content: Seq<char>,
    pub prompt: Seq<char>,
}

/// The mathematical value of a [`RenderTree`]: the legend's entries as
/// pairs of key and label.
pub struct TreeView {
    pub body: Rect,
    pub list_area: Rect,
    pub desc_area: Rect,
    pub footer: Rect,
    pub lines: Seq<(Seq<char>, bool)>,
    pub description: Seq<char>,
    pub legend: Seq<(Seq<char>, Seq<char>)>,
    pub popup: Option<PopupView>,
}

impl View for Popup {
    type V = PopupView;

    open spec fn view(&self) -> PopupView {
        PopupView {
            area: self.area,
            inner: self.inner,
            title_area: self.title_area,
            content_area: self.content_area,
            kind: self.kind,
            heading: self.heading@,
            title: self.title@,
            content: self.content@,
            prompt: self.prompt@,
        }
    }
}

impl View for RenderTree {
    type V = TreeView;

    open spec fn view(&self) -> TreeView {
        TreeView {
            body: self.body,
            list_area: self.list_area,
            desc_area: self.desc_area,
            footer: self.footer,
            lines: self.lines@.map_values(|l: ListLine| (l.text@, l.highlighted)),
            description: self.description@,
            legend: self.legend@.map_values(|m: MenuItem| (m.key@, m.label@)),
            popup: match self.popup {
                Some(p) => Some(p@),
                None => None,
            },
        }
    }
}

/// The footer legend: key and label of each command, in order.
pub open spec fn legend_entries() -> Seq<(Seq<char>, Seq<char>)> {
    seq![
        ("Q/ESC"@, "Quit"@),
        ("\u{2191}"@, "Up"@),
        ("\u{2193}"@, "Down"@),
        ("A/a"@, "Add Task"@),
        ("E/e"@, "Edit Task"@),
        ("D/d"@, "Delete Task"@),
    ]
}

/// The messages that the legend's entries stand for, in order.
pub open spec fn legend_actions(items: Seq<MenuItem>) -> bool {
    &&& items.len() == 6
    &&& items[0].action is Quit
    &&& items[1].action is MoveUp
    &&& items[2].action is MoveDown
    &&& items[3].action is Add
    &&& items[4].action is Edit
    &&& items[5].action is Delete
}

/// One line per task, in store order; the selected one highlighted.
pub open spec fn list_lines(s: AppView) -> Seq<(Seq<char>, bool)> {
    Seq::new(s.tasks.len(), |i: int| (s.tasks[i].title, i == s.selected))
}

/// The selected task's content; empty where there is no task.
pub open spec fn description_of(s: AppView) -> Seq<char> {
    if s.selected < s.tasks.len() {
        s.tasks[s.selected as int].content
    } else {
        Seq::empty()
    }
}

/// The heading of the popup of mode `m`.
pub open spec fn heading_of(m: Mode) -> Seq<char> {
    match m {
        Mode::AddPopup => "Add a Task"@,
        Mode::EditPopup => "Edit Task"@,
        Mode::DeletePopup => "Delete Task"@,
        Mode::Normal => Seq::empty(),
    }
}

/// The area inside a one-cell border; empty where there is no room for one.
pub open spec fn panel_inner(r: Rect) -> Rect {
    if r.width >= 2 && r.height >= 2 {
        Rect {
            x: (r.x + 1) as u16,
            y: (r.y + 1) as u16,
            width: (r.width - 2) as u16,
            height: (r.height - 2) as u16,
        }
    } else {
        Rect { width: 0, height: 0, ..r }
    }
}

/// The title field: the top 30% of the inside of the panel, rounded down.
pub open spec fn title_field(panel: Rect) -> Rect {
    let i = panel_inner(panel);
    Rect { height: (i.height * 30 / 100) as u16, ..i }
}

/// The content field: the rest of the inside of the panel, below the title.
pub open spec fn content_field(panel: Rect) -> Rect {
    let i = panel_inner(panel);
    let h = i.height * 30 / 100;
    Rect { y: (i.y + h) as u16, height: (i.height - h) as u16, ..i }
}

/// The question that the delete popup asks about a task titled `title`.
pub open spec fn delete_prompt(title: Seq<char>) -> Seq<char> {
    "Delete \""@ + title + "\"? Enter confirms, Esc cancels."@
}

/// The popup, where one is open: adding shows empty fields, editing and
/// deleting show the selected task, and deleting asks about it.
pub open spec fn popup_of(s: AppView, area: Rect) -> Option<PopupView> {
    if s.mode == Mode::Normal {
        None
    } else {
        let shows_task = s.mode != Mode::AddPopup && s.selected < s.tasks.len();
        let title = if shows_task {
            s.tasks[s.selected as int].title
        } else {
            Seq::empty()
        };
        let panel = centered(POPUP_WIDTH_PERCENT as nat, POPUP_HEIGHT_PERCENT as nat, area);
        Some(
            PopupView {
                area: panel,
                inner: panel_inner(panel),
                title_area: title_field(panel),
                content_area: content_field(panel),
                kind: s.mode,
                heading: heading_of(s.mode),
                title,
                content: if shows_task {
                    s.tasks[s.selected as int].content
                } else {
                    Seq::empty()
                },
                prompt: if s.mode == Mode::DeletePopup {
                    delete_prompt(title)
                } else {
                    Seq::empty()
                },
            },
        )
    }
}

/// The frame for model `s` on screen `area`.
pub open spec fn tree_of(s: AppView, area: Rect) -> TreeView {
    TreeView {
        body: body_of(area),
        list_area: list_pane(body_of(area)),
        desc_area: desc_pane(body_of(area)),
        footer: footer_of(area),
        lines: list_lines(s),
        description: description_of(s),
        legend: legend_entries(),
        popup: popup_of(s, area),
    }
}

/// The footer legend: each command's key, label and message.
pub fn legend() -> (r: Vec<MenuItem>)
    ensures
        r@.map_values(|m: MenuItem| (m.key@, m.label@)) == legend_entries(),
        legend_actions(r@),
{
    let mut r: Vec<MenuItem> = Vec::new();
    r.push(MenuItem { key: String::from_str("Q/ESC"), label: String::from_str("Quit"), action: Message::Quit });
    r.push(MenuItem { key: String::from_str("\u{2191}"), label: String::from_str("Up"), action: Message::MoveUp });
    r.push(MenuItem { key: String::from_str("\u{2193}"), label: String::from_str("Down"), action: Message::MoveDown });
    r.push(MenuItem { key: String::from_str("A/a"), label: String::from_str("Add Task"), action: Message::Add });
    r.push(MenuItem { key: String::from_str("E/e"), label: String::from_str("Edit Task"), action: Message::Edit });
    r.push(MenuItem { key: String::from_str("D/d"), label: String::from_str("Delete Task"), action: Message::Delete });
    assert(r@.map_values(|m: MenuItem| (m.key@, m.label@)) =~= legend_entries());
    r
}

/// Splits the screen into the body and the one-line footer below it, by
/// integer arithmetic rather than a layout solver.
pub fn split_screen(area: Rect) -> (r: (Rect, Rect))
    requires
        rect_fits(area),
    ensures
        r.0 == body_of(area),
        r.1 == footer_of(area),
{
    let f: u16 = if area.height >= 1 {
        1
    } else {
        0
    };
    let body = Rect { height: area.height - f, ..area };
    let footer = Rect { x: area.x, y: area.y + area.height - f, width: area.width, height: f };
    (body, footer)
}

/// Splits the body into the list pane and the description pane.
pub fn split_body(body: Rect) -> (r: (Rect, Rect))
    requires
        rect_fits(body),
    ensures
        r.0 == list_pane(body),
        r.1 == desc_pane(body),
        r.0.x + r.0.width == r.1.x,
{
    let inner = if body.width >= 2 {
        Rect { x: body.x + 1, width: body.width - 2, ..body }
    } else {
        Rect { width: 0, ..body }
    };
    let w: u32 = (inner.width as u32) * 60 / 100;
    assert(w <= inner.width);
    let list = Rect { width: w as u16, ..inner };
    let desc = Rect { x: inner.x + w as u16, width: inner.width - w as u16, ..inner };
    (list, desc)
}

/// The lines of the list pane.
fn list_lines_exec(app: &App) -> (r: Vec<ListLine>)
    requires
        app.wf(),
    ensures
        r@.map_values(|l: ListLine| (l.text@, l.highlighted)) == list_lines(app@),
{
    let items = app.tasks();
    let sel = app.selected_index();
    let ghost want = list_lines(app@);
    let mut r: Vec<ListLine> = Vec::new();
    let mut i: usize = 0;
    while i < items.len()
        invariant
            0 <= i <= items@.len(),
            tasks_view(items@) == app@.tasks,
            sel as nat == app@.selected,
            want == list_lines(app@),
            r@.len() == i,
            r@.map_values(|l: ListLine| (l.text@, l.highlighted)) == want.subrange(0, i as int),
        decreases items@.len() - i,
    {
        let ghost prev = r@;
        r.push(ListLine { text: items[i].title.clone(), highlighted: i == sel });
        proof {
            let m = r@.map_values(|l: ListLine| (l.text@, l.highlighted));
            let pm = prev.map_values(|l: ListLine| (l.text@, l.highlighted));
            assert(pm == want.subrange(0, i as int));
            assert(tasks_view(items@)[i as int] == items@[i as int]@);
            assert forall|k: int| 0 <= k < i + 1 implies #[trigger] m[k] == want.subrange(
                0,
                i as int + 1,
            )[k] by {
                if k < i {
                    assert(r@[k] == prev[k]);
                    assert(pm[k] == want.subrange(0, i as int)[k]);
                }
            }
            assert(m =~= want.subrange(0, i as int + 1));
        }
        i = i + 1;
    }
    assert(want.subrange(0, i as int) =~= want);
    r
}

/// Splits a popup panel into the area inside its border and the title and
/// content fields within that.
pub fn popup_regions(panel: Rect) -> (r: (Rect, Rect, Rect))
    requires
        rect_fits(panel),
    ensures
        r.0 == panel_inner(panel),
        r.1 == title_field(panel),
        r.2 == content_field(panel),
{
    let inner = if panel.width >= 2 && panel.height >= 2 {
        Rect { x: panel.x + 1, y: panel.y + 1, width: panel.width - 2, height: panel.height - 2 }
    } else {
        Rect { width: 0, height: 0, ..panel }
    };
    let h: u32 = (inner.height as u32) * 30 / 100;
    assert(h <= inner.height);
    let title_area = Rect { height: h as u16, ..inner };
    let content_area = Rect { y: inner.y + h as u16, height: inner.height - h as u16, ..inner };
    (inner, title_area, content_area)
}

/// The popup of an open mode.
fn popup_exec(app: &App, area: Rect) -> (r: Option<Popup>)
    requires
        app.wf(),
        rect_fits(area),
    ensures
        match r {
            Some(p) => popup_of(app@, area) == Some(p@),
            None => popup_of(app@, area) is None,
        },
{
    let mode = app.mode();
    let heading = match mode {
        Mode::Normal => return None,
        Mode::AddPopup => String::from_str("Add a Task"),
        Mode::EditPopup => String::from_str("Edit Task"),
        Mode::DeletePopup => String::from_str("Delete Task"),
    };
    let items = app.tasks();
    let sel = app.selected_index();
    let (title, content) = if mode != Mode::AddPopup && sel < items.len() {
        assert(tasks_view(items@)[sel as int] == items@[sel as int]@);
        (items[sel].title.clone(), items[sel].content.clone())
    } else {
        (String::new(), String::new())
    };
    let prompt = if mode == Mode::DeletePopup {
        let mut q = String::from_str("Delete \"");
        q.append(title.as_str());
        q.append("\"? Enter confirms, Esc cancels.");
        q
    } else {
        String::new()
    };
    let panel = centered_rect(POPUP_WIDTH_PERCENT, POPUP_HEIGHT_PERCENT, area);
    let (inner, title_area, content_area) = popup_regions(panel);
    let p = Popup { area: panel, inner, title_area, content_area, kind: mode, heading, title, content, prompt };
    assert(p@.title =~= popup_of(app@, area).unwrap().title);
    assert(p@.content =~= popup_of(app@, area).unwrap().content);
    assert(p@.prompt =~= popup_of(app@, area).unwrap().prompt);
    Some(p)
}

impl App {
    /// Composes the frame for this model on screen `area`: the body with the
    /// list and description panes, the footer legend, and the popup of an
    /// open mode, drawn last.
    pub fn compose(&self, area: Rect) -> (r: RenderTree)
        requires
            self.wf(),
            rect_fits(area),
        ensures
            r@ == tree_of(self@, area),
            legend_actions(r.legend@),
    {
        let (body, footer) = split_screen(area);
        let (list_area, desc_area) = split_body(body);
        let lines = list_lines_exec(self);
        let items = self.tasks();
        let sel = self.selected_index();
        let description = if sel < items.len() {
            assert(tasks_view(items@)[sel as int] == items@[sel as int]@);
            items[sel].content.clone()
        } else {
            String::new()
        };
        let legend = legend();
        let popup = popup_exec(self, area);
        let r = RenderTree { body, list_area, desc_area, footer, lines, description, legend, popup };
        assert(r@.description =~= description_of(self@));
        assert(r@ =~= tree_of(self@, area));
        r
    }
}

} // verus!

verus! {

/// Composing is deterministic: two frames composed from equal models on the
/// same screen are equal.
pub proof fn lemma_compose_deterministic(a: App, b: App, area: Rect, r1: RenderTree, r2: RenderTree)
    requires
        a@ == b@,
        r1@ == tree_of(a@, area),
        r2@ == tree_of(b@, area),
    ensures
        r1@ == r2@,
{
}

/// Deleting the only task leaves an empty store with the first index
/// selected, and the next frame shows no task and an empty description.
pub proof fn lemma_delete_last_task(s: AppView, d: Draft, area: Rect)
    requires
        crate::model::model_wf(s),
        s.mode == Mode::DeletePopup,
        s.tasks.len() == 1,
    ensures
        ({
            let n = crate::model::next_state(s, Message::Confirm(d));
            &&& n.tasks.len() == 0
            &&& n.selected == 0
            &&& n.mode == Mode::Normal
            &&& crate::model::model_wf(n)
            &&& tree_of(n, area).description.len() == 0
            &&& tree_of(n, area).lines.len() == 0
            &&& tree_of(n, area).popup is None
        }),
{
}

} // verus!
