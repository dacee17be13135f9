use doin::codec::{parse_tasks, serialize_tasks, LoadError, RawRecord};
use doin::layout::{centered_rect, legend, popup_regions, split_body, split_screen, Rect};
use doin::model::App;
use doin::store::{create_task, delete_task, edit_task};
use doin::types::{Draft, Item, Key, Message, Mode, RunningState};

const TWO_TASKS: &str =
    r#"[{"id":0,"title":"A","content":"desc A"},{"id":1,"title":"B","content":"desc B"}]"#;

fn draft(title: &str, content: &str) -> Draft {
    Draft { title: title.to_string(), content: content.to_string() }
}

fn loaded(text: &str) -> App {
    let mut app = App::new();
    app.reload(text).unwrap();
    app
}

fn titles(app: &App) -> Vec<String> {
    app.tasks().iter().map(|t| t.title.clone()).collect()
}

fn ids(app: &App) -> Vec<usize> {
    app.tasks().iter().map(|t| t.id).collect()
}

fn press(app: &mut App, key: Key) -> bool {
    let msg = app.handle_key(key);
    app.update(msg)
}

fn screen() -> Rect {
    Rect { x: 0, y: 0, width: 80, height: 24 }
}

#[test]
fn end_to_end_move_and_delete() {
    let mut app = loaded(TWO_TASKS);
    assert_eq!(app.selected_index(), 0);
    press(&mut app, Key::Down);
    assert_eq!(app.selected_index(), 1);
    assert_eq!(app.compose(screen()).description, "desc B");
    press(&mut app, Key::Char('d'));
    assert_eq!(app.mode(), Mode::DeletePopup);
    let saved = press(&mut app, Key::Enter);
    assert!(saved);
    assert_eq!(app.tasks().len(), 1);
    assert_eq!(app.tasks()[0].id, 0);
    assert_eq!(app.tasks()[0].title, "A");
    assert_eq!(app.tasks()[0].content, "desc A");
    assert_eq!(app.selected_index(), 0);
    assert_eq!(app.mode(), Mode::Normal);
}

#[test]
fn empty_list_ignores_navigation_and_popups() {
    let mut app = App::new();
    for key in [Key::Up, Key::Down, Key::Char('e'), Key::Char('d')] {
        let saved = press(&mut app, key);
        assert!(!saved);
        assert_eq!(app.mode(), Mode::Normal);
        assert!(app.tasks().is_empty());
        assert_eq!(app.selected_index(), 0);
    }
    let tree = app.compose(screen());
    assert!(tree.lines.is_empty());
    assert_eq!(tree.description, "");
}

#[test]
fn quit_ends_the_session() {
    let mut app = loaded(TWO_TASKS);
    assert!(app.is_running());
    press(&mut app, Key::Char('q'));
    assert_eq!(app.state(), RunningState::Done);
    assert!(!app.is_running());
    press(&mut app, Key::Char('a'));
    assert_eq!(app.state(), RunningState::Done);
}

#[test]
fn escape_quits_from_normal_mode() {
    let mut app = App::new();
    press(&mut app, Key::Esc);
    assert_eq!(app.state(), RunningState::Done);
}

#[test]
fn up_then_down_returns_to_the_same_task() {
    let mut app = loaded(
        r#"[{"id":0,"title":"A","content":""},{"id":1,"title":"B","content":""},{"id":2,"title":"C","content":""}]"#,
    );
    app.update(Message::MoveDown);
    assert_eq!(app.selected_index(), 1);
    app.update(Message::MoveUp);
    app.update(Message::MoveDown);
    assert_eq!(app.selected_index(), 1);
    app.update(Message::MoveDown);
    app.update(Message::MoveUp);
    assert_eq!(app.selected_index(), 1);
}

#[test]
fn moves_stop_at_the_ends() {
    let mut app = loaded(TWO_TASKS);
    app.update(Message::MoveUp);
    assert_eq!(app.selected_index(), 0);
    app.update(Message::MoveDown);
    app.update(Message::MoveDown);
    assert_eq!(app.selected_index(), 1);
}

#[test]
fn deleting_the_only_task_empties_the_store() {
    let mut app = loaded(r#"[{"id":7,"title":"Only","content":"text"}]"#);
    app.update(Message::Delete);
    assert_eq!(app.mode(), Mode::DeletePopup);
    let saved = app.update(Message::Confirm(Draft::empty()));
    assert!(saved);
    assert!(app.tasks().is_empty());
    assert_eq!(app.selected_index(), 0);
    let tree = app.compose(screen());
    assert_eq!(tree.description, "");
    assert!(tree.lines.is_empty());
    assert!(tree.popup.is_none());
}

#[test]
fn deleting_the_last_task_moves_the_selection_up() {
    let mut app = loaded(TWO_TASKS);
    app.update(Message::MoveDown);
    app.update(Message::Delete);
    app.update(Message::Confirm(Draft::empty()));
    assert_eq!(titles(&app), vec!["A"]);
    assert_eq!(app.selected_index(), 0);
}

#[test]
fn compose_is_deterministic() {
    let mut app = loaded(TWO_TASKS);
    app.update(Message::Edit);
    let a = app.compose(screen());
    let b = app.compose(screen());
    assert_eq!(a.body, b.body);
    assert_eq!(a.list_area, b.list_area);
    assert_eq!(a.desc_area, b.desc_area);
    assert_eq!(a.footer, b.footer);
    assert_eq!(a.description, b.description);
    let la: Vec<(String, bool)> = a.lines.iter().map(|l| (l.text.clone(), l.highlighted)).collect();
    let lb: Vec<(String, bool)> = b.lines.iter().map(|l| (l.text.clone(), l.highlighted)).collect();
    assert_eq!(la, lb);
    let pa = a.popup.unwrap();
    let pb = b.popup.unwrap();
    assert_eq!(pa.area, pb.area);
    assert_eq!(pa.heading, pb.heading);
    assert_eq!(pa.title, pb.title);
    assert_eq!(pa.content, pb.content);
}

#[test]
fn add_confirm_appends_a_fresh_task() {
    let mut app = loaded(r#"[{"id":3,"title":"A","content":""},{"id":9,"title":"B","content":""}]"#);
    app.update(Message::Add);
    assert_eq!(app.mode(), Mode::AddPopup);
    let saved = app.update(Message::Confirm(draft("C", "desc C")));
    assert!(saved);
    assert_eq!(ids(&app), vec![3, 9, 10]);
    assert_eq!(titles(&app), vec!["A", "B", "C"]);
    assert_eq!(app.tasks()[2].content, "desc C");
    assert_eq!(app.mode(), Mode::Normal);
}

#[test]
fn add_confirm_with_empty_title_stays_in_popup() {
    let mut app = loaded(TWO_TASKS);
    app.update(Message::Add);
    let saved = app.update(Message::Confirm(draft("", "x")));
    assert!(!saved);
    assert_eq!(app.mode(), Mode::AddPopup);
    assert_eq!(app.tasks().len(), 2);
}

#[test]
fn add_on_empty_store_uses_id_zero() {
    let mut app = App::new();
    app.update(Message::Add);
    app.update(Message::Confirm(draft("First", "")));
    assert_eq!(ids(&app), vec![0]);
    assert_eq!(app.selected_index(), 0);
}

#[test]
fn cancel_leaves_tasks_unchanged() {
    let mut app = loaded(TWO_TASKS);
    press(&mut app, Key::Char('a'));
    assert_eq!(app.mode(), Mode::AddPopup);
    let saved = press(&mut app, Key::Char('q'));
    assert!(!saved);
    assert_eq!(app.mode(), Mode::Normal);
    assert_eq!(app.state(), RunningState::Running);
    assert_eq!(titles(&app), vec!["A", "B"]);
}

#[test]
fn edit_confirm_overwrites_the_selected_task() {
    let mut app = loaded(TWO_TASKS);
    app.update(Message::MoveDown);
    app.update(Message::Edit);
    assert_eq!(app.mode(), Mode::EditPopup);
    let saved = app.update(Message::Confirm(draft("B2", "new")));
    assert!(saved);
    assert_eq!(app.tasks()[1].id, 1);
    assert_eq!(app.tasks()[1].title, "B2");
    assert_eq!(app.tasks()[1].content, "new");
    assert_eq!(app.mode(), Mode::Normal);
}

#[test]
fn enter_in_edit_popup_confirms_the_prefilled_fields() {
    let app = {
        let mut app = loaded(TWO_TASKS);
        app.update(Message::Edit);
        app
    };
    match app.handle_key(Key::Enter) {
        Message::Confirm(d) => {
            assert_eq!(d.title, "A");
            assert_eq!(d.content, "desc A");
        }
        _ => panic!("Enter in a popup must confirm"),
    }
}

#[test]
fn keys_translate_to_messages() {
    let app = App::new();
    assert!(matches!(app.handle_key(Key::Up), Message::MoveUp));
    assert!(matches!(app.handle_key(Key::Down), Message::MoveDown));
    assert!(matches!(app.handle_key(Key::Char('a')), Message::Add));
    assert!(matches!(app.handle_key(Key::Char('e')), Message::Edit));
    assert!(matches!(app.handle_key(Key::Char('d')), Message::Delete));
    assert!(matches!(app.handle_key(Key::Char('q')), Message::Quit));
    assert!(matches!(app.handle_key(Key::Enter), Message::NoOp));
    assert!(matches!(app.handle_key(Key::Char('x')), Message::NoOp));
    assert!(matches!(app.handle_key(Key::Other), Message::NoOp));
}

#[test]
fn popup_messages_are_ignored_in_normal_mode() {
    let mut app = loaded(TWO_TASKS);
    let saved = app.update(Message::Confirm(draft("Z", "")));
    assert!(!saved);
    app.update(Message::Cancel);
    assert_eq!(titles(&app), vec!["A", "B"]);
    assert_eq!(app.mode(), Mode::Normal);
}

#[test]
fn reload_keeps_selection_in_range() {
    let mut app = loaded(TWO_TASKS);
    app.update(Message::MoveDown);
    app.reload(r#"[{"id":0,"title":"A","content":""}]"#).unwrap();
    assert_eq!(app.selected_index(), 0);
    app.reload("[]").unwrap();
    assert!(app.tasks().is_empty());
    assert_eq!(app.selected_index(), 0);
}

#[test]
fn reload_error_leaves_model_unchanged() {
    let mut app = loaded(TWO_TASKS);
    assert_eq!(app.reload("not json"), Err(LoadError::Syntax));
    assert_eq!(titles(&app), vec!["A", "B"]);
}

#[test]
fn load_errors() {
    assert_eq!(parse_tasks("{").err(), Some(LoadError::Syntax));
    assert_eq!(parse_tasks(r#"{"id":0}"#).err(), Some(LoadError::NotAList));
    assert_eq!(
        parse_tasks(r#"[{"id":0,"title":"A","content":""},{"id":1,"title":"B"}]"#).err(),
        Some(LoadError::MissingField(1))
    );
    assert_eq!(
        parse_tasks(r#"[{"id":-1,"title":"A","content":""}]"#).err(),
        Some(LoadError::MissingField(0))
    );
    assert_eq!(
        parse_tasks(r#"[{"id":0,"title":"","content":""}]"#).err(),
        Some(LoadError::EmptyTitle(0))
    );
    assert_eq!(
        parse_tasks(r#"[{"id":4,"title":"A","content":""},{"id":4,"title":"B","content":""}]"#)
            .err(),
        Some(LoadError::DuplicateId(1))
    );
}

#[test]
fn parse_keeps_order_and_fields() {
    let items = parse_tasks(TWO_TASKS).unwrap();
    assert_eq!(items.len(), 2);
    assert_eq!((items[0].id, items[0].title.as_str(), items[0].content.as_str()), (0, "A", "desc A"));
    assert_eq!((items[1].id, items[1].title.as_str(), items[1].content.as_str()), (1, "B", "desc B"));
}

#[test]
fn load_records_reports_first_fault() {
    let mut app = App::new();
    let records = vec![
        RawRecord { id: Some(1), title: Some("A".to_string()), content: None },
        RawRecord { id: Some(2), title: Some(String::new()), content: Some(String::new()) },
    ];
    assert_eq!(app.load_records(&records), Err(LoadError::MissingField(0)));
    assert!(app.tasks().is_empty());
    let good = vec![RawRecord { id: Some(5), title: Some("T".to_string()), content: Some("c".to_string()) }];
    assert_eq!(app.load_records(&good), Ok(()));
    assert_eq!(ids(&app), vec![5]);
}

#[test]
fn serialize_writes_a_json_array() {
    let items = parse_tasks(TWO_TASKS).unwrap();
    assert_eq!(serialize_tasks(&items), TWO_TASKS);
    assert_eq!(serialize_tasks(&Vec::new()), "[]");
}

#[test]
fn serialize_escapes_strings() {
    let items = vec![Item { id: 120, title: "say \"hi\"".to_string(), content: "a\nb".to_string() }];
    let text = serialize_tasks(&items);
    assert_eq!(text, r#"[{"id":120,"title":"say \"hi\"","content":"a\nb"}]"#);
    let back = parse_tasks(&text).unwrap();
    assert_eq!(back[0].title, "say \"hi\"");
    assert_eq!(back[0].content, "a\nb");
}

#[test]
fn store_operations() {
    let mut items = parse_tasks(TWO_TASKS).unwrap();
    assert!(create_task(&mut items, draft("C", "")));
    assert_eq!(items[2].id, 2);
    assert!(!create_task(&mut items, draft("", "")));
    assert_eq!(items.len(), 3);
    assert!(edit_task(&mut items, 0, draft("A2", "x")));
    assert_eq!(items[0].title, "A2");
    assert!(!edit_task(&mut items, 3, draft("Z", "")));
    assert!(!edit_task(&mut items, 0, draft("", "")));
    assert!(delete_task(&mut items, 1));
    assert_eq!(items.iter().map(|t| t.id).collect::<Vec<_>>(), vec![0, 2]);
    assert!(!delete_task(&mut items, 2));
}

#[test]
fn create_refuses_when_ids_are_exhausted() {
    let mut items = vec![Item { id: usize::MAX, title: "A".to_string(), content: String::new() }];
    assert!(!create_task(&mut items, draft("B", "")));
    assert_eq!(items.len(), 1);
}

#[test]
fn screen_split() {
    let (body, footer) = split_screen(screen());
    assert_eq!(body, Rect { x: 0, y: 0, width: 80, height: 23 });
    assert_eq!(footer, Rect { x: 0, y: 23, width: 80, height: 1 });
    let (list, desc) = split_body(body);
    assert_eq!(list, Rect { x: 1, y: 0, width: 46, height: 23 });
    assert_eq!(desc, Rect { x: 47, y: 0, width: 32, height: 23 });
    let (b0, f0) = split_screen(Rect { x: 2, y: 3, width: 1, height: 0 });
    assert_eq!(b0, Rect { x: 2, y: 3, width: 1, height: 0 });
    assert_eq!(f0, Rect { x: 2, y: 3, width: 1, height: 0 });
    let (l0, d0) = split_body(b0);
    assert_eq!(l0.width + d0.width, 0);
}

#[test]
fn centered_rect_rounds_down() {
    assert_eq!(centered_rect(60, 50, screen()), Rect { x: 16, y: 6, width: 48, height: 12 });
    assert_eq!(
        centered_rect(50, 50, Rect { x: 10, y: 10, width: 7, height: 5 }),
        Rect { x: 12, y: 11, width: 3, height: 2 }
    );
    assert_eq!(centered_rect(100, 100, screen()), screen());
}

#[test]
fn compose_lays_out_panes_and_popup() {
    let mut app = loaded(TWO_TASKS);
    let tree = app.compose(screen());
    let lines: Vec<(String, bool)> = tree.lines.iter().map(|l| (l.text.clone(), l.highlighted)).collect();
    assert_eq!(lines, vec![("A".to_string(), true), ("B".to_string(), false)]);
    assert_eq!(tree.description, "desc A");
    assert_eq!(tree.footer, Rect { x: 0, y: 23, width: 80, height: 1 });
    assert!(tree.popup.is_none());
    app.update(Message::Delete);
    let popup = app.compose(screen()).popup.unwrap();
    assert_eq!(popup.kind, Mode::DeletePopup);
    assert_eq!(popup.heading, "Delete Task");
    assert_eq!(popup.title, "A");
    assert_eq!(popup.area, Rect { x: 16, y: 6, width: 48, height: 12 });
    assert_eq!(popup.inner, Rect { x: 17, y: 7, width: 46, height: 10 });
    assert_eq!(popup.title_area, Rect { x: 17, y: 7, width: 46, height: 3 });
    assert_eq!(popup.content_area, Rect { x: 17, y: 10, width: 46, height: 7 });
    assert_eq!(popup.prompt, "Delete \"A\"? Enter confirms, Esc cancels.");
    app.update(Message::Cancel);
    app.update(Message::Add);
    let popup = app.compose(screen()).popup.unwrap();
    assert_eq!(popup.heading, "Add a Task");
    assert_eq!(popup.prompt, "");
    assert_eq!(popup.title, "");
    assert_eq!(popup.content, "");
}

#[test]
fn legend_lists_the_commands() {
    let entries: Vec<(String, String)> = legend().iter().map(|m| (m.key.clone(), m.label.clone())).collect();
    assert_eq!(
        entries,
        vec![
            ("Q/ESC".to_string(), "Quit".to_string()),
            ("\u{2191}".to_string(), "Up".to_string()),
            ("\u{2193}".to_string(), "Down".to_string()),
            ("A/a".to_string(), "Add Task".to_string()),
            ("E/e".to_string(), "Edit Task".to_string()),
            ("D/d".to_string(), "Delete Task".to_string()),
        ]
    );
    assert!(matches!(legend()[0].action, Message::Quit));
    assert!(matches!(legend()[5].action, Message::Delete));
}

#[test]
fn reload_refuses_a_document_that_is_no_array() {
    let mut app = loaded(TWO_TASKS);
    assert_eq!(app.reload(r#"{"id":0,"title":"A","content":""}"#), Err(LoadError::NotAList));
    assert_eq!(app.reload("42"), Err(LoadError::NotAList));
    assert_eq!(titles(&app), vec!["A", "B"]);
    assert_eq!(
        app.reload(r#"[{"id":0,"title":"A","content":""},{"id":0,"title":"B","content":""}]"#),
        Err(LoadError::DuplicateId(1))
    );
    assert_eq!(titles(&app), vec!["A", "B"]);
}

#[test]
fn popup_regions_of_a_tiny_panel() {
    let (inner, title, content) = popup_regions(Rect { x: 3, y: 4, width: 1, height: 9 });
    assert_eq!(inner, Rect { x: 3, y: 4, width: 0, height: 0 });
    assert_eq!(title.height + content.height, 0);
    let (inner, title, content) = popup_regions(Rect { x: 0, y: 0, width: 10, height: 12 });
    assert_eq!(inner, Rect { x: 1, y: 1, width: 8, height: 10 });
    assert_eq!(title, Rect { x: 1, y: 1, width: 8, height: 3 });
    assert_eq!(content, Rect { x: 1, y: 4, width: 8, height: 7 });
}

#[test]
fn serialize_escapes_control_characters() {
    let items = vec![Item {
        id: 3,
        title: "a\\b".to_string(),
        content: "\u{1}\t\r\u{8}\u{c}\u{1f}\u{7f}\u{e9}".to_string(),
    }];
    assert_eq!(
        serialize_tasks(&items),
        "[{\"id\":3,\"title\":\"a\\\\b\",\"content\":\"\\u0001\\t\\r\\b\\f\\u001f\u{7f}\u{e9}\"}]"
    );
}
