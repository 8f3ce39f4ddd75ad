use projects_tui::app::{App, Config, EditError, FieldBuffer, InputMode, UserInfo};
use projects_tui::date::CalendarDate;
use projects_tui::keys::{
    add_item_keys, insert_mode_key_sequence, insert_mode_keys, normal_mode_keys, switch_project_keys, Action, Key,
};
use projects_tui::project::{
    Field, FieldOption, Item, Nodes, Project, ProjectV2Field, ProjectV2ItemField,
    ProjectV2SingleSelectField, User,
};
use projects_tui::sync::Mutation;

fn plain(name: &str, kind: &str) -> Field {
    Field::ProjectV2Field(ProjectV2Field {
        id: format!("id-{}", name),
        name: name.to_string(),
        data_type: kind.to_string(),
    })
}

fn option(name: &str) -> FieldOption {
    FieldOption {
        id: format!("opt-{}", name),
        name: name.to_string(),
        color: "GRAY".to_string(),
        description: String::new(),
    }
}

fn status_field() -> Field {
    Field::ProjectV2SingleSelectField(ProjectV2SingleSelectField {
        id: "id-Status".to_string(),
        name: "Status".to_string(),
        options: vec![option("Todo"), option("Doing"), option("Done")],
        data_type: "SINGLE_SELECT".to_string(),
    })
}

fn item(id: &str, item_type: &str, values: Vec<ProjectV2ItemField>) -> Item {
    Item { id: id.to_string(), field_values: Nodes { nodes: values }, item_type: item_type.to_string() }
}

/// Fields: Title, Status, Due, Points, Notes. One draft item with a title only.
fn loaded_app(item_type: &str) -> App {
    let fields = vec![
        plain("Title", "TITLE"),
        status_field(),
        plain("Due", "DATE"),
        plain("Points", "NUMBER"),
        plain("Notes", "TEXT"),
    ];
    let items = vec![item(
        "I1",
        item_type,
        vec![ProjectV2ItemField::TextValue { text: "First".to_string(), field: plain("Title", "TITLE") }],
    )];
    let mut app = App::new(Config::default());
    app.reload_info(UserInfo {
        user: User { login: "someone".to_string() },
        items,
        fields,
        projects: vec![
            Project { id: "PVT_board".to_string(), title: "Board".to_string() },
            Project { id: "PVT_other".to_string(), title: "Other".to_string() },
        ],
    });
    app.id = Some("token".to_string());
    app
}

fn shown(app: &App, field: usize) -> String {
    app.get_field_at(0, field).unwrap().value()
}

fn commit(app: &mut App) -> projects_tui::sync::CommitRequest {
    match insert_mode_keys(Key::Enter, app) {
        Ok(Action::Commit(req)) => req,
        other => panic!("expected a commit, got {:?}", other),
    }
}

#[test]
fn begin_editing_empty_single_select_selects_first_option() {
    let mut app = loaded_app("DRAFT_ISSUE");
    app.field_state = 1;
    assert!(app.get_field_at(0, 1).unwrap().is_empty());
    app.begin_editing().unwrap();
    assert!(matches!(app.menu_state, InputMode::Input));
    match &app.input {
        FieldBuffer::SingleSelect(options, index) => {
            let names: Vec<&str> = options.iter().map(|o| o.name.as_str()).collect();
            assert_eq!(names, vec!["Todo", "Doing", "Done"]);
            assert_eq!(*index, 0);
        }
        other => panic!("unexpected buffer {:?}", other),
    }
    assert_eq!(shown(&app, 1), "Todo");
}

#[test]
fn status_down_then_enter_commits_doing() {
    let mut app = loaded_app("DRAFT_ISSUE");
    app.field_state = 1;
    app.begin_editing().unwrap();
    insert_mode_keys(Key::Down, &mut app).unwrap();
    let req = commit(&mut app);
    match &req.mutation {
        Mutation::SingleSelect(id) => assert_eq!(id, "opt-Doing"),
        other => panic!("unexpected mutation {:?}", other),
    }
    assert_eq!(req.shown, "Doing");
    assert_eq!(req.field_id, "id-Status");
    assert_eq!(req.item_id, "I1");
    assert_eq!(req.project_id, "PVT_board");
    app.finish_commit(&req, Ok(())).unwrap();
    assert!(matches!(app.menu_state, InputMode::Normal));
    match app.get_field_at(0, 1).unwrap() {
        ProjectV2ItemField::SingleSelectValue { name, .. } => assert_eq!(name, "Doing"),
        other => panic!("unexpected value {:?}", other),
    }
}

#[test]
fn option_cycling_wraps_both_ways() {
    let mut app = loaded_app("DRAFT_ISSUE");
    app.input = FieldBuffer::SingleSelect(vec![option("a"), option("b"), option("c")], 2);
    app.shift_option_down();
    assert!(matches!(app.input, FieldBuffer::SingleSelect(_, 0)));
    app.shift_option_up();
    assert!(matches!(app.input, FieldBuffer::SingleSelect(_, 2)));
    app.shift_option_up();
    assert!(matches!(app.input, FieldBuffer::SingleSelect(_, 1)));
}

#[test]
fn text_commit_round_trip() {
    let mut app = loaded_app("DRAFT_ISSUE");
    app.field_state = 4;
    app.begin_editing().unwrap();
    for c in ['a', 'b', 'c'] {
        insert_mode_keys(Key::Char(c), &mut app).unwrap();
    }
    let req = commit(&mut app);
    match &req.mutation {
        Mutation::Text(t) => assert_eq!(t, "abc"),
        other => panic!("unexpected mutation {:?}", other),
    }
    app.finish_commit(&req, Ok(())).unwrap();
    assert_eq!(shown(&app, 4), "abc");
}

#[test]
fn escape_never_changes_the_stored_value() {
    let mut app = loaded_app("DRAFT_ISSUE");
    app.field_state = 0;
    app.begin_editing().unwrap();
    insert_mode_keys(Key::Backspace, &mut app).unwrap();
    insert_mode_keys(Key::Char('z'), &mut app).unwrap();
    insert_mode_keys(Key::Left, &mut app).unwrap();
    insert_mode_keys(Key::Esc, &mut app).unwrap();
    assert!(matches!(app.menu_state, InputMode::Normal));
    assert!(matches!(app.input, FieldBuffer::Empty));
    assert_eq!(shown(&app, 0), "First");
}

#[test]
fn remote_error_leaves_the_value_as_it_was() {
    let mut app = loaded_app("DRAFT_ISSUE");
    app.field_state = 0;
    app.begin_editing().unwrap();
    insert_mode_keys(Key::Char('!'), &mut app).unwrap();
    let req = commit(&mut app);
    let before = format!("{:?}", app.user_info);
    let r = app.finish_commit(&req, Err("bad gateway".to_string()));
    assert_eq!(r, Err(EditError::RemoteError("bad gateway".to_string())));
    assert_eq!(format!("{:?}", app.user_info), before);
    assert_eq!(shown(&app, 0), "First");
    assert!(matches!(app.menu_state, InputMode::Normal));
    assert_eq!(app.error_hook, Err(EditError::RemoteError("bad gateway".to_string())));
}

#[test]
fn issue_titles_are_not_editable() {
    for kind in ["ISSUE", "PULL_REQUEST"] {
        let mut app = loaded_app(kind);
        let before = format!("{:?}", app.user_info);
        match app.begin_editing() {
            Err(EditError::NotEditable(_)) => {}
            other => panic!("unexpected {:?}", other),
        }
        assert_eq!(format!("{:?}", app.user_info), before);
        assert!(matches!(app.input, FieldBuffer::Empty));
    }
}

#[test]
fn redacted_items_are_not_editable() {
    let mut app = loaded_app("REDACTED");
    app.field_state = 4;
    assert!(matches!(app.begin_editing(), Err(EditError::NotEditable(_))));
}

#[test]
fn not_editable_error_is_shown_as_error_mode() {
    let mut app = loaded_app("ISSUE");
    normal_mode_keys(Key::Char('i'), &mut app);
    match &app.menu_state {
        InputMode::Error(m) => assert_eq!(m, "Cannot edit issue title"),
        other => panic!("unexpected {:?}", other),
    }
}

#[test]
fn empty_date_number_and_text_fields_get_defaults() {
    let mut app = loaded_app("DRAFT_ISSUE");
    app.field_state = 2;
    app.begin_editing().unwrap();
    assert_eq!(shown(&app, 2), "1970-01-01");
    assert!(matches!(app.input, FieldBuffer::Date(d) if d == CalendarDate::new(1970, 1, 1).unwrap()));
    app.field_state = 3;
    app.begin_editing().unwrap();
    assert_eq!(shown(&app, 3), "0");
    assert!(matches!(&app.input, FieldBuffer::Text(t, 1) if t == &vec!['0']));
    app.field_state = 4;
    app.begin_editing().unwrap();
    assert_eq!(shown(&app, 4), "");
    assert!(matches!(&app.input, FieldBuffer::Text(t, 0) if t.is_empty()));
}

#[test]
fn month_shift_from_january_31_is_rejected() {
    let mut app = loaded_app("DRAFT_ISSUE");
    let jan31 = CalendarDate::new(2024, 1, 31).unwrap();
    app.input = FieldBuffer::Date(jan31);
    app.shift_month_forward();
    assert!(matches!(app.input, FieldBuffer::Date(d) if d == jan31));
    app.input = FieldBuffer::Date(CalendarDate::new(2024, 1, 15).unwrap());
    app.shift_month_forward();
    assert!(matches!(app.input, FieldBuffer::Date(d) if d == CalendarDate::new(2024, 2, 15).unwrap()));
    app.shift_month_back();
    app.shift_month_back();
    assert!(matches!(app.input, FieldBuffer::Date(d) if d == CalendarDate::new(2023, 12, 15).unwrap()));
}

#[test]
fn month_shift_crosses_the_year_end() {
    let mut app = loaded_app("DRAFT_ISSUE");
    app.input = FieldBuffer::Date(CalendarDate::new(2024, 12, 31).unwrap());
    app.shift_month_forward();
    assert!(matches!(app.input, FieldBuffer::Date(d) if d == CalendarDate::new(2025, 1, 31).unwrap()));
    app.input = FieldBuffer::Date(CalendarDate::new(9999, 12, 5).unwrap());
    app.shift_month_forward();
    assert!(matches!(app.input, FieldBuffer::Date(d) if d == CalendarDate::new(9999, 12, 5).unwrap()));
    app.input = FieldBuffer::Date(CalendarDate::new(2024, 2, 29).unwrap());
    app.shift_year_forward();
    assert!(matches!(app.input, FieldBuffer::Date(d) if d == CalendarDate::new(2024, 2, 29).unwrap()));
    app.shift_year_back();
    assert!(matches!(app.input, FieldBuffer::Date(d) if d == CalendarDate::new(2024, 2, 29).unwrap()));
    app.shift_date(-365);
    assert!(matches!(app.input, FieldBuffer::Date(d) if d == CalendarDate::new(2023, 3, 1).unwrap()));
}

#[test]
fn date_keys_move_days_weeks_and_years() {
    let mut app = loaded_app("DRAFT_ISSUE");
    app.field_state = 2;
    app.begin_editing().unwrap();
    insert_mode_keys(Key::Right, &mut app).unwrap();
    insert_mode_keys(Key::Down, &mut app).unwrap();
    insert_mode_keys(Key::Char('L'), &mut app).unwrap();
    assert!(matches!(app.input, FieldBuffer::Date(d) if d == CalendarDate::new(1971, 1, 7).unwrap()));
    insert_mode_keys(Key::Left, &mut app).unwrap();
    insert_mode_keys(Key::Char('k'), &mut app).unwrap();
    insert_mode_keys(Key::Char('J'), &mut app).unwrap();
    insert_mode_keys(Key::Char('H'), &mut app).unwrap();
    assert!(matches!(app.input, FieldBuffer::Date(d) if d == CalendarDate::new(1970, 2, 1).unwrap()));
    insert_mode_keys(Key::Char('K'), &mut app).unwrap();
    let req = commit(&mut app);
    match &req.mutation {
        Mutation::Date(t) => assert_eq!(t, "1970-01-01"),
        other => panic!("unexpected mutation {:?}", other),
    }
    app.finish_commit(&req, Ok(())).unwrap();
    assert_eq!(shown(&app, 2), "1970-01-01");
}

#[test]
fn number_keys_accept_digits_only() {
    let mut app = loaded_app("DRAFT_ISSUE");
    app.field_state = 3;
    app.begin_editing().unwrap();
    insert_mode_keys(Key::Char('4'), &mut app).unwrap();
    insert_mode_keys(Key::Char('x'), &mut app).unwrap();
    let req = commit(&mut app);
    match &req.mutation {
        Mutation::Number(t) => assert_eq!(t, "04"),
        other => panic!("unexpected mutation {:?}", other),
    }
}

#[test]
fn number_that_does_not_parse_is_a_parse_error() {
    let mut app = loaded_app("DRAFT_ISSUE");
    app.field_state = 3;
    app.begin_editing().unwrap();
    app.input = FieldBuffer::Text(vec!['1', '.', '.'], 3);
    match insert_mode_keys(Key::Enter, &mut app) {
        Err(EditError::ParseError(_)) => {}
        other => panic!("unexpected {:?}", other),
    }
    assert!(matches!(app.menu_state, InputMode::Normal));
    assert_eq!(shown(&app, 3), "0");
}

#[test]
fn commit_without_credential_fails() {
    let mut app = loaded_app("DRAFT_ISSUE");
    app.id = None;
    app.field_state = 4;
    app.begin_editing().unwrap();
    assert_eq!(insert_mode_keys(Key::Enter, &mut app).err(), Some(EditError::NoCredential));
    assert_eq!(app.error_hook, Err(EditError::NoCredential));
}

#[test]
fn nothing_loaded() {
    let mut app = App::new(Config::default());
    assert_eq!(app.get_field_at(0, 0).err(), Some(EditError::NotLoaded));
    assert_eq!(app.info().err(), Some(EditError::NotLoaded));
    assert_eq!(app.set_field_at(0, 0, "x"), Err(EditError::NotLoaded));
    app.next();
    app.left();
    assert_eq!(app.item_state, 0);
    assert_eq!(app.field_state, 0);
    assert_eq!(app.begin_editing(), Ok(()));
}

#[test]
fn cursor_wraps_over_fields_and_items() {
    let mut app = loaded_app("DRAFT_ISSUE");
    app.left();
    assert_eq!(app.field_state, 4);
    app.right();
    assert_eq!(app.field_state, 0);
    app.next();
    assert_eq!(app.item_state, 0);
    app.previous();
    assert_eq!(app.item_state, 0);
}

#[test]
fn text_cursor_editing() {
    let mut app = loaded_app("DRAFT_ISSUE");
    app.input = FieldBuffer::Text(vec!['a', 'c'], 1);
    app.insert_char('b');
    app.cursor_right();
    app.cursor_right();
    app.backspace();
    app.cursor_left();
    app.cursor_left();
    app.cursor_left();
    assert!(matches!(&app.input, FieldBuffer::Text(t, 0) if t == &vec!['a', 'b']));
    assert_eq!(app.input.len(), 2);
}

#[test]
fn project_switcher_cycles_and_selects() {
    let mut app = loaded_app("DRAFT_ISSUE");
    normal_mode_keys(Key::Char('p'), &mut app);
    assert!(matches!(app.menu_state, InputMode::SwitchProject(0)));
    switch_project_keys(Key::Up, &mut app);
    assert!(matches!(app.menu_state, InputMode::SwitchProject(1)));
    switch_project_keys(Key::Down, &mut app);
    assert!(matches!(app.menu_state, InputMode::SwitchProject(0)));
    switch_project_keys(Key::Down, &mut app);
    assert!(matches!(switch_project_keys(Key::Enter, &mut app), Action::SaveConfig));
    assert_eq!(app.config.project_state, 1);
    assert!(matches!(app.menu_state, InputMode::LoadingProject));
    assert!(app.reload);
}

#[test]
fn escape_leaves_the_project_switcher_unchanged() {
    let mut app = loaded_app("DRAFT_ISSUE");
    normal_mode_keys(Key::Char('p'), &mut app);
    switch_project_keys(Key::Down, &mut app);
    switch_project_keys(Key::Esc, &mut app);
    assert!(matches!(app.menu_state, InputMode::Normal));
    assert_eq!(app.config.project_state, 0);
}

#[test]
fn stale_refresh_is_dropped() {
    let mut app = loaded_app("DRAFT_ISSUE");
    let fresh = UserInfo { user: User { login: "x".to_string() }, items: vec![], fields: vec![], projects: vec![] };
    assert!(!app.deliver_refresh(fresh, 1));
    assert_eq!(app.info().unwrap().items.len(), 1);
    let fresh = UserInfo { user: User { login: "x".to_string() }, items: vec![], fields: vec![], projects: vec![] };
    assert!(app.deliver_refresh(fresh, 0));
    assert_eq!(app.info().unwrap().items.len(), 0);
}

#[test]
fn adding_a_draft_item() {
    let mut app = loaded_app("DRAFT_ISSUE");
    normal_mode_keys(Key::Char('a'), &mut app);
    assert!(matches!(add_item_keys(Key::Enter, &mut app), Ok(Action::Nothing)));
    for c in ['N', 'e', 'w'] {
        add_item_keys(Key::Char(c), &mut app).unwrap();
    }
    match add_item_keys(Key::Enter, &mut app) {
        Ok(Action::CreateDraft { token, project_id, title }) => {
            assert_eq!(token, "token");
            assert_eq!(project_id, "PVT_board");
            assert_eq!(title, "New");
        }
        other => panic!("unexpected {:?}", other),
    }
    assert!(matches!(app.menu_state, InputMode::Normal));
    app.add_item(item("I2", "DRAFT_ISSUE", vec![])).unwrap();
    assert_eq!(app.info().unwrap().items.len(), 2);
}

#[test]
fn quit_key_sets_exit() {
    let mut app = loaded_app("DRAFT_ISSUE");
    normal_mode_keys(Key::Char('q'), &mut app);
    assert!(app.exit);
}

#[test]
fn mut_info_edits_the_loaded_snapshot() {
    let mut app = loaded_app("DRAFT_ISSUE");
    app.mut_info().unwrap().items.clear();
    assert_eq!(app.info().unwrap().items.len(), 0);
    let mut empty = App::new(Config::default());
    assert_eq!(empty.mut_info().err(), Some(EditError::NotLoaded));
}

#[test]
fn any_key_sequence_then_escape_keeps_the_snapshot() {
    let mut app = loaded_app("DRAFT_ISSUE");
    app.field_state = 4;
    app.begin_editing().unwrap();
    let before = format!("{:?}", app.user_info);
    let keys = vec![Key::Char('x'), Key::Left, Key::Backspace, Key::Char('y'), Key::Right, Key::Esc];
    let results = insert_mode_key_sequence(&keys, &mut app);
    assert_eq!(results.len(), keys.len());
    assert_eq!(format!("{:?}", app.user_info), before);
    assert!(matches!(app.menu_state, InputMode::Normal));
    assert!(matches!(app.input, FieldBuffer::Empty));
}

#[test]
fn number_cell_ignores_non_digits() {
    let mut app = loaded_app("DRAFT_ISSUE");
    app.field_state = 3;
    app.begin_editing().unwrap();
    insert_mode_keys(Key::Char('a'), &mut app).unwrap();
    insert_mode_keys(Key::Char('.'), &mut app).unwrap();
    assert!(matches!(&app.input, FieldBuffer::Text(t, 1) if t == &vec!['0']));
    insert_mode_keys(Key::Left, &mut app).unwrap();
    insert_mode_keys(Key::Char('7'), &mut app).unwrap();
    assert!(matches!(&app.input, FieldBuffer::Text(t, 1) if t == &vec!['7', '0']));
}

#[test]
fn draft_without_credential_fails() {
    let mut app = loaded_app("DRAFT_ISSUE");
    app.id = None;
    normal_mode_keys(Key::Char('a'), &mut app);
    add_item_keys(Key::Char('x'), &mut app).unwrap();
    assert_eq!(add_item_keys(Key::Enter, &mut app).err(), Some(EditError::NoCredential));
    assert!(matches!(app.menu_state, InputMode::Normal));
    assert_eq!(app.info().unwrap().items.len(), 1);
}

#[test]
fn draft_title_editing_keys() {
    let mut app = loaded_app("DRAFT_ISSUE");
    normal_mode_keys(Key::Char('a'), &mut app);
    for k in [Key::Char('a'), Key::Char('c'), Key::Left, Key::Char('b'), Key::Right, Key::Backspace, Key::Left, Key::Left] {
        add_item_keys(k, &mut app).unwrap();
    }
    assert!(matches!(&app.menu_state, InputMode::AddItem(t, 0) if t == &vec!['a', 'b']));
    add_item_keys(Key::Esc, &mut app).unwrap();
    assert!(matches!(app.menu_state, InputMode::Normal));
}

#[test]
fn iteration_cells_ignore_edit_keys() {
    let mut app = loaded_app("DRAFT_ISSUE");
    app.menu_state = InputMode::Input;
    app.field_state = 1;
    app.input = FieldBuffer::Empty;
    assert!(app.get_field_at(0, 1).unwrap().is_empty());
    for k in [Key::Char('x'), Key::Down, Key::Enter] {
        assert!(matches!(insert_mode_keys(k, &mut app), Ok(Action::Nothing)));
    }
    assert!(matches!(app.menu_state, InputMode::Input));
    assert!(matches!(app.input, FieldBuffer::Empty));
}

#[test]
fn error_messages() {
    assert_eq!(EditError::NotLoaded.message(), "Nothing is loaded");
    assert_eq!(EditError::NoCredential.message(), "No Credential found");
    assert_eq!(EditError::RemoteError("boom".to_string()).message(), "boom");
}

#[test]
fn select_project_outside_the_switcher_changes_nothing() {
    let mut app = loaded_app("DRAFT_ISSUE");
    assert!(!app.select_project());
    assert!(matches!(app.menu_state, InputMode::Normal));
    assert!(!app.reload);
    assert!(matches!(switch_project_keys(Key::Enter, &mut app), Action::Nothing));
}
