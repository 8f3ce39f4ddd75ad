use projects_tui::commands::{command_output, field_list, item_list, COutput};
use projects_tui::project::{
    Field, FieldOption, Item, Iteration, IterationConfig, Nodes, ProjectV2Field,
    ProjectV2IterationField, ProjectV2ItemField, ProjectV2SingleSelectField, StyleTag,
};
use projects_tui::sync::is_decimal_chars;

fn plain(name: &str, kind: &str) -> Field {
    Field::ProjectV2Field(ProjectV2Field {
        id: format!("id-{}", name),
        name: name.to_string(),
        data_type: kind.to_string(),
    })
}

fn option(name: &str, color: &str) -> FieldOption {
    FieldOption {
        id: format!("opt-{}", name),
        name: name.to_string(),
        color: color.to_string(),
        description: String::new(),
    }
}

fn status_field() -> ProjectV2SingleSelectField {
    ProjectV2SingleSelectField {
        id: "id-Status".to_string(),
        name: "Status".to_string(),
        options: vec![option("Todo", "GRAY"), option("Doing", "BLUE"), option("Done", "GREEN")],
        data_type: "SINGLE_SELECT".to_string(),
    }
}

#[test]
fn defaults_follow_the_field_kind() {
    match plain("Due", "DATE").default() {
        ProjectV2ItemField::DateValue { date, .. } => assert_eq!(date, "1970-01-01"),
        other => panic!("unexpected {:?}", other),
    }
    match plain("Points", "NUMBER").default() {
        ProjectV2ItemField::NumberValue { number, .. } => assert_eq!(number, "0"),
        other => panic!("unexpected {:?}", other),
    }
    match plain("Notes", "TEXT").default() {
        ProjectV2ItemField::TextValue { text, .. } => assert_eq!(text, ""),
        other => panic!("unexpected {:?}", other),
    }
    match Field::ProjectV2SingleSelectField(status_field()).default() {
        ProjectV2ItemField::SingleSelectValue { name, .. } => assert_eq!(name, "Todo"),
        other => panic!("unexpected {:?}", other),
    }
    assert!(plain("Labels", "LABELS").default().is_empty());
}

#[test]
fn iteration_default_is_the_first_iteration() {
    let f = Field::ProjectV2IterationField(ProjectV2IterationField {
        id: "id-Sprint".to_string(),
        name: "Sprint".to_string(),
        configuration: IterationConfig {
            iterations: vec![Iteration {
                start_date: "2024-01-01".to_string(),
                id: "it1".to_string(),
                title: "Sprint 7".to_string(),
            }],
        },
        data_type: "ITERATION".to_string(),
    });
    assert!(!f.is_editable());
    assert_eq!(f.default().value(), "Sprint 7");
}

#[test]
fn editable_kinds() {
    assert!(plain("a", "DATE").is_editable());
    assert!(plain("a", "NUMBER").is_editable());
    assert!(plain("a", "TEXT").is_editable());
    assert!(plain("a", "TITLE").is_editable());
    assert!(Field::ProjectV2SingleSelectField(status_field()).is_editable());
    assert!(!plain("a", "ASSIGNEES").is_editable());
    assert!(!Field::Empty.is_editable());
}

#[test]
fn lookup_by_field_name_and_update() {
    let mut nodes: Nodes<ProjectV2ItemField> = Nodes::default();
    nodes.push(ProjectV2ItemField::Empty);
    nodes.push(ProjectV2ItemField::TextValue { text: "hello".to_string(), field: plain("Notes", "TEXT") });
    nodes.push(ProjectV2ItemField::NumberValue { number: "3".to_string(), field: plain("Points", "NUMBER") });
    assert_eq!(nodes.name_from_field("Notes"), "hello");
    assert_eq!(nodes.name_from_field("Points"), "3");
    assert!(nodes.get_from_field("Missing").is_empty());
    assert_eq!(nodes.get_from_field("Points").get_type(), "NUMBER");
    nodes.set_value("Points", "12");
    assert_eq!(nodes.name_from_field("Points"), "12");
    nodes.set_value("Missing", "x");
    assert_eq!(nodes.nodes.len(), 3);
    assert!(nodes.get_from_field("Missing").is_empty());
}

#[test]
fn styles_by_kind_and_option_color() {
    let v = ProjectV2ItemField::SingleSelectValue { name: "Doing".to_string(), field: status_field() };
    assert_eq!(v.style(), StyleTag::Blue);
    let v = ProjectV2ItemField::SingleSelectValue { name: "Todo".to_string(), field: status_field() };
    assert_eq!(v.style(), StyleTag::Yellow);
    let v = ProjectV2ItemField::SingleSelectValue { name: "Gone".to_string(), field: status_field() };
    assert_eq!(v.style(), StyleTag::Plain);
    let d = ProjectV2ItemField::DateValue { date: "2024-01-01".to_string(), field: plain("Due", "DATE") };
    assert_eq!(d.style(), StyleTag::Bold);
    let n = ProjectV2ItemField::NumberValue { number: "1".to_string(), field: plain("P", "NUMBER") };
    assert_eq!(n.style(), StyleTag::LightBlue);
    assert_eq!(option("x", "PURPLE").style(), StyleTag::Magenta);
    assert_eq!(option("x", "ORANGE").style(), StyleTag::LightRed);
    assert_eq!(option("x", "PINK").style(), StyleTag::LightMagenta);
    assert_eq!(option("x", "RED").style(), StyleTag::Plain);
}

#[test]
fn item_holds_values_by_field() {
    let item = Item {
        id: "I1".to_string(),
        field_values: Nodes { nodes: vec![ProjectV2ItemField::TextValue { text: "t".to_string(), field: plain("Title", "TITLE") }] },
        item_type: "DRAFT_ISSUE".to_string(),
    };
    assert_eq!(item.field_values.get_from_field("Title").get_type(), "TITLE");
    assert_eq!(item.field_values.get_from_field("Title").value(), "t");
}

#[test]
fn decimal_numbers() {
    let ok = |s: &str| is_decimal_chars(&s.chars().collect::<Vec<char>>());
    assert!(ok("0"));
    assert!(ok("12"));
    assert!(ok("-3.25"));
    assert!(!ok(""));
    assert!(!ok("-"));
    assert!(!ok("1.2.3"));
    assert!(!ok(".5"));
    assert!(!ok("5."));
    assert!(!ok("1e5"));
}

#[test]
fn gh_commands_and_their_output() {
    assert_eq!(item_list(), "gh project item-list 1 --owner rhaskia --format json");
    assert_eq!(field_list(), "gh project field-list 1 --owner rhaskia --format json");
    match command_output(Some(0), "out".to_string(), "err".to_string()) {
        COutput::Out(s) => assert_eq!(s, "out"),
        other => panic!("unexpected {:?}", other),
    }
    match command_output(Some(1), "out".to_string(), "err".to_string()) {
        COutput::Failure(s) => assert_eq!(s, "err"),
        other => panic!("unexpected {:?}", other),
    }
    assert!(matches!(command_output(None, String::new(), String::new()), COutput::Stopped));
}
