use todr::handlers::{
    help_command, items_command, projects_command, request_query, to_resource_type,
    unknown_command, CommandError, TodrResourceType,
};
use todr::config::Configuration;
use todr::ordering::{sort_items, sort_projects};
use todr::render::{project_color_id_map, render_item, render_project, OutputLine, TermColor};
use todr::types::{ItemStruct, ProjectStruct, SyncStruct};

fn item(id: u64, project_id: u64, item_order: u64, indent: u8, content: &str, date: &str) -> ItemStruct {
    ItemStruct {
        id,
        user_id: 1,
        project_id,
        parent_id: None,
        content: content.to_string(),
        date_string: date.to_string(),
        date_lang: "en".to_string(),
        due_date_utc: None,
        priority: 1,
        indent,
        item_order,
        day_order: -1,
        collapsed: 0,
        labels: vec![],
        assigned_by_uid: None,
        responsible_uid: None,
        checked: 0,
        in_history: 0,
        is_deleted: 0,
        is_archived: 0,
        sync_id: None,
        date_added: None,
    }
}

fn project(id: u64, item_order: u8, indent: u8, color: u8, name: &str) -> ProjectStruct {
    ProjectStruct {
        name: name.to_string(),
        parent_id: None,
        color,
        collapsed: 0,
        inbox_project: None,
        has_more_notes: None,
        item_order,
        indent,
        id,
        is_deleted: 0,
        is_archived: 0,
    }
}

fn sync(items: Option<Vec<ItemStruct>>, projects: Option<Vec<ProjectStruct>>) -> SyncStruct {
    SyncStruct {
        collaborators: None,
        collaborator_states: None,
        day_orders: None,
        filters: None,
        full_sync: true,
        items,
        labels: None,
        live_notifications: None,
        live_notifications_last_read_id: None,
        notes: None,
        projects,
        reminders: None,
        sync_token: "tok".to_string(),
        user: None,
    }
}

fn ids(v: &[ItemStruct]) -> Vec<u64> {
    v.iter().map(|i| i.id).collect()
}

#[test]
fn tasks_grouped_by_project_then_rank() {
    let input = vec![
        item(1, 20, 1, 1, "a", ""),
        item(2, 10, 2, 1, "b", ""),
        item(3, 20, 0, 1, "c", ""),
        item(4, 10, 1, 1, "d", ""),
        item(5, 30, 5, 1, "e", ""),
        item(6, 10, 9, 1, "f", ""),
    ];
    let out = sort_items(input);
    assert_eq!(ids(&out), vec![4, 2, 6, 3, 1, 5]);
    for w in out.windows(2) {
        assert!(w[0].project_id <= w[1].project_id);
        if w[0].project_id == w[1].project_id {
            assert!(w[0].item_order <= w[1].item_order);
        }
    }
}

#[test]
fn task_ranks_are_not_compared_across_projects() {
    // A small rank in a later project must not pull the task forward.
    let input = vec![item(1, 2, 0, 1, "x", ""), item(2, 1, 100, 1, "y", "")];
    assert_eq!(ids(&sort_items(input)), vec![2, 1]);
}

#[test]
fn tasks_equal_keys_keep_order() {
    let input = vec![
        item(7, 5, 1, 1, "first", ""),
        item(8, 4, 1, 1, "other", ""),
        item(9, 5, 1, 1, "second", ""),
    ];
    assert_eq!(ids(&sort_items(input)), vec![8, 7, 9]);
}

#[test]
fn tasks_empty_and_largest_keys() {
    assert!(sort_items(vec![]).is_empty());
    let input = vec![item(1, u64::MAX, u64::MAX, 1, "a", ""), item(2, u64::MAX, 0, 1, "b", ""), item(3, 0, u64::MAX, 1, "c", "")];
    assert_eq!(ids(&sort_items(input)), vec![3, 2, 1]);
}

#[test]
fn projects_sorted_by_rank() {
    let input = vec![
        project(1, 3, 1, 0, "c"),
        project(2, 1, 1, 0, "a"),
        project(3, 2, 1, 0, "b"),
        project(4, 1, 1, 0, "a2"),
    ];
    let out = sort_projects(input);
    let got: Vec<u64> = out.iter().map(|p| p.id).collect();
    assert_eq!(got, vec![2, 4, 3, 1]);
    for w in out.windows(2) {
        assert!(w[0].item_order <= w[1].item_order);
    }
}

#[test]
fn resorting_changes_nothing() {
    let input = vec![item(1, 3, 2, 1, "a", ""), item(2, 3, 1, 1, "b", ""), item(3, 1, 1, 1, "c", ""), item(4, 3, 1, 1, "d", "")];
    let once = sort_items(input);
    let twice = sort_items(once.clone());
    assert_eq!(once, twice);
    let ps = vec![project(1, 2, 1, 0, "x"), project(2, 0, 1, 0, "y"), project(3, 2, 1, 0, "z")];
    let once = sort_projects(ps);
    let twice = sort_projects(once.clone());
    assert_eq!(once, twice);
}

#[test]
fn render_task_without_date() {
    let line = render_item(&item(1, 1, 1, 1, "Buy milk", ""));
    assert_eq!(line.text, "  Buy milk ()");
    assert_eq!(line.color, None);
}

#[test]
fn render_task_with_date_and_depth() {
    let line = render_item(&item(1, 1, 1, 3, "Pay rent", "every month"));
    assert_eq!(line.text, "      Pay rent (every month)");
}

#[test]
fn render_project_in_its_color() {
    let line = render_project(&project(1, 0, 2, 13, "Work")).unwrap();
    assert_eq!(line, OutputLine { color: Some(TermColor::Magenta), text: "    Work".to_string() });
    assert_eq!(render_project(&project(1, 0, 1, 22, "Bad")), None);
}

#[test]
fn color_table_edges() {
    assert_eq!(project_color_id_map(0), Some(TermColor::BrightGreen));
    assert_eq!(project_color_id_map(11), Some(TermColor::BrightBlue));
    assert_eq!(project_color_id_map(20), Some(TermColor::Black));
    assert_eq!(project_color_id_map(21), Some(TermColor::White));
    assert_eq!(project_color_id_map(22), None);
    assert_eq!(project_color_id_map(255), None);
}

#[test]
fn resource_type_parameter() {
    assert_eq!(to_resource_type(&TodrResourceType::Items), "[\"items\"]");
    assert_eq!(to_resource_type(&TodrResourceType::Projects), "[\"projects\"]");
}

#[test]
fn query_for_items() {
    let config = Configuration { token: Some("SECRET".to_string()) };
    let q = request_query(&config, &TodrResourceType::Items).unwrap();
    let expect: Vec<(String, String)> = vec![
        ("token".to_string(), "SECRET".to_string()),
        ("sync_token".to_string(), "*".to_string()),
        ("resource_types".to_string(), "[\"items\"]".to_string()),
        ("all_data".to_string(), "true".to_string()),
    ];
    assert_eq!(q, expect);
}

#[test]
fn query_without_token() {
    let config = Configuration { token: None };
    assert_eq!(request_query(&config, &TodrResourceType::Projects), Err(CommandError::MissingToken));
    assert_eq!(config.api_token(), Err(CommandError::MissingToken));
    assert_eq!(CommandError::MissingToken.message(), "TODR_AUTHTOKEN is not set");
}

#[test]
fn items_listing_in_order() {
    let fetched = Ok(sync(Some(vec![item(1, 2, 1, 1, "later", ""), item(2, 1, 1, 2, "first", "today")]), None));
    let lines = items_command(fetched).unwrap();
    let texts: Vec<&str> = lines.iter().map(|l| l.text.as_str()).collect();
    assert_eq!(texts, vec!["    first (today)", "  later ()"]);
}

#[test]
fn items_listing_failures() {
    assert_eq!(items_command(Err("connection refused".to_string())), Err(CommandError::Fetch("connection refused".to_string())));
    assert_eq!(items_command(Ok(sync(None, Some(vec![])))), Err(CommandError::MissingItems));
    assert_eq!(CommandError::MissingItems.message(), "Failed to parse items JSON");
    assert_eq!(CommandError::Fetch("boom".to_string()).message(), "boom");
}

#[test]
fn projects_listing_in_order() {
    let fetched = Ok(sync(None, Some(vec![project(1, 2, 1, 3, "Home"), project(2, 1, 1, 15, "Inbox")])));
    let lines = projects_command(fetched).unwrap();
    assert_eq!(
        lines,
        vec![
            OutputLine { color: Some(TermColor::Green), text: "  Inbox".to_string() },
            OutputLine { color: Some(TermColor::Yellow), text: "  Home".to_string() },
        ]
    );
}

#[test]
fn projects_listing_failures() {
    assert_eq!(projects_command(Ok(sync(Some(vec![]), None))), Err(CommandError::MissingProjects));
    assert_eq!(CommandError::MissingProjects.message(), "Failed to parse projects JSON");
    // The first unknown color in listing order is reported.
    let fetched = Ok(sync(None, Some(vec![project(1, 5, 1, 40, "x"), project(2, 1, 1, 30, "y"), project(3, 0, 1, 1, "z")])));
    assert_eq!(projects_command(fetched), Err(CommandError::UnknownColor(30)));
    assert_eq!(CommandError::UnknownColor(30).message(), "Unknown color id");
    assert_eq!(projects_command(Err("timeout".to_string())), Err(CommandError::Fetch("timeout".to_string())));
}

#[test]
fn help_lists_commands_and_aliases() {
    let lines = help_command();
    assert_eq!(lines.len(), 11);
    assert_eq!(lines[1], "Commands:");
    assert_eq!(lines[3], "  h | help  - This help message");
    assert_eq!(lines[5], "  i | items - List all active todo items.");
    assert_eq!(lines[7], "  p | projs - List all active projects.");
    assert_eq!(lines[9], "  q | quit  - Exit the application.");
}

#[test]
fn unknown_command_echoes_input() {
    assert_eq!(unknown_command("foo"), "Unknown Command: foo");
}
