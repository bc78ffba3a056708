use chromatic::app::{
    server_names, window_title, SettingsForm, ConnectionStatus, ContextPage, MenuAction, Notification, NotificationLevel,
    Notifications, Page, Pager, SettingsStatus, ValidationMissing,
};
use chromatic::config::{Config, ServerConfig};

#[test]
fn defaults_of_the_plain_states() {
    assert!(matches!(SettingsStatus::default(), SettingsStatus::Idle));
    assert!(matches!(ConnectionStatus::default(), ConnectionStatus::Disconnected));
    assert_eq!(Page::default(), Page::Browser);
    assert_eq!(ContextPage::default(), ContextPage::About);
    assert_eq!(MenuAction::About.context_page(), ContextPage::About);
}

#[test]
fn validation_reports_what_is_missing() {
    assert_eq!(ValidationMissing::from_status(true, true), None);
    assert_eq!(
        ValidationMissing::from_status(true, false),
        Some(ValidationMissing { tenant_exists: true, database_exists: false })
    );
    assert_eq!(
        ValidationMissing::from_status(false, false),
        Some(ValidationMissing { tenant_exists: false, database_exists: false })
    );
    assert_eq!(
        ValidationMissing::from_status(false, true),
        Some(ValidationMissing { tenant_exists: false, database_exists: true })
    );
}

#[test]
fn connection_status_follows_the_result() {
    assert!(matches!(ConnectionStatus::after(&Ok::<(), String>(())), ConnectionStatus::Connected));
    match ConnectionStatus::after(&Err::<u8, String>("down".to_string())) {
        ConnectionStatus::Error(e) => assert_eq!(e, "down"),
        _ => panic!("an error expected"),
    }
}

#[test]
fn window_title_names_the_page() {
    assert_eq!(window_title("Chromatic", None), "Chromatic");
    assert_eq!(window_title("Chromatic", Some("Browser")), "Chromatic \u{2014} Browser");
    assert_eq!(window_title("", Some("")), " \u{2014} ");
}

#[test]
fn notifications_are_numbered_from_one() {
    let mut shown = Notifications::default();
    assert_eq!(shown.counter, 0);
    assert_eq!(shown.add(NotificationLevel::Info, "a".to_string(), "x".to_string()), 1);
    assert_eq!(shown.add(NotificationLevel::Error, "b".to_string(), "y".to_string()), 2);
    assert_eq!(shown.counter, 2);
    assert_eq!(
        shown.list,
        vec![
            Notification {
                id: 1,
                level: NotificationLevel::Info,
                title: "a".to_string(),
                message: "x".to_string()
            },
            Notification {
                id: 2,
                level: NotificationLevel::Error,
                title: "b".to_string(),
                message: "y".to_string()
            },
        ]
    );
}

#[test]
fn dismiss_removes_by_number_and_keeps_the_order() {
    let mut shown = Notifications::default();
    for t in ["a", "b", "c", "d"] {
        shown.add(NotificationLevel::Success, t.to_string(), String::new());
    }
    shown.dismiss(2);
    assert_eq!(shown.list.iter().map(|n| n.id).collect::<Vec<_>>(), vec![1, 3, 4]);
    shown.dismiss(9);
    assert_eq!(shown.list.iter().map(|n| n.title.as_str()).collect::<Vec<_>>(), vec!["a", "c", "d"]);
    shown.list.push(Notification {
        id: 1,
        level: NotificationLevel::Warning,
        title: "again".to_string(),
        message: String::new(),
    });
    shown.dismiss(1);
    assert_eq!(shown.list.iter().map(|n| n.id).collect::<Vec<_>>(), vec![3, 4]);
    assert_eq!(shown.counter, 4);
    assert_eq!(shown.add(NotificationLevel::Info, "e".to_string(), String::new()), 5);
}

#[test]
fn copy_text_of_a_notification() {
    let mut shown = Notifications::default();
    shown.add(NotificationLevel::Error, "Failed".to_string(), "no route".to_string());
    shown.add(NotificationLevel::Info, "Hint".to_string(), String::new());
    assert_eq!(shown.copy_text(1), Some("Failed: no route".to_string()));
    assert_eq!(shown.copy_text(2), Some("Hint: ".to_string()));
    assert_eq!(shown.copy_text(3), None);
    assert_eq!(shown.list[0].clipboard_text(), "Failed: no route");
}

#[test]
fn pager_counts_pages() {
    let p = Pager::new(20);
    assert_eq!((p.page, p.per_page), (0, 20));
    assert_eq!(p.total_pages(0), 0);
    assert_eq!(p.total_pages(1), 1);
    assert_eq!(p.total_pages(20), 1);
    assert_eq!(p.total_pages(21), 2);
    assert_eq!(p.total_pages(45), 3);
}

#[test]
fn pager_moves_within_the_list() {
    let mut p = Pager::new(20);
    p.next(45);
    assert_eq!(p.page, 1);
    p.next(45);
    assert_eq!(p.page, 2);
    p.next(45);
    assert_eq!(p.page, 2);
    assert!(p.prev());
    assert_eq!(p.page, 1);
    assert!(p.prev());
    assert!(!p.prev());
    assert_eq!(p.page, 0);
    let mut empty = Pager::new(20);
    empty.next(0);
    assert_eq!(empty.page, 0);
    empty.advance();
    empty.advance();
    assert_eq!(empty.page, 2);
    assert_eq!(empty.offset(), 40);
}

#[test]
fn pager_window() {
    let mut p = Pager::new(20);
    assert_eq!(p.window(45), (0, 20));
    p.page = 1;
    assert_eq!(p.window(45), (20, 40));
    p.page = 2;
    assert_eq!(p.window(45), (40, 45));
    assert_eq!(p.window(40), (40, 40));
    assert_eq!(Pager::new(20).window(0), (0, 0));
    assert_eq!(Pager::new(20).window(7), (0, 7));
}

fn three_servers() -> Config {
    let mut b = ServerConfig::new("b");
    b.server_url = "http://b".to_string();
    b.auth_token = "tb".to_string();
    b.auth_header_type = "x-chroma-token".to_string();
    b.tenant = "tenant-b".to_string();
    b.database = "db-b".to_string();
    Config { servers: vec![ServerConfig::new("a"), b, ServerConfig::new("c")], active_server: 1 }
}

#[test]
fn form_shows_the_active_server() {
    let config = three_servers();
    let form = SettingsForm::of(&config);
    assert_eq!(form.server_name_input, "b");
    assert_eq!(form.server_url_input, "http://b");
    assert_eq!(form.auth_token_input, "tb");
    assert_eq!(form.auth_header_type_input, "x-chroma-token");
    assert_eq!(form.tenant_input, "tenant-b");
    assert_eq!(form.database_input, "db-b");
    assert_eq!(form.editing_server_index, Some(1));
    let mut off = three_servers();
    off.active_server = 7;
    let form = SettingsForm::of(&off);
    assert_eq!(form.server_name_input, "a");
    assert_eq!(form.editing_server_index, Some(7));
    assert_eq!(server_names(&config), vec!["a".to_string(), "b".to_string(), "c".to_string()]);
    assert!(server_names(&Config { servers: Vec::new(), active_server: 0 }).is_empty());
}

#[test]
fn saving_writes_the_form_into_the_active_server() {
    let mut config = three_servers();
    let mut form = SettingsForm::of(&config);
    form.server_name_input = "renamed".to_string();
    form.database_input = "other".to_string();
    form.save(&mut config);
    assert_eq!(config.active_server, 1);
    assert_eq!(config.servers[1].name, "renamed");
    assert_eq!(config.servers[1].database, "other");
    assert_eq!(config.servers[1].server_url, "http://b");
    assert_eq!(config.servers[0], ServerConfig::new("a"));
    assert_eq!(config.servers[2], ServerConfig::new("c"));

    let mut empty = Config { servers: Vec::new(), active_server: 3 };
    form.save(&mut empty);
    assert_eq!(empty.servers.len(), 1);
    assert_eq!(empty.active_server, 0);
    assert_eq!(empty.servers[0].name, "renamed");
    assert_eq!(empty.servers[0].auth_token, "tb");
}

#[test]
fn selecting_adding_and_deleting_servers() {
    let mut config = three_servers();
    let mut form = SettingsForm::of(&config);
    assert!(form.select_server(&mut config, 2));
    assert_eq!(config.active_server, 2);
    assert_eq!(form.server_name_input, "c");
    assert_eq!(form.editing_server_index, Some(2));
    assert!(!form.select_server(&mut config, 3));
    assert_eq!(config.active_server, 2);
    assert_eq!(form.server_name_input, "c");

    assert_eq!(form.add_new_server(&mut config), 3);
    assert_eq!(config.servers.len(), 4);
    assert_eq!(config.servers[3], ServerConfig::new("Server 4"));
    assert_eq!(config.active_server, 3);
    assert_eq!(form.server_name_input, "Server 4");
    assert_eq!(form.server_url_input, "http://localhost:8000");
    assert_eq!(form.editing_server_index, Some(3));

    assert!(form.delete_server(&mut config, 3));
    assert_eq!(config.active_server, 2);
    assert_eq!(form.server_name_input, "c");
    assert!(form.delete_server(&mut config, 0));
    assert_eq!(config.active_server, 1);
    assert_eq!(form.server_name_input, "c");
    assert_eq!(form.editing_server_index, Some(1));
    assert!(!form.delete_server(&mut config, 5));
    assert!(form.delete_server(&mut config, 1));
    assert_eq!(server_names(&config), vec!["b".to_string()]);
    assert_eq!(form.server_name_input, "b");
    assert!(!form.delete_server(&mut config, 0));
    assert_eq!(config.servers.len(), 1);
}
