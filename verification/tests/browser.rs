use chromatic::api::chroma::{Collection, Document};
use chromatic::config::ServerConfig;
use chromatic::pages::browser::{
    can_cut_text, can_label_document, cut_text, decimal_text, BrowserFetch, ServerAccess,
    DOCUMENTS_PER_FETCH, PREVIEW_BYTES,
};
use chromatic::pages::{BrowserData, BrowserDialog, BrowserState};
use chromatic::widgets::miller_columns::{ColumnState, MillerItem};

fn servers() -> Vec<ServerConfig> {
    let mut second = ServerConfig::new("Second");
    second.server_url = "http://second:9000".to_string();
    second.auth_token = "tok".to_string();
    second.auth_header_type = "x-chroma-token".to_string();
    vec![ServerConfig::new("First"), second]
}

fn ids(items: &[MillerItem<BrowserData>]) -> Vec<&str> {
    items.iter().map(|i| i.id.as_str()).collect()
}

fn labels(items: &[MillerItem<BrowserData>]) -> Vec<&str> {
    items.iter().map(|i| i.label.as_str()).collect()
}

fn loaded<'a>(state: &'a BrowserState, id: &str) -> &'a [MillerItem<BrowserData>] {
    state.miller.get_children(&id.to_string()).expect("children are loaded")
}

fn doc(id: &str, text: Option<&str>) -> Document {
    Document { id: id.to_string(), document: text.map(|t| t.to_string()), metadata: None }
}

#[test]
fn decimal_text_of_numbers() {
    assert_eq!(decimal_text(0), "0");
    assert_eq!(decimal_text(7), "7");
    assert_eq!(decimal_text(10), "10");
    assert_eq!(decimal_text(1234567890), "1234567890");
    assert_eq!(decimal_text(usize::MAX), usize::MAX.to_string());
}

#[test]
fn new_browser_has_server_roots() {
    let state = BrowserState::new(&servers());
    assert_eq!(ids(&state.miller.roots), vec!["server:0", "server:1", "add:server"]);
    assert_eq!(labels(&state.miller.roots), vec!["First", "Second", "+ Add Server"]);
    assert!(state.miller.roots[0].is_branch() && state.miller.roots[1].is_branch());
    assert!(state.miller.roots[2].is_leaf());
    assert!(matches!(state.miller.roots[2].data, BrowserData::AddServer));
    match &state.miller.roots[1].data {
        BrowserData::Server { index, config } => {
            assert_eq!(*index, 1);
            assert_eq!(config, &servers()[1]);
        }
        _ => panic!("a server expected"),
    }
    assert!(state.miller.selection.is_empty());
    assert!(state.miller.children.is_empty());
    assert!(state.tenants_cache.is_empty());
    assert!(state.databases_cache.is_empty());
    assert!(state.collections_cache.is_empty());
    assert!(state.documents_cache.is_empty());
    assert!(state.selected_document.is_none() && state.dialog.is_none());
    let empty = BrowserState::new(&[]);
    assert_eq!(ids(&empty.miller.roots), vec!["add:server"]);
    assert!(BrowserState::default().miller.roots.is_empty());
}

#[test]
fn refresh_servers_replaces_the_roots() {
    let mut state = BrowserState::new(&servers());
    state.miller.select_at(0, "server:0".to_string());
    state.set_tenants(0, vec!["t".to_string()]);
    state.refresh_servers(&servers()[..1]);
    assert_eq!(ids(&state.miller.roots), vec!["server:0", "add:server"]);
    assert!(state.miller.selection.is_empty());
    assert!(state.miller.children.is_empty());
    assert_eq!(state.tenants_cache.get(&0), Some(&vec!["t".to_string()]));
}

#[test]
fn tenants_become_the_servers_children() {
    let mut state = BrowserState::new(&servers());
    state.set_tenants_loading(1);
    assert!(state.miller.get_column_state(&"server:1".to_string()).is_loading());
    state.set_tenants(1, vec!["acme".to_string(), "umbrella".to_string()]);
    let items = loaded(&state, "server:1");
    assert_eq!(ids(items), vec!["tenant:1:acme", "tenant:1:umbrella", "add:tenant:1"]);
    assert_eq!(labels(items), vec!["acme", "umbrella", "+ Add Tenant"]);
    assert!(items[0].is_branch() && items[2].is_leaf());
    assert!(matches!(&items[1].data, BrowserData::Tenant { server_index: 1, name } if name == "umbrella"));
    assert!(matches!(&items[2].data, BrowserData::AddTenant { server_index: 1 }));
    assert_eq!(state.tenants_cache.get(&1).map(|t| t.len()), Some(2));
    state.set_tenants_error(1, "refused".to_string());
    assert_eq!(state.miller.get_column_state(&"server:1".to_string()).error(), Some("refused"));
    assert!(matches!(
        state.miller.get_column_state(&"server:0".to_string()),
        ColumnState::NotLoaded
    ));
}

#[test]
fn databases_become_the_tenants_children() {
    let mut state = BrowserState::new(&servers());
    state.set_databases_loading(0, "acme");
    assert!(state.miller.get_column_state(&"tenant:0:acme".to_string()).is_loading());
    state.set_databases(0, "acme", vec!["main".to_string()]);
    let items = loaded(&state, "tenant:0:acme");
    assert_eq!(ids(items), vec!["database:0:acme:main", "add:database:0:acme"]);
    assert_eq!(labels(items), vec!["main", "+ Add Database"]);
    assert!(matches!(
        &items[0].data,
        BrowserData::Database { server_index: 0, tenant, name } if tenant == "acme" && name == "main"
    ));
    assert!(matches!(
        &items[1].data,
        BrowserData::AddDatabase { server_index: 0, tenant } if tenant == "acme"
    ));
    assert_eq!(state.databases_cache.get("0:acme"), Some(&vec!["main".to_string()]));
    state.set_databases_error(0, "acme", "gone".to_string());
    assert_eq!(state.miller.get_column_state(&"tenant:0:acme".to_string()).error(), Some("gone"));
}

#[test]
fn collections_become_the_databases_children() {
    let mut state = BrowserState::new(&servers());
    state.set_collections_loading(12, "acme", "main");
    assert!(state.miller.get_column_state(&"database:12:acme:main".to_string()).is_loading());
    let collection = Collection { id: "c-1".to_string(), name: "notes".to_string(), metadata: None };
    state.set_collections(12, "acme", "main", vec![collection]);
    let items = loaded(&state, "database:12:acme:main");
    assert_eq!(ids(items), vec!["collection:12:acme:main:c-1", "add:collection:12:acme:main"]);
    assert_eq!(labels(items), vec!["notes", "+ Add Collection"]);
    assert!(items[0].is_branch() && items[1].is_leaf());
    match &items[0].data {
        BrowserData::Collection { server_index, tenant, database, collection } => {
            assert_eq!((*server_index, tenant.as_str(), database.as_str()), (12, "acme", "main"));
            assert_eq!((collection.id.as_str(), collection.name.as_str()), ("c-1", "notes"));
        }
        _ => panic!("a collection expected"),
    }
    assert_eq!(state.collections_cache.get("12:acme:main").map(|c| c.len()), Some(1));
    state.set_collections_error(12, "acme", "main", "x".to_string());
    assert!(state.miller.get_column_state(&"database:12:acme:main".to_string()).is_error());
}

#[test]
fn documents_become_the_collections_children() {
    let mut state = BrowserState::new(&servers());
    state.set_documents_loading(0, "t", "d", "c");
    assert!(state.miller.get_column_state(&"collection:0:t:d:c".to_string()).is_loading());
    let long = "0123456789".repeat(5);
    let exactly = "0123456789".repeat(4);
    state.set_documents(
        0,
        "t",
        "d",
        "c",
        vec![doc("d1", Some("short")), doc("d2", None), doc("d3", Some(&long)), doc("d4", Some(&exactly))],
    );
    let items = loaded(&state, "collection:0:t:d:c");
    assert_eq!(
        ids(items),
        vec!["document:0:t:d:c:d1", "document:0:t:d:c:d2", "document:0:t:d:c:d3", "document:0:t:d:c:d4"]
    );
    assert_eq!(
        labels(items),
        vec![
            "short",
            "d2",
            "0123456789012345678901234567890123456789...",
            "0123456789012345678901234567890123456789"
        ]
    );
    assert!(items.iter().all(|i| i.is_leaf()));
    match &items[0].data {
        BrowserData::Document { server_index, tenant, database, collection_id, document } => {
            assert_eq!(
                (*server_index, tenant.as_str(), database.as_str(), collection_id.as_str()),
                (0, "t", "d", "c")
            );
            assert_eq!(document.id, "d1");
            assert_eq!(document.document.as_deref(), Some("short"));
        }
        _ => panic!("a document expected"),
    }
    assert_eq!(state.documents_cache.get("0:t:d:c").map(|d| d.len()), Some(4));
    state.set_documents_error(0, "t", "d", "c", "x".to_string());
    assert!(state.miller.get_column_state(&"collection:0:t:d:c".to_string()).is_error());
    assert_eq!(PREVIEW_BYTES, 40);
}

#[test]
fn preview_is_cut_by_bytes() {
    // 39 one-byte characters, then a two-byte one: 41 bytes, and byte 40 is
    // inside the last character only if the cut were one later
    let text = format!("{}\u{e9}x", "a".repeat(38));
    assert_eq!(text.len(), 41);
    assert!(text.is_char_boundary(40));
    let items = BrowserState::build_document_items(0, "t", "d", "c", &[doc("id", Some(&text))]);
    assert_eq!(items[0].label, format!("{}\u{e9}...", "a".repeat(38)));
}

#[test]
fn selecting_a_server_asks_for_its_tenants() {
    let servers = servers();
    let mut state = BrowserState::new(&servers);
    state.selected_document = Some(doc("old", None));
    let item = state.miller.roots[1].clone();
    let fetch = state.on_select(vec!["server:1".to_string()], &item, &servers);
    assert_eq!(
        fetch,
        BrowserFetch::Tenants {
            server_index: 1,
            access: ServerAccess {
                url: "http://second:9000".to_string(),
                token: "tok".to_string(),
                auth_header_type: "x-chroma-token".to_string(),
            },
        }
    );
    assert_eq!(state.miller.selection, vec!["server:1".to_string()]);
    assert!(state.miller.get_column_state(&"server:1".to_string()).is_loading());
    assert!(state.selected_document.is_none());
    assert_eq!(state.miller.visible_column_count(), 2);
    assert_eq!(ServerAccess::of(&servers[0]).url, "http://localhost:8000");
}

#[test]
fn selecting_down_the_tree_asks_for_each_level() {
    let servers = servers();
    let mut state = BrowserState::new(&servers);
    let access = ServerAccess::of(&servers[0]);

    let tenant = MillerItem::branch(
        "tenant:0:acme",
        "acme",
        BrowserData::Tenant { server_index: 0, name: "acme".to_string() },
    );
    let path = vec!["server:0".to_string(), "tenant:0:acme".to_string()];
    assert_eq!(
        state.on_select(path, &tenant, &servers),
        BrowserFetch::Databases { server_index: 0, tenant: "acme".to_string(), access: access.clone() }
    );
    assert!(state.miller.get_column_state(&"tenant:0:acme".to_string()).is_loading());

    let database = MillerItem::branch(
        "database:0:acme:main",
        "main",
        BrowserData::Database { server_index: 0, tenant: "acme".to_string(), name: "main".to_string() },
    );
    assert_eq!(
        state.on_select(vec!["x".to_string()], &database, &servers),
        BrowserFetch::Collections {
            server_index: 0,
            tenant: "acme".to_string(),
            database: "main".to_string(),
            access: access.clone(),
        }
    );
    assert!(state.miller.get_column_state(&"database:0:acme:main".to_string()).is_loading());

    let collection = MillerItem::branch(
        "collection:0:acme:main:c-1",
        "notes",
        BrowserData::Collection {
            server_index: 0,
            tenant: "acme".to_string(),
            database: "main".to_string(),
            collection: Collection { id: "c-1".to_string(), name: "notes".to_string(), metadata: None },
        },
    );
    assert_eq!(
        state.on_select(vec!["y".to_string()], &collection, &servers),
        BrowserFetch::Documents {
            server_index: 0,
            tenant: "acme".to_string(),
            database: "main".to_string(),
            collection_id: "c-1".to_string(),
            access,
            limit: 100,
            offset: 0,
        }
    );
    assert_eq!(DOCUMENTS_PER_FETCH, 100);
    assert!(state.miller.get_column_state(&"collection:0:acme:main:c-1".to_string()).is_loading());
    assert_eq!(state.miller.selection, vec!["y".to_string()]);
}

#[test]
fn selecting_a_document_previews_it() {
    let servers = servers();
    let mut state = BrowserState::new(&servers);
    let item = MillerItem::leaf(
        "document:0:t:d:c:d1",
        "short",
        BrowserData::Document {
            server_index: 0,
            tenant: "t".to_string(),
            database: "d".to_string(),
            collection_id: "c".to_string(),
            document: doc("d1", Some("short")),
        },
    );
    assert_eq!(state.on_select(vec!["p".to_string()], &item, &servers), BrowserFetch::Nothing);
    assert_eq!(state.selected_document.as_ref().map(|d| d.id.as_str()), Some("d1"));
    assert!(state.miller.children.is_empty());
    let add = state.miller.roots[2].clone();
    assert_eq!(state.on_select(vec!["add:server".to_string()], &add, &servers), BrowserFetch::Nothing);
    assert!(state.selected_document.is_none());
    assert!(state.dialog.is_none());
}

#[test]
fn activating_an_add_entry_opens_its_dialog() {
    let mut state = BrowserState::new(&servers());
    let add_server = state.miller.roots[2].clone();
    state.on_activate(&add_server);
    assert!(matches!(&state.dialog, Some(BrowserDialog::AddServer { name }) if name.is_empty()));
    state.on_dialog_input("New".to_string());
    assert!(matches!(&state.dialog, Some(BrowserDialog::AddServer { name }) if name == "New"));
    assert_eq!(state.dialog.as_ref().unwrap().name(), "New");

    let add_tenant = MillerItem::leaf("add:tenant:1", "+", BrowserData::AddTenant { server_index: 1 });
    state.on_activate(&add_tenant);
    assert!(matches!(
        &state.dialog,
        Some(BrowserDialog::AddTenant { server_index: 1, name }) if name.is_empty()
    ));
    let add_db = MillerItem::leaf(
        "add:database:1:t",
        "+",
        BrowserData::AddDatabase { server_index: 1, tenant: "t".to_string() },
    );
    state.on_activate(&add_db);
    state.on_dialog_input("db".to_string());
    assert!(matches!(
        &state.dialog,
        Some(BrowserDialog::AddDatabase { server_index: 1, tenant, name }) if tenant == "t" && name == "db"
    ));
    let add_col = MillerItem::leaf(
        "add:collection:1:t:d",
        "+",
        BrowserData::AddCollection { server_index: 1, tenant: "t".to_string(), database: "d".to_string() },
    );
    state.on_activate(&add_col);
    assert!(matches!(
        &state.dialog,
        Some(BrowserDialog::AddCollection { server_index: 1, tenant, database, name })
            if tenant == "t" && database == "d" && name.is_empty()
    ));
    state.on_dialog_cancel();
    assert!(state.dialog.is_none());
    state.on_dialog_input("ignored".to_string());
    assert!(state.dialog.is_none());
}

#[test]
fn activating_other_items() {
    let mut state = BrowserState::new(&servers());
    let server = state.miller.roots[0].clone();
    state.on_activate(&server);
    assert!(state.dialog.is_none() && state.selected_document.is_none());
    let item = MillerItem::leaf(
        "document:0:t:d:c:d1",
        "short",
        BrowserData::Document {
            server_index: 0,
            tenant: "t".to_string(),
            database: "d".to_string(),
            collection_id: "c".to_string(),
            document: doc("d1", Some("short")),
        },
    );
    state.on_activate(&item);
    assert_eq!(state.selected_document.as_ref().map(|d| d.id.as_str()), Some("d1"));
    assert!(state.miller.selection.is_empty());
}

#[test]
fn cutting_text_by_bytes() {
    assert_eq!(cut_text("hello world", 5), "hello...");
    assert_eq!(cut_text("hello", 5), "hello");
    assert_eq!(cut_text("hello", 9), "hello");
    assert_eq!(cut_text("", 0), "");
    assert_eq!(cut_text("abc", 0), "...");
    assert_eq!(cut_text("a\u{e9}b", 3), "a\u{e9}...");
    assert!(can_cut_text("hello world", 5));
    assert!(can_cut_text("a\u{e9}b", 1));
    assert!(!can_cut_text("a\u{e9}b", 2));
    assert!(can_cut_text("a\u{e9}b", 3));
    assert!(!can_cut_text("a\u{e9}", 2));
    assert!(can_cut_text("a\u{e9}", 3));
    assert!(can_cut_text("a\u{e9}b", 4));
    assert!(can_cut_text("a\u{e9}b", 400));
}

#[test]
fn labels_that_cannot_be_cut_are_told() {
    let split = format!("{}\u{e9}", "a".repeat(39));
    assert_eq!(split.len(), 41);
    assert!(!can_label_document(&doc("x", Some(&split))));
    assert!(can_label_document(&doc("x", Some("short"))));
    assert!(can_label_document(&doc("x", None)));
    let fits = format!("{}\u{e9}", "a".repeat(38));
    assert!(can_label_document(&doc("x", Some(&fits))));
}

#[test]
fn adding_a_tenant_extends_the_cached_list() {
    let mut state = BrowserState::new(&servers());
    assert!(state.add_tenant(0, "acme".to_string()));
    assert_eq!(state.tenants_cache.get(&0), Some(&vec!["acme".to_string()]));
    assert_eq!(ids(loaded(&state, "server:0")), vec!["tenant:0:acme", "add:tenant:0"]);
    assert!(state.add_tenant(0, "umbrella".to_string()));
    assert!(!state.add_tenant(0, "acme".to_string()));
    assert_eq!(
        state.tenants_cache.get(&0),
        Some(&vec!["acme".to_string(), "umbrella".to_string()])
    );
    assert_eq!(
        ids(loaded(&state, "server:0")),
        vec!["tenant:0:acme", "tenant:0:umbrella", "add:tenant:0"]
    );
    assert!(state.tenants_cache.get(&1).is_none());
    state.set_tenants_error(0, "x".to_string());
    assert!(!state.add_tenant(0, "umbrella".to_string()));
    assert!(state.miller.get_column_state(&"server:0".to_string()).is_error());
}

#[test]
fn adding_a_database_extends_the_cached_list() {
    let mut state = BrowserState::new(&servers());
    state.set_databases(1, "t", vec!["main".to_string()]);
    assert!(!state.add_database(1, "t", "main".to_string()));
    assert!(state.add_database(1, "t", "side".to_string()));
    assert_eq!(
        state.databases_cache.get("1:t"),
        Some(&vec!["main".to_string(), "side".to_string()])
    );
    assert_eq!(
        ids(loaded(&state, "tenant:1:t")),
        vec!["database:1:t:main", "database:1:t:side", "add:database:1:t"]
    );
    assert!(state.add_database(1, "other", "main".to_string()));
    assert_eq!(state.databases_cache.get("1:other"), Some(&vec!["main".to_string()]));
    assert_eq!(state.databases_cache.len(), 2);
}
