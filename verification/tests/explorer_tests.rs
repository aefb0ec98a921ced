use dev_panels::explorer::{ddl_result_text, loading_key, table_element_id, ExplorerState, NewHostInputs};
use dev_panels::models::{AuthConfig, HostConfig, SqlApiHosts};

fn inputs(url: &str) -> NewHostInputs {
    NewHostInputs {
        host_url: Some(url.to_string()),
        bearer_token: Some("".to_string()),
        header_name: Some("X-API-Key".to_string()),
        header_value: Some("".to_string()),
        username: Some("".to_string()),
        password: Some("".to_string()),
    }
}

fn host(name: &str) -> HostConfig {
    HostConfig::new(name.to_string())
}

#[test]
fn new_host_has_no_authentication() {
    let h = HostConfig::new("https://db.local".to_string());
    assert_eq!(h.name, "https://db.local");
    let a = h.auth.clone().unwrap();
    assert_eq!(a.auth_type, "none");
    assert_eq!(a.token, None);
    assert_eq!(a.header_name, None);
    assert_eq!(a.header_value, None);
    assert_eq!(a.username, None);
    assert_eq!(a.password, None);
    assert_eq!(h.auth_summary(), "🌐 None");
}

#[test]
fn auth_summary_labels() {
    let mut h = host("h");
    let mut a = h.auth.clone().unwrap();
    a.auth_type = "bearer".to_string();
    h.auth = Some(a.clone());
    assert_eq!(h.auth_summary(), "🔑 Bearer");
    a.auth_type = "custom-header".to_string();
    h.auth = Some(a.clone());
    assert_eq!(h.auth_summary(), "🔖 Custom Header");
    a.auth_type = "basic".to_string();
    h.auth = Some(a.clone());
    assert_eq!(h.auth_summary(), "🔐 Basic");
    a.auth_type = "oauth".to_string();
    h.auth = Some(a);
    assert_eq!(h.auth_summary(), "🌐 None");
    h.auth = None;
    assert_eq!(h.auth_summary(), "🌐 None");
}

#[test]
fn shared_host_list_starts_empty() {
    assert!(SqlApiHosts::default().hosts.is_empty());
}

#[test]
fn empty_host_list_gets_example_host() {
    let s = ExplorerState::new(vec![]);
    assert_eq!(s.hosts.len(), 1);
    assert_eq!(s.hosts[0].name, "https://example.com");
    assert_eq!(s.hosts[0].auth_summary(), "🌐 None");
    assert_eq!(s.status, "Ready to work");
    assert!(!s.show_add_form);
    assert_eq!(s.new_auth_type, "none");
}

#[test]
fn saved_hosts_are_kept() {
    let s = ExplorerState::new(vec![host("a"), host("b")]);
    assert_eq!(s.hosts.len(), 2);
    assert_eq!(s.hosts[1].name, "b");
}

#[test]
fn add_host_requires_a_url() {
    let mut s = ExplorerState::new(vec![host("a")]);
    s.toggle_add_form();
    assert!(!s.add_host(&inputs("   ")));
    assert_eq!(s.status, "❌ Enter host URL");
    assert_eq!(s.hosts.len(), 1);
    assert!(s.show_add_form);
    let mut none = inputs("x");
    none.host_url = None;
    assert!(!s.add_host(&none));
}

#[test]
fn add_host_with_bearer_token() {
    let mut s = ExplorerState::new(vec![host("a")]);
    assert!(s.toggle_add_form());
    s.set_auth_type("bearer");
    let mut i = inputs("  https://api.example.org/  ");
    i.bearer_token = Some("  tok123 ".to_string());
    assert!(s.add_host(&i));
    assert_eq!(s.hosts.len(), 2);
    let h = &s.hosts[1];
    assert_eq!(h.name, "https://api.example.org/");
    let a = h.auth.clone().unwrap();
    assert_eq!(a.auth_type, "bearer");
    assert_eq!(a.token, Some("tok123".to_string()));
    assert_eq!(a.username, None);
    assert_eq!(s.status, "✅ Host added (2 all)");
    assert!(!s.show_add_form);
    assert_eq!(s.new_auth_type, "none");
}

#[test]
fn add_host_blank_token_is_none() {
    let mut s = ExplorerState::new(vec![host("a")]);
    s.set_auth_type("bearer");
    assert!(s.add_host(&inputs("h2")));
    assert_eq!(s.hosts[1].auth.clone().unwrap().token, None);
}

#[test]
fn add_host_with_custom_header_and_basic() {
    let mut s = ExplorerState::new(vec![host("a")]);
    s.set_auth_type("custom-header");
    let mut i = inputs("h2");
    i.header_value = Some(" secret ".to_string());
    assert!(s.add_host(&i));
    let a = s.hosts[1].auth.clone().unwrap();
    assert_eq!(a.auth_type, "custom-header");
    assert_eq!(a.header_name, Some("X-API-Key".to_string()));
    assert_eq!(a.header_value, Some("secret".to_string()));

    s.set_auth_type("basic");
    let mut i = inputs("h3");
    i.username = Some("bob".to_string());
    i.password = Some("  ".to_string());
    assert!(s.add_host(&i));
    let a = s.hosts[2].auth.clone().unwrap();
    assert_eq!(a.auth_type, "basic");
    assert_eq!(a.username, Some("bob".to_string()));
    // a blank password is kept (empty), unlike the other fields
    assert_eq!(a.password, Some("".to_string()));
    assert_eq!(s.status, "✅ Host added (3 all)");
}

#[test]
fn add_host_without_auth_type() {
    let mut s = ExplorerState::new(vec![host("a")]);
    assert!(s.add_host(&inputs("h2")));
    assert_eq!(s.hosts[1].auth, None::<AuthConfig>);
    assert_eq!(s.hosts[1].auth_summary(), "🌐 None");
}

#[test]
fn toggle_add_form_and_close() {
    let mut s = ExplorerState::new(vec![host("a")]);
    assert_eq!(s.add_form_button_label(), "＋ Add Host");
    assert!(s.toggle_add_form());
    assert_eq!(s.add_form_button_label(), "✕ Close");
    s.set_auth_type("basic");
    s.close_add_form();
    assert!(!s.show_add_form);
    assert_eq!(s.new_auth_type, "none");
    assert!(s.toggle_add_form());
    assert!(!s.toggle_add_form());
}

#[test]
fn toggle_host_starts_schema_load_once() {
    let mut s = ExplorerState::new(vec![host("a"), host("b")]);
    let a = "a".to_string();
    let fetch = s.toggle_host(&a);
    assert_eq!(fetch.map(|h| h.name), Some("a".to_string()));
    assert!(s.is_host_expanded(&a));
    // collapsing and expanding again while loading starts nothing new
    assert!(s.toggle_host(&a).is_none());
    assert!(!s.is_host_expanded(&a));
    assert!(s.toggle_host(&a).is_none());
    s.finish_fetch_schemas(&a, Ok(vec!["public".to_string(), "sales".to_string()]));
    assert_eq!(s.schemas_of(&a), vec!["public".to_string(), "sales".to_string()]);
    // loaded schemas are not fetched again
    assert!(s.toggle_host(&a).is_none());
    assert!(s.toggle_host(&a).is_none());
}

#[test]
fn toggle_host_twice_restores_expansion() {
    let mut s = ExplorerState::new(vec![host("a")]);
    let a = "a".to_string();
    let before = s.is_host_expanded(&a);
    s.toggle_host(&a);
    s.toggle_host(&a);
    assert_eq!(s.is_host_expanded(&a), before);
}

#[test]
fn toggle_unknown_host_loads_nothing() {
    let mut s = ExplorerState::new(vec![host("a")]);
    let z = "zzz".to_string();
    assert!(s.toggle_host(&z).is_none());
    assert!(s.is_host_expanded(&z));
    // nothing is left loading, so a later toggle may try again
    s.toggle_host(&z);
    assert!(s.toggle_host(&z).is_none());
}

#[test]
fn schema_load_error_goes_to_status() {
    let mut s = ExplorerState::new(vec![host("a")]);
    let a = "a".to_string();
    s.toggle_host(&a);
    s.finish_fetch_schemas(&a, Err("HTTP error: 500".to_string()));
    assert_eq!(s.status, "❌ HTTP error: 500");
    assert!(s.schemas_of(&a).is_empty());
    // the host is no longer loading: collapse and expand fetches again
    s.toggle_host(&a);
    assert!(s.toggle_host(&a).is_some());
}

#[test]
fn toggle_schema_and_tables() {
    let mut s = ExplorerState::new(vec![host("a")]);
    let (a, p) = ("a".to_string(), "public".to_string());
    let fetch = s.toggle_schema(&a, &p);
    assert!(fetch.is_some());
    assert!(s.is_schema_expanded(&a, &p));
    assert!(s.is_loading_tables(&a, &p));
    assert!(s.toggle_schema(&a, &p).is_none());
    assert!(!s.is_schema_expanded(&a, &p));
    s.finish_fetch_tables(&a, &p, Ok(vec!["users".to_string()]));
    assert!(!s.is_loading_tables(&a, &p));
    assert_eq!(s.tables_of(&a, &p), vec!["users".to_string()]);
    assert!(s.toggle_schema(&a, &p).is_none());
    assert!(s.is_schema_expanded(&a, &p));
}

#[test]
fn table_load_error_goes_to_status() {
    let mut s = ExplorerState::new(vec![host("a")]);
    let (a, p) = ("a".to_string(), "p".to_string());
    s.toggle_schema(&a, &p);
    s.finish_fetch_tables(&a, &p, Err("Request failed: timeout".to_string()));
    assert_eq!(s.status, "❌ Request failed: timeout");
    assert!(s.tables_of(&a, &p).is_empty());
    assert!(!s.is_loading_tables(&a, &p));
}

#[test]
fn delete_host_forgets_its_tree() {
    let mut s = ExplorerState::new(vec![host("a"), host("b")]);
    let (a, b, p) = ("a".to_string(), "b".to_string(), "p".to_string());
    s.toggle_host(&a);
    s.finish_fetch_schemas(&a, Ok(vec![p.clone()]));
    s.toggle_schema(&a, &p);
    s.toggle_host(&b);
    s.finish_fetch_schemas(&b, Ok(vec![p.clone()]));
    s.toggle_schema(&b, &p);
    s.finish_fetch_tables(&b, &p, Ok(vec!["t".to_string()]));
    assert!(s.delete_host(0));
    assert_eq!(s.status, "🗑️ Host deleted");
    assert_eq!(s.hosts.len(), 1);
    assert_eq!(s.hosts[0].name, "b");
    assert!(!s.is_host_expanded(&a));
    assert!(s.schemas_of(&a).is_empty());
    assert!(!s.is_schema_expanded(&a, &p));
    assert!(!s.is_loading_tables(&a, &p));
    // the other host keeps its tree
    assert!(s.is_host_expanded(&b));
    assert_eq!(s.schemas_of(&b), vec![p.clone()]);
    assert_eq!(s.tables_of(&b, &p), vec!["t".to_string()]);
    assert!(!s.delete_host(5));
    assert_eq!(s.hosts.len(), 1);
}

#[test]
fn open_table_data_and_ddl() {
    let mut s = ExplorerState::new(vec![host("a")]);
    let (a, p, t) = ("a".to_string(), "public".to_string(), "users".to_string());
    assert!(s.open_table_data(&a, &p, &t, false).is_none());
    assert_eq!(s.status, "❌ Workspace unavailable");
    assert_eq!(s.open_table_data(&a, &p, &t, true).map(|h| h.name), Some("a".to_string()));
    assert_eq!(s.status, "📋 Table is opened: public.users");
    let x = "x".to_string();
    assert!(s.open_table_data(&x, &p, &t, true).is_none());
    assert_eq!(s.status, "❌ Host x not found");
    let job = s.open_table_ddl(&a, &p, &t).unwrap();
    assert_eq!(job.title, "DDL: public.users");
    assert_eq!(job.loading_text, "⏳ DDL generation for table...\n\nWait...");
    assert_eq!(job.host.name, "a");
    assert_eq!(s.status, "✅ DDL generation for public.users started");
    assert!(s.open_table_ddl(&x, &p, &t).is_none());
    assert_eq!(s.status, "❌ Host x not found");
}

#[test]
fn refresh_sets_status() {
    let mut s = ExplorerState::new(vec![host("a")]);
    s.refresh();
    assert_eq!(s.status, "🔄 Updated");
}

#[test]
fn ddl_result_texts() {
    assert_eq!(ddl_result_text(Ok("CREATE TABLE x".to_string())), "CREATE TABLE x");
    assert_eq!(ddl_result_text(Err("boom".to_string())), "❌ DDL generation ERROR:\n\nboom");
}

#[test]
fn tree_ids_and_keys() {
    assert_eq!(loading_key("h", "s"), "h|s");
    assert_eq!(table_element_id("https://db.io:8080", "public", "users"), "table-https___db_io_8080-public-users");
}
