use fyre::config::{choose_address, config_file_name, default_server_addr, script_path};
use fyre::response::not_found_response;
use fyre::routes::{route_request, RouteDecision, RouteTable};

#[test]
fn register_and_lookup_exact_path() {
    let mut table = RouteTable::new();
    table.register("/hello".to_string(), "scripts/hello.lua".to_string());
    table.register("/about".to_string(), "scripts/about.lua".to_string());

    assert_eq!(
        table.lookup(&"/hello".to_string()),
        Some("scripts/hello.lua".to_string())
    );
    assert_eq!(
        table.lookup(&"/about".to_string()),
        Some("scripts/about.lua".to_string())
    );
    assert_eq!(table.lookup(&"/missing".to_string()), None);
}

#[test]
fn routing_is_case_sensitive_and_unnormalized() {
    let mut table = RouteTable::new();
    table.register("/hello".to_string(), "scripts/hello.lua".to_string());

    assert_eq!(table.lookup(&"/Hello".to_string()), None);
    assert_eq!(table.lookup(&"/hello/".to_string()), None);
    assert_eq!(table.lookup(&"/hello?q=1".to_string()), None);
}

#[test]
fn route_request_hits_script_and_misses_to_not_found() {
    let mut table = RouteTable::new();
    table.register("/a".to_string(), "scripts/a.lua".to_string());

    assert_eq!(
        route_request(&table, &"/a".to_string()),
        RouteDecision::Execute("scripts/a.lua".to_string())
    );
    assert_eq!(
        route_request(&table, &"/b".to_string()),
        RouteDecision::NotFound
    );

    let nf = not_found_response();
    assert_eq!(nf.status, 404);
    assert_eq!(nf.body, "404 Not Found");
    assert!(nf.headers.is_empty());
}

#[test]
fn last_registration_wins_silently() {
    let mut table = RouteTable::new();
    table.register("/x".to_string(), "scripts/first.lua".to_string());
    table.register("/x".to_string(), "scripts/second.lua".to_string());

    assert_eq!(
        table.lookup(&"/x".to_string()),
        Some("scripts/second.lua".to_string())
    );
}

#[test]
fn register_checked_missing_script_fails_and_leaves_table_unchanged() {
    let mut table = RouteTable::new();
    let r = table.register_checked(
        "/x".to_string(),
        "scripts/x.lua".to_string(),
        false,
    );
    let err = r.unwrap_err();
    assert_eq!(err.missing_script, "scripts/x.lua");
    assert_eq!(err.message(), "Handler script not found: scripts/x.lua");
    assert_eq!(table.lookup(&"/x".to_string()), None);
}

#[test]
fn register_checked_existing_script_registers() {
    let mut table = RouteTable::new();
    let r = table.register_checked(
        "/x".to_string(),
        "scripts/x.lua".to_string(),
        true,
    );
    assert!(r.is_ok());
    assert_eq!(
        table.lookup(&"/x".to_string()),
        Some("scripts/x.lua".to_string())
    );
}

#[test]
fn reloading_the_same_registrations_is_idempotent() {
    let regs = vec![
        ("/a".to_string(), "scripts/a.lua".to_string()),
        ("/b".to_string(), "scripts/b.lua".to_string()),
        ("/a".to_string(), "scripts/a2.lua".to_string()),
    ];

    let mut t1 = RouteTable::new();
    t1.register_all(&regs);
    let mut t2 = RouteTable::new();
    t2.register_all(&regs);

    for path in ["/a", "/b", "/c"] {
        assert_eq!(t1.lookup(&path.to_string()), t2.lookup(&path.to_string()));
    }
    assert_eq!(
        t1.lookup(&"/a".to_string()),
        Some("scripts/a2.lua".to_string())
    );
}

#[test]
fn address_precedence_cli_then_config_then_default() {
    assert_eq!(
        choose_address(Some("1.2.3.4:80".to_string()), Some("5.6.7.8:90".to_string())),
        "1.2.3.4:80"
    );
    assert_eq!(
        choose_address(None, Some("5.6.7.8:90".to_string())),
        "5.6.7.8:90"
    );
    assert_eq!(choose_address(None, None), "0.0.0.0:8000");
    assert_eq!(default_server_addr(), "0.0.0.0:8000");
}

#[test]
fn script_paths_resolve_under_scripts_dir() {
    assert_eq!(script_path("hello.lua"), "scripts/hello.lua");
    assert_eq!(config_file_name(), "config.lua");
}
