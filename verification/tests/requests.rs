use backup_man::request::{
    export_request, get_default_base_client_get, get_default_base_client_post,
    info_for_kv_request, info_for_ns_request, DbConfig, HttpMethod,
};

fn db_config() -> DbConfig {
    DbConfig {
        url: "http://localhost:8000".to_string(),
        username: "root".to_string(),
        password: "root".to_string(),
    }
}

#[test]
fn base_post_request_joins_url_and_carries_auth() {
    let r = get_default_base_client_post(&db_config(), "/sql");
    assert_eq!(r.method, HttpMethod::Post);
    assert_eq!(r.url, "http://localhost:8000/sql");
    assert_eq!(r.username, "root");
    assert_eq!(r.password, "root");
    assert_eq!(r.accept, "application/json");
    assert!(r.ns_header.is_none());
    assert!(r.db_header.is_none());
    assert!(r.body.is_none());
}

#[test]
fn base_get_request_joins_url_and_carries_auth() {
    let r = get_default_base_client_get(&db_config(), "/export");
    assert_eq!(r.method, HttpMethod::Get);
    assert_eq!(r.url, "http://localhost:8000/export");
    assert_eq!(r.accept, "application/json");
}

#[test]
fn instance_info_query_posts_info_for_kv() {
    let r = info_for_kv_request(&db_config());
    assert_eq!(r.method, HttpMethod::Post);
    assert_eq!(r.url, "http://localhost:8000/sql");
    assert_eq!(r.body.as_deref(), Some("INFO FOR KV;"));
    assert!(r.ns_header.is_none());
}

#[test]
fn namespace_info_query_scopes_with_ns_header() {
    let r = info_for_ns_request(&db_config(), &"prod".to_string());
    assert_eq!(r.body.as_deref(), Some("INFO FOR NS;"));
    assert_eq!(r.ns_header.as_deref(), Some("prod"));
    assert!(r.db_header.is_none());
}

#[test]
fn export_request_scopes_with_both_headers() {
    let r = export_request(&db_config(), &"prod".to_string(), &"users".to_string());
    assert_eq!(r.method, HttpMethod::Get);
    assert_eq!(r.url, "http://localhost:8000/export");
    assert_eq!(r.ns_header.as_deref(), Some("prod"));
    assert_eq!(r.db_header.as_deref(), Some("users"));
    assert!(r.body.is_none());
}
