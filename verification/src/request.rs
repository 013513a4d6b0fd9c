//! The model of an HTTP request against the data store's query
//! interface: method, URL, basic-auth credentials, scoping headers and
//! body, all as plain values. The surrounding process turns one of
//! these into a real HTTP request and sends it.

use vstd::prelude::*;
use vstd::string::StringExecFns;

verus! {

/// The data store connection settings: base URL and basic-auth
/// credentials.
pub struct DbConfig {
    pub url: String,
    pub username: String,
    pub password: String,
}

#[derive(Clone, Copy, PartialEq, Eq, Structural, Debug)]
pub enum HttpMethod {
    Get,
    Post,
}

/// One request against the data store, as plain values: the `accept`
/// field is the `Accept` header, `ns_header` and `db_header` are the
/// `NS` and `DB` scoping headers, and `body` is the query text.
pub struct HttpRequest {
    pub method: HttpMethod,
    pub url: String,
    pub username: String,
    pub password: String,
    pub accept: String,
    pub ns_header: Option<String>,
    pub db_header: Option<String>,
    pub body: Option<String>,
}

/// What every base request states regardless of method: the URL is the
/// configured base URL followed by the path, basic auth carries the
/// configured credentials, JSON is accepted, and no scoping headers or
/// body are set yet.
pub open spec fn is_base_request(r: HttpRequest, cfg: DbConfig, path: Seq<char>) -> bool {
    &&& r.url@ == cfg.url@ + path
    &&& r.username@ == cfg.username@
    &&& r.password@ == cfg.password@
    &&& r.accept@ == "application/json"@
    &&& r.ns_header is None
    &&& r.db_header is None
    &&& r.body is None
}

/// A POST request to `path` under the configured base URL, with basic
/// auth and a JSON `Accept` header.
pub fn get_default_base_client_post(cfg: &DbConfig, path: &str) -> (r: HttpRequest)
    ensures
        r.method == HttpMethod::Post,
        is_base_request(r, *cfg, path@),
{
    HttpRequest {
        method: HttpMethod::Post,
        url: cfg.url.clone().concat(path),
        username: cfg.username.clone(),
        password: cfg.password.clone(),
        accept: String::from_str("application/json"),
        ns_header: None,
        db_header: None,
        body: None,
    }
}

/// A GET request to `path` under the configured base URL, with basic
/// auth and a JSON `Accept` header.
pub fn get_default_base_client_get(cfg: &DbConfig, path: &str) -> (r: HttpRequest)
    ensures
        r.method == HttpMethod::Get,
        is_base_request(r, *cfg, path@),
{
    HttpRequest {
        method: HttpMethod::Get,
        url: cfg.url.clone().concat(path),
        username: cfg.username.clone(),
        password: cfg.password.clone(),
        accept: String::from_str("application/json"),
        ns_header: None,
        db_header: None,
        body: None,
    }
}

/// The instance-wide metadata query used both as the credential probe
/// and by the namespace enumerator: `INFO FOR KV;` posted to `/sql`.
pub fn info_for_kv_request(cfg: &DbConfig) -> (r: HttpRequest)
    ensures
        r.method == HttpMethod::Post,
        r.url@ == cfg.url@ + "/sql"@,
        r.username@ == cfg.username@,
        r.password@ == cfg.password@,
        r.accept@ == "application/json"@,
        r.ns_header is None,
        r.db_header is None,
        r.body matches Some(s) ==> s@ == "INFO FOR KV;"@,
        r.body is Some,
{
    let mut r = get_default_base_client_post(cfg, "/sql");
    r.body = Some(String::from_str("INFO FOR KV;"));
    r
}

/// The namespace-scoped metadata query used by the database enumerator:
/// `INFO FOR NS;` posted to `/sql` with the `NS` header set.
pub fn info_for_ns_request(cfg: &DbConfig, namespace: &String) -> (r: HttpRequest)
    ensures
        r.method == HttpMethod::Post,
        r.url@ == cfg.url@ + "/sql"@,
        r.username@ == cfg.username@,
        r.password@ == cfg.password@,
        r.accept@ == "application/json"@,
        r.ns_header matches Some(ns) ==> ns@ == namespace@,
        r.ns_header is Some,
        r.db_header is None,
        r.body matches Some(s) ==> s@ == "INFO FOR NS;"@,
        r.body is Some,
{
    let mut r = get_default_base_client_post(cfg, "/sql");
    r.ns_header = Some(namespace.clone());
    r.body = Some(String::from_str("INFO FOR NS;"));
    r
}

/// The streaming dump request for one namespace and database: GET
/// `/export` with the `NS` and `DB` headers set and no body.
pub fn export_request(cfg: &DbConfig, namespace: &String, database: &String) -> (r: HttpRequest)
    ensures
        r.method == HttpMethod::Get,
        r.url@ == cfg.url@ + "/export"@,
        r.username@ == cfg.username@,
        r.password@ == cfg.password@,
        r.accept@ == "application/json"@,
        r.ns_header matches Some(ns) ==> ns@ == namespace@,
        r.ns_header is Some,
        r.db_header matches Some(db) ==> db@ == database@,
        r.db_header is Some,
        r.body is None,
{
    let mut r = get_default_base_client_get(cfg, "/export");
    r.ns_header = Some(namespace.clone());
    r.db_header = Some(database.clone());
    r
}

} // verus!
