use hyper::header::HeaderValue;
use hyper::HeaderMap;
use rust_api::cors::{holds, join};
use rust_api::{Cors, CorsConfig, Middleware, Req, Res};

fn strings(items: &[&str]) -> Vec<String> {
    items.iter().map(|s| s.to_string()).collect()
}

fn line(name: &str, value: &str) -> (String, String) {
    (name.to_string(), value.to_string())
}

fn request(method: &str, origin: Option<&'static str>) -> Req {
    let mut headers = HeaderMap::new();
    if let Some(origin) = origin {
        headers.insert("origin", HeaderValue::from_static(origin));
    }
    Req::new(method, "/api", None, headers)
}

#[test]
fn permissive_configuration() {
    let config = CorsConfig::permissive();
    assert_eq!(config.allow_origins, strings(&["*"]));
    assert_eq!(config.allow_methods, strings(&["GET", "POST", "PUT", "DELETE", "PATCH", "OPTIONS"]));
    assert_eq!(config.allow_headers, strings(&["*"]));
    assert!(config.expose_headers.is_empty());
    assert_eq!(config.max_age, Some(3600));
    assert!(!config.allow_credentials);
    let default = CorsConfig::default();
    assert_eq!(default.allow_origins, config.allow_origins);
    assert_eq!(default.max_age, config.max_age);
}

#[test]
fn restrictive_configuration() {
    let config = CorsConfig::restrictive();
    assert!(config.allow_origins.is_empty());
    assert_eq!(config.allow_methods, strings(&["GET", "POST"]));
    assert_eq!(config.allow_headers, strings(&["Content-Type"]));
    assert!(config.expose_headers.is_empty());
    assert_eq!(config.max_age, Some(600));
    assert!(!config.allow_credentials);
}

#[test]
fn configuration_setters() {
    let config = CorsConfig::restrictive()
        .allow_origins(strings(&["https://a.example"]))
        .allow_methods(strings(&["PUT"]))
        .allow_headers(strings(&["X-A", "X-B"]))
        .expose_headers(strings(&["X-Total"]))
        .max_age(7200)
        .allow_credentials(true);
    assert_eq!(config.allow_origins, strings(&["https://a.example"]));
    assert_eq!(config.allow_methods, strings(&["PUT"]));
    assert_eq!(config.allow_headers, strings(&["X-A", "X-B"]));
    assert_eq!(config.expose_headers, strings(&["X-Total"]));
    assert_eq!(config.max_age, Some(7200));
    assert!(config.allow_credentials);
}

#[test]
fn allowed_origins() {
    assert!(Cors::permissive().is_origin_allowed("https://anywhere.example"));
    assert!(Cors::default().is_origin_allowed(""));
    assert!(!Cors::restrictive().is_origin_allowed("https://a.example"));
    let cors = Cors::new(CorsConfig::restrictive().allow_origins(strings(&["https://a.example"])));
    assert!(cors.is_origin_allowed("https://a.example"));
    assert!(!cors.is_origin_allowed("https://b.example"));
    assert!(!cors.is_origin_allowed("https://A.example"));
}

#[test]
fn preflight_for_every_origin() {
    let res = Cors::permissive().build_preflight_response(Some("https://a.example"));
    assert_eq!(res.status_code(), 204);
    assert!(res.body().is_empty());
    assert_eq!(
        res.headers(),
        &vec![
            line("Content-Type", "text/plain; charset=utf-8"),
            line("Access-Control-Allow-Origin", "*"),
            line("Access-Control-Allow-Methods", "GET, POST, PUT, DELETE, PATCH, OPTIONS"),
            line("Access-Control-Allow-Headers", "*"),
            line("Access-Control-Max-Age", "3600"),
        ]
    );
}

#[test]
fn preflight_for_a_listed_origin() {
    let cors = Cors::new(
        CorsConfig::restrictive()
            .allow_origins(strings(&["https://a.example"]))
            .allow_credentials(true),
    );
    let res = cors.build_preflight_response(Some("https://a.example"));
    assert_eq!(
        res.headers(),
        &vec![
            line("Content-Type", "text/plain; charset=utf-8"),
            line("Access-Control-Allow-Origin", "https://a.example"),
            line("Vary", "Origin"),
            line("Access-Control-Allow-Methods", "GET, POST"),
            line("Access-Control-Allow-Headers", "Content-Type"),
            line("Access-Control-Max-Age", "600"),
            line("Access-Control-Allow-Credentials", "true"),
        ]
    );
}

#[test]
fn preflight_without_an_allowed_origin_is_bare() {
    let cors = Cors::restrictive();
    let bare = Res::builder().status(204).text("");
    assert_eq!(cors.build_preflight_response(Some("https://a.example")), bare);
    assert_eq!(cors.build_preflight_response(None), bare);
    assert_eq!(Cors::permissive().build_preflight_response(None), bare);
}

#[test]
fn preflight_leaves_out_what_is_not_set() {
    let mut config = CorsConfig::permissive().allow_methods(Vec::new()).allow_headers(Vec::new());
    config.max_age = None;
    let res = Cors::new(config).build_preflight_response(Some("https://a.example"));
    assert_eq!(
        res.headers(),
        &vec![
            line("Content-Type", "text/plain; charset=utf-8"),
            line("Access-Control-Allow-Origin", "*"),
        ]
    );
}

#[test]
fn actual_response_gets_the_sharing_headers() {
    let cors = Cors::new(
        CorsConfig::restrictive()
            .allow_origins(strings(&["https://a.example"]))
            .expose_headers(strings(&["X-Total", "X-Page"]))
            .allow_credentials(true),
    );
    let res = cors.add_cors_headers(Res::status(200), Some("https://a.example"));
    assert_eq!(
        res.headers(),
        &vec![
            line("Access-Control-Allow-Origin", "https://a.example"),
            line("Vary", "Origin"),
            line("Access-Control-Expose-Headers", "X-Total, X-Page"),
            line("Access-Control-Allow-Credentials", "true"),
        ]
    );
    assert_eq!(cors.add_cors_headers(Res::status(200), Some("https://b.example")), Res::status(200));
    assert_eq!(cors.add_cors_headers(Res::status(200), None), Res::status(200));
    let res = Cors::permissive().add_cors_headers(Res::status(200), Some("https://b.example"));
    assert_eq!(res.headers(), &vec![line("Access-Control-Allow-Origin", "*")]);
}

#[test]
fn preflight_request_is_answered_without_the_handler() {
    let cors = Cors::permissive();
    let res = cors.handle(request("OPTIONS", Some("https://a.example")), &(), |_req| {
        panic!("the handler ran on a preflight request")
    });
    assert_eq!(res, cors.build_preflight_response(Some("https://a.example")));
}

#[test]
fn other_requests_go_on_and_are_decorated() {
    let cors = Cors::permissive();
    let res = cors.handle(request("GET", Some("https://a.example")), &(), |_req| Res::text("x"));
    assert_eq!(res, Res::text("x").with_header("Access-Control-Allow-Origin", "*"));
    let res = cors.handle(request("GET", None), &(), |_req| Res::text("x"));
    assert_eq!(res, Res::text("x"));
    let res = cors.handle(request("options", None), &(), |_req| Res::text("lower case"));
    assert_eq!(res, Res::text("lower case"));
}

#[test]
fn joined_lists() {
    assert_eq!(join(&strings(&[]), ", "), "");
    assert_eq!(join(&strings(&["a"]), ", "), "a");
    assert_eq!(join(&strings(&["a", "b", "c"]), ", "), "a, b, c");
    assert_eq!(join(&strings(&["", ""]), "-"), "-");
}

#[test]
fn list_membership() {
    assert!(holds(&strings(&["a", "*"]), "*"));
    assert!(!holds(&strings(&["a", "b"]), "*"));
    assert!(!holds(&strings(&[]), ""));
}
