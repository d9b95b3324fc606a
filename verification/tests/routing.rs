use static_pages::app_set::AppSet;
use static_pages::assets::StaticAssetStore;
use static_pages::http::{RequestMeta, Response, ResponseBody};
use static_pages::init::AppConfig;
use static_pages::router::Router;
use static_pages::templates::TemplateRegistry;

fn request(path: &str) -> RequestMeta {
    RequestMeta {
        path: path.to_string(),
        host: None,
        connection: None,
        user_agent: None,
        forwarded_ip: None,
        accept_encoding: None,
        accept_language: None,
    }
}

fn body_text(r: &Response) -> &str {
    match &r.body {
        ResponseBody::Text(t) => t.as_str(),
        ResponseBody::Bytes(_) => panic!("expected a text body"),
    }
}

fn body_bytes(r: &Response) -> &[u8] {
    match &r.body {
        ResponseBody::Bytes(b) => b.as_slice(),
        ResponseBody::Text(_) => panic!("expected a byte body"),
    }
}

fn demo_files() -> Vec<(String, Vec<u8>)> {
    vec![
        (
            "index.html".to_string(),
            b"{% if false %}hidden{% endif %}<h1>Welcome</h1>".to_vec(),
        ),
        ("style.css".to_string(), b"body { color: red; }".to_vec()),
        ("data.bin".to_string(), vec![0u8, 159, 146, 150]),
    ]
}

fn demo_router() -> Router {
    let app_set = AppSet::new(AppConfig::new(), demo_files()).expect("startup should succeed");
    app_set.handler
}

#[test]
fn root_path_serves_rendered_index() {
    let router = demo_router();
    let r = router.handle_request(&request("/"));
    assert_eq!(r.status, 200);
    assert_eq!(r.content_type, "text/html");
    assert_eq!(body_text(&r), "<h1>Welcome</h1>");
}

#[test]
fn css_asset_served_raw_with_guessed_type() {
    let router = demo_router();
    let r = router.handle_request(&request("/style.css"));
    assert_eq!(r.status, 200);
    assert_eq!(r.content_type, "text/css");
    assert_eq!(body_bytes(&r), b"body { color: red; }");
}

#[test]
fn unknown_extension_falls_back_to_octet_stream() {
    let router = demo_router();
    let r = router.handle_request(&request("/data.bin"));
    assert_eq!(r.status, 200);
    assert_eq!(r.content_type, "application/octet-stream");
    assert_eq!(body_bytes(&r), &[0u8, 159, 146, 150]);
}

#[test]
fn missing_asset_yields_404() {
    let router = demo_router();
    let r = router.handle_request(&request("/missing.png"));
    assert_eq!(r.status, 404);
    assert_eq!(r.content_type, "text/plain");
    assert_eq!(body_text(&r), "404 Not Found");
}

#[test]
fn repeated_requests_yield_identical_responses() {
    let router = demo_router();
    for path in ["/style.css", "/missing.png", "/data.bin"] {
        let a = router.handle_request(&request(path));
        let b = router.handle_request(&request(path));
        assert_eq!(a.status, b.status);
        assert_eq!(a.content_type, b.content_type);
        match (&a.body, &b.body) {
            (ResponseBody::Text(x), ResponseBody::Text(y)) => assert_eq!(x, y),
            (ResponseBody::Bytes(x), ResponseBody::Bytes(y)) => assert_eq!(x, y),
            _ => panic!("body kinds differ between identical requests"),
        }
    }
}

#[test]
fn store_round_trips_exact_bytes() {
    let files = demo_files();
    let store = StaticAssetStore::from_entries(files);
    assert_eq!(store.get("data.bin"), Some(&vec![0u8, 159, 146, 150]));
    assert_eq!(store.get("style.css"), Some(&b"body { color: red; }".to_vec()));
    assert_eq!(store.get("missing"), None);
}

#[test]
fn later_duplicate_name_wins() {
    let files = vec![
        ("a.txt".to_string(), b"first".to_vec()),
        ("a.txt".to_string(), b"second".to_vec()),
    ];
    let store = StaticAssetStore::from_entries(files);
    assert_eq!(store.get("a.txt"), Some(&b"second".to_vec()));
}

#[test]
fn empty_store_misses_every_path() {
    let store = StaticAssetStore::empty();
    assert_eq!(store.get("index.html"), None);
    assert_eq!(store.get(""), None);
}

#[test]
fn missing_asset_directory_degrades_to_all_404() {
    let app_set = AppSet::new(AppConfig::new(), Vec::new()).expect("empty startup must succeed");
    for path in ["/", "/index.html", "/anything", "/a/b/c.png"] {
        let r = app_set.handler.handle_request(&request(path));
        assert_eq!(r.status, 404);
        assert_eq!(body_text(&r), "404 Not Found");
    }
}

#[test]
fn directory_like_path_resolves_to_index_document() {
    let files = vec![("docs/index.html".to_string(), b"docs home".to_vec())];
    let app_set = AppSet::new(AppConfig::new(), files).expect("startup should succeed");
    let r = app_set.handler.handle_request(&request("/docs/"));
    assert_eq!(r.status, 200);
    assert_eq!(body_text(&r), "docs home");
}

#[test]
fn html_render_failure_degrades_to_500() {
    // The stored name is HTML but was never registered as a template, so the
    // engine cannot render it.
    let registry = TemplateRegistry::new();
    let store = StaticAssetStore::from_entries(vec![(
        "index.html".to_string(),
        b"<h1>unregistered</h1>".to_vec(),
    )]);
    let router = Router::new(&AppConfig::new(), registry, store);
    let r = router.handle_request(&request("/"));
    assert_eq!(r.status, 500);
    assert_eq!(r.content_type, "text/plain");
    assert_eq!(body_text(&r), "Template rendering error");
}

#[test]
fn broken_template_fails_startup() {
    let files = vec![("bad.html".to_string(), b"{% if %}".to_vec())];
    assert!(AppSet::new(AppConfig::new(), files).is_err());
}

#[test]
fn invalid_template_is_rejected_and_registry_unchanged() {
    let mut registry = TemplateRegistry::new();
    assert!(registry.register("bad.html", "{% endfor %}").is_err());
    assert!(registry.register("good.html", "plain").is_ok());
}

#[test]
fn non_utf8_html_is_skipped_not_fatal() {
    let files = vec![
        ("junk.html".to_string(), vec![0xffu8, 0xfe, 0xfd]),
        ("ok.html".to_string(), b"fine".to_vec()),
    ];
    let app_set = AppSet::new(AppConfig::new(), files).expect("invalid UTF-8 must only be skipped");
    let r = app_set.handler.handle_request(&request("/ok.html"));
    assert_eq!(r.status, 200);
    assert_eq!(body_text(&r), "fine");
    // The junk entry is still served as a stored asset name, but its render
    // fails because no template was registered for it.
    let junk = app_set.handler.handle_request(&request("/junk.html"));
    assert_eq!(junk.status, 500);
}

#[test]
fn successful_template_response_keeps_rendered_text() {
    let r = static_pages::router::template_response_for(Ok("rendered".to_string()));
    assert_eq!(r.status, 200);
    assert_eq!(r.content_type, "text/html");
    match r.body {
        ResponseBody::Text(t) => assert_eq!(t, "rendered"),
        ResponseBody::Bytes(_) => panic!("expected a text body"),
    }
}

#[test]
fn app_config_defaults() {
    let config = AppConfig::new();
    assert_eq!(config.server_bind, "0.0.0.0:83");
    assert_eq!(config.server_backlog, 512);
    assert_eq!(config.server_workers, 16);
    assert_eq!(config.data_path, "data");
}
