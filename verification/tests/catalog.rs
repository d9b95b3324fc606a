use static_pages::status::StatusCatalog;
use static_pages::text::{normalize_path, str_ends_with, u16_dec};

#[test]
fn label_returns_documented_strings() {
    let catalog = StatusCatalog::new();
    assert_eq!(catalog.label(400), "BadRequest");
    assert_eq!(catalog.label(404), "NotFound");
    assert_eq!(catalog.label(418), "ImATeapot");
    assert_eq!(catalog.label(451), "UnavailableForLegalReasons");
    assert_eq!(catalog.label(500), "InternalServerError");
    assert_eq!(catalog.label(511), "NetworkAuthenticationRequired");
}

#[test]
fn label_falls_back_for_unknown_codes() {
    let catalog = StatusCatalog::new();
    assert_eq!(catalog.label(499), "Unknown Error");
    assert_eq!(catalog.label(200), "Unknown Error");
    assert_eq!(catalog.label(0), "Unknown Error");
    assert_eq!(catalog.label(599), "Unknown Error");
}

#[test]
fn color_depends_only_on_family() {
    let catalog = StatusCatalog::new();
    assert_eq!(catalog.color(400), "#ff9900ff");
    assert_eq!(catalog.color(404), "#ff9900ff");
    assert_eq!(catalog.color(499), "#ff9900ff");
    assert_eq!(catalog.color(500), "#ff0000bb");
    assert_eq!(catalog.color(511), "#ff0000bb");
    assert_eq!(catalog.color(404), catalog.color(451));
    assert_eq!(catalog.color(500), catalog.color(599));
}

#[test]
fn color_falls_back_for_unknown_families() {
    let catalog = StatusCatalog::new();
    assert_eq!(catalog.color(200), "#ffffff");
    assert_eq!(catalog.color(301), "#ffffff");
    assert_eq!(catalog.color(100), "#ffffff");
}

#[test]
fn suggestions_keep_authored_order() {
    let catalog = StatusCatalog::new();
    let s = catalog.suggestions(404);
    assert_eq!(
        s,
        vec![
            "Check the URL".to_string(),
            "Reload the page".to_string(),
            "Clear the browser cache".to_string(),
            "Try using another browser".to_string(),
            "Contact customer support".to_string(),
        ]
    );
}

#[test]
fn suggestions_are_deterministic_across_calls() {
    let catalog = StatusCatalog::new();
    let first = catalog.suggestions(500);
    let second = catalog.suggestions(500);
    assert_eq!(first, second);
    assert_eq!(
        first,
        vec![
            "Wait a few moments and retry the request".to_string(),
            "Check the website's social media for updates".to_string(),
            "Contact customer support".to_string(),
        ]
    );
}

#[test]
fn suggestions_of_single_entry_code() {
    let catalog = StatusCatalog::new();
    assert_eq!(
        catalog.suggestions(411),
        vec!["Set 'Content-Length' header in request.".to_string()]
    );
}

#[test]
fn suggestions_fall_back_to_empty() {
    let catalog = StatusCatalog::new();
    assert!(catalog.suggestions(499).is_empty());
    assert!(catalog.suggestions(200).is_empty());
    assert!(catalog.suggestions(423).is_empty());
}

#[test]
fn decimal_rendering_is_exact() {
    assert_eq!(u16_dec(0), "0");
    assert_eq!(u16_dec(7), "7");
    assert_eq!(u16_dec(404), "404");
    assert_eq!(u16_dec(65535), "65535");
    assert_eq!(u16_dec(100), "100");
}

#[test]
fn suffix_test_matches_rust() {
    assert!(str_ends_with("index.html", ".html"));
    assert!(!str_ends_with("index.htm", ".html"));
    assert!(!str_ends_with("html", ".html"));
    assert!(str_ends_with("a/.html", ".html"));
    assert!(str_ends_with("", ""));
}

#[test]
fn path_normalization() {
    assert_eq!(normalize_path("/"), "index.html");
    assert_eq!(normalize_path(""), "index.html");
    assert_eq!(normalize_path("///"), "index.html");
    assert_eq!(normalize_path("/style.css"), "style.css");
    assert_eq!(normalize_path("//style.css"), "style.css");
    assert_eq!(normalize_path("/docs/"), "docs/index.html");
    assert_eq!(normalize_path("docs/a.png"), "docs/a.png");
}
