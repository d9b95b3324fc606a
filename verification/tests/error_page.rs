use static_pages::err_page::{error_body_for, ErrHandler};
use static_pages::http::{RequestMeta, Response, ResponseBody};
use static_pages::templates::TemplateRegistry;

fn meta_with_headers() -> RequestMeta {
    RequestMeta {
        path: "/missing.png".to_string(),
        host: Some("example.test".to_string()),
        connection: Some("keep-alive".to_string()),
        user_agent: None,
        forwarded_ip: Some("203.0.113.9".to_string()),
        accept_encoding: Some("gzip".to_string()),
        accept_language: None,
    }
}

fn handler_with(template: &str) -> ErrHandler {
    let mut registry = TemplateRegistry::new();
    registry
        .register("err_template.html", template)
        .expect("the test template must compile");
    ErrHandler::new(registry)
}

fn text_of(r: &Response) -> &str {
    match &r.body {
        ResponseBody::Text(t) => t.as_str(),
        ResponseBody::Bytes(_) => panic!("an error page body is text"),
    }
}

#[test]
fn page_for_404_shows_label_and_ordered_suggestions() {
    let handler = handler_with(
        "{{ ms }}:{% for s in suggestions %}[{{ s }}]{% endfor %}",
    );
    let page = handler.page_generate(404, &meta_with_headers());
    assert_eq!(page.status, 404);
    assert_eq!(page.content_type, "text/html");
    assert_eq!(
        text_of(&page),
        "NotFound:[Check the URL][Reload the page][Clear the browser cache]\
         [Try using another browser][Contact customer support]"
    );
}

#[test]
fn page_for_uncataloged_code_uses_fallbacks() {
    let handler = handler_with("{{ code }}|{{ ms }}|{{ color }}|{{ suggestions | length }}");
    let page = handler.page_generate(499, &meta_with_headers());
    assert_eq!(page.status, 499);
    // 499 is in no table: label and suggestions fall back, while the color
    // still resolves through the 4xx family.
    assert_eq!(text_of(&page), "499|Unknown Error|#ff9900ff|0");
}

#[test]
fn absent_user_agent_reports_unknown() {
    let handler = handler_with("{{ debug_info['User-Agent'] }}/{{ debug_info['Host'] }}");
    let page = handler.page_generate(404, &meta_with_headers());
    assert_eq!(text_of(&page), "Unknown/example.test");
}

#[test]
fn render_failure_keeps_status_and_degrades_body() {
    // No err_template.html is registered, so rendering must fail and the
    // minimal plain fallback body must appear under the original status.
    let handler = ErrHandler::new(TemplateRegistry::new());
    let page = handler.page_generate(503, &meta_with_headers());
    assert_eq!(page.status, 503);
    assert_eq!(text_of(&page), "Error rendering template");
}

#[test]
fn undefined_variable_degrades_body_too() {
    let handler = handler_with("{{ no_such_variable }}");
    let page = handler.page_generate(500, &meta_with_headers());
    assert_eq!(page.status, 500);
    assert_eq!(text_of(&page), "Error rendering template");
}

#[test]
fn build_context_fills_every_field() {
    let handler = handler_with("unused");
    let rc = handler.build_context(404, &meta_with_headers(), "2024-01-01T00:00:00+00:00".to_string());
    assert_eq!(rc.code, "404");
    assert_eq!(rc.label, "NotFound");
    assert_eq!(rc.color, "#ff9900ff");
    assert_eq!(rc.suggestions.len(), 5);
    let pairs: Vec<(String, String)> = rc.debug_info;
    assert_eq!(
        pairs,
        vec![
            ("Host".to_string(), "example.test".to_string()),
            ("Path".to_string(), "/missing.png".to_string()),
            ("Connection".to_string(), "keep-alive".to_string()),
            ("User-Agent".to_string(), "Unknown".to_string()),
            ("Last-Time".to_string(), "2024-01-01T00:00:00+00:00".to_string()),
            ("Cf-Connecting-Ip".to_string(), "203.0.113.9".to_string()),
            ("Accept-Encoding".to_string(), "gzip".to_string()),
            ("Accept-Language".to_string(), "Unknown".to_string()),
        ]
    );
}

#[test]
fn timestamp_key_reaches_the_template() {
    let handler = handler_with("{{ debug_info['Last-Time'] }}");
    let page = handler.page_generate(404, &meta_with_headers());
    // The timestamp is taken from the clock at render time; RFC 3339 always
    // carries a date-time separator.
    assert!(text_of(&page).contains('T'));
}

#[test]
fn successful_render_body_is_kept_verbatim() {
    assert_eq!(error_body_for(Ok("rendered page".to_string())), "rendered page");
}
