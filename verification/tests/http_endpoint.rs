use fetch_github_hosts::http::{
    answer, build_response, handle_http_request, listen_address, render_status_page,
    request_path, route, Published, Response, Route, REQUEST_BUFFER_SIZE,
};
use fetch_github_hosts::template::{
    get_default_template, DEFAULT_TEMPLATE, UPDATE_TIME_TOKEN, VERSION_TOKEN,
};

fn nothing_published() -> Published {
    Published { text: None, json: None, template: None }
}

#[test]
fn path_is_the_second_word_of_the_request_line() {
    assert_eq!(request_path("GET /hosts.txt HTTP/1.1\r\nHost: x\r\n\r\n"), "/hosts.txt");
    assert_eq!(request_path("GET /hosts.json"), "/hosts.json");
    assert_eq!(request_path("  POST   /a/b?c=d   HTTP/1.0\n"), "/a/b?c=d");
}

#[test]
fn path_defaults_to_the_root() {
    assert_eq!(request_path(""), "/");
    assert_eq!(request_path("GET"), "/");
    assert_eq!(request_path("\r\nGET /hosts.txt HTTP/1.1\r\n"), "/");
    assert_eq!(request_path("   \nGET /x\n"), "/");
}

#[test]
fn path_ignores_header_lines() {
    assert_eq!(request_path("GET\nHost: /hosts.txt\n"), "/");
}

#[test]
fn there_are_three_routes() {
    assert_eq!(route("/hosts.txt"), Route::HostsText);
    assert_eq!(route("/hosts.json"), Route::HostsJson);
    for path in ["/", "/nope", "", "/hosts.txt/", "/HOSTS.TXT", "/hosts.txt?x=1", "hosts.txt"] {
        assert_eq!(route(path), Route::StatusPage);
    }
}

#[test]
fn text_route_serves_the_text_artifact() {
    let published = Published {
        text: Some("1.2.3.4 a.com\n".to_string()),
        json: Some("[[\"1.2.3.4\",\"a.com\"]]".to_string()),
        template: None,
    };
    let r = handle_http_request("/hosts.txt", &published, "4.0.0", "now");
    assert_eq!(
        r,
        Response {
            status: "200 OK",
            content_type: "text/plain",
            body: "1.2.3.4 a.com\n".to_string()
        }
    );
}

#[test]
fn json_route_serves_the_structured_artifact() {
    let published = Published {
        text: Some("1.2.3.4 a.com\n".to_string()),
        json: Some("[[\"1.2.3.4\",\"a.com\"]]".to_string()),
        template: None,
    };
    let r = handle_http_request("/hosts.json", &published, "4.0.0", "now");
    assert_eq!(
        r,
        Response {
            status: "200 OK",
            content_type: "application/json",
            body: "[[\"1.2.3.4\",\"a.com\"]]".to_string()
        }
    );
}

#[test]
fn artifacts_that_are_not_there_yet_are_placeholders() {
    let r = handle_http_request("/hosts.txt", &nothing_published(), "4.0.0", "now");
    assert_eq!(r.status, "200 OK");
    assert_eq!(r.content_type, "text/plain");
    assert_eq!(r.body, "# no hosts yet");
    let r = handle_http_request("/hosts.json", &nothing_published(), "4.0.0", "now");
    assert_eq!(r.status, "200 OK");
    assert_eq!(r.content_type, "application/json");
    assert_eq!(r.body, "[]");
}

#[test]
fn any_other_path_serves_the_status_page() {
    let r = handle_http_request("/nope", &nothing_published(), "4.0.0", "2024-01-01 00:00:00");
    assert_eq!(r.status, "200 OK");
    assert_eq!(r.content_type, "text/html; charset=utf-8");
    assert!(!r.body.contains("{{"));
    assert!(!r.body.contains("}}"));
    assert!(r.body.contains("V4.0.0"));
    assert!(r.body.contains("2024-01-01 00:00:00"));
    assert!(r.body.starts_with("<!DOCTYPE html>"));
    assert_eq!(
        r.body,
        DEFAULT_TEMPLATE
            .replace("{{version}}", "4.0.0")
            .replace("{{last_update_time}}", "2024-01-01 00:00:00")
    );
}

#[test]
fn status_page_uses_the_custom_template() {
    let published = Published {
        text: None,
        json: None,
        template: Some("<p>{{version}} at {{last_update_time}}, {{version}}</p>".to_string()),
    };
    let r = handle_http_request("/", &published, "1.2", "noon");
    assert_eq!(r.content_type, "text/html; charset=utf-8");
    assert_eq!(r.body, "<p>1.2 at noon, 1.2</p>");
}

#[test]
fn status_page_replaces_tokens_from_left_to_right() {
    assert_eq!(render_status_page("", "v", "t"), "");
    assert_eq!(render_status_page("no tokens", "v", "t"), "no tokens");
    assert_eq!(render_status_page("{{version}}", "v", "t"), "v");
    assert_eq!(render_status_page("{{{version}}}", "v", "t"), "{v}");
    assert_eq!(render_status_page("{{version}", "v", "t"), "{{version}");
    assert_eq!(
        render_status_page("{{last_update_time}}{{version}}", "v", "t"),
        "tv"
    );
    assert_eq!(
        render_status_page("{{version}}", "{{last_update_time}}", "t"),
        "t"
    );
    assert_eq!(
        render_status_page("x{{version}}y", "日本", "t"),
        "x日本y"
    );
}

#[test]
fn default_template_holds_both_tokens_once() {
    assert_eq!(get_default_template(), DEFAULT_TEMPLATE);
    assert_eq!(DEFAULT_TEMPLATE.matches(VERSION_TOKEN).count(), 1);
    assert_eq!(DEFAULT_TEMPLATE.matches(UPDATE_TIME_TOKEN).count(), 1);
    assert_eq!(DEFAULT_TEMPLATE.matches("{{").count(), 2);
    assert_eq!(VERSION_TOKEN, "{{version}}");
    assert_eq!(UPDATE_TIME_TOKEN, "{{last_update_time}}");
}

#[test]
fn response_on_the_wire() {
    let r = Response { status: "200 OK", content_type: "text/plain", body: "hello".to_string() };
    assert_eq!(
        build_response(&r),
        "HTTP/1.1 200 OK\r\nContent-Type: text/plain\r\nContent-Length: 5\r\nAccess-Control-Allow-Origin: *\r\n\r\nhello"
    );
}

#[test]
fn content_length_counts_bytes() {
    let r = Response { status: "200 OK", content_type: "text/plain", body: "日本語".to_string() };
    assert!(build_response(&r).contains("\r\nContent-Length: 9\r\n"));
    let r = Response { status: "200 OK", content_type: "text/plain", body: String::new() };
    assert!(build_response(&r).ends_with("Content-Length: 0\r\nAccess-Control-Allow-Origin: *\r\n\r\n"));
    let r = Response { status: "200 OK", content_type: "text/plain", body: "x".repeat(1234) };
    assert!(build_response(&r).contains("\r\nContent-Length: 1234\r\n"));
}

#[test]
fn answer_to_a_request_for_the_text_artifact() {
    let published = Published {
        text: Some("1.2.3.4 a.com\n".to_string()),
        json: None,
        template: None,
    };
    let wire = answer(b"GET /hosts.txt HTTP/1.1\r\nHost: localhost\r\n\r\n", &published, "4.0.0", "now");
    assert_eq!(
        wire,
        b"HTTP/1.1 200 OK\r\nContent-Type: text/plain\r\nContent-Length: 14\r\nAccess-Control-Allow-Origin: *\r\n\r\n1.2.3.4 a.com\n".to_vec()
    );
}

#[test]
fn answer_before_any_cycle_has_run() {
    let wire = answer(b"GET /nope HTTP/1.1\r\n\r\n", &nothing_published(), "4.0.0", "2024-01-01 00:00:00");
    let text = String::from_utf8(wire).unwrap();
    assert!(text.starts_with("HTTP/1.1 200 OK\r\nContent-Type: text/html; charset=utf-8\r\n"));
    assert!(text.contains("\r\nAccess-Control-Allow-Origin: *\r\n"));
    let body = text.split("\r\n\r\n").nth(1).unwrap();
    assert!(body.starts_with("<!DOCTYPE html>"));
    assert!(!text.contains("{{"));
}

#[test]
fn answer_to_bytes_that_are_not_utf8() {
    let wire = answer(b"GET /hosts.json\xff HTTP/1.1\r\n", &nothing_published(), "4.0.0", "now");
    let text = String::from_utf8(wire).unwrap();
    assert!(text.contains("Content-Type: text/html; charset=utf-8"));
    let wire = answer(b"\xff\xfe /hosts.json HTTP/1.1\r\n", &nothing_published(), "4.0.0", "now");
    let text = String::from_utf8(wire).unwrap();
    assert!(text.contains("Content-Type: application/json"));
    assert!(text.ends_with("\r\n\r\n[]"));
}

#[test]
fn answer_to_an_empty_request_is_the_status_page() {
    let wire = answer(b"", &nothing_published(), "4.0.0", "now");
    let text = String::from_utf8(wire).unwrap();
    assert!(text.contains("Content-Type: text/html; charset=utf-8"));
}

#[test]
fn endpoint_listens_on_every_interface() {
    assert_eq!(listen_address(9898), "0.0.0.0:9898");
    assert_eq!(listen_address(0), "0.0.0.0:0");
    assert_eq!(listen_address(65535), "0.0.0.0:65535");
    assert_eq!(REQUEST_BUFFER_SIZE, 4096);
}

#[test]
fn published_is_what_could_be_read() {
    let p = Published::from_reads(
        Ok("t".to_string()),
        Err("missing".to_string()),
        "",
        Ok("ignored".to_string()),
    );
    assert_eq!(p, Published { text: Some("t".to_string()), json: None, template: None });
    let p = Published::from_reads(
        Err("missing".to_string()),
        Ok("[]".to_string()),
        "/etc/page.html",
        Ok("<p>{{version}}</p>".to_string()),
    );
    assert_eq!(
        p,
        Published {
            text: None,
            json: Some("[]".to_string()),
            template: Some("<p>{{version}}</p>".to_string())
        }
    );
    let p = Published::from_reads(
        Err("a".to_string()),
        Err("b".to_string()),
        "/etc/page.html",
        Err("unreadable".to_string()),
    );
    assert_eq!(p, Published { text: None, json: None, template: None });
}
