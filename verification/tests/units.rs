//! Unit tests of the matcher, the guards, the response builder and the wire
//! edge.

use routecore::config::ServerConfig;
use routecore::guard::{eval_guard, MethodGuard};
use routecore::handler::{content_type_for_ext, DispatchPlan, FileLookup, Handler};
use routecore::handler::{file_response, mount_response};
use routecore::pattern::{split_request_path, PathPattern, Segment};
use routecore::response::{Body, ResponseSpec};
use routecore::server::{handle, ServerContext};
use routecore::table::{MatchOutcome, RouteTable};
use routecore::wire::{parse_request_line, render_head};

fn bytes(s: &str) -> Vec<u8> {
    s.as_bytes().to_vec()
}

fn lit(s: &str) -> Segment {
    Segment::Literal(bytes(s))
}

fn cap(s: &str) -> Segment {
    Segment::Capture(bytes(s))
}

fn pattern(segments: Vec<Segment>) -> PathPattern {
    PathPattern::new(segments).unwrap()
}

fn fixed(tag: &str) -> Handler {
    Handler::Fixed { status: 200, content_type: bytes("text/plain"), body: bytes(tag) }
}

fn context(table: RouteTable) -> ServerContext {
    ServerContext { table, mounts: Vec::new(), config: ServerConfig::new_default() }
}

fn respond(plan: DispatchPlan) -> ResponseSpec {
    match plan {
        DispatchPlan::Respond(r) => r,
        _ => panic!("expected a finished response"),
    }
}

fn buffered_body(r: &ResponseSpec) -> Vec<u8> {
    match &r.body {
        Body::Buffered(b) => b.clone(),
        _ => panic!("expected a buffered body"),
    }
}

#[test]
fn first_registered_route_wins() {
    let mut table = RouteTable::new();
    table.register(
        pattern(vec![lit("user"), cap("name")]),
        MethodGuard::Any,
        fixed("general"),
    );
    table.register(pattern(vec![lit("user"), lit("alice")]), MethodGuard::Any, fixed("specific"));
    let ctx = context(table);
    let r = respond(handle(&ctx, &bytes("/user/alice"), &bytes("GET")));
    assert_eq!(buffered_body(&r), bytes("general"));
}

#[test]
fn matched_pattern_with_rejected_method_is_405_never_404() {
    let mut table = RouteTable::new();
    table.register(
        pattern(vec![lit("user"), cap("name")]),
        MethodGuard::Exactly(bytes("GET")),
        fixed("user"),
    );
    let ctx = context(table);
    let r = respond(handle(&ctx, &bytes("/user/alice"), &bytes("POST")));
    assert_eq!(r.status, 405);
    assert_ne!(r.status, 404);
    assert!(buffered_body(&r).is_empty());
}

#[test]
fn later_entry_can_accept_a_method_an_earlier_guard_rejected() {
    let mut table = RouteTable::new();
    table.register(pattern(vec![lit("dual")]), MethodGuard::Exactly(bytes("GET")), fixed("get"));
    table.register(pattern(vec![lit("dual")]), MethodGuard::Exactly(bytes("POST")), fixed("post"));
    let ctx = context(table);
    let r = respond(handle(&ctx, &bytes("/dual"), &bytes("POST")));
    assert_eq!(r.status, 200);
    assert_eq!(buffered_body(&r), bytes("post"));
}

#[test]
fn unmatched_path_is_404_for_every_method() {
    let ctx = context(RouteTable::new());
    assert_eq!(respond(handle(&ctx, &bytes("/missing"), &bytes("GET"))).status, 404);
    assert_eq!(respond(handle(&ctx, &bytes("/missing"), &bytes("POST"))).status, 404);
    assert_eq!(respond(handle(&ctx, &bytes("/missing"), &bytes("DELETE"))).status, 404);
}

#[test]
fn capture_value_round_trips_byte_for_byte() {
    let mut table = RouteTable::new();
    table.register(
        pattern(vec![lit("user"), cap("name")]),
        MethodGuard::Any,
        Handler::Template {
            before: bytes("Hello "),
            after: bytes("!"),
            param: bytes("name"),
            content_type: bytes("text/plain"),
        },
    );
    let ctx = context(table);
    let value = "a-b.c_1~x";
    let path = format!("/user/{}", value);
    let r = respond(handle(&ctx, &bytes(&path), &bytes("GET")));
    let body = buffered_body(&r);
    let recovered = &body["Hello ".len()..body.len() - "!".len()];
    assert_eq!(recovered, value.as_bytes());
}

#[test]
fn capture_requires_a_non_empty_segment() {
    let mut table = RouteTable::new();
    table.register(pattern(vec![lit("user"), cap("name")]), MethodGuard::Any, fixed("user"));
    let ctx = context(table);
    assert_eq!(respond(handle(&ctx, &bytes("/user/"), &bytes("GET"))).status, 404);
}

#[test]
fn trailing_slash_is_an_explicit_configuration_choice() {
    let mut table = RouteTable::new();
    table.register(pattern(vec![lit("user"), cap("name")]), MethodGuard::Any, fixed("user"));
    let mut ctx = context(table);
    assert_eq!(respond(handle(&ctx, &bytes("/user/alice/"), &bytes("GET"))).status, 404);
    ctx.config.strip_trailing_slash = true;
    assert_eq!(respond(handle(&ctx, &bytes("/user/alice/"), &bytes("GET"))).status, 200);
}

#[test]
fn duplicate_capture_names_are_rejected() {
    assert!(PathPattern::new(vec![cap("x"), lit("sep"), cap("x")]).is_none());
    assert!(PathPattern::new(vec![cap("x"), lit("sep"), cap("y")]).is_some());
}

#[test]
fn guards_compose() {
    let get = || MethodGuard::Exactly(bytes("GET"));
    let post = || MethodGuard::Exactly(bytes("POST"));
    assert!(eval_guard(&MethodGuard::Any, &bytes("PATCH")));
    assert!(eval_guard(&get(), &bytes("GET")));
    assert!(!eval_guard(&get(), &bytes("get")));
    assert!(eval_guard(&MethodGuard::Not(Box::new(get())), &bytes("POST")));
    assert!(!eval_guard(&MethodGuard::Not(Box::new(get())), &bytes("GET")));
    let either = MethodGuard::Either(Box::new(get()), Box::new(post()));
    assert!(eval_guard(&either, &bytes("GET")));
    assert!(eval_guard(&either, &bytes("POST")));
    assert!(!eval_guard(&either, &bytes("DELETE")));
    let both = MethodGuard::Both(
        Box::new(MethodGuard::Not(Box::new(get()))),
        Box::new(MethodGuard::Not(Box::new(post()))),
    );
    assert!(eval_guard(&both, &bytes("DELETE")));
    assert!(!eval_guard(&both, &bytes("GET")));
}

#[test]
fn match_request_reports_why_nothing_matched() {
    let mut table = RouteTable::new();
    table.register(pattern(vec![lit("a")]), MethodGuard::Exactly(bytes("GET")), fixed("a"));
    let segs_a = split_request_path(&bytes("/a"), false);
    match table.match_request(&segs_a, &bytes("POST")) {
        MatchOutcome::NoMatch { method_rejected } => assert!(method_rejected),
        _ => panic!("expected no match"),
    }
    let segs_b = split_request_path(&bytes("/b"), false);
    match table.match_request(&segs_b, &bytes("POST")) {
        MatchOutcome::NoMatch { method_rejected } => assert!(!method_rejected),
        _ => panic!("expected no match"),
    }
}

#[test]
fn split_request_path_handles_edges() {
    let cuts = |p: &str, strip: bool| -> Vec<Vec<u8>> { split_request_path(&bytes(p), strip) };
    assert_eq!(cuts("/", false), vec![bytes("")]);
    assert_eq!(cuts("/", true), Vec::<Vec<u8>>::new());
    assert_eq!(cuts("/a/b", false), vec![bytes("a"), bytes("b")]);
    assert_eq!(cuts("/a/b/", false), vec![bytes("a"), bytes("b"), bytes("")]);
    assert_eq!(cuts("/a/b/", true), vec![bytes("a"), bytes("b")]);
    assert_eq!(cuts("/a//b", false), vec![bytes("a"), bytes(""), bytes("b")]);
}

#[test]
fn template_missing_capture_is_a_handler_error() {
    let mut table = RouteTable::new();
    table.register(
        pattern(vec![lit("broken")]),
        MethodGuard::Any,
        Handler::Template {
            before: bytes("Hello "),
            after: bytes("!"),
            param: bytes("name"),
            content_type: bytes("text/plain"),
        },
    );
    let ctx = context(table);
    let r = respond(handle(&ctx, &bytes("/broken"), &bytes("GET")));
    assert_eq!(r.status, ctx.config.error_status);
    assert_eq!(r.status, 500);
    assert_eq!(buffered_body(&r), ctx.config.error_body);
}

#[test]
fn media_types_follow_extensions() {
    assert_eq!(content_type_for_ext(&bytes("html")), bytes("text/html"));
    assert_eq!(content_type_for_ext(&bytes("htm")), bytes("text/html"));
    assert_eq!(content_type_for_ext(&bytes("ico")), bytes("image/x-icon"));
    assert_eq!(content_type_for_ext(&bytes("css")), bytes("text/css"));
    assert_eq!(content_type_for_ext(&bytes("js")), bytes("application/javascript"));
    assert_eq!(content_type_for_ext(&bytes("txt")), bytes("text/plain"));
    assert_eq!(content_type_for_ext(&bytes("bin")), bytes("application/octet-stream"));
}

#[test]
fn missing_file_is_404_and_unreadable_file_is_500() {
    let cfg = ServerConfig::new_default();
    let missing = file_response(200, FileLookup::Missing, &cfg);
    assert_eq!(missing.status, 404);
    assert_eq!(buffered_body(&missing), cfg.not_found_body);
    let broken = file_response(200, FileLookup::IoError, &cfg);
    assert_eq!(broken.status, 500);
    let mount_broken = mount_response(FileLookup::IoError, true, &cfg);
    assert_eq!(mount_broken.status, 500);
}

#[test]
fn default_content_type_is_text_plain() {
    let mut table = RouteTable::new();
    table.register(
        pattern(vec![lit("s"), cap("name")]),
        MethodGuard::Any,
        Handler::StreamTemplate { before: bytes(""), after: bytes(""), param: bytes("name") },
    );
    let ctx = context(table);
    let r = respond(handle(&ctx, &bytes("/s/x"), &bytes("GET")));
    assert_eq!(r.headers.len(), 1);
    assert_eq!(r.headers[0].0, bytes("Content-Type"));
    assert_eq!(r.headers[0].1, bytes("text/plain"));
}

#[test]
fn request_line_parses_method_and_path() {
    let parsed = parse_request_line(&bytes("GET /user/alice HTTP/1.1")).unwrap();
    assert_eq!(parsed.0, bytes("GET"));
    assert_eq!(parsed.1, bytes("/user/alice"));
    assert!(parse_request_line(&bytes("GET")).is_none());
    assert!(parse_request_line(&bytes("GET /user/alice")).is_none());
    assert!(parse_request_line(&bytes("")).is_none());
}

#[test]
fn response_head_renders_every_header_in_order() {
    let r = ResponseSpec {
        status: 302,
        headers: vec![
            (bytes("Location"), bytes("static/welcome.html")),
            (bytes("X-Extra"), bytes("1")),
        ],
        body: Body::Buffered(Vec::new()),
    };
    assert_eq!(
        render_head(&r),
        bytes("HTTP/1.1 302\r\nLocation: static/welcome.html\r\nX-Extra: 1\r\n\r\n"),
    );
}

#[test]
fn response_head_renders_exactly() {
    let ctx = context(RouteTable::new());
    let r = respond(handle(&ctx, &bytes("/missing"), &bytes("GET")));
    let head = render_head(&r);
    assert_eq!(
        head,
        bytes("HTTP/1.1 404\r\nContent-Type: text/plain\r\n\r\n"),
    );
}
