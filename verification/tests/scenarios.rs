//! End-to-end scenarios against a context wired like a small demo server.

use routecore::config::ServerConfig;
use routecore::guard::MethodGuard;
use routecore::handler::{DispatchPlan, FileLookup, Handler};
use routecore::handler::{file_response, mount_response};
use routecore::pattern::{PathPattern, Segment};
use routecore::response::{assemble_chunks, Body, ResponseSpec};
use routecore::server::{handle, ServerContext, StaticMount};
use routecore::table::RouteTable;

fn bytes(s: &str) -> Vec<u8> {
    s.as_bytes().to_vec()
}

fn lit(s: &str) -> Segment {
    Segment::Literal(bytes(s))
}

fn cap(s: &str) -> Segment {
    Segment::Capture(bytes(s))
}

fn pattern(segments: Vec<Segment>) -> PathPattern {
    PathPattern::new(segments).unwrap()
}

fn get_only() -> MethodGuard {
    MethodGuard::Exactly(bytes("GET"))
}

fn greet(content_type: &str) -> Handler {
    Handler::Template {
        before: bytes("Hello "),
        after: bytes("!"),
        param: bytes("name"),
        content_type: bytes(content_type),
    }
}

/// A context wired like the demo application: a favicon file, a welcome
/// page, greeting routes (buffered and streamed), a method-dispatch route,
/// a failing route, a static mount, a root redirect.
fn demo_context(listing_enabled: bool) -> ServerContext {
    let mut table = RouteTable::new();
    table.register(
        pattern(vec![lit("favicon")]),
        get_only(),
        Handler::FileAt { fs_path: bytes("static/favicon.ico"), status: 200 },
    );
    table.register(
        pattern(vec![lit("welcome")]),
        get_only(),
        Handler::Fixed {
            status: 200,
            content_type: bytes("text/html"),
            body: bytes("<h1>Welcome</h1>"),
        },
    );
    table.register(pattern(vec![lit("user"), cap("name")]), get_only(), greet("text/plain"));
    table.register(pattern(vec![lit("async"), cap("name")]), get_only(), greet("text/html"));
    table.register(
        pattern(vec![lit("async-body"), cap("name")]),
        get_only(),
        Handler::StreamTemplate { before: bytes("Hello "), after: bytes("!"), param: bytes("name") },
    );
    table.register(
        pattern(vec![lit("test")]),
        MethodGuard::Any,
        Handler::StatusByMethod {
            cases: vec![(bytes("GET"), 200), (bytes("POST"), 405)],
            otherwise: 404,
        },
    );
    table.register(pattern(vec![lit("error")]), MethodGuard::Any, Handler::Fail { status: 500 });
    table.register(
        pattern(vec![lit("")]),
        get_only(),
        Handler::Redirect { location: bytes("static/welcome.html") },
    );
    let mounts = vec![StaticMount {
        prefix: vec![bytes("static")],
        guard: MethodGuard::Either(
            Box::new(MethodGuard::Exactly(bytes("GET"))),
            Box::new(MethodGuard::Exactly(bytes("HEAD"))),
        ),
        dir: bytes("static"),
        listing_enabled,
    }];
    ServerContext { table, mounts, config: ServerConfig::new_default() }
}

fn respond(plan: DispatchPlan) -> ResponseSpec {
    match plan {
        DispatchPlan::Respond(r) => r,
        _ => panic!("expected a finished response"),
    }
}

fn buffered_body(r: &ResponseSpec) -> Vec<u8> {
    match &r.body {
        Body::Buffered(b) => b.clone(),
        _ => panic!("expected a buffered body"),
    }
}

#[test]
fn user_route_greets_by_name() {
    let ctx = demo_context(true);
    let r = respond(handle(&ctx, &bytes("/user/alice"), &bytes("GET")));
    assert_eq!(r.status, 200);
    let body = buffered_body(&r);
    assert_eq!(body, bytes("Hello alice!"));
    let needle = bytes("alice");
    assert!(body.windows(needle.len()).any(|w| w == &needle[..]));
}

#[test]
fn test_route_dispatches_by_method() {
    let ctx = demo_context(true);
    assert_eq!(respond(handle(&ctx, &bytes("/test"), &bytes("GET"))).status, 200);
    assert_eq!(respond(handle(&ctx, &bytes("/test"), &bytes("POST"))).status, 405);
    assert_eq!(respond(handle(&ctx, &bytes("/test"), &bytes("DELETE"))).status, 404);
}

#[test]
fn missing_path_gets_configured_not_found() {
    let ctx = demo_context(true);
    let r = respond(handle(&ctx, &bytes("/missing"), &bytes("GET")));
    assert_eq!(r.status, 404);
    assert_eq!(buffered_body(&r), ctx.config.not_found_body);
}

#[test]
fn streaming_route_assembles_to_greeting() {
    let ctx = demo_context(true);
    let r = respond(handle(&ctx, &bytes("/async-body/bob"), &bytes("GET")));
    assert_eq!(r.status, 200);
    match &r.body {
        Body::Streamed(chunks) => {
            // Read incrementally, as a client would.
            let mut assembled: Vec<u8> = Vec::new();
            for chunk in chunks {
                assembled.extend_from_slice(chunk);
            }
            assert_eq!(assembled, bytes("Hello bob!"));
            assert_eq!(assemble_chunks(chunks), bytes("Hello bob!"));
        },
        _ => panic!("expected a streamed body"),
    }
}

#[test]
fn directory_request_with_listing_off_is_refused() {
    let ctx = demo_context(false);
    let plan = handle(&ctx, &bytes("/static"), &bytes("GET"));
    match plan {
        DispatchPlan::ServeMount { fs_path, listing_enabled } => {
            assert_eq!(fs_path, bytes("static"));
            assert!(!listing_enabled);
            let entries = vec![bytes("a.txt"), bytes("b.txt")];
            let r = mount_response(
                FileLookup::Directory { entries },
                listing_enabled,
                &ctx.config,
            );
            assert_eq!(r.status, ctx.config.dir_request_status);
            assert_eq!(r.status, 404);
            let body = buffered_body(&r);
            assert!(body.is_empty());
        },
        _ => panic!("expected a mount plan"),
    }
}

#[test]
fn directory_refusal_status_is_configurable() {
    let mut ctx = demo_context(false);
    ctx.config.dir_request_status = 403;
    let entries = vec![bytes("a.txt")];
    let r = mount_response(FileLookup::Directory { entries }, false, &ctx.config);
    assert_eq!(r.status, 403);
    assert!(buffered_body(&r).is_empty());
}

#[test]
fn mount_joins_nested_segments_into_one_path() {
    let ctx = demo_context(true);
    match handle(&ctx, &bytes("/static/img/logo.png"), &bytes("GET")) {
        DispatchPlan::ServeMount { fs_path, .. } => {
            assert_eq!(fs_path, bytes("static/img/logo.png"));
        },
        _ => panic!("expected a mount plan"),
    }
    match handle(&ctx, &bytes("/static/"), &bytes("GET")) {
        DispatchPlan::ServeMount { fs_path, .. } => assert_eq!(fs_path, bytes("static/")),
        _ => panic!("expected a mount plan"),
    }
}

#[test]
fn mount_serves_get_and_head_only() {
    let ctx = demo_context(true);
    assert!(matches!(
        handle(&ctx, &bytes("/static/a.txt"), &bytes("HEAD")),
        DispatchPlan::ServeMount { .. }
    ));
    let r = respond(handle(&ctx, &bytes("/static/a.txt"), &bytes("POST")));
    assert_eq!(r.status, 404);
}

#[test]
fn directory_listing_when_enabled() {
    let ctx = demo_context(true);
    let entries = vec![bytes("a.txt"), bytes("b.txt")];
    let r = mount_response(FileLookup::Directory { entries }, true, &ctx.config);
    assert_eq!(r.status, 200);
    assert_eq!(buffered_body(&r), bytes("<li>a.txt</li>\n<li>b.txt</li>\n"));
}

#[test]
fn static_file_is_served_with_its_media_type() {
    let ctx = demo_context(true);
    let plan = handle(&ctx, &bytes("/static/style.css"), &bytes("GET"));
    match plan {
        DispatchPlan::ServeMount { fs_path, .. } => {
            assert_eq!(fs_path, bytes("static/style.css"));
            let r = mount_response(
                FileLookup::Content { data: bytes("body{}"), ext: bytes("css") },
                true,
                &ctx.config,
            );
            assert_eq!(r.status, 200);
            assert_eq!(r.headers[0].1, bytes("text/css"));
            assert_eq!(buffered_body(&r), bytes("body{}"));
        },
        _ => panic!("expected a mount plan"),
    }
}

#[test]
fn favicon_route_plans_a_file_read() {
    let ctx = demo_context(true);
    let plan = handle(&ctx, &bytes("/favicon"), &bytes("GET"));
    match plan {
        DispatchPlan::ReadFile { fs_path, status } => {
            assert_eq!(fs_path, bytes("static/favicon.ico"));
            assert_eq!(status, 200);
            let r = file_response(
                status,
                FileLookup::Content { data: vec![1, 2, 3], ext: bytes("ico") },
                &ctx.config,
            );
            assert_eq!(r.status, 200);
            assert_eq!(r.headers[0].1, bytes("image/x-icon"));
            assert_eq!(buffered_body(&r), vec![1, 2, 3]);
        },
        _ => panic!("expected a file-read plan"),
    }
}

#[test]
fn root_redirects_to_welcome_page() {
    let ctx = demo_context(true);
    let r = respond(handle(&ctx, &bytes("/"), &bytes("GET")));
    assert_eq!(r.status, 302);
    assert_eq!(r.headers.len(), 1);
    assert_eq!(r.headers[0].0, bytes("Location"));
    assert_eq!(r.headers[0].1, bytes("static/welcome.html"));
    assert!(buffered_body(&r).is_empty());
}

#[test]
fn error_route_fails_with_configured_status() {
    let ctx = demo_context(true);
    let r = respond(handle(&ctx, &bytes("/error"), &bytes("GET")));
    assert_eq!(r.status, 500);
    assert_eq!(buffered_body(&r), ctx.config.error_body);
}

#[test]
fn welcome_page_is_served_buffered() {
    let ctx = demo_context(true);
    let r = respond(handle(&ctx, &bytes("/welcome"), &bytes("GET")));
    assert_eq!(r.status, 200);
    assert_eq!(r.headers[0].0, bytes("Content-Type"));
    assert_eq!(r.headers[0].1, bytes("text/html"));
    assert_eq!(buffered_body(&r), bytes("<h1>Welcome</h1>"));
}

#[test]
fn streaming_handler_is_stateless_across_invocations() {
    let ctx = demo_context(true);
    let first = respond(handle(&ctx, &bytes("/async-body/bob"), &bytes("GET")));
    let second = respond(handle(&ctx, &bytes("/async-body/bob"), &bytes("GET")));
    match (&first.body, &second.body) {
        (Body::Streamed(a), Body::Streamed(b)) => assert_eq!(a, b),
        _ => panic!("expected streamed bodies"),
    }
    assert_eq!(first.status, second.status);
    assert_eq!(first.headers, second.headers);
}
