use staticfile::digits::decimal_string;
use staticfile::Body;
use staticfile::Response;
use staticfile::Static;
use staticfile::Status;

#[test]
fn favicon_request_is_served_with_cache_header() {
    let handler = Static::favicon("assets/icon.ico".to_string(), 60);
    assert!(handler.accepts(Some("/favicon.ico")));

    let bytes = vec![0u8, 1, 2, 3];
    let mut res = Response::new();
    let st = handler.respond(Some(bytes.clone()), &mut res);
    assert_eq!(st, Status::Unwind);
    assert_eq!(res.status, Some(200));
    assert_eq!(res.content_type, Some("image/x-icon".to_string()));
    assert_eq!(res.cache_control, Some("public, max-age=60".to_string()));
    assert_eq!(res.body, Some(Body::FileBytes(bytes)));
}

#[test]
fn favicon_is_served_whatever_lies_under_any_root() {
    // the favicon handler holds no root directory: only its configured file
    // and the request path decide
    let handler = Static::favicon("somewhere/else.ico".to_string(), 1);
    assert!(handler.accepts(Some("/favicon.ico")));
    assert_eq!(handler.path().as_str(), "somewhere/else.ico");

    let bytes = vec![9u8];
    let mut res = Response::new();
    let st = handler.respond(Some(bytes.clone()), &mut res);
    assert_eq!(st, Status::Unwind);
    assert_eq!(res.status, Some(200));
    assert_eq!(res.body, Some(Body::FileBytes(bytes)));
}

#[test]
fn missing_favicon_file_gives_500_and_stops() {
    let handler = Static::favicon("assets/icon.ico".to_string(), 60);
    let mut res = Response::new();
    let st = handler.respond(None, &mut res);
    assert_eq!(st, Status::Unwind);
    assert_eq!(res.status, Some(500));
    assert_eq!(res.content_type, Some("image/x-icon".to_string()));
    assert_eq!(res.cache_control, Some("public, max-age=60".to_string()));
    assert_eq!(
        res.body,
        Some(Body::Message("Failed to serve favicon.ico.".to_string()))
    );
}

#[test]
fn only_matching_paths_are_accepted() {
    let handler = Static::favicon("icon.ico".to_string(), 60);
    assert!(handler.accepts(Some("/favicon.ico")));
    assert!(handler.accepts(Some("/deep/route/favicon.ico")));
    assert!(!handler.accepts(Some("/favicon.png")));
    assert!(!handler.accepts(Some("/favicon")));
    assert!(!handler.accepts(Some("favicon.ico")));
    assert!(!handler.accepts(Some("/favicon.ico/x")));
    assert!(!handler.accepts(Some("/")));
    assert!(!handler.accepts(None));
}

#[test]
fn configured_lifetime_is_kept() {
    let handler = Static::favicon("icon.ico".to_string(), 255);
    assert_eq!(handler.max_age(), 255);
    let mut res = Response::new();
    handler.respond(None, &mut res);
    assert_eq!(res.cache_control, Some("public, max-age=255".to_string()));
}

#[test]
fn zero_lifetime_is_rendered_as_zero() {
    let handler = Static::favicon("icon.ico".to_string(), 0);
    let mut res = Response::new();
    handler.respond(Some(vec![1u8]), &mut res);
    assert_eq!(res.cache_control, Some("public, max-age=0".to_string()));
}

#[test]
fn decimal_rendering_is_exact() {
    assert_eq!(decimal_string(0), "0".to_string());
    assert_eq!(decimal_string(7), "7".to_string());
    assert_eq!(decimal_string(10), "10".to_string());
    assert_eq!(decimal_string(42), "42".to_string());
    assert_eq!(decimal_string(100), "100".to_string());
    assert_eq!(decimal_string(207), "207".to_string());
    assert_eq!(decimal_string(255), "255".to_string());
}

#[test]
fn repeated_favicon_request_gives_identical_response() {
    let handler = Static::favicon("icon.ico".to_string(), 60);
    let bytes = vec![4u8, 5, 6];
    let mut res1 = Response::new();
    let mut res2 = Response::new();
    let st1 = handler.respond(Some(bytes.clone()), &mut res1);
    let st2 = handler.respond(Some(bytes), &mut res2);
    assert_eq!(st1, st2);
    assert_eq!(res1, res2);
}
