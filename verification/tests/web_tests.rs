use tracemon::web::{
    generate_directory_listing, port_candidates, request_log_line, route_dir, serve_file,
    DirRoute, FileServe,
};

#[test]
fn listing_html_exact() {
    let names = vec!["a.txt".to_string(), "sub".to_string()];
    let html = generate_directory_listing("docs", &names);
    assert_eq!(
        html,
        "<html><body><h1>Directory listing for /docs</h1><ul>\
         <li><a href=\"docs/a.txt\">a.txt</a></li>\
         <li><a href=\"docs/sub\">sub</a></li>\
         </ul></body></html>"
    );
}

#[test]
fn listing_at_root_links_bare_names() {
    let names = vec!["index.txt".to_string()];
    let html = generate_directory_listing("", &names);
    assert_eq!(
        html,
        "<html><body><h1>Directory listing for /</h1><ul>\
         <li><a href=\"index.txt\">index.txt</a></li>\
         </ul></body></html>"
    );
}

#[test]
fn listing_of_empty_directory() {
    let html = generate_directory_listing("empty", &Vec::new());
    assert_eq!(html, "<html><body><h1>Directory listing for /empty</h1><ul></ul></body></html>");
}

#[test]
fn log_line_formats_address_method_url() {
    assert_eq!(
        request_log_line(&Some("127.0.0.1:5000".to_string()), "GET", "/x"),
        "[127.0.0.1:5000] GET /x"
    );
    assert_eq!(request_log_line(&None, "POST", "/y"), "[unknown] POST /y");
}

#[test]
fn directory_routing() {
    assert_eq!(route_dir(true, true), Some(DirRoute::UseIndex));
    assert_eq!(route_dir(true, false), Some(DirRoute::Listing));
    assert_eq!(route_dir(false, true), None);
    assert_eq!(route_dir(false, false), None);
}

#[test]
fn file_serving_decisions() {
    match serve_file(true, true, true, "page.html") {
        FileServe::Content { content_type } => assert_eq!(content_type, "text/html"),
        _ => panic!("expected content"),
    }
    match serve_file(true, true, true, "archive.bin") {
        FileServe::Content { content_type } => assert_eq!(content_type, "application/octet-stream"),
        _ => panic!("expected content"),
    }
    assert!(matches!(serve_file(true, true, false, "page.html"), FileServe::ReadError));
    assert!(matches!(serve_file(false, false, true, "page.html"), FileServe::Missing));
    assert!(matches!(serve_file(true, false, true, "page.html"), FileServe::Missing));
}

#[test]
fn content_type_follows_extension() {
    // the guess depends on the path, not on any fixed answer
    let png = match serve_file(true, true, true, "img.png") {
        FileServe::Content { content_type } => content_type,
        _ => panic!("expected content"),
    };
    assert_eq!(png, "image/png");
    let css = match serve_file(true, true, true, "style.css") {
        FileServe::Content { content_type } => content_type,
        _ => panic!("expected content"),
    };
    assert_eq!(css, "text/css");
}

#[test]
fn port_search_range() {
    assert_eq!(port_candidates(8998), vec![8998, 8999]);
    assert!(port_candidates(9000).is_empty());
    assert!(port_candidates(9500).is_empty());
    let all = port_candidates(8000);
    assert_eq!(all.len(), 1000);
    assert_eq!(all[0], 8000);
    assert_eq!(all[999], 8999);
}
