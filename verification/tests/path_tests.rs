use http_server::website_handler::join_under_root;
use http_server::website_handler::path_within_root;
use http_server::website_handler::resolve_under;
use http_server::WebsiteHandler;

#[test]
fn join_empty_and_root_paths_ask_for_index() {
    assert_eq!(join_under_root("/srv/public", "/"), "/srv/public/index.html");
    assert_eq!(join_under_root("/srv/public", ""), "/srv/public/index.html");
}

#[test]
fn join_appends_under_the_root() {
    assert_eq!(join_under_root("/srv/public", "/a.txt"), "/srv/public/a.txt");
    assert_eq!(join_under_root("/srv/public", "a.txt"), "/srv/public/a.txt");
    assert_eq!(
        join_under_root("/srv/public", "/dir/b.html"),
        "/srv/public/dir/b.html"
    );
}

#[test]
fn containment_accepts_root_and_descendants() {
    assert!(path_within_root("/srv/public", "/srv/public"));
    assert!(path_within_root("/srv/public/a.txt", "/srv/public"));
    assert!(path_within_root("/srv/public/d/e", "/srv/public"));
    assert!(path_within_root("/anything/at/all", "/"));
}

#[test]
fn containment_rejects_prefix_siblings_and_outsiders() {
    assert!(!path_within_root("/srv/public-secret/x", "/srv/public"));
    assert!(!path_within_root("/srv/publi", "/srv/public"));
    assert!(!path_within_root("/etc/passwd", "/srv/public"));
    assert!(!path_within_root("/srv", "/srv/public"));
}

#[test]
fn traversal_is_rejected_for_any_root() {
    let handler = WebsiteHandler::new("/tmp".to_string());
    assert_eq!(handler.map_path("/../../etc/passwd"), None);
    assert_eq!(handler.map_path("/../etc/passwd"), None);

    let missing_root = WebsiteHandler::new("/no/such/root/anywhere".to_string());
    assert_eq!(missing_root.map_path("/../../etc/passwd"), None);
    assert_eq!(missing_root.map_path("/index.html"), None);
}

#[test]
fn resolve_under_rejects_escapes_from_a_real_root() {
    assert_eq!(resolve_under("/tmp", "/../../etc/passwd"), None);
    assert_eq!(resolve_under("/tmp", "/../etc"), None);
}
