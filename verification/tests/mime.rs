use gdcef::mime::get_mime_type;

#[test]
fn mime_test_get_mime_type() {
    assert_eq!(get_mime_type("html"), "text/html");
    assert_eq!(get_mime_type("HTML"), "text/html");
    assert_eq!(get_mime_type("css"), "text/css");
    assert_eq!(get_mime_type("js"), "text/javascript");
    assert_eq!(get_mime_type("json"), "application/json");
    assert_eq!(get_mime_type("png"), "image/png");
    assert_eq!(get_mime_type("unknown"), "application/octet-stream");
}

#[test]
fn mime_lookup_ignores_ascii_case() {
    assert_eq!(get_mime_type("WOFF2"), "font/woff2");
    assert_eq!(get_mime_type("Html"), get_mime_type("html"));
    assert_eq!(get_mime_type("PNG"), "image/png");
    assert_eq!(get_mime_type("TAR.GZ"), "application/octet-stream");
}
