use gdcef::mime::get_mime_type;
use gdcef::url::parse_res_url;

#[test]
fn res_protocol_test_parse_res_url() {
    assert_eq!(parse_res_url("res://ui/index.html"), "res://ui/index.html");
    assert_eq!(parse_res_url("res://folder/"), "res://folder/index.html");
    assert_eq!(parse_res_url("res://folder"), "res://folder/index.html");
    assert_eq!(parse_res_url("ui/style.css"), "res://ui/style.css");
}

#[test]
fn res_protocol_test_get_mime_type() {
    assert_eq!(get_mime_type("html"), "text/html");
    assert_eq!(get_mime_type("HTML"), "text/html");
    assert_eq!(get_mime_type("css"), "text/css");
    assert_eq!(get_mime_type("js"), "text/javascript");
    assert_eq!(get_mime_type("json"), "application/json");
    assert_eq!(get_mime_type("png"), "image/png");
    assert_eq!(get_mime_type("unknown"), "application/octet-stream");
}
