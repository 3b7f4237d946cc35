use gdcef::scheme::GodotScheme;
use gdcef::url::{parse_godot_url, url_decode};

#[test]
fn handler_test_parse_res_url() {
    assert_eq!(
        parse_godot_url("res://ui/index.html", GodotScheme::Res),
        Some("res://ui/index.html".to_string())
    );
    assert_eq!(
        parse_godot_url("res://folder/", GodotScheme::Res),
        Some("res://folder/index.html".to_string())
    );
    assert_eq!(
        parse_godot_url("res://folder", GodotScheme::Res),
        Some("res://folder/index.html".to_string())
    );
    assert_eq!(
        parse_godot_url("ui/style.css", GodotScheme::Res),
        Some("res://ui/style.css".to_string())
    );
}

#[test]
fn test_parse_url_strips_query_params() {
    assert_eq!(
        parse_godot_url("res://file.html?v=1", GodotScheme::Res),
        Some("res://file.html".to_string())
    );
    assert_eq!(
        parse_godot_url("res://ui/script.js?cache=false&v=2", GodotScheme::Res),
        Some("res://ui/script.js".to_string())
    );
    assert_eq!(
        parse_godot_url("user://data.json?timestamp=12345", GodotScheme::User),
        Some("user://data.json".to_string())
    );
}

#[test]
fn test_parse_url_strips_fragments() {
    assert_eq!(
        parse_godot_url("res://file.html#section", GodotScheme::Res),
        Some("res://file.html".to_string())
    );
    assert_eq!(
        parse_godot_url("res://docs/page.html#heading-1", GodotScheme::Res),
        Some("res://docs/page.html".to_string())
    );
    assert_eq!(
        parse_godot_url("user://readme.html#intro", GodotScheme::User),
        Some("user://readme.html".to_string())
    );
}

#[test]
fn test_parse_url_strips_query_and_fragment() {
    assert_eq!(
        parse_godot_url("res://file.html?v=1#section", GodotScheme::Res),
        Some("res://file.html".to_string())
    );
    assert_eq!(
        parse_godot_url("res://app.js?debug=true#line-50", GodotScheme::Res),
        Some("res://app.js".to_string())
    );
}

#[test]
fn test_parse_user_url() {
    assert_eq!(
        parse_godot_url("user://data/index.html", GodotScheme::User),
        Some("user://data/index.html".to_string())
    );
    assert_eq!(
        parse_godot_url("user://folder/", GodotScheme::User),
        Some("user://folder/index.html".to_string())
    );
    assert_eq!(
        parse_godot_url("user://folder", GodotScheme::User),
        Some("user://folder/index.html".to_string())
    );
    assert_eq!(
        parse_godot_url("data/style.css", GodotScheme::User),
        Some("user://data/style.css".to_string())
    );
}

#[test]
fn test_rejects_path_traversal() {
    // Basic traversal attempts
    assert_eq!(
        parse_godot_url("res://../etc/passwd", GodotScheme::Res),
        None
    );
    assert_eq!(
        parse_godot_url("res://../../etc/passwd", GodotScheme::Res),
        None
    );
    assert_eq!(
        parse_godot_url("res://folder/../../../etc/passwd", GodotScheme::Res),
        None
    );
    assert_eq!(
        parse_godot_url("user://../sensitive", GodotScheme::User),
        None
    );

    // Traversal in middle of path
    assert_eq!(
        parse_godot_url("res://a/b/../../../c", GodotScheme::Res),
        None
    );

    // Traversal at end
    assert_eq!(parse_godot_url("res://folder/..", GodotScheme::Res), None);

    // URL-encoded traversal attempts
    assert_eq!(
        parse_godot_url("res://%2e%2e/etc/passwd", GodotScheme::Res),
        None
    );
    assert_eq!(
        parse_godot_url("res://%2E%2E/etc/passwd", GodotScheme::Res),
        None
    );
    assert_eq!(
        parse_godot_url("res://folder%2f..%2f../etc", GodotScheme::Res),
        None
    );

    // Backslash-based traversal (Windows-style)
    assert_eq!(
        parse_godot_url("res://..\\etc\\passwd", GodotScheme::Res),
        None
    );
    assert_eq!(
        parse_godot_url("res://folder\\..\\..\\etc", GodotScheme::Res),
        None
    );
    assert_eq!(
        parse_godot_url("res://a\\b\\..\\..\\..\\c", GodotScheme::Res),
        None
    );

    // URL-encoded backslash traversal (%5c = backslash)
    assert_eq!(
        parse_godot_url("res://..%5cetc%5cpasswd", GodotScheme::Res),
        None
    );
    assert_eq!(
        parse_godot_url("res://..%5Cetc%5Cpasswd", GodotScheme::Res),
        None
    );
}

#[test]
fn test_rejects_null_bytes() {
    // URL-encoded null byte (%00)
    assert_eq!(
        parse_godot_url("res://file%00.html", GodotScheme::Res),
        None
    );
    assert_eq!(
        parse_godot_url("res://folder%00/file.txt", GodotScheme::Res),
        None
    );
    assert_eq!(
        parse_godot_url("res://%00file.html", GodotScheme::Res),
        None
    );
    assert_eq!(
        parse_godot_url("user://data%00.json", GodotScheme::User),
        None
    );
}

#[test]
fn test_allows_dots_in_filenames() {
    // Single dots and dots in filenames should be allowed
    assert_eq!(
        parse_godot_url("res://file.name.html", GodotScheme::Res),
        Some("res://file.name.html".to_string())
    );
    assert_eq!(
        parse_godot_url("res://.hidden/file.txt", GodotScheme::Res),
        Some("res://.hidden/file.txt".to_string())
    );
    assert_eq!(
        parse_godot_url("res://folder/./file.txt", GodotScheme::Res),
        Some("res://folder/./file.txt".to_string())
    );
}

#[test]
fn test_url_decode() {
    // Space encoding
    assert_eq!(url_decode("hello%20world"), Some("hello world".to_string()));

    // Multiple encodings
    assert_eq!(url_decode("a%20b%20c"), Some("a b c".to_string()));

    // Mixed encoded and plain
    assert_eq!(
        url_decode("file%20name.txt"),
        Some("file name.txt".to_string())
    );

    // Common special characters
    assert_eq!(url_decode("%21%40%23"), Some("!@#".to_string()));

    // Uppercase hex digits
    assert_eq!(url_decode("%2F%2f"), Some("//".to_string()));

    // No encoding needed
    assert_eq!(url_decode("plain.txt"), Some("plain.txt".to_string()));

    // Empty string
    assert_eq!(url_decode(""), Some("".to_string()));

    // Invalid: incomplete sequence
    assert_eq!(url_decode("test%2"), None);
    assert_eq!(url_decode("test%"), None);

    // Invalid: non-hex characters
    assert_eq!(url_decode("test%GG"), None);
}

#[test]
fn test_parse_url_decodes_percent_encoding() {
    // Space in filename
    assert_eq!(
        parse_godot_url("res://my%20file.html", GodotScheme::Res),
        Some("res://my file.html".to_string())
    );

    // Space in directory name
    assert_eq!(
        parse_godot_url("res://my%20folder/index.html", GodotScheme::Res),
        Some("res://my folder/index.html".to_string())
    );

    // Multiple spaces
    assert_eq!(
        parse_godot_url(
            "res://path%20with%20spaces/file%20name.txt",
            GodotScheme::Res
        ),
        Some("res://path with spaces/file name.txt".to_string())
    );

    // Special characters
    assert_eq!(
        parse_godot_url("res://file%5B1%5D.txt", GodotScheme::Res),
        Some("res://file[1].txt".to_string())
    );

    // User scheme with encoding
    assert_eq!(
        parse_godot_url("user://my%20data.json", GodotScheme::User),
        Some("user://my data.json".to_string())
    );

    // Combined with query params (query stripped, path decoded)
    assert_eq!(
        parse_godot_url("res://my%20file.html?v=1", GodotScheme::Res),
        Some("res://my file.html".to_string())
    );
}

#[test]
fn test_rejects_invalid_percent_encoding() {
    // Incomplete encoding
    assert_eq!(parse_godot_url("res://file%2", GodotScheme::Res), None);
    assert_eq!(parse_godot_url("res://file%", GodotScheme::Res), None);

    // Invalid hex characters
    assert_eq!(parse_godot_url("res://file%GG.txt", GodotScheme::Res), None);
}

#[test]
fn url_decode_needs_two_hex_digits() {
    assert_eq!(url_decode("%+1"), None);
    assert_eq!(url_decode("a%2"), None);
    assert_eq!(url_decode("%zz"), None);
    assert_eq!(url_decode("%C3%A9"), Some("\u{e9}".to_string()));
    assert_eq!(url_decode("%FF"), None);
}

#[test]
fn served_paths_name_a_file() {
    assert_eq!(
        parse_godot_url("res://v1.2/docs", GodotScheme::Res),
        Some("res://v1.2/docs/index.html".to_string())
    );
    assert_eq!(parse_godot_url("res://", GodotScheme::Res), Some("res://index.html".to_string()));
    assert_eq!(
        parse_godot_url("user://save/game.json", GodotScheme::User),
        Some("user://save/game.json".to_string())
    );
}

#[test]
fn text_without_percent_decodes_to_itself() {
    assert_eq!(url_decode("ui/menu é.html"), Some("ui/menu é.html".to_string()));
    assert_eq!(url_decode(""), Some(String::new()));
}
