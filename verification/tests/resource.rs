use gdcef::multipart::MultipartRead;
use gdcef::resource::{file_extension, status_text, FileRead, ResourceState};

fn header<'a>(h: &'a [(String, String)], name: &str) -> Option<&'a str> {
    h.iter().find(|(n, _)| n == name).map(|(_, v)| v.as_str())
}

#[test]
fn file_extension_of_godot_paths() {
    assert_eq!(file_extension("res://ui/index.html"), "html");
    assert_eq!(file_extension("res://a/b.tar.gz"), "gz");
    assert_eq!(file_extension("res://.hidden"), "");
    assert_eq!(file_extension("res://folder/noext"), "");
    assert_eq!(file_extension("res://a.b/."), "b");
    assert_eq!(file_extension("res://a/.."), "");
    assert_eq!(file_extension("res://a/file."), "");
    assert_eq!(file_extension("res://a/x.PNG/"), "PNG");
}

#[test]
fn status_texts() {
    assert_eq!(status_text(200), "OK");
    assert_eq!(status_text(206), "Partial Content");
    assert_eq!(status_text(403), "Forbidden");
    assert_eq!(status_text(404), "Not Found");
    assert_eq!(status_text(416), "Range Not Satisfiable");
    assert_eq!(status_text(500), "Internal Server Error");
    assert_eq!(status_text(302), "Unknown");
}

#[test]
fn error_responses_are_plain_text() {
    let s = ResourceState::forbidden();
    let h = s.response_head();
    assert_eq!(h.status, 403);
    assert_eq!(h.mime_type, "text/plain");
    assert_eq!(h.response_length, "Forbidden: Invalid path".len() as i64);
    let mut s = ResourceState::not_found("res://missing.html");
    assert_eq!(s.read(1000).unwrap(), b"File not found: res://missing.html".to_vec());
    assert!(s.read(1000).is_none());
    let s = ResourceState::open_failed("res://x");
    assert_eq!(s.response_head().status, 500);
    assert_eq!(s.response_head().status_text, "Internal Server Error");
}

#[test]
fn whole_file_response() {
    let (mut s, read) = ResourceState::for_file("res://ui/index.html", 10, "");
    assert_eq!(read, FileRead::Whole { len: 10 });
    s.fill((0u8..10).collect());
    let h = s.response_head();
    assert_eq!(h.status, 200);
    assert_eq!(h.mime_type, "text/html");
    assert_eq!(header(&h.headers, "Content-Type"), Some("text/html"));
    assert_eq!(header(&h.headers, "Access-Control-Allow-Origin"), Some("*"));
    assert_eq!(header(&h.headers, "Accept-Ranges"), Some("bytes"));
    assert_eq!(header(&h.headers, "Content-Range"), None);
    assert_eq!(h.response_length, 10);
    assert_eq!(s.read(4).unwrap(), vec![0, 1, 2, 3]);
    assert_eq!(s.skip(3), 3);
    assert_eq!(s.read(100).unwrap(), vec![7, 8, 9]);
    assert!(s.read(1).is_none());
    assert_eq!(s.skip(5), 0);
}

#[test]
fn single_range_response() {
    let (mut s, read) = ResourceState::for_file("res://video.mp4", 1000, "bytes=100-199");
    assert_eq!(read, FileRead::Range { start: 100, len: 100 });
    s.fill(vec![1; 100]);
    let h = s.response_head();
    assert_eq!(h.status, 206);
    assert_eq!(h.mime_type, "video/mp4");
    assert_eq!(header(&h.headers, "Content-Range"), Some("bytes 100-199/1000"));
    assert_eq!(h.response_length, 100);
    assert_eq!(s.skip(-5), 0);
}

#[test]
fn multipart_response_streams_its_parts() {
    let (mut s, read) = ResourceState::for_file("res://a.txt", 10, "bytes=0-1,5-6");
    assert_eq!(read, FileRead::Nothing);
    assert!(s.is_streaming());
    assert_eq!(s.file_path(), Some("res://a.txt"));
    let h = s.response_head();
    assert_eq!(h.status, 206);
    assert_eq!(h.mime_type, "multipart/byteranges; boundary=godot_cef_multipart_boundary");
    assert_eq!(header(&h.headers, "Content-Range"), None);
    let total = h.response_length as usize;
    let file: Vec<u8> = b"0123456789".to_vec();
    let mut body: Vec<u8> = Vec::new();
    loop {
        let mut out = Vec::new();
        match s.read_multipart(&mut out, 7).unwrap() {
            MultipartRead::NeedFileData { offset, len } => {
                let start = offset as usize;
                let chunk = &file[start..start + len];
                assert!(s.feed_multipart(chunk, &mut out));
            }
            MultipartRead::Finished => {
                body.extend_from_slice(&out);
                break;
            }
            MultipartRead::Filled => {}
        }
        body.extend_from_slice(&out);
    }
    assert_eq!(body.len(), total);
    let text = String::from_utf8(body).unwrap();
    assert!(text.contains("Content-Range: bytes 0-1/10\r\n\r\n01\r\n"));
    assert!(text.contains("Content-Range: bytes 5-6/10\r\n\r\n56\r\n"));
    assert!(text.ends_with("--godot_cef_multipart_boundary--\r\n"));
}

#[test]
fn multipart_stream_ends_when_the_file_gives_nothing() {
    let (mut s, _) = ResourceState::for_file("res://a.txt", 10, "bytes=0-1,5-6");
    let mut out = Vec::new();
    loop {
        match s.read_multipart(&mut out, 4096).unwrap() {
            MultipartRead::NeedFileData { .. } => {
                assert!(!s.feed_multipart(&[], &mut out));
            }
            MultipartRead::Finished => break,
            MultipartRead::Filled => panic!("the buffer is large enough"),
        }
    }
    let mut more = Vec::new();
    assert_eq!(s.read_multipart(&mut more, 10), Some(MultipartRead::Finished));
    assert!(more.is_empty());
}

#[test]
fn multipart_skip_and_cancel() {
    let (mut s, _) = ResourceState::for_file("res://a.txt", 10, "bytes=0-1,5-6");
    let total = s.response_head().response_length;
    assert_eq!(s.skip(5), 5);
    assert_eq!(s.skip(i64::MAX), total - 5);
    assert_eq!(s.skip(1), 0);
    s.cancel();
    assert!(!s.is_streaming());
}
