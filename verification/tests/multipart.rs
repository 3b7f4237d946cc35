use gdcef::multipart::{
    calculate_multipart_size, read_multipart_step, skip_multipart_streaming, MultipartPhase,
    MultipartRead, MultipartStreamState, MULTIPART_BOUNDARY,
};
use gdcef::range::ByteRange;

fn ranges() -> Vec<ByteRange> {
    vec![ByteRange { start: 0, end: 1 }, ByteRange { start: 5, end: 6 }]
}

fn expected_body(file: &[u8], rs: &[ByteRange], mime: &str) -> Vec<u8> {
    let mut body = Vec::new();
    for r in rs {
        body.extend_from_slice(
            format!(
                "--{}\r\nContent-Type: {}\r\nContent-Range: bytes {}-{}/{}\r\n\r\n",
                MULTIPART_BOUNDARY,
                mime,
                r.start,
                r.end,
                file.len()
            )
            .as_bytes(),
        );
        body.extend_from_slice(&file[r.start as usize..=r.end as usize]);
        body.extend_from_slice(b"\r\n");
    }
    body.extend_from_slice(format!("--{}--\r\n", MULTIPART_BOUNDARY).as_bytes());
    body
}

#[test]
fn headers_and_boundary() {
    let st = MultipartStreamState::new(ranges(), "text/plain", 10);
    assert_eq!(
        st.build_current_header("text/plain", 10),
        "--godot_cef_multipart_boundary\r\nContent-Type: text/plain\r\nContent-Range: bytes 0-1/10\r\n\r\n"
    );
    assert_eq!(MultipartStreamState::final_boundary(), b"--godot_cef_multipart_boundary--\r\n".to_vec());
}

#[test]
fn total_size_is_the_body_length() {
    let file = b"0123456789";
    let body = expected_body(file, &ranges(), "text/plain");
    assert_eq!(calculate_multipart_size(&ranges(), "text/plain", 10), body.len() as u64);
    let st = MultipartStreamState::new(ranges(), "text/plain", 10);
    assert_eq!(st.total_size, body.len() as u64);
}

#[test]
fn reading_in_small_steps_produces_the_body() {
    let file = b"0123456789";
    let mut st = MultipartStreamState::new(ranges(), "text/plain", 10);
    let mut body = Vec::new();
    loop {
        let mut out = Vec::new();
        let r = read_multipart_step(&mut st, "text/plain", 10, &mut out, 3);
        match r {
            MultipartRead::NeedFileData { offset, len } => {
                let o = offset as usize;
                st.feed_file_data("text/plain", 10, &file[o..o + len], &mut out);
                body.extend_from_slice(&out);
            }
            MultipartRead::Filled => {
                assert_eq!(out.len(), 3);
                body.extend_from_slice(&out);
            }
            MultipartRead::Finished => {
                body.extend_from_slice(&out);
                break;
            }
        }
    }
    assert_eq!(body, expected_body(file, &ranges(), "text/plain"));
}

#[test]
fn skipping_then_reading_gives_the_rest_of_the_body() {
    let file = b"0123456789";
    let full = expected_body(file, &ranges(), "text/plain");
    let mut st = MultipartStreamState::new(ranges(), "text/plain", 10);
    assert_eq!(skip_multipart_streaming(&mut st, "text/plain", 10, 70), 70);
    let mut rest = Vec::new();
    loop {
        let mut out = Vec::new();
        match read_multipart_step(&mut st, "text/plain", 10, &mut out, 1000) {
            MultipartRead::NeedFileData { offset, len } => {
                let o = offset as usize;
                st.feed_file_data("text/plain", 10, &file[o..o + len], &mut out);
                rest.extend_from_slice(&out);
            }
            MultipartRead::Finished => {
                rest.extend_from_slice(&out);
                break;
            }
            MultipartRead::Filled => rest.extend_from_slice(&out),
        }
    }
    assert_eq!(rest, full[70..].to_vec());
    assert_eq!(skip_multipart_streaming(&mut st, "text/plain", 10, 5), 0);
}

#[test]
fn skip_stops_at_the_end_of_the_body() {
    let mut st = MultipartStreamState::new(ranges(), "text/plain", 10);
    let total = st.total_size as usize;
    assert_eq!(skip_multipart_streaming(&mut st, "text/plain", 10, usize::MAX), total);
    let mut out = Vec::new();
    assert_eq!(read_multipart_step(&mut st, "text/plain", 10, &mut out, 10), MultipartRead::Finished);
    assert!(out.is_empty());
}

#[test]
fn abort_ends_the_stream() {
    let mut st = MultipartStreamState::new(ranges(), "text/plain", 10);
    st.abort();
    assert_eq!(st.phase, MultipartPhase::Complete);
    let mut out = Vec::new();
    assert_eq!(read_multipart_step(&mut st, "text/plain", 10, &mut out, 10), MultipartRead::Finished);
}

#[test]
fn skip_past_the_end_completes_the_stream() {
    let mut st = MultipartStreamState::new(ranges(), "text/plain", 10);
    let total = st.total_size as usize;
    assert_eq!(skip_multipart_streaming(&mut st, "text/plain", 10, total), total);
    assert_eq!(st.phase, MultipartPhase::FinalBoundary);
    assert_eq!(skip_multipart_streaming(&mut st, "text/plain", 10, 1), 0);
    assert_eq!(st.phase, MultipartPhase::Complete);

    let mut st = MultipartStreamState::new(ranges(), "text/plain", 10);
    assert_eq!(skip_multipart_streaming(&mut st, "text/plain", 10, total + 1), total);
    assert_eq!(st.phase, MultipartPhase::Complete);
}

#[test]
fn file_data_is_asked_for_up_to_the_buffer_or_the_range() {
    let mut st = MultipartStreamState::new(vec![ByteRange { start: 2, end: 9 }], "text/plain", 10);
    let header_len = st.build_current_header("text/plain", 10).len();
    let mut out = Vec::new();
    assert_eq!(
        read_multipart_step(&mut st, "text/plain", 10, &mut out, header_len + 3),
        MultipartRead::NeedFileData { offset: 2, len: 3 }
    );
    let mut st = MultipartStreamState::new(vec![ByteRange { start: 2, end: 9 }], "text/plain", 10);
    let mut out = Vec::new();
    assert_eq!(
        read_multipart_step(&mut st, "text/plain", 10, &mut out, header_len + 100),
        MultipartRead::NeedFileData { offset: 2, len: 8 }
    );
}

#[test]
fn size_of_small_and_huge_ranges() {
    assert_eq!(calculate_multipart_size(&[], "text/plain", 1), 34);
    assert_eq!(calculate_multipart_size(&[ByteRange { start: 0, end: 0 }], "text/plain", 1), 125);
    assert_eq!(
        calculate_multipart_size(&[ByteRange { start: 1, end: u64::MAX }], "text/plain", u64::MAX),
        u64::MAX
    );
}
