use forge::sse::{data_of_line, is_done, EventDecoder};

#[test]
fn data_lines_are_decoded_across_chunks() {
    let mut d = EventDecoder::new();
    let out = d.feed(b"data: {\"a\":1}\n\nda");
    assert_eq!(out, vec![b"{\"a\":1}".to_vec()]);
    let out = d.feed(b"ta:[DONE]\r\n");
    assert_eq!(out, vec![b"[DONE]".to_vec()]);
    assert!(is_done(&out[0]));
}

#[test]
fn other_lines_are_passed_over() {
    let mut d = EventDecoder::new();
    let out = d.feed(b": comment\nevent: x\nid: 3\n\n");
    assert!(out.is_empty());
    let out = d.feed(b"data:  two spaces\n");
    assert_eq!(out, vec![b" two spaces".to_vec()]);
}

#[test]
fn unfinished_line_waits_for_its_end() {
    let mut d = EventDecoder::new();
    assert!(d.feed(b"data: partial").is_empty());
    assert_eq!(d.feed(b"\n"), vec![b"partial".to_vec()]);
}

#[test]
fn chunking_does_not_change_the_result() {
    let stream = b"data: one\n\ndata: two\r\n\ndata: [DONE]\n";
    let mut whole = EventDecoder::new();
    let all = whole.feed(stream);
    let mut split = EventDecoder::new();
    let mut pieces = Vec::new();
    for chunk in stream.chunks(3) {
        pieces.extend(split.feed(chunk));
    }
    assert_eq!(all, pieces);
    assert_eq!(all.len(), 3);
}

#[test]
fn single_line_data() {
    assert_eq!(data_of_line(&b"data:x".to_vec()), Some(b"x".to_vec()));
    assert_eq!(data_of_line(&b"data:".to_vec()), Some(vec![]));
    assert_eq!(data_of_line(&b"dat".to_vec()), None);
    assert!(!is_done(&b"[DONE] ".to_vec()));
}
