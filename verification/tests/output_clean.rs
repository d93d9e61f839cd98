use gguf_engine::output::finalize_output;

#[test]
fn markers_are_stripped_and_text_trimmed() {
    let pieces = vec![
        Some(String::from("<|im_start|>")),
        Some(String::from("Hello")),
        Some(String::from("<|im_end|>")),
        Some(String::from(" world ")),
    ];
    let out = finalize_output(&pieces);
    assert_eq!(out.text, String::from("Hello world"));
    assert_eq!(out.skipped, 0);
}

#[test]
fn every_marker_kind_is_removed() {
    let pieces = vec![Some(String::from(
        "<|system|>a<|user|>b<|assistant|>c<|endoftext|>",
    ))];
    let out = finalize_output(&pieces);
    assert_eq!(out.text, String::from("abc"));
}

#[test]
fn marker_split_across_pieces_is_removed() {
    let pieces = vec![
        Some(String::from("<|im_")),
        Some(String::from("start|>")),
        Some(String::from("hi")),
    ];
    let out = finalize_output(&pieces);
    assert_eq!(out.text, String::from("hi"));
}

#[test]
fn interleaved_markers_leave_no_marker_behind() {
    let pieces = vec![Some(String::from("<|im_<|im_end|>start|>"))];
    let out = finalize_output(&pieces);
    assert_eq!(out.text, String::from(""));
}

#[test]
fn failed_pieces_are_skipped_and_counted() {
    let pieces = vec![
        Some(String::from("a")),
        None,
        Some(String::from("b")),
        None,
        None,
    ];
    let out = finalize_output(&pieces);
    assert_eq!(out.text, String::from("ab"));
    assert_eq!(out.skipped, 3);
}

#[test]
fn empty_pieces_give_empty_text() {
    let pieces: Vec<Option<String>> = Vec::new();
    let out = finalize_output(&pieces);
    assert_eq!(out.text, String::from(""));
    assert_eq!(out.skipped, 0);
}

#[test]
fn surrounding_whitespace_is_trimmed() {
    let pieces = vec![Some(String::from("\n\t  answer \r\n"))];
    let out = finalize_output(&pieces);
    assert_eq!(out.text, String::from("answer"));
}

#[test]
fn inner_whitespace_is_kept() {
    let pieces = vec![Some(String::from("  a b  c  "))];
    let out = finalize_output(&pieces);
    assert_eq!(out.text, String::from("a b  c"));
}
