use cellardoor::ids::parse_ids;
use cellardoor::ids::split_id_lines;

#[test]
fn lines_split_on_feeds_and_strip_returns() {
    let ids = parse_ids(&b"alpha\r\nbeta\ngamma".to_vec());
    assert_eq!(ids, vec!["alpha", "beta", "gamma"]);
}

#[test]
fn no_trailing_empty_line_after_final_feed() {
    let ids = parse_ids(&b"one\ntwo\n".to_vec());
    assert_eq!(ids, vec!["one", "two"]);
}

#[test]
fn empty_input_has_no_ids() {
    assert!(parse_ids(&Vec::new()).is_empty());
}

#[test]
fn blank_lines_are_kept() {
    let ids = parse_ids(&b"\n\n".to_vec());
    assert_eq!(ids, vec!["", ""]);
}

#[test]
fn final_fragment_keeps_a_lone_return() {
    let ids = parse_ids(&b"x\r".to_vec());
    assert_eq!(ids, vec!["x\r"]);
}

#[test]
fn lines_that_are_not_text_are_dropped() {
    let data = vec![0xff, 0xfe, b'\n', b'o', b'k'];
    let ids = parse_ids(&data);
    assert_eq!(ids, vec!["ok"]);
}

#[test]
fn raw_lines_keep_their_bytes() {
    let lines = split_id_lines(&b"a\r\nb".to_vec());
    assert_eq!(lines, vec![b"a".to_vec(), b"b".to_vec()]);
}
