use puppycoder::patch::{join_lines, patch_lines, patch_text, read_window, select_lines, text_lines};

fn v(lines: &[&str]) -> Vec<String> {
    lines.iter().map(|s| s.to_string()).collect()
}

#[test]
fn patch_replaces_in_place() {
    let r = patch_lines(&v(&["x", "y", "z"]), &v(&["a", "b"]), 1);
    assert_eq!(r, v(&["x", "a", "b"]));
}

#[test]
fn patch_pads_with_empty_lines_past_the_end() {
    let r = patch_lines(&v(&["x"]), &v(&["a", "b"]), 2);
    assert_eq!(r, v(&["x", "", "a", "b"]));
}

#[test]
fn patch_extends_and_keeps_tail() {
    assert_eq!(patch_lines(&v(&["x", "y"]), &v(&["a", "b", "c"]), 1), v(&["x", "a", "b", "c"]));
    assert_eq!(patch_lines(&v(&["1", "2", "3", "4"]), &v(&["a"]), 1), v(&["1", "a", "3", "4"]));
    assert_eq!(patch_lines(&v(&[]), &v(&["a"]), 0), v(&["a"]));
    assert_eq!(patch_lines(&v(&["x"]), &v(&[]), 3), v(&["x", "", ""]));
}

#[test]
fn patch_text_joins_with_newlines() {
    assert_eq!(patch_text("x\ny\nz", "a\nb", 1), Some("x\na\nb".to_string()));
    assert_eq!(patch_text("", "hello", 0), Some("hello".to_string()));
    assert_eq!(patch_text("x\n", "a\nb\n", 2), Some("x\n\na\nb".to_string()));
}

#[test]
fn read_past_end_is_empty() {
    assert_eq!(read_window("x\ny\nz", 10, 5), "");
    assert_eq!(select_lines(&v(&["x", "y", "z"]), 10, 5), Vec::<String>::new());
}

#[test]
fn read_window_clamps_to_the_end() {
    assert_eq!(read_window("a\nb\nc\nd", 1, 2), "b\nc");
    assert_eq!(read_window("a\nb\nc\nd", 2, 100), "c\nd");
    assert_eq!(read_window("a\nb", 0, 0), "");
    assert_eq!(read_window("a\nb", u32::MAX, u32::MAX), "");
}

#[test]
fn lines_and_join() {
    assert_eq!(text_lines("a\r\nb\n"), v(&["a", "b"]));
    assert_eq!(text_lines(""), Vec::<String>::new());
    assert_eq!(join_lines(&v(&["a", "", "b"])), "a\n\nb");
    assert_eq!(join_lines(&v(&[])), "");
}
