use cn2en::{extract_tail_chinese_segment, ChineseSegment, FocusedTextSnapshot};

fn snapshot(text: &str) -> FocusedTextSnapshot {
    FocusedTextSnapshot {
        runtime_id: vec![42, 7],
        process_id: 1234,
        automation_id: String::from("edit"),
        class_name: String::from("Edit"),
        control_type: String::from("Some(Edit)"),
        text: text.to_string(),
    }
}

#[test]
fn replace_tail_with_translation() {
    let snap = snapshot("Hello 你好  ");
    let seg = extract_tail_chinese_segment(&snap.text).unwrap();
    let out = snap.replace_tail_segment(&seg, "hi").unwrap();
    assert_eq!(out, "Hello hi  ");
}

#[test]
fn replace_in_middle_range() {
    let snap = snapshot("abcdef");
    let seg = ChineseSegment { text: String::from("cd"), start: 2, char_count: 2 };
    assert_eq!(snap.replace_tail_segment(&seg, "XYZ").unwrap(), "abXYZef");
}

#[test]
fn replace_counts_chars_not_bytes() {
    let snap = snapshot("中文字");
    let seg = ChineseSegment { text: String::from("文"), start: 1, char_count: 1 };
    assert_eq!(snap.replace_tail_segment(&seg, "x").unwrap(), "中x字");
}

#[test]
fn replace_range_at_end_is_ok() {
    let snap = snapshot("ab");
    let seg = ChineseSegment { text: String::new(), start: 2, char_count: 0 };
    assert_eq!(snap.replace_tail_segment(&seg, "c").unwrap(), "abc");
}

#[test]
fn replace_range_past_end_fails() {
    let snap = snapshot("ab");
    let seg = ChineseSegment { text: String::from("xx"), start: 1, char_count: 2 };
    assert_eq!(
        snap.replace_tail_segment(&seg, "c"),
        Err(String::from("segment range exceeds current text"))
    );
}

#[test]
fn replace_with_own_segment_gives_text_back() {
    for text in ["你好", "x 中文 ", "abc字"] {
        let snap = snapshot(text);
        let seg = extract_tail_chinese_segment(text).unwrap();
        assert_eq!(snap.replace_tail_segment(&seg, &seg.text.clone()).unwrap(), text);
    }
}
