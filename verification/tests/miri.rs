use runtime_values::miri::{decimal_string, join_path, MiriErrorTrace, StackTrace, StackTraceItem};

fn frame(directory: &str, file: &str, line: u32, column: u32) -> MiriErrorTrace {
    MiriErrorTrace {
        directory: directory.as_bytes().to_vec(),
        file: file.as_bytes().to_vec(),
        line,
        column,
    }
}

#[test]
fn item_joins_directory_and_file() {
    let item = StackTraceItem::from(&frame("/nonexistent/src", "lib.rs", 3, 7));
    assert_eq!(item.file, "/nonexistent/src/lib.rs");
    assert_eq!(item.line, 3);
    assert_eq!(item.column, 7);
}

#[test]
fn item_of_a_missing_file_falls_back_to_the_joined_path() {
    let item = StackTraceItem::from(&frame("/nonexistent/dir", "gone.rs", 12, 34));
    assert_eq!(item.to_string(), "/nonexistent/dir/gone.rs:12:34");
    assert_eq!(item.display(None), "/nonexistent/dir/gone.rs:12:34");
}

#[test]
fn item_with_a_resolved_path_shows_that_path() {
    let item = StackTraceItem::from(&frame("src/../src", "main.rs", 1, 2));
    assert_eq!(item.file, "src/../src/main.rs");
    assert_eq!(item.display(Some("/work/src/main.rs")), "/work/src/main.rs:1:2");
    assert_eq!(item.to_string(), "src/../src/main.rs:1:2");
}

#[test]
fn line_zero_is_passed_through() {
    let item = StackTraceItem::from(&frame("d", "f", 0, 0));
    assert_eq!(item.line, 0);
    assert_eq!(item.column, 0);
    assert_eq!(item.to_string(), "d/f:0:0");
}

#[test]
fn bytes_that_are_no_text_are_replaced() {
    let raw = MiriErrorTrace {
        directory: vec![b'd', 0xff, b'r'],
        file: vec![0xc3, 0x28, b'.', b'r', b's'],
        line: 1,
        column: 1,
    };
    let item = StackTraceItem::from(&raw);
    assert_eq!(item.file, "d\u{fffd}r/\u{fffd}(.rs");
}

#[test]
fn text_beyond_ascii_is_kept() {
    let item = StackTraceItem::from(&frame("/tmp/\u{e9}t\u{e9}", "\u{1f496}.rs", 5, 6));
    assert_eq!(item.file, "/tmp/\u{e9}t\u{e9}/\u{1f496}.rs");
    assert_eq!(item.to_string(), "/tmp/\u{e9}t\u{e9}/\u{1f496}.rs:5:6");
}

#[test]
fn a_zero_byte_inside_a_name_is_kept() {
    let raw = MiriErrorTrace { directory: vec![b'a', 0, b'b'], file: vec![b'c'], line: 1, column: 1 };
    assert_eq!(StackTraceItem::from(&raw).file, "a\0b/c");
}

#[test]
fn join_path_follows_the_rules_of_the_host() {
    let cases: [(&str, &str); 9] = [
        ("a", "b"),
        ("a/", "b"),
        ("", "b"),
        ("a", ""),
        ("", ""),
        ("a", "/b"),
        ("/", "b"),
        ("a//", "b/c"),
        ("\u{e9}", "\u{e9}"),
    ];
    for (directory, file) in cases {
        let mut expected = std::path::PathBuf::new();
        expected.push(directory);
        expected.push(file);
        assert_eq!(join_path(directory, file), expected.to_str().unwrap());
    }
}

#[test]
fn join_path_exact_values() {
    assert_eq!(join_path("a", "b"), "a/b");
    assert_eq!(join_path("a/", "b"), "a/b");
    assert_eq!(join_path("", "b"), "b");
    assert_eq!(join_path("a", ""), "a/");
    assert_eq!(join_path("a", "/b"), "/b");
}

#[test]
fn decimal_string_exact_values() {
    assert_eq!(decimal_string(0), "0");
    assert_eq!(decimal_string(9), "9");
    assert_eq!(decimal_string(10), "10");
    assert_eq!(decimal_string(1234567890), "1234567890");
    assert_eq!(decimal_string(u32::MAX), "4294967295");
}

#[test]
fn decimal_string_agrees_with_the_standard_rendering() {
    for number in [0u32, 1, 7, 10, 11, 99, 100, 101, 65535, 65536, 999_999_999, 1_000_000_000, u32::MAX] {
        assert_eq!(decimal_string(number), format!("{}", number));
    }
}

#[test]
fn trace_keeps_the_frames_in_the_order_received() {
    let frames = [frame("/x", "a.rs", 1, 1), frame("/x", "b.rs", 2, 2), frame("/x", "c.rs", 3, 3)];
    let trace = StackTrace::new(None, &frames);
    assert!(trace.inst.is_none());
    assert_eq!(trace.traces.len(), 3);
    assert_eq!(trace.traces[0].file, "/x/a.rs");
    assert_eq!(trace.traces[1].file, "/x/b.rs");
    assert_eq!(trace.traces[2].file, "/x/c.rs");
    assert_eq!(trace.traces[2].line, 3);
}

#[test]
fn trace_without_label_shows_the_outermost_frame_first() {
    let frames = [
        frame("/nonexistent", "a.rs", 1, 10),
        frame("/nonexistent", "b.rs", 2, 20),
        frame("/nonexistent", "c.rs", 3, 30),
    ];
    let trace = StackTrace::new(None, &frames);
    let a = trace.traces[0].to_string();
    let b = trace.traces[1].to_string();
    let c = trace.traces[2].to_string();
    assert_eq!(trace.to_string(), format!("{}\n{}\n{}", c, b, a));
    assert_eq!(
        trace.to_string(),
        "/nonexistent/c.rs:3:30\n/nonexistent/b.rs:2:20\n/nonexistent/a.rs:1:10"
    );
}

#[test]
fn trace_with_label_begins_with_the_label() {
    let frames = [frame("/nonexistent", "a.rs", 1, 10), frame("/nonexistent", "b.rs", 2, 20)];
    let trace = StackTrace::new(Some(String::from("foo")), &frames);
    assert_eq!(trace.inst, Some(String::from("foo")));
    let text = trace.to_string();
    assert!(text.starts_with("\n@ foo\n\n"));
    assert_eq!(text, "\n@ foo\n\n/nonexistent/b.rs:2:20\n/nonexistent/a.rs:1:10");
}

#[test]
fn label_is_trimmed_when_shown() {
    let frames = [frame("/nonexistent", "a.rs", 1, 1)];
    let trace = StackTrace::new(Some(String::from("  %x = load i32, ptr %p \n\t")), &frames);
    assert_eq!(trace.inst, Some(String::from("  %x = load i32, ptr %p \n\t")));
    assert_eq!(trace.to_string(), "\n@ %x = load i32, ptr %p\n\n/nonexistent/a.rs:1:1");
    let blank = StackTrace::new(Some(String::from(" \u{2003}\u{a0} ")), &frames);
    assert_eq!(blank.to_string(), "\n@ \n\n/nonexistent/a.rs:1:1");
}

#[test]
fn trace_without_frames() {
    let none = StackTrace::new(None, &[]);
    assert_eq!(none.to_string(), "");
    let labelled = StackTrace::new(Some(String::from("ret void")), &[]);
    assert_eq!(labelled.to_string(), "\n@ ret void\n\n");
}

#[test]
fn trace_of_one_frame_has_no_line_feed() {
    let trace = StackTrace::new(None, &[frame("/nonexistent", "only.rs", 9, 9)]);
    assert_eq!(trace.to_string(), "/nonexistent/only.rs:9:9");
}

#[test]
fn trace_shows_resolved_paths_where_there_are_some() {
    let frames = [frame("/nonexistent", "a.rs", 1, 1), frame("rel", "b.rs", 2, 2)];
    let trace = StackTrace::new(None, &frames);
    let resolved = vec![None, Some(String::from("/abs/rel/b.rs"))];
    assert_eq!(trace.display(&resolved), "/abs/rel/b.rs:2:2\n/nonexistent/a.rs:1:1");
}
