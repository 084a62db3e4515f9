use busylib::backtrace::{after_colon_of, contains, starts_with, to_human_readable, trim_start_spaces};

fn frames(lines: &[&str]) -> Vec<u8> {
    let mut text: Vec<String> = (0..8).map(|i| format!("   {}: capture::frame{}", i, i)).collect();
    text.extend(lines.iter().map(|l| l.to_string()));
    text.join("\n").into_bytes()
}

#[test]
fn keeps_caller_frames_joined() {
    let text = frames(&[
        "   8: app::handler",
        "             at ./src/main.rs:10:5",
        "   9: app::main",
        "             at ./src/main.rs:3:1",
    ]);
    assert_eq!(
        String::from_utf8(to_human_readable(&text)).unwrap(),
        "8: app::handler at ./src/main.rs:10:5\n9: app::main at ./src/main.rs:3:1\n"
    );
}

#[test]
fn drops_own_frames_and_stops_at_runtime_entry() {
    let text = frames(&[
        "   8: busylib::prelude::ok_ctx",
        "             at ./src/prelude.rs:1:1",
        "   9: tokio::runtime::park",
        "             at ./src/park.rs:1:1",
        "  10: <core::option::Option<T> as busylib::prelude::EnhancedExpect<T,String>>::ex",
        "             at ./src/prelude.rs:2:2",
        "  11: app::work",
        "             at ./src/main.rs:7:7",
        "  12: std::sys_common::backtrace::__rust_begin_short_backtrace",
        "  13: app::never",
        "             at ./src/main.rs:9:9",
    ]);
    assert_eq!(
        String::from_utf8(to_human_readable(&text)).unwrap(),
        "11: app::work at ./src/main.rs:7:7\n"
    );
}

#[test]
fn short_backtrace_gives_nothing() {
    assert_eq!(to_human_readable(b""), Vec::<u8>::new());
    assert_eq!(to_human_readable(&frames(&[])), Vec::<u8>::new());
}

#[test]
fn byte_helpers() {
    assert_eq!(after_colon_of(b"  3: name"), b"name");
    assert_eq!(after_colon_of(b"abcd"), b"cd");
    assert_eq!(after_colon_of(b"x"), b"");
    assert_eq!(trim_start_spaces(b"   at x"), b"at x");
    assert!(starts_with(b"tokio::rt", b"tokio::"));
    assert!(!starts_with(b"tok", b"tokio::"));
    assert!(contains(b"<a as busylib::prelude::EnhancedExpect>", b"busylib::prelude::EnhancedExpect"));
    assert!(!contains(b"busylib::prelude", b"EnhancedExpect"));
    assert!(contains(b"", b""));
}
