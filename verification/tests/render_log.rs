use parking_lot::RwLock;
use rendering::render_log::{
    append_log, clear_log, get_log, is_logged, line_buffer, record_line, RenderLog, LEVEL_ERROR,
    LEVEL_FATAL, LEVEL_INFO, LEVEL_PANIC, LEVEL_WARNING, LINE_CAPACITY,
};

fn filled(message: &[u8]) -> Vec<u8> {
    let mut line = line_buffer();
    line[..message.len()].copy_from_slice(message);
    line
}

#[test]
fn appended_messages_are_read_back() {
    let mut log = RenderLog::new();
    assert_eq!(get_log(&log), "");
    append_log(&mut log, "one\n");
    append_log(&mut log, "zwei \u{fc}");
    assert_eq!(get_log(&log), "one\nzwei \u{fc}");
}

#[test]
fn cleared_log_is_empty_and_keeps_its_line_start() {
    let mut log = RenderLog::default();
    assert_eq!(log.last_prefix, 1);
    append_log(&mut log, "text");
    log.last_prefix = 0;
    clear_log(&mut log);
    assert_eq!(get_log(&log), "");
    assert_eq!(log.last_prefix, 0);
    append_log(&mut log, "more");
    assert_eq!(get_log(&log), "more");
}

#[test]
fn appends_join() {
    let mut apart = RenderLog::new();
    append_log(&mut apart, "ab");
    append_log(&mut apart, "cd");
    let mut joined = RenderLog::new();
    append_log(&mut joined, "abcd");
    assert_eq!(get_log(&apart), get_log(&joined));
}

#[test]
fn levels_up_to_the_set_one_are_logged() {
    assert!(is_logged(LEVEL_ERROR, LEVEL_INFO));
    assert!(is_logged(LEVEL_INFO, LEVEL_INFO));
    assert!(!is_logged(40, LEVEL_INFO));
    assert!(is_logged(-8, LEVEL_PANIC));
}

#[test]
fn errors_are_red() {
    for level in [LEVEL_PANIC, LEVEL_FATAL, LEVEL_ERROR] {
        let mut log = RenderLog::new();
        record_line(&mut log, level, filled(b"broken\n"), 7, 1);
        assert_eq!(get_log(&log), "<font color=\"#d82626\">broken\n</font>");
    }
}

#[test]
fn warnings_are_orange() {
    let mut log = RenderLog::new();
    record_line(&mut log, LEVEL_WARNING, filled(b"careful"), 7, 0);
    assert_eq!(get_log(&log), "<font color=\"#f6a10c\">careful</font>");
    assert_eq!(log.last_prefix, 0);
}

#[test]
fn other_messages_are_shown_as_they_are() {
    let mut log = RenderLog::new();
    append_log(&mut log, "> ");
    record_line(&mut log, LEVEL_INFO, filled("gr\u{fc}n".as_bytes()), 5, 1);
    record_line(&mut log, 48, filled(b"!"), 1, 1);
    assert_eq!(get_log(&log), "> gr\u{fc}n!");
}

#[test]
fn invalid_text_is_dropped_but_the_line_start_is_kept() {
    let mut log = RenderLog::new();
    append_log(&mut log, "before");
    record_line(&mut log, LEVEL_ERROR, filled(&[b'a', 0xff]), 2, 0);
    assert_eq!(get_log(&log), "before");
    assert_eq!(log.last_prefix, 0);
    // A character that is cut in two is no text either.
    record_line(&mut log, LEVEL_ERROR, filled("\u{fc}".as_bytes()), 1, 1);
    // Nor is a lone surrogate, nor an overlong encoding.
    record_line(&mut log, LEVEL_ERROR, filled(&[0xed, 0xa0, 0x80]), 3, 1);
    record_line(&mut log, LEVEL_ERROR, filled(&[0xc0, 0x80]), 2, 1);
    assert_eq!(get_log(&log), "before");
}

#[test]
fn message_longer_than_the_buffer_is_filled_up() {
    let mut log = RenderLog::new();
    let line = vec![b'x'; LINE_CAPACITY];
    record_line(&mut log, LEVEL_INFO, line, LINE_CAPACITY as i32 + 3, 1);
    let text = get_log(&log);
    assert_eq!(text.len(), LINE_CAPACITY + 3);
    assert!(text.ends_with("xxx\0\0\0"));
}

#[test]
fn nothing_written_leaves_the_whole_buffer() {
    for written in [0, -1] {
        let mut log = RenderLog::new();
        record_line(&mut log, LEVEL_INFO, line_buffer(), written, 1);
        assert_eq!(get_log(&log), "\0".repeat(LINE_CAPACITY));
    }
}

#[test]
fn log_can_stand_behind_a_lock() {
    let shared = RwLock::new(RenderLog::new());
    append_log(&mut shared.write(), "a");
    record_line(&mut shared.write(), LEVEL_INFO, filled(b"b"), 1, 1);
    assert_eq!(get_log(&shared.read()), "ab");
    clear_log(&mut shared.write());
    assert_eq!(get_log(&shared.read()), "");
}
