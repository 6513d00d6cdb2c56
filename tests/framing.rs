use steamcmd_hub::ansi::strip_ansi_codes;
use steamcmd_hub::framer::LineFramer;
use steamcmd_hub::reader::{OutputPump, ReaderEvent};
use steamcmd_hub::text::blank;

#[test]
fn strip_removes_color_codes() {
    assert_eq!(strip_ansi_codes("\x1b[31mHello\x1b[0m"), "Hello");
}

#[test]
fn strip_keeps_plain_text() {
    assert_eq!(strip_ansi_codes("plain text"), "plain text");
    assert_eq!(strip_ansi_codes(""), "");
}

#[test]
fn strip_unterminated_sequence_swallows_rest() {
    assert_eq!(strip_ansi_codes("ab\x1b[31cd"), "ab");
}

#[test]
fn strip_multiple_sequences() {
    assert_eq!(strip_ansi_codes("\x1b[1m\x1b[32mOK\x1b[0m done"), "OK done");
}

#[test]
fn ansi_line_is_framed_as_clean_line() {
    let mut f = LineFramer::new();
    let lines = f.feed("\x1b[31mHello\x1b[0m\n");
    assert_eq!(lines, vec!["Hello\n".to_string()]);
    assert_eq!(f.pending(), "");
}

#[test]
fn feed_splits_on_line_feeds_across_chunks() {
    let mut f = LineFramer::new();
    assert!(f.feed("first li").is_empty());
    assert_eq!(f.pending(), "first li");
    let lines = f.feed("ne\nsecond\nthi");
    assert_eq!(lines, vec!["first line\n".to_string(), "second\n".to_string()]);
    assert_eq!(f.pending(), "thi");
}

#[test]
fn feed_drops_blank_lines() {
    let mut f = LineFramer::new();
    let lines = f.feed("\n   \n\x1b[0m\t\nx\n");
    assert_eq!(lines, vec!["x\n".to_string()]);
}

#[test]
fn idle_flush_publishes_prompt_once_without_line_feed() {
    let mut f = LineFramer::new();
    assert!(f.feed("Steam>").is_empty());
    assert_eq!(f.flush_idle(), Some("Steam>".to_string()));
    assert_eq!(f.pending(), "");
    assert_eq!(f.flush_idle(), None);
}

#[test]
fn idle_flush_keeps_blank_accumulator() {
    let mut f = LineFramer::new();
    assert!(f.feed("   ").is_empty());
    assert_eq!(f.flush_idle(), None);
    assert_eq!(f.pending(), "   ");
}

#[test]
fn idle_flush_clears_text_that_strips_to_nothing() {
    let mut f = LineFramer::new();
    assert!(f.feed("\x1b[0m").is_empty());
    assert_eq!(f.flush_idle(), None);
    assert_eq!(f.pending(), "");
}

#[test]
fn finish_flushes_pending_text() {
    let mut f = LineFramer::new();
    f.feed("tail \x1b[33mtext");
    assert_eq!(f.finish(), Some("tail text".to_string()));
    assert_eq!(f.finish(), None);
}

#[test]
fn feed_bytes_decodes_and_frames() {
    let mut f = LineFramer::new();
    let lines = f.feed_bytes(b"caf\xc3\xa9\nend");
    assert_eq!(lines, vec!["caf\u{e9}\n".to_string()]);
    assert_eq!(f.pending(), "end");
}

#[test]
fn feed_bytes_replaces_invalid_bytes() {
    let mut f = LineFramer::new();
    assert!(f.feed_bytes(b"a\xffb").is_empty());
    assert_eq!(f.pending(), "a\u{fffd}b");
}

#[test]
fn blank_detects_whitespace_only() {
    assert!(blank(""));
    assert!(blank(" \t\r\n"));
    assert!(!blank(" x "));
}

#[test]
fn pump_frames_data_and_resets_timer() {
    let mut p = OutputPump::new();
    let s = p.step(ReaderEvent::Data(b"\x1b[31mHello\x1b[0m\nStea".to_vec()));
    assert_eq!(s.lines, vec!["Hello\n".to_string()]);
    assert!(s.reset_timer);
    assert!(!s.stop);
    let s = p.step(ReaderEvent::Data(b"m>".to_vec()));
    assert!(s.lines.is_empty());
    let s = p.step(ReaderEvent::Tick);
    assert_eq!(s.lines, vec!["Steam>".to_string()]);
    assert!(!s.reset_timer);
    assert!(!s.stop);
    let s = p.step(ReaderEvent::Tick);
    assert!(s.lines.is_empty());
}

#[test]
fn pump_flushes_and_stops_on_end_of_stream() {
    let mut p = OutputPump::new();
    p.step(ReaderEvent::Data(b"last words".to_vec()));
    let s = p.step(ReaderEvent::Eof);
    assert_eq!(s.lines, vec!["last words".to_string()]);
    assert!(s.stop);
    assert!(p.is_stopped());
    let s = p.step(ReaderEvent::Data(b"more\n".to_vec()));
    assert!(s.lines.is_empty());
    assert!(s.stop);
}

#[test]
fn pump_stops_on_cancel_and_read_error() {
    let mut p = OutputPump::new();
    p.step(ReaderEvent::Data(b"partial".to_vec()));
    let s = p.step(ReaderEvent::Cancelled);
    assert_eq!(s.lines, vec!["partial".to_string()]);
    assert!(s.stop);
    let mut q = OutputPump::new();
    let s = q.step(ReaderEvent::ReadFailed);
    assert!(s.lines.is_empty());
    assert!(s.stop);
    assert!(q.is_stopped());
}

#[test]
fn line_after_idle_flush_does_not_repeat_prompt() {
    let mut f = LineFramer::new();
    assert!(f.feed("Steam>").is_empty());
    assert_eq!(f.flush_idle(), Some("Steam>".to_string()));
    let lines = f.feed("\x1b[32mlogin ok\x1b[0m\n");
    assert_eq!(lines, vec!["login ok\n".to_string()]);
}
