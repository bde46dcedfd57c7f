use command_strike::stream::{StreamDecoder, StreamEnd};
use command_strike::wire::GenerationFrame;

fn frame(text: &str, done: bool) -> GenerationFrame {
    GenerationFrame { model: "m".to_string(), response: text.to_string(), done }
}

#[test]
fn forwarded_fragments_join_to_final_text() {
    let frames = vec![frame("Hel", false), frame("lo, ", false), frame("world", false), frame("!", true)];
    let mut d = StreamDecoder::new();
    let mut seen = String::new();
    for f in frames {
        if let Some(s) = d.accept(Some(f)) {
            seen.push_str(&s);
        }
    }
    assert!(d.is_done());
    assert_eq!(seen, "Hello, world!");
    assert_eq!(d.into_text(), seen);
}

#[test]
fn frames_after_done_are_dropped() {
    let mut d = StreamDecoder::new();
    assert_eq!(d.accept(Some(frame("a", true))), Some("a".to_string()));
    assert_eq!(d.accept(Some(frame("b", false))), None);
    assert_eq!(d.into_text(), "a");
}

#[test]
fn undecodable_lines_are_skipped() {
    let mut d = StreamDecoder::new();
    assert_eq!(d.accept(None), None);
    assert_eq!(d.accept(Some(frame("x", false))), Some("x".to_string()));
    assert_eq!(d.accept(None), None);
    assert!(!d.is_done());
    assert_eq!(d.into_text(), "x");
}

#[test]
fn lines_are_cut_across_chunks() {
    let mut d = StreamDecoder::new();
    let a = d.split_lines(b"{\"a\":1}\n{\"b\"");
    assert_eq!(a, vec![b"{\"a\":1}".to_vec()]);
    let b = d.split_lines(b":2}\n\n{\"c\":3}");
    assert_eq!(b, vec![b"{\"b\":2}".to_vec(), Vec::new()]);
    assert_eq!(d.take_rest(), b"{\"c\":3}".to_vec());
    assert_eq!(d.take_rest(), Vec::<u8>::new());
}

#[test]
fn empty_chunk_gives_no_line() {
    let mut d = StreamDecoder::new();
    assert!(d.split_lines(b"").is_empty());
    assert!(d.split_lines(b"abc").is_empty());
    assert_eq!(d.split_lines(b"\n"), vec![b"abc".to_vec()]);
}

#[test]
fn stop_after_normal_end_hands_out_rest() {
    let mut d = StreamDecoder::new();
    assert!(d.split_lines(b"{\"x\":1}").is_empty());
    let stop = d.stop(StreamEnd::Ended);
    assert!(stop.notice.is_none());
    assert_eq!(stop.rest, Some(b"{\"x\":1}".to_vec()));
    assert_eq!(d.take_rest(), Vec::<u8>::new());
}

#[test]
fn stop_after_done_drops_rest() {
    let mut d = StreamDecoder::new();
    d.accept(Some(frame("all", true)));
    d.split_lines(b"trailing");
    let stop = d.stop(StreamEnd::Ended);
    assert!(stop.notice.is_none());
    assert!(stop.rest.is_none());
    assert_eq!(d.into_text(), "all");
}

#[test]
fn stop_with_failures_gives_notices() {
    let mut d = StreamDecoder::new();
    let s = d.stop(StreamEnd::ConnectFailed("refused".to_string()));
    assert_eq!(s.notice.as_deref(), Some("Error: refused"));
    assert!(s.rest.is_none());
    let s = d.stop(StreamEnd::Refused("bad model".to_string()));
    assert_eq!(s.notice.as_deref(), Some("API Error: bad model"));
    let s = d.stop(StreamEnd::RefusedUnreadable("eof".to_string()));
    assert_eq!(s.notice.as_deref(), Some("API Error: Failed to read error response: eof"));
    d.accept(Some(frame("part", false)));
    d.split_lines(b"{\"resp");
    let s = d.stop(StreamEnd::Interrupted("reset".to_string()));
    assert_eq!(s.notice.as_deref(), Some("Stream error: reset"));
    assert!(s.rest.is_none());
    assert_eq!(d.into_text(), "part");
}
