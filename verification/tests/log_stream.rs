use mesa::common::kubernetes::log_stream::{
    LineStep, LogStream, StreamError, StreamStatus,
};

fn texts(stream: &mut LogStream) -> (Vec<String>, Option<StreamError>) {
    let delivery = stream.drain();
    (delivery.lines.into_iter().map(|l| l.text).collect(), delivery.error)
}

#[test]
fn log_stream_splits_lines_across_chunks() {
    let mut stream = LogStream::open();
    stream.feed(b"first li");
    assert_eq!(texts(&mut stream), (vec![], None));
    stream.feed(b"ne\nsecond line\r\nthi");
    assert_eq!(
        texts(&mut stream),
        (vec!["first line".to_string(), "second line".to_string()], None)
    );
    assert_eq!(stream.pending_len(), 3);
    stream.feed(b"rd\n");
    assert_eq!(texts(&mut stream), (vec!["third".to_string()], None));
    assert_eq!(stream.pending_len(), 0);
    assert_eq!(stream.status(), StreamStatus::Open);
}

#[test]
fn log_stream_begins_at_the_first_line_fed() {
    let mut stream = LogStream::open();
    stream.feed(b"Cloning into '/inventory'...\nChecking out\n");
    match stream.next_line() {
        LineStep::Line(line) => assert_eq!(line.text, "Cloning into '/inventory'..."),
        other => panic!("unexpected step {:?}", other),
    }
    match stream.next_line() {
        LineStep::Line(line) => assert_eq!(line.text, "Checking out"),
        other => panic!("unexpected step {:?}", other),
    }
    assert!(matches!(stream.next_line(), LineStep::NeedMore));
}

#[test]
fn log_stream_discards_the_partial_line_at_the_end() {
    let mut stream = LogStream::open();
    stream.feed(b"whole\npartial");
    stream.close();
    assert_eq!(stream.status(), StreamStatus::Closed);
    assert_eq!(texts(&mut stream), (vec!["whole".to_string()], None));
    assert!(matches!(stream.next_line(), LineStep::End));
}

#[test]
fn log_stream_draining_a_closed_stream_again_yields_nothing() {
    let mut stream = LogStream::open();
    stream.feed(b"one\ntwo\n");
    stream.close();
    assert_eq!(texts(&mut stream), (vec!["one".to_string(), "two".to_string()], None));
    for _ in 0..3 {
        assert_eq!(texts(&mut stream), (vec![], None));
        assert!(matches!(stream.next_line(), LineStep::End));
    }
    stream.feed(b"late\n");
    assert_eq!(texts(&mut stream), (vec![], None));
    assert_eq!(stream.status(), StreamStatus::Closed);
}

#[test]
fn log_stream_draining_twice_while_open_yields_nothing_the_second_time() {
    let mut stream = LogStream::open();
    stream.feed(b"one\ntw");
    assert_eq!(texts(&mut stream), (vec!["one".to_string()], None));
    assert_eq!(texts(&mut stream), (vec![], None));
    assert_eq!(stream.pending_len(), 2);
}

#[test]
fn log_stream_fails_on_a_line_that_is_not_utf8() {
    let mut stream = LogStream::open();
    stream.feed(b"good\n\xff\xfe\nnever\n");
    assert_eq!(
        texts(&mut stream),
        (vec!["good".to_string()], Some(StreamError::InvalidUtf8))
    );
    assert_eq!(stream.status(), StreamStatus::Failed);
    assert_eq!(stream.pending_len(), 0);
    assert_eq!(texts(&mut stream), (vec![], None));
    stream.feed(b"more\n");
    assert!(matches!(stream.next_line(), LineStep::End));
}

#[test]
fn log_stream_decodes_a_character_split_between_chunks() {
    let bytes = "gr\u{fc}\u{df}e \u{2713}\n".as_bytes();
    let mut stream = LogStream::open();
    stream.feed(&bytes[..3]);
    assert!(matches!(stream.next_line(), LineStep::NeedMore));
    stream.feed(&bytes[3..8]);
    stream.feed(&bytes[8..]);
    assert_eq!(texts(&mut stream), (vec!["gr\u{fc}\u{df}e \u{2713}".to_string()], None));
}

#[test]
fn log_stream_keeps_empty_lines_and_strips_one_carriage_return() {
    let mut stream = LogStream::open();
    stream.feed(b"\n\r\na\r\r\n");
    assert_eq!(
        texts(&mut stream),
        (vec!["".to_string(), "".to_string(), "a\r".to_string()], None)
    );
}

#[test]
fn log_stream_abort_reports_a_lost_connection_once() {
    let mut stream = LogStream::open();
    stream.feed(b"line\nrest");
    assert_eq!(stream.abort(), Some(StreamError::ConnectionLost));
    assert_eq!(stream.status(), StreamStatus::Failed);
    assert_eq!(stream.abort(), None);
    assert_eq!(texts(&mut stream), (vec![], None));
    let mut closed = LogStream::open();
    closed.close();
    assert_eq!(closed.abort(), None);
    assert_eq!(closed.status(), StreamStatus::Closed);
}
