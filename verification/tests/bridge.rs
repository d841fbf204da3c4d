use numbat_ui::command::{resize, Geometry};
use numbat_ui::monitor::{Monitor, MonitorAction, ReadOutcome, CHUNK_CAPACITY};
use numbat_ui::output::OutputState;
use numbat_ui::sink::{LifecycleSink, RecordingSink, SinkEvent};

fn bytes(chunk: &[u8]) -> ReadOutcome {
    ReadOutcome::Bytes(chunk.to_vec())
}

/// One turn of a monitor's loop after a read: decide, carry out, and say
/// whether to read again.
fn turn(
    monitor: &mut Monitor,
    output: &mut OutputState,
    sink: &mut RecordingSink,
    read: &ReadOutcome,
) -> bool {
    monitor.observe(output, read).perform(sink);
    !monitor.has_stopped()
}

#[test]
fn buffered_chunks_come_back_from_initialize() {
    let mut output = OutputState::new();
    let mut monitor = Monitor::new();
    let mut sink = RecordingSink::new();
    assert!(!output.is_streaming());
    assert!(turn(&mut monitor, &mut output, &mut sink, &bytes(b"AB")));
    assert!(turn(&mut monitor, &mut output, &mut sink, &bytes(b"C")));
    assert_eq!(output.pending(), b"ABC".to_vec());
    assert!(sink.events().is_empty());
    assert_eq!(output.initialize(), "ABC");
    assert!(output.is_streaming());
    assert!(output.pending().is_empty());
}

#[test]
fn streaming_session_delivers_each_chunk_once() {
    let mut output = OutputState::new();
    let mut monitor = Monitor::new();
    let mut sink = RecordingSink::new();
    assert_eq!(output.initialize(), "");
    assert!(turn(&mut monitor, &mut output, &mut sink, &bytes(b"X")));
    assert_eq!(sink.events(), &vec![SinkEvent::Data("X".to_string())]);
    assert!(output.pending().is_empty());
}

#[test]
fn immediate_end_of_stream_only_signals_exit() {
    let mut output = OutputState::new();
    let mut monitor = Monitor::new();
    let mut sink = RecordingSink::new();
    assert!(!turn(&mut monitor, &mut output, &mut sink, &bytes(b"")));
    assert!(monitor.has_stopped());
    assert_eq!(sink.events(), &vec![SinkEvent::Exit]);
    assert!(output.pending().is_empty());
    assert!(!output.is_streaming());
}

#[test]
fn read_error_signals_exit_like_end_of_stream() {
    let mut output = OutputState::new();
    let mut monitor = Monitor::new();
    let mut sink = RecordingSink::new();
    assert!(turn(&mut monitor, &mut output, &mut sink, &bytes(b"left over")));
    assert!(!turn(&mut monitor, &mut output, &mut sink, &ReadOutcome::Failed));
    assert_eq!(sink.events(), &vec![SinkEvent::Exit]);
    assert_eq!(output.pending(), b"left over".to_vec());
}

#[test]
fn exit_is_signalled_once_and_nothing_follows_it() {
    let mut output = OutputState::new();
    let mut monitor = Monitor::new();
    let mut sink = RecordingSink::new();
    output.initialize();
    assert!(turn(&mut monitor, &mut output, &mut sink, &bytes(b"a")));
    assert!(!turn(&mut monitor, &mut output, &mut sink, &bytes(b"")));
    assert!(!turn(&mut monitor, &mut output, &mut sink, &bytes(b"late")));
    assert!(!turn(&mut monitor, &mut output, &mut sink, &ReadOutcome::Failed));
    assert!(!turn(&mut monitor, &mut output, &mut sink, &bytes(b"")));
    assert_eq!(
        sink.events(),
        &vec![SinkEvent::Data("a".to_string()), SinkEvent::Exit]
    );
    assert!(output.pending().is_empty());
}

#[test]
fn stopped_monitor_leaves_the_buffer_alone() {
    let mut output = OutputState::new();
    let mut monitor = Monitor::new();
    assert_eq!(monitor.observe(&mut output, &bytes(b"kept")), MonitorAction::Buffered);
    assert_eq!(monitor.observe(&mut output, &ReadOutcome::Failed), MonitorAction::Exit);
    assert_eq!(monitor.observe(&mut output, &bytes(b"late")), MonitorAction::Stopped);
    assert_eq!(output.pending(), b"kept".to_vec());
    assert_eq!(output.initialize(), "kept");
}

#[test]
fn observe_says_what_to_do_with_each_read() {
    let mut output = OutputState::new();
    let mut monitor = Monitor::new();
    assert!(!monitor.has_stopped());
    assert_eq!(monitor.observe(&mut output, &bytes(b"one")), MonitorAction::Buffered);
    assert_eq!(output.initialize(), "one");
    assert_eq!(
        monitor.observe(&mut output, &bytes(b"two")),
        MonitorAction::Deliver("two".to_string())
    );
    assert!(!monitor.has_stopped());
    assert_eq!(monitor.observe(&mut output, &bytes(b"")), MonitorAction::Exit);
    assert!(monitor.has_stopped());
}

#[test]
fn perform_hands_each_action_to_the_sink() {
    let mut sink = RecordingSink::new();
    MonitorAction::Buffered.perform(&mut sink);
    MonitorAction::Stopped.perform(&mut sink);
    assert!(sink.events().is_empty());
    MonitorAction::Deliver("hello".to_string()).perform(&mut sink);
    MonitorAction::Exit.perform(&mut sink);
    assert_eq!(
        sink.events(),
        &vec![SinkEvent::Data("hello".to_string()), SinkEvent::Exit]
    );
}

#[test]
fn recording_sink_keeps_notifications_in_order() {
    let mut sink = RecordingSink::new();
    sink.on_data("1".to_string());
    sink.on_exit();
    sink.on_data("2".to_string());
    assert_eq!(
        sink.events(),
        &vec![
            SinkEvent::Data("1".to_string()),
            SinkEvent::Exit,
            SinkEvent::Data("2".to_string())
        ]
    );
}

#[test]
fn read_outcome_ends_stream_on_error_or_no_bytes() {
    assert!(ReadOutcome::Failed.ends_stream());
    assert!(bytes(b"").ends_stream());
    assert!(!bytes(b"\0").ends_stream());
}

#[test]
fn character_split_across_chunks_survives_buffering() {
    let mut output = OutputState::new();
    let mut monitor = Monitor::new();
    let mut sink = RecordingSink::new();
    turn(&mut monitor, &mut output, &mut sink, &bytes(&[b'a', 0xC3]));
    turn(&mut monitor, &mut output, &mut sink, &bytes(&[0xA9, b'b']));
    assert_eq!(output.initialize(), "a\u{e9}b");
}

#[test]
fn character_split_across_chunks_is_replaced_when_streaming() {
    let mut output = OutputState::new();
    let mut monitor = Monitor::new();
    let mut sink = RecordingSink::new();
    output.initialize();
    turn(&mut monitor, &mut output, &mut sink, &bytes(&[b'a', 0xC3]));
    turn(&mut monitor, &mut output, &mut sink, &bytes(&[0xA9, b'b']));
    assert_eq!(
        sink.events(),
        &vec![
            SinkEvent::Data("a\u{fffd}".to_string()),
            SinkEvent::Data("\u{fffd}b".to_string())
        ]
    );
}

#[test]
fn malformed_bytes_are_replaced_not_rejected() {
    let mut output = OutputState::new();
    assert_eq!(output.route(&[0xFF, b'o', b'k', 0x80]), None);
    assert_eq!(output.initialize(), "\u{fffd}ok\u{fffd}");
    assert_eq!(output.route(&[0xF0, 0x9F]), Some("\u{fffd}".to_string()));
    assert_eq!(
        output.route("\u{1F600}".as_bytes()),
        Some("\u{1F600}".to_string())
    );
}

#[test]
fn second_initialize_returns_nothing_and_keeps_streaming() {
    let mut output = OutputState::new();
    assert_eq!(output.route(b"once"), None);
    assert_eq!(output.initialize(), "once");
    assert_eq!(output.initialize(), "");
    assert!(output.is_streaming());
    assert_eq!(output.route(b"live"), Some("live".to_string()));
    assert_eq!(output.initialize(), "");
    assert!(output.pending().is_empty());
}

#[test]
fn route_of_no_bytes_changes_nothing_while_buffering() {
    let mut output = OutputState::new();
    assert_eq!(output.route(b""), None);
    assert!(output.pending().is_empty());
    assert!(!output.is_streaming());
}

#[test]
fn buffer_grows_without_bound_until_drained() {
    let mut output = OutputState::new();
    let mut monitor = Monitor::new();
    let mut sink = RecordingSink::new();
    let chunk = vec![b'z'; CHUNK_CAPACITY];
    for _ in 0..2048 {
        assert!(turn(&mut monitor, &mut output, &mut sink, &ReadOutcome::Bytes(chunk.clone())));
    }
    assert_eq!(output.pending().len(), 2048 * 1024);
    assert!(sink.events().is_empty());
    let text = output.initialize();
    assert_eq!(text.len(), 2048 * 1024);
    assert!(text.bytes().all(|b| b == b'z'));
    assert!(output.pending().is_empty());
}

#[test]
fn chunk_capacity_is_1024() {
    assert_eq!(CHUNK_CAPACITY, 1024);
}

#[test]
fn write_without_writer_is_a_no_op() {
    let mut writer: Option<Vec<u8>> = None;
    assert!(numbat_ui::command::write(&mut writer, "2 + 2\n").is_none());
    assert!(writer.is_none());
}

#[test]
fn resize_without_terminal_is_a_no_op() {
    let mut terminal: Option<Vec<Geometry>> = None;
    assert!(resize(&mut terminal, 50, 132).is_none());
    assert!(terminal.is_none());
}

#[test]
fn write_hands_over_the_whole_payload() {
    let mut writer: Option<Vec<u8>> = Some(Vec::new());
    match numbat_ui::command::write(&mut writer, "1 m \u{2192} cm\n") {
        Some((child, payload)) => {
            assert_eq!(payload, "1 m \u{2192} cm\n".as_bytes().to_vec());
            child.extend_from_slice(&payload);
        }
        None => panic!("a writer is attached"),
    }
    assert_eq!(writer, Some("1 m \u{2192} cm\n".as_bytes().to_vec()));
}

#[test]
fn write_of_empty_text_asks_for_no_bytes() {
    let mut writer: Option<Vec<u8>> = Some(vec![1]);
    match numbat_ui::command::write(&mut writer, "") {
        Some((_, payload)) => assert!(payload.is_empty()),
        None => panic!("a writer is attached"),
    }
    assert_eq!(writer, Some(vec![1]));
}

#[test]
fn resize_asks_for_cells_with_zero_pixels() {
    let mut terminal: Option<Vec<Geometry>> = Some(Vec::new());
    match resize(&mut terminal, 50, 132) {
        Some((handle, size)) => {
            assert_eq!(
                size,
                Geometry { rows: 50, cols: 132, pixel_width: 0, pixel_height: 0 }
            );
            handle.push(size);
        }
        None => panic!("a terminal is attached"),
    }
    match resize(&mut terminal, 0, u16::MAX) {
        Some((handle, size)) => handle.push(size),
        None => panic!("a terminal is attached"),
    }
    assert_eq!(
        terminal,
        Some(vec![
            Geometry { rows: 50, cols: 132, pixel_width: 0, pixel_height: 0 },
            Geometry { rows: 0, cols: 65535, pixel_width: 0, pixel_height: 0 }
        ])
    );
}

#[test]
fn initial_geometry_is_24_by_80() {
    assert_eq!(
        Geometry::initial(),
        Geometry { rows: 24, cols: 80, pixel_width: 0, pixel_height: 0 }
    );
}

fn send(child: &std::sync::Mutex<Option<Vec<u8>>>, text: &str) {
    let mut guard = child.lock().unwrap();
    if let Some((input, payload)) = numbat_ui::command::write(&mut guard, text) {
        input.extend_from_slice(&payload);
    }
}

#[test]
fn two_writes_arrive_whole_in_either_order() {
    let first = "a".repeat(4096);
    let second = "b".repeat(4096);
    let child = std::sync::Mutex::new(Some(Vec::new()));
    send(&child, &first);
    send(&child, &second);
    assert_eq!(
        String::from_utf8(child.into_inner().unwrap().unwrap()).unwrap(),
        format!("{first}{second}")
    );
    let child = std::sync::Mutex::new(Some(Vec::new()));
    send(&child, &second);
    send(&child, &first);
    assert_eq!(
        String::from_utf8(child.into_inner().unwrap().unwrap()).unwrap(),
        format!("{second}{first}")
    );
}

#[test]
fn writes_in_sequence_arrive_in_call_order() {
    let child = std::sync::Mutex::new(Some(Vec::new()));
    send(&child, "first;");
    send(&child, "second;");
    assert_eq!(
        child.into_inner().unwrap(),
        Some(b"first;second;".to_vec())
    );
}

/// A sink as a program would write one: it keeps a count and the text, and
/// no record in the library's sense.
struct Tally {
    text: String,
    chunks: usize,
    exits: usize,
}

impl LifecycleSink for Tally {
    fn on_data(&mut self, text: String) {
        self.text.push_str(&text);
        self.chunks += 1;
    }

    fn on_exit(&mut self) {
        self.exits += 1;
    }
}

#[test]
fn a_sink_of_the_program_gets_every_call() {
    let mut output = OutputState::new();
    let mut monitor = Monitor::new();
    let mut sink = Tally { text: String::new(), chunks: 0, exits: 0 };
    monitor.observe(&mut output, &bytes(b"early ")).perform(&mut sink);
    assert_eq!(sink.chunks, 0);
    assert_eq!(output.initialize(), "early ");
    monitor.observe(&mut output, &bytes(b"one ")).perform(&mut sink);
    monitor.observe(&mut output, &bytes(b"two")).perform(&mut sink);
    monitor.observe(&mut output, &ReadOutcome::Failed).perform(&mut sink);
    monitor.observe(&mut output, &bytes(b"three")).perform(&mut sink);
    assert_eq!(sink.text, "one two");
    assert_eq!(sink.chunks, 2);
    assert_eq!(sink.exits, 1);
}

#[test]
fn a_chunk_larger_than_one_read_is_taken_whole() {
    let mut output = OutputState::new();
    let chunk = vec![b'q'; 3 * CHUNK_CAPACITY + 1];
    assert_eq!(output.route(&chunk), None);
    assert_eq!(output.pending().len(), 3 * 1024 + 1);
    output.initialize();
    assert_eq!(output.route(&chunk).map(|text| text.len()), Some(3 * 1024 + 1));
}
