use blockcell::stream_assembly::{StreamAssembly, StreamEvent, StreamStep};
use blockcell::types::StreamChunkData;

fn chunk(stream: &str, index: i32, total: i32, data: &str) -> StreamEvent {
    StreamEvent::Chunk(StreamChunkData {
        stream_id: stream.to_string(),
        chunk_data: data.to_string(),
        chunk_index: index,
        total_chunks: total,
        file_size: None,
    })
}

fn failed(step: StreamStep) -> String {
    match step {
        StreamStep::Failed(m) => m,
        StreamStep::Continue => panic!("expected a failure"),
    }
}

#[test]
fn chunks_are_combined_in_index_order() {
    let mut a = StreamAssembly::new();
    assert!(a.completed().is_none());
    // "hel" "lo " "world" arriving out of order.
    assert!(matches!(a.on_event(chunk("s1", 2, 3, "d29ybGQ=")), StreamStep::Continue));
    assert!(a.completed().is_none());
    assert!(matches!(a.on_event(chunk("s1", 0, 3, "aGVs")), StreamStep::Continue));
    assert!(matches!(a.on_event(chunk("s1", 1, 3, "bG8g")), StreamStep::Continue));
    assert_eq!(a.completed(), Some(b"hello world".to_vec()));
}

#[test]
fn arrival_order_does_not_matter() {
    let parts = [(0, "aGVs"), (1, "bG8g"), (2, "d29ybGQ=")];
    let orders = [[0usize, 1, 2], [2, 1, 0], [1, 2, 0]];
    for order in orders {
        let mut a = StreamAssembly::new();
        for i in order {
            let (idx, data) = parts[i];
            a.on_event(chunk("s", idx, 3, data));
        }
        assert_eq!(a.completed(), Some(b"hello world".to_vec()));
    }
}

#[test]
fn a_repeated_chunk_replaces_the_earlier_one() {
    let mut a = StreamAssembly::new();
    a.on_event(chunk("s", 0, 2, "eHg="));
    a.on_event(chunk("s", 0, 2, "aGk="));
    assert!(a.completed().is_none());
    a.on_event(chunk("s", 1, 2, "IQ=="));
    assert_eq!(a.completed(), Some(b"hi!".to_vec()));
}

#[test]
fn stream_errors() {
    let mut a = StreamAssembly::new();
    a.on_event(chunk("s1", 0, 2, "aGk="));
    assert_eq!(
        failed(a.on_event(chunk("s2", 1, 2, "aGk="))),
        "Stream ID mismatch: expected s1, got s2"
    );
    assert!(failed(a.on_event(chunk("s1", 1, 2, "@@@"))).starts_with("Failed to decode chunk 1: "));
    assert_eq!(failed(a.on_event(StreamEvent::ChunksClosed)), "Stream channel closed before completion");
    assert!(matches!(a.on_event(StreamEvent::Done(Ok(()))), StreamStep::Continue));
    // Success was reported, but a chunk is still missing.
    assert_eq!(failed(a.on_event(StreamEvent::ChunksClosed)), "Stream channel closed before completion");
    assert!(matches!(a.on_event(chunk("s1", 1, 2, "IQ==")), StreamStep::Continue));
    assert!(matches!(a.on_event(StreamEvent::ChunksClosed), StreamStep::Continue));
    assert_eq!(failed(a.on_event(StreamEvent::Done(Err("remote".to_string())))), "remote");
    assert_eq!(failed(a.on_event(StreamEvent::DoneClosed)), "Stream done channel closed unexpectedly");
    assert_eq!(failed(a.on_event(StreamEvent::TimedOut)), "Stream download timeout");
}

#[test]
fn missing_index_adds_nothing() {
    // Two chunks announced, two held, but one index outside 0..2.
    let mut a = StreamAssembly::new();
    a.on_event(chunk("s", 0, 2, "aGk="));
    a.on_event(chunk("s", 5, 2, "IQ=="));
    assert_eq!(a.completed(), Some(b"hi".to_vec()));
}

#[test]
fn rejected_chunks_leave_the_download_as_it_was() {
    let mut a = StreamAssembly::new();
    a.on_event(chunk("s1", 0, 2, "aGk="));
    failed(a.on_event(chunk("s2", 1, 2, "IQ==")));
    failed(a.on_event(chunk("s1", 1, 2, "@@@")));
    assert!(a.completed().is_none());
    assert!(matches!(a.on_event(chunk("s1", 1, 2, "IQ==")), StreamStep::Continue));
    assert_eq!(a.completed(), Some(b"hi!".to_vec()));
}
