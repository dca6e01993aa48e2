use termpipe::writer::{ConsumerStep, ThreadedWriter, WriterError, WriterMessage};

fn drain(writer: &mut ThreadedWriter) -> Vec<WriterMessage> {
    let mut out = Vec::new();
    while let Some(message) = writer.next_message() {
        writer.complete(true);
        out.push(message);
    }
    out
}

fn bytes_of(message: &WriterMessage) -> Option<Vec<u8>> {
    match message {
        WriterMessage::Data(bytes) => Some(bytes.clone()),
        WriterMessage::Flush => None,
    }
}

#[test]
fn write_reports_the_full_length() {
    let mut writer = ThreadedWriter::new();
    assert_eq!(writer.write(b"hello"), Ok(5));
    assert_eq!(writer.write(b""), Ok(0));
    assert_eq!(writer.flush(), Ok(()));
}

#[test]
fn write_copies_the_bytes() {
    let mut writer = ThreadedWriter::new();
    let mut source = vec![1u8, 2, 3];
    assert_eq!(writer.write(&source), Ok(3));
    source[0] = 9;
    let message = writer.next_message().expect("a message is queued");
    assert_eq!(bytes_of(&message), Some(vec![1u8, 2, 3]));
}

#[test]
fn sink_sees_messages_in_order() {
    let mut writer = ThreadedWriter::new();
    assert_eq!(writer.write(b"first"), Ok(5));
    assert_eq!(writer.flush(), Ok(()));
    assert_eq!(writer.write(b"second, longer"), Ok(14));
    assert_eq!(writer.write(b"3"), Ok(1));
    assert_eq!(writer.flush(), Ok(()));
    let seen = drain(&mut writer);
    let seen: Vec<Option<Vec<u8>>> = seen.iter().map(bytes_of).collect();
    assert_eq!(
        seen,
        vec![
            Some(b"first".to_vec()),
            None,
            Some(b"second, longer".to_vec()),
            Some(b"3".to_vec()),
            None,
        ]
    );
    assert!(writer.next_message().is_none());
}

#[test]
fn interleaved_enqueue_and_dequeue_keep_the_order() {
    let mut writer = ThreadedWriter::new();
    assert_eq!(writer.write(b"a"), Ok(1));
    assert_eq!(writer.write(b"b"), Ok(1));
    let first = writer.next_message().expect("queued");
    writer.complete(true);
    assert_eq!(bytes_of(&first), Some(b"a".to_vec()));
    assert_eq!(writer.write(b"c"), Ok(1));
    let rest: Vec<Option<Vec<u8>>> = drain(&mut writer).iter().map(bytes_of).collect();
    assert_eq!(rest, vec![Some(b"b".to_vec()), Some(b"c".to_vec())]);
}

#[test]
fn next_message_on_an_empty_queue_is_none() {
    let mut writer = ThreadedWriter::new();
    assert!(writer.next_message().is_none());
    assert!(writer.is_connected());
}

#[test]
fn failed_sink_breaks_the_pipe_for_good() {
    let mut writer = ThreadedWriter::new();
    assert_eq!(writer.write(b"one"), Ok(3));
    assert_eq!(writer.write(b"two"), Ok(3));
    let _ = writer.next_message().expect("queued");
    assert_eq!(writer.complete(false), ConsumerStep::Stop);
    assert!(!writer.is_connected());
    assert!(writer.next_message().is_none());
    for _ in 0..3 {
        assert_eq!(writer.write(b"more"), Err(WriterError::BrokenPipe));
        assert_eq!(writer.flush(), Err(WriterError::BrokenPipe));
    }
    assert!(writer.next_message().is_none());
}

#[test]
fn successful_sink_keeps_the_pipe() {
    let mut writer = ThreadedWriter::new();
    assert_eq!(writer.flush(), Ok(()));
    let message = writer.next_message().expect("queued");
    assert!(matches!(message, WriterMessage::Flush));
    assert_eq!(writer.complete(true), ConsumerStep::Next);
    assert!(writer.is_connected());
    assert_eq!(writer.write(b"x"), Ok(1));
}

#[test]
fn writer_error_message() {
    assert_eq!(WriterError::BrokenPipe.message(), "broken pipe");
}
