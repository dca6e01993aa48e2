use termpipe::reader::{PtyReader, ReaderStep, PTY_BUFFER_SIZE};

#[test]
fn buffer_size_is_one_mebibyte() {
    assert_eq!(PTY_BUFFER_SIZE, 1024 * 1024);
}

#[test]
fn reader_relays_what_it_reads() {
    let mut reader = PtyReader::new();
    assert_eq!(reader.begin(false), ReaderStep::Read);
    assert_eq!(reader.on_read(Some(17)), ReaderStep::Forward { len: 17 });
    assert_eq!(reader.on_forwarded(true, false), ReaderStep::Read);
    assert_eq!(
        reader.on_read(Some(PTY_BUFFER_SIZE)),
        ReaderStep::Forward { len: PTY_BUFFER_SIZE }
    );
    assert!(!reader.is_dead());
}

#[test]
fn end_of_file_stops_the_reader() {
    let mut reader = PtyReader::new();
    assert_eq!(reader.begin(false), ReaderStep::Read);
    assert_eq!(reader.on_read(Some(0)), ReaderStep::Stop);
    assert!(reader.is_dead());
}

#[test]
fn read_error_stops_the_reader() {
    let mut reader = PtyReader::new();
    assert_eq!(reader.on_read(None), ReaderStep::Stop);
    assert!(reader.is_dead());
}

#[test]
fn failed_forward_stops_the_reader() {
    let mut reader = PtyReader::new();
    assert_eq!(reader.on_read(Some(4)), ReaderStep::Forward { len: 4 });
    assert_eq!(reader.on_forwarded(false, false), ReaderStep::Stop);
    assert!(reader.is_dead());
}

#[test]
fn raised_flag_stops_the_reader() {
    let mut reader = PtyReader::new();
    assert_eq!(reader.begin(true), ReaderStep::Stop);
    assert!(reader.is_dead());
    let mut reader = PtyReader::new();
    assert_eq!(reader.on_read(Some(4)), ReaderStep::Forward { len: 4 });
    assert_eq!(reader.on_forwarded(true, true), ReaderStep::Stop);
    assert!(reader.is_dead());
}

#[test]
fn dead_reader_stays_dead() {
    let mut reader = PtyReader::new();
    assert_eq!(reader.on_read(Some(0)), ReaderStep::Stop);
    assert_eq!(reader.begin(false), ReaderStep::Stop);
    assert_eq!(reader.on_read(Some(10)), ReaderStep::Stop);
    assert_eq!(reader.on_forwarded(true, false), ReaderStep::Stop);
    assert!(reader.is_dead());
}
