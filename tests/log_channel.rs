use pond_deployment::log_channel::{message_channel, MutexVecDequeRead};

fn read_all(reader: &mut MutexVecDequeRead) -> String {
    let mut out: Vec<u8> = Vec::new();
    loop {
        let chunk = reader.read(4096);
        if chunk.is_empty() {
            break;
        }
        out.extend_from_slice(&chunk);
    }
    String::from_utf8(out).unwrap()
}

#[test]
fn message_test_write_info_twice() {
    let (stream, mut consumer) = message_channel();
    let clone = stream.duplicate();
    stream.info().write_str("Hello ");
    clone.info().write_str("World");
    stream.info().write_str("!");
    drop(stream);
    drop(clone);
    assert_eq!(read_all(consumer.info()), "Hello World!");
}

#[test]
fn message_test_close_streams_first() {
    let (stream, mut consumer) = message_channel();
    stream.info().write_str("Hello");
    stream.info().write_str("!");
    drop(stream);
    assert_eq!(read_all(consumer.info()), "Hello!");
}

#[test]
fn reads_are_bounded_and_ordered() {
    let (stream, logs) = message_channel();
    stream.info().write_str("Hello");
    stream.error().write_str("oops");
    drop(stream);
    let (mut info, mut error) = logs.into_read();
    assert_eq!(info.read(2), b"He".to_vec());
    assert_eq!(info.read(2), b"ll".to_vec());
    assert_eq!(info.read(2), b"o".to_vec());
    assert!(info.read(2).is_empty());
    assert!(info.read(2).is_empty());
    assert_eq!(read_all(&mut error), "oops");
}

#[test]
fn empty_writes_do_not_end_the_stream() {
    let (stream, mut logs) = message_channel();
    assert_eq!(stream.info().write(b""), 0);
    assert_eq!(stream.info().write(b"abc"), 3);
    drop(stream);
    assert_eq!(read_all(logs.info()), "abc");
}

#[test]
fn stream_ends_only_when_every_writer_is_gone() {
    let (stream, mut logs) = message_channel();
    let second = stream.duplicate();
    drop(stream);
    second.info().write_str("late");
    assert_eq!(logs.info().read(4096), b"late".to_vec());
    second.info().write_str(" and later");
    assert_eq!(logs.info().read(4096), b" and later".to_vec());
    drop(second);
    assert!(logs.info().read(4096).is_empty());
}

#[test]
fn a_write_is_handed_out_whole_before_the_next() {
    let (stream, mut logs) = message_channel();
    let other = stream.duplicate();
    stream.info().write_str("abc");
    other.info().write_str("de");
    assert_eq!(logs.info().read(10), b"abc".to_vec());
    assert_eq!(logs.info().read(10), b"de".to_vec());
}

#[test]
fn handle_test_write_info_twice() {
    let (stream, mut consumer) = message_channel();
    let clone = stream.duplicate();
    stream.info().write(b"Hello ");
    clone.info().write(b"World");
    stream.info().write(b"!");
    drop(clone);
    drop(stream);
    assert_eq!(read_all(consumer.info()), "Hello World!");
}

#[test]
fn handle_test_close_streams_first() {
    let (stream, mut consumer) = message_channel();
    stream.info().write(b"Hello");
    stream.info().write(b"!");
    drop(stream);
    assert_eq!(read_all(consumer.info()), "Hello!");
    assert!(consumer.error().read(16).is_empty());
}
