use grpc_channel::stream::StreamModel;

#[test]
fn bytes_written_are_read_back_in_order() {
    let mut stream = StreamModel::new();
    let written = stream.write(b"hello transport");
    assert_eq!(written, b"hello transport".len());

    let read = stream.read(usize::MAX);
    assert_eq!(read, b"hello transport".to_vec());

    // The stream is drained.
    assert_eq!(stream.read(usize::MAX), Vec::<u8>::new());
}

#[test]
fn partial_reads_deliver_the_oldest_bytes_first() {
    let mut stream = StreamModel::new();
    stream.write(b"abcdef");

    assert_eq!(stream.read(2), b"ab".to_vec());
    assert_eq!(stream.read(3), b"cde".to_vec());
    assert_eq!(stream.read(10), b"f".to_vec());
}

#[test]
fn interleaved_writes_keep_order() {
    let mut stream = StreamModel::new();
    stream.write(b"one ");
    stream.write(b"two ");
    assert_eq!(stream.read(4), b"one ".to_vec());
    stream.write(b"three");
    assert_eq!(stream.read(usize::MAX), b"two three".to_vec());
}

#[test]
fn every_stream_is_reusable_for_pooling() {
    let stream = StreamModel::new();
    assert!(stream.reusable_for_pooling());
}
