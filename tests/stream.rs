use component_host::stream::{accept_read, ReadError, StreamRead};

#[test]
fn chunk_goes_to_the_front() {
    let mut buf = [9u8; 5];
    assert_eq!(accept_read(&mut buf, StreamRead::Chunk(vec![1, 2, 3])).unwrap(), 3);
    assert_eq!(buf, [1, 2, 3, 9, 9]);
}

#[test]
fn closed_stream_reads_nothing() {
    let mut buf = [7u8; 2];
    assert_eq!(accept_read(&mut buf, StreamRead::Closed).unwrap(), 0);
    assert_eq!(buf, [7, 7]);
}

#[test]
fn overrun_and_failure_are_errors() {
    let mut buf = [0u8; 2];
    assert!(matches!(accept_read(&mut buf, StreamRead::Chunk(vec![1, 2, 3])), Err(ReadError::Overrun)));
    assert_eq!(buf, [0, 0]);
    match accept_read(&mut buf, StreamRead::Failed("reset".to_string())) {
        Err(ReadError::Stream(m)) => assert_eq!(m, "reset"),
        other => panic!("unexpected {:?}", other),
    }
}
