use cargo_fill::sink::{LimitedSink, MemorySink, Sink};
use cargo_fill::tee::{TeeError, TeeWriter};

#[test]
fn both_sinks_receive_the_bytes_in_order() {
    let mut primary = MemorySink::new();
    let mut mirror = MemorySink::new();
    {
        let mut tee = TeeWriter::new(&mut primary, &mut mirror);
        assert_eq!(tee.write(b"hello "), Ok(6));
        assert_eq!(tee.write(b"world"), Ok(5));
        assert_eq!(tee.flush(), Ok(()));
    }
    assert_eq!(primary.bytes, b"hello world".to_vec());
    assert_eq!(mirror.bytes, b"hello world".to_vec());
}

#[test]
fn an_empty_write_succeeds_with_count_zero() {
    let mut primary = MemorySink::new();
    let mut mirror = MemorySink::new();
    {
        let mut tee = TeeWriter::new(&mut primary, &mut mirror);
        assert_eq!(tee.write(b""), Ok(0));
    }
    assert!(primary.bytes.is_empty());
    assert!(mirror.bytes.is_empty());
}

#[test]
fn binary_bytes_pass_unchanged() {
    let data: Vec<u8> = vec![0, 255, 10, 13, 128, 0, 7];
    let mut primary = MemorySink::new();
    let mut mirror = MemorySink::new();
    {
        let mut tee = TeeWriter::new(&mut primary, &mut mirror);
        assert_eq!(tee.write(&data), Ok(7));
    }
    assert_eq!(primary.into_bytes(), data);
    assert_eq!(mirror.into_bytes(), data);
}

#[test]
fn a_full_mirror_fails_the_write() {
    let mut primary = MemorySink::new();
    let mut mirror = LimitedSink::new(3);
    {
        let mut tee = TeeWriter::new(&mut primary, &mut mirror);
        assert!(matches!(tee.write(b"abcd"), Err(TeeError::Mirror(_))));
    }
    assert_eq!(primary.bytes, b"abcd".to_vec());
    assert!(mirror.bytes.is_empty());
}

#[test]
fn a_full_primary_leaves_the_mirror_untouched() {
    let mut primary = LimitedSink::new(3);
    let mut mirror = MemorySink::new();
    {
        let mut tee = TeeWriter::new(&mut primary, &mut mirror);
        assert!(matches!(tee.write(b"abcd"), Err(TeeError::Primary(_))));
    }
    assert!(mirror.bytes.is_empty());
    assert!(primary.bytes.is_empty());
    assert!(primary.write_all(b"abc").is_ok());
    assert!(primary.write_all(b"d").is_err());
}

#[test]
fn a_limited_sink_takes_exactly_its_capacity() {
    let mut primary = LimitedSink::new(4);
    let mut mirror = LimitedSink::new(4);
    {
        let mut tee = TeeWriter::new(&mut primary, &mut mirror);
        assert_eq!(tee.write(b"ab"), Ok(2));
        assert_eq!(tee.write(b"cd"), Ok(2));
        assert!(tee.write(b"e").is_err());
        assert_eq!(tee.flush(), Ok(()));
    }
    assert_eq!(primary.bytes, b"abcd".to_vec());
    assert_eq!(mirror.bytes, b"abcd".to_vec());
}
