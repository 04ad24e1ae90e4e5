use bytes::{Bytes, BytesMut};
use gzip_codec::error::{DecodeError, EncodeError};
use gzip_codec::gzip::{compress_bytes, decompress_bytes, round_trip, Gzip};

fn pack(payload: &[u8]) -> Vec<u8> {
    let mut target: Vec<u8> = Vec::new();
    let r: Result<(), EncodeError<String>> = Gzip::compress(&mut target, |b: &mut BytesMut| {
        b.extend_from_slice(payload);
        Ok(())
    });
    assert!(r.is_ok());
    target
}

fn unpack(mut source: Vec<u8>) -> Result<Vec<u8>, DecodeError<String>> {
    let r = Gzip::decompress(&mut source, |d: &mut Bytes| Ok::<Vec<u8>, String>(d.to_vec()));
    assert!(source.is_empty());
    r
}

#[test]
fn round_trip_quick_brown_fox() {
    let c = pack(b"the quick brown fox");
    assert_eq!(unpack(c).ok().unwrap(), b"the quick brown fox".to_vec());
}

#[test]
fn round_trip_empty() {
    let c = pack(b"");
    assert!(c.len() >= 18);
    assert_eq!(&c[0..2], &[0x1f, 0x8b]);
    assert_eq!(unpack(c).ok().unwrap(), Vec::<u8>::new());
}

#[test]
fn repeated_bytes_shrink_and_restore() {
    let payload = vec![b'a'; 10_000];
    let c = pack(&payload);
    assert!(c.len() < 1_000);
    assert_eq!(unpack(c).ok().unwrap(), payload);
}

#[test]
fn truncated_member_fails() {
    let payload = vec![b'a'; 10_000];
    let mut c = pack(&payload);
    let n = c.len();
    c.truncate(n - 4);
    assert!(matches!(unpack(c), Err(DecodeError::Io(_))));
}

#[test]
fn flipped_checksum_byte_fails() {
    let mut c = pack(b"the quick brown fox");
    let n = c.len();
    c[n - 6] ^= 0xff;
    assert!(matches!(unpack(c), Err(DecodeError::Io(_))));
}

#[test]
fn garbage_fails_without_calling_consumer() {
    let mut source = b"not gzip at all".to_vec();
    let r = Gzip::decompress(&mut source, |_d: &mut Bytes| -> Result<(), String> {
        panic!("consumer must not run")
    });
    assert!(matches!(r, Err(DecodeError::Io(_))));
    assert!(source.is_empty());
}

#[test]
fn producer_error_passes_through_and_target_unchanged() {
    let mut target: Vec<u8> = vec![1, 2, 3];
    let r: Result<u32, EncodeError<String>> = Gzip::compress(&mut target, |b: &mut BytesMut| {
        b.extend_from_slice(&[9]);
        Err("boom".to_string())
    });
    match r {
        Err(EncodeError::Inner(e)) => assert_eq!(e, "boom"),
        _ => panic!("expected the producer's error"),
    }
    assert_eq!(target, vec![1, 2, 3]);
}

#[test]
fn consumer_error_passes_through_after_drain() {
    let mut source = pack(b"xyz");
    let r = Gzip::decompress(&mut source, |d: &mut Bytes| -> Result<(), String> {
        Err(format!("bad {}", d.len()))
    });
    match r {
        Err(DecodeError::Inner(e)) => assert_eq!(e, "bad 3"),
        _ => panic!("expected the consumer's error"),
    }
    assert!(source.is_empty());
}

#[test]
fn producer_result_returned_and_member_appended() {
    let mut target: Vec<u8> = vec![7];
    let r: Result<u32, EncodeError<String>> = Gzip::compress(&mut target, |b: &mut BytesMut| {
        b.extend_from_slice(b"hello");
        Ok(42)
    });
    assert_eq!(r.ok().unwrap(), 42);
    assert_eq!(target[0], 7);
    assert_eq!(unpack(target[1..].to_vec()).ok().unwrap(), b"hello".to_vec());
}

#[test]
fn repeated_compression_same_content() {
    let a = pack(b"same payload");
    let b = pack(b"same payload");
    assert_eq!(unpack(a).ok().unwrap(), unpack(b).ok().unwrap());
}

#[test]
fn byte_helpers_round_trip() {
    let c = compress_bytes(b"abcabcabc").ok().unwrap();
    assert_ne!(c, b"abcabcabc".to_vec());
    assert_eq!(decompress_bytes(&c).ok().unwrap(), b"abcabcabc".to_vec());
    assert!(decompress_bytes(b"abcabcabc").is_err());
}

#[test]
fn verified_round_trip_returns_payload() {
    assert_eq!(round_trip(b"the quick brown fox"), b"the quick brown fox".to_vec());
    assert_eq!(round_trip(b""), Vec::<u8>::new());
    assert_eq!(round_trip(&vec![b'a'; 10_000]), vec![b'a'; 10_000]);
}
