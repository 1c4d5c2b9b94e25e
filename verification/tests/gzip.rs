use aether_proxy::gzip::{
    choose_compressed, compress_payload, decompress_gzip, decompress_gzip_limited,
    decompress_if_gzip, settle, GzipError, COMPRESS_MIN_SIZE, MAX_DECOMPRESSED_SIZE,
};
use aether_proxy::protocol::{Frame, MsgType, GZIP_COMPRESSED};
use bytes::Bytes;
use std::io::Write;

fn gz(data: &[u8]) -> Vec<u8> {
    let mut enc = flate2::write::GzEncoder::new(Vec::new(), flate2::Compression::fast());
    enc.write_all(data).unwrap();
    enc.finish().unwrap()
}

#[test]
fn small_payload_is_not_compressed() {
    let data = Bytes::from(vec![0u8; COMPRESS_MIN_SIZE - 1]);
    let (out, flags) = compress_payload(data.clone());
    assert_eq!(flags, 0);
    assert_eq!(out, data);
}

#[test]
fn payload_at_threshold_is_compressed_when_smaller() {
    let data = Bytes::from(vec![7u8; COMPRESS_MIN_SIZE]);
    let (out, flags) = compress_payload(data.clone());
    assert_eq!(flags, GZIP_COMPRESSED);
    assert!(out.len() < data.len());
    assert_eq!(decompress_gzip(&out).unwrap(), data.to_vec());
}

#[test]
fn incompressible_payload_is_sent_as_it_is() {
    // a pseudo-random sequence does not shrink
    let mut x: u32 = 0x1234_5678;
    let data: Vec<u8> = (0..4096)
        .map(|_| {
            x ^= x << 13;
            x ^= x >> 17;
            x ^= x << 5;
            (x >> 24) as u8
        })
        .collect();
    let data = Bytes::from(data);
    let (out, flags) = compress_payload(data.clone());
    assert_eq!(flags, 0);
    assert_eq!(out, data);
}

#[test]
fn compressed_form_is_chosen_only_when_strictly_smaller() {
    let data = Bytes::from(vec![1u8; 600]);
    let (out, flags) = choose_compressed(data.clone(), Some(vec![2u8; 599]));
    assert_eq!(flags, GZIP_COMPRESSED);
    assert_eq!(out.as_ref(), &[2u8; 599][..]);
    let (out, flags) = choose_compressed(data.clone(), Some(vec![2u8; 600]));
    assert_eq!(flags, 0);
    assert_eq!(out, data);
    let (out, flags) = choose_compressed(data.clone(), None);
    assert_eq!(flags, 0);
    assert_eq!(out, data);
    let small = Bytes::from(vec![1u8; 511]);
    let (out, flags) = choose_compressed(small.clone(), Some(vec![2u8; 10]));
    assert_eq!(flags, 0);
    assert_eq!(out, small);
}

#[test]
fn decompress_gives_the_bytes_back() {
    let data: Vec<u8> = (0..10_000u32).map(|i| (i % 97) as u8).collect();
    assert_eq!(decompress_gzip(&gz(&data)).unwrap(), data);
    assert_eq!(decompress_gzip(&gz(b"")).unwrap(), Vec::<u8>::new());
}

#[test]
fn decompress_rejects_what_is_no_gzip() {
    let r = decompress_gzip(b"this is not gzip");
    assert!(matches!(r, Err(GzipError::Invalid(_))));
    let mut cut = gz(&[5u8; 5000]);
    cut.truncate(cut.len() / 2);
    assert!(matches!(decompress_gzip(&cut), Err(GzipError::Invalid(_))));
}

#[test]
fn decompress_enforces_the_limit() {
    let packed = gz(&[9u8; 1000]);
    assert_eq!(decompress_gzip_limited(&packed, 1000).unwrap().len(), 1000);
    assert_eq!(decompress_gzip_limited(&packed, 999), Err(GzipError::TooLarge));
    assert_eq!(decompress_gzip_limited(&packed, 0), Err(GzipError::TooLarge));
    assert_eq!(decompress_gzip_limited(&gz(b""), 0).unwrap().len(), 0);
}

#[test]
fn settle_tells_the_three_outcomes_apart() {
    assert_eq!(settle(Ok(vec![1, 2, 3]), 3), Ok(vec![1, 2, 3]));
    assert_eq!(settle(Ok(vec![1, 2, 3, 4]), 3), Err(GzipError::TooLarge));
    assert_eq!(
        settle(Err("corrupt deflate stream".to_string()), 3),
        Err(GzipError::Invalid("corrupt deflate stream".to_string()))
    );
}

#[test]
fn payload_over_the_ceiling_is_rejected() {
    let ceiling = MAX_DECOMPRESSED_SIZE as usize;
    assert_eq!(ceiling, 64 * 1024 * 1024);
    let packed = gz(&vec![0u8; ceiling + 1]);
    let frame = Frame::new(3, MsgType::RequestBody, GZIP_COMPRESSED, Bytes::from(packed));
    assert_eq!(decompress_if_gzip(&frame).err(), Some(GzipError::TooLarge));
}

#[test]
fn payload_at_the_ceiling_is_accepted() {
    let ceiling = MAX_DECOMPRESSED_SIZE as usize;
    let packed = gz(&vec![0u8; ceiling]);
    let frame = Frame::new(3, MsgType::RequestBody, GZIP_COMPRESSED, Bytes::from(packed));
    assert_eq!(decompress_if_gzip(&frame).unwrap().len(), ceiling);
}

#[test]
fn unflagged_payload_is_returned_as_it_is() {
    let packed = gz(b"hello");
    let frame = Frame::new(3, MsgType::RequestBody, 0, Bytes::from(packed.clone()));
    assert_eq!(decompress_if_gzip(&frame).unwrap().as_ref(), &packed[..]);
    let frame = Frame::new(3, MsgType::RequestBody, GZIP_COMPRESSED, Bytes::from(packed));
    assert_eq!(decompress_if_gzip(&frame).unwrap().as_ref(), b"hello");
}

#[test]
fn gzip_error_messages() {
    assert_eq!(GzipError::Invalid("bad header".to_string()).message(), "bad header");
    assert_eq!(GzipError::TooLarge.message(), "decompressed payload exceeds 64 MiB");
}
