use aether::fuzz::{PolyglotFuzzer, GZIP_SIZE, HEADER_PAD, JSON_DEPTH, OVERFLOW_LEN};
use bytes::BytesMut;

fn written(variant: u64, pick: u64, high: u8) -> Vec<u8> {
    let fuzzer = PolyglotFuzzer::new();
    let mut buffer = BytesMut::with_capacity(1 << 20);
    buffer.extend_from_slice(b"stale bytes from an earlier request");
    fuzzer.write_variant(&mut buffer, variant, pick, high);
    buffer.to_vec()
}

#[test]
fn overflow_is_a_run_of_a() {
    let out = written(0, 0, 128);
    assert_eq!(out.len(), OVERFLOW_LEN);
    assert!(out.iter().all(|&b| b == b'A'));
}

#[test]
fn injection_is_the_polyglot() {
    let out = written(1, 0, 128);
    assert_eq!(out, b"' OR 1=1 -- <script>alert(1)</script> {{7*7}}".to_vec());
}

#[test]
fn json_explosion_nests_a_thousand_levels() {
    let out = written(2, 0, 128);
    let mut expected = Vec::new();
    for _ in 0..JSON_DEPTH {
        expected.extend_from_slice(b"{\"a\":");
    }
    expected.push(b'1');
    expected.extend(std::iter::repeat(b'}').take(JSON_DEPTH));
    assert_eq!(out, expected);
}

#[test]
fn json_explosion_of_depth_zero_is_a_digit() {
    let fuzzer = PolyglotFuzzer::new();
    let mut buffer = BytesMut::new();
    fuzzer.generate_json_explosion(&mut buffer, 0);
    assert_eq!(buffer.to_vec(), b"1".to_vec());
}

#[test]
fn gzip_variant_inflates_to_a_mebibyte_of_zeros() {
    let out = written(3, 0, 128);
    assert!(out.len() >= 18);
    assert_eq!(&out[..2], &[0x1f, 0x8b]);
    let mut inflated = Vec::new();
    let mut decoder = flate2::read::GzDecoder::new(&out[..]);
    std::io::Read::read_to_end(&mut decoder, &mut inflated).unwrap();
    assert_eq!(inflated.len(), GZIP_SIZE);
    assert!(inflated.iter().all(|&b| b == 0));
    assert!(out.len() < 4096);
}

#[test]
fn oversized_headers_pad_with_x() {
    let out = written(4, 0, 128);
    assert_eq!(&out[..16], b"Cookie: session=");
    assert_eq!(out.len(), 16 + HEADER_PAD);
    assert!(out[16..].iter().all(|&b| b == b'X'));
}

#[test]
fn double_encoding_encodes_the_percent_signs() {
    let out = written(5, 0, 128);
    assert_eq!(String::from_utf8(out).unwrap(), "%2527%2520OR%25201%253D1%2520--");
}

#[test]
fn double_encoding_keeps_unreserved_bytes() {
    let fuzzer = PolyglotFuzzer::new();
    let mut buffer = BytesMut::new();
    fuzzer.generate_double_encoded(&mut buffer, b"az-._~09");
    assert_eq!(buffer.to_vec(), b"az-._~09".to_vec());
    let mut buffer = BytesMut::new();
    fuzzer.generate_double_encoded(&mut buffer, &[0xff, b' ']);
    assert_eq!(buffer.to_vec(), b"%25FF%2520".to_vec());
}

#[test]
fn bad_char_walk_replaces_the_chosen_byte() {
    assert_eq!(written(6, 2, 0xc8), vec![b'a', b'd', 0xc8, b'i', b'n']);
    assert_eq!(written(6, 0, 0xff), vec![0xff, b'd', b'm', b'i', b'n']);
    assert_eq!(written(6, 5, 0x80), b"admin".to_vec());
}

#[test]
fn verb_manipulation_writes_a_complete_request() {
    let verbs = ["PROPFIND", "MOVE", "LOCK", "UNLOCK", "SEARCH", "PURGE"];
    for (i, verb) in verbs.iter().enumerate() {
        let out = written(7, i as u64, 128);
        let expected = format!("{} / HTTP/1.1\r\nHost: target.internal\r\n\r\n", verb);
        assert_eq!(out, expected.into_bytes());
    }
}

#[test]
fn smuggling_payload_carries_both_length_headers() {
    let out = written(8, 0, 128);
    let expected = "POST / HTTP/1.1\r\nHost: target.local\r\nContent-Length: 4\r\n\
                    Transfer-Encoding: chunked\r\n\r\n0\r\n\r\nX";
    assert_eq!(String::from_utf8(out).unwrap(), expected);
}

#[test]
fn smuggling_payload_injects_the_host() {
    let fuzzer = PolyglotFuzzer::new();
    let mut buffer = BytesMut::new();
    fuzzer.generate_smuggling_payload(&mut buffer, "example.test");
    assert!(buffer.starts_with(b"POST / HTTP/1.1\r\nHost: example.test\r\n"));
}

#[test]
fn null_byte_sits_between_name_and_extension() {
    assert_eq!(written(9, 0, 128), b"admin\0.php".to_vec());
}

#[test]
fn handshake_termination_is_four_bytes() {
    assert_eq!(written(10, 0, 128), vec![0x16, 0x03, 0x01, 0x00]);
}

#[test]
fn noop_is_four_ascii_bytes() {
    assert_eq!(written(11, 0, 128), b"NOOP".to_vec());
}

#[test]
fn every_variant_leaves_bytes_in_the_buffer() {
    for variant in 0..12u64 {
        let out = written(variant, 1, 200);
        assert!(!out.is_empty(), "variant {} left nothing", variant);
    }
    assert_eq!(written(11, 1, 200).len(), 4);
}

#[test]
fn generate_into_always_writes_a_catalog_entry() {
    let fuzzer = PolyglotFuzzer::new();
    let mut buffer = BytesMut::with_capacity(1 << 20);
    for _ in 0..200 {
        fuzzer.generate_into(&mut buffer, "ignored template");
        assert!(!buffer.is_empty());
    }
}

#[test]
fn generate_into_keeps_the_buffer_capacity() {
    let fuzzer = PolyglotFuzzer::new();
    let mut buffer = BytesMut::with_capacity(1 << 20);
    let capacity = buffer.capacity();
    for _ in 0..200 {
        fuzzer.generate_into(&mut buffer, "");
        assert_eq!(buffer.capacity(), capacity);
    }
}

#[test]
fn overflow_appends_to_what_is_there() {
    let fuzzer = PolyglotFuzzer::new();
    let mut buffer = BytesMut::new();
    buffer.extend_from_slice(b"xy");
    fuzzer.generate_overflow(&mut buffer, 3);
    assert_eq!(buffer.to_vec(), b"xyAAA".to_vec());
}

#[test]
fn injection_is_45_bytes() {
    assert_eq!(written(1, 0, 128).len(), 45);
}

#[test]
fn gzip_bomb_appends_to_what_is_there() {
    let fuzzer = PolyglotFuzzer::new();
    let mut buffer = BytesMut::new();
    buffer.extend_from_slice(b"head");
    fuzzer.generate_gzip_bomb(&mut buffer, 10);
    assert_eq!(&buffer[..4], b"head");
    assert_eq!(&buffer[4..6], &[0x1f, 0x8b]);
    let mut inflated = Vec::new();
    let mut decoder = flate2::read::GzDecoder::new(&buffer[4..]);
    std::io::Read::read_to_end(&mut decoder, &mut inflated).unwrap();
    assert_eq!(inflated, vec![0u8; 10]);
}

#[test]
fn gzip_bomb_caps_at_the_zero_block() {
    let fuzzer = PolyglotFuzzer::new();
    let mut buffer = BytesMut::new();
    fuzzer.generate_gzip_bomb(&mut buffer, usize::MAX);
    let mut inflated = Vec::new();
    let mut decoder = flate2::read::GzDecoder::new(&buffer[..]);
    std::io::Read::read_to_end(&mut decoder, &mut inflated).unwrap();
    assert_eq!(inflated.len(), aether::fuzz::ZERO_BLOCK);
}

#[test]
fn double_encoding_appends_to_what_is_there() {
    let fuzzer = PolyglotFuzzer::new();
    let mut buffer = BytesMut::new();
    buffer.extend_from_slice(b"q=");
    fuzzer.generate_double_encoded(&mut buffer, b"a b");
    assert_eq!(buffer.to_vec(), b"q=a%2520b".to_vec());
    assert_eq!(aether::buffer::byte_len(&buffer), 9);
}
