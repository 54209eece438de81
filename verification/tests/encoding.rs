use axum::http::header::{HeaderMap, HeaderValue};
use mtls_agent::encoding::{CodecErrorKind, Encoding, MIN_ENCODING_SIZE};

fn headers(pairs: &[(&'static str, &'static str)]) -> HeaderMap {
    let mut hm = HeaderMap::new();
    for (name, value) in pairs {
        hm.append(*name, HeaderValue::from_static(value));
    }
    hm
}

#[test]
fn identity_is_true_for_identity_alone() {
    assert!(Encoding::Identity.identity());
    assert!(!Encoding::Gzip.identity());
    assert!(!Encoding::Zstd.identity());
}

#[test]
fn to_string_gives_the_tokens() {
    assert_eq!(Encoding::Zstd.to_string(), "zstd");
    assert_eq!(Encoding::Gzip.to_string(), "gzip");
    assert_eq!(Encoding::Identity.to_string(), "identity");
}

#[test]
fn header_value_gives_the_tokens() {
    assert_eq!(Encoding::Zstd.header_value().as_bytes(), b"zstd");
    assert_eq!(Encoding::Gzip.header_value().as_bytes(), b"gzip");
    assert_eq!(Encoding::Identity.header_value().as_bytes(), b"identity");
}

#[test]
fn min_encoding_size_value() {
    assert_eq!(MIN_ENCODING_SIZE, 128);
}

#[test]
fn from_header_without_fields_is_identity() {
    assert_eq!(Encoding::from_header(&HeaderMap::new()), Encoding::Identity);
}

#[test]
fn from_header_content_encoding_exact_tokens() {
    assert_eq!(Encoding::from_header(&headers(&[("content-encoding", "gzip")])), Encoding::Gzip);
    assert_eq!(Encoding::from_header(&headers(&[("content-encoding", "zstd")])), Encoding::Zstd);
}

#[test]
fn from_header_content_encoding_is_no_substring_match() {
    assert_eq!(
        Encoding::from_header(&headers(&[("content-encoding", "gzip, zstd")])),
        Encoding::Identity
    );
    assert_eq!(Encoding::from_header(&headers(&[("content-encoding", "GZIP")])), Encoding::Identity);
    assert_eq!(Encoding::from_header(&headers(&[("content-encoding", "x-gzip")])), Encoding::Identity);
}

#[test]
fn from_header_unknown_content_encoding_hides_accept_encoding() {
    let hm = headers(&[("content-encoding", "br"), ("accept-encoding", "gzip")]);
    assert_eq!(Encoding::from_header(&hm), Encoding::Identity);
}

#[test]
fn from_header_content_encoding_comes_before_accept_encoding() {
    let hm = headers(&[("accept-encoding", "zstd"), ("content-encoding", "gzip")]);
    assert_eq!(Encoding::from_header(&hm), Encoding::Gzip);
}

#[test]
fn from_header_first_content_encoding_value_counts() {
    let hm = headers(&[("content-encoding", "zstd"), ("content-encoding", "gzip")]);
    assert_eq!(Encoding::from_header(&hm), Encoding::Zstd);
}

#[test]
fn from_header_accept_encoding_substring() {
    assert_eq!(
        Encoding::from_header(&headers(&[("accept-encoding", "gzip, deflate, br")])),
        Encoding::Gzip
    );
    assert_eq!(
        Encoding::from_header(&headers(&[("accept-encoding", "deflate;q=0.5, xgzipx")])),
        Encoding::Gzip
    );
    assert_eq!(Encoding::from_header(&headers(&[("accept-encoding", "zstd")])), Encoding::Zstd);
}

#[test]
fn from_header_accept_encoding_prefers_zstd() {
    assert_eq!(
        Encoding::from_header(&headers(&[("accept-encoding", "gzip, zstd, br")])),
        Encoding::Zstd
    );
}

#[test]
fn from_header_accept_encoding_without_known_token() {
    assert_eq!(
        Encoding::from_header(&headers(&[("accept-encoding", "br, deflate")])),
        Encoding::Identity
    );
    assert_eq!(Encoding::from_header(&headers(&[("accept-encoding", "")])), Encoding::Identity);
    assert_eq!(Encoding::from_header(&headers(&[("accept-encoding", "gzi")])), Encoding::Identity);
}

#[test]
fn from_header_value_that_is_no_text_is_identity() {
    let mut hm = HeaderMap::new();
    hm.insert("accept-encoding", HeaderValue::from_bytes(b"gzip\xff").unwrap());
    assert_eq!(Encoding::from_header(&hm), Encoding::Identity);
    let mut hm = HeaderMap::new();
    hm.insert("content-encoding", HeaderValue::from_bytes(b"\xfagzip").unwrap());
    hm.insert("accept-encoding", HeaderValue::from_static("gzip"));
    assert_eq!(Encoding::from_header(&hm), Encoding::Identity);
}

#[test]
fn identity_encode_always_fails() {
    let e = Encoding::Identity.encode_all(b"hello").unwrap_err();
    assert_eq!(e.kind, CodecErrorKind::Unsupported);
    assert_eq!(e.message, "identity encoding not supported");
    assert!(Encoding::Identity.encode_all(b"").is_err());
}

#[test]
fn identity_decode_always_fails() {
    let e = Encoding::Identity.decode_all(b"hello").unwrap_err();
    assert_eq!(e.kind, CodecErrorKind::Unsupported);
    assert_eq!(e.message, "identity decoding not supported");
    assert!(Encoding::Identity.decode_all(b"").is_err());
}

#[test]
fn gzip_round_trip() {
    let data = b"the quick brown fox jumps over the lazy dog, again and again and again".to_vec();
    let encoded = Encoding::Gzip.encode_all(&data).unwrap();
    assert_ne!(encoded, data);
    assert_eq!(&encoded[..3], &[0x1f, 0x8b, 0x08]);
    assert_eq!(Encoding::Gzip.decode_all(&encoded).unwrap(), data);
}

#[test]
fn zstd_round_trip() {
    let data = b"the quick brown fox jumps over the lazy dog, again and again and again".to_vec();
    let encoded = Encoding::Zstd.encode_all(&data).unwrap();
    assert_ne!(encoded, data);
    assert_eq!(&encoded[..4], &[0x28, 0xb5, 0x2f, 0xfd]);
    assert_eq!(Encoding::Zstd.decode_all(&encoded).unwrap(), data);
}

#[test]
fn round_trip_of_one_octet() {
    for coding in [Encoding::Gzip, Encoding::Zstd] {
        let encoded = coding.encode_all(&[7u8]).unwrap();
        assert_eq!(coding.decode_all(&encoded).unwrap(), vec![7u8]);
    }
}

#[test]
fn round_trip_of_every_octet_value() {
    let data: Vec<u8> = (0..=255u8).cycle().take(4096).collect();
    for coding in [Encoding::Gzip, Encoding::Zstd] {
        let encoded = coding.encode_all(&data).unwrap();
        assert_eq!(coding.decode_all(&encoded).unwrap(), data);
    }
}

#[test]
fn zstd_encoding_is_the_same_each_time() {
    let data = b"aaaaaaaaaaaaaaaaaaaaaaaaaaaaaaaaaaaaaaaaaaaaaaaaaaaaaaaaaaaaaaaa".to_vec();
    let first = Encoding::Zstd.encode_all(&data).unwrap();
    let second = Encoding::Zstd.encode_all(&data).unwrap();
    assert_eq!(first, second);
    assert!(first.len() < data.len());
}

#[test]
fn zstd_encodes_at_level_nine() {
    let data: Vec<u8> = (0..20000u32).flat_map(|i| ((i * i) % 251).to_le_bytes()).collect();
    let ours = Encoding::Zstd.encode_all(&data).unwrap();
    assert_eq!(ours, zstd::stream::encode_all(&data[..], 9).unwrap());
}

#[test]
fn gzip_decodes_a_known_member() {
    let encoded = [
        31u8, 139, 8, 0, 123, 0, 0, 0, 0, 3, 1, 12, 0, 243, 255, 72, 101, 108, 108, 111, 32, 87,
        111, 114, 108, 100, 33, 163, 28, 41, 28, 12, 0, 0, 0,
    ];
    assert_eq!(Encoding::Gzip.decode_all(&encoded).unwrap(), b"Hello World!".to_vec());
}

#[test]
fn zstd_decodes_a_known_frame() {
    let encoded = [0x28u8, 0xb5, 0x2f, 0xfd, 0x20, 0x02, 0x11, 0x00, 0x00, 0x68, 0x69];
    assert_eq!(Encoding::Zstd.decode_all(&encoded).unwrap(), b"hi".to_vec());
}

#[test]
fn decode_of_garbage_fails() {
    let e = Encoding::Gzip.decode_all(b"this is no gzip member").unwrap_err();
    assert_eq!(e.kind, CodecErrorKind::Failed);
    let e = Encoding::Zstd.decode_all(b"this is no zstd frame").unwrap_err();
    assert_eq!(e.kind, CodecErrorKind::Failed);
}

#[test]
fn gzip_decode_of_a_damaged_checksum_fails() {
    let mut encoded = Encoding::Gzip.encode_all(b"some body").unwrap();
    let at = encoded.len() - 8;
    encoded[at] ^= 0xff;
    assert!(Encoding::Gzip.decode_all(&encoded).is_err());
}

#[test]
fn one_coding_does_not_decode_the_other() {
    let gz = Encoding::Gzip.encode_all(b"some body").unwrap();
    let zs = Encoding::Zstd.encode_all(b"some body").unwrap();
    assert!(Encoding::Zstd.decode_all(&gz).is_err());
    assert!(Encoding::Gzip.decode_all(&zs).is_err());
}

#[test]
fn gzip_gives_one_member_for_any_buffer() {
    for data in [Vec::new(), vec![0u8], b"hello hello hello".to_vec(), vec![7u8; 70_000]] {
        let out = Encoding::Gzip.encode_all(&data).unwrap();
        assert!(out.len() >= 18);
        assert_eq!(&out[..3], &[0x1f, 0x8b, 0x08]);
        assert_eq!(&out[out.len() - 4..], &(data.len() as u32).to_le_bytes());
        assert_eq!(Encoding::Gzip.decode_all(&out).unwrap(), data);
    }
}

#[test]
fn gzip_length_field_octets() {
    let out = Encoding::Gzip.encode_all(&vec![1u8; 0x01_02_03]).unwrap();
    assert_eq!(&out[out.len() - 4..], &[0x03, 0x02, 0x01, 0x00]);
}

#[test]
fn zstd_gives_a_frame_for_any_buffer() {
    for data in [Vec::new(), vec![0u8], b"hello hello hello".to_vec(), vec![7u8; 70_000]] {
        let out = Encoding::Zstd.encode_all(&data).unwrap();
        assert_eq!(&out[..4], &[0x28, 0xb5, 0x2f, 0xfd]);
        assert_eq!(out, zstd::stream::encode_all(&data[..], 9).unwrap());
        assert_eq!(Encoding::Zstd.decode_all(&out).unwrap(), data);
    }
}

#[test]
fn gzip_refuses_what_does_not_start_as_a_member() {
    assert!(Encoding::Gzip.decode_all(b"").is_err());
    assert!(Encoding::Gzip.decode_all(&[0x1f, 0x8b, 0x08]).is_err());
    assert!(Encoding::Gzip.decode_all(&[0x1f, 0x8c, 8, 0, 0, 0, 0, 0, 0, 3, 3, 0, 0, 0, 0, 0, 0, 0, 0, 0]).is_err());
    assert!(Encoding::Gzip.decode_all(&[0x1f, 0x8b, 7, 0, 0, 0, 0, 0, 0, 3, 3, 0, 0, 0, 0, 0, 0, 0, 0, 0]).is_err());
    assert_eq!(
        Encoding::Gzip.decode_all(&[0x1f, 0x8b, 8, 0, 0, 0, 0, 0, 0, 3, 3, 0, 0, 0, 0, 0, 0, 0, 0, 0]),
        Ok(vec![])
    );
}
