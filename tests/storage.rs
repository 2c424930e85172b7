use lala_agent::storage::{decode_body, encode_body, object_key, CompressionType};

#[test]
fn test_compression_type_file_extension() {
    assert_eq!(CompressionType::Plain.file_extension(), "html");
    assert_eq!(CompressionType::Gzip.file_extension(), "html.gz");
}

#[test]
fn test_compression_type_content_type() {
    assert_eq!(CompressionType::Plain.content_type(), "text/html");
    assert_eq!(CompressionType::Gzip.content_type(), "application/gzip");
}

#[test]
fn test_compression_type_db_value_roundtrip() {
    let types = vec![CompressionType::Plain, CompressionType::Gzip];

    for compression_type in types {
        let db_value = compression_type.to_db_value();
        let parsed = CompressionType::from_db_value(db_value);
        assert_eq!(compression_type, parsed);
    }
}

#[test]
fn test_compression_type_from_db_value_invalid() {
    assert_eq!(CompressionType::from_db_value(99), CompressionType::Plain);
    assert_eq!(CompressionType::from_db_value(-1), CompressionType::Plain);
}

#[test]
fn test_compression_type_db_values() {
    assert_eq!(CompressionType::Plain.to_db_value(), 0);
    assert_eq!(CompressionType::Gzip.to_db_value(), 1);
}

#[test]
fn test_compression_type_display() {
    assert_eq!(CompressionType::Plain.to_string(), "none");
    assert_eq!(CompressionType::Gzip.to_string(), "gzip");
}

#[test]
fn test_compress_decompress_roundtrip() {
    let original = "Hello, World! This is a test of gzip compression.";
    let (compressed, kind) = encode_body(original, true, 0).unwrap();
    assert_eq!(kind, CompressionType::Gzip);
    assert_ne!(compressed.as_slice(), original.as_bytes());
    let decompressed = decode_body(&compressed, kind).unwrap();

    assert_eq!(original, decompressed);
}

#[test]
fn test_compress_reduces_size_for_repetitive_content() {
    let repetitive = "Hello ".repeat(1000);
    let (compressed, kind) = encode_body(&repetitive, true, 1024).unwrap();

    assert_eq!(kind, CompressionType::Gzip);
    assert!(compressed.len() < repetitive.len());
}

#[test]
fn small_or_uncompressed_bodies_are_stored_as_is() {
    let body = "<html>é</html>";
    let (data, kind) = encode_body(body, true, 1024).unwrap();
    assert_eq!(kind, CompressionType::Plain);
    assert_eq!(data, body.as_bytes());
    let (data, kind) = encode_body(&"x".repeat(2000), false, 10).unwrap();
    assert_eq!(kind, CompressionType::Plain);
    assert_eq!(decode_body(&data, kind).unwrap(), "x".repeat(2000));
}

#[test]
fn stored_bodies_read_back() {
    for body in ["", "plain", "Привет мир", &"abc".repeat(700)] {
        let (data, kind) = encode_body(body, true, 16).unwrap();
        assert_eq!(decode_body(&data, kind).unwrap(), body);
    }
}

#[test]
fn decode_rejects_bad_bytes() {
    assert!(decode_body(&[0xff, 0xfe], CompressionType::Plain).is_err());
    assert!(decode_body(b"not gzip", CompressionType::Gzip).is_err());
}

#[test]
fn object_keys_carry_the_extension() {
    let id = "0190a5b2-7c3e-7d4f-8a1b-2c3d4e5f6a7b";
    assert_eq!(
        object_key(id, CompressionType::Plain),
        "0190a5b2-7c3e-7d4f-8a1b-2c3d4e5f6a7b.html"
    );
    assert_eq!(
        object_key(id, CompressionType::Gzip),
        "0190a5b2-7c3e-7d4f-8a1b-2c3d4e5f6a7b.html.gz"
    );
}
