use hasher::codec::decode_verify_request;
use hasher::codec::encode_record;
use hasher::codec::HashRecord;
use hasher::error::InputError;
use hasher::params::v0;
use hasher::params::ParameterRegistry;
use hasher::params::ParameterSet;
use hasher::params::Variant;

fn set(version: u16, salt_len: usize, hash_len: usize) -> ParameterSet {
    ParameterSet {
        version,
        passes: 1,
        lanes: 1,
        memory_kb: 8,
        variant: Variant::Argon2i,
        salt_len,
        hash_len,
        needs_rehash: false,
    }
}

#[test]
fn record_is_tag_salt_hash_without_delimiters() {
    let record = encode_record(0, b"saltsalt", b"hash");
    assert_eq!(record, b"\x00\x00saltsalthash".to_vec());
    assert_eq!(record.len(), 2 + 8 + 4);
}

#[test]
fn version_tag_is_big_endian() {
    assert_eq!(encode_record(0x0102, b"", b""), vec![1u8, 2]);
    assert_eq!(encode_record(1, b"s", b"h"), vec![0u8, 1, b's', b'h']);
    assert_eq!(encode_record(256, b"s", b"h"), vec![1u8, 0, b's', b'h']);
    assert_eq!(encode_record(u16::MAX, b"", b"h"), vec![255u8, 255, b'h']);
}

#[test]
fn version_zero_record_has_thirty_two_bytes() {
    let record = encode_record(v0::VERSION, &[7u8; v0::SALT_LEN], &[9u8; v0::HASH_LEN]);
    assert_eq!(record.len(), 2 + 14 + 16);
    assert_eq!(record.len(), 32);
    assert_eq!(&record[..2], &[0u8, 0]);
    assert_eq!(&record[2..16], &[7u8; 14]);
    assert_eq!(&record[16..], &[9u8; 16]);
}

#[test]
fn body_splits_into_salt_hash_and_secret() {
    let registry = ParameterRegistry::standard();
    let mut body = vec![0u8, 0];
    body.extend_from_slice(b"0123456789abcd");
    body.extend_from_slice(b"ABCDEFGHIJKLMNOP");
    body.extend_from_slice(b"correct horse");
    let request = decode_verify_request(&registry, &body).unwrap();
    assert_eq!(request.params, v0::parameter_set());
    assert_eq!(request.salt, b"0123456789abcd");
    assert_eq!(request.hash, b"ABCDEFGHIJKLMNOP");
    assert_eq!(request.secret, b"correct horse");
}

#[test]
fn secret_may_be_empty() {
    let registry = ParameterRegistry::standard();
    let body = encode_record(0, &[1u8; 14], &[2u8; 16]);
    let request = decode_verify_request(&registry, &body).unwrap();
    assert_eq!(request.salt, &[1u8; 14]);
    assert_eq!(request.hash, &[2u8; 16]);
    assert!(request.secret.is_empty());
}

#[test]
fn body_one_byte_short_is_truncated() {
    let registry = ParameterRegistry::standard();
    let body = encode_record(0, &[1u8; 14], &[2u8; 15]);
    assert_eq!(body.len(), 31);
    assert_eq!(decode_verify_request(&registry, &body).err(), Some(InputError::TruncatedBody));
    assert_eq!(
        decode_verify_request(&registry, &[0u8, 0]).err(),
        Some(InputError::TruncatedBody)
    );
    assert_eq!(
        decode_verify_request(&registry, &body[..10]).err(),
        Some(InputError::TruncatedBody)
    );
}

#[test]
fn body_without_a_version_tag_is_unsupported() {
    let registry = ParameterRegistry::standard();
    assert_eq!(decode_verify_request(&registry, &[]).err(), Some(InputError::UnsupportedVersion));
    assert_eq!(
        decode_verify_request(&registry, &[0u8]).err(),
        Some(InputError::UnsupportedVersion)
    );
}

#[test]
fn unknown_version_is_unsupported_whatever_follows() {
    let registry = ParameterRegistry::standard();
    for tag in [[0u8, 1], [1, 0], [255, 255]] {
        let mut body = tag.to_vec();
        body.extend_from_slice(&[0u8; 64]);
        assert_eq!(
            decode_verify_request(&registry, &body).err(),
            Some(InputError::UnsupportedVersion)
        );
        assert_eq!(
            decode_verify_request(&registry, &tag).err(),
            Some(InputError::UnsupportedVersion)
        );
    }
}

#[test]
fn lengths_follow_the_version_that_the_tag_names() {
    let mut registry = ParameterRegistry::new(set(0x0102, 3, 2)).unwrap();
    registry.register(set(0x0201, 1, 1)).unwrap();

    let body = [1u8, 2, 10, 11, 12, 20, 21, 30, 31];
    let request = decode_verify_request(&registry, &body).unwrap();
    assert_eq!(request.params, set(0x0102, 3, 2));
    assert_eq!(request.salt, &[10u8, 11, 12]);
    assert_eq!(request.hash, &[20u8, 21]);
    assert_eq!(request.secret, &[30u8, 31]);

    let body = [2u8, 1, 10, 11, 12, 20, 21, 30, 31];
    let request = decode_verify_request(&registry, &body).unwrap();
    assert_eq!(request.params, set(0x0201, 1, 1));
    assert_eq!(request.salt, &[10u8]);
    assert_eq!(request.hash, &[11u8]);
    assert_eq!(request.secret, &[12u8, 20, 21, 30, 31]);
}

#[test]
fn decoding_inverts_encoding() {
    let registry = ParameterRegistry::new(set(770, 5, 6)).unwrap();
    let mut body = encode_record(770, b"SALTY", b"HASHED");
    body.extend_from_slice(b"secret");
    let request = decode_verify_request(&registry, &body).unwrap();
    assert_eq!(request.params, set(770, 5, 6));
    assert_eq!(request.salt, b"SALTY");
    assert_eq!(request.hash, b"HASHED");
    assert_eq!(request.secret, b"secret");
}

#[test]
fn record_encodes_as_its_parts_do() {
    let record = HashRecord { version: 0x0a0b, salt: b"salt".to_vec(), hash: b"hash!".to_vec() };
    assert_eq!(record.encode(), b"\x0a\x0bsalthash!".to_vec());
    assert_eq!(record.encode(), encode_record(0x0a0b, b"salt", b"hash!"));
    let empty = HashRecord { version: 0, salt: Vec::new(), hash: Vec::new() };
    assert_eq!(empty.encode(), vec![0u8, 0]);
}
