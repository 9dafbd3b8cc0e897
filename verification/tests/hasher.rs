use hasher::codec::encode_record;
use hasher::engine::derive_hash;
use hasher::error::HashError;
use hasher::error::InputError;
use hasher::error::SystemError;
use hasher::hasher::check;
use hasher::hasher::Hasher;
use hasher::hasher::VerifyOutcome;
use hasher::codec::decode_verify_request;
use hasher::memset::SecureBuffer;
use hasher::params::v0;
use hasher::params::ParameterRegistry;
use hasher::params::ParameterSet;
use hasher::params::Variant;

const MATCH: VerifyOutcome = VerifyOutcome { matched: true, should_rehash: false };
const MISMATCH: VerifyOutcome = VerifyOutcome { matched: false, should_rehash: false };

/// Version 0 with its memory cost cut down, so that a hash takes
/// milliseconds: three passes, two lanes, Argon2i, a 14-byte salt and a
/// 16-byte hash.
fn small_v0() -> ParameterSet {
    ParameterSet { memory_kb: 64, ..v0::parameter_set() }
}

fn legacy() -> ParameterSet {
    ParameterSet {
        version: 0x0107,
        passes: 1,
        lanes: 1,
        memory_kb: 8,
        variant: Variant::Argon2d,
        salt_len: 8,
        hash_len: 4,
        needs_rehash: true,
    }
}

fn small_hasher() -> Hasher {
    let mut registry = ParameterRegistry::new(small_v0()).unwrap();
    registry.register(legacy()).unwrap();
    Hasher::with_registry(registry)
}

fn buffer(bytes: &[u8]) -> SecureBuffer {
    SecureBuffer::from_vec(bytes.to_vec())
}

fn body_of(record: &[u8], secret: &[u8]) -> SecureBuffer {
    let mut body = record.to_vec();
    body.extend_from_slice(secret);
    SecureBuffer::from_vec(body)
}

fn legacy_record(secret: &[u8], key: &[u8], ad: &[u8]) -> Vec<u8> {
    let salt = b"legacy!!";
    let hash = derive_hash(&legacy(), secret, key, ad, salt).unwrap();
    encode_record(legacy().version, salt, &hash)
}

#[test]
fn new_hasher_works_under_version_zero() {
    let hasher = Hasher::new();
    assert_eq!(hasher.params().current(), v0::parameter_set());
    assert_eq!(hasher.params().lookup(0), Some(v0::parameter_set()));
    assert_eq!(hasher.params().lookup(1), None);
}

#[test]
fn record_verifies_against_its_secret_only() {
    let hasher = small_hasher();
    let mut secret = buffer(b"correct horse");
    let record = hasher.hash(&mut secret, b"", b"").unwrap();
    assert_eq!(record.len(), 2 + 14 + 16);
    assert_eq!(record.len(), 32);
    assert_eq!(&record[..2], &[0u8, 0]);

    let mut right = body_of(&record, b"correct horse");
    assert_eq!(hasher.verify(&mut right, b"", b""), Ok(MATCH));

    let mut wrong = body_of(&record, b"wrong horse");
    assert_eq!(hasher.verify(&mut wrong, b"", b""), Ok(MISMATCH));
}

#[test]
fn record_holds_its_salt_and_the_hash_under_it() {
    let hasher = small_hasher();
    let mut secret = buffer(b"correct horse");
    let record = hasher.hash(&mut secret, b"pepper", b"context").unwrap();
    let salt = &record[2..16];
    let hash = derive_hash(&small_v0(), b"correct horse", b"pepper", b"context", salt).unwrap();
    assert_eq!(&record[16..], &hash[..]);
}

#[test]
fn round_trip_holds_with_key_and_associated_data() {
    let hasher = small_hasher();
    let cases: [(&[u8], &[u8], &[u8]); 5] = [
        (b"", b"", b""),
        (b"s", b"k", b"a"),
        (b"correct horse", &[0xaa; 32], b"tenant-17"),
        (&[0u8; 100], b"", &[0xff; 300]),
        (b"\x00\x00 looks like a tag", b"key", b""),
    ];
    for (secret, key, ad) in cases {
        let mut held = buffer(secret);
        let record = hasher.hash(&mut held, key, ad).unwrap();
        let mut body = body_of(&record, secret);
        assert_eq!(hasher.verify(&mut body, key, ad), Ok(MATCH));
    }
}

#[test]
fn two_records_of_one_secret_differ_and_both_verify() {
    let hasher = small_hasher();
    let first = hasher.hash(&mut buffer(b"secret"), b"", b"").unwrap();
    let second = hasher.hash(&mut buffer(b"secret"), b"", b"").unwrap();
    assert_ne!(first, second);
    assert_ne!(&first[2..16], &second[2..16]);
    assert_eq!(hasher.verify(&mut body_of(&first, b"secret"), b"", b""), Ok(MATCH));
    assert_eq!(hasher.verify(&mut body_of(&second, b"secret"), b"", b""), Ok(MATCH));
}

#[test]
fn any_changed_input_fails_the_match() {
    let hasher = small_hasher();
    let record = hasher.hash(&mut buffer(b"correct horse"), b"key", b"ad").unwrap();

    assert_eq!(hasher.verify(&mut body_of(&record, b"correct horse"), b"key", b"ad"), Ok(MATCH));
    assert_eq!(hasher.verify(&mut body_of(&record, b"correct horsf"), b"key", b"ad"), Ok(MISMATCH));
    assert_eq!(hasher.verify(&mut body_of(&record, b"correct hors"), b"key", b"ad"), Ok(MISMATCH));
    assert_eq!(
        hasher.verify(&mut body_of(&record, b"correct horses"), b"key", b"ad"),
        Ok(MISMATCH)
    );
    assert_eq!(hasher.verify(&mut body_of(&record, b"correct horse"), b"kez", b"ad"), Ok(MISMATCH));
    assert_eq!(hasher.verify(&mut body_of(&record, b"correct horse"), b"", b"ad"), Ok(MISMATCH));
    assert_eq!(hasher.verify(&mut body_of(&record, b"correct horse"), b"key", b"ae"), Ok(MISMATCH));
    assert_eq!(hasher.verify(&mut body_of(&record, b"correct horse"), b"key", b""), Ok(MISMATCH));

    for at in 2..record.len() {
        let mut changed = record.clone();
        changed[at] ^= 1;
        assert_eq!(
            hasher.verify(&mut body_of(&changed, b"correct horse"), b"key", b"ad"),
            Ok(MISMATCH),
            "byte {}",
            at
        );
    }
}

#[test]
fn key_of_thirty_three_bytes_is_rejected_by_create_and_verify() {
    let hasher = Hasher::new();
    let key = [1u8; 33];

    let mut secret = buffer(b"correct horse");
    assert_eq!(hasher.hash(&mut secret, &key, b""), Err(HashError::Input(InputError::KeyTooLong)));
    assert_eq!(secret.as_slice(), &[0u8; 13]);

    let record = encode_record(0, &[5u8; 14], &[6u8; 16]);
    let mut body = body_of(&record, b"correct horse");
    assert_eq!(
        hasher.verify(&mut body, &key, b""),
        Err(HashError::Input(InputError::KeyTooLong))
    );
    assert_eq!(body.as_slice(), &[0u8; 45]);
}

#[test]
fn undecodable_body_is_refused_before_the_key_is_looked_at() {
    let hasher = Hasher::new();
    let key = [1u8; 33];
    assert_eq!(
        hasher.verify(&mut buffer(&[0u8, 1, 2, 3]), &key, b""),
        Err(HashError::Input(InputError::UnsupportedVersion))
    );
    assert_eq!(
        hasher.verify(&mut buffer(&[0u8, 0, 2, 3]), &key, b""),
        Err(HashError::Input(InputError::TruncatedBody))
    );
}

#[test]
fn verify_reports_unsupported_version_and_truncated_body() {
    let hasher = Hasher::new();
    assert_eq!(
        hasher.verify(&mut buffer(b""), b"", b""),
        Err(HashError::Input(InputError::UnsupportedVersion))
    );
    assert_eq!(
        hasher.verify(&mut buffer(&[0u8]), b"", b""),
        Err(HashError::Input(InputError::UnsupportedVersion))
    );
    let mut future = vec![0u8, 1];
    future.extend_from_slice(&[0u8; 40]);
    assert_eq!(
        hasher.verify(&mut buffer(&future), b"", b""),
        Err(HashError::Input(InputError::UnsupportedVersion))
    );
    assert_eq!(
        hasher.verify(&mut buffer(&[0u8; 31]), b"", b""),
        Err(HashError::Input(InputError::TruncatedBody))
    );
}

#[test]
fn legacy_record_asks_for_a_rehash_whether_or_not_it_matches() {
    let hasher = small_hasher();
    let record = legacy_record(b"correct horse", b"key", b"ad");
    assert_eq!(record.len(), 2 + 8 + 4);
    assert_eq!(&record[..2], &[1u8, 7]);

    assert_eq!(
        hasher.verify(&mut body_of(&record, b"correct horse"), b"key", b"ad"),
        Ok(VerifyOutcome { matched: true, should_rehash: true })
    );
    assert_eq!(
        hasher.verify(&mut body_of(&record, b"wrong horse"), b"key", b"ad"),
        Ok(VerifyOutcome { matched: false, should_rehash: true })
    );
}

#[test]
fn current_record_never_asks_for_a_rehash() {
    let hasher = small_hasher();
    let record = hasher.hash(&mut buffer(b"correct horse"), b"", b"").unwrap();
    assert_eq!(hasher.verify(&mut body_of(&record, b"correct horse"), b"", b""), Ok(MATCH));
    assert_eq!(hasher.verify(&mut body_of(&record, b"wrong horse"), b"", b""), Ok(MISMATCH));
}

#[test]
fn secret_is_wiped_after_create() {
    let hasher = small_hasher();
    let mut secret = buffer(b"correct horse");
    assert!(hasher.hash(&mut secret, b"", b"").is_ok());
    assert_eq!(secret.len(), 13);
    assert_eq!(secret.as_slice(), &[0u8; 13]);

    let mut secret = buffer(b"correct horse");
    assert!(hasher.hash(&mut secret, &[0u8; 64], b"").is_err());
    assert_eq!(secret.as_slice(), &[0u8; 13]);
}

#[test]
fn body_is_wiped_after_verify() {
    let hasher = small_hasher();
    let record = hasher.hash(&mut buffer(b"correct horse"), b"", b"").unwrap();

    let mut body = body_of(&record, b"correct horse");
    assert_eq!(hasher.verify(&mut body, b"", b""), Ok(MATCH));
    assert_eq!(body.as_slice(), &[0u8; 45]);

    let mut body = body_of(&record, b"wrong horse");
    assert_eq!(hasher.verify(&mut body, b"", b""), Ok(MISMATCH));
    assert_eq!(body.as_slice(), &[0u8; 43]);

    let mut body = buffer(b"\x09\x09 no such version, but still a secret");
    assert!(hasher.verify(&mut body, b"", b"").is_err());
    assert!(body.as_slice().iter().all(|byte| *byte == 0));
    assert_eq!(body.len(), 38);

    let mut body = buffer(b"\x00\x00 too short");
    assert_eq!(
        hasher.verify(&mut body, b"", b""),
        Err(HashError::Input(InputError::TruncatedBody))
    );
    assert_eq!(body.as_slice(), &[0u8; 12]);
}

#[test]
fn unusable_current_set_is_a_system_error() {
    let unusable = ParameterSet { lanes: 0, ..small_v0() };
    let hasher = Hasher::with_registry(ParameterRegistry::new(unusable).unwrap());
    let mut secret = buffer(b"correct horse");
    assert_eq!(
        hasher.hash(&mut secret, b"", b""),
        Err(HashError::System(SystemError::ComputeFailure))
    );
    assert_eq!(secret.as_slice(), &[0u8; 13]);

    let mut body = body_of(&encode_record(0, &[0u8; 14], &[0u8; 16]), b"secret");
    assert_eq!(
        hasher.verify(&mut body, b"", b""),
        Err(HashError::System(SystemError::ComputeFailure))
    );
    assert_eq!(
        hasher.verify(&mut buffer(b"\x00\x00"), b"", b""),
        Err(HashError::Input(InputError::TruncatedBody))
    );
}

#[test]
fn check_compares_the_derived_hash_with_the_one_held() {
    let registry = ParameterRegistry::new(small_v0()).unwrap();
    let salt = b"0123456789abcd";
    let hash = derive_hash(&small_v0(), b"secret", b"k", b"a", salt).unwrap();
    let mut body = encode_record(0, salt, &hash);
    body.extend_from_slice(b"secret");

    let request = decode_verify_request(&registry, &body).unwrap();
    assert_eq!(check(&request, b"k", b"a"), Ok(MATCH));
    assert_eq!(check(&request, b"k", b"b"), Ok(MISMATCH));
    assert_eq!(check(&request, &[0u8; 33], b"a"), Err(HashError::Input(InputError::KeyTooLong)));

    let last = body.len() - 7;
    body[last] ^= 0x80;
    let request = decode_verify_request(&registry, &body).unwrap();
    assert_eq!(check(&request, b"k", b"a"), Ok(MISMATCH));
}
