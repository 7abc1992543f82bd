use proteus::cas::chunking::{Chunker, DEFAULT_CHUNK_SIZE};
use proteus::cas::crypto::{decrypt, encrypt, Ciphertext, EncryptionKey};
use proteus::cas::error::CoreError;
use proteus::cas::hash::{hash_bytes, ContentId};
use proteus::cas::snapshot::{plan_snapshot, plan_volume_ingest, SnapshotInput, MANIFEST_VERSION};
use proteus::cas::storage::{
    blob_id_from_file_name, expand_local_path, LocalBackend, S3Backend, S3Config, StoreOperation,
};

#[test]
fn round_trip_hex() {
    let id = hash_bytes(b"proteus");
    let parsed = ContentId::from_hex(&id.to_hex()).expect("valid hex");
    assert_eq!(id, parsed);
}

#[test]
fn blake3_of_empty_input_is_the_reference_digest() {
    let id = hash_bytes(b"");
    assert_eq!(
        id.to_hex(),
        "af1349b9f5f9a1a6a0404dea36dcc9499bcb25c9adc112b7cc9a93cae41f3262"
    );
}

#[test]
fn to_hex_is_lowercase_two_digits_per_byte() {
    let mut bytes = [0u8; 32];
    bytes[0] = 0xAB;
    bytes[1] = 0x05;
    bytes[31] = 0xFF;
    let id = ContentId::from_bytes(bytes);
    let hex = id.to_hex();
    assert_eq!(hex.len(), 64);
    assert!(hex.starts_with("ab05"));
    assert!(hex.ends_with("ff"));
    assert_eq!(id.as_bytes(), &bytes);
}

#[test]
fn from_hex_accepts_uppercase() {
    let id = hash_bytes(b"abc");
    let upper = id.to_hex().to_uppercase();
    assert_eq!(ContentId::from_hex(&upper).expect("upper hex"), id);
}

#[test]
fn from_hex_rejects_odd_length() {
    let err = ContentId::from_hex("abc").expect_err("odd");
    assert_eq!(
        err,
        CoreError::InvalidArgument("invalid content id hex: Odd number of digits".to_string())
    );
}

#[test]
fn from_hex_rejects_bad_digit() {
    let err = ContentId::from_hex("0g").expect_err("bad digit");
    assert_eq!(
        err.message(),
        "invalid argument: invalid content id hex: Invalid character 'g' at position 1"
    );
}

#[test]
fn from_hex_rejects_wrong_length() {
    let err = ContentId::from_hex("abcd").expect_err("short");
    assert_eq!(
        err,
        CoreError::InvalidArgument("content id must be 32 bytes, got 2".to_string())
    );
}

#[test]
fn chunks_fixed_size() {
    let chunker = Chunker::new(4).expect("non-zero");
    let chunks = chunker.chunk(b"abcdefghij");
    assert_eq!(chunks.len(), 3);
    assert_eq!(chunks[0].data.as_slice(), b"abcd");
    assert_eq!(chunks[2].data.as_slice(), b"ij");
}

#[test]
fn chunker_rejects_zero_size() {
    assert!(Chunker::new(0).is_none());
}

#[test]
fn chunks_reassemble_with_ids_and_indices() {
    let chunker = Chunker::new(3).expect("non-zero");
    let data = b"0123456789";
    let chunks = chunker.chunk(data);
    let joined: Vec<u8> = chunks.iter().flat_map(|c| c.data.clone()).collect();
    assert_eq!(joined, data.to_vec());
    for (i, c) in chunks.iter().enumerate() {
        assert_eq!(c.index, i as u64);
        assert_eq!(c.id, hash_bytes(&c.data));
    }
    assert!(chunker.chunk(b"").is_empty());
}

#[test]
fn default_chunker_uses_one_mebibyte() {
    let chunker = Chunker::default();
    let data = vec![7u8; DEFAULT_CHUNK_SIZE + 1];
    let chunks = chunker.chunk(&data);
    assert_eq!(chunks.len(), 2);
    assert_eq!(chunks[0].data.len(), DEFAULT_CHUNK_SIZE);
    assert_eq!(chunks[1].data.len(), 1);
}

#[test]
fn encrypt_decrypt_round_trip() {
    let key = EncryptionKey::generate();
    let ct = encrypt(&key, b"secret-chunk").expect("encrypt");
    let pt = decrypt(&key, &ct).expect("decrypt");
    assert_eq!(pt, b"secret-chunk");
}

#[test]
fn ciphertext_is_nonce_body_and_tag() {
    let key = EncryptionKey::from_bytes(&[1u8; 32]).expect("key");
    let ct = encrypt(&key, b"hello").expect("encrypt");
    assert_eq!(ct.blob.len(), 12 + 5 + 16);
    let (nonce, body) = ct.parts().expect("parts");
    assert_eq!(nonce.len(), 12);
    assert_ne!(&body[..5], b"hello");
}

#[test]
fn decrypt_rejects_tampered_and_short_blobs() {
    let key = EncryptionKey::from_bytes(&[2u8; 32]).expect("key");
    let mut ct = encrypt(&key, b"payload").expect("encrypt");
    let last = ct.blob.len() - 1;
    ct.blob[last] ^= 1;
    assert_eq!(
        decrypt(&key, &ct).expect_err("tampered"),
        CoreError::Crypto("aead::Error".to_string())
    );
    let short = Ciphertext { blob: vec![0u8; 5] };
    assert_eq!(
        decrypt(&key, &short).expect_err("short"),
        CoreError::Crypto("ciphertext shorter than nonce".to_string())
    );
    let other = EncryptionKey::from_bytes(&[3u8; 32]).expect("key");
    let good = encrypt(&key, b"payload").expect("encrypt");
    assert!(decrypt(&other, &good).is_err());
}

#[test]
fn key_from_bytes_requires_32_bytes() {
    let err = EncryptionKey::from_bytes(&[0u8; 31]).err().expect("short key");
    assert_eq!(err, CoreError::InvalidKey("expected 32 bytes, got 31".to_string()));
    assert!(EncryptionKey::from_bytes(&[0u8; 32]).is_ok());
}

#[test]
fn key_base64_is_standard_padded() {
    let key = EncryptionKey::from_bytes(&[0u8; 32]).expect("key");
    assert_eq!(key.to_base64(), "AAAAAAAAAAAAAAAAAAAAAAAAAAAAAAAAAAAAAAAAAAA=");
    assert_eq!(proteus::cas::crypto::base64_encode(b"Man"), "TWFu");
    assert_eq!(proteus::cas::crypto::base64_encode(b"Ma"), "TWE=");
    assert_eq!(proteus::cas::crypto::base64_encode(b"M"), "TQ==");
    assert_eq!(proteus::cas::crypto::base64_encode(&[0xfb, 0xff]), "+/8=");
}

#[test]
fn encrypted_ingest_stores_ciphertext_not_plaintext() {
    let key = EncryptionKey::generate();
    let plaintext = b"very secret pvc contents".repeat(10);
    let ingest = plan_volume_ingest(Some(&key), "data", &plaintext);
    assert_eq!(ingest.snapshot.bytes, plaintext.len() as u64);
    assert_eq!(ingest.snapshot.chunk_ids.len(), 1);
    let id = ContentId::from_hex(&ingest.snapshot.chunk_ids[0]).expect("hex");
    assert_eq!(id, hash_bytes(&plaintext));
    let stored = &ingest.puts[0].payload;
    assert_ne!(stored.as_slice(), plaintext.as_slice());
    let ciphertext = Ciphertext { blob: stored.clone() };
    let decrypted = decrypt(&key, &ciphertext).expect("decrypt");
    assert_eq!(decrypted, plaintext);
}

#[test]
fn unencrypted_ingest_stores_plaintext() {
    let plaintext = b"not secret";
    let ingest = plan_volume_ingest(None, "data", plaintext);
    let id = ContentId::from_hex(&ingest.snapshot.chunk_ids[0]).expect("hex");
    assert_eq!(ingest.puts[0].id, id);
    assert_eq!(ingest.puts[0].payload.as_slice(), plaintext);
}

#[test]
fn create_snapshot_seals_manifest_and_reports_total_bytes() {
    let key = EncryptionKey::generate();
    let a = b"pvc-a-bytes".to_vec();
    let b = b"pvc-b-bytes-longer".to_vec();
    let inputs = vec![
        SnapshotInput { pvc_name: "pvc-a", data: &a },
        SnapshotInput { pvc_name: "pvc-b", data: &b },
    ];
    let (puts, manifest) =
        plan_snapshot(Some(&key), "2026-07-24T00:00:00Z".to_string(), &inputs);
    assert_eq!(manifest.total_bytes, (a.len() + b.len()) as u64);
    assert!(manifest.encrypted);
    assert_eq!(manifest.volumes.len(), 2);
    assert_eq!(manifest.version, MANIFEST_VERSION);
    assert_eq!(manifest.volumes[1].pvc_name, "pvc-b");
    assert_eq!(puts.len(), 2);
}

#[test]
fn expand_tilde() {
    let home = Some("/tmp/proteus-home-test".to_string());
    assert_eq!(
        expand_local_path("~/backup", home.clone()),
        "/tmp/proteus-home-test/backup"
    );
    assert_eq!(expand_local_path("~", home), "/tmp/proteus-home-test");
}

#[test]
fn expand_local_path_edge_cases() {
    assert_eq!(expand_local_path("   ", Some("/h".to_string())), "");
    assert_eq!(expand_local_path("~", None), "/");
    assert_eq!(expand_local_path("~/x", None), "~/x");
    assert_eq!(expand_local_path(" /var/repo ", None), "/var/repo");
    assert_eq!(expand_local_path("~//abs", Some("/h".to_string())), "/abs");
    assert_eq!(expand_local_path("~/x", Some("/h/".to_string())), "/h/x");
}

#[test]
fn probe_rejects_empty_path() {
    let err = LocalBackend::probe_target("  ", None).expect_err("empty");
    assert_eq!(
        err,
        CoreError::InvalidArgument("local backend path must not be empty".to_string())
    );
    assert_eq!(LocalBackend::probe_target("/srv", None).expect("ok"), "/srv");
}

#[test]
fn object_path_layout() {
    let store = LocalBackend::with_root("/repo".to_string());
    let id = hash_bytes(b"x");
    let hex = id.to_hex();
    assert_eq!(store.object_path(&id), format!("/repo/{}/{}.blob", &hex[..2], hex));
}

#[test]
fn blob_names_parse_back_to_ids() {
    let id = hash_bytes(b"blob");
    let name = format!("{}.blob", id.to_hex());
    assert_eq!(blob_id_from_file_name(&name), Some(id));
    assert_eq!(blob_id_from_file_name("notes.txt"), None);
    assert_eq!(blob_id_from_file_name("abcd.blob"), None);
    assert_eq!(blob_id_from_file_name(&format!("{}.blob.tmp", id.to_hex())), None);
}

#[test]
fn s3_backend_reports_not_implemented() {
    let backend = S3Backend::new(S3Config {
        bucket: "b1".to_string(),
        prefix: None,
        endpoint: None,
        region: None,
        force_path_style: true,
    });
    assert_eq!(backend.bucket(), "b1");
    let id = hash_bytes(b"x");
    assert_eq!(
        backend.unsupported(StoreOperation::Put, &id),
        CoreError::S3NotImplemented("put into bucket b1".to_string())
    );
    assert_eq!(
        backend.unsupported(StoreOperation::Get, &id),
        CoreError::S3NotImplemented(format!("get {} from bucket b1", id.to_hex()))
    );
}

#[test]
fn core_error_messages() {
    let e = CoreError::LocalIo { path: "/x".to_string(), source: "denied".to_string() };
    assert_eq!(e.message(), "local storage I/O error at /x: denied");
    assert_eq!(CoreError::NotFound("ab".to_string()).message(), "object not found: ab");
}

#[test]
fn distinct_objects_get_distinct_paths() {
    let store = LocalBackend::with_root("/repo".to_string());
    let a = hash_bytes(b"a");
    let b = hash_bytes(b"b");
    assert_ne!(store.object_path(&a), store.object_path(&b));
    assert_eq!(store.object_path(&a), store.object_path(&hash_bytes(b"a")));
}

#[test]
fn ingest_restores_multi_chunk_volume() {
    let key = EncryptionKey::generate();
    let data: Vec<u8> = (0..(2 * DEFAULT_CHUNK_SIZE + 17)).map(|i| (i % 251) as u8).collect();
    let ingest = plan_volume_ingest(Some(&key), "big", &data);
    assert_eq!(ingest.puts.len(), 3);
    assert_eq!(ingest.snapshot.chunk_ids.len(), 3);
    let mut restored = Vec::new();
    for (put, hex) in ingest.puts.iter().zip(ingest.snapshot.chunk_ids.iter()) {
        assert_eq!(ContentId::from_hex(hex).expect("hex"), put.id);
        let plain = decrypt(&key, &Ciphertext { blob: put.payload.clone() }).expect("decrypt");
        assert_eq!(hash_bytes(&plain), put.id);
        restored.extend_from_slice(&plain);
    }
    assert_eq!(restored, data);
}
