use noir::crypto::{credential_round_trip, decrypt_data, encrypt_data, md5_hash};
use noir::sql::statement_task_id;

#[test]
fn test_encrypt() {
    let data = String::from("{\"asd\":\"bs\",\"key\":\"val\",\"num\":4}");
    let encrypted = encrypt_data(&data, "magickey");
    assert_ne!(data, encrypted);
    let decrypted = decrypt_data(&encrypted, "magickey").unwrap();
    assert_eq!(data, decrypted);
}

#[test]
fn encrypt_round_trip_exact() {
    let cases = ["", "x", "hello world", "{\"user\":\"a\",\"password\":\"b\"}"];
    for case in cases {
        assert_eq!(credential_round_trip(case, "some key"), case);
    }
}

#[test]
fn encrypt_is_deterministic_per_key() {
    let a = encrypt_data("payload", "k");
    let b = encrypt_data("payload", "k");
    assert_eq!(a, b);
}

#[test]
fn decrypt_with_wrong_key_fails() {
    let blob = encrypt_data("{\"user\":\"a\"}", "right key");
    let res = decrypt_data(&blob, "wrong key");
    assert!(res.is_err());
}

#[test]
fn decrypt_garbage_fails() {
    assert!(decrypt_data("not base64 at all!!!", "k").is_err());
    assert!(decrypt_data("AAAA", "k").is_err());
}

#[test]
fn md5_hash_known_values() {
    assert_eq!(md5_hash("abc"), "900150983cd24fb0d6963f7d28e17f72");
    assert_eq!(md5_hash(""), "d41d8cd98f00b204e9800998ecf8427e");
}

#[test]
fn task_id_is_hash_of_parts() {
    let id = statement_task_id("conn-1", 3, "SELECT 1");
    assert_eq!(id, md5_hash("conn-13SELECT 1"));
    assert_eq!(id.len(), 32);
}
