use cipher_facade::{decrypt, encrypt, encrypt_twice_agrees, round_trip};

const SENTINEL: &str = "[ACCESS DENIED]";

#[test]
fn encrypt_then_decrypt_recovers_plaintext() {
    let c = encrypt("hello".to_owned(), "secret".to_owned());
    assert_eq!(decrypt(c, "secret".to_owned()), "hello");
}

#[test]
fn encrypt_changes_the_text() {
    let c = encrypt("hello".to_owned(), "secret".to_owned());
    assert_ne!(c, "hello");
}

#[test]
fn decrypt_changes_the_ciphertext() {
    let c = encrypt("hello".to_owned(), "secret".to_owned());
    let p = decrypt(c.clone(), "secret".to_owned());
    assert_ne!(p, c);
}

#[test]
fn known_ciphertext_vector() {
    let c = encrypt("http://magiclen.org".to_owned(), "magickey".to_owned());
    assert_eq!(c, "DS/2U8royDnJDiNY2ps3f6ZoTbpZo8ZtUGYLGEjwLDQ=");
}

#[test]
fn wrong_key_yields_sentinel() {
    let c = encrypt("hello".to_owned(), "secret".to_owned());
    assert_eq!(decrypt(c, "wrong".to_owned()), SENTINEL);
}

#[test]
fn malformed_base64_yields_sentinel() {
    assert_eq!(
        decrypt("not-valid-base64!!".to_owned(), "secret".to_owned()),
        SENTINEL
    );
    assert_eq!(
        decrypt("not-valid-base64!!".to_owned(), "another key".to_owned()),
        SENTINEL
    );
}

#[test]
fn encryption_is_deterministic() {
    let c1 = encrypt("same input".to_owned(), "same key".to_owned());
    let c2 = encrypt("same input".to_owned(), "same key".to_owned());
    assert_eq!(c1, c2);
    let (a, b) = encrypt_twice_agrees("same input".to_owned(), "same key".to_owned());
    assert_eq!(a, b);
}

#[test]
fn round_trip_on_empty_and_unusual_inputs() {
    assert_eq!(round_trip(String::new(), "key".to_owned()), "");
    assert_eq!(round_trip("data".to_owned(), String::new()), "data");
    assert_eq!(round_trip(String::new(), String::new()), "");
    let text = "héllo wörld — ünïcode ✓".to_owned();
    assert_eq!(round_trip(text.clone(), "k".to_owned()), text);
}

#[test]
fn tampered_ciphertext_yields_sentinel() {
    let c = encrypt("hello".to_owned(), "secret".to_owned());
    let flipped = if c.starts_with('A') { "B" } else { "A" };
    let mangled = format!("{}{}", flipped, &c[1..]);
    let p = decrypt(mangled, "secret".to_owned());
    assert!(p == SENTINEL || p != "hello");
}
