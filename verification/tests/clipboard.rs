use base64::engine::general_purpose::STANDARD;
use base64::Engine;
use chacha20poly1305::aead::Aead;
use chacha20poly1305::{ChaCha20Poly1305, Key, KeyInit, Nonce};
use ghost_shell::cipher::{
    can_decrypt, can_encrypt, check_authentic, decrypt, encrypt, encrypt_with, generate_key,
    generate_nonce, KEY_LEN, MAX_PAYLOAD_LEN, NONCE_LEN, TAG_LEN,
};
use ghost_shell::clipboard::{
    decrypt_fields, encrypted_plan, plain_plan, plaintext_string, SecureClipboard,
};
use ghost_shell::envelope::{format_envelope, parse_envelope};
use ghost_shell::error::ClipboardError;

const GENERIC: &str = "Decryption failed. Wrong key or corrupted data.";

fn key_in(message: &str) -> String {
    let start = message.find("KEY: ").unwrap() + 5;
    let end = message[start..].find("\r\n").unwrap() + start;
    message[start..end].to_string()
}

fn copy(text: &str, encrypt: bool, timeout: u64) -> ghost_shell::clipboard::CopyPlan {
    let mut owned = text.to_string();
    SecureClipboard::new(encrypt).copy_with_timeout(&mut owned, timeout).unwrap()
}

fn replace_char(s: &str, i: usize, c: char) -> String {
    let mut chars: Vec<char> = s.chars().collect();
    assert_ne!(chars[i], c);
    chars[i] = c;
    chars.into_iter().collect()
}

fn flip_char(s: &str, i: usize) -> String {
    let c = s.chars().nth(i).unwrap();
    replace_char(s, i, if c == 'A' { 'B' } else { 'A' })
}

#[test]
fn constants_are_the_cipher_sizes() {
    assert_eq!(KEY_LEN, 32);
    assert_eq!(NONCE_LEN, 12);
    assert_eq!(TAG_LEN, 16);
}

#[test]
fn generated_key_and_nonce_have_their_lengths() {
    let k1 = generate_key().unwrap();
    let k2 = generate_key().unwrap();
    assert_eq!(k1.len(), 32);
    assert_eq!(k2.len(), 32);
    assert_ne!(k1, k2);
    assert_ne!(k1, vec![0u8; 32]);
    let n1 = generate_nonce().unwrap();
    let n2 = generate_nonce().unwrap();
    assert_eq!(n1.len(), 12);
    assert_ne!(n1, n2);
}

#[test]
fn cipher_round_trip() {
    for payload in [&b""[..], b"a", b"secret", &[0u8, 255, 7, 9], &[42u8; 1000]] {
        let sealed = encrypt(payload).unwrap();
        assert_eq!(sealed.key.len(), 32);
        assert_eq!(sealed.nonce.len(), 12);
        assert_eq!(sealed.ciphertext.len(), payload.len() + 16);
        let mut key = sealed.key.clone();
        let mut nonce = sealed.nonce.clone();
        assert_eq!(decrypt(&mut key, &mut nonce, &sealed.ciphertext), Ok(payload.to_vec()));
    }
}

#[test]
fn ciphertext_is_not_the_payload() {
    let payload = b"a secret that must not be readable";
    let sealed = encrypt(payload).unwrap();
    assert_ne!(&sealed.ciphertext[..payload.len()], &payload[..]);
}

#[test]
fn encrypt_with_is_the_crates_cipher() {
    let key = [7u8; 32];
    let nonce = [9u8; 12];
    let payload = b"secret";
    let got = encrypt_with(payload, &key, &nonce).unwrap();
    let want = ChaCha20Poly1305::new(Key::from_slice(&key))
        .encrypt(Nonce::from_slice(&nonce), &payload[..])
        .unwrap();
    assert_eq!(got, want);
    assert_eq!(got.len(), 22);
}

#[test]
fn decrypt_reads_what_the_crates_cipher_wrote() {
    let key = [1u8; 32];
    let nonce = [2u8; 12];
    let ciphertext = ChaCha20Poly1305::new(Key::from_slice(&key))
        .encrypt(Nonce::from_slice(&nonce), &b"from outside"[..])
        .unwrap();
    assert_eq!(
        decrypt(&mut key.to_vec(), &mut nonce.to_vec(), &ciphertext),
        Ok(b"from outside".to_vec())
    );
}

#[test]
fn rfc_8439_ciphertext() {
    let key: Vec<u8> = (0x80u8..=0x9f).collect();
    let nonce = [0x07u8, 0, 0, 0, 0x40, 0x41, 0x42, 0x43, 0x44, 0x45, 0x46, 0x47];
    let payload = b"Ladies and Gentlemen of the class of '99: If I could offer you only one tip for the future, sunscreen would be it.";
    let got = encrypt_with(payload, &key, &nonce).unwrap();
    assert_eq!(got.len(), payload.len() + 16);
    assert_eq!(&got[..8], &[0xd3, 0x1a, 0x8d, 0x34, 0x64, 0x8e, 0x60, 0xdb]);
}

#[test]
fn encrypt_with_rejects_wrong_lengths() {
    assert_eq!(encrypt_with(b"x", &[0u8; 31], &[0u8; 12]), Err(ClipboardError::EncryptionError));
    assert_eq!(encrypt_with(b"x", &[0u8; 33], &[0u8; 12]), Err(ClipboardError::EncryptionError));
    assert_eq!(encrypt_with(b"x", &[0u8; 32], &[0u8; 11]), Err(ClipboardError::EncryptionError));
    assert_eq!(encrypt_with(b"x", &[0u8; 32], &[0u8; 24]), Err(ClipboardError::EncryptionError));
    assert_eq!(encrypt_with(b"x", &[], &[]), Err(ClipboardError::EncryptionError));
}

#[test]
fn can_encrypt_follows_the_cipher_limit() {
    assert_eq!(MAX_PAYLOAD_LEN, 64 * 0xFFFF_FFFE);
    assert_eq!(MAX_PAYLOAD_LEN, 274_877_906_816);
    assert!(can_encrypt(0));
    assert!(can_encrypt(6));
    assert!(can_encrypt(64 * 0xFFFF_FFFE - 1));
    assert!(can_encrypt(64 * 0xFFFF_FFFE));
    assert!(!can_encrypt(64 * 0xFFFF_FFFE + 1));
    assert!(!can_encrypt(64 * 0xFFFF_FFFF - 1));
    assert!(!can_encrypt(64 * 0xFFFF_FFFF));
    assert!(!can_encrypt(usize::MAX));
    assert!(!can_encrypt(usize::MAX / 2));
}

#[test]
fn can_decrypt_follows_the_cipher_limit() {
    assert!(can_decrypt(0));
    assert!(can_decrypt(15));
    assert!(can_decrypt(16));
    assert!(can_decrypt(22));
    assert!(can_decrypt(64 * 0xFFFF_FFFE + 16));
    assert!(!can_decrypt(64 * 0xFFFF_FFFE + 17));
    assert!(!can_decrypt(64 * 0xFFFF_FFFF));
    assert!(!can_decrypt(usize::MAX));
}

#[test]
fn payload_of_several_blocks_round_trips() {
    for len in [63usize, 64, 65, 127, 128, 129, 4096, 70_001] {
        let payload: Vec<u8> = (0..len).map(|i| (i % 251) as u8).collect();
        let key = [11u8; 32];
        let nonce = [13u8; 12];
        let ciphertext = encrypt_with(&payload, &key, &nonce).unwrap();
        assert_eq!(ciphertext.len(), len + 16);
        assert_eq!(decrypt(&mut key.to_vec(), &mut nonce.to_vec(), &ciphertext), Ok(payload));
    }
}

#[test]
fn decrypt_erases_key_and_nonce() {
    let sealed = encrypt(b"secret").unwrap();
    let mut key = sealed.key.clone();
    let mut nonce = sealed.nonce.clone();
    assert!(decrypt(&mut key, &mut nonce, &sealed.ciphertext).is_ok());
    assert!(key.is_empty());
    assert!(nonce.is_empty());

    let mut key = vec![1u8; 32];
    let mut nonce = vec![2u8; 12];
    assert!(decrypt(&mut key, &mut nonce, &sealed.ciphertext).is_err());
    assert!(key.is_empty());
    assert!(nonce.is_empty());

    let mut key = vec![1u8; 5];
    let mut nonce = vec![2u8; 5];
    assert!(decrypt(&mut key, &mut nonce, &sealed.ciphertext).is_err());
    assert!(key.is_empty());
    assert!(nonce.is_empty());
}

#[test]
fn tampering_with_any_ciphertext_byte_is_detected() {
    let sealed = encrypt(b"secret").unwrap();
    for i in 0..sealed.ciphertext.len() {
        let mut forged = sealed.ciphertext.clone();
        forged[i] ^= 0x01;
        assert_eq!(
            decrypt(&mut sealed.key.clone(), &mut sealed.nonce.clone(), &forged),
            Err(ClipboardError::AuthenticationFailed),
            "byte {}",
            i
        );
    }
}

#[test]
fn tampering_with_any_nonce_byte_is_detected() {
    let sealed = encrypt(b"secret").unwrap();
    for i in 0..sealed.nonce.len() {
        let mut forged = sealed.nonce.clone();
        forged[i] ^= 0x80;
        assert_eq!(
            decrypt(&mut sealed.key.clone(), &mut forged, &sealed.ciphertext),
            Err(ClipboardError::AuthenticationFailed),
            "byte {}",
            i
        );
    }
}

#[test]
fn truncated_ciphertext_is_detected() {
    let sealed = encrypt(b"secret").unwrap();
    for len in [0, 1, 15, 16, 21] {
        assert_eq!(
            decrypt(&mut sealed.key.clone(), &mut sealed.nonce.clone(), &sealed.ciphertext[..len]),
            Err(ClipboardError::AuthenticationFailed),
            "length {}",
            len
        );
    }
}

#[test]
fn wrong_key_is_detected() {
    let sealed = encrypt(b"secret").unwrap();
    let mut other = generate_key().unwrap();
    assert_ne!(other, sealed.key);
    assert_eq!(
        decrypt(&mut other, &mut sealed.nonce.clone(), &sealed.ciphertext),
        Err(ClipboardError::AuthenticationFailed)
    );
    let mut one_bit = sealed.key.clone();
    one_bit[31] ^= 1;
    assert_eq!(
        decrypt(&mut one_bit, &mut sealed.nonce.clone(), &sealed.ciphertext),
        Err(ClipboardError::AuthenticationFailed)
    );
}

#[test]
fn wrong_lengths_are_format_errors() {
    let sealed = encrypt(b"secret").unwrap();
    for len in [0usize, 1, 16, 31, 33, 64] {
        assert_eq!(
            decrypt(&mut vec![0u8; len], &mut sealed.nonce.clone(), &sealed.ciphertext),
            Err(ClipboardError::FormatError),
            "key length {}",
            len
        );
    }
    for len in [0usize, 1, 8, 11, 13, 24] {
        assert_eq!(
            decrypt(&mut sealed.key.clone(), &mut vec![0u8; len], &sealed.ciphertext),
            Err(ClipboardError::FormatError),
            "nonce length {}",
            len
        );
    }
}

#[test]
fn check_authentic_maps_the_ciphers_answer() {
    assert_eq!(check_authentic(Some(vec![1, 2, 3])), Ok(vec![1, 2, 3]));
    assert_eq!(check_authentic(Some(vec![])), Ok(vec![]));
    assert_eq!(check_authentic(None), Err(ClipboardError::AuthenticationFailed));
}

#[test]
fn envelope_format() {
    assert_eq!(format_envelope("bm9uY2U=", "Y2lwaGVy"), "GHOST_ENCRYPTED:bm9uY2U=:Y2lwaGVy");
    assert_eq!(format_envelope("", ""), "GHOST_ENCRYPTED::");
}

#[test]
fn envelope_parse() {
    assert_eq!(
        parse_envelope("GHOST_ENCRYPTED:bm9uY2U=:Y2lwaGVy"),
        Ok(("bm9uY2U=".to_string(), "Y2lwaGVy".to_string()))
    );
    assert_eq!(parse_envelope("GHOST_ENCRYPTED::"), Ok((String::new(), String::new())));
    assert_eq!(parse_envelope("GHOST_ENCRYPTED:a:"), Ok(("a".to_string(), String::new())));
}

#[test]
fn text_without_the_tag_is_not_encrypted() {
    for text in [
        "",
        "hello",
        "secret",
        "GHOST_ENCRYPTED",
        "ghost_encrypted:a:b",
        " GHOST_ENCRYPTED:a:b",
        "ENCRYPTED:a:b",
        "a:b",
    ] {
        assert_eq!(parse_envelope(text), Err(ClipboardError::NotEncrypted), "{:?}", text);
    }
}

#[test]
fn wrong_field_count_is_a_format_error() {
    for text in [
        "GHOST_ENCRYPTED:",
        "GHOST_ENCRYPTED:abc",
        "GHOST_ENCRYPTED:a:b:c",
        "GHOST_ENCRYPTED:::",
        "GHOST_ENCRYPTED:a:b:",
    ] {
        assert_eq!(parse_envelope(text), Err(ClipboardError::FormatError), "{:?}", text);
    }
}

#[test]
fn envelope_round_trip() {
    let text = format_envelope("AAAA", "BBBB+/==");
    assert_eq!(parse_envelope(&text), Ok(("AAAA".to_string(), "BBBB+/==".to_string())));
}

#[test]
fn plain_copy_with_timeout() {
    let plan = copy("hello", false, 30);
    assert_eq!(plan.clipboard_text, "hello");
    assert_eq!(plan.message, "DATA INJECTED TO CLIPBOARD. AUTO-CLEAR IN 30s.");
    assert_eq!(plan.clear_after, Some(30));
}

#[test]
fn plain_copy_without_timeout() {
    let plan = copy("hello", false, 0);
    assert_eq!(plan.clipboard_text, "hello");
    assert_eq!(
        plan.message,
        "DATA INJECTED TO CLIPBOARD. NO AUTO-CLEAR. PERSISTS UNTIL MANUAL CLEAR."
    );
    assert_eq!(plan.clear_after, None);
}

#[test]
fn plain_plan_is_verbatim() {
    let plan = plain_plan("GHOST_ENCRYPTED:not really\n", 1);
    assert_eq!(plan.clipboard_text, "GHOST_ENCRYPTED:not really\n");
    assert_eq!(plan.message, "DATA INJECTED TO CLIPBOARD. AUTO-CLEAR IN 1s.");
    assert_eq!(plan.clear_after, Some(1));
    let plan = plain_plan("x", u64::MAX);
    assert_eq!(plan.message, "DATA INJECTED TO CLIPBOARD. AUTO-CLEAR IN 18446744073709551615s.");
    assert_eq!(plan.clear_after, Some(u64::MAX));
}

#[test]
fn copy_erases_the_callers_text() {
    for encrypt in [false, true] {
        let mut text = String::from("secret");
        let plan = SecureClipboard::new(encrypt).copy_with_timeout(&mut text, 30);
        assert!(plan.is_ok());
        assert!(text.is_empty());
    }
}

#[test]
fn channel_remembers_its_mode() {
    assert!(SecureClipboard::new(true).encryption_enabled());
    assert!(!SecureClipboard::new(false).encryption_enabled());
}

#[test]
fn encrypted_copy_scenario() {
    let plan = copy("secret", true, 30);
    assert_eq!(plan.clear_after, Some(30));

    let key = key_in(&plan.message);
    assert_eq!(key.len(), 44);
    assert_eq!(STANDARD.decode(&key).unwrap().len(), 32);
    assert_eq!(
        plan.message,
        format!(
            "ENCRYPTED DATA INJECTED. KEY: {}\r\nAUTO-CLEAR IN 30s.\r\nUse ::decrypt to recover.",
            key
        )
    );

    assert!(plan.clipboard_text.starts_with("GHOST_ENCRYPTED:"));
    let fields: Vec<&str> = plan.clipboard_text["GHOST_ENCRYPTED:".len()..].split(':').collect();
    assert_eq!(fields.len(), 2);
    assert_eq!(fields[0].len(), 16);
    assert_eq!(STANDARD.decode(fields[0]).unwrap().len(), 12);
    assert_eq!(STANDARD.decode(fields[1]).unwrap().len(), "secret".len() + 16);
    assert_ne!(&STANDARD.decode(fields[1]).unwrap()[..6], &b"secret"[..]);

    let channel = SecureClipboard::new(false);
    assert_eq!(channel.decrypt_clipboard(&plan.clipboard_text, &key), Ok("secret".to_string()));

    // Each of the first 42 characters carries six bits of the key: any other
    // character there is another well-formed key.
    for i in 0..42 {
        let mutated = flip_char(&key, i);
        let r = channel.decrypt_clipboard(&plan.clipboard_text, &mutated);
        assert_eq!(r, Err(ClipboardError::AuthenticationFailed), "character {}", i);
        assert_eq!(r.unwrap_err().message(), GENERIC);
    }

    // The 43rd character carries the last four bits of the key and two bits
    // that must be zero. Another character with those two bits zero is
    // another well-formed key; one without them is not base64 of anything.
    let last = key.chars().nth(42).unwrap();
    let other_key = replace_char(&key, 42, if last == 'A' { 'E' } else { 'A' });
    assert_eq!(STANDARD.decode(&other_key).unwrap().len(), 32);
    let r = channel.decrypt_clipboard(&plan.clipboard_text, &other_key);
    assert_eq!(r, Err(ClipboardError::AuthenticationFailed));
    assert_eq!(r.unwrap_err().message(), GENERIC);

    let no_key = replace_char(&key, 42, 'B');
    assert!(STANDARD.decode(&no_key).is_err());
    let r = channel.decrypt_clipboard(&plan.clipboard_text, &no_key);
    assert_eq!(r, Err(ClipboardError::FormatError));
    assert_eq!(r.unwrap_err().message(), GENERIC);

    // Without its padding the text decodes to 33 bytes, which is no key.
    let too_long = replace_char(&key, 43, 'A');
    assert_eq!(STANDARD.decode(&too_long).unwrap().len(), 33);
    let r = channel.decrypt_clipboard(&plan.clipboard_text, &too_long);
    assert_eq!(r, Err(ClipboardError::FormatError));
    assert_eq!(r.unwrap_err().message(), GENERIC);
}

#[test]
fn mutated_characters_of_a_key_that_ends_in_zero_bits() {
    let key = [0u8; 32];
    let nonce = [5u8; 12];
    let plan = encrypted_plan("secret", &key, &nonce, 30).unwrap();
    let key_text = STANDARD.encode(key);
    assert_eq!(key_text, "AAAAAAAAAAAAAAAAAAAAAAAAAAAAAAAAAAAAAAAAAAA=");
    let channel = SecureClipboard::new(true);
    assert_eq!(channel.decrypt_clipboard(&plan.clipboard_text, &key_text), Ok("secret".to_string()));

    for i in 0..42 {
        let r = channel.decrypt_clipboard(&plan.clipboard_text, &replace_char(&key_text, i, 'B'));
        assert_eq!(r, Err(ClipboardError::AuthenticationFailed), "character {}", i);
    }
    assert_eq!(
        channel.decrypt_clipboard(&plan.clipboard_text, &replace_char(&key_text, 42, 'E')),
        Err(ClipboardError::AuthenticationFailed)
    );
    for c in ['B', 'C', 'D', 'F', '/'] {
        assert_eq!(
            channel.decrypt_clipboard(&plan.clipboard_text, &replace_char(&key_text, 42, c)),
            Err(ClipboardError::FormatError),
            "character {:?}",
            c
        );
    }
    for c in ['A', ':', ' ', '-'] {
        assert_eq!(
            channel.decrypt_clipboard(&plan.clipboard_text, &replace_char(&key_text, 43, c)),
            Err(ClipboardError::FormatError),
            "character {:?}",
            c
        );
    }
}

#[test]
fn encrypted_copy_without_timeout() {
    let plan = copy("secret", true, 0);
    assert_eq!(plan.clear_after, None);
    let key = key_in(&plan.message);
    assert_eq!(
        plan.message,
        format!(
            "ENCRYPTED DATA INJECTED. KEY: {}\r\nNO AUTO-CLEAR. PERSISTS UNTIL MANUAL CLEAR.\r\nUse ::decrypt to recover.",
            key
        )
    );
}

#[test]
fn round_trip_through_the_clipboard() {
    let channel = SecureClipboard::new(true);
    for text in ["s", "secret", "héllo ✓ wörld", "two\nlines: with colons", "GHOST_ENCRYPTED:a:b", " "] {
        let plan = copy(text, true, 5);
        let key = key_in(&plan.message);
        assert_eq!(channel.decrypt_clipboard(&plan.clipboard_text, &key), Ok(text.to_string()));
    }
    let long: String = "x".repeat(100_000);
    let plan = copy(&long, true, 5);
    assert_eq!(channel.decrypt_clipboard(&plan.clipboard_text, &key_in(&plan.message)), Ok(long));
}

#[test]
fn every_copy_has_a_fresh_key_and_nonce() {
    let a = copy("secret", true, 30);
    let b = copy("secret", true, 30);
    assert_ne!(key_in(&a.message), key_in(&b.message));
    assert_ne!(a.clipboard_text, b.clipboard_text);
    let channel = SecureClipboard::new(true);
    assert_eq!(
        channel.decrypt_clipboard(&a.clipboard_text, &key_in(&b.message)),
        Err(ClipboardError::AuthenticationFailed)
    );
}

#[test]
fn encrypted_plan_under_a_given_key() {
    let key = [3u8; 32];
    let nonce = [5u8; 12];
    let plan = encrypted_plan("secret", &key, &nonce, 30).unwrap();
    let ciphertext = ChaCha20Poly1305::new(Key::from_slice(&key))
        .encrypt(Nonce::from_slice(&nonce), &b"secret"[..])
        .unwrap();
    assert_eq!(
        plan.clipboard_text,
        format!("GHOST_ENCRYPTED:{}:{}", STANDARD.encode(nonce), STANDARD.encode(ciphertext))
    );
    assert_eq!(plan.clipboard_text.split(':').nth(1), Some("BQUFBQUFBQUFBQUF"));
    assert_eq!(
        plan.message,
        "ENCRYPTED DATA INJECTED. KEY: AwMDAwMDAwMDAwMDAwMDAwMDAwMDAwMDAwMDAwMDAwM=\r\nAUTO-CLEAR IN 30s.\r\nUse ::decrypt to recover."
    );
    assert_eq!(plan.clear_after, Some(30));
    assert_eq!(
        SecureClipboard::new(true).decrypt_clipboard(
            &plan.clipboard_text,
            "AwMDAwMDAwMDAwMDAwMDAwMDAwMDAwMDAwMDAwMDAwM="
        ),
        Ok("secret".to_string())
    );
}

#[test]
fn encrypted_plan_rejects_wrong_lengths() {
    assert_eq!(
        encrypted_plan("secret", &[0u8; 16], &[0u8; 12], 30).err(),
        Some(ClipboardError::EncryptionError)
    );
    assert_eq!(
        encrypted_plan("secret", &[0u8; 32], &[0u8; 8], 30).err(),
        Some(ClipboardError::EncryptionError)
    );
}

#[test]
fn decrypting_plain_clipboard_text_is_refused() {
    let channel = SecureClipboard::new(true);
    let key = STANDARD.encode([0u8; 32]);
    for text in ["", "hello", "just some text: with a colon"] {
        assert_eq!(channel.decrypt_clipboard(text, &key), Err(ClipboardError::NotEncrypted));
        assert_eq!(channel.decrypt_clipboard(text, "not base64 at all"), Err(ClipboardError::NotEncrypted));
    }
    assert_eq!(
        ClipboardError::NotEncrypted.message(),
        "Clipboard does not contain encrypted Ghost Shell data."
    );
}

#[test]
fn malformed_envelopes_are_format_errors() {
    let channel = SecureClipboard::new(true);
    let plan = copy("secret", true, 30);
    let key = key_in(&plan.message);
    let fields: Vec<&str> = plan.clipboard_text["GHOST_ENCRYPTED:".len()..].split(':').collect();

    let one_field = format!("GHOST_ENCRYPTED:{}", fields[0]);
    assert_eq!(channel.decrypt_clipboard(&one_field, &key), Err(ClipboardError::FormatError));
    let three_fields = format!("{}:{}", plan.clipboard_text, fields[1]);
    assert_eq!(channel.decrypt_clipboard(&three_fields, &key), Err(ClipboardError::FormatError));

    let bad_nonce = format!("GHOST_ENCRYPTED:{}:{}", "!!!!", fields[1]);
    assert_eq!(channel.decrypt_clipboard(&bad_nonce, &key), Err(ClipboardError::FormatError));
    let bad_ciphertext = format!("GHOST_ENCRYPTED:{}:{}", fields[0], "not base64");
    assert_eq!(channel.decrypt_clipboard(&bad_ciphertext, &key), Err(ClipboardError::FormatError));
    assert_eq!(
        channel.decrypt_clipboard(&plan.clipboard_text, "not base64"),
        Err(ClipboardError::FormatError)
    );
    assert_eq!(channel.decrypt_clipboard(&plan.clipboard_text, ""), Err(ClipboardError::FormatError));
}

#[test]
fn key_or_nonce_of_wrong_length_is_a_format_error() {
    let channel = SecureClipboard::new(true);
    let plan = copy("secret", true, 30);
    let key = key_in(&plan.message);
    let fields: Vec<&str> = plan.clipboard_text["GHOST_ENCRYPTED:".len()..].split(':').collect();

    for len in [0usize, 16, 31, 33] {
        let short_key = STANDARD.encode(vec![0u8; len]);
        assert_eq!(
            channel.decrypt_clipboard(&plan.clipboard_text, &short_key),
            Err(ClipboardError::FormatError),
            "key length {}",
            len
        );
    }
    for len in [0usize, 11, 13, 24] {
        let text = format!("GHOST_ENCRYPTED:{}:{}", STANDARD.encode(vec![0u8; len]), fields[1]);
        assert_eq!(
            channel.decrypt_clipboard(&text, &key),
            Err(ClipboardError::FormatError),
            "nonce length {}",
            len
        );
    }
}

#[test]
fn tampered_envelope_fails_authentication() {
    let channel = SecureClipboard::new(true);
    let plan = copy("secret", true, 30);
    let key = key_in(&plan.message);
    let fields: Vec<&str> = plan.clipboard_text["GHOST_ENCRYPTED:".len()..].split(':').collect();
    let nonce = STANDARD.decode(fields[0]).unwrap();
    let ciphertext = STANDARD.decode(fields[1]).unwrap();

    for i in 0..ciphertext.len() {
        let mut forged = ciphertext.clone();
        forged[i] ^= 0x10;
        let text = format_envelope(fields[0], &STANDARD.encode(&forged));
        assert_eq!(channel.decrypt_clipboard(&text, &key), Err(ClipboardError::AuthenticationFailed));
    }
    for i in 0..nonce.len() {
        let mut forged = nonce.clone();
        forged[i] ^= 0x10;
        let text = format_envelope(&STANDARD.encode(&forged), fields[1]);
        assert_eq!(channel.decrypt_clipboard(&text, &key), Err(ClipboardError::AuthenticationFailed));
    }
}

#[test]
fn payload_that_is_not_utf8_is_a_format_error() {
    let key = [3u8; 32];
    let nonce = [5u8; 12];
    let ciphertext = encrypt_with(&[0xff, 0xfe, 0x80], &key, &nonce).unwrap();
    let text = format_envelope(&STANDARD.encode(nonce), &STANDARD.encode(ciphertext));
    assert_eq!(
        SecureClipboard::new(true).decrypt_clipboard(&text, &STANDARD.encode(key)),
        Err(ClipboardError::FormatError)
    );
}

#[test]
fn plaintext_string_checks_utf8() {
    assert_eq!(plaintext_string(Ok(b"secret".to_vec())), Ok("secret".to_string()));
    assert_eq!(plaintext_string(Ok("héllo ✓".as_bytes().to_vec())), Ok("héllo ✓".to_string()));
    assert_eq!(plaintext_string(Ok(vec![])), Ok(String::new()));
    assert_eq!(plaintext_string(Ok(vec![0xff])), Err(ClipboardError::FormatError));
    assert_eq!(plaintext_string(Ok(vec![0xc3])), Err(ClipboardError::FormatError));
    assert_eq!(plaintext_string(Ok(vec![0xed, 0xa0, 0x80])), Err(ClipboardError::FormatError));
    assert_eq!(
        plaintext_string(Err(ClipboardError::AuthenticationFailed)),
        Err(ClipboardError::AuthenticationFailed)
    );
    assert_eq!(plaintext_string(Err(ClipboardError::FormatError)), Err(ClipboardError::FormatError));
}

#[test]
fn decrypt_fields_needs_all_three() {
    let key = vec![3u8; 32];
    let nonce = vec![5u8; 12];
    let ciphertext = encrypt_with(b"secret", &key, &nonce).unwrap();
    assert_eq!(
        decrypt_fields(Some(key.clone()), Some(nonce.clone()), Some(ciphertext.clone())),
        Ok("secret".to_string())
    );
    assert_eq!(
        decrypt_fields(None, Some(nonce.clone()), Some(ciphertext.clone())),
        Err(ClipboardError::FormatError)
    );
    assert_eq!(
        decrypt_fields(Some(key.clone()), None, Some(ciphertext.clone())),
        Err(ClipboardError::FormatError)
    );
    assert_eq!(
        decrypt_fields(Some(key.clone()), Some(nonce.clone()), None),
        Err(ClipboardError::FormatError)
    );
    assert_eq!(decrypt_fields(None, None, None), Err(ClipboardError::FormatError));
    assert_eq!(
        decrypt_fields(Some(vec![0u8; 31]), Some(nonce.clone()), Some(ciphertext.clone())),
        Err(ClipboardError::FormatError)
    );
    assert_eq!(
        decrypt_fields(Some(vec![9u8; 32]), Some(nonce), Some(ciphertext)),
        Err(ClipboardError::AuthenticationFailed)
    );
}

#[test]
fn error_messages() {
    assert_eq!(ClipboardError::ClipboardAccessError.message(), "Failed to access clipboard.");
    assert_eq!(ClipboardError::EncryptionError.message(), "Encryption failed.");
    assert_eq!(
        ClipboardError::NotEncrypted.message(),
        "Clipboard does not contain encrypted Ghost Shell data."
    );
    assert_eq!(ClipboardError::FormatError.message(), GENERIC);
    assert_eq!(ClipboardError::AuthenticationFailed.message(), GENERIC);
}
