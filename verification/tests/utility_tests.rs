use big_button::utility::{deobfuscate, XOR_KEY};

fn obfuscate(secret: &str) -> Vec<u8> {
    secret.bytes().map(|b| b ^ XOR_KEY).collect()
}

#[test]
fn deobfuscate_recovers_secret() {
    let bytes = obfuscate("Area51HasNoAliens");
    assert_eq!(deobfuscate(&bytes).as_str(), "Area51HasNoAliens");
}

#[test]
fn deobfuscate_empty() {
    assert_eq!(deobfuscate(&[]).as_str(), "");
}

#[test]
fn deobfuscate_known_bytes() {
    // 'A' = 0x41, 0x41 ^ 0xA5 = 0xE4
    assert_eq!(deobfuscate(&[0xE4, 0xE4]).as_str(), "AA");
}

#[test]
fn deobfuscate_truncates_at_capacity() {
    let secret: String = std::iter::repeat('x').take(300).collect();
    let result = deobfuscate(&obfuscate(&secret));
    assert_eq!(result.len(), 256);
    assert_eq!(result.as_str(), &secret[..256]);
}

#[test]
fn deobfuscate_two_byte_characters() {
    // 0x00 ^ 0xA5 = 0xA5 = '\u{a5}', two bytes in UTF-8
    let result = deobfuscate(&[0x00; 200]);
    assert_eq!(result.chars().count(), 128);
    assert_eq!(result.len(), 256);
    assert!(result.chars().all(|c| c == '\u{a5}'));
}

#[test]
fn deobfuscate_skips_what_does_not_fit_and_goes_on() {
    let mut bytes = obfuscate(&"y".repeat(255));
    bytes.push(0x00); // '\u{a5}' needs two bytes, only one is left
    bytes.push(b'z' ^ XOR_KEY); // one byte still fits
    let result = deobfuscate(&bytes);
    assert_eq!(result.len(), 256);
    assert!(result.as_str().ends_with("yz"));
    assert!(!result.as_str().contains('\u{a5}'));
}

#[test]
fn deobfuscate_recovers_non_ascii_secret() {
    assert_eq!(deobfuscate(&obfuscate("é")).as_str(), "é");
    assert_eq!(deobfuscate(&obfuscate("Grüße, 世界 😀")).as_str(), "Grüße, 世界 😀");
}

#[test]
fn deobfuscate_multibyte_truncates_at_capacity() {
    let secret = format!("{}a", "é".repeat(129));
    let result = deobfuscate(&obfuscate(&secret));
    assert_eq!(result.as_str(), "é".repeat(128));
    assert_eq!(result.len(), 256);
}

#[test]
fn deobfuscate_invalid_utf8_one_char_per_byte() {
    // plain bytes 0x41 0xFF: 0xFF is never valid UTF-8
    let result = deobfuscate(&[0x41 ^ XOR_KEY, 0xFF ^ XOR_KEY]);
    assert_eq!(result.as_str(), "A\u{ff}");
}
