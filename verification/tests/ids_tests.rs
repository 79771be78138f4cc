use pastebin::{generate_paste_id, new_stored_name, paste_id_from_bytes, stored_name_for};

const CHARS: &[u8] = b"abcdefghijklmnopqrstuvwxyzABCDEFGHIJKLMNOPQRSTUVWXYZ0123456789";

fn reference_id(bytes: &[u8; 16]) -> String {
    (0..8).map(|i| CHARS[bytes[i % 16] as usize % CHARS.len()] as char).collect()
}

#[test]
fn paste_id_from_known_bytes() {
    let bytes: [u8; 16] = [0, 25, 26, 51, 52, 61, 62, 255, 1, 2, 3, 4, 5, 6, 7, 8];
    assert_eq!(paste_id_from_bytes(&bytes), "azAZ09ah");
    assert_eq!(paste_id_from_bytes(&bytes), reference_id(&bytes));
    let bytes: [u8; 16] = [200, 123, 77, 9, 180, 61, 99, 140, 0, 0, 0, 0, 0, 0, 0, 0];
    assert_eq!(paste_id_from_bytes(&bytes), reference_id(&bytes));
}

#[test]
fn generated_ids_are_eight_alphanumerics() {
    for _ in 0..50 {
        let id = generate_paste_id();
        assert_eq!(id.chars().count(), 8);
        assert!(id.chars().all(|c| c.is_ascii_alphanumeric()));
    }
}

#[test]
fn stored_name_is_uuid_hex_and_extension() {
    let bytes: [u8; 16] = [0x00, 0x01, 0xab, 0xcd, 0xef, 0x10, 0x4f, 0xff, 0x80, 0x09, 0x90, 0x12, 0x34, 0x56, 0x78, 0x9a];
    let expected_hex = uuid::Uuid::from_bytes(bytes).simple().to_string();
    assert_eq!(expected_hex, "0001abcdef104fff800990123456789a");
    assert_eq!(stored_name_for(&bytes, Some("png".to_string())), format!("{}.png", expected_hex));
    assert_eq!(stored_name_for(&bytes, None), format!("{}.", expected_hex));
}

#[test]
fn new_stored_name_keeps_the_extension() {
    for (name, ext) in [("photo.png", "png"), ("a.tar.gz", "gz"), ("noext", ""), (".bashrc", ""), ("dir/x.TXT", "TXT"), ("", "")] {
        let stored = new_stored_name(name);
        let (hex, rest) = stored.split_at(32);
        assert!(hex.chars().all(|c| c.is_ascii_hexdigit() && !c.is_ascii_uppercase()), "{}", stored);
        assert_eq!(rest, format!(".{}", ext), "{}", name);
    }
}
