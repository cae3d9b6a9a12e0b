use ws_gateway::gen_uuid;

fn is_lower_hex(c: char) -> bool {
    c.is_ascii_digit() || ('a'..='f').contains(&c)
}

#[test]
fn minted_id_has_the_canonical_shape() {
    for _ in 0..200 {
        let id = gen_uuid();
        let chars: Vec<char> = id.chars().collect();
        assert_eq!(chars.len(), 36, "{}", id);
        for (i, c) in chars.iter().enumerate() {
            if i == 8 || i == 13 || i == 18 || i == 23 {
                assert_eq!(*c, '-', "{}", id);
            } else {
                assert!(is_lower_hex(*c), "{}", id);
            }
        }
        assert_eq!(chars[14], '4', "{}", id);
        assert!(matches!(chars[19], '8' | '9' | 'a' | 'b'), "{}", id);
    }
}

#[test]
fn minted_id_reads_back_as_a_random_uuid() {
    let id = gen_uuid();
    let read = uuid::Uuid::parse_str(&id).unwrap();
    assert_eq!(read.get_version_num(), 4);
    assert_eq!(read.get_variant(), uuid::Variant::RFC4122);
    assert_eq!(read.to_string(), id);
}

#[test]
fn minted_ids_differ() {
    let mut seen: Vec<String> = Vec::new();
    for _ in 0..500 {
        let id = gen_uuid();
        assert!(!seen.contains(&id));
        seen.push(id);
    }
}

#[test]
fn canonical_text_of_given_bytes() {
    let bytes: [u8; 16] = [
        0x00, 0x01, 0x02, 0x03, 0x04, 0x05, 0x06, 0x07, 0x08, 0x09, 0x0a, 0x0b, 0x0c, 0x0d, 0x0e,
        0x0f,
    ];
    assert_eq!(ws_gateway::canonical_text(&bytes), "00010203-0405-0607-0809-0a0b0c0d0e0f");
    assert_eq!(ws_gateway::canonical_text(&[0xff; 16]), "ffffffff-ffff-ffff-ffff-ffffffffffff");
    assert_eq!(ws_gateway::canonical_text(&[0x00; 16]), "00000000-0000-0000-0000-000000000000");
    let bytes: [u8; 16] = [
        0x93, 0x6d, 0xa0, 0x1f, 0x9a, 0xbd, 0x4d, 0x9d, 0x80, 0xc7, 0x02, 0xaf, 0x85, 0xc8, 0x22,
        0xa8,
    ];
    assert_eq!(ws_gateway::canonical_text(&bytes), "936da01f-9abd-4d9d-80c7-02af85c822a8");
}

#[test]
fn canonical_text_puts_the_high_half_of_a_byte_first() {
    let mut bytes = [0u8; 16];
    bytes[6] = 0x4a;
    bytes[8] = 0xb1;
    let text = ws_gateway::canonical_text(&bytes);
    assert_eq!(text, "00000000-0000-4a00-b100-000000000000");
    assert_eq!(text.chars().nth(14), Some('4'));
    assert_eq!(text.chars().nth(19), Some('b'));
}

#[test]
fn a_single_bit_changes_the_text() {
    let base: [u8; 16] = [
        0x93, 0x6d, 0xa0, 0x1f, 0x9a, 0xbd, 0x4d, 0x9d, 0x80, 0xc7, 0x02, 0xaf, 0x85, 0xc8, 0x22,
        0xa8,
    ];
    let text = ws_gateway::canonical_text(&base);
    let mut seen = vec![text.clone()];
    for byte in 0..16 {
        for bit in 0..8 {
            let mut other = base;
            other[byte] ^= 1 << bit;
            let changed = ws_gateway::canonical_text(&other);
            assert_eq!(changed.len(), 36);
            assert!(!seen.contains(&changed));
            seen.push(changed);
        }
    }
    assert_eq!(seen.len(), 129);
}

#[test]
fn minted_id_is_the_canonical_text_of_its_bytes() {
    for _ in 0..50 {
        let id = gen_uuid();
        let bytes = uuid::Uuid::parse_str(&id).unwrap().into_bytes();
        assert_eq!(bytes[6] & 0xf0, 0x40);
        assert_eq!(bytes[8] & 0xc0, 0x80);
        assert_eq!(ws_gateway::canonical_text(&bytes), id);
    }
}
