use ws_tunnel::id::{ConnectionId, InvalidId};

#[test]
fn canonical_text_of_a_value() {
    let id = ConnectionId::from_u128(0xa1a2a3a4_b1b2_c1c2_d1d2_d3d4d5d6d7d8);
    assert_eq!(id.to_text(), "a1a2a3a4-b1b2-c1c2-d1d2-d3d4d5d6d7d8");
    assert_eq!(id.as_u128(), 0xa1a2a3a4_b1b2_c1c2_d1d2_d3d4d5d6d7d8);
}

#[test]
fn canonical_text_of_the_extremes() {
    assert_eq!(
        ConnectionId::from_u128(0).to_text(),
        "00000000-0000-0000-0000-000000000000"
    );
    assert_eq!(
        ConnectionId::from_u128(u128::MAX).to_text(),
        "ffffffff-ffff-ffff-ffff-ffffffffffff"
    );
    assert_eq!(
        ConnectionId::from_u128(1).to_text(),
        "00000000-0000-0000-0000-000000000001"
    );
    assert_eq!(
        ConnectionId::from_u128(0x0123456789abcdef_fedcba9876543210).to_text(),
        "01234567-89ab-cdef-fedc-ba9876543210"
    );
}

#[test]
fn canonical_text_has_hyphens_at_four_places() {
    let text = ConnectionId::from_u128(0x5a5a5a5a_5a5a_5a5a_5a5a_5a5a5a5a5a5a).to_text();
    let chars: Vec<char> = text.chars().collect();
    assert_eq!(chars.len(), 36);
    for (i, c) in chars.iter().enumerate() {
        if i == 8 || i == 13 || i == 18 || i == 23 {
            assert_eq!(*c, '-');
        } else {
            assert!(matches!(*c, '0'..='9' | 'a'..='f'));
        }
    }
}

#[test]
fn parse_reads_canonical_text_back() {
    let id = ConnectionId::from_u128(0x11111111_1111_1111_1111_111111111111);
    let text = id.to_text();
    assert_eq!(text, "11111111-1111-1111-1111-111111111111");
    assert_eq!(ConnectionId::parse(&text), Ok(id));
}

#[test]
fn parse_reads_every_canonical_text_back() {
    let mut value: u128 = 0x9e3779b97f4a7c15_f39cc0605cedc834;
    for _ in 0..2000 {
        value = value
            .wrapping_mul(0x2360ed051fc65da4_4385df649fccf645)
            .wrapping_add(0x5851f42d4c957f2d_14057b7ef767814f);
        let id = ConnectionId::from_u128(value);
        assert_eq!(ConnectionId::parse(&id.to_text()), Ok(id));
    }
}

#[test]
fn parse_gives_the_value_written() {
    assert_eq!(
        ConnectionId::parse("a1a2a3a4-b1b2-c1c2-d1d2-d3d4d5d6d7d8").map(|id| id.as_u128()),
        Ok(0xa1a2a3a4_b1b2_c1c2_d1d2_d3d4d5d6d7d8)
    );
}

#[test]
fn parse_rejects_what_names_nothing() {
    assert_eq!(ConnectionId::parse(""), Err(InvalidId));
    assert_eq!(ConnectionId::parse("ack"), Err(InvalidId));
    assert_eq!(
        ConnectionId::parse("11111111-1111-1111-1111-11111111111"),
        Err(InvalidId)
    );
    assert_eq!(
        ConnectionId::parse("11111111-1111-1111-1111-11111111111g"),
        Err(InvalidId)
    );
    assert_eq!(
        ConnectionId::parse(" 11111111-1111-1111-1111-111111111111"),
        Err(InvalidId)
    );
    assert_eq!(
        ConnectionId::parse("11111111_1111_1111_1111_111111111111"),
        Err(InvalidId)
    );
}

#[test]
fn parse_is_the_same_on_the_same_text() {
    let texts = [
        "11111111-1111-1111-1111-111111111111",
        "not an identifier",
        "",
        "FFFFFFFF-FFFF-FFFF-FFFF-FFFFFFFFFFFF",
    ];
    for text in texts {
        assert_eq!(ConnectionId::parse(text), ConnectionId::parse(text));
    }
}

#[test]
fn generated_identifiers_are_random_version_four() {
    let a = ConnectionId::generate();
    let b = ConnectionId::generate();
    assert_eq!((a.as_u128() >> 76) & 0xf, 4);
    assert_eq!((a.as_u128() >> 62) & 0x3, 2);
    assert_eq!((b.as_u128() >> 76) & 0xf, 4);
    assert_eq!((b.as_u128() >> 62) & 0x3, 2);
    assert_ne!(a, b);
}

#[test]
fn generated_identifiers_travel_in_canonical_form() {
    for _ in 0..100 {
        let id = ConnectionId::generate();
        let text = id.to_text();
        assert_eq!(text.len(), 36);
        assert_eq!(&text[14..15], "4");
        assert_eq!(ConnectionId::parse(&text), Ok(id));
    }
}
