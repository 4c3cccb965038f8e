use chip8::input::{into_chip_key, key_2_nibble, nibble_2_key, ChipKey, KeyCode};

#[test]
fn nibble_to_key_uses_hex_digit() {
    assert_eq!(nibble_2_key(0x0), KeyCode::Char('0'));
    assert_eq!(nibble_2_key(0x9), KeyCode::Char('9'));
    assert_eq!(nibble_2_key(0xa), KeyCode::Char('a'));
    assert_eq!(nibble_2_key(0xf), KeyCode::Char('f'));
    assert_eq!(nibble_2_key(0x42), KeyCode::Char('f'));
}

#[test]
fn key_to_nibble_reads_hex_digit() {
    assert_eq!(key_2_nibble(KeyCode::Char('0')), 0x0);
    assert_eq!(key_2_nibble(KeyCode::Char('7')), 0x7);
    assert_eq!(key_2_nibble(KeyCode::Char('c')), 0xc);
    assert_eq!(key_2_nibble(KeyCode::Char('z')), 0xf);
    assert_eq!(key_2_nibble(KeyCode::Enter), 0xf);
}

#[test]
fn nibble_key_round_trip() {
    for n in 0u8..16 {
        assert_eq!(key_2_nibble(nibble_2_key(n)), n);
    }
}

#[test]
fn host_key_to_chip_key() {
    assert_eq!(into_chip_key(&KeyCode::Char('0')), Some(ChipKey::Zero));
    assert_eq!(into_chip_key(&KeyCode::Char('b')), Some(ChipKey::B));
    assert_eq!(into_chip_key(&KeyCode::Char('q')), None);
    assert_eq!(into_chip_key(&KeyCode::Esc), None);
}

#[test]
fn chip_key_from_number() {
    assert_eq!(ChipKey::from(0usize), ChipKey::Zero);
    assert_eq!(ChipKey::from(10usize), ChipKey::A);
    assert_eq!(ChipKey::from(15usize), ChipKey::F);
    assert_eq!(ChipKey::from(99usize), ChipKey::F);
    for n in 0usize..16 {
        assert_eq!(ChipKey::from(n).nibble() as usize, n);
    }
}
