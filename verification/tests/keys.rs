use qlcpp::input::Key;

#[test]
fn key_codes_round_trip() {
    for key in [Key::Enter, Key::Backspace, Key::Delete, Key::Right, Key::Left] {
        assert_eq!(Key::from_code(key.code()), Some(key));
    }
}

#[test]
fn known_codes_decode() {
    assert_eq!(Key::from_code(257), Some(Key::Enter));
    assert_eq!(Key::from_code(259), Some(Key::Backspace));
    assert_eq!(Key::from_code(261), Some(Key::Delete));
    assert_eq!(Key::from_code(262), Some(Key::Right));
    assert_eq!(Key::from_code(263), Some(Key::Left));
}

#[test]
fn unknown_code_degrades_to_none() {
    assert_eq!(Key::from_code(0), None);
    assert_eq!(Key::from_code(258), None);
    assert_eq!(Key::from_code(999), None);
    assert_eq!(Key::from_code(u32::MAX), None);
}
