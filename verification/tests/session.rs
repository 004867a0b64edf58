use minidumper_child::make_socket_name;
use minidumper_child::session::SessionId;

#[test]
fn simple_form_has_32_digits_most_significant_first() {
    let id = SessionId(0xa1a2a3a4b1b2c1c2d1d2d3d4d5d6d7d8);
    assert_eq!(id.simple(), "a1a2a3a4b1b2c1c2d1d2d3d4d5d6d7d8");
}

#[test]
fn simple_form_keeps_leading_zeros() {
    assert_eq!(SessionId(0).simple(), "00000000000000000000000000000000");
    assert_eq!(SessionId(0x1f).simple(), "0000000000000000000000000000001f");
    assert_eq!(SessionId(u128::MAX).simple(), "ffffffffffffffffffffffffffffffff");
}

#[test]
fn hyphenated_form_groups_the_digits() {
    let id = SessionId(0xa1a2a3a4b1b2c1c2d1d2d3d4d5d6d7d8);
    assert_eq!(id.hyphenated(), "a1a2a3a4-b1b2-c1c2-d1d2-d3d4d5d6d7d8");
    assert_eq!(SessionId(0).hyphenated(), "00000000-0000-0000-0000-000000000000");
    assert_eq!(SessionId(0x0123456789abcdef0123456789abcdef).hyphenated(), "01234567-89ab-cdef-0123-456789abcdef");
}

#[test]
fn random_identifier_is_version_4() {
    for _ in 0..64 {
        let id = SessionId::random();
        assert_eq!((id.0 >> 76) & 0xf, 4);
        assert_eq!((id.0 >> 62) & 0x3, 2);
    }
}

#[test]
fn random_identifiers_differ() {
    let a = SessionId::random();
    let b = SessionId::random();
    assert_ne!(a, b);
    assert_ne!(make_socket_name(a), make_socket_name(b));
}

#[test]
fn socket_name_is_prefix_and_simple_form() {
    let id = SessionId(0xa1a2a3a4b1b2c1c2d1d2d3d4d5d6d7d8);
    assert_eq!(make_socket_name(id), "temp-socket-a1a2a3a4b1b2c1c2d1d2d3d4d5d6d7d8");
    assert_eq!(make_socket_name(SessionId(0)), "temp-socket-00000000000000000000000000000000");
}

#[test]
fn socket_name_has_44_characters_and_no_separator() {
    let name = make_socket_name(SessionId::random());
    assert_eq!(name.chars().count(), 44);
    assert!(!name.contains('='));
    assert!(name[12..].chars().all(|c| matches!(c, '0'..='9' | 'a'..='f')));
}

#[test]
fn socket_names_of_different_sessions_differ() {
    assert_ne!(make_socket_name(SessionId(1)), make_socket_name(SessionId(2)));
    assert_ne!(make_socket_name(SessionId(1)), make_socket_name(SessionId(1 << 127)));
}
