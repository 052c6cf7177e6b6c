use dontfrag::policy::{
    decode_dontfrag, encode_dontfrag, option_descriptor, AddrFamily, Family, OptionDesc,
};
use dontfrag::sockopt::{get_integer_option, ModelSocket};
use dontfrag::UdpSocketExt;

#[test]
fn descriptors_resolve_to_the_native_options() {
    assert_eq!(
        option_descriptor(Family::LinuxLike, AddrFamily::V4),
        OptionDesc { level: 0, name: 10 }
    );
    assert_eq!(
        option_descriptor(Family::LinuxLike, AddrFamily::V6),
        OptionDesc { level: 41, name: 23 }
    );
    assert_eq!(
        option_descriptor(Family::BsdLike, AddrFamily::V4),
        OptionDesc { level: 0, name: 28 }
    );
    assert_eq!(
        option_descriptor(Family::BsdLike, AddrFamily::V6),
        OptionDesc { level: 41, name: 62 }
    );
    assert_eq!(
        option_descriptor(Family::WindowsLike, AddrFamily::V4),
        OptionDesc { level: 0, name: 14 }
    );
    assert_eq!(
        option_descriptor(Family::WindowsLike, AddrFamily::V6),
        OptionDesc { level: 41, name: 14 }
    );
}

#[test]
fn descriptors_differ_between_address_families() {
    for f in [Family::BsdLike, Family::LinuxLike, Family::WindowsLike] {
        assert_ne!(
            option_descriptor(f, AddrFamily::V4),
            option_descriptor(f, AddrFamily::V6)
        );
    }
}

#[test]
fn linux_encoding_uses_the_discovery_modes() {
    assert_eq!(encode_dontfrag(Family::LinuxLike, true), 2);
    assert_ne!(encode_dontfrag(Family::LinuxLike, true), 1);
    assert_eq!(encode_dontfrag(Family::LinuxLike, false), 0);
    assert!(decode_dontfrag(Family::LinuxLike, 2));
    assert!(!decode_dontfrag(Family::LinuxLike, 1));
    assert!(!decode_dontfrag(Family::LinuxLike, 0));
    assert!(!decode_dontfrag(Family::LinuxLike, 3));
}

#[test]
fn literal_encoding_uses_zero_and_one() {
    for f in [Family::BsdLike, Family::WindowsLike] {
        assert_eq!(encode_dontfrag(f, true), 1);
        assert_eq!(encode_dontfrag(f, false), 0);
        assert!(decode_dontfrag(f, 1));
        assert!(!decode_dontfrag(f, 0));
        assert!(decode_dontfrag(f, 7));
    }
}

#[test]
fn linux_set_stores_the_mode_not_a_literal() {
    let mut s = ModelSocket::new(3, Family::LinuxLike);
    s.set_dontfrag_v4(true).unwrap();
    let raw = get_integer_option(&s, 0, 10).unwrap();
    assert_eq!(raw, 2);
    assert_ne!(raw, 1);
    s.set_dontfrag_v4(false).unwrap();
    assert_eq!(get_integer_option(&s, 0, 10).unwrap(), 0);
    s.set_dontfrag_v6(true).unwrap();
    assert_eq!(get_integer_option(&s, 41, 23).unwrap(), 2);
    s.set_dontfrag_v6(false).unwrap();
    assert_eq!(get_integer_option(&s, 41, 23).unwrap(), 0);
}

#[test]
fn bsd_set_stores_the_literal_boolean() {
    let mut s = ModelSocket::new(3, Family::BsdLike);
    s.set_dontfrag_v4(true).unwrap();
    assert_eq!(get_integer_option(&s, 0, 28).unwrap(), 1);
    s.set_dontfrag_v4(false).unwrap();
    assert_eq!(get_integer_option(&s, 0, 28).unwrap(), 0);
    s.set_dontfrag_v6(true).unwrap();
    assert_eq!(get_integer_option(&s, 41, 62).unwrap(), 1);
    s.set_dontfrag_v6(false).unwrap();
    assert_eq!(get_integer_option(&s, 41, 62).unwrap(), 0);
}

#[test]
fn windows_set_stores_the_literal_boolean() {
    let mut s = ModelSocket::new(3, Family::WindowsLike);
    s.set_dontfrag_v4(true).unwrap();
    assert_eq!(get_integer_option(&s, 0, 14).unwrap(), 1);
    s.set_dontfrag_v4(false).unwrap();
    assert_eq!(get_integer_option(&s, 0, 14).unwrap(), 0);
    s.set_dontfrag_v6(true).unwrap();
    assert_eq!(get_integer_option(&s, 41, 14).unwrap(), 1);
    s.set_dontfrag_v6(false).unwrap();
    assert_eq!(get_integer_option(&s, 41, 14).unwrap(), 0);
}
