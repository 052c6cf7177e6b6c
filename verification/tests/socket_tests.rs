use dontfrag::policy::Family;
use dontfrag::sockopt::{get_integer_option, set_integer_option, ModelSocket, OsError};
use dontfrag::sys_common::AsRawSocket;
use dontfrag::UdpSocketExt;

#[test]
fn retain_dontfrag_v4() {
    let mut socket = ModelSocket::new(3, Family::LinuxLike);
    socket.set_dontfrag_v4(true).unwrap();
    assert!(socket.dontfrag_v4().unwrap());
    socket.set_dontfrag_v4(false).unwrap();
    assert!(!socket.dontfrag_v4().unwrap());
}

#[test]
fn retain_dontfrag_v6() {
    let mut socket = ModelSocket::new(3, Family::LinuxLike);
    socket.set_dontfrag_v6(true).unwrap();
    assert!(socket.dontfrag_v6().unwrap());
    socket.set_dontfrag_v6(false).unwrap();
    assert!(!socket.dontfrag_v6().unwrap());
}

#[test]
fn roundtrip_every_family() {
    let families = [Family::BsdLike, Family::LinuxLike, Family::WindowsLike];
    for f in families {
        let mut s = ModelSocket::new(5, f);
        s.set_dontfrag_v4(true).unwrap();
        assert!(s.dontfrag_v4().unwrap());
        s.set_dontfrag_v4(false).unwrap();
        assert!(!s.dontfrag_v4().unwrap());
        s.set_dontfrag_v6(true).unwrap();
        assert!(s.dontfrag_v6().unwrap());
        s.set_dontfrag_v6(false).unwrap();
        assert!(!s.dontfrag_v6().unwrap());
    }
}

#[test]
fn setting_twice_is_idempotent() {
    let families = [Family::BsdLike, Family::LinuxLike, Family::WindowsLike];
    for f in families {
        let mut once = ModelSocket::new(7, f);
        let mut twice = ModelSocket::new(7, f);
        once.set_dontfrag_v4(true).unwrap();
        twice.set_dontfrag_v4(true).unwrap();
        twice.set_dontfrag_v4(true).unwrap();
        assert_eq!(once, twice);
        once.set_dontfrag_v6(false).unwrap();
        twice.set_dontfrag_v6(false).unwrap();
        twice.set_dontfrag_v6(false).unwrap();
        assert_eq!(once, twice);
    }
}

#[test]
fn address_families_are_independent() {
    let families = [Family::BsdLike, Family::LinuxLike, Family::WindowsLike];
    for f in families {
        let mut s = ModelSocket::new(9, f);
        s.set_dontfrag_v4(true).unwrap();
        assert!(!s.dontfrag_v6().unwrap());
        s.set_dontfrag_v6(true).unwrap();
        assert!(s.dontfrag_v4().unwrap());
        s.set_dontfrag_v4(false).unwrap();
        assert!(s.dontfrag_v6().unwrap());
    }
}

#[test]
fn fresh_socket_reads_df_clear() {
    let families = [Family::BsdLike, Family::LinuxLike, Family::WindowsLike];
    for f in families {
        let s = ModelSocket::new(11, f);
        assert!(!s.dontfrag_v4().unwrap());
        assert!(!s.dontfrag_v6().unwrap());
    }
}

#[test]
fn closed_socket_reports_nonzero_error() {
    let mut s = ModelSocket::new(13, Family::LinuxLike);
    s.close();
    let e = s.dontfrag_v4().unwrap_err();
    assert_ne!(e.raw_os_error(), 0);
    assert_eq!(e.raw_os_error(), dontfrag::sockopt::EBADF);
    let e = s.dontfrag_v6().unwrap_err();
    assert_ne!(e.raw_os_error(), 0);
    let e = s.set_dontfrag_v4(true).unwrap_err();
    assert_ne!(e.raw_os_error(), 0);
    let e = s.set_dontfrag_v6(false).unwrap_err();
    assert_ne!(e.raw_os_error(), 0);
}

#[test]
fn raw_accessors_store_and_read_back() {
    let mut s = ModelSocket::new(15, Family::LinuxLike);
    assert_eq!(get_integer_option(&s, 6, 201), Ok(0));
    set_integer_option(&mut s, 6, 201, 77).unwrap();
    assert_eq!(get_integer_option(&s, 6, 201), Ok(77));
    set_integer_option(&mut s, 6, 201, 99).unwrap();
    assert_eq!(get_integer_option(&s, 6, 201), Ok(99));
    assert_eq!(get_integer_option(&s, 6, 202), Ok(0));
}

#[test]
fn raw_accessors_fail_on_closed_handle() {
    let mut s = ModelSocket::new(17, Family::BsdLike);
    s.close();
    assert_eq!(get_integer_option(&s, 0, 28), Err(OsError::new(9)));
    assert_eq!(set_integer_option(&mut s, 0, 28, 1), Err(OsError::new(9)));
}

#[test]
fn as_raw_socket_surfaces_the_handle() {
    let s = ModelSocket::new(42, Family::WindowsLike);
    assert_eq!(s.as_raw_socket(), 42);
}

#[test]
fn os_error_carries_the_raw_code() {
    let e = OsError::new(13);
    assert_eq!(e.raw_os_error(), 13);
    assert_eq!(e.code, 13);
}
