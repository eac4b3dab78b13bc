use fenster::paths::{get_socket_path, push_component};

#[test]
fn override_wins() {
    let p = get_socket_path(Some(b"/x/y.sock".to_vec()), Some(b"/run/user/1".to_vec()), b"/tmp".to_vec());
    assert_eq!(p, b"/x/y.sock".to_vec());
}

#[test]
fn runtime_dir_is_used() {
    let p = get_socket_path(None, Some(b"/run/user/1000".to_vec()), b"/tmp".to_vec());
    assert_eq!(p, b"/run/user/1000/fenster/daemon.sock".to_vec());
}

#[test]
fn temp_dir_is_the_fallback() {
    let p = get_socket_path(None, None, b"/tmp/".to_vec());
    assert_eq!(p, b"/tmp/fenster/daemon.sock".to_vec());
}

#[test]
fn push_onto_empty_path_adds_no_separator() {
    let mut p: Vec<u8> = Vec::new();
    push_component(&mut p, b"a");
    assert_eq!(p, b"a".to_vec());
    push_component(&mut p, b"b");
    assert_eq!(p, b"a/b".to_vec());
}
