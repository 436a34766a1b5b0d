use shm_window::naming::shm_name;

#[test]
fn name_from_plain_title() {
    assert_eq!(shm_name(b"title", 0), b"/title-0".to_vec());
    assert_eq!(shm_name(b"title", 1), b"/title-1".to_vec());
}

#[test]
fn separators_are_stripped() {
    assert_eq!(shm_name(b"/usr/bin/demo", 1), b"/usrbindemo-1".to_vec());
    assert_eq!(shm_name(b"///", 0), b"/-0".to_vec());
}

#[test]
fn ordinal_in_decimal() {
    assert_eq!(shm_name(b"t", 10), b"/t-10".to_vec());
    assert_eq!(shm_name(b"t", 907), b"/t-907".to_vec());
    assert_eq!(shm_name(b"", 0), b"/-0".to_vec());
}

#[test]
fn non_ascii_title_kept() {
    let title = "fenêtre/x";
    let name = shm_name(title.as_bytes(), 3);
    assert_eq!(String::from_utf8(name).unwrap(), "/fenêtrex-3");
}
