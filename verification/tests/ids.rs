use rftools::ids::load_ids;

#[test]
fn load_ids_two_unique_lines() {
    let ids = load_ids(b"readA\nreadB\n");
    assert_eq!(ids.len(), 2);
}

#[test]
fn load_ids_empty_file() {
    let ids = load_ids(b"");
    assert_eq!(ids.len(), 0);
}

#[test]
fn load_ids_duplicates_collapse() {
    let ids = load_ids(b"readA\nreadA\nreadB\n");
    assert_eq!(ids.len(), 2);
}

#[test]
fn load_ids_membership() {
    let ids = load_ids(b"readA\nreadB\n");
    assert!(ids.contains(b"readA"));
    assert!(ids.contains(b"readB"));
    assert!(!ids.contains(b"readC"));
    assert!(!ids.contains(b""));
}

#[test]
fn load_ids_no_trailing_newline() {
    let ids = load_ids(b"readA\nreadB");
    assert_eq!(ids.len(), 2);
    assert!(ids.contains(b"readB"));
}

#[test]
fn load_ids_trims_carriage_return() {
    let ids = load_ids(b"readA\r\nreadB\r\n");
    assert_eq!(ids.len(), 2);
    assert!(ids.contains(b"readA"));
    assert!(!ids.contains(b"readA\r"));
}

#[test]
fn load_ids_skips_blank_lines() {
    let ids = load_ids(b"readA\n\n\nreadB\n");
    assert_eq!(ids.len(), 2);
}
