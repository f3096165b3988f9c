use rftools::fastx::header_to_id;
use rftools::summary::get_key_col;

#[test]
fn key_col_found_at_first_match() {
    let fields = vec![b"filename".to_vec(), b"read_id".to_vec(), b"read_id".to_vec()];
    assert_eq!(get_key_col(&fields), Ok(1));
}

#[test]
fn key_col_missing_is_error() {
    let fields = vec![b"filename".to_vec(), b"channel".to_vec()];
    assert_eq!(get_key_col(&fields), Err("Could not find field".to_owned()));
}

#[test]
fn key_col_no_partial_match() {
    let fields = vec![b"read_id2".to_vec(), b"read_i".to_vec()];
    assert!(get_key_col(&fields).is_err());
}

#[test]
fn header_id_stops_at_first_space() {
    let header = [65u8, 108, 101, 120, 32, 119, 97, 115, 32, 104, 101, 114, 101];
    assert_eq!(header_to_id(&header), &b"Alex"[..]);
}

#[test]
fn header_id_whole_without_space() {
    assert_eq!(header_to_id(b"read1"), &b"read1"[..]);
}

#[test]
fn header_id_empty_header() {
    assert_eq!(header_to_id(b""), &b""[..]);
}
