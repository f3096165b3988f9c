use rftools::classify::classify_unblocked;
use rftools::ids::load_ids;

#[test]
fn composite_any_member_token_rejects() {
    // readB alone is a member; the composite identifier must classify as
    // unblocked even though readA is not a member.
    let ids = load_ids(b"readB\n");
    assert!(!ids.contains(b"readA"));
    assert!(classify_unblocked(b"readA;readB", true, &ids));
}

#[test]
fn composite_without_tag_matches_whole_only() {
    let ids = load_ids(b"readB\n");
    assert!(!classify_unblocked(b"readA;readB", false, &ids));
}

#[test]
fn exact_member_classifies_unblocked() {
    let ids = load_ids(b"readA\nreadB\n");
    assert!(classify_unblocked(b"readA", false, &ids));
}

#[test]
fn non_member_classifies_sequenced() {
    let ids = load_ids(b"readA\nreadB\n");
    assert!(!classify_unblocked(b"readC", false, &ids));
}

#[test]
fn composite_no_member_token_sequenced() {
    let ids = load_ids(b"readC\n");
    assert!(!classify_unblocked(b"readA;readB", true, &ids));
}

#[test]
fn composite_first_token_rejects() {
    let ids = load_ids(b"readA\n");
    assert!(classify_unblocked(b"readA;readB", true, &ids));
}
