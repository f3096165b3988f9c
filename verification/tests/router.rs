use rftools::config::SplitType;
use rftools::router::{destinations, route, Destination};

#[test]
fn destination_table_all() {
    let plan = destinations(SplitType::All);
    assert!(plan.sequenced);
    assert!(plan.unblocked);
}

#[test]
fn destination_table_sequenced_only() {
    let plan = destinations(SplitType::SequencedOnly);
    assert!(plan.sequenced);
    assert!(!plan.unblocked);
}

#[test]
fn destination_table_unblocked_only() {
    let plan = destinations(SplitType::UnblockedOnly);
    assert!(!plan.sequenced);
    assert!(plan.unblocked);
}

#[test]
fn route_to_active_destination() {
    assert_eq!(route(SplitType::All, true), Some(Destination::Unblocked));
    assert_eq!(route(SplitType::All, false), Some(Destination::Sequenced));
    assert_eq!(route(SplitType::UnblockedOnly, true), Some(Destination::Unblocked));
    assert_eq!(route(SplitType::SequencedOnly, false), Some(Destination::Sequenced));
}

#[test]
fn route_drops_inactive_destination() {
    assert_eq!(route(SplitType::SequencedOnly, true), None);
    assert_eq!(route(SplitType::UnblockedOnly, false), None);
}
