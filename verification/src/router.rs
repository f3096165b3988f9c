//! Routing records to output destinations.
//!
//! A run owns up to two destinations, selected by the split type. Every
//! record goes to at most one of them; a record classified for an inactive
//! destination is dropped silently.

use crate::config::SplitType;
use vstd::prelude::*;

verus! {

/// One of the two output destinations of a run.
#[derive(Debug, Clone, Copy, PartialEq, Eq, Structural)]
pub enum Destination {
    /// The destination for reads that ran to completion.
    Sequenced,
    /// The destination for reads rejected mid-read.
    Unblocked,
}

/// Whether a run with this split type owns a sequenced destination.
pub open spec fn has_sequenced_dest(split_type: SplitType) -> bool {
    split_type != SplitType::UnblockedOnly
}

/// Whether a run with this split type owns an unblocked destination.
pub open spec fn has_unblocked_dest(split_type: SplitType) -> bool {
    split_type != SplitType::SequencedOnly
}

/// Which destinations a run constructs. Destinations of an inactive split
/// branch are never built.
pub struct DestinationPlan {
    /// Whether the sequenced destination is constructed.
    pub sequenced: bool,
    /// Whether the unblocked destination is constructed.
    pub unblocked: bool,
}

/// Decide which destinations a run with this split type constructs.
pub fn destinations(split_type: SplitType) -> (plan: DestinationPlan)
    ensures
        plan.sequenced == has_sequenced_dest(split_type),
        plan.unblocked == has_unblocked_dest(split_type),
{
    match split_type {
        SplitType::All => DestinationPlan { sequenced: true, unblocked: true },
        SplitType::SequencedOnly => DestinationPlan { sequenced: true, unblocked: false },
        SplitType::UnblockedOnly => DestinationPlan { sequenced: false, unblocked: true },
    }
}

/// The destination, if any, of a record that passed the filter: its
/// category's destination when that destination is active, nothing
/// otherwise. At most one destination ever receives a record.
pub open spec fn spec_route(split_type: SplitType, was_unblocked: bool) -> Option<Destination> {
    if was_unblocked {
        if has_unblocked_dest(split_type) {
            Some(Destination::Unblocked)
        } else {
            None
        }
    } else {
        if has_sequenced_dest(split_type) {
            Some(Destination::Sequenced)
        } else {
            None
        }
    }
}

/// Route one classified record.
pub fn route(split_type: SplitType, was_unblocked: bool) -> (dest: Option<Destination>)
    ensures
        dest == spec_route(split_type, was_unblocked),
{
    if was_unblocked {
        if split_type != SplitType::SequencedOnly {
            Some(Destination::Unblocked)
        } else {
            None
        }
    } else {
        if split_type != SplitType::UnblockedOnly {
            Some(Destination::Sequenced)
        } else {
            None
        }
    }
}

} // verus!
