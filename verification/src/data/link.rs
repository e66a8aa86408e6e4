//! Links: the directed, labelled messages of a diagram.

use super::party::{Party, PartyView};
use std::sync::Arc;
use vstd::prelude::*;

verus! {

/// One message from a party to a party. A link never changes once it is in
/// a session's log.
pub struct Link {
    /// Position in the log, counted from 2.
    pub id: u64,
    /// Milliseconds since the Unix epoch, as the caller's clock gave them.
    /// Kept for display only: the log is ordered by `id`.
    pub timestamp: u64,
    pub from: Arc<Party>,
    pub to: Arc<Party>,
    pub label: Arc<Option<String>>,
}

/// What a [`Link`] holds, with its strings as character sequences.
pub struct LinkView {
    pub id: nat,
    pub timestamp: nat,
    pub from: PartyView,
    pub to: PartyView,
    pub label: Option<Seq<char>>,
}

/// The characters of an optional string.
pub open spec fn text_of(label: Option<String>) -> Option<Seq<char>> {
    match label {
        Some(l) => Some(l@),
        None => None,
    }
}

impl View for Link {
    type V = LinkView;

    open spec fn view(&self) -> LinkView {
        LinkView {
            id: self.id as nat,
            timestamp: self.timestamp as nat,
            from: self.from@,
            to: self.to@,
            label: text_of(*self.label),
        }
    }
}

impl Link {
    pub fn new(id: u64, timestamp: u64, from: Arc<Party>, to: Arc<Party>, label: Option<String>) -> (link: Self)
        ensures
            link@ == (LinkView {
                id: id as nat,
                timestamp: timestamp as nat,
                from: from@,
                to: to@,
                label: text_of(label),
            }),
    {
        Self { id, timestamp, from, to, label: Arc::new(label) }
    }
}

} // verus!
