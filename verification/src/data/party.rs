//! Parties: the named endpoints of links.

use crate::shared::share;
use std::cmp::Ordering;
use std::sync::Arc;
use vstd::prelude::*;
use vstd::std_specs::cmp::{PartialEqSpecImpl, PartialOrdSpecImpl};

verus! {

/// A named endpoint of a diagram.
pub struct Party {
    /// Assigned by the session on first sighting; `0` until then.
    pub id: u64,
    /// The name is the identity under which a session deduplicates parties.
    pub name: String,
    /// Shown in place of the name where present.
    pub label: Option<String>,
}

/// What a [`Party`] holds, with its strings as character sequences.
pub struct PartyView {
    pub id: nat,
    pub name: Seq<char>,
    pub label: Option<Seq<char>>,
}

impl View for Party {
    type V = PartyView;

    open spec fn view(&self) -> PartyView {
        PartyView {
            id: self.id as nat,
            name: self.name@,
            label: match self.label {
                Some(l) => Some(l@),
                None => None,
            },
        }
    }
}

impl Party {
    /// A party that no session has numbered yet.
    pub fn new(name: &str) -> (party: Self)
        ensures
            party@ == (PartyView { id: 0, name: name@, label: None }),
    {
        Self { id: 0, name: name.to_owned(), label: None }
    }
}

/// Parties compare by id alone.
impl PartialEq for Party {
    fn eq(&self, other: &Self) -> (res: bool) {
        self.id == other.id
    }
}

impl PartialEqSpecImpl for Party {
    open spec fn obeys_eq_spec() -> bool {
        true
    }

    open spec fn eq_spec(&self, other: &Self) -> bool {
        self.id == other.id
    }
}

impl Eq for Party {}

/// Parties are ordered by id alone, which is the order of their first
/// sighting within a session.
impl PartialOrd for Party {
    fn partial_cmp(&self, other: &Self) -> (res: Option<Ordering>) {
        if self.id < other.id {
            Some(Ordering::Less)
        } else if self.id == other.id {
            Some(Ordering::Equal)
        } else {
            Some(Ordering::Greater)
        }
    }
}

impl PartialOrdSpecImpl for Party {
    open spec fn obeys_partial_cmp_spec() -> bool {
        true
    }

    open spec fn partial_cmp_spec(&self, other: &Self) -> Option<Ordering> {
        if self.id < other.id {
            Some(Ordering::Less)
        } else if self.id == other.id {
            Some(Ordering::Equal)
        } else {
            Some(Ordering::Greater)
        }
    }
}

/// A shared party that is equal to another when the names match, whatever
/// the ids and labels.
pub struct PartyMappedByName(pub Arc<Party>);

impl PartialEq for PartyMappedByName {
    fn eq(&self, other: &PartyMappedByName) -> (res: bool) {
        self.0.name == other.0.name
    }
}

impl PartialEqSpecImpl for PartyMappedByName {
    open spec fn obeys_eq_spec() -> bool {
        true
    }

    open spec fn eq_spec(&self, other: &PartyMappedByName) -> bool {
        self.0.name@ == other.0.name@
    }
}

impl Eq for PartyMappedByName {}

impl Clone for PartyMappedByName {
    /// Another handle to the same party.
    fn clone(&self) -> (other: Self)
        ensures
            other == *self,
    {
        PartyMappedByName(share(&self.0))
    }
}

impl std::hash::Hash for PartyMappedByName {
    /// `Hasher::write` of std on the bytes of the name, so that parties
    /// that are equal hash alike.
    #[verifier::external_body]
    fn hash<H: std::hash::Hasher>(&self, hash: &mut H) {
        hash.write(self.0.name.as_bytes())
    }
}

} // verus!
