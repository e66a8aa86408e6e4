//! The mathematical model of a session: what a session is, and what each
//! operation makes of it, without machine limits.

use super::link::LinkView;
use super::party::PartyView;
use vstd::prelude::*;

verus! {

/// The value both id counters start from.
pub open spec fn initial_counter() -> nat {
    1
}

/// The first id that a session issues, to a party and to a link alike: one
/// more than the initial counter.
pub open spec fn first_id() -> nat {
    initial_counter() + 1
}

/// A session as a value: its parties in the order of their first sighting,
/// its log in the order of appending, and the two id counters.
pub struct SessionView {
    pub id: nat,
    pub parties: Seq<PartyView>,
    pub links: Seq<LinkView>,
    pub parties_highest_id: nat,
    pub links_highest_id: nat,
}

/// One request to append a link.
pub struct Append {
    pub timestamp: nat,
    pub from: Seq<char>,
    pub to: Seq<char>,
    pub label: Option<Seq<char>>,
}

impl SessionView {
    /// The session with no parties and no links.
    pub open spec fn new(id: nat) -> SessionView {
        SessionView {
            id,
            parties: Seq::empty(),
            links: Seq::empty(),
            parties_highest_id: initial_counter(),
            links_highest_id: initial_counter(),
        }
    }

    /// The invariant of a session.
    ///
    /// Ids count up from the initial counter without gaps, in the order of
    /// the sequences; no two parties share a name; both ends of every link
    /// are parties of the session.
    pub open spec fn wf(self) -> bool {
        &&& self.parties_highest_id == self.parties.len() + initial_counter()
        &&& self.links_highest_id == self.links.len() + initial_counter()
        &&& forall|i: int|
            0 <= i < self.parties.len() ==> (#[trigger] self.parties[i]).id == i + first_id()
        &&& forall|i: int, j: int|
            0 <= i < j < self.parties.len() ==> (#[trigger] self.parties[i]).name != (
            #[trigger] self.parties[j]).name
        &&& forall|i: int|
            0 <= i < self.links.len() ==> (#[trigger] self.links[i]).id == i + first_id()
        &&& forall|i: int|
            0 <= i < self.links.len() ==> self.is_party((#[trigger] self.links[i]).from)
                && self.is_party(self.links[i].to)
    }

    /// Whether `party` is one of this session's parties, at the place its id
    /// gives.
    pub open spec fn is_party(self, party: PartyView) -> bool {
        &&& first_id() <= party.id < first_id() + self.parties.len()
        &&& self.parties[party.id - first_id()] == party
    }

    /// Whether a party of that name has been sighted.
    pub open spec fn has_party(self, name: Seq<char>) -> bool {
        exists|i: int| 0 <= i < self.parties.len() && (#[trigger] self.parties[i]).name == name
    }

    /// Where the party of that name stands among the parties.
    pub open spec fn party_index(self, name: Seq<char>) -> int {
        choose|i: int| 0 <= i < self.parties.len() && (#[trigger] self.parties[i]).name == name
    }

    /// Resolves a name: the session afterwards, and the party of that name.
    /// A name seen before gives the party it gave then and leaves the
    /// session as it was; a new name gets the next id.
    pub open spec fn add_party(self, name: Seq<char>) -> (SessionView, PartyView) {
        if self.has_party(name) {
            (self, self.parties[self.party_index(name)])
        } else {
            let party = PartyView { id: self.parties_highest_id + 1, name, label: None };
            (
                SessionView {
                    parties: self.parties.push(party),
                    parties_highest_id: self.parties_highest_id + 1,
                    ..self
                },
                party,
            )
        }
    }

    /// Whether both counters, kept as `u64`, can issue the ids that one more
    /// link may take: one for the link and one for each of its two parties.
    pub open spec fn has_room(self) -> bool {
        &&& self.parties_highest_id + 2 <= u64::MAX
        &&& self.links_highest_id + 1 <= u64::MAX
    }

    /// The id that the next appended link gets.
    pub open spec fn next_link_id(self) -> nat {
        self.links_highest_id + 1
    }

    /// Appends one link: both names are resolved, `from` first, and the link
    /// between them goes to the end of the log under the next id.
    pub open spec fn add_link(self, append: Append) -> SessionView {
        let (with_from, from) = self.add_party(append.from);
        let (with_both, to) = with_from.add_party(append.to);
        let link = LinkView {
            id: with_both.next_link_id(),
            timestamp: append.timestamp,
            from,
            to,
            label: append.label,
        };
        SessionView {
            links: with_both.links.push(link),
            links_highest_id: with_both.next_link_id(),
            ..with_both
        }
    }

    /// Appends the links of `appends`, first to last.
    pub open spec fn add_links(self, appends: Seq<Append>) -> SessionView
        decreases appends.len(),
    {
        if appends.len() == 0 {
            self
        } else {
            self.add_links(appends.drop_last()).add_link(appends.last())
        }
    }

    /// The links whose id is greater than `id`, in log order.
    pub open spec fn links_above(self, id: nat) -> Seq<LinkView> {
        self.links.filter(|l: LinkView| l.id > id)
    }

    /// Where in the log the links with an id greater than `id` begin.
    pub open spec fn first_above(self, id: nat) -> int {
        if id <= initial_counter() {
            0
        } else if id - initial_counter() > self.links.len() {
            self.links.len() as int
        } else {
            id - initial_counter()
        }
    }

    /// The names of the parties.
    pub open spec fn party_names(self) -> Set<Seq<char>> {
        self.parties.map_values(|p: PartyView| p.name).to_set()
    }
}

/// The names that a sequence of requests mentions.
pub open spec fn names_of(appends: Seq<Append>) -> Set<Seq<char>>
    decreases appends.len(),
{
    if appends.len() == 0 {
        Set::empty()
    } else {
        names_of(appends.drop_last()).insert(appends.last().from).insert(appends.last().to)
    }
}

impl SessionView {
    /// Resolving a name keeps the session well formed, and gives a party of
    /// the session that bears the name. Nothing but a new last party is ever
    /// added: the log, the session's id and the parties there were stay.
    pub proof fn lemma_add_party(self, name: Seq<char>)
        requires
            self.wf(),
        ensures
            self.add_party(name).0.wf(),
            self.add_party(name).0.is_party(self.add_party(name).1),
            self.add_party(name).1.name == name,
            self.add_party(name).0.has_party(name),
            self.add_party(name).0.id == self.id,
            self.add_party(name).0.links == self.links,
            self.add_party(name).0.links_highest_id == self.links_highest_id,
            self.parties.is_prefix_of(self.add_party(name).0.parties),
            forall|p: PartyView| self.is_party(p) ==> self.add_party(name).0.is_party(p),
            self.add_party(name).0.party_names() == self.party_names().insert(name),
    {
        let (after, party) = self.add_party(name);
        let names = self.parties.map_values(|p: PartyView| p.name);
        if self.has_party(name) {
            let i = self.party_index(name);
            assert(names[i] == name);
            assert(self.party_names().insert(name) =~= self.party_names());
        } else {
            assert(after.parties.map_values(|p: PartyView| p.name) =~= names.push(name));
            names.lemma_push_to_set_commute(name);
            assert(after.parties[self.parties.len() as int] == party);
            assert forall|i: int, j: int| 0 <= i < j < after.parties.len() implies (
            #[trigger] after.parties[i]).name != (#[trigger] after.parties[j]).name by {
                if j == self.parties.len() {
                    assert(self.parties[i].name != name);
                }
            }
            assert forall|i: int| 0 <= i < after.links.len() implies after.is_party(
                (#[trigger] after.links[i]).from,
            ) && after.is_party(after.links[i].to) by {
                assert(self.is_party(self.links[i].from));
                assert(self.is_party(self.links[i].to));
            }
        }
    }

    /// Appending a link keeps the session well formed, puts the new link
    /// last under the next id, and leaves the earlier links as they were.
    pub proof fn lemma_add_link(self, append: Append)
        requires
            self.wf(),
        ensures
            self.add_link(append).wf(),
            self.add_link(append).id == self.id,
            self.add_link(append).links.len() == self.links.len() + 1,
            self.add_link(append).links.last().id == self.next_link_id(),
            self.add_link(append).links.last().from.name == append.from,
            self.add_link(append).links.last().to.name == append.to,
            self.add_link(append).links.last().label == append.label,
            self.add_link(append).links.last().timestamp == append.timestamp,
            self.add_link(append).links.drop_last() == self.links,
            self.parties.is_prefix_of(self.add_link(append).parties),
            self.add_link(append).party_names() == self.party_names().insert(append.from).insert(
                append.to,
            ),
    {
        self.lemma_add_party(append.from);
        let (with_from, from) = self.add_party(append.from);
        with_from.lemma_add_party(append.to);
        let (with_both, to) = with_from.add_party(append.to);
        let after = self.add_link(append);
        assert(after.links.drop_last() =~= self.links);
        assert forall|i: int| 0 <= i < after.links.len() implies after.is_party(
            (#[trigger] after.links[i]).from,
        ) && after.is_party(after.links[i].to) by {
            if i < self.links.len() {
                assert(with_both.is_party(with_both.links[i].from));
                assert(with_both.is_party(with_both.links[i].to));
            }
        }
    }
}

} // verus!
