//! The state of one session: its parties and its append-only log.

use super::link::{Link, LinkView};
use super::model::{first_id, Append, SessionView};
use super::party::{Party, PartyMappedByName, PartyView};
use crate::shared::share;
use std::sync::Arc;
use vstd::prelude::*;

verus! {

/// One diagram: the parties in the order of their first sighting, which is
/// the order of their ids, and the links in the order of appending.
pub struct SessionInner {
    pub id: u64,
    pub links: Vec<Arc<Link>>,
    /// No two parties bear the same name.
    pub parties: Vec<PartyMappedByName>,
    pub parties_highest_id: u64,
    pub links_highest_id: u64,
}

impl View for SessionInner {
    type V = SessionView;

    open spec fn view(&self) -> SessionView {
        SessionView {
            id: self.id as nat,
            parties: self.parties@.map_values(|p: PartyMappedByName| p.0@),
            links: link_views(self.links@),
            parties_highest_id: self.parties_highest_id as nat,
            links_highest_id: self.links_highest_id as nat,
        }
    }
}

/// What shared links hold, one by one.
pub open spec fn link_views(links: Seq<Arc<Link>>) -> Seq<LinkView> {
    links.map_values(|l: Arc<Link>| l@)
}

/// The characters of an optional string slice.
pub open spec fn label_text(label: Option<&str>) -> Option<Seq<char>> {
    match label {
        Some(l) => Some(l@),
        None => None,
    }
}

/// The appends of the example diagram.
pub open spec fn example_appends(timestamp: nat) -> Seq<Append> {
    seq![
        Append { timestamp, from: "a"@, to: "b"@, label: Some("Request"@) },
        Append { timestamp, from: "b"@, to: "c"@, label: Some("Forward"@) },
        Append { timestamp, from: "c"@, to: "a"@, label: Some("Response"@) },
    ]
}

/// In a sequence whose first `k` items fail `pred` and whose other items
/// meet it, the items that meet `pred` are those from `k` on.
proof fn lemma_filter_is_suffix<A>(s: Seq<A>, pred: spec_fn(A) -> bool, k: int)
    requires
        0 <= k <= s.len(),
        forall|j: int| 0 <= j < k ==> !pred(#[trigger] s[j]),
        forall|j: int| k <= j < s.len() ==> pred(#[trigger] s[j]),
    ensures
        s.filter(pred) == s.subrange(k, s.len() as int),
    decreases s.len(),
{
    reveal(Seq::filter);
    if s.len() == 0 {
        assert(s.filter(pred) =~= s.subrange(k, s.len() as int));
    } else if k == s.len() {
        // Nothing meets `pred`: neither the last item nor any before it.
        let rest = s.drop_last();
        lemma_filter_is_suffix(rest, pred, k - 1);
        assert(!pred(s[k - 1]));
        assert(rest.subrange(k - 1, rest.len() as int) =~= Seq::<A>::empty());
        assert(s.filter(pred) =~= s.subrange(k, s.len() as int));
    } else {
        // The last item meets `pred` and follows those of the rest that do.
        let rest = s.drop_last();
        lemma_filter_is_suffix(rest, pred, k);
        assert(pred(s[s.len() - 1]));
        assert(rest.subrange(k, rest.len() as int).push(s.last()) =~= s.subrange(
            k,
            s.len() as int,
        ));
    }
}

impl SessionInner {
    /// The invariant of a session, which every method keeps.
    pub open spec fn wf(&self) -> bool {
        self@.wf()
    }

    /// Whether the party counter can issue another id.
    pub open spec fn can_add_party(&self) -> bool {
        self.parties_highest_id < u64::MAX
    }

    /// Whether the counters can issue the ids that `n` more links may take:
    /// one for each link and one for each of its two parties.
    pub open spec fn can_add_links(&self, n: nat) -> bool {
        &&& self.parties_highest_id + 2 * n <= u64::MAX
        &&& self.links_highest_id + n <= u64::MAX
    }

    /// Whether the counters can issue the ids that one more link may take.
    pub open spec fn can_add_link(&self) -> bool {
        self.can_add_links(1)
    }

    /// An empty session. Both counters start from 1, so that the first party
    /// and the first link each get the id 2.
    pub fn new(id: u64) -> (session: Self)
        ensures
            session@ == SessionView::new(id as nat),
            session.wf(),
    {
        let session = SessionInner {
            id,
            links: Vec::new(),
            parties: Vec::new(),
            parties_highest_id: 1,
            links_highest_id: 1,
        };
        assert(session@.parties =~= Seq::<PartyView>::empty());
        assert(session@.links =~= Seq::<LinkView>::empty());
        session
    }

    /// Whether one more link can be appended without exhausting the ids.
    pub fn has_room(&self) -> (room: bool)
        ensures
            room == self.can_add_link(),
    {
        self.has_room_for(1)
    }

    /// Whether `n` more links can be appended without exhausting the ids.
    pub fn has_room_for(&self, n: u32) -> (room: bool)
        ensures
            room == self.can_add_links(n as nat),
    {
        let n: u64 = n as u64;
        self.parties_highest_id <= u64::MAX - 2 * n && self.links_highest_id <= u64::MAX - n
    }

    /// The highest link id issued so far, and the links with an id greater
    /// than `id`, in log order. Handing the first component back as `id`
    /// gives the links appended since.
    pub fn links_above_id(&self, id: u64) -> (res: (u64, Vec<Arc<Link>>))
        requires
            self.wf(),
        ensures
            res.0 == self.links_highest_id,
            link_views(res.1@) == self@.links_above(id as nat),
            res.1@ == self.links@.subrange(self@.first_above(id as nat), self.links.len() as int),
    {
        let len = self.links.len();
        let mut start = len;
        while start > 0 && self.links[start - 1].id > id
            invariant
                self.wf(),
                len == self.links.len(),
                start <= len,
                forall|j: int| start <= j < len ==> (#[trigger] self@.links[j]).id > id,
            decreases start,
        {
            start -= 1;
        }
        proof {
            let above = |l: LinkView| l.id > id as nat;
            assert forall|j: int| 0 <= j < start implies !above(#[trigger] self@.links[j]) by {
                assert(self@.links[start - 1].id <= id);
            }
            lemma_filter_is_suffix(self@.links, above, start as int);
            // Ids rise by one along the log, so `start` is where they pass `id`.
            if start < len {
                assert(self@.links[start as int].id > id);
            }
            if start > 0 {
                assert(self@.links[start - 1].id <= id);
            }
            assert(start == self@.first_above(id as nat));
        }
        let mut links: Vec<Arc<Link>> = Vec::new();
        let mut i = start;
        while i < len
            invariant
                len == self.links.len(),
                start <= i <= len,
                links@ == self.links@.subrange(start as int, i as int),
            decreases len - i,
        {
            links.push(share(&self.links[i]));
            assert(links@ =~= self.links@.subrange(start as int, i + 1));
            i += 1;
        }
        assert(link_views(links@) =~= self@.links.subrange(start as int, len as int));
        (self.links_highest_id, links)
    }

    /// Appends a link from the party named `from` to the party named `to`,
    /// sighting either for the first time if need be, and returns the id of
    /// the link: one more than the highest issued before.
    pub fn add_link(&mut self, timestamp: u64, from: &str, to: &str, label: Option<&str>) -> (id: u64)
        requires
            old(self).wf(),
            old(self).can_add_link(),
        ensures
            final(self).wf(),
            final(self)@ == old(self)@.add_link(
                Append {
                    timestamp: timestamp as nat,
                    from: from@,
                    to: to@,
                    label: label_text(label),
                },
            ),
            id == old(self).links_highest_id + 1,
            id == old(self).links@.len() + first_id(),
            // The counter is the id just issued, which the new last link
            // bears; the links there were stay, each as it was.
            final(self).links_highest_id == id,
            final(self)@.links.last().id == id,
            final(self)@.links.drop_last() == old(self)@.links,
            forall|i: int|
                0 <= i < old(self)@.links.len() ==> (#[trigger] old(self)@.links[i]).id < id,
            // The parties afterwards are those there were and the two ends.
            old(self)@.parties.is_prefix_of(final(self)@.parties),
            final(self)@.party_names() == old(self)@.party_names().insert(from@).insert(to@),
            final(self).id == old(self).id,
    {
        let ghost before = self@;
        let ghost append = Append {
            timestamp: timestamp as nat,
            from: from@,
            to: to@,
            label: label_text(label),
        };
        proof {
            before.lemma_add_party(from@);
            before.add_party(from@).0.lemma_add_party(to@);
            before.lemma_add_link(append);
        }
        let from = self.add_party(from);
        let to = self.add_party(to);
        let label = match label {
            Some(l) => Some(l.to_owned()),
            None => None,
        };
        self.links_highest_id += 1;
        let link = Link::new(self.links_highest_id, timestamp, from, to, label);
        self.links.push(Arc::new(link));
        assert(self@.links =~= before.add_link(append).links);
        assert(self@.parties =~= before.add_link(append).parties);
        self.links_highest_id
    }

    /// Appends a link as [`SessionInner::add_link`] does and returns its id,
    /// unless the counters cannot issue the ids that the link may take: then
    /// the session stays as it is and `None` is returned.
    pub fn try_add_link(&mut self, timestamp: u64, from: &str, to: &str, label: Option<&str>) -> (id: Option<u64>)
        requires
            old(self).wf(),
        ensures
            final(self).wf(),
            old(self).can_add_link() ==> id == Some((old(self).links_highest_id + 1) as u64)
                && final(self)@ == old(self)@.add_link(
                Append {
                    timestamp: timestamp as nat,
                    from: from@,
                    to: to@,
                    label: label_text(label),
                },
            ),
            !old(self).can_add_link() ==> id is None && *final(self) == *old(self),
    {
        if self.has_room() {
            Some(self.add_link(timestamp, from, to, label))
        } else {
            None
        }
    }

    /// Appends the example diagram: a request from `a` to `b`, which `b`
    /// forwards to `c`, which answers `a`.
    pub fn add_example(&mut self, timestamp: u64)
        requires
            old(self).wf(),
            old(self).can_add_links(3),
        ensures
            final(self).wf(),
            final(self)@ == old(self)@.add_links(example_appends(timestamp as nat)),
    {
        let ghost before = self@;
        let ghost appends = example_appends(timestamp as nat);
        proof {
            reveal_with_fuel(SessionView::add_links, 4);
            assert(appends.drop_last() =~= seq![appends[0], appends[1]]);
            assert(appends.drop_last().drop_last() =~= seq![appends[0]]);
            assert(appends.drop_last().drop_last().drop_last() =~= Seq::<Append>::empty());
            assert(before.add_links(appends) == before.add_link(appends[0]).add_link(
                appends[1],
            ).add_link(appends[2]));
            before.lemma_add_link(appends[0]);
            before.add_link(appends[0]).lemma_add_link(appends[1]);
        }
        self.add_link(timestamp, "a", "b", Some("Request"));
        self.add_link(timestamp, "b", "c", Some("Forward"));
        self.add_link(timestamp, "c", "a", Some("Response"));
    }

    /// Resolves `name` to the party that bears it. A name sighted before
    /// gives the party it gave then, and the session stays as it was; a new
    /// name becomes the last party, under the next id.
    pub fn add_party(&mut self, name: &str) -> (party: Arc<Party>)
        requires
            old(self).wf(),
            old(self).can_add_party() || old(self)@.has_party(name@),
        ensures
            final(self).wf(),
            final(self)@ == old(self)@.add_party(name@).0,
            party@ == old(self)@.add_party(name@).1,
            final(self).links == old(self).links,
            // The party bears the name and is one of the session's; a name
            // sighted before takes no id and changes nothing.
            party@.name == name@,
            final(self)@.is_party(party@),
            old(self)@.has_party(name@) ==> final(self)@ == old(self)@,
            old(self)@.parties.is_prefix_of(final(self)@.parties),
            final(self).id == old(self).id,
    {
        let ghost before = self@;
        proof {
            before.lemma_add_party(name@);
        }
        let probe = PartyMappedByName(Arc::new(Party::new(name)));
        let mut i: usize = 0;
        while i < self.parties.len()
            invariant
                *self == *old(self),
                before == self@,
                before.wf(),
                probe.0@.name == name@,
                i <= self.parties.len(),
                forall|j: int| 0 <= j < i ==> (#[trigger] before.parties[j]).name != name@,
            decreases self.parties.len() - i,
        {
            if self.parties[i] == probe {
                proof {
                    // The name stands at `i` and nowhere else.
                    assert(before.parties[i as int].name == name@);
                    assert(before.has_party(name@));
                    assert(before.party_index(name@) == i);
                }
                return share(&self.parties[i].0);
            }
            i += 1;
        }
        assert(!before.has_party(name@));
        self.parties_highest_id += 1;
        let party = Arc::new(Party { id: self.parties_highest_id, name: name.to_owned(), label: None });
        self.parties.push(PartyMappedByName(share(&party)));
        assert(self@.parties =~= before.add_party(name@).0.parties);
        assert(self@.links =~= before.links);
        party
    }
}

} // verus!
