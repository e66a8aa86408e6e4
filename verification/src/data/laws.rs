//! What holds of every session, whatever was appended to it and in whatever
//! order. Appends to one session exclude one another, so what several
//! callers append at once is one of these sequences.

use super::link::LinkView;
use super::model::{first_id, names_of, Append, SessionView};
use super::party::PartyView;
use vstd::prelude::*;

verus! {

/// Any sequence of appends keeps a session well formed, adds one link for
/// each append and no party but a new last one, and leaves the session with
/// the parties it had and those that the appends name.
pub proof fn lemma_add_links(session: SessionView, appends: Seq<Append>)
    requires
        session.wf(),
    ensures
        session.add_links(appends).wf(),
        session.add_links(appends).id == session.id,
        session.add_links(appends).links.len() == session.links.len() + appends.len(),
        session.links.is_prefix_of(session.add_links(appends).links),
        session.parties.is_prefix_of(session.add_links(appends).parties),
        session.add_links(appends).party_names() == session.party_names().union(names_of(appends)),
    decreases appends.len(),
{
    if appends.len() == 0 {
        assert(session.party_names().union(names_of(appends)) =~= session.party_names());
    } else {
        let earlier = session.add_links(appends.drop_last());
        lemma_add_links(session, appends.drop_last());
        earlier.lemma_add_link(appends.last());
        let after = earlier.add_link(appends.last());
        assert(after.links.drop_last() == earlier.links);
        assert(session.links.is_prefix_of(after.links)) by {
            assert forall|i: int| 0 <= i < session.links.len() implies session.links[i]
                == after.links[i] by {
                assert(earlier.links[i] == after.links.drop_last()[i]);
            }
        }
        assert(after.party_names() =~= session.party_names().union(names_of(appends)));
    }
}

/// Link ids count the appends: in a session that has seen any sequence of
/// appends, the link at place `k` of the log, which `k` appends came before,
/// has the id `k` more than the first id. So ids rise by one from link to
/// link: none repeats and none is skipped.
pub proof fn lemma_link_ids_count_appends(id: nat, appends: Seq<Append>)
    ensures
        SessionView::new(id).add_links(appends).links.len() == appends.len(),
        forall|k: int|
            0 <= k < appends.len() ==> (#[trigger] SessionView::new(id).add_links(
                appends,
            ).links[k]).id == k + first_id(),
        forall|i: int, j: int|
            0 <= i < j < appends.len() ==> (#[trigger] SessionView::new(id).add_links(
                appends,
            ).links[i]).id < (#[trigger] SessionView::new(id).add_links(appends).links[j]).id,
{
    lemma_add_links(SessionView::new(id), appends);
}

/// The id that an append returns is the number of links before it plus the
/// first id, from whatever well-formed session it starts.
pub proof fn lemma_append_id_counts_links(session: SessionView, append: Append)
    requires
        session.wf(),
    ensures
        session.add_link(append).links.last().id == session.links.len() + first_id(),
        session.add_link(append).links_highest_id == session.links.len() + first_id(),
{
    session.lemma_add_link(append);
}

/// Resolving a name a second time gives the party that the first time gave,
/// and changes nothing.
pub proof fn lemma_resolve_twice(session: SessionView, name: Seq<char>)
    requires
        session.wf(),
    ensures
        session.add_party(name).0.add_party(name).1 == session.add_party(name).1,
        session.add_party(name).0.add_party(name).0 == session.add_party(name).0,
{
    session.lemma_add_party(name);
    let (after, party) = session.add_party(name);
    lemma_resolve_later(after, after, name);
    if session.has_party(name) {
    } else {
        assert(after.parties[session.parties.len() as int].name == name);
    }
}

/// Once a name is sighted it keeps its party: whatever was appended to the
/// session since, resolving the name gives the same party, id included.
pub proof fn lemma_resolve_later(earlier: SessionView, later: SessionView, name: Seq<char>)
    requires
        earlier.wf(),
        later.wf(),
        earlier.parties.is_prefix_of(later.parties),
        earlier.has_party(name),
    ensures
        later.has_party(name),
        later.add_party(name).1 == earlier.add_party(name).1,
        later.add_party(name).0 == later,
{
    let i = earlier.party_index(name);
    assert(later.parties[i] == earlier.parties[i]);
    let j = later.party_index(name);
    assert(later.parties[j].name == name);
    assert(i == j);
}

/// Two different names resolve to parties with two different ids.
pub proof fn lemma_distinct_names_distinct_ids(session: SessionView, a: Seq<char>, b: Seq<char>)
    requires
        session.wf(),
        a != b,
    ensures
        session.add_party(a).0.add_party(b).1.id != session.add_party(a).1.id,
{
    session.lemma_add_party(a);
    let (with_a, party_a) = session.add_party(a);
    with_a.lemma_add_party(b);
    let (with_both, party_b) = with_a.add_party(b);
    assert(with_both.is_party(party_a));
    assert(with_both.is_party(party_b));
}

/// A poll that hands back the highest id it was given finds nothing new in
/// an unchanged log.
pub proof fn lemma_poll_token_drains(session: SessionView)
    requires
        session.wf(),
    ensures
        session.links_above(session.links_highest_id) == Seq::<LinkView>::empty(),
{
    let above = |l: LinkView| l.id > session.links_highest_id;
    assert forall|i: int| 0 <= i < session.links.len() implies !above(
        #[trigger] session.links[i],
    ) by {}
    session.links.lemma_all_neg_filter_empty(above);
}

/// A well-formed session has as many parties as its parties have names.
pub proof fn lemma_parties_count_names(session: SessionView)
    requires
        session.wf(),
    ensures
        session.party_names().finite(),
        session.parties.len() == session.party_names().len(),
{
    let names = session.parties.map_values(|p: PartyView| p.name);
    assert(names.no_duplicates()) by {
        assert forall|i: int, j: int| 0 <= i < names.len() && 0 <= j < names.len() && i != j implies names[i]
            != names[j] by {
            if i < j {
                assert(session.parties[i].name != session.parties[j].name);
            } else {
                assert(session.parties[j].name != session.parties[i].name);
            }
        }
    }
    names.unique_seq_to_set();
}

/// `n` appends to a new session that name `k` different parties leave it
/// with `k` parties and `n` links, in whatever order the appends came.
pub proof fn lemma_appends_yield_parties_and_links(id: nat, appends: Seq<Append>)
    ensures
        SessionView::new(id).add_links(appends).links.len() == appends.len(),
        SessionView::new(id).add_links(appends).party_names() == names_of(appends),
        names_of(appends).finite(),
        SessionView::new(id).add_links(appends).parties.len() == names_of(appends).len(),
{
    let fresh = SessionView::new(id);
    lemma_add_links(fresh, appends);
    lemma_parties_count_names(fresh.add_links(appends));
    assert(fresh.party_names() =~= Set::<Seq<char>>::empty());
    assert(fresh.party_names().union(names_of(appends)) =~= names_of(appends));
}

} // verus!
