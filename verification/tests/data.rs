use chrono::{Duration, Utc};
use diagramer::data::random::{get_random, id_of_draw, u64_from_be_bytes};
use diagramer::data::{
    Link, NewSessionError, Party, PartyMappedByName, SessionInner, SessionLock, Sessions,
};
use std::cmp::Ordering;
use std::collections::HashSet;
use std::sync::Arc;

fn millis(time: chrono::DateTime<Utc>) -> u64 {
    time.timestamp_millis().try_into().unwrap()
}

fn simple_graph() -> Arc<SessionLock> {
    let mut sessions = Sessions::new();
    let session = sessions.new_session().unwrap();
    {
        let (mut inner, guard) = session.acquire_write();
        let now = Utc::now();

        inner.add_link(millis(now + Duration::seconds(1)), "a", "b", Some("a->b"));
        inner.add_link(millis(now + Duration::seconds(2)), "b", "c", Some("b->c"));
        inner.add_link(millis(now + Duration::seconds(3)), "c", "b", Some("c->b"));
        inner.add_link(millis(now + Duration::seconds(4)), "b", "a", None);
        guard.release_write(inner);
    }
    session
}

#[test]
fn build_simple_graph() {
    let session = simple_graph();
    let guard = session.acquire_read();
    let session = guard.borrow();
    assert_eq!(3, session.parties.len());
    assert_eq!(4, session.links.len());
    assert_eq!(2, session.links[0].id);
    assert_eq!("a", session.links[0].from.name);
    assert_eq!("b", session.links[0].to.name);
    assert_eq!("a->b", Option::as_ref(&session.links[0].label).unwrap());
    assert_eq!(3, session.links[1].id);
    assert_eq!("b", session.links[1].from.name);
    assert_eq!("c", session.links[1].to.name);
    assert_eq!("b->c", Option::as_ref(&session.links[1].label).unwrap());
    assert_eq!(4, session.links[2].id);
    assert_eq!("c", session.links[2].from.name);
    assert_eq!("b", session.links[2].to.name);
    assert_eq!("c->b", Option::as_ref(&session.links[2].label).unwrap());
    assert_eq!(5, session.links[3].id);
    assert_eq!("b", session.links[3].from.name);
    assert_eq!("a", session.links[3].to.name);
    assert_eq!(None, Option::as_ref(&session.links[3].label));
    guard.release_read();
}

#[test]
fn get_links_above_2_after_two_links() {
    let session = simple_graph();
    let guard = session.acquire_read();
    let session = guard.borrow();
    let id = session.links[1].id;
    assert_eq!(3, id);
    assert_eq!(2, session.links_above_id(id).1.len());
    assert_eq!(4, session.links_above_id(id).1[0].id);
    assert_eq!(5, session.links_above_id(id).1[1].id);
    assert!(session.links_above_id(5).1.is_empty());

    assert_eq!(3, session.links_above_id(2).1.len());
    assert_eq!(3, session.links_above_id(2).1[0].id);
    assert_eq!(4, session.links_above_id(2).1[1].id);
    assert_eq!(1, session.links_above_id(4).1.len());
    assert_eq!(5, session.links_above_id(4).1[0].id);
    guard.release_read();
}

#[test]
fn new_party_is_unnumbered() {
    let party = Party::new("alice");
    assert_eq!(0, party.id);
    assert_eq!("alice", party.name);
    assert_eq!(None, party.label);
}

#[test]
fn parties_compare_by_id() {
    let mut a = Party::new("a");
    let mut b = Party::new("b");
    a.id = 2;
    b.id = 3;
    assert!(a < b);
    assert!(a != b);
    assert_eq!(Some(Ordering::Less), a.partial_cmp(&b));
    assert_eq!(Some(Ordering::Greater), b.partial_cmp(&a));
    b.id = 2;
    assert!(a == b);
    assert_eq!(Some(Ordering::Equal), a.partial_cmp(&b));
}

#[test]
fn parties_by_name_compare_by_name() {
    let mut first = Party::new("a");
    first.id = 2;
    let mut second = Party::new("a");
    second.id = 9;
    second.label = Some("Alice".to_string());
    let other = Party::new("A");
    assert!(PartyMappedByName(Arc::new(first)) == PartyMappedByName(Arc::new(second)));
    let again = Party::new("a");
    assert!(PartyMappedByName(Arc::new(again)) != PartyMappedByName(Arc::new(other)));
}

#[test]
fn parties_by_name_hash_by_name() {
    let mut set = HashSet::new();
    let mut numbered = Party::new("a");
    numbered.id = 2;
    assert!(set.insert(PartyMappedByName(Arc::new(numbered))));
    assert!(!set.insert(PartyMappedByName(Arc::new(Party::new("a")))));
    assert!(set.insert(PartyMappedByName(Arc::new(Party::new("b")))));
    let found = set.get(&PartyMappedByName(Arc::new(Party::new("a")))).unwrap().clone();
    assert_eq!(2, found.0.id);
    assert_eq!(2, set.len());
}

#[test]
fn link_keeps_what_it_is_given() {
    let from = Arc::new(Party::new("a"));
    let to = Arc::new(Party::new("b"));
    let link = Link::new(7, 1234, from, to, Some("hello".to_string()));
    assert_eq!(7, link.id);
    assert_eq!(1234, link.timestamp);
    assert_eq!("a", link.from.name);
    assert_eq!("b", link.to.name);
    assert_eq!(Some("hello"), link.label.as_deref());
}

#[test]
fn new_session_is_empty_and_counts_from_one() {
    let session = SessionInner::new(42);
    assert_eq!(42, session.id);
    assert!(session.links.is_empty());
    assert!(session.parties.is_empty());
    assert_eq!(1, session.parties_highest_id);
    assert_eq!(1, session.links_highest_id);
    assert!(session.has_room());
    let (highest, links) = session.links_above_id(0);
    assert_eq!(1, highest);
    assert!(links.is_empty());
}

#[test]
fn first_ids_are_two() {
    let mut session = SessionInner::new(1);
    let party = session.add_party("a");
    assert_eq!(2, party.id);
    let link = session.add_link(0, "a", "b", None);
    assert_eq!(2, link);
    assert_eq!(3, session.links[0].to.id);
}

#[test]
fn link_ids_count_the_appends() {
    let mut session = SessionInner::new(1);
    for k in 0..100u64 {
        let from = format!("node-{}", k % 7);
        let to = format!("node-{}", (k + 1) % 7);
        assert_eq!(k + 2, session.add_link(k, &from, &to, None));
    }
    for (k, link) in session.links.iter().enumerate() {
        assert_eq!(k as u64 + 2, link.id);
    }
    assert_eq!(101, session.links_highest_id);
}

#[test]
fn same_name_same_party() {
    let mut session = SessionInner::new(1);
    let first = session.add_party("a");
    let other = session.add_party("b");
    session.add_link(0, "c", "a", None);
    let second = session.add_party("a");
    assert_eq!(first.id, second.id);
    assert_eq!(2, second.id);
    assert_ne!(first.id, other.id);
    assert_eq!(3, session.parties.len());
    assert_eq!(4, session.parties_highest_id);
}

#[test]
fn names_differ_by_case_and_space() {
    let mut session = SessionInner::new(1);
    let ids = [
        session.add_party("Alice").id,
        session.add_party("alice").id,
        session.add_party("alice ").id,
        session.add_party("").id,
    ];
    assert_eq!([2, 3, 4, 5], ids);
}

#[test]
fn poll_with_highest_id_finds_nothing_new() {
    let mut session = SessionInner::new(1);
    for x in 0..8 {
        let (highest, _) = session.links_above_id(x);
        let (again, links) = session.links_above_id(highest);
        assert_eq!(highest, again);
        assert!(links.is_empty());
    }
    session.add_link(0, "a", "b", None);
    session.add_link(0, "b", "a", None);
    session.add_link(0, "a", "c", None);
    for x in 0..8 {
        let (highest, links) = session.links_above_id(x);
        assert_eq!(4, highest);
        let expected = (2..=4u64).filter(|id| *id > x).collect::<Vec<_>>();
        assert_eq!(expected, links.iter().map(|l| l.id).collect::<Vec<_>>());
        assert!(session.links_above_id(highest).1.is_empty());
    }
}

#[test]
fn polls_deliver_every_link_once() {
    let mut session = SessionInner::new(1);
    let mut token = 0;
    let mut seen = Vec::new();
    for round in 0..5u64 {
        for k in 0..round {
            session.add_link(k, "a", "b", None);
        }
        let (highest, links) = session.links_above_id(token);
        seen.extend(links.iter().map(|l| l.id));
        token = highest;
    }
    assert_eq!((2..12u64).collect::<Vec<_>>(), seen);
}

#[test]
fn appends_yield_one_party_for_each_name() {
    let mut session = SessionInner::new(1);
    let mut names = HashSet::new();
    for k in 0..1000u64 {
        let from = format!("node-{}", k % 100);
        let to = format!("node-{}", (k * 7 + 1) % 100);
        session.add_link(k, &from, &to, Some("x"));
        names.insert(from);
        names.insert(to);
    }
    assert_eq!(names.len(), session.parties.len());
    assert_eq!(100, session.parties.len());
    assert_eq!(1000, session.links.len());
    let listed = session.parties.iter().map(|p| p.0.name.clone()).collect::<HashSet<_>>();
    assert_eq!(names, listed);
    for (k, party) in session.parties.iter().enumerate() {
        assert_eq!(k as u64 + 2, party.0.id);
    }
}

#[test]
fn full_session_has_no_room() {
    let mut session = SessionInner::new(1);
    session.links_highest_id = u64::MAX;
    assert!(!session.has_room());
    session.links_highest_id = u64::MAX - 1;
    assert!(session.has_room());
    assert!(!session.has_room_for(2));
    session.parties_highest_id = u64::MAX - 1;
    assert!(!session.has_room());
    session.parties_highest_id = u64::MAX - 2;
    assert!(session.has_room());
}

#[test]
fn example_has_three_links() {
    let mut session = SessionInner::new(1);
    session.add_example(99);
    let links = session
        .links
        .iter()
        .map(|l| (l.id, l.timestamp, l.from.name.as_str(), l.to.name.as_str(), l.label.as_deref()))
        .collect::<Vec<_>>();
    assert_eq!(
        vec![
            (2, 99, "a", "b", Some("Request")),
            (3, 99, "b", "c", Some("Forward")),
            (4, 99, "c", "a", Some("Response")),
        ],
        links
    );
    assert_eq!(3, session.parties.len());
}

#[test]
fn table_creates_each_id_once() {
    let mut table = Sessions::new();
    assert_eq!(0, table.len());
    assert!(table.get(5).is_none());
    let created = table.create(5).unwrap();
    assert_eq!(1, table.len());
    {
        let guard = created.acquire_read();
        assert_eq!(5, guard.borrow().id);
        assert!(guard.borrow().links.is_empty());
        guard.release_read();
    }
    assert!(table.create(5).is_none());
    assert_eq!(1, table.len());
    assert!(Arc::ptr_eq(&created, &table.get(5).unwrap()));
    assert!(table.create(6).is_some());
    assert_eq!(2, table.len());
    assert!(table.get(7).is_none());
    assert_eq!(2, table.len());
}

#[test]
fn created_sessions_have_different_ids() {
    let mut sessions = Sessions::new();
    let mut ids = HashSet::new();
    for round in 0..10000 {
        assert_eq!(round, sessions.len());
        let id = sessions.draw_id().unwrap();
        assert!(sessions.get(id).is_none());
        let session = sessions.new_session().unwrap();
        let guard = session.acquire_read();
        let id = guard.borrow().id;
        assert!(guard.borrow().links.is_empty());
        assert!(guard.borrow().parties.is_empty());
        guard.release_read();
        assert!(ids.insert(id));
        assert!(Arc::ptr_eq(&session, &sessions.get(id).unwrap()));
    }
    assert_eq!(10000, ids.len());
    assert_eq!(10000, sessions.len());
}

#[test]
fn lookup_of_unknown_id_finds_nothing() {
    let mut sessions = Sessions::new();
    assert!(sessions.get(0).is_none());
    let session = sessions.new_session().unwrap();
    let guard = session.acquire_read();
    let id = guard.borrow().id;
    guard.release_read();
    for k in 1..1000u64 {
        assert!(sessions.get(id.wrapping_add(k)).is_none());
    }
    assert_eq!(1, sessions.len());
    assert!(sessions.get(id).is_some());
}

#[test]
fn session_is_shared_by_those_who_looked_it_up() {
    let mut sessions = Sessions::new();
    let session = sessions.new_session().unwrap();
    let (mut inner, guard) = session.acquire_write();
    let id = inner.id;
    inner.add_link(0, "a", "b", None);
    guard.release_write(inner);
    let found = sessions.get(id).unwrap();
    let guard = found.acquire_read();
    assert_eq!(1, guard.borrow().links.len());
    guard.release_read();
}

#[test]
fn registered_session_keeps_what_it_holds() {
    let mut sessions = Sessions::new();
    let mut session = SessionInner::new(77);
    session.add_example(5);
    let lock = sessions.insert(session).unwrap();
    assert!(Arc::ptr_eq(&lock, &sessions.get(77).unwrap()));
    let guard = lock.acquire_read();
    assert_eq!((77, 3, 3), (guard.borrow().id, guard.borrow().links.len(), guard.borrow().parties.len()));
    guard.release_read();
    assert!(sessions.insert(SessionInner::new(77)).is_none());
    assert!(sessions.create(77).is_none());
    assert_eq!(1, sessions.len());
}

#[test]
fn taken_draw_is_discarded_and_free_draw_is_taken() {
    let mut sessions = Sessions::new();
    let stored = sessions.create(5).unwrap();
    assert_eq!(Err(NewSessionError::RandomSource), sessions.judge_draw(None));
    assert_eq!(Ok(None), sessions.judge_draw(Some(5)));
    assert_eq!(Ok(Some(6)), sessions.judge_draw(Some(6)));
    assert_eq!(Ok(Some(0)), sessions.judge_draw(Some(0)));
    assert_eq!(1, sessions.len());
    assert!(Arc::ptr_eq(&stored, &sessions.get(5).unwrap()));
    assert!(sessions.get(6).is_none());
    let drawn = [Some(5), Some(5), Some(9), Some(7)];
    let first = drawn.iter().find_map(|d| sessions.judge_draw(*d).unwrap());
    assert_eq!(Some(9), first);
}

#[test]
fn link_is_appended_only_where_there_is_room() {
    let mut session = SessionInner::new(1);
    assert_eq!(Some(2), session.try_add_link(7, "a", "b", Some("x")));
    assert_eq!(Some(3), session.try_add_link(8, "b", "c", None));
    assert_eq!((2, 3, 3, 4), (
        session.links.len(),
        session.parties.len(),
        session.links_highest_id,
        session.parties_highest_id,
    ));
    session.links_highest_id = u64::MAX;
    assert_eq!(None, session.try_add_link(9, "c", "d", None));
    assert_eq!((2, 3, u64::MAX, 4), (
        session.links.len(),
        session.parties.len(),
        session.links_highest_id,
        session.parties_highest_id,
    ));
    session.links_highest_id = 3;
    session.parties_highest_id = u64::MAX - 1;
    assert_eq!(None, session.try_add_link(9, "a", "b", None));
    assert_eq!((2, 3, 3, u64::MAX - 1), (
        session.links.len(),
        session.parties.len(),
        session.links_highest_id,
        session.parties_highest_id,
    ));
}

#[test]
fn known_name_needs_no_room() {
    let mut session = SessionInner::new(1);
    session.add_party("a");
    session.parties_highest_id = u64::MAX;
    let again = session.add_party("a");
    assert_eq!((2, "a"), (again.id, again.name.as_str()));
    assert_eq!((1, u64::MAX), (session.parties.len(), session.parties_highest_id));
}

#[test]
fn draw_gives_the_number_of_the_bytes_or_nothing() {
    assert_eq!(Some(0x0102030405060708), id_of_draw(Ok(()), &[1, 2, 3, 4, 5, 6, 7, 8]));
    assert_eq!(Some(0), id_of_draw(Ok(()), &[0; 8]));
    assert_eq!(None, id_of_draw(Err(ring::error::Unspecified), &[1, 2, 3, 4, 5, 6, 7, 8]));
}

#[test]
fn random_ids_are_not_constant() {
    let drawn = (0..16).map(|_| get_random().unwrap()).collect::<HashSet<_>>();
    assert!(drawn.len() > 1);
}

#[test]
fn bytes_spell_numbers_highest_first() {
    assert_eq!(0, u64_from_be_bytes(&[0; 8]));
    assert_eq!(1, u64_from_be_bytes(&[0, 0, 0, 0, 0, 0, 0, 1]));
    assert_eq!(0x0102030405060708, u64_from_be_bytes(&[1, 2, 3, 4, 5, 6, 7, 8]));
    assert_eq!(u64::MAX, u64_from_be_bytes(&[255; 8]));
    assert_eq!(u64::from_be_bytes([9, 0, 0, 0, 0, 0, 0, 0]), u64_from_be_bytes(&[9, 0, 0, 0, 0, 0, 0, 0]));
}

#[test]
fn creation_errors_are_told_apart() {
    assert_ne!(NewSessionError::RandomSource, NewSessionError::Collisions);
}
