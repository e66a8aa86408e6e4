//! The registry of sessions: the table of the sessions by id, each session
//! behind a lock of its own.
//!
//! The table is a value that its owner holds: who looks a session up
//! borrows the table, who creates one borrows it alone, and either gives it
//! back before the session's own lock is taken, so that no session waits for
//! another. Who shares a registry among callers puts it behind a lock of
//! theirs.

use super::random::get_random;
use super::session::SessionInner;
use crate::shared::share;
use std::collections::HashMap;
use std::sync::Arc;
use vstd::prelude::*;
use vstd::rwlock::{RwLock, RwLockPredicate};

verus! {

/// What the lock of the session `id` admits: the well-formed states of that
/// session.
pub struct SessionInv {
    pub id: u64,
}

impl RwLockPredicate<SessionInner> for SessionInv {
    open spec fn inv(self, v: SessionInner) -> bool {
        v.wf() && v.id == self.id
    }
}

/// A session behind its lock: any number of readers, or one writer.
pub type SessionLock = RwLock<SessionInner, SessionInv>;

/// How often [`Sessions::draw_id`] draws an id before it gives up.
pub const MAX_ID_DRAWS: usize = 64;

/// Why no session was created.
#[derive(Clone, Copy, Debug, PartialEq, Eq, Structural)]
pub enum NewSessionError {
    /// The operating system gave no random bytes.
    RandomSource,
    /// Every id drawn was already taken.
    Collisions,
}

/// The sessions by id. Sessions are added and never removed.
pub struct Sessions {
    sessions: HashMap<u64, Arc<SessionLock>>,
}

impl View for Sessions {
    type V = Map<u64, Arc<SessionLock>>;

    closed spec fn view(&self) -> Map<u64, Arc<SessionLock>> {
        self.sessions@
    }
}

impl Sessions {
    /// The invariant of the registry: under each id stands the lock of the
    /// session with that id.
    pub open spec fn wf(&self) -> bool {
        forall|id: u64| self@.contains_key(id) ==> (#[trigger] self@[id]).pred().id == id
    }

    /// The ids in use.
    pub open spec fn ids(&self) -> Set<u64> {
        self@.dom()
    }

    /// A registry without sessions.
    pub fn new() -> (sessions: Self)
        ensures
            sessions@ == Map::<u64, Arc<SessionLock>>::empty(),
            sessions.wf(),
    {
        Sessions { sessions: HashMap::new() }
    }

    /// The number of sessions.
    pub fn len(&self) -> (len: usize)
        ensures
            len == self@.len(),
    {
        self.sessions.len()
    }

    /// The session `id`, or `None` where there is none. The registry stays
    /// as it is either way.
    pub fn get(&self, id: u64) -> (found: Option<Arc<SessionLock>>)
        ensures
            found == (if self@.contains_key(id) {
                Some(self@[id])
            } else {
                None
            }),
    {
        match self.sessions.get(&id) {
            Some(lock) => Some(share(lock)),
            None => None,
        }
    }

    /// Registers `session` under its id, behind a lock of its own, unless
    /// the id is in use: then the registry stays as it is and `None` is
    /// returned.
    pub fn insert(&mut self, session: SessionInner) -> (created: Option<Arc<SessionLock>>)
        requires
            old(self).wf(),
            session.wf(),
        ensures
            final(self).wf(),
            created is Some <==> accepts(old(self).ids(), session.id),
            created is None ==> final(self)@ == old(self)@,
            created matches Some(lock) ==> lock.pred() == (SessionInv { id: session.id })
                && final(self)@ == old(self)@.insert(session.id, lock),
    {
        let id = session.id;
        if self.sessions.contains_key(&id) {
            return None;
        }
        let lock = Arc::new(RwLock::new(session, Ghost(SessionInv { id })));
        self.sessions.insert(id, share(&lock));
        proof {
            assert forall|other: u64| self@.contains_key(other) implies (
            #[trigger] self@[other]).pred().id == other by {
                if other != id {
                    assert(old(self)@.contains_key(other));
                    assert(self@[other] == old(self)@[other]);
                }
            }
        }
        Some(lock)
    }

    /// Creates the session `id`, empty, unless the id is in use: then the
    /// registry stays as it is and `None` is returned.
    pub fn create(&mut self, id: u64) -> (created: Option<Arc<SessionLock>>)
        requires
            old(self).wf(),
        ensures
            final(self).wf(),
            created is Some <==> accepts(old(self).ids(), id),
            created is None ==> final(self)@ == old(self)@,
            created matches Some(lock) ==> lock.pred() == (SessionInv { id }) && final(self)@
                == old(self)@.insert(id, lock),
    {
        self.insert(SessionInner::new(id))
    }

    /// What one draw comes to: where the random source failed, the error;
    /// where it gave an id that is free, that id, which ends the drawing;
    /// where it gave an id in use, nothing, and the id is discarded: the
    /// session that stands under it stays, and another id is to be drawn.
    pub fn judge_draw(&self, drawn: Option<u64>) -> (step: Result<Option<u64>, NewSessionError>)
        ensures
            step == (match drawn {
                None => Err::<Option<u64>, NewSessionError>(NewSessionError::RandomSource),
                Some(id) => Ok::<Option<u64>, NewSessionError>(
                    if self.ids().contains(id) {
                        None
                    } else {
                        Some(id)
                    },
                ),
            }),
    {
        match drawn {
            None => Err(NewSessionError::RandomSource),
            Some(id) => if self.sessions.contains_key(&id) {
                Ok(None)
            } else {
                Ok(Some(id))
            },
        }
    }

    /// Draws a random id that no session has: the first id drawn that
    /// [`Sessions::judge_draw`] lets pass. Ids are drawn up to
    /// [`MAX_ID_DRAWS`] times in all.
    pub fn draw_id(&self) -> (drawn: Result<u64, NewSessionError>)
        ensures
            drawn matches Ok(id) ==> accepts(self.ids(), id),
    {
        let mut draws: usize = 0;
        while draws < MAX_ID_DRAWS
            decreases MAX_ID_DRAWS - draws,
        {
            draws += 1;
            match self.judge_draw(get_random()) {
                Err(error) => {
                    return Err(error);
                },
                Ok(Some(id)) => {
                    return Ok(id);
                },
                Ok(None) => {},
            }
        }
        Err(NewSessionError::Collisions)
    }

    /// Creates an empty session under a random id that no session has, and
    /// hands out its lock. Where no such id can be drawn, the registry stays
    /// as it is.
    ///
    /// The registry is borrowed alone from the first draw to the insertion,
    /// so that no one else can take the id in between.
    pub fn new_session(&mut self) -> (created: Result<Arc<SessionLock>, NewSessionError>)
        requires
            old(self).wf(),
        ensures
            final(self).wf(),
            created matches Ok(lock) ==> accepts(old(self).ids(), lock.pred().id) && final(self)@
                == old(self)@.insert(lock.pred().id, lock),
            created is Err ==> final(self)@ == old(self)@,
    {
        match self.draw_id() {
            Ok(id) => match self.create(id) {
                Some(lock) => Ok(lock),
                None => Err(NewSessionError::Collisions),
            },
            Err(error) => Err(error),
        }
    }
}

/// Whether creation under `id` succeeds where the ids of `taken` are in
/// use.
pub open spec fn accepts(taken: Set<u64>, id: u64) -> bool {
    !taken.contains(id)
}

/// The ids under which sessions come to stand when creation is tried with
/// each of `candidates` in turn, where the ids of `taken` are in use at the
/// beginning and none is ever given up.
pub open spec fn accepted(taken: Set<u64>, candidates: Seq<u64>) -> Seq<u64>
    decreases candidates.len(),
{
    if candidates.len() == 0 {
        Seq::empty()
    } else {
        let earlier = accepted(taken, candidates.drop_last());
        if accepts(taken.union(earlier.to_set()), candidates.last()) {
            earlier.push(candidates.last())
        } else {
            earlier
        }
    }
}

/// However often sessions are created and whatever ids are drawn, no two
/// sessions get the same id, and none gets an id that was in use.
pub proof fn lemma_created_ids_differ(taken: Set<u64>, candidates: Seq<u64>)
    ensures
        accepted(taken, candidates).no_duplicates(),
        forall|i: int|
            0 <= i < accepted(taken, candidates).len() ==> !taken.contains(
                #[trigger] accepted(taken, candidates)[i],
            ),
    decreases candidates.len(),
{
    if candidates.len() > 0 {
        lemma_created_ids_differ(taken, candidates.drop_last());
        let earlier = accepted(taken, candidates.drop_last());
        if accepts(taken.union(earlier.to_set()), candidates.last()) {
            assert forall|i: int| 0 <= i < earlier.len() implies earlier[i]
                != candidates.last() by {
                assert(earlier.to_set().contains(earlier[i]));
            }
        }
    }
}

} // verus!
