//! The operations that a service offers on the sessions of a registry, each
//! by the id of the session.
//!
//! Each operation looks the session up in the registry, which tells whether
//! it succeeds, and then works on the session by its lock, as
//! [`session`] does. Who shares the registry behind a lock can give that
//! lock back in between: [`find`] is the first step alone.

pub mod routes;
pub mod session;
pub mod types;

pub use types::{
    AddLinkRequest, AddLinkResponse, ErrorKind, ErrorResponse, EventResponse, Link,
    NewSessionResponse, Session,
};

use crate::data::laws::lemma_add_links;
use crate::data::model::SessionView;
use crate::data::registry::{accepts, SessionLock, Sessions};
use crate::data::session::{example_appends, SessionInner};
use crate::render::layout::{fits_canvas, layout_of};
use crate::render::mermaid::{diagram_text, Document as MermaidDocument};
use crate::render::vector::{drawing_text, Document as SvgDocument};
use session::state_of;
use std::sync::Arc;
use types::{link_reports, reports_of};
use vstd::prelude::*;

verus! {

/// Whether `after` is `before` with one session more, under the id `id`,
/// which was free.
pub open spec fn registered(before: Sessions, after: Sessions, id: u64) -> bool {
    &&& accepts(before.ids(), id)
    &&& after@.contains_key(id)
    &&& after@.remove(id) == before@
}

/// The session `id` of the registry, or the error that names `cause` where
/// there is no such session.
pub fn find(sessions: &Sessions, id: u64, cause: &str) -> (found: Result<Arc<SessionLock>, ErrorKind>)
    requires
        sessions.wf(),
    ensures
        found is Ok <==> sessions@.contains_key(id),
        found matches Ok(lock) ==> lock == sessions@[id] && lock.pred().id == id,
        found matches Err(error) ==> error.is_not_found(id, cause@),
{
    match sessions.get(id) {
        Some(lock) => Ok(lock),
        None => Err(ErrorKind::not_found(id, cause)),
    }
}

/// Creates a session and tells its id and address. Where no id can be drawn
/// for it, the registry stays as it is.
pub fn new_session(sessions: &mut Sessions) -> (answer: Result<NewSessionResponse, ErrorKind>)
    requires
        old(sessions).wf(),
    ensures
        final(sessions).wf(),
        answer matches Ok(response) ==> exists|id: u64|
            #[trigger] response.describes(id) && registered(*old(sessions), *final(sessions), id),
        answer matches Err(error) ==> error.is_unavailable(0, "No session id could be drawn"@)
            && final(sessions)@ == old(sessions)@,
{
    match sessions.new_session() {
        Ok(lock) => {
            let id = session::id(&lock);
            let response = NewSessionResponse::new(id);
            let answer = Ok(response);
            proof {
                assert(sessions@.remove(id) =~= old(sessions)@);
                assert(answer matches Ok(r) && r.describes(id) && registered(
                    *old(sessions),
                    *sessions,
                    id,
                ));
            }
            answer
        },
        Err(_) => Err(ErrorKind::unavailable(0, "No session id could be drawn")),
    }
}

/// Creates a session that holds the example diagram, and tells its id.
/// Where no id can be drawn for it, the registry stays as it is.
///
/// `timestamp` is the time of the request in milliseconds since the Unix
/// epoch.
pub fn new_example(sessions: &mut Sessions, timestamp: u64) -> (answer: Result<u64, ErrorKind>)
    requires
        old(sessions).wf(),
    ensures
        final(sessions).wf(),
        answer matches Ok(id) ==> registered(*old(sessions), *final(sessions), id),
        answer matches Err(error) ==> error.is_unavailable(0, "No session id could be drawn"@)
            && final(sessions)@ == old(sessions)@,
{
    match sessions.draw_id() {
        Ok(id) => {
            let mut session = SessionInner::new(id);
            session.add_example(timestamp);
            proof {
                // Appending leaves a session its id.
                lemma_add_links(SessionView::new(id as nat), example_appends(timestamp as nat));
            }
            match sessions.insert(session) {
                Some(_) => {
                    assert(sessions@.remove(id) =~= old(sessions)@);
                    Ok(id)
                },
                None => Err(ErrorKind::unavailable(0, "No session id could be drawn")),
            }
        },
        Err(_) => Err(ErrorKind::unavailable(0, "No session id could be drawn")),
    }
}

/// The session `id` with its whole log.
pub fn get_session(sessions: &Sessions, id: u64) -> (answer: Result<Session, ErrorKind>)
    requires
        sessions.wf(),
    ensures
        answer is Ok <==> sessions@.contains_key(id),
        answer matches Ok(session) ==> exists|state: SessionView|
            state_of(state, id) && session.describes(state),
        answer matches Err(error) ==> error.is_not_found(id, "Session not exists"@),
{
    let lock = find(sessions, id, "Session not exists")?;
    Ok(session::get_session(&lock))
}

/// Appends a link to the session `id` and tells the id of the link.
///
/// `timestamp` is the time of the request in milliseconds since the Unix
/// epoch.
pub fn add_link(sessions: &Sessions, id: u64, timestamp: u64, body: &AddLinkRequest<'_>) -> (answer: Result<AddLinkResponse, ErrorKind>)
    requires
        sessions.wf(),
    ensures
        answer matches Ok(response) ==> sessions@.contains_key(id) && exists|state: SessionView|
            state_of(state, id) && response.link_id == state.next_link_id(),
        answer matches Err(error) ==> if sessions@.contains_key(id) {
            error.is_unavailable(id, "Session is full"@)
        } else {
            error.is_not_found(id, "Session doesn't exist"@)
        },
        !sessions@.contains_key(id) ==> answer is Err,
{
    let lock = find(sessions, id, "Session doesn't exist")?;
    session::add_link(&lock, timestamp, body)
}

/// The log of the session `id`.
pub fn get_links(sessions: &Sessions, id: u64) -> (answer: Result<Vec<Link>, ErrorKind>)
    requires
        sessions.wf(),
    ensures
        answer is Ok <==> sessions@.contains_key(id),
        answer matches Ok(links) ==> exists|state: SessionView|
            state_of(state, id) && link_reports(links@) == reports_of(state.links),
        answer matches Err(error) ==> error.is_not_found(id, "Session doesn't exist"@),
{
    let lock = find(sessions, id, "Session doesn't exist")?;
    Ok(session::get_links(&lock))
}

/// What the session `id` got after the link `link_id`, and where to poll
/// next.
pub fn get_events(sessions: &Sessions, id: u64, link_id: u64) -> (answer: Result<EventResponse, ErrorKind>)
    requires
        sessions.wf(),
    ensures
        answer is Ok <==> sessions@.contains_key(id),
        answer matches Ok(response) ==> exists|state: SessionView|
            state_of(state, id) && response.describes(state, link_id),
        answer matches Err(error) ==> error.is_not_found(id, "Session doesn't exist"@),
{
    let lock = find(sessions, id, "Session doesn't exist")?;
    Ok(session::get_events(&lock, link_id))
}

/// The session `id` as a text diagram.
pub fn get_mermaid(sessions: &Sessions, id: u64) -> (answer: Result<MermaidDocument, ErrorKind>)
    requires
        sessions.wf(),
    ensures
        answer is Ok <==> sessions@.contains_key(id),
        answer matches Ok(doc) ==> exists|state: SessionView|
            state_of(state, id) && doc@ == diagram_text(state),
        answer matches Err(error) ==> error.is_not_found(id, "Session not exists"@),
{
    let lock = find(sessions, id, "Session not exists")?;
    Ok(session::get_mermaid(&lock))
}

/// The session `id` as a vector drawing.
pub fn get_svg(sessions: &Sessions, id: u64) -> (answer: Result<SvgDocument, ErrorKind>)
    requires
        sessions.wf(),
    ensures
        answer matches Ok(doc) ==> sessions@.contains_key(id) && exists|state: SessionView|
            state_of(state, id) && fits_canvas(state) && doc@ == drawing_text(layout_of(state)),
        answer matches Err(error) ==> if sessions@.contains_key(id) {
            error.is_unavailable(id, "Diagram is too large"@)
        } else {
            error.is_not_found(id, "Session not exists"@)
        },
        !sessions@.contains_key(id) ==> answer is Err,
{
    let lock = find(sessions, id, "Session not exists")?;
    session::get_svg(&lock)
}

} // verus!
