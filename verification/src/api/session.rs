//! The operations on one session, by its lock.
//!
//! A session is shared: it may change between two operations. So each
//! operation says of its answer that it describes some well-formed state of
//! the session, which is the state in which the operation found it while it
//! held the lock.

use super::types::{
    link_reports, reports_of, AddLinkRequest, AddLinkResponse, ErrorKind, EventResponse, Link,
    Session,
};
use crate::data::model::{Append, SessionView};
use crate::data::registry::SessionLock;
use crate::data::session::label_text;
use crate::render::layout::{fits_canvas, layout_of};
use crate::render::mermaid::{diagram_text, Document as MermaidDocument};
use crate::render::vector::{drawing_text, Document as SvgDocument};
use vstd::prelude::*;

verus! {

/// Whether `state` is a state that the lock of the session `id` admits.
pub open spec fn state_of(state: SessionView, id: u64) -> bool {
    state.wf() && state.id == id
}

/// The id of the session.
pub fn id(session: &SessionLock) -> (id: u64)
    ensures
        id == session.pred().id,
{
    let guard = session.acquire_read();
    let id = guard.borrow().id;
    guard.release_read();
    id
}

/// The session with its whole log.
pub fn get_session(session: &SessionLock) -> (answer: Session)
    ensures
        exists|state: SessionView| state_of(state, session.pred().id) && answer.describes(state),
{
    let guard = session.acquire_read();
    let answer = Session::from(guard.borrow());
    proof {
        let state = guard.view()@;
        assert(state_of(state, session.pred().id) && answer.describes(state));
    }
    guard.release_read();
    answer
}

/// Appends a link to the session and tells the id of the link, unless the
/// session has issued all the ids there are: what
/// [`SessionInner::try_add_link`] makes of the state that the session is
/// found in.
///
/// `timestamp` is the time of the request in milliseconds since the Unix
/// epoch.
pub fn add_link(session: &SessionLock, timestamp: u64, body: &AddLinkRequest<'_>) -> (answer: Result<AddLinkResponse, ErrorKind>)
    ensures
        answer matches Ok(response) ==> exists|state: SessionView|
            state_of(state, session.pred().id) && state.has_room() && response.link_id
                == state.next_link_id(),
        answer matches Err(error) ==> error.is_unavailable(session.pred().id, "Session is full"@)
            && exists|state: SessionView| state_of(state, session.pred().id) && !state.has_room(),
{
    let (mut inner, guard) = session.acquire_write();
    let id = inner.id;
    let ghost state = inner@;
    let added = inner.try_add_link(timestamp, body.from, body.to, body.label);
    proof {
        state.lemma_add_link(
            Append {
                timestamp: timestamp as nat,
                from: body.from@,
                to: body.to@,
                label: label_text(body.label),
            },
        );
    }
    guard.release_write(inner);
    match added {
        Some(link_id) => {
            assert(state_of(state, session.pred().id) && state.has_room() && link_id
                == state.next_link_id());
            Ok(AddLinkResponse { link_id })
        },
        None => {
            assert(state_of(state, session.pred().id) && !state.has_room());
            Err(ErrorKind::unavailable(id, "Session is full"))
        },
    }
}

/// The log of the session.
pub fn get_links(session: &SessionLock) -> (answer: Vec<Link>)
    ensures
        exists|state: SessionView|
            state_of(state, session.pred().id) && link_reports(answer@) == reports_of(state.links),
{
    let guard = session.acquire_read();
    let answer = Link::from_all(&guard.borrow().links);
    proof {
        let state = guard.view()@;
        assert(state_of(state, session.pred().id) && link_reports(answer@) == reports_of(
            state.links,
        ));
    }
    guard.release_read();
    answer
}

/// What the session got after the link `link_id`, and where to poll next.
pub fn get_events(session: &SessionLock, link_id: u64) -> (answer: EventResponse)
    ensures
        exists|state: SessionView|
            state_of(state, session.pred().id) && answer.describes(state, link_id),
{
    let guard = session.acquire_read();
    let answer = EventResponse::from(guard.borrow(), link_id);
    proof {
        let state = guard.view()@;
        assert(state_of(state, session.pred().id) && answer.describes(state, link_id));
    }
    guard.release_read();
    answer
}

/// The session as a text diagram.
pub fn get_mermaid(session: &SessionLock) -> (answer: MermaidDocument)
    ensures
        exists|state: SessionView|
            state_of(state, session.pred().id) && answer@ == diagram_text(state),
{
    let guard = session.acquire_read();
    let answer = MermaidDocument::from(guard.borrow());
    proof {
        let state = guard.view()@;
        assert(state_of(state, session.pred().id) && answer@ == diagram_text(state));
    }
    guard.release_read();
    answer
}

/// The session as a vector drawing, unless it has more parties or links
/// than the canvas has room for: what [`SvgDocument::try_from`] makes of the
/// state that the session is found in.
pub fn get_svg(session: &SessionLock) -> (answer: Result<SvgDocument, ErrorKind>)
    ensures
        answer matches Ok(doc) ==> exists|state: SessionView|
            state_of(state, session.pred().id) && fits_canvas(state) && doc@ == drawing_text(
                layout_of(state),
            ),
        answer matches Err(error) ==> error.is_unavailable(
            session.pred().id,
            "Diagram is too large"@,
        ) && exists|state: SessionView| state_of(state, session.pred().id) && !fits_canvas(state),
{
    let guard = session.acquire_read();
    let id = guard.borrow().id;
    let drawn = SvgDocument::try_from(guard.borrow());
    let ghost state = guard.view()@;
    guard.release_read();
    match drawn {
        Some(doc) => {
            assert(state_of(state, session.pred().id) && fits_canvas(state) && doc@
                == drawing_text(layout_of(state)));
            Ok(doc)
        },
        None => {
            assert(state_of(state, session.pred().id) && !fits_canvas(state));
            Err(ErrorKind::unavailable(id, "Diagram is too large"))
        },
    }
}

} // verus!
