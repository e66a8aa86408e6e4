//! What the operations on sessions take and give.

use super::routes::{
    events_uri, events_url, mermaid_uri, mermaid_url, session_uri, session_url, svg_uri, svg_url,
};
use crate::data::link::{text_of, LinkView};
use crate::data::model::SessionView;
use crate::data::session::SessionInner;
use crate::shared::share;
use crate::text::decimal;
use std::sync::Arc;
use vstd::prelude::*;

verus! {

/// Why an operation was not carried out, for the one who asked.
pub struct ErrorResponse {
    pub status: String,
    pub id: u64,
    pub cause: String,
}

impl ErrorResponse {
    /// Whether this is the error report on the session `id` with the cause
    /// `cause`.
    pub open spec fn reports(&self, id: u64, cause: Seq<char>) -> bool {
        &&& self.status@ == "ERROR"@
        &&& self.id == id
        &&& self.cause@ == cause
    }
}

/// How an operation fails.
pub enum ErrorKind {
    /// There is no session of that id.
    NotFound(ErrorResponse),
    /// The session is there, but cannot serve the operation.
    Unavailable(ErrorResponse),
}

impl ErrorKind {
    /// Whether this is the error for the missing session `id`, with the
    /// cause `cause`.
    pub open spec fn is_not_found(self, id: u64, cause: Seq<char>) -> bool {
        self matches ErrorKind::NotFound(response) && response.reports(id, cause)
    }

    /// Whether this is the error for the session `id` that cannot serve,
    /// with the cause `cause`.
    pub open spec fn is_unavailable(self, id: u64, cause: Seq<char>) -> bool {
        self matches ErrorKind::Unavailable(response) && response.reports(id, cause)
    }

    /// The error for a session that does not exist.
    pub fn not_found(id: u64, cause: &str) -> (error: Self)
        ensures
            error.is_not_found(id, cause@),
    {
        ErrorKind::NotFound(ErrorResponse { id, status: "ERROR".to_owned(), cause: cause.to_owned() })
    }

    /// The error for a session that cannot serve an operation.
    pub fn unavailable(id: u64, cause: &str) -> (error: Self)
        ensures
            error.is_unavailable(id, cause@),
    {
        ErrorKind::Unavailable(
            ErrorResponse { id, status: "ERROR".to_owned(), cause: cause.to_owned() },
        )
    }
}

/// A link as it is reported: its ends by name.
pub struct Link {
    /// Milliseconds since the Unix epoch.
    pub timestamp: u64,
    pub from: String,
    pub to: String,
    pub label: Arc<Option<String>>,
    pub id: u64,
}

/// What a reported link holds, with its strings as character sequences.
pub struct LinkReport {
    pub timestamp: nat,
    pub from: Seq<char>,
    pub to: Seq<char>,
    pub label: Option<Seq<char>>,
    pub id: nat,
}

impl View for Link {
    type V = LinkReport;

    open spec fn view(&self) -> LinkReport {
        LinkReport {
            timestamp: self.timestamp as nat,
            from: self.from@,
            to: self.to@,
            label: text_of(*self.label),
            id: self.id as nat,
        }
    }
}

/// The report of a link of the log.
pub open spec fn report_of(link: LinkView) -> LinkReport {
    LinkReport {
        timestamp: link.timestamp,
        from: link.from.name,
        to: link.to.name,
        label: link.label,
        id: link.id,
    }
}

/// The reports of links, one by one.
pub open spec fn reports_of(links: Seq<LinkView>) -> Seq<LinkReport> {
    links.map_values(|l: LinkView| report_of(l))
}

/// What reported links hold, one by one.
pub open spec fn link_reports(links: Seq<Link>) -> Seq<LinkReport> {
    links.map_values(|l: Link| l@)
}

impl Link {
    /// The report of a link of the log.
    pub fn from(link: Arc<crate::data::link::Link>) -> (reported: Link)
        ensures
            reported@ == report_of(link@),
    {
        Link {
            timestamp: link.timestamp,
            from: link.from.name.clone(),
            to: link.to.name.clone(),
            label: share(&link.label),
            id: link.id,
        }
    }

    /// The reports of `links`, in their order.
    pub fn from_all(links: &Vec<Arc<crate::data::link::Link>>) -> (reported: Vec<Link>)
        ensures
            link_reports(reported@) == reports_of(crate::data::session::link_views(links@)),
    {
        let mut reported: Vec<Link> = Vec::new();
        let mut i: usize = 0;
        while i < links.len()
            invariant
                i <= links.len(),
                reported.len() == i,
                forall|j: int| 0 <= j < i ==> (#[trigger] reported[j])@ == report_of(links[j]@),
            decreases links.len() - i,
        {
            reported.push(Link::from(share(&links[i])));
            i += 1;
        }
        assert(link_reports(reported@) =~= reports_of(crate::data::session::link_views(links@)));
        reported
    }
}

/// A session as it is reported: its whole log, and where to get its
/// diagrams.
pub struct Session {
    pub id: u64,
    pub links: Vec<Link>,
    /// The id of the last link, or `0` where the log is empty.
    pub last_link: u64,
    pub mermaid_url: String,
    pub svg_url: String,
}

impl Session {
    /// Whether this is the report of the session in the state `state`.
    pub open spec fn describes(&self, state: SessionView) -> bool {
        &&& self.id == state.id
        &&& link_reports(self.links@) == reports_of(state.links)
        &&& self.last_link == (if state.links.len() == 0 {
            0
        } else {
            state.links.last().id
        })
        &&& self.mermaid_url@ == mermaid_uri(state.id)
        &&& self.svg_url@ == svg_uri(state.id)
    }

    /// The report of a session.
    pub fn from(session: &SessionInner) -> (reported: Session)
        ensures
            reported.describes(session@),
    {
        let count = session.links.len();
        let last_link = if count == 0 {
            0
        } else {
            session.links[count - 1].id
        };
        Session {
            id: session.id,
            links: Link::from_all(&session.links),
            last_link,
            mermaid_url: mermaid_url(session.id),
            svg_url: svg_url(session.id),
        }
    }
}

/// The answer to the creation of a session.
pub struct NewSessionResponse {
    /// The id of the session, in decimal.
    pub id: String,
    /// The address of the session.
    pub uri: String,
}

impl NewSessionResponse {
    /// Whether this is the answer for the new session `id`.
    pub open spec fn describes(&self, id: u64) -> bool {
        &&& self.id@ == decimal(id as nat)
        &&& self.uri@ == session_uri(id as nat)
    }

    /// The answer for the new session `id`.
    pub fn new(id: u64) -> (response: Self)
        ensures
            response.describes(id),
    {
        NewSessionResponse { id: crate::text::to_decimal(id), uri: session_url(id) }
    }
}

/// The request to append a link.
pub struct AddLinkRequest<'a> {
    pub from: &'a str,
    pub to: &'a str,
    pub label: Option<&'a str>,
}

/// The answer to the appending of a link.
pub struct AddLinkResponse {
    pub link_id: u64,
}

/// The answer to a poll: what was appended since the link that the poll
/// named, and where to poll next.
pub struct EventResponse {
    pub highest_link_id: u64,
    pub new_links: Vec<Link>,
    /// The address of the next poll, which names `highest_link_id`.
    pub events_url: String,
}

impl EventResponse {
    /// Whether this is the answer of the session in the state `state` to a
    /// poll that names the link `link_id`.
    pub open spec fn describes(&self, state: SessionView, link_id: u64) -> bool {
        &&& self.highest_link_id == state.links_highest_id
        &&& link_reports(self.new_links@) == reports_of(state.links_above(link_id as nat))
        &&& self.events_url@ == events_uri(state.id, state.links_highest_id)
    }

    /// The answer of a session to a poll that names the link `link_id`.
    pub fn from(session: &SessionInner, link_id: u64) -> (response: Self)
        requires
            session.wf(),
        ensures
            response.describes(session@, link_id),
    {
        let (highest_link_id, new_links) = session.links_above_id(link_id);
        EventResponse {
            highest_link_id,
            new_links: Link::from_all(&new_links),
            events_url: events_url(session.id, highest_link_id),
        }
    }
}

} // verus!
