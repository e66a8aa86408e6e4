//! The addresses under which sessions are served.

use crate::text::{decimal, push_decimal};
use vstd::prelude::*;

verus! {

/// The address of the session `id`.
pub open spec fn session_uri(id: nat) -> Seq<char> {
    "/api/session/"@ + decimal(id)
}

/// The address of the links of the session `id`.
pub open spec fn links_uri(id: nat) -> Seq<char> {
    session_uri(id) + "/links"@
}

/// The address of the links that the session `id` got after the link
/// `link_id`.
pub open spec fn events_uri(id: nat, link_id: nat) -> Seq<char> {
    session_uri(id) + "/events/"@ + decimal(link_id)
}

/// The address of the session `id` as a text diagram.
pub open spec fn mermaid_uri(id: nat) -> Seq<char> {
    session_uri(id) + "/mermaid"@
}

/// The address of the session `id` as a vector drawing.
pub open spec fn svg_uri(id: nat) -> Seq<char> {
    session_uri(id) + "/svg"@
}

pub fn session_url(id: u64) -> (url: String)
    ensures
        url@ == session_uri(id as nat),
{
    let mut url = String::new();
    url.append("/api/session/");
    push_decimal(&mut url, id);
    assert(url@ =~= session_uri(id as nat));
    url
}

pub fn links_url(id: u64) -> (url: String)
    ensures
        url@ == links_uri(id as nat),
{
    let mut url = session_url(id);
    url.append("/links");
    url
}

pub fn events_url(id: u64, link_id: u64) -> (url: String)
    ensures
        url@ == events_uri(id as nat, link_id as nat),
{
    let mut url = session_url(id);
    url.append("/events/");
    push_decimal(&mut url, link_id);
    url
}

pub fn mermaid_url(id: u64) -> (url: String)
    ensures
        url@ == mermaid_uri(id as nat),
{
    let mut url = session_url(id);
    url.append("/mermaid");
    url
}

pub fn svg_url(id: u64) -> (url: String)
    ensures
        url@ == svg_uri(id as nat),
{
    let mut url = session_url(id);
    url.append("/svg");
    url
}

} // verus!
