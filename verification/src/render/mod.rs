//! Diagrams drawn from a session: as text, and as a vector drawing.

pub mod layout;
pub mod markup;
pub mod mermaid;
pub mod vector;
