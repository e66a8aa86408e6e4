//! Collaborative sequence diagrams.
//!
//! A session is one diagram: named parties, and an append-only log of
//! labelled links between them. Sessions live in a registry, each behind a
//! lock of its own, so that many callers can read and append to them; each
//! can be polled for what was appended since the last poll, and drawn as
//! text or as a vector drawing.
//!
//! * [`data`] holds the parties, the links, the state of a session with the
//!   laws of its ids, and the registry.
//! * [`render`] draws a session: [`render::mermaid`] as text,
//!   [`render::layout`] and [`render::vector`] as a vector drawing.
//! * [`api`] offers the operations of a service on the sessions of a
//!   registry.
//!
//! Everything is verified but what other crates and std do behind a few
//! wrappers: [`render::markup`] (the `svg` crate), [`data::random`] (the
//! `ring` crate), and three functions of std, the cloning of an `Arc`, the
//! pushing of a `char` to a `String` and the feeding of a `Hasher`.

pub mod api;
pub mod data;
pub mod render;
pub mod shared;
pub mod text;
