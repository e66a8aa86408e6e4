//! Sessions, their parties and their links.

pub mod laws;
pub mod link;
pub mod model;
pub mod party;
pub mod random;
pub mod registry;
pub mod session;

pub use link::{Link, LinkView};
pub use model::{Append, SessionView};
pub use party::{Party, PartyMappedByName, PartyView};
pub use registry::{NewSessionError, SessionInv, SessionLock, Sessions};
pub use session::SessionInner;
