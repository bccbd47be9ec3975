//! Announces trending repositories: discovered items are filtered against a
//! denylist, checked against a store of what was already announced, formatted
//! to fit each destination's length budget and handed out for publishing.
pub mod repo;
pub mod text;
pub mod format;
pub mod denylist;
pub mod config;
pub mod control;
pub mod clock;
pub mod preview;
pub mod trending;
