//! Browser, profile and context lifecycle.
//!
//! One owner holds every browsing context. Work that leaves the owner (loading
//! a source, running a script, writing the profile) is tagged with the ids it
//! was started under, and a result that comes back under other ids changes
//! nothing.

pub mod actions;
pub mod commands;
pub mod context_laws;
pub mod contexts;
pub mod dispatch;
pub mod effects;
pub mod error;
pub mod events;
pub mod history;
pub mod ids;
pub mod input;
pub mod input_laws;
pub mod journeys;
pub mod laws;
pub mod limits;
pub mod loading;
pub mod navigation;
pub mod order;
pub mod progress_laws;
pub mod registry;
pub mod script_laws;
pub mod scripts;
pub mod source;
pub mod source_laws;
pub mod wishes;
