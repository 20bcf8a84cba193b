//! Core logic of the Meetily desktop assistant: meeting auto-detection
//! settings, the calendar event cache, the shared transcription dictionary,
//! speaker-embedding input preparation and the read-only MCP resources.

pub mod calendar;
pub mod clock;
pub mod dictionary;
pub mod embedding;
pub mod entry_id;
pub mod meeting_detect;
pub mod resources;
