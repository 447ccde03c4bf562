//! Voice-command engine of a music bot: decoded call audio is cut into
//! utterances, queued, and handed on for transcription. Around it, what the
//! bot decides without touching the network: how a command is read, who
//! takes it on, which track plays next, and what the answer says.

pub mod command;
pub mod embed;
pub mod model;
pub mod player;
pub mod query;
pub mod voice;
