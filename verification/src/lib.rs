//! Core of a voice-assistant shell: the playback command state machine, the
//! conversation transcript log, and the dispatch logic that turns an utterance
//! into a synthesis request, a playback command, and a transcript entry.

pub mod chat_log;
pub mod dispatch;
pub mod playback;
