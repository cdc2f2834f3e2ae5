use vstd::prelude::*;
use crate::text::{int_decimal, push_char, push_decimal_i64};

verus! {

/// Who spoke: the local microphone (`You`) or the system audio (`Them`).
#[derive(Clone, Copy, Debug, PartialEq, Eq, Structural)]
pub enum Speaker {
    You,
    Them,
}

/// One transcribed stretch of speech.
#[derive(Clone, Debug)]
pub struct Utterance {
    pub id: String,
    pub speaker: Speaker,
    pub text: String,
    pub timestamp_ms: i64,
    pub duration_ms: u64,
}

/// What a finished or stored meeting session reports of itself.
#[derive(Clone, Debug)]
pub struct MeetingSessionSummary {
    pub id: String,
    pub started_at: i64,
    pub ended_at: Option<i64>,
    pub duration_secs: u64,
    pub utterance_count: usize,
}

/// The record of a session kept beside its transcript (`meta.json`): times as RFC 3339 text.
#[derive(Clone, Debug)]
pub struct SessionMeta {
    pub id: String,
    pub started_at: String,
    pub ended_at: Option<String>,
    pub duration_secs: u64,
}

/// The id of the utterance that starts at `timestamp_ms`: `u_` and the timestamp in decimal.
pub open spec fn utterance_id(timestamp_ms: i64) -> Seq<char> {
    seq!['u', '_'] + int_decimal(timestamp_ms as int)
}

impl Utterance {
    /// The utterance of `speaker` saying `text` from `timestamp_ms` on, with no duration.
    pub fn at(speaker: Speaker, text: String, timestamp_ms: i64) -> (u: Utterance)
        ensures
            u.id@ == utterance_id(timestamp_ms),
            u.speaker == speaker,
            u.text == text,
            u.timestamp_ms == timestamp_ms,
            u.duration_ms == 0,
    {
        let mut id = String::new();
        push_char(&mut id, 'u');
        push_char(&mut id, '_');
        push_decimal_i64(&mut id, timestamp_ms);
        assert(id@ =~= utterance_id(timestamp_ms));
        Utterance { id, speaker, text, timestamp_ms, duration_ms: 0 }
    }
}

} // verus!
