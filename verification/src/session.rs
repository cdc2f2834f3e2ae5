use vstd::prelude::*;
use crate::buffer::FLUSH_SAMPLES;
use crate::catalog::{listed_end, listed_start};
use crate::clock::{
    format_utc_millis, max_clock_millis, max_rfc3339_millis, rfc3339_from_millis, rfc3339_text,
    session_stamp_pattern, utc_now_millis, utc_stamp_text, ClockReading,
};
use crate::buffer::utterance_from_transcript;
use crate::model::{MeetingSessionSummary, SessionMeta, Speaker, Utterance, utterance_id};
use crate::text::trimmed;

verus! {

/// Why a request on the meeting session was refused.
#[derive(Clone, Copy, Debug, PartialEq, Eq, Structural)]
pub enum MeetingError {
    /// A meeting was asked to start while one runs.
    AlreadyActive,
    /// A meeting was asked to stop while none runs.
    NoActiveMeeting,
}

impl MeetingError {
    /// The text the error is reported with.
    pub open spec fn text(self) -> Seq<char> {
        match self {
            MeetingError::AlreadyActive => "A meeting is already active"@,
            MeetingError::NoActiveMeeting => "No active meeting to stop"@,
        }
    }

    /// The text the error is reported with.
    pub fn message(&self) -> (m: String)
        ensures
            m@ == self.text(),
    {
        match self {
            MeetingError::AlreadyActive => String::from_str("A meeting is already active"),
            MeetingError::NoActiveMeeting => String::from_str("No active meeting to stop"),
        }
    }
}

/// The state of the meeting session as the contracts speak of it.
pub struct MeetingView {
    /// Whether a meeting runs.
    pub active: bool,
    /// The id of the running meeting.
    pub session_id: Option<Seq<char>>,
    /// When the latest meeting started, in milliseconds since the epoch; kept after it stops.
    pub start_ms: Option<i64>,
}

impl MeetingView {
    /// The states the session can be in: a meeting runs exactly while it has an id and a
    /// start time, and start times are instants the clock can give.
    pub open spec fn wf(self) -> bool {
        &&& self.active <==> self.session_id is Some
        &&& self.active ==> self.start_ms is Some
        &&& self.start_ms matches Some(s) ==> 0 <= s <= max_clock_millis()
    }

    /// The state once the meeting `id` has started at `start_ms`.
    pub open spec fn started(self, id: Seq<char>, start_ms: i64) -> MeetingView {
        MeetingView { active: true, session_id: Some(id), start_ms: Some(start_ms) }
    }

    /// The state once the running meeting has stopped: no id, the start time kept.
    pub open spec fn stopped(self) -> MeetingView {
        MeetingView { active: false, session_id: None, start_ms: self.start_ms }
    }
}

/// The whole seconds between two instants in milliseconds, as `((end - start) / 1000) as u64`
/// computes them: division towards zero, a negative count wrapped into `u64`.
pub open spec fn duration_secs(start_ms: i64, end_ms: i64) -> u64 {
    let d = end_ms - start_ms;
    (if d >= 0 { d / 1000 } else { -((-d) / 1000) }) as u64
}

/// The id of a meeting that starts at `ms`: `meeting_` and the UTC time stamp.
pub open spec fn session_id_text(ms: i64) -> Seq<char> {
    "meeting_"@ + utc_stamp_text(ms, session_stamp_pattern())
}

/// The id of a meeting from the time stamp of its start: `meeting_` and the stamp.
pub fn session_id_from_stamp(stamp: &str) -> (id: String)
    ensures
        id@ == "meeting_"@ + stamp@,
{
    let mut id = String::from_str("meeting_");
    id.append(stamp);
    id
}

/// The id for a meeting that starts at `ms`.
pub fn session_id_at(ms: i64) -> (id: String)
    requires
        0 <= ms <= max_clock_millis(),
    ensures
        id@ == session_id_text(ms),
{
    match format_utc_millis(ms, "%Y-%m-%d_%H-%M-%S") {
        Some(stamp) => session_id_from_stamp(stamp.as_str()),
        None => String::new(),
    }
}

/// The id for a meeting that starts now, by the UTC clock.
pub fn session_id_now() -> (id: String)
    ensures
        exists|ms: i64| 0 <= ms <= max_clock_millis() && id@ == session_id_text(ms),
{
    let ms = utc_now_millis().millis();
    session_id_at(ms)
}

impl SessionMeta {
    /// The record written when the meeting `id` starts at `start_ms`.
    pub fn opening(id: String, start_ms: i64) -> (meta: SessionMeta)
        requires
            0 <= start_ms <= max_clock_millis(),
        ensures
            meta.id == id,
            meta.started_at@ == rfc3339_text(start_ms),
            meta.ended_at is None,
            meta.duration_secs == 0,
            start_ms <= max_rfc3339_millis() ==> listed_start(meta.started_at@) == start_ms,
    {
        let started_at = match rfc3339_from_millis(start_ms) {
            Some(t) => t,
            None => String::new(),
        };
        SessionMeta { id, started_at, ended_at: None, duration_secs: 0 }
    }
}

/// What stopping a meeting yields: the summary reported and the record to store.
pub struct StoppedMeeting {
    pub summary: MeetingSessionSummary,
    pub meta: SessionMeta,
    pub end_reading: Option<ClockReading>,
}

impl StoppedMeeting {
    /// The clock reading the meeting was stopped at, where the stop read the clock.
    pub open spec fn clock_end(&self) -> Option<i64> {
        match self.end_reading {
            Some(r) => Some(r.value()),
            None => None,
        }
    }
}

/// `stopped` is what stopping the meeting of `before` at `end_ms` yields, with
/// `mic_buffer_len` samples waiting in the microphone buffer.
pub open spec fn stop_report(before: MeetingView, end_ms: i64, mic_buffer_len: usize, stopped: StoppedMeeting) -> bool {
    let id = before.session_id->0;
    let start = before.start_ms->0;
    &&& stopped.summary.id@ == id
    &&& stopped.summary.started_at == start
    &&& stopped.summary.ended_at == Some(end_ms)
    &&& stopped.summary.duration_secs == duration_secs(start, end_ms)
    &&& stopped.summary.utterance_count == mic_buffer_len / FLUSH_SAMPLES
    &&& stopped.meta.id@ == id
    &&& stopped.meta.started_at@ == rfc3339_text(start)
    &&& stopped.meta.ended_at matches Some(t) && t@ == rfc3339_text(end_ms)
    &&& stopped.meta.duration_secs == duration_secs(start, end_ms)
}

/// A stopped meeting's record, listed again, reports the times of the stop's summary, for
/// times that RFC 3339 text can carry.
pub open spec fn record_reads_back(stopped: StoppedMeeting) -> bool {
    &&& stopped.summary.started_at <= max_rfc3339_millis()
        ==> listed_start(stopped.meta.started_at@) == stopped.summary.started_at
    &&& (stopped.summary.ended_at matches Some(e) && e <= max_rfc3339_millis())
        ==> listed_end(stopped.meta.ended_at) == stopped.summary.ended_at
}

/// A meeting about to start: its id, its start time and the record written for it before it
/// is taken as running.
pub struct StartPlan {
    session_id: String,
    start_ms: i64,
    record: SessionMeta,
    start_reading: Option<ClockReading>,
}

impl StartPlan {
    /// The id of the meeting.
    pub closed spec fn id(&self) -> Seq<char> {
        self.session_id@
    }

    /// When the meeting starts, in milliseconds since the epoch.
    pub closed spec fn start(&self) -> i64 {
        self.start_ms
    }

    /// The record written for the meeting when it starts.
    pub closed spec fn opening(&self) -> SessionMeta {
        self.record
    }

    /// The clock reading the meeting's start was taken from, where the plan read the clock.
    pub closed spec fn clock_start(&self) -> Option<i64> {
        match self.start_reading {
            Some(r) => Some(r.value()),
            None => None,
        }
    }

    /// The record belongs to the meeting: its id, its start time as RFC 3339 text, no end,
    /// no duration; and the start is an instant the clock can give.
    #[verifier::type_invariant]
    spec fn consistent(&self) -> bool {
        &&& 0 <= self.start_ms <= max_clock_millis()
        &&& self.record.id@ == self.session_id@
        &&& self.record.started_at@ == rfc3339_text(self.start_ms)
        &&& self.record.ended_at is None
        &&& self.record.duration_secs == 0
        &&& self.start_ms <= max_rfc3339_millis() ==> listed_start(self.record.started_at@) == self.start_ms
    }

    /// The record to write for the meeting before it starts.
    pub fn record(&self) -> (r: &SessionMeta)
        ensures
            *r == self.opening(),
    {
        &self.record
    }

    /// The id of the meeting.
    pub fn session_id(&self) -> (id: &String)
        ensures
            id@ == self.id(),
    {
        &self.session_id
    }
}

/// The meeting session: whether a meeting runs, its id and when it started.
pub struct MeetingSessionManager {
    is_active: bool,
    session_id: Option<String>,
    session_start_ms: Option<i64>,
}

impl View for MeetingSessionManager {
    type V = MeetingView;

    closed spec fn view(&self) -> MeetingView {
        MeetingView {
            active: self.is_active,
            session_id: match self.session_id {
                Some(s) => Some(s@),
                None => None,
            },
            start_ms: self.session_start_ms,
        }
    }
}

impl MeetingSessionManager {
    /// A session with no meeting.
    pub fn new() -> (m: MeetingSessionManager)
        ensures
            m@ == (MeetingView { active: false, session_id: None, start_ms: None }),
            m@.wf(),
    {
        MeetingSessionManager { is_active: false, session_id: None, session_start_ms: None }
    }

    /// Whether a meeting runs.
    pub fn is_meeting_active(&self) -> (active: bool)
        ensures
            active == self@.active,
    {
        self.is_active
    }

    /// The id of the running meeting.
    pub fn get_current_session_id(&self) -> (id: Option<String>)
        ensures
            match id {
                Some(s) => self@.session_id == Some(s@),
                None => self@.session_id is None,
            },
    {
        match &self.session_id {
            Some(s) => Some(s.clone()),
            None => None,
        }
    }

    /// The plan for starting the meeting `session_id` at `start_ms`: its record, to be written
    /// before it starts; refused while a meeting runs.
    pub fn prepare_start(&self, session_id: String, start_ms: i64) -> (res: Result<StartPlan, MeetingError>)
        requires
            0 <= start_ms <= max_clock_millis(),
        ensures
            self@.active ==> res == Err::<StartPlan, MeetingError>(MeetingError::AlreadyActive),
            !self@.active ==> (res matches Ok(plan) && plan.id() == session_id@ && plan.start() == start_ms
                && plan.clock_start() is None
                && plan.opening().id == session_id && plan.opening().started_at@ == rfc3339_text(start_ms)
                && plan.opening().ended_at is None && plan.opening().duration_secs == 0),
    {
        if self.is_active {
            return Err(MeetingError::AlreadyActive);
        }
        let record = SessionMeta::opening(session_id.clone(), start_ms);
        Ok(StartPlan { session_id, start_ms, record, start_reading: None })
    }

    /// The plan for starting the meeting `session_id` now, by the UTC clock; refused while a
    /// meeting runs, before the clock is read.
    pub fn prepare_start_now(&self, session_id: String) -> (res: Result<StartPlan, MeetingError>)
        ensures
            self@.active ==> res == Err::<StartPlan, MeetingError>(MeetingError::AlreadyActive),
            !self@.active ==> (res matches Ok(plan) && plan.id() == session_id@
                && 0 <= plan.start() <= max_clock_millis()
                && plan.clock_start() == Some(plan.start())
                && plan.opening().id == session_id && plan.opening().started_at@ == rfc3339_text(plan.start())
                && plan.opening().ended_at is None && plan.opening().duration_secs == 0),
    {
        if self.is_active {
            return Err(MeetingError::AlreadyActive);
        }
        let reading = utc_now_millis();
        let start_ms = reading.millis();
        match self.prepare_start(session_id, start_ms) {
            Ok(plan) => {
                proof { use_type_invariant(&plan); }
                let StartPlan { session_id, start_ms, record, start_reading: _ } = plan;
                Ok(StartPlan { session_id, start_ms, record, start_reading: Some(reading) })
            },
            Err(e) => Err(e),
        }
    }

    /// Starts the planned meeting, once its directory and record are in place; refused while
    /// a meeting runs. Gives the id back. The record written for it lists back with the start
    /// time the session now holds.
    pub fn start_meeting(&mut self, plan: StartPlan) -> (res: Result<String, MeetingError>)
        requires
            old(self)@.wf(),
        ensures
            final(self)@.wf(),
            old(self)@.active ==> res == Err::<String, MeetingError>(MeetingError::AlreadyActive)
                && final(self)@ == old(self)@,
            !old(self)@.active ==> (res matches Ok(id) && id@ == plan.id()
                && final(self)@ == old(self)@.started(plan.id(), plan.start())
                && plan.opening().id@ == plan.id()
                && plan.opening().started_at@ == rfc3339_text(plan.start())
                && (plan.start() <= max_rfc3339_millis()
                    ==> listed_start(plan.opening().started_at@) == plan.start())),
    {
        proof { use_type_invariant(&plan); }
        if self.is_active {
            return Err(MeetingError::AlreadyActive);
        }
        let StartPlan { session_id, start_ms, record: _, start_reading: _ } = plan;
        let id = session_id.clone();
        self.session_id = Some(session_id);
        self.session_start_ms = Some(start_ms);
        self.is_active = true;
        Ok(id)
    }

    /// Stops the running meeting at `end_ms`, with `mic_buffer_len` samples waiting in the
    /// microphone buffer; refused while none runs.
    pub fn stop_meeting_at(&mut self, end_ms: i64, mic_buffer_len: usize) -> (res: Result<StoppedMeeting, MeetingError>)
        requires
            old(self)@.wf(),
            0 <= end_ms <= max_clock_millis(),
        ensures
            final(self)@.wf(),
            !old(self)@.active ==> (res matches Err(e) && e == MeetingError::NoActiveMeeting
                && final(self)@ == old(self)@),
            old(self)@.active ==> (res matches Ok(stopped) && stop_report(old(self)@, end_ms, mic_buffer_len, stopped)
                && stopped.clock_end() is None
                && record_reads_back(stopped) && final(self)@ == old(self)@.stopped()),
    {
        if !self.is_active {
            return Err(MeetingError::NoActiveMeeting);
        }
        self.is_active = false;
        let start_ms: i64 = match self.session_start_ms {
            Some(s) => s,
            None => end_ms,
        };
        let d: i64 = end_ms - start_ms;
        let secs: i64 = d / 1000;
        let duration: u64 = secs as u64;
        let id: String = match &self.session_id {
            Some(s) => s.clone(),
            None => String::new(),
        };
        let started_at = match rfc3339_from_millis(start_ms) {
            Some(t) => t,
            None => String::new(),
        };
        let ended_at = match rfc3339_from_millis(end_ms) {
            Some(t) => t,
            None => String::new(),
        };
        let meta = SessionMeta { id: id.clone(), started_at, ended_at: Some(ended_at), duration_secs: duration };
        self.session_id = None;
        let summary = MeetingSessionSummary {
            id,
            started_at: start_ms,
            ended_at: Some(end_ms),
            duration_secs: duration,
            utterance_count: mic_buffer_len / FLUSH_SAMPLES,
        };
        Ok(StoppedMeeting { summary, meta, end_reading: None })
    }

    /// Stops the running meeting now, by the UTC clock; refused while none runs. The end time
    /// read from the clock is the one the summary reports.
    pub fn stop_meeting(&mut self, mic_buffer_len: usize) -> (res: Result<StoppedMeeting, MeetingError>)
        requires
            old(self)@.wf(),
        ensures
            final(self)@.wf(),
            !old(self)@.active ==> (res matches Err(e) && e == MeetingError::NoActiveMeeting
                && final(self)@ == old(self)@),
            old(self)@.active ==> (res matches Ok(stopped)
                && stopped.summary.ended_at matches Some(end_ms)
                && stopped.clock_end() == Some(end_ms)
                && 0 <= end_ms <= max_clock_millis()
                && stop_report(old(self)@, end_ms, mic_buffer_len, stopped)
                && record_reads_back(stopped) && final(self)@ == old(self)@.stopped()),
    {
        if !self.is_active {
            return Err(MeetingError::NoActiveMeeting);
        }
        let reading = utc_now_millis();
        let end_ms = reading.millis();
        match self.stop_meeting_at(end_ms, mic_buffer_len) {
            Ok(stopped) => {
                let StoppedMeeting { summary, meta, end_reading: _ } = stopped;
                Ok(StoppedMeeting { summary, meta, end_reading: Some(reading) })
            },
            Err(e) => Err(e),
        }
    }

    /// The transcript entry to append for a transcription of `text` by `speaker` whose speech
    /// began at `start_ms`: while a meeting runs and the trimmed text is not empty, the
    /// utterance with that trimmed text; nothing otherwise.
    pub fn transcribed_entry(&self, text: &str, speaker: Speaker, start_ms: i64) -> (entry: Option<Utterance>)
        ensures
            !self@.active ==> entry is None,
            self@.active && trimmed(text@).len() == 0 ==> entry is None,
            self@.active && trimmed(text@).len() > 0 ==> (entry matches Some(u)
                && u.id@ == utterance_id(start_ms) && u.speaker == speaker && u.text@ == trimmed(text@)
                && u.timestamp_ms == start_ms && u.duration_ms == 0),
    {
        if !self.is_active {
            return None;
        }
        utterance_from_transcript(text, speaker, start_ms)
    }

    /// The transcript entry for `speaker` saying `text` at `timestamp_ms`, while a meeting
    /// runs (its transcript is open); none otherwise.
    pub fn transcript_entry(&self, speaker: Speaker, text: &str, timestamp_ms: i64) -> (entry: Option<Utterance>)
        ensures
            self@.active ==> (entry matches Some(u) && u.id@ == utterance_id(timestamp_ms)
                && u.speaker == speaker && u.text@ == text@ && u.timestamp_ms == timestamp_ms
                && u.duration_ms == 0),
            !self@.active ==> entry is None,
    {
        if self.is_active {
            Some(Utterance::at(speaker, String::from_str(text), timestamp_ms))
        } else {
            None
        }
    }
}

/// A meeting started with `id` at `start_ms` and then stopped at `end_ms` is reported under
/// that id and start time, for the whole seconds between the two; afterwards no meeting runs,
/// none has an id, and the start time is kept.
pub proof fn stop_reports_start(
    before: MeetingView,
    id: Seq<char>,
    start_ms: i64,
    end_ms: i64,
    mic_buffer_len: usize,
    stopped: StoppedMeeting,
)
    requires
        before.wf(),
        !before.active,
        0 <= start_ms <= end_ms,
        end_ms <= max_clock_millis(),
        stop_report(before.started(id, start_ms), end_ms, mic_buffer_len, stopped),
    ensures
        before.started(id, start_ms).wf(),
        stopped.summary.id@ == id,
        stopped.meta.id@ == id,
        stopped.summary.started_at == start_ms,
        stopped.summary.ended_at == Some(end_ms),
        stopped.summary.duration_secs == (end_ms - start_ms) / 1000,
        before.started(id, start_ms).stopped() == (MeetingView { active: false, session_id: None, start_ms: Some(start_ms) }),
        before.started(id, start_ms).stopped().wf(),
{
}

/// A meeting whose plan took its start from a clock reading, and that was stopped by reading
/// the clock again later, is reported as starting at the first reading and ending at the
/// second, lasting the whole seconds between them; its stored record lists back with both.
pub proof fn summary_follows_clock_readings(
    before: MeetingView,
    plan_id: Seq<char>,
    plan_start: i64,
    start_reading: Option<i64>,
    mic_buffer_len: usize,
    stopped: StoppedMeeting,
)
    requires
        before.wf(),
        !before.active,
        start_reading == Some(plan_start),
        stopped.clock_end() matches Some(end) && plan_start <= end <= max_rfc3339_millis()
            && stopped.summary.ended_at == Some(end),
        0 <= plan_start,
        stop_report(before.started(plan_id, plan_start), stopped.summary.ended_at->0, mic_buffer_len, stopped),
        record_reads_back(stopped),
    ensures
        stopped.summary.id@ == plan_id,
        stopped.summary.started_at == start_reading->0,
        stopped.summary.ended_at == stopped.clock_end(),
        stopped.summary.duration_secs == (stopped.clock_end()->0 - start_reading->0) / 1000,
        listed_start(stopped.meta.started_at@) == start_reading->0,
        listed_end(stopped.meta.ended_at) == stopped.clock_end(),
{
}

} // verus!
