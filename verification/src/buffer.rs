use vstd::prelude::*;
use crate::clock::utc_now_millis;
use crate::model::{Speaker, Utterance, utterance_id};
use crate::session::MeetingView;
use crate::text::{trim_text, trimmed};

verus! {

/// A capture buffer is handed to transcription once it holds this many samples.
pub const FLUSH_SAMPLES: usize = 48000;

/// Fewer samples than this are not worth transcribing.
pub const MIN_TRANSCRIBE_SAMPLES: usize = 8000;

/// The sample rate of the audio handed to transcription, in samples per second.
pub const TRANSCRIPTION_SAMPLE_RATE: u32 = 16000;

/// What a buffer holds and has seen: the samples pending, all samples it took in, and all it
/// handed on, each in order.
pub struct BufferView<T> {
    pub pending: Seq<T>,
    pub taken_in: Seq<T>,
    pub handed_out: Seq<T>,
}

impl<T> BufferView<T> {
    /// No sample is lost or handed on twice: what the buffer has handed on, followed by what
    /// it holds, is exactly what it has taken in, in order.
    pub open spec fn accounts(self) -> bool {
        self.handed_out + self.pending == self.taken_in
    }
}

/// What the buffer holds after a capture callback delivers `samples`: they are added while
/// the meeting is active and dropped otherwise.
pub open spec fn accepted<T>(pending: Seq<T>, active: bool, samples: Seq<T>) -> Seq<T> {
    if active { pending + samples } else { pending }
}

/// The samples captured from one source since they were last handed to transcription.
pub struct SampleBuffer<T> {
    samples: Vec<T>,
    handed_out: Ghost<Seq<T>>,
}

impl<T> View for SampleBuffer<T> {
    type V = BufferView<T>;

    closed spec fn view(&self) -> BufferView<T> {
        BufferView {
            pending: self.samples@,
            taken_in: self.handed_out@ + self.samples@,
            handed_out: self.handed_out@,
        }
    }
}

impl<T> SampleBuffer<T> {
    /// An empty buffer that has seen nothing.
    pub fn new() -> (b: SampleBuffer<T>)
        ensures
            b@.pending == Seq::<T>::empty(),
            b@.taken_in == Seq::<T>::empty(),
            b@.handed_out == Seq::<T>::empty(),
            b@.accounts(),
    {
        let b = SampleBuffer { samples: Vec::new(), handed_out: Ghost(Seq::empty()) };
        assert(b@.taken_in =~= Seq::<T>::empty());
        b
    }

    /// The number of samples pending.
    pub fn len(&self) -> (n: usize)
        ensures
            n == self@.pending.len(),
            self@.accounts(),
    {
        self.samples.len()
    }

    /// Adds the samples a capture callback delivers, in order, while the meeting is active;
    /// drops them otherwise.
    pub fn accept(&mut self, active: bool, samples: Vec<T>)
        ensures
            final(self)@.pending == accepted(old(self)@.pending, active, samples@),
            final(self)@.taken_in == accepted(old(self)@.taken_in, active, samples@),
            final(self)@.handed_out == old(self)@.handed_out,
            final(self)@.accounts(),
    {
        if !active {
            return;
        }
        let mut incoming = samples;
        self.samples.append(&mut incoming);
        assert(final(self)@.taken_in =~= old(self)@.taken_in + samples@);
    }

    /// Hands over everything pending once it reaches `FLUSH_SAMPLES`, leaving nothing pending;
    /// below that nothing changes.
    pub fn take_if_due(&mut self) -> (flushed: Option<Vec<T>>)
        ensures
            old(self)@.pending.len() >= FLUSH_SAMPLES ==> (flushed matches Some(f) && f@ == old(self)@.pending
                && final(self)@ == (BufferView {
                    pending: Seq::<T>::empty(),
                    taken_in: old(self)@.taken_in,
                    handed_out: old(self)@.handed_out + f@,
                })),
            old(self)@.pending.len() < FLUSH_SAMPLES ==> (flushed is None && final(self)@ == old(self)@),
            final(self)@.accounts(),
    {
        if self.samples.len() >= FLUSH_SAMPLES {
            Some(self.drain())
        } else {
            None
        }
    }

    /// Hands over everything pending, leaving nothing pending.
    pub fn drain(&mut self) -> (all: Vec<T>)
        ensures
            all@ == old(self)@.pending,
            final(self)@ == (BufferView {
                pending: Seq::<T>::empty(),
                taken_in: old(self)@.taken_in,
                handed_out: old(self)@.handed_out + all@,
            }),
            final(self)@.accounts(),
    {
        let mut all: Vec<T> = Vec::new();
        let ghost handed = self.handed_out@ + self.samples@;
        all.append(&mut self.samples);
        self.handed_out = Ghost(handed);
        assert(self@.taken_in =~= old(self)@.taken_in);
        all
    }

    /// Hands over what is left once the meeting has ended: everything pending, or nothing
    /// when nothing is pending.
    pub fn finish(&mut self) -> (rest: Option<Vec<T>>)
        ensures
            old(self)@.pending.len() == 0 ==> (rest is None && final(self)@ == old(self)@),
            old(self)@.pending.len() > 0 ==> (rest matches Some(r) && r@ == old(self)@.pending
                && final(self)@ == (BufferView {
                    pending: Seq::<T>::empty(),
                    taken_in: old(self)@.taken_in,
                    handed_out: old(self)@.handed_out + r@,
                })),
            final(self)@.accounts(),
    {
        if self.samples.len() == 0 {
            None
        } else {
            Some(self.drain())
        }
    }
}

/// Once a running meeting has stopped, the capture callbacks, which pass on whether a meeting
/// runs, add nothing more to a buffer.
pub proof fn stopped_meeting_buffers_nothing<T>(running: MeetingView, pending: Seq<T>, samples: Seq<T>)
    requires
        running.active,
    ensures
        !running.stopped().active,
        accepted(pending, running.stopped().active, samples) == pending,
{
}

/// When the speech in a buffer of `buffer_len` samples began, heard up to `now_ms`:
/// `now_ms` less the buffer's length at the transcription sample rate, in whole milliseconds.
pub open spec fn speech_start(buffer_len: usize, now_ms: i64) -> int {
    now_ms - (buffer_len * 1000) / (TRANSCRIPTION_SAMPLE_RATE as int)
}

/// Whether a buffer of `buffer_len` samples goes to transcription, and if so from when its
/// speech dates: too short a buffer is skipped.
pub fn transcription_start_at(buffer_len: usize, now_ms: i64) -> (start: Option<i64>)
    requires
        0 <= now_ms,
        buffer_len * 1000 <= i64::MAX,
    ensures
        buffer_len < MIN_TRANSCRIBE_SAMPLES ==> start is None,
        buffer_len >= MIN_TRANSCRIBE_SAMPLES ==> start == Some(speech_start(buffer_len, now_ms) as i64),
{
    if buffer_len < MIN_TRANSCRIBE_SAMPLES {
        return None;
    }
    let samples_ms: i64 = (buffer_len as i64) * 1000 / (TRANSCRIPTION_SAMPLE_RATE as i64);
    Some(now_ms - samples_ms)
}

/// Whether a buffer of `buffer_len` samples goes to transcription, dated by the UTC clock now;
/// the clock is read only for a buffer long enough.
pub fn transcription_start_now(buffer_len: usize) -> (start: Option<i64>)
    requires
        buffer_len * 1000 <= i64::MAX,
    ensures
        buffer_len < MIN_TRANSCRIBE_SAMPLES ==> start is None,
        buffer_len >= MIN_TRANSCRIBE_SAMPLES ==> (start matches Some(s)
            && exists|now_ms: i64| 0 <= now_ms && s == speech_start(buffer_len, now_ms)),
{
    if buffer_len < MIN_TRANSCRIBE_SAMPLES {
        return None;
    }
    let now_ms = utc_now_millis().millis();
    transcription_start_at(buffer_len, now_ms)
}

/// The utterance a transcription yields, given its text already trimmed: none for empty text.
pub fn utterance_from_trimmed(trimmed_text: &str, speaker: Speaker, start_ms: i64) -> (u: Option<Utterance>)
    ensures
        trimmed_text@.len() == 0 ==> u is None,
        trimmed_text@.len() > 0 ==> (u matches Some(v) && v.id@ == utterance_id(start_ms)
            && v.speaker == speaker && v.text@ == trimmed_text@ && v.timestamp_ms == start_ms
            && v.duration_ms == 0),
{
    if trimmed_text.is_empty() {
        None
    } else {
        Some(Utterance::at(speaker, String::from_str(trimmed_text), start_ms))
    }
}

/// The utterance a transcription of `text` yields for `speaker` from `start_ms` on: its text
/// trimmed, none when nothing but whitespace came back.
pub fn utterance_from_transcript(text: &str, speaker: Speaker, start_ms: i64) -> (u: Option<Utterance>)
    ensures
        trimmed(text@).len() == 0 ==> u is None,
        trimmed(text@).len() > 0 ==> (u matches Some(v) && v.id@ == utterance_id(start_ms)
            && v.speaker == speaker && v.text@ == trimmed(text@) && v.timestamp_ms == start_ms
            && v.duration_ms == 0),
{
    let t = trim_text(text);
    utterance_from_trimmed(t, speaker, start_ms)
}

} // verus!
