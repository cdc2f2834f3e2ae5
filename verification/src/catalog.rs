use vstd::prelude::*;
use crate::clock::{millis_from_rfc3339, rfc3339_millis};
use crate::model::{MeetingSessionSummary, SessionMeta, Utterance};
use crate::session::MeetingSessionManager;
use crate::text::lines_of;

verus! {

/// Summary `a` of `input` comes before summary `b` when listing newest first: it started later,
/// or both started at the same moment and `a` was read after `b`.
pub open spec fn listed_before(input: Seq<MeetingSessionSummary>, a: int, b: int) -> bool {
    input[a].started_at > input[b].started_at
        || (input[a].started_at == input[b].started_at && a > b)
}

/// `output` is `input` rearranged by `order` (output position to input position) so that
/// the sessions come newest first, and sessions that started together in reverse reading order.
pub open spec fn newest_first_by(
    input: Seq<MeetingSessionSummary>,
    output: Seq<MeetingSessionSummary>,
    order: Seq<int>,
) -> bool {
    &&& output.len() == input.len()
    &&& order.len() == input.len()
    &&& forall|i: int| 0 <= i < order.len() ==> 0 <= #[trigger] order[i] < input.len()
    &&& forall|i: int| 0 <= i < order.len() ==> #[trigger] output[i] == input[order[i]]
    &&& forall|i: int, j: int| 0 <= i < j < order.len() ==> #[trigger] order[i] != #[trigger] order[j]
    &&& forall|i: int, j: int|
        0 <= i < j < order.len() ==> listed_before(input, #[trigger] order[i], #[trigger] order[j])
}

/// `output` lists the sessions of `input` as `list_meetings` reports them: sorted by start
/// time, stably, and then reversed.
pub open spec fn newest_first(input: Seq<MeetingSessionSummary>, output: Seq<MeetingSessionSummary>) -> bool {
    exists|order: Seq<int>| newest_first_by(input, output, order)
}

/// Position in `rest` of the session listed first among them: the latest start, and of
/// equal starts the one read last.
fn position_of_newest(rest: &Vec<MeetingSessionSummary>, Ghost(idx): Ghost<Seq<int>>, Ghost(input): Ghost<Seq<MeetingSessionSummary>>) -> (p: usize)
    requires
        rest@.len() > 0,
        idx.len() == rest@.len(),
        forall|k: int| 0 <= k < idx.len() ==> #[trigger] rest@[k] == input[idx[k]],
        forall|k: int| 0 <= k < idx.len() ==> 0 <= #[trigger] idx[k] < input.len(),
        forall|a: int, b: int| 0 <= a < b < idx.len() ==> #[trigger] idx[a] < #[trigger] idx[b],
    ensures
        p < rest@.len(),
        forall|k: int| 0 <= k < idx.len() && k != p ==> listed_before(input, idx[p as int], #[trigger] idx[k]),
{
    let mut best: usize = 0;
    let mut k: usize = 1;
    while k < rest.len()
        invariant
            1 <= k <= rest@.len(),
            best < k,
            idx.len() == rest@.len(),
            forall|m: int| 0 <= m < idx.len() ==> #[trigger] rest@[m] == input[idx[m]],
            forall|a: int, b: int| 0 <= a < b < idx.len() ==> #[trigger] idx[a] < #[trigger] idx[b],
            forall|m: int| 0 <= m < k && m != best ==> listed_before(input, idx[best as int], #[trigger] idx[m]),
        decreases rest@.len() - k,
    {
        assert(rest@[k as int] == input[idx[k as int]]);
        assert(rest@[best as int] == input[idx[best as int]]);
        if rest[k].started_at >= rest[best].started_at {
            assert(idx[best as int] < idx[k as int]);
            best = k;
        }
        k = k + 1;
    }
    best
}

/// The summaries newest first: by start time, latest first; of equal starts the one that came
/// later in `summaries` first (a stable sort by start time, reversed).
pub fn order_newest_first(summaries: Vec<MeetingSessionSummary>) -> (listed: Vec<MeetingSessionSummary>)
    ensures
        newest_first(summaries@, listed@),
{
    let ghost input = summaries@;
    let ghost n = input.len() as int;
    let mut rest = summaries;
    let mut out: Vec<MeetingSessionSummary> = Vec::new();
    let ghost mut idx: Seq<int> = Seq::new(n as nat, |k: int| k);
    let ghost mut order: Seq<int> = seq![];
    while rest.len() > 0
        invariant
            n == input.len(),
            idx.len() == rest@.len(),
            order.len() == out@.len(),
            out@.len() + rest@.len() == n,
            forall|k: int| 0 <= k < idx.len() ==> #[trigger] rest@[k] == input[idx[k]],
            forall|k: int| 0 <= k < idx.len() ==> 0 <= #[trigger] idx[k] < n,
            forall|a: int, b: int| 0 <= a < b < idx.len() ==> #[trigger] idx[a] < #[trigger] idx[b],
            forall|i: int| 0 <= i < order.len() ==> 0 <= #[trigger] order[i] < n,
            forall|i: int| 0 <= i < order.len() ==> #[trigger] out@[i] == input[order[i]],
            forall|i: int, j: int| 0 <= i < j < order.len() ==> #[trigger] order[i] != #[trigger] order[j],
            forall|i: int, k: int| 0 <= i < order.len() && 0 <= k < idx.len() ==> #[trigger] order[i] != #[trigger] idx[k],
            forall|i: int, j: int|
                0 <= i < j < order.len() ==> listed_before(input, #[trigger] order[i], #[trigger] order[j]),
            forall|i: int, k: int|
                0 <= i < order.len() && 0 <= k < idx.len() ==> listed_before(input, #[trigger] order[i], #[trigger] idx[k]),
        decreases rest@.len(),
    {
        let p = position_of_newest(&rest, Ghost(idx), Ghost(input));
        let ghost chosen = idx[p as int];
        let item = rest.remove(p);
        out.push(item);
        proof {
            let old_idx = idx;
            let old_order = order;
            order = order.push(chosen);
            idx = idx.remove(p as int);
            assert forall|k: int| 0 <= k < idx.len() implies #[trigger] rest@[k] == input[idx[k]] by {
                if k < p {
                    assert(idx[k] == old_idx[k]);
                } else {
                    assert(idx[k] == old_idx[k + 1]);
                }
            }
            assert forall|k: int| 0 <= k < idx.len() implies 0 <= #[trigger] idx[k] < n by {
                if k < p {
                    assert(idx[k] == old_idx[k]);
                } else {
                    assert(idx[k] == old_idx[k + 1]);
                }
            }
            assert forall|a: int, b: int| 0 <= a < b < idx.len() implies #[trigger] idx[a] < #[trigger] idx[b] by {
                let a0 = if a < p { a } else { a + 1 };
                let b0 = if b < p { b } else { b + 1 };
                assert(idx[a] == old_idx[a0]);
                assert(idx[b] == old_idx[b0]);
                assert(old_idx[a0] < old_idx[b0]);
            }
            assert forall|i: int| 0 <= i < order.len() implies #[trigger] out@[i] == input[order[i]] by {
                if i < old_order.len() {
                    assert(order[i] == old_order[i]);
                }
            }
            assert forall|i: int| 0 <= i < order.len() implies 0 <= #[trigger] order[i] < n by {
                if i < old_order.len() {
                    assert(order[i] == old_order[i]);
                }
            }
            assert forall|i: int, j: int| 0 <= i < j < order.len() implies #[trigger] order[i] != #[trigger] order[j] by {
                if j < old_order.len() {
                    assert(order[i] == old_order[i]);
                    assert(order[j] == old_order[j]);
                } else {
                    assert(order[i] == old_order[i]);
                    assert(old_order[i] != old_idx[p as int]);
                }
            }
            assert forall|i: int, k: int| 0 <= i < order.len() && 0 <= k < idx.len() implies #[trigger] order[i] != #[trigger] idx[k] by {
                let k0 = if k < p { k } else { k + 1 };
                assert(idx[k] == old_idx[k0]);
                if i < old_order.len() {
                    assert(order[i] == old_order[i]);
                    assert(old_order[i] != old_idx[k0]);
                } else {
                    assert(old_idx[p as int] < old_idx[k0] || old_idx[k0] < old_idx[p as int]);
                }
            }
            assert forall|i: int, j: int|
                0 <= i < j < order.len() implies listed_before(input, #[trigger] order[i], #[trigger] order[j]) by {
                if j < old_order.len() {
                    assert(order[i] == old_order[i]);
                    assert(order[j] == old_order[j]);
                } else {
                    assert(order[i] == old_order[i]);
                    assert(listed_before(input, old_order[i], old_idx[p as int]));
                }
            }
            assert forall|i: int, k: int|
                0 <= i < order.len() && 0 <= k < idx.len() implies listed_before(input, #[trigger] order[i], #[trigger] idx[k]) by {
                let k0 = if k < p { k } else { k + 1 };
                assert(idx[k] == old_idx[k0]);
                if i < old_order.len() {
                    assert(order[i] == old_order[i]);
                    assert(listed_before(input, old_order[i], old_idx[k0]));
                } else {
                    assert(k0 != p);
                    assert(listed_before(input, old_idx[p as int], old_idx[k0]));
                }
            }
        }
    }
    assert(newest_first_by(input, out@, order));
    out
}

} // verus!

verus! {

/// The start time a listing reports for a stored start text: what RFC 3339 parsing reads, or 0.
pub open spec fn listed_start(started_at: Seq<char>) -> i64 {
    match rfc3339_millis(started_at) {
        Some(ms) => ms,
        None => 0,
    }
}

/// The end time a listing reports for a stored end text, where parsing succeeds.
pub open spec fn listed_end(ended_at: Option<String>) -> Option<i64> {
    match ended_at {
        Some(t) => rfc3339_millis(t@),
        None => None,
    }
}

/// The summary a listing reports for a stored session record and its number of transcript lines.
pub open spec fn summary_of(meta: SessionMeta, utterance_count: usize) -> MeetingSessionSummary {
    MeetingSessionSummary {
        id: meta.id,
        started_at: listed_start(meta.started_at@),
        ended_at: listed_end(meta.ended_at),
        duration_secs: meta.duration_secs,
        utterance_count,
    }
}

impl MeetingSessionSummary {
    /// The summary of a stored session from its record, the start and end instants read from
    /// the record's texts (`None` where a text could not be read or is absent) and the number of
    /// transcript lines: an unreadable start counts as 0.
    pub fn from_read_times(meta: SessionMeta, started: Option<i64>, ended: Option<i64>, utterance_count: usize) -> (s: MeetingSessionSummary)
        ensures
            s.id == meta.id,
            s.started_at == (match started {
                Some(ms) => ms,
                None => 0,
            }),
            s.ended_at == ended,
            s.duration_secs == meta.duration_secs,
            s.utterance_count == utterance_count,
    {
        let started_at = match started {
            Some(ms) => ms,
            None => 0,
        };
        MeetingSessionSummary {
            id: meta.id,
            started_at,
            ended_at: ended,
            duration_secs: meta.duration_secs,
            utterance_count,
        }
    }

    /// The summary of a stored session from its record and the number of transcript lines.
    pub fn from_meta(meta: SessionMeta, utterance_count: usize) -> (s: MeetingSessionSummary)
        ensures
            s == summary_of(meta, utterance_count),
    {
        let started = millis_from_rfc3339(meta.started_at.as_str());
        let ended = match &meta.ended_at {
            Some(t) => millis_from_rfc3339(t.as_str()),
            None => None,
        };
        MeetingSessionSummary::from_read_times(meta, started, ended, utterance_count)
    }
}

/// The utterances among the parsed transcript lines, in order; lines that did not parse drop out.
pub open spec fn parsed_utterances(lines: Seq<Option<Utterance>>) -> Seq<Utterance>
    decreases lines.len(),
{
    if lines.len() == 0 {
        seq![]
    } else {
        let before = parsed_utterances(lines.drop_last());
        match lines.last() {
            Some(u) => before.push(u),
            None => before,
        }
    }
}

/// The transcript of a session from its lines, each parsed or not: the parsed ones in order.
pub fn collect_transcript(lines: Vec<Option<Utterance>>) -> (utterances: Vec<Utterance>)
    ensures
        utterances@ == parsed_utterances(lines@),
{
    let ghost all = lines@;
    let mut kept: Vec<Utterance> = Vec::new();
    assert(all.take(0) =~= Seq::<Option<Utterance>>::empty());
    for line in it: lines.into_iter()
        invariant
            it.seq() == all,
            kept@ == parsed_utterances(all.take(it.index() as int)),
    {
        let ghost i = it.index() as int;
        assert(all.take(i + 1).drop_last() =~= all.take(i));
        match line {
            Some(u) => kept.push(u),
            None => {},
        }
    }
    assert(all.take(all.len() as int) =~= all);
    kept
}

/// The number of utterances a transcript yields is at most its number of lines.
pub proof fn parsed_utterances_bounded(lines: Seq<Option<Utterance>>)
    ensures
        parsed_utterances(lines).len() <= lines.len(),
    decreases lines.len(),
{
    if lines.len() > 0 {
        parsed_utterances_bounded(lines.drop_last());
    }
}

/// A transcript line appended and parsed adds its utterance at the end of what the transcript
/// yields.
pub proof fn appended_entry_extends_transcript(lines: Seq<Option<Utterance>>, u: Utterance)
    ensures
        parsed_utterances(lines.push(Some(u))) == parsed_utterances(lines).push(u),
{
    assert(lines.push(Some(u)).drop_last() =~= lines);
}

/// A transcript read back yields no more utterances than the listing counts lines for it:
/// each line of the stored text is parsed or dropped, none is split in two.
pub proof fn transcript_within_line_count(content: Seq<char>, parsed: Seq<Option<Utterance>>)
    requires
        parsed.len() == lines_of(content).len(),
    ensures
        parsed_utterances(parsed).len() <= lines_of(content).len(),
{
    parsed_utterances_bounded(parsed);
}

/// The summaries of stored sessions, each given by its record and transcript line count.
pub open spec fn summaries_of(stored: Seq<(SessionMeta, usize)>) -> Seq<MeetingSessionSummary> {
    stored.map_values(|p: (SessionMeta, usize)| summary_of(p.0, p.1))
}

impl MeetingSessionManager {
    /// The stored sessions, each given by its record and transcript line count, as the listing
    /// reports them: summarised, newest first.
    pub fn list_meetings(&self, stored: Vec<(SessionMeta, usize)>) -> (listed: Vec<MeetingSessionSummary>)
        ensures
            newest_first(summaries_of(stored@), listed@),
    {
        let ghost all = stored@;
        let mut summaries: Vec<MeetingSessionSummary> = Vec::new();
        assert(all.take(0) =~= Seq::<(SessionMeta, usize)>::empty());
        for entry in it: stored.into_iter()
            invariant
                it.seq() == all,
                summaries@ == summaries_of(all.take(it.index() as int)),
        {
            let ghost i = it.index() as int;
            let (meta, count) = entry;
            summaries.push(MeetingSessionSummary::from_meta(meta, count));
            assert(summaries@ =~= summaries_of(all.take(i + 1)));
        }
        assert(all.take(all.len() as int) =~= all);
        order_newest_first(summaries)
    }

    /// The transcript of a stored session from its lines, each parsed or not.
    pub fn get_meeting_transcript(&self, lines: Vec<Option<Utterance>>) -> (utterances: Vec<Utterance>)
        ensures
            utterances@ == parsed_utterances(lines@),
    {
        collect_transcript(lines)
    }
}

} // verus!
