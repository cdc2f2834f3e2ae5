use vstd::prelude::*;
use crate::model::{Speaker, Utterance};
use crate::text::{fits_one_line, lines_across_unbroken, lines_from, lines_of, strip_cr};

verus! {

/// How the notes prompt names a speaker.
pub open spec fn speaker_label(speaker: Speaker) -> Seq<char> {
    match speaker {
        Speaker::You => "You"@,
        Speaker::Them => "Other"@,
    }
}

/// How the notes prompt names a speaker.
pub fn speaker_label_of(speaker: Speaker) -> (label: &'static str)
    ensures
        label@ == speaker_label(speaker),
{
    match speaker {
        Speaker::You => "You",
        Speaker::Them => "Other",
    }
}

/// One utterance as the notes prompt shows it: `[label] text`.
pub open spec fn transcript_line(u: Utterance) -> Seq<char> {
    "["@ + speaker_label(u.speaker) + "] "@ + u.text@
}

/// The utterances as the notes prompt shows them: one line each, joined by `'\n'`.
pub open spec fn joined_transcript(us: Seq<Utterance>) -> Seq<char>
    decreases us.len(),
{
    if us.len() == 0 {
        seq![]
    } else if us.len() == 1 {
        transcript_line(us[0])
    } else {
        joined_transcript(us.drop_last()) + "\n"@ + transcript_line(us.last())
    }
}

/// The utterances as the notes prompt shows them: one `[label] text` line each.
pub fn format_transcript(utterances: &Vec<Utterance>) -> (text: String)
    ensures
        text@ == joined_transcript(utterances@),
{
    let mut text = String::new();
    let mut i: usize = 0;
    assert(utterances@.take(0) =~= Seq::<Utterance>::empty());
    while i < utterances.len()
        invariant
            i <= utterances@.len(),
            text@ == joined_transcript(utterances@.take(i as int)),
        decreases utterances@.len() - i,
    {
        let u = &utterances[i];
        if i > 0 {
            text.append("\n");
        }
        text.append("[");
        text.append(speaker_label_of(u.speaker));
        text.append("] ");
        text.append(u.text.as_str());
        proof {
            let us = utterances@.take(i + 1);
            assert(us.drop_last() =~= utterances@.take(i as int));
            assert(us.last() == utterances@[i as int]);
            if i == 0 {
                assert(us[0] == utterances@[0]);
            }
            assert(text@ =~= joined_transcript(us));
        }
        i = i + 1;
    }
    assert(utterances@.take(utterances@.len() as int) =~= utterances@);
    text
}

/// The separator between the notes template and the transcript.
pub open spec fn transcript_heading() -> Seq<char> {
    "\n\n---\n\nMeeting Transcript:\n"@
}

/// What the notes request sends as the user's message: the template, then the transcript.
pub fn notes_user_content(template: &str, transcript: &str) -> (content: String)
    ensures
        content@ == template@ + transcript_heading() + transcript@,
{
    let mut content = String::from_str(template);
    content.append("\n\n---\n\nMeeting Transcript:\n");
    content.append(transcript);
    content
}

/// The first position in `ids` that holds `id`, if any.
pub open spec fn first_position(ids: Seq<String>, id: Seq<char>, p: int) -> bool {
    &&& 0 <= p < ids.len()
    &&& ids[p]@ == id
    &&& forall|k: int| 0 <= k < p ==> #[trigger] ids[k]@ != id
}

/// Where the provider `id` stands among the configured providers, the first match.
pub fn find_provider(provider_ids: &Vec<String>, id: &String) -> (found: Option<usize>)
    ensures
        found matches Some(p) ==> first_position(provider_ids@, id@, p as int),
        found is None ==> forall|k: int| 0 <= k < provider_ids@.len() ==> #[trigger] provider_ids@[k]@ != id@,
{
    let mut i: usize = 0;
    while i < provider_ids.len()
        invariant
            i <= provider_ids@.len(),
            forall|k: int| 0 <= k < i ==> #[trigger] provider_ids@[k]@ != id@,
        decreases provider_ids@.len() - i,
    {
        if provider_ids[i] == *id {
            return Some(i);
        }
        i = i + 1;
    }
    None
}

/// Why notes cannot be generated for a meeting.
#[derive(Clone, Debug)]
pub enum NotesError {
    /// The meeting has no utterances to take notes from.
    NoTranscript,
    /// No configured provider has the requested id.
    ProviderNotFound(String),
}

impl NotesError {
    /// The text the error is reported with.
    pub open spec fn text(self) -> Seq<char> {
        match self {
            NotesError::NoTranscript => "No transcript available for this meeting"@,
            NotesError::ProviderNotFound(id) => "Provider '"@ + id@ + "' not found"@,
        }
    }

    /// The text the error is reported with.
    pub fn message(&self) -> (m: String)
        ensures
            m@ == self.text(),
    {
        match self {
            NotesError::NoTranscript => String::from_str("No transcript available for this meeting"),
            NotesError::ProviderNotFound(id) => {
                let mut m = String::from_str("Provider '");
                m.append(id.as_str());
                m.append("' not found");
                m
            },
        }
    }
}

/// What a notes request goes out with: the provider to ask and the user's message.
pub struct NotesRequest {
    pub provider_index: usize,
    pub user_content: String,
}

/// The notes request for a meeting's utterances: refused for an empty transcript, then for a
/// provider id that no configured provider has.
pub fn prepare_notes_request(
    utterances: &Vec<Utterance>,
    provider_ids: &Vec<String>,
    provider_id: &String,
    template: &str,
) -> (res: Result<NotesRequest, NotesError>)
    ensures
        utterances@.len() == 0 ==> (res matches Err(e) && e is NoTranscript),
        utterances@.len() > 0 && (forall|k: int| 0 <= k < provider_ids@.len() ==> #[trigger] provider_ids@[k]@ != provider_id@)
            ==> (res matches Err(e) && e matches NotesError::ProviderNotFound(id) && id@ == provider_id@),
        utterances@.len() > 0 && (exists|k: int| 0 <= k < provider_ids@.len() && #[trigger] provider_ids@[k]@ == provider_id@)
            ==> res is Ok,
        res matches Ok(req) ==> utterances@.len() > 0
            && first_position(provider_ids@, provider_id@, req.provider_index as int)
            && req.user_content@ == template@ + transcript_heading() + joined_transcript(utterances@),
{
    if utterances.len() == 0 {
        return Err(NotesError::NoTranscript);
    }
    let transcript = format_transcript(utterances);
    let provider_index = match find_provider(provider_ids, provider_id) {
        Some(p) => p,
        None => return Err(NotesError::ProviderNotFound(provider_id.clone())),
    };
    let user_content = notes_user_content(template, transcript.as_str());
    Ok(NotesRequest { provider_index, user_content })
}

/// A prompt line of an utterance whose text fits one line is itself one unbroken line.
proof fn transcript_line_fits(u: Utterance)
    requires
        fits_one_line(u.text@),
    ensures
        fits_one_line(transcript_line(u)),
        transcript_line(u).len() > 0,
{
    reveal_strlit("[");
    reveal_strlit("] ");
    reveal_strlit("You");
    reveal_strlit("Other");
    let l = transcript_line(u);
    let head = "["@ + speaker_label(u.speaker) + "] "@;
    assert(l == head + u.text@);
    assert forall|i: int| 0 <= i < head.len() implies head[i] != '\n' by {
        match u.speaker {
            Speaker::You => assert(head =~= seq!['[', 'Y', 'o', 'u', ']', ' ']),
            Speaker::Them => assert(head =~= seq!['[', 'O', 't', 'h', 'e', 'r', ']', ' ']),
        }
    }
    assert(head.len() > 0 && head.last() == ' ') by {
        match u.speaker {
            Speaker::You => assert(head =~= seq!['[', 'Y', 'o', 'u', ']', ' ']),
            Speaker::Them => assert(head =~= seq!['[', 'O', 't', 'h', 'e', 'r', ']', ' ']),
        }
    }
    assert forall|i: int| 0 <= i < l.len() implies l[i] != '\n' by {
        if i < head.len() {
            assert(l[i] == head[i]);
        } else {
            assert(l[i] == u.text@[i - head.len()]);
        }
    }
    if u.text@.len() == 0 {
        assert(l =~= head);
    } else {
        assert(l.last() == u.text@.last());
    }
}

/// Reading the joined prompt lines followed by `rest`: every line but the last is complete,
/// and the last is still being read when `rest` begins.
proof fn lines_of_joined_prefix(us: Seq<Utterance>, rest: Seq<char>)
    requires
        us.len() > 0,
        forall|i: int| 0 <= i < us.len() ==> fits_one_line(#[trigger] us[i].text@),
    ensures
        lines_from(seq![], joined_transcript(us) + rest)
            == us.drop_last().map_values(|u: Utterance| transcript_line(u)) + lines_from(transcript_line(us.last()), rest),
    decreases us.len(),
{
    reveal_strlit("\n");
    let last = us.last();
    transcript_line_fits(last);
    if us.len() == 1 {
        assert(joined_transcript(us) == transcript_line(us[0]));
        lines_across_unbroken(seq![], transcript_line(last), rest);
        assert(Seq::<char>::empty() + transcript_line(last) =~= transcript_line(last));
        assert(us.drop_last().map_values(|u: Utterance| transcript_line(u)) =~= Seq::<Seq<char>>::empty());
        assert(Seq::<Seq<char>>::empty() + lines_from(transcript_line(us.last()), rest)
            =~= lines_from(transcript_line(us.last()), rest));
    } else {
        let front = us.drop_last();
        let prev = front.last();
        assert(fits_one_line(front[front.len() - 1].text@));
        transcript_line_fits(prev);
        let l = transcript_line(last);
        let tail = "\n"@ + l + rest;
        assert(joined_transcript(us) + rest =~= joined_transcript(front) + tail);
        lines_of_joined_prefix(front, tail);
        assert(tail =~= seq!['\n'] + (l + rest));
        assert((seq!['\n'] + (l + rest))[0] == '\n');
        assert((seq!['\n'] + (l + rest)).drop_first() =~= l + rest);
        assert(lines_from(transcript_line(prev), tail)
            == seq![strip_cr(transcript_line(prev))] + lines_from(seq![], l + rest));
        assert(strip_cr(transcript_line(prev)) == transcript_line(prev));
        lines_across_unbroken(seq![], l, rest);
        assert(Seq::<char>::empty() + l =~= l);
        assert(front.drop_last().map_values(|u: Utterance| transcript_line(u)) + seq![transcript_line(prev)]
            =~= us.drop_last().map_values(|u: Utterance| transcript_line(u)));
    }
}

/// The notes prompt shows each utterance on a line of its own, in order, when no utterance's
/// text breaks a line: splitting the formatted transcript into lines gives the `[label] text`
/// line of every utterance.
pub proof fn transcript_lines_are_utterances(us: Seq<Utterance>)
    requires
        forall|i: int| 0 <= i < us.len() ==> fits_one_line(#[trigger] us[i].text@),
    ensures
        lines_of(joined_transcript(us)) == us.map_values(|u: Utterance| transcript_line(u)),
{
    if us.len() == 0 {
        assert(lines_of(joined_transcript(us)) =~= us.map_values(|u: Utterance| transcript_line(u)));
    } else {
        lines_of_joined_prefix(us, seq![]);
        assert(joined_transcript(us) + Seq::<char>::empty() =~= joined_transcript(us));
        transcript_line_fits(us.last());
        assert(lines_from(transcript_line(us.last()), seq![]) == seq![transcript_line(us.last())]);
        assert(us.drop_last().map_values(|u: Utterance| transcript_line(u)) + seq![transcript_line(us.last())]
            =~= us.map_values(|u: Utterance| transcript_line(u)));
    }
}

} // verus!
