use handy_meeting::buffer::{transcription_start_at, transcription_start_now, utterance_from_transcript, SampleBuffer};
use handy_meeting::catalog::collect_transcript;
use handy_meeting::model::{MeetingSessionSummary, SessionMeta, Speaker, Utterance};

#[test]
fn summary_from_stored_record() {
    let meta = SessionMeta {
        id: "meeting_1".to_string(),
        started_at: "2023-11-14T22:13:20.123+00:00".to_string(),
        ended_at: Some("not a time".to_string()),
        duration_secs: 12,
    };
    let s = MeetingSessionSummary::from_meta(meta, 4);
    assert_eq!(s.id, "meeting_1");
    assert_eq!(s.started_at, 1_700_000_000_123);
    assert_eq!(s.ended_at, None);
    assert_eq!(s.duration_secs, 12);
    assert_eq!(s.utterance_count, 4);
}

#[test]
fn summary_from_record_with_bad_start() {
    let meta = SessionMeta {
        id: "m".to_string(),
        started_at: String::new(),
        ended_at: Some("2024-01-01T00:00:00+01:00".to_string()),
        duration_secs: 0,
    };
    let s = MeetingSessionSummary::from_meta(meta, 0);
    assert_eq!(s.started_at, 0);
    assert_eq!(s.ended_at, Some(1_704_063_600_000));
}

#[test]
fn transcript_keeps_parsed_lines_in_order() {
    let a = Utterance::at(Speaker::You, "a".to_string(), 1);
    let b = Utterance::at(Speaker::Them, "b".to_string(), 2);
    let kept = collect_transcript(vec![Some(a), None, Some(b), None]);
    assert_eq!(kept.len(), 2);
    assert_eq!(kept[0].text, "a");
    assert_eq!(kept[1].text, "b");
    assert!(collect_transcript(Vec::new()).is_empty());
}

#[test]
fn sample_buffer_flushes_at_threshold() {
    let mut b: SampleBuffer<f32> = SampleBuffer::new();
    b.accept(false, vec![1.0; 10]);
    assert_eq!(b.len(), 0);
    b.accept(true, vec![0.5; 47_999]);
    assert!(b.take_if_due().is_none());
    assert_eq!(b.len(), 47_999);
    b.accept(true, vec![0.25]);
    let flushed = b.take_if_due().unwrap();
    assert_eq!(flushed.len(), 48_000);
    assert_eq!(flushed[47_999], 0.25);
    assert_eq!(b.len(), 0);
    b.accept(true, vec![2.0, 3.0]);
    assert_eq!(b.drain(), vec![2.0, 3.0]);
    assert_eq!(b.len(), 0);
}

#[test]
fn transcription_start_from_buffer_length() {
    assert_eq!(transcription_start_at(7_999, 10_000), None);
    assert_eq!(transcription_start_at(16_000, 10_000), Some(9_000));
    assert_eq!(transcription_start_at(8_000, 0), Some(-500));
    assert_eq!(transcription_start_at(48_001, 100_000), Some(100_000 - 3_000));
    assert_eq!(transcription_start_now(100), None);
    assert!(transcription_start_now(16_000).unwrap() > 1_600_000_000_000);
}

#[test]
fn transcription_text_is_trimmed() {
    let u = utterance_from_transcript("  hello there \n", Speaker::You, 42).unwrap();
    assert_eq!(u.text, "hello there");
    assert_eq!(u.id, "u_42");
    assert_eq!(u.timestamp_ms, 42);
    assert_eq!(u.speaker, Speaker::You);
    assert!(utterance_from_transcript(" \t\n ", Speaker::Them, 1).is_none());
    assert!(utterance_from_transcript("", Speaker::Them, 1).is_none());
    let u = utterance_from_transcript("\u{3000}\u{a0}hi\u{2009}\r\n", Speaker::Them, 1).unwrap();
    assert_eq!(u.text, "hi");
    assert!(utterance_from_transcript("\u{85}\u{2028}", Speaker::Them, 1).is_none());
}

#[test]
fn summary_from_read_times() {
    let meta = SessionMeta { id: "m".to_string(), started_at: String::new(), ended_at: None, duration_secs: 3 };
    let s = MeetingSessionSummary::from_read_times(meta.clone(), None, Some(9), 1);
    assert_eq!(s.started_at, 0);
    assert_eq!(s.ended_at, Some(9));
    assert_eq!(s.duration_secs, 3);
    let s = MeetingSessionSummary::from_read_times(meta, Some(-4), None, 0);
    assert_eq!(s.started_at, -4);
    assert_eq!(s.ended_at, None);
}

#[test]
fn buffer_finish_hands_over_remainder() {
    let mut b: SampleBuffer<u8> = SampleBuffer::new();
    assert!(b.finish().is_none());
    b.accept(true, vec![4, 5]);
    assert_eq!(b.finish(), Some(vec![4, 5]));
    assert!(b.finish().is_none());
    b.accept(false, vec![6]);
    assert!(b.finish().is_none());
}

#[test]
fn written_lines_read_back() {
    let mut content = String::new();
    let a = handy_meeting::text::frame_line("{\"id\":\"u_1\"}");
    assert_eq!(a, "{\"id\":\"u_1\"}\n");
    content.push_str(&a);
    content.push_str(&handy_meeting::text::frame_line("{\"id\":\"u_2\"}"));
    assert_eq!(handy_meeting::text::split_lines(&content), vec!["{\"id\":\"u_1\"}", "{\"id\":\"u_2\"}"]);
}
