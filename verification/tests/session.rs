use handy_meeting::catalog::order_newest_first;
use handy_meeting::model::{MeetingSessionSummary, SessionMeta, Speaker};
use handy_meeting::session::{session_id_at, session_id_now, MeetingError, MeetingSessionManager};

#[test]
fn stop_without_meeting_is_refused() {
    let mut m = MeetingSessionManager::new();
    assert!(!m.is_meeting_active());
    assert_eq!(m.get_current_session_id(), None);
    match m.stop_meeting(0) {
        Err(e) => {
            assert_eq!(e, MeetingError::NoActiveMeeting);
            assert_eq!(e.message(), "No active meeting to stop");
        }
        Ok(_) => panic!("stopped a meeting that was not running"),
    }
}

#[test]
fn start_twice_is_refused() {
    let mut m = MeetingSessionManager::new();
    let plan = m.prepare_start("meeting_a".to_string(), 1000).ok().unwrap();
    assert_eq!(plan.session_id(), "meeting_a");
    assert_eq!(plan.record().started_at, "1970-01-01T00:00:01+00:00");
    assert_eq!(m.start_meeting(plan).unwrap(), "meeting_a");
    assert!(m.is_meeting_active());
    match m.prepare_start("meeting_b".to_string(), 2000) {
        Err(e) => {
            assert_eq!(e, MeetingError::AlreadyActive);
            assert_eq!(e.message(), "A meeting is already active");
        }
        Ok(_) => panic!("second meeting started"),
    }
    assert_eq!(m.get_current_session_id(), Some("meeting_a".to_string()));
}

#[test]
fn stop_reports_summary_and_record() {
    let mut m = MeetingSessionManager::new();
    m.start_meeting(m.prepare_start("meeting_x".to_string(), 1000).ok().unwrap()).unwrap();
    let stopped = m.stop_meeting_at(62_500, 100_000).unwrap();
    assert_eq!(stopped.summary.id, "meeting_x");
    assert_eq!(stopped.summary.started_at, 1000);
    assert_eq!(stopped.summary.ended_at, Some(62_500));
    assert_eq!(stopped.summary.duration_secs, 61);
    assert_eq!(stopped.summary.utterance_count, 2);
    assert_eq!(stopped.meta.id, "meeting_x");
    assert_eq!(stopped.meta.started_at, "1970-01-01T00:00:01+00:00");
    assert_eq!(stopped.meta.ended_at, Some("1970-01-01T00:01:02.500+00:00".to_string()));
    assert_eq!(stopped.meta.duration_secs, 61);
    assert!(!m.is_meeting_active());
    assert_eq!(m.get_current_session_id(), None);
}

#[test]
fn stop_with_end_before_start_wraps_duration() {
    let mut m = MeetingSessionManager::new();
    m.start_meeting(m.prepare_start("meeting_y".to_string(), 5000).ok().unwrap()).unwrap();
    let stopped = m.stop_meeting_at(1000, 0).unwrap();
    assert_eq!(stopped.summary.duration_secs, ((1000i64 - 5000) / 1000) as u64);
    assert_eq!(stopped.summary.duration_secs, 18446744073709551612);
    assert_eq!(stopped.summary.utterance_count, 0);
}

#[test]
fn stop_by_clock_reports_clock_end() {
    let mut m = MeetingSessionManager::new();
    m.start_meeting(m.prepare_start("meeting_z".to_string(), 0).ok().unwrap()).unwrap();
    let stopped = m.stop_meeting(47_999).unwrap();
    let end = stopped.summary.ended_at.unwrap();
    assert!(end > 1_600_000_000_000);
    assert_eq!(stopped.summary.duration_secs, (end / 1000) as u64);
    assert_eq!(stopped.summary.utterance_count, 0);
}

#[test]
fn session_ids_follow_the_clock_stamp() {
    assert_eq!(session_id_at(0), "meeting_1970-01-01_00-00-00");
    assert_eq!(session_id_at(1_700_000_000_999), "meeting_2023-11-14_22-13-20");
    let now = session_id_now();
    assert!(now.starts_with("meeting_"));
    assert_eq!(now.len(), "meeting_2023-11-14_22-13-20".len());
}

#[test]
fn opening_record_carries_start_time() {
    let meta = SessionMeta::opening("m".to_string(), 1_700_000_000_123);
    assert_eq!(meta.id, "m");
    assert_eq!(meta.started_at, "2023-11-14T22:13:20.123+00:00");
    assert_eq!(meta.ended_at, None);
    assert_eq!(meta.duration_secs, 0);
    let mut m = MeetingSessionManager::new();
    let plan = m.prepare_start_now("n".to_string()).ok().unwrap();
    let record = plan.record().clone();
    assert_eq!(record.id, "n");
    assert_eq!(record.ended_at, None);
    m.start_meeting(plan).unwrap();
    let start = m.stop_meeting_at(1_000_000_000_000_000, 0).unwrap().summary.started_at;
    assert!(start > 1_600_000_000_000);
    assert_eq!(MeetingSessionSummary::from_meta(record, 0).started_at, start);
    assert!(m.prepare_start_now("again".to_string()).is_ok());
}

#[test]
fn transcript_entries_only_while_running() {
    let mut m = MeetingSessionManager::new();
    assert!(m.transcript_entry(Speaker::You, "hello", 7).is_none());
    m.start_meeting(m.prepare_start("meeting_t".to_string(), 1).ok().unwrap()).unwrap();
    let u = m.transcript_entry(Speaker::Them, "hello", 7).unwrap();
    assert_eq!(u.id, "u_7");
    assert_eq!(u.text, "hello");
    assert_eq!(u.speaker, Speaker::Them);
}

#[test]
fn stopped_record_lists_back_as_summary() {
    let mut m = MeetingSessionManager::new();
    m.start_meeting(m.prepare_start("meeting_r".to_string(), 1_700_000_000_000).ok().unwrap()).unwrap();
    let stopped = m.stop_meeting_at(1_700_000_123_456, 0).unwrap();
    let listed = MeetingSessionSummary::from_meta(stopped.meta.clone(), 3);
    assert_eq!(listed.id, stopped.summary.id);
    assert_eq!(listed.started_at, stopped.summary.started_at);
    assert_eq!(listed.ended_at, stopped.summary.ended_at);
    assert_eq!(listed.duration_secs, stopped.summary.duration_secs);
    assert_eq!(listed.utterance_count, 3);
}

fn summary(id: &str, started_at: i64) -> MeetingSessionSummary {
    MeetingSessionSummary { id: id.to_string(), started_at, ended_at: None, duration_secs: 0, utterance_count: 0 }
}

#[test]
fn listing_is_newest_first_with_ties_reversed() {
    let listed = order_newest_first(vec![summary("a", 5), summary("b", 9), summary("c", 5), summary("d", 1)]);
    let ids: Vec<&str> = listed.iter().map(|s| s.id.as_str()).collect();
    assert_eq!(ids, vec!["b", "c", "a", "d"]);
    let mut expected = vec![summary("a", 5), summary("b", 9), summary("c", 5), summary("d", 1)];
    expected.sort_by_key(|s| s.started_at);
    expected.reverse();
    let expected_ids: Vec<&str> = expected.iter().map(|s| s.id.as_str()).collect();
    assert_eq!(ids, expected_ids);
    assert!(order_newest_first(Vec::new()).is_empty());
}

#[test]
fn session_id_from_stamp_prefixes() {
    assert_eq!(handy_meeting::session::session_id_from_stamp("2024-05-01_10-00-00"), "meeting_2024-05-01_10-00-00");
}

#[test]
fn manager_lists_stored_sessions_newest_first() {
    let m = MeetingSessionManager::new();
    let meta = |id: &str, start: &str, end: Option<&str>| SessionMeta {
        id: id.to_string(),
        started_at: start.to_string(),
        ended_at: end.map(|e| e.to_string()),
        duration_secs: 7,
    };
    let listed = m.list_meetings(vec![
        (meta("old", "2024-01-01T00:00:00+00:00", Some("2024-01-01T00:00:07+00:00")), 2),
        (meta("broken", "yesterday", None), 0),
        (meta("new", "2024-06-01T12:00:00.250+00:00", None), 5),
    ]);
    let ids: Vec<&str> = listed.iter().map(|s| s.id.as_str()).collect();
    assert_eq!(ids, vec!["new", "old", "broken"]);
    assert_eq!(listed[0].started_at, 1_717_243_200_250);
    assert_eq!(listed[0].utterance_count, 5);
    assert_eq!(listed[1].ended_at, Some(1_704_067_207_000));
    assert_eq!(listed[2].started_at, 0);
    assert_eq!(listed[2].duration_secs, 7);
}

#[test]
fn manager_transcript_skips_unparsed_lines() {
    let m = MeetingSessionManager::new();
    let u = handy_meeting::model::Utterance::at(Speaker::You, "kept".to_string(), 3);
    let kept = m.get_meeting_transcript(vec![None, Some(u)]);
    assert_eq!(kept.len(), 1);
    assert_eq!(kept[0].id, "u_3");
}

#[test]
fn a_prepared_start_is_refused_once_another_meeting_runs() {
    let mut m = MeetingSessionManager::new();
    let first = m.prepare_start("meeting_1".to_string(), 10).ok().unwrap();
    let second = m.prepare_start("meeting_2".to_string(), 20).ok().unwrap();
    m.start_meeting(first).unwrap();
    match m.start_meeting(second) {
        Err(e) => assert_eq!(e, MeetingError::AlreadyActive),
        Ok(_) => panic!("second meeting started"),
    }
    assert_eq!(m.get_current_session_id(), Some("meeting_1".to_string()));
    assert!(m.prepare_start_now("meeting_3".to_string()).is_err());
    let s = m.stop_meeting(0).unwrap().summary;
    assert_eq!(s.id, "meeting_1");
    assert!(s.started_at <= s.ended_at.unwrap());
    assert!(m.stop_meeting(0).is_err());
}

#[test]
fn transcriptions_become_entries_while_running() {
    let mut m = MeetingSessionManager::new();
    assert!(m.transcribed_entry("  hello \n", Speaker::You, 5).is_none());
    m.start_meeting(m.prepare_start("meeting_e".to_string(), 1).ok().unwrap()).unwrap();
    let u = m.transcribed_entry("  hello \n", Speaker::You, 5).unwrap();
    assert_eq!(u.id, "u_5");
    assert_eq!(u.text, "hello");
    assert_eq!(u.speaker, Speaker::You);
    assert_eq!(u.timestamp_ms, 5);
    assert_eq!(u.duration_ms, 0);
    assert!(m.transcribed_entry(" \t ", Speaker::Them, 5).is_none());
    m.stop_meeting_at(2, 0).unwrap();
    assert!(m.transcribed_entry("later", Speaker::Them, 9).is_none());
}
