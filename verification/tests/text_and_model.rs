use handy_meeting::model::{Speaker, Utterance};
use handy_meeting::text::{chars_of, contains_seq, count_lines, split_lines};

#[test]
fn utterance_id_is_prefixed_decimal() {
    let u = Utterance::at(Speaker::You, "hi".to_string(), 1234);
    assert_eq!(u.id, "u_1234");
    assert_eq!(u.text, "hi");
    assert_eq!(u.timestamp_ms, 1234);
    assert_eq!(u.duration_ms, 0);
    assert_eq!(u.speaker, Speaker::You);
}

#[test]
fn utterance_id_edge_values() {
    assert_eq!(Utterance::at(Speaker::Them, String::new(), 0).id, "u_0");
    assert_eq!(Utterance::at(Speaker::Them, String::new(), -5).id, "u_-5");
    assert_eq!(Utterance::at(Speaker::Them, String::new(), 10).id, "u_10");
    assert_eq!(
        Utterance::at(Speaker::Them, String::new(), i64::MIN).id,
        format!("u_{}", i64::MIN)
    );
    assert_eq!(
        Utterance::at(Speaker::Them, String::new(), i64::MAX).id,
        format!("u_{}", i64::MAX)
    );
}

#[test]
fn line_count_matches_std_lines() {
    let cases = ["", "a", "a\n", "a\nb", "a\r\nb\r\n", "\n\n", "a\r", "x\r\r\ny", "\r\n", "é\nü\n\n"];
    for c in cases {
        assert_eq!(count_lines(c), c.lines().count(), "case {:?}", c);
    }
    assert_eq!(count_lines(""), 0);
    assert_eq!(count_lines("a\n"), 1);
    assert_eq!(count_lines("a\nb"), 2);
    assert_eq!(count_lines("\n\n"), 2);
}

#[test]
fn split_lines_matches_std_lines() {
    let cases = ["", "a", "a\n", "a\r\nb\rc\n\nd", "\r\n", "a\r", "x\r\r\ny", "{\"id\":\"u_1\"}\n{\"id\":\"u_2\"}\n"];
    for c in cases {
        let ours = split_lines(c);
        let std_lines: Vec<String> = c.lines().map(|l| l.to_string()).collect();
        assert_eq!(ours, std_lines, "case {:?}", c);
    }
    assert_eq!(split_lines("a\r\nb\rc\n\nd"), vec!["a", "b\rc", "", "d"]);
}

#[test]
fn substring_search() {
    let hay = chars_of("hda intel pch: hdmi 0");
    assert!(contains_seq(&hay, &chars_of("hdmi")));
    assert!(!contains_seq(&hay, &chars_of("usb")));
    assert!(contains_seq(&hay, &chars_of("")));
    assert!(contains_seq(&hay, &chars_of("0")));
    assert!(!contains_seq(&chars_of("us"), &chars_of("usb")));
}
