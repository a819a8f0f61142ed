use onvif_events::snapshot::{dedup_snapshot_uris, replace_snapshot_uri_credentials, SnapshotProbe};

const CAMERA_STYLE_URI: &str =
    "http://192.168.1.217/webcapture.jpg?command=snap&channel=0&user=yfyf&password=aZlg5hk1";

#[test]
fn replaces_user_and_password_query_values() {
    let fixed = replace_snapshot_uri_credentials(CAMERA_STYLE_URI, "oet1", "oet12345").unwrap();
    assert_eq!(
        fixed,
        "http://192.168.1.217/webcapture.jpg?command=snap&channel=0&user=oet1&password=oet12345"
    );
}

#[test]
fn keeps_unrelated_query_pairs() {
    let fixed =
        replace_snapshot_uri_credentials("http://h/x?a=1&user=old&b=2", "new", "pw").unwrap();
    assert_eq!(fixed, "http://h/x?a=1&user=new&b=2");
}

#[test]
fn unparsable_uri_yields_nothing() {
    assert_eq!(replace_snapshot_uri_credentials("not a url", "u", "p"), None);
}

#[test]
fn probe_resolves_on_first_success() {
    let mut probe = SnapshotProbe::new(vec!["http://h/a?user=x&password=y".to_string()]);
    assert_eq!(probe.current_target().as_deref(), Some("http://h/a?user=x&password=y"));
    let resolved = probe.advance(true);
    assert_eq!(resolved.as_deref(), Some("http://h/a?user=x&password=y"));
}

#[test]
fn probe_retries_with_fallback_credentials_then_moves_on() {
    let mut probe = SnapshotProbe::new(vec![
        "http://h/a?user=x&password=y".to_string(),
        "http://h/b?user=x&password=y".to_string(),
    ]);
    assert_eq!(probe.advance(false), None);
    assert_eq!(
        probe.current_target().as_deref(),
        Some("http://h/a?user=oet1&password=oet12345")
    );
    assert_eq!(probe.advance(false), None);
    assert_eq!(probe.current_target().as_deref(), Some("http://h/b?user=x&password=y"));
    assert_eq!(probe.advance(false), None);
    let resolved = probe.advance(true);
    assert_eq!(resolved.as_deref(), Some("http://h/b?user=oet1&password=oet12345"));
}

#[test]
fn probe_gives_up_after_both_attempts_on_every_candidate() {
    let mut probe = SnapshotProbe::new(vec!["http://h/a?user=x".to_string()]);
    assert_eq!(probe.advance(false), None);
    assert_eq!(probe.advance(false), None);
    assert_eq!(probe.current_target(), None);
}

#[test]
fn probe_skips_candidate_whose_uri_cannot_carry_credentials() {
    let mut probe = SnapshotProbe::new(vec![
        "not a url".to_string(),
        "http://h/b?user=x".to_string(),
    ]);
    assert_eq!(probe.advance(false), None);
    assert_eq!(probe.current_target().as_deref(), Some("http://h/b?user=x"));
}

#[test]
fn dedup_keeps_first_occurrences_in_order() {
    let uris = vec![
        "http://h/a".to_string(),
        "http://h/b".to_string(),
        "http://h/a".to_string(),
        "http://h/c".to_string(),
        "http://h/b".to_string(),
    ];
    assert_eq!(
        dedup_snapshot_uris(uris),
        vec!["http://h/a".to_string(), "http://h/b".to_string(), "http://h/c".to_string()]
    );
    assert_eq!(dedup_snapshot_uris(Vec::new()), Vec::<String>::new());
}
