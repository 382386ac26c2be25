//! Tests of the poll and session-poll adapters: event classification, job
//! construction, credential lifecycle, and cursor handling.

use notifi_printer::poll::build_comment_job;
use notifi_printer::poll::comment_like;
use notifi_printer::poll::mark_read_ok;
use notifi_printer::poll::plan_event;
use notifi_printer::poll::CommentDetail;
use notifi_printer::poll::PollCursor;
use notifi_printer::poll::PollEvent;
use notifi_printer::poll::PollPlan;
use notifi_printer::session::build_follow_job;
use notifi_printer::session::classify_list_status;
use notifi_printer::session::plan_notification;
use notifi_printer::session::post_cycle_delay;
use notifi_printer::session::refresh_ok;
use notifi_printer::session::update_seen_ok;
use notifi_printer::session::unread_only;
use notifi_printer::session::ListOutcome;
use notifi_printer::session::NotifPlan;
use notifi_printer::session::Notification;
use notifi_printer::session::Profile;
use notifi_printer::session::SessionAction;
use notifi_printer::session::SessionCreds;

fn sample_event(reason: &str) -> PollEvent {
    PollEvent {
        id: String::from("42"),
        reason: String::from(reason),
        repository: String::from("org/app"),
        subject_title: String::from("Bug 42"),
        latest_comment_url: String::from("https://tracker.example/comments/7"),
        updated_at: String::from("2024-01-01T00:00:00Z"),
    }
}

fn sample_notification(reason: &str) -> Notification {
    Notification {
        reason: String::from(reason),
        did: String::from("did:example:alice"),
        display_name: String::from("Dan"),
        handle: String::from("dan.example"),
        text: String::from("hey"),
        created_at: String::from("2024-03-04T05:06:07Z"),
        is_read: false,
    }
}

#[test]
fn comment_event_prints_exactly_one_job() {
    let event = sample_event("comment");
    let plan = plan_event(&event);
    let url = match plan {
        PollPlan::FetchDetail(u) => u,
        PollPlan::Skip => panic!("comment-like event must fetch its detail"),
    };
    assert_eq!(url, "https://tracker.example/comments/7");

    let detail = CommentDetail { author: String::from("alice"), body: String::from("looks good") };
    let job = build_comment_job(&event, &detail).expect("timestamp parses");
    assert_eq!(job.title, "New Issue Comment");
    assert_eq!(job.subtitle.as_deref(), Some("org/app\nBug 42"));
    assert_eq!(job.message.as_deref(), Some("alice:\nlooks good"));
    assert_eq!(job.timestamp.month, 1);
    assert_eq!(job.timestamp.day, 1);
    assert_eq!(job.timestamp.hour, 0);
    assert_eq!(job.timestamp.minute, 0);
    assert_eq!(job.timestamp.second, 0);
}

#[test]
fn comment_like_reason_set() {
    assert!(comment_like("manual"));
    assert!(comment_like("comment"));
    assert!(comment_like("author"));
    assert!(!comment_like("subscribed"));
    assert!(!comment_like(""));
}

#[test]
fn non_comment_event_is_skipped() {
    let event = sample_event("ci_activity");
    assert!(matches!(plan_event(&event), PollPlan::Skip));
}

#[test]
fn comment_job_with_bad_timestamp_is_skipped() {
    let mut event = sample_event("comment");
    event.updated_at = String::from("not a timestamp");
    let detail = CommentDetail { author: String::from("a"), body: String::from("b") };
    assert!(build_comment_job(&event, &detail).is_none());
}

#[test]
fn mark_read_expects_reset_content() {
    assert!(mark_read_ok(205));
    assert!(!mark_read_ok(200));
    assert!(!mark_read_ok(404));
}

#[test]
fn poll_cursor_defaults_and_updates() {
    let mut cursor = PollCursor::new();
    assert_eq!(cursor.interval_secs, 60);
    assert!(cursor.freshness.is_none());

    cursor.apply_response(Some(String::from("30")), Some(String::from("etag-1")));
    assert_eq!(cursor.interval_secs, 30);
    assert_eq!(cursor.freshness.as_deref(), Some("etag-1"));

    // Malformed interval header falls back to the default; the freshness
    // token is kept when the response carries none.
    cursor.apply_response(Some(String::from("3x")), None);
    assert_eq!(cursor.interval_secs, 60);
    assert_eq!(cursor.freshness.as_deref(), Some("etag-1"));

    cursor.apply_response(None, None);
    assert_eq!(cursor.interval_secs, 60);

    // An interval too large for the type also falls back to the default.
    cursor.apply_response(Some(String::from("99999999999999999999999")), None);
    assert_eq!(cursor.interval_secs, 60);

    cursor.apply_response(Some(String::from("0")), None);
    assert_eq!(cursor.interval_secs, 0);
}

#[test]
fn noisy_reason_never_enqueues() {
    // The designated noisy reason is suppressed whatever the payload holds.
    let mut n = sample_notification("like");
    assert!(matches!(plan_notification(&n), NotifPlan::Skip));
    n.text = String::from("a completely different payload");
    n.created_at = String::from("2020-12-31T23:59:59Z");
    assert!(matches!(plan_notification(&n), NotifPlan::Skip));
}

#[test]
fn unknown_reason_is_skipped() {
    let n = sample_notification("repost");
    assert!(matches!(plan_notification(&n), NotifPlan::Skip));
}

#[test]
fn follow_requests_profile_lookup() {
    let n = sample_notification("follow");
    match plan_notification(&n) {
        NotifPlan::FetchProfile(did) => assert_eq!(did, "did:example:alice"),
        _ => panic!("follow events need the profile"),
    }
}

#[test]
fn reply_builds_quoting_job() {
    let n = sample_notification("reply");
    match plan_notification(&n) {
        NotifPlan::Emit(job) => {
            assert_eq!(job.title, "Bsky: New reply");
            assert!(job.subtitle.is_none());
            assert_eq!(job.message.as_deref(), Some("Dan (dan.example) said:\nhey"));
            assert_eq!(job.timestamp.month, 3);
            assert_eq!(job.timestamp.hour, 5);
        },
        _ => panic!("reply events print directly"),
    }
}

#[test]
fn reply_with_bad_timestamp_is_skipped() {
    let mut n = sample_notification("reply");
    n.created_at = String::from("yesterday");
    assert!(matches!(plan_notification(&n), NotifPlan::Skip));
}

#[test]
fn follow_job_renders_profile_counters() {
    let n = sample_notification("follow");
    let p = Profile {
        did: String::from("did:example:alice"),
        handle: String::from("alice.example"),
        display_name: String::from("Alice"),
        description: String::from("writes code"),
        followers_count: 3456,
        follows_count: 12,
        posts_count: 7,
        created_at: String::from("2023-01-01T00:00:00Z"),
    };
    let job = build_follow_job(&n, &p).expect("timestamp parses");
    assert_eq!(job.title, "Bsky: New follower");
    assert_eq!(
        job.message.as_deref(),
        Some("Alice (alice.example) followed you\nwrites code\n12 Following | 3456 Followers"),
    );
}

#[test]
fn follow_job_renders_zero_counters() {
    let n = sample_notification("follow");
    let p = Profile {
        did: String::from("did:example:b"),
        handle: String::from("b.example"),
        display_name: String::from("B"),
        description: String::from(""),
        followers_count: 0,
        follows_count: 0,
        posts_count: 0,
        created_at: String::from("2023-01-01T00:00:00Z"),
    };
    let job = build_follow_job(&n, &p).expect("timestamp parses");
    assert_eq!(
        job.message.as_deref(),
        Some("B (b.example) followed you\n\n0 Following | 0 Followers"),
    );
}

#[test]
fn token_expiry_refreshes_before_relogin() {
    let mut creds = SessionCreds::new();
    assert_eq!(creds.next_action(), SessionAction::Login);

    creds.on_new_tokens(String::from("access-1"), String::from("refresh-1"));
    assert_eq!(creds.next_action(), SessionAction::ListUnread);

    // An authorization failure on the listing leads to a refresh attempt,
    // not a fresh login, as long as the refresh token is held.
    creds.on_auth_failure();
    assert_eq!(creds.next_action(), SessionAction::Refresh);
    assert_eq!(creds.refresh.as_deref(), Some("refresh-1"));

    // Only a failed refresh discards the refresh token and forces a login.
    creds.on_refresh_failure();
    assert_eq!(creds.next_action(), SessionAction::Login);
}

#[test]
fn list_status_classification() {
    assert_eq!(classify_list_status(200), ListOutcome::Accepted);
    assert_eq!(classify_list_status(400), ListOutcome::ExpiredToken);
    assert_eq!(classify_list_status(401), ListOutcome::BadRequest);
    assert_eq!(classify_list_status(500), ListOutcome::BadRequest);
}

#[test]
fn refresh_and_update_seen_expect_ok() {
    assert!(refresh_ok(200));
    assert!(!refresh_ok(400));
    assert!(!refresh_ok(500));
    assert!(update_seen_ok(200));
    assert!(!update_seen_ok(401));
}

#[test]
fn auth_failure_is_the_sole_immediate_retry() {
    assert_eq!(post_cycle_delay(&ListOutcome::ExpiredToken), 0);
    assert_eq!(post_cycle_delay(&ListOutcome::Accepted), 10);
    assert_eq!(post_cycle_delay(&ListOutcome::BadRequest), 10);
}

#[test]
fn unread_filter_keeps_order() {
    let mut a = sample_notification("reply");
    a.text = String::from("first");
    let mut b = sample_notification("reply");
    b.text = String::from("read");
    b.is_read = true;
    let mut c = sample_notification("reply");
    c.text = String::from("second");
    let unread = unread_only(vec![a, b, c]);
    assert_eq!(unread.len(), 2);
    assert_eq!(unread[0].text, "first");
    assert_eq!(unread[1].text, "second");
}
