//! Tests of the persistent-stream adapter's state machine and of the job
//! queue and dispatcher ordering.

use notifi_printer::dispatch::dispatch_job;
use notifi_printer::dispatch::drain;
use notifi_printer::dispatch::trailer;
use notifi_printer::dispatch::JobQueue;
use notifi_printer::printer::encode;
use notifi_printer::printer::PrintData;
use notifi_printer::stream::build_live_job;
use notifi_printer::stream::classify_frame;
use notifi_printer::stream::ConnectTarget;
use notifi_printer::stream::Frame;
use notifi_printer::stream::RawFrame;
use notifi_printer::stream::SourceMeta;
use notifi_printer::stream::StreamAdapter;
use notifi_printer::stream::StreamPhase;
use notifi_printer::stream::StreamStep;
use notifi_printer::stream::WelcomeOutcome;
use notifi_printer::timestamp::Timestamp;

fn raw(message_type: Option<&str>) -> RawFrame {
    RawFrame {
        message_type: message_type.map(String::from),
        session_id: None,
        reconnect_url: None,
        source_id: None,
        timestamp: None,
    }
}

fn welcome_frame(id: &str) -> Frame {
    Frame::Welcome { session_id: String::from(id) }
}

fn streaming_adapter(sources: Vec<&str>) -> StreamAdapter {
    let mut adapter = StreamAdapter::new(sources.into_iter().map(String::from).collect());
    adapter.on_connected(1);
    adapter.on_first_frame(2);
    let outcome = adapter.on_welcome(&welcome_frame("sess-1"), 3);
    assert_eq!(outcome, WelcomeOutcome::SubscribeAll);
    adapter
}

#[test]
fn classify_welcome_and_missing_session() {
    let mut r = raw(Some("session_welcome"));
    assert!(matches!(classify_frame(&r), Frame::Malformed));
    r.session_id = Some(String::from("sess-9"));
    match classify_frame(&r) {
        Frame::Welcome { session_id } => assert_eq!(session_id, "sess-9"),
        _ => panic!("a welcome with a session id classifies as a welcome"),
    }
}

#[test]
fn classify_keepalive_reconnect_notification() {
    assert!(matches!(classify_frame(&raw(Some("session_keepalive"))), Frame::Keepalive));

    let mut r = raw(Some("session_reconnect"));
    r.reconnect_url = Some(String::from("wss://other.example"));
    match classify_frame(&r) {
        Frame::Reconnect { reconnect_url } => {
            assert_eq!(reconnect_url.as_deref(), Some("wss://other.example"))
        },
        _ => panic!("reconnect frames classify as reconnect"),
    }

    let mut n = raw(Some("notification"));
    assert!(matches!(classify_frame(&n), Frame::Malformed));
    n.source_id = Some(String::from("88547576"));
    n.timestamp = Some(String::from("2024-05-06T07:08:09Z"));
    match classify_frame(&n) {
        Frame::Notification { source_id, timestamp } => {
            assert_eq!(source_id, "88547576");
            assert_eq!(timestamp, "2024-05-06T07:08:09Z");
        },
        _ => panic!("complete notifications classify as notifications"),
    }
}

#[test]
fn classify_unknown_and_missing_type() {
    assert!(matches!(classify_frame(&raw(Some("session_goodbye"))), Frame::Unknown));
    assert!(matches!(classify_frame(&raw(None)), Frame::Malformed));
}

#[test]
fn handshake_subscribes_every_source() {
    let adapter = streaming_adapter(vec!["one", "two", "three"]);
    assert_eq!(adapter.phase, StreamPhase::Streaming);
    let subs = adapter.subscription_requests();
    assert_eq!(subs.len(), 3);
    for (i, expected) in ["one", "two", "three"].iter().enumerate() {
        assert_eq!(subs[i].source_id, *expected);
        assert_eq!(subs[i].session_id, "sess-1");
    }
}

#[test]
fn failed_welcome_reconnects_fresh() {
    let mut adapter = StreamAdapter::new(vec![String::from("one")]);
    adapter.on_connected(1);
    adapter.on_first_frame(2);
    let outcome = adapter.on_welcome(&Frame::Keepalive, 3);
    assert_eq!(outcome, WelcomeOutcome::Failed);
    assert_eq!(adapter.phase, StreamPhase::Connecting);
    assert!(adapter.session_id.is_none());
    assert!(matches!(adapter.connect_target(), ConnectTarget::DefaultEndpoint));
}

#[test]
fn reconnect_frame_honors_redirect_and_skips_resubscribe() {
    let mut adapter = streaming_adapter(vec!["one"]);
    let step = adapter.on_frame(
        &Frame::Reconnect { reconnect_url: Some(String::from("wss://redirect.example")) },
        10,
    );
    assert!(matches!(step, StreamStep::Reconnect));
    assert_eq!(adapter.phase, StreamPhase::Connecting);
    assert!(adapter.session_id.is_none());
    match adapter.connect_target() {
        ConnectTarget::Redirect(url) => assert_eq!(url, "wss://redirect.example"),
        ConnectTarget::DefaultEndpoint => panic!("the redirect endpoint is honored"),
    }
    // The redirected session resumes without re-registering subscriptions.
    adapter.on_connected(11);
    adapter.on_first_frame(12);
    assert_eq!(adapter.on_welcome(&welcome_frame("sess-2"), 13), WelcomeOutcome::ResumeStreaming);
}

#[test]
fn inactivity_reconnects_without_terminating() {
    let mut adapter = streaming_adapter(vec!["one"]);
    let keep = adapter.on_frame(&Frame::Keepalive, 100);
    assert!(matches!(keep, StreamStep::Continue));

    // An early wakeup changes nothing.
    assert!(!adapter.on_inactivity(139));
    assert_eq!(adapter.phase, StreamPhase::Streaming);

    // Forty quiet seconds close the connection and forget the session,
    // but the adapter itself lives on in the connecting phase.
    assert!(adapter.on_inactivity(140));
    assert_eq!(adapter.phase, StreamPhase::Connecting);
    assert!(adapter.session_id.is_none());
    assert!(matches!(adapter.connect_target(), ConnectTarget::DefaultEndpoint));
    assert_ne!(adapter.phase, StreamPhase::Terminated);
}

#[test]
fn only_cancellation_terminates() {
    let mut adapter = streaming_adapter(vec!["one"]);
    adapter.on_socket_closed();
    assert_eq!(adapter.phase, StreamPhase::Connecting);
    adapter.on_cancelled();
    assert_eq!(adapter.phase, StreamPhase::Terminated);
}

#[test]
fn notification_fetches_metadata_and_builds_live_job() {
    let mut adapter = streaming_adapter(vec!["88547576"]);
    let frame = Frame::Notification {
        source_id: String::from("88547576"),
        timestamp: String::from("2024-05-06T07:08:09Z"),
    };
    let (source_id, timestamp) = match adapter.on_frame(&frame, 50) {
        StreamStep::FetchMeta { source_id, timestamp } => (source_id, timestamp),
        _ => panic!("notifications fetch the source metadata"),
    };
    assert_eq!(source_id, "88547576");
    assert_eq!(adapter.phase, StreamPhase::Streaming);

    let meta = SourceMeta {
        broadcaster_name: String::from("rt"),
        title: String::from("Playing games"),
        game_name: String::from("Indie"),
        tags: vec![String::from("chill"), String::from("co-op")],
    };
    let job = build_live_job(&meta, &timestamp).expect("timestamp parses");
    assert_eq!(job.title, "rt is Live");
    assert!(job.subtitle.is_none());
    let message = job.message.as_deref().expect("live jobs carry a message");
    assert_eq!(message, "Playing games\n\nCategory: Indie\nTags: chill, co-op");
    assert!(message.contains("Category: Indie"));
    assert!(message.contains("Tags: chill, co-op"));
    assert_eq!(job.timestamp.month, 5);
}

#[test]
fn live_job_with_bad_timestamp_is_skipped() {
    let meta = SourceMeta {
        broadcaster_name: String::from("rt"),
        title: String::from("t"),
        game_name: String::from("g"),
        tags: Vec::new(),
    };
    assert!(build_live_job(&meta, "soon").is_none());
}

fn job(title: &str) -> PrintData {
    PrintData {
        title: String::from(title),
        subtitle: None,
        message: None,
        timestamp: Timestamp { month: 1, day: 1, hour: 0, minute: 0, second: 0 },
    }
}

#[test]
fn dispatcher_writes_jobs_in_fifo_order() {
    let mut queue = JobQueue::new();
    assert!(queue.try_send(job("first")));
    assert!(queue.try_send(job("second")));
    assert!(queue.try_send(job("third")));

    let mut expected: Vec<u8> = Vec::new();
    for title in ["first", "second", "third"] {
        expected.extend_from_slice(&dispatch_job(&job(title)));
    }
    let written = drain(&mut queue);
    assert_eq!(written, expected);
    assert_eq!(queue.len(), 0);
}

#[test]
fn queue_refuses_beyond_capacity() {
    let mut queue = JobQueue::new();
    for i in 0..16 {
        assert!(queue.try_send(job(&format!("job {i}"))));
    }
    assert!(!queue.try_send(job("overflow")));
    assert_eq!(queue.len(), 16);

    // Draining one slot makes room again.
    assert!(queue.recv().is_some());
    assert!(queue.try_send(job("fits now")));
}

#[test]
fn recv_returns_oldest_first() {
    let mut queue = JobQueue::new();
    assert!(queue.try_send(job("a")));
    assert!(queue.try_send(job("b")));
    assert_eq!(queue.recv().map(|j| j.title), Some(String::from("a")));
    assert_eq!(queue.recv().map(|j| j.title), Some(String::from("b")));
    assert!(queue.recv().is_none());
}

#[test]
fn one_job_write_is_encoding_then_trailer() {
    let j = job("solo");
    let mut expected = encode(&j);
    expected.extend_from_slice(&trailer());
    assert_eq!(dispatch_job(&j), expected);
    assert_eq!(trailer(), vec![0x1B, 0x64, 0x06, 0x0A, 0x1B, 0x69, 0x0C]);
}
