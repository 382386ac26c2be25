//! The persistent-stream adapter: a state machine over a push socket that
//! carries structured frames. Phases run `Connecting -> AwaitingFirst ->
//! AwaitingWelcome -> Streaming`; the adapter reconnects on inactivity,
//! on a remote-initiated reconnect, and on socket close, and terminates
//! only on cancellation.
//!
//! A remote-initiated reconnect carries a redirect endpoint; this machine
//! honors it: the next connection opens the redirect endpoint and, the
//! session being resumed there, skips re-registering subscriptions. Every
//! other path back to `Connecting` forgets both the session and the
//! redirect and starts a fresh, fully subscribed session on the default
//! endpoint.

use vstd::prelude::*;
use vstd::string::StringExecFns;
use crate::printer::PrintData;
use crate::text::joined;
use crate::text::join_comma;
use crate::text::str_eq;
use crate::timestamp::rfc3339_stamp;
use crate::timestamp::parse_rfc3339;

verus! {

/// Seconds without any inbound frame after which the connection is
/// presumed dead.
pub const INACTIVITY_TIMEOUT_SECS: u64 = 40;

/// The plain fields the boundary extracts from one structured text frame;
/// a missing or wrongly typed field arrives as absent.
pub struct RawFrame {
    pub message_type: Option<String>,
    pub session_id: Option<String>,
    pub reconnect_url: Option<String>,
    pub source_id: Option<String>,
    pub timestamp: Option<String>,
}

/// One classified inbound frame.
pub enum Frame {
    /// The structured greeting carrying the session identifier.
    Welcome { session_id: String },
    /// A liveness no-op.
    Keepalive,
    /// The endpoint asks this client to reconnect, optionally elsewhere.
    Reconnect { reconnect_url: Option<String> },
    /// A source went live.
    Notification { source_id: String, timestamp: String },
    /// A type this adapter does not handle: logged and ignored.
    Unknown,
    /// A frame missing a field its type requires: logged and skipped.
    Malformed,
}

/// The view of an optional owned string.
pub open spec fn opt_chars(s: Option<String>) -> Option<Seq<char>> {
    match s {
        Some(x) => Some(x@),
        None => None,
    }
}

/// Classify one raw frame by its message type, converting a missing or
/// incomplete payload into a malformed frame rather than a failure.
pub fn classify_frame(raw: &RawFrame) -> (f: Frame)
    ensures
        match f {
            Frame::Welcome { session_id } => opt_chars(raw.message_type) == Some(
                "session_welcome"@,
            ) && opt_chars(raw.session_id) == Some(session_id@),
            Frame::Keepalive => opt_chars(raw.message_type) == Some("session_keepalive"@),
            Frame::Reconnect { reconnect_url } => opt_chars(raw.message_type) == Some(
                "session_reconnect"@,
            ) && opt_chars(reconnect_url) == opt_chars(raw.reconnect_url),
            Frame::Notification { source_id, timestamp } => opt_chars(raw.message_type) == Some(
                "notification"@,
            ) && opt_chars(raw.source_id) == Some(source_id@) && opt_chars(raw.timestamp) == Some(
                timestamp@,
            ),
            Frame::Unknown => raw.message_type is Some && opt_chars(raw.message_type) != Some(
                "session_welcome"@,
            ) && opt_chars(raw.message_type) != Some("session_keepalive"@) && opt_chars(
                raw.message_type,
            ) != Some("session_reconnect"@) && opt_chars(raw.message_type) != Some(
                "notification"@,
            ),
            Frame::Malformed => raw.message_type is None || (opt_chars(raw.message_type) == Some(
                "session_welcome"@,
            ) && raw.session_id is None) || (opt_chars(raw.message_type) == Some("notification"@)
                && (raw.source_id is None || raw.timestamp is None)),
        },
{
    match &raw.message_type {
        None => Frame::Malformed,
        Some(mt) => {
            if str_eq(mt.as_str(), "session_welcome") {
                match &raw.session_id {
                    Some(id) => Frame::Welcome { session_id: id.clone() },
                    None => Frame::Malformed,
                }
            } else if str_eq(mt.as_str(), "session_keepalive") {
                Frame::Keepalive
            } else if str_eq(mt.as_str(), "session_reconnect") {
                match &raw.reconnect_url {
                    Some(u) => Frame::Reconnect { reconnect_url: Some(u.clone()) },
                    None => Frame::Reconnect { reconnect_url: None },
                }
            } else if str_eq(mt.as_str(), "notification") {
                match (&raw.source_id, &raw.timestamp) {
                    (Some(s), Some(t)) => Frame::Notification {
                        source_id: s.clone(),
                        timestamp: t.clone(),
                    },
                    _ => Frame::Malformed,
                }
            } else {
                Frame::Unknown
            }
        },
    }
}

/// Where the adapter stands in the connection lifecycle.
#[derive(Clone, Copy, PartialEq, Eq, Structural, Debug)]
pub enum StreamPhase {
    /// About to open the socket.
    Connecting,
    /// Socket open; the first inbound frame (a transport ping) is pending.
    AwaitingFirst,
    /// First frame discarded; the structured greeting is pending.
    AwaitingWelcome,
    /// Greeted and subscribed; frames are flowing.
    Streaming,
    /// Cancelled; the adapter is done for good.
    Terminated,
}

/// The adapter's whole state between events.
pub struct StreamAdapter {
    pub phase: StreamPhase,
    pub redirect_url: Option<String>,
    pub session_id: Option<String>,
    pub last_frame_at: u64,
    pub sources: Vec<String>,
}

/// Which endpoint the next connection opens.
pub enum ConnectTarget {
    /// The default endpoint: a fresh session.
    DefaultEndpoint,
    /// The endpoint a reconnect frame redirected this client to.
    Redirect(String),
}

/// How the structured greeting went.
#[derive(Clone, Copy, PartialEq, Eq, Structural, Debug)]
pub enum WelcomeOutcome {
    /// Fresh session: register one subscription per configured source.
    SubscribeAll,
    /// Redirected session resumed: subscriptions are still in place.
    ResumeStreaming,
    /// The greeting was absent or malformed: this connection attempt
    /// failed; tear down and reconnect from scratch.
    Failed,
}

/// One subscription registration: a configured source bound to the
/// session the endpoint assigned.
pub struct SubscriptionRequest {
    pub source_id: String,
    pub session_id: String,
}

/// What one streaming-phase frame leads to.
pub enum StreamStep {
    /// Nothing to do beyond noting liveness.
    Continue,
    /// Look up this source's metadata, then build the live job.
    FetchMeta { source_id: String, timestamp: String },
    /// Leave the socket and reconnect.
    Reconnect,
}

impl StreamAdapter {
    /// A fresh adapter for the configured sources, about to connect to the
    /// default endpoint.
    pub fn new(sources: Vec<String>) -> (a: StreamAdapter)
        ensures
            a.phase is Connecting,
            a.redirect_url is None,
            a.session_id is None,
            a.last_frame_at == 0,
            a.sources == sources,
    {
        StreamAdapter {
            phase: StreamPhase::Connecting,
            redirect_url: None,
            session_id: None,
            last_frame_at: 0,
            sources,
        }
    }

    /// The endpoint to open: the redirect endpoint when one was received,
    /// else the default endpoint.
    pub fn connect_target(&self) -> (t: ConnectTarget)
        ensures
            match self.redirect_url {
                Some(u) => t matches ConnectTarget::Redirect(r) && r@ == u@,
                None => t is DefaultEndpoint,
            },
    {
        match &self.redirect_url {
            Some(u) => ConnectTarget::Redirect(u.clone()),
            None => ConnectTarget::DefaultEndpoint,
        }
    }

    /// The socket opened.
    pub fn on_connected(&mut self, now: u64)
        ensures
            final(self).phase is AwaitingFirst,
            final(self).redirect_url == old(self).redirect_url,
            final(self).session_id == old(self).session_id,
            final(self).sources == old(self).sources,
            final(self).last_frame_at == now,
    {
        self.phase = StreamPhase::AwaitingFirst;
        self.last_frame_at = now;
    }

    /// The first inbound frame arrived: a transport-level ping, discarded
    /// whatever it holds.
    pub fn on_first_frame(&mut self, now: u64)
        ensures
            final(self).phase is AwaitingWelcome,
            final(self).redirect_url == old(self).redirect_url,
            final(self).session_id == old(self).session_id,
            final(self).sources == old(self).sources,
            final(self).last_frame_at == now,
    {
        self.phase = StreamPhase::AwaitingWelcome;
        self.last_frame_at = now;
    }

    /// The second inbound frame must be the structured greeting. On a
    /// greeting, enter the streaming phase and keep its session id; a
    /// fresh (non-redirected) session then registers every subscription.
    /// Anything else fails this connection attempt: back to a fresh
    /// connect on the default endpoint.
    pub fn on_welcome(&mut self, f: &Frame, now: u64) -> (o: WelcomeOutcome)
        ensures
            final(self).sources == old(self).sources,
            match f {
                Frame::Welcome { session_id } => {
                    &&& final(self).phase is Streaming
                    &&& final(self).session_id matches Some(s) && s@ == session_id@
                    &&& final(self).redirect_url == old(self).redirect_url
                    &&& final(self).last_frame_at == now
                    &&& o == (if old(self).redirect_url is None {
                        WelcomeOutcome::SubscribeAll
                    } else {
                        WelcomeOutcome::ResumeStreaming
                    })
                },
                _ => {
                    &&& final(self).phase is Connecting
                    &&& final(self).session_id is None
                    &&& final(self).redirect_url is None
                    &&& o == WelcomeOutcome::Failed
                },
            },
    {
        match f {
            Frame::Welcome { session_id } => {
                self.phase = StreamPhase::Streaming;
                self.session_id = Some(session_id.clone());
                self.last_frame_at = now;
                if self.redirect_url.is_none() {
                    WelcomeOutcome::SubscribeAll
                } else {
                    WelcomeOutcome::ResumeStreaming
                }
            },
            _ => {
                self.phase = StreamPhase::Connecting;
                self.session_id = None;
                self.redirect_url = None;
                WelcomeOutcome::Failed
            },
        }
    }

    /// One subscription registration per configured source, each bound to
    /// the current session, in configuration order. Outcomes are logged
    /// and never fail the adapter: partial subscription is tolerated.
    pub fn subscription_requests(&self) -> (v: Vec<SubscriptionRequest>)
        ensures
            self.session_id is Some ==> v@.len() == self.sources@.len(),
            self.session_id is None ==> v@.len() == 0,
            forall|i: int|
                0 <= i < v@.len() ==> v@[i].source_id@ == self.sources@[i]@
                    && v@[i].session_id@ == self.session_id.unwrap()@,
    {
        let mut v: Vec<SubscriptionRequest> = Vec::new();
        let sid = match &self.session_id {
            Some(s) => s,
            None => {
                return v;
            },
        };
        let mut i: usize = 0;
        while i < self.sources.len()
            invariant
                i <= self.sources@.len(),
                v@.len() == i,
                sid@ == self.session_id.unwrap()@,
                forall|k: int|
                    0 <= k < i ==> v@[k].source_id@ == self.sources@[k]@ && v@[k].session_id@
                        == self.session_id.unwrap()@,
            decreases self.sources@.len() - i,
        {
            v.push(
                SubscriptionRequest { source_id: self.sources[i].clone(), session_id: sid.clone() },
            );
            i = i + 1;
        }
        v
    }

    /// A frame arrived while streaming. Every frame counts as liveness.
    /// A keepalive is a no-op; a reconnect frame leaves streaming and
    /// honors the redirect endpoint for the next connection; a
    /// notification asks for the source's metadata; unknown and malformed
    /// frames are logged and ignored.
    pub fn on_frame(&mut self, f: &Frame, now: u64) -> (s: StreamStep)
        requires
            old(self).phase is Streaming,
        ensures
            final(self).sources == old(self).sources,
            final(self).last_frame_at == now,
            match f {
                Frame::Reconnect { reconnect_url } => {
                    &&& final(self).phase is Connecting
                    &&& final(self).session_id is None
                    &&& opt_chars(final(self).redirect_url) == opt_chars(*reconnect_url)
                    &&& s is Reconnect
                },
                Frame::Notification { source_id, timestamp } => {
                    &&& final(self).phase is Streaming
                    &&& final(self).session_id == old(self).session_id
                    &&& final(self).redirect_url == old(self).redirect_url
                    &&& s matches StreamStep::FetchMeta { source_id: sid, timestamp: ts }
                        && sid@ == source_id@ && ts@ == timestamp@
                },
                _ => {
                    &&& final(self).phase is Streaming
                    &&& final(self).session_id == old(self).session_id
                    &&& final(self).redirect_url == old(self).redirect_url
                    &&& s is Continue
                },
            },
    {
        self.last_frame_at = now;
        match f {
            Frame::Reconnect { reconnect_url } => {
                self.phase = StreamPhase::Connecting;
                self.session_id = None;
                self.redirect_url = match reconnect_url {
                    Some(u) => Some(u.clone()),
                    None => None,
                };
                StreamStep::Reconnect
            },
            Frame::Notification { source_id, timestamp } => StreamStep::FetchMeta {
                source_id: source_id.clone(),
                timestamp: timestamp.clone(),
            },
            _ => StreamStep::Continue,
        }
    }

    /// A transport-level frame (a ping, pong, or binary frame) arrived: it
    /// carries no application data but counts as liveness, since the
    /// inactivity timeout measures silence of any kind.
    pub fn on_transport_frame(&mut self, now: u64)
        requires
            old(self).phase is Streaming,
        ensures
            final(self).phase == old(self).phase,
            final(self).session_id == old(self).session_id,
            final(self).redirect_url == old(self).redirect_url,
            final(self).sources == old(self).sources,
            final(self).last_frame_at == now,
    {
        self.last_frame_at = now;
    }

    /// The inactivity timer fired. When no frame of any kind arrived for
    /// the timeout, the connection is presumed dead: forget the session
    /// and the redirect and re-enter the connecting phase — the adapter
    /// itself lives on. An early wakeup changes nothing.
    pub fn on_inactivity(&mut self, now: u64) -> (reconnect: bool)
        requires
            old(self).phase is Streaming,
        ensures
            reconnect == (now >= old(self).last_frame_at + INACTIVITY_TIMEOUT_SECS),
            reconnect ==> {
                &&& final(self).phase is Connecting
                &&& final(self).session_id is None
                &&& final(self).redirect_url is None
                &&& final(self).sources == old(self).sources
            },
            !reconnect ==> *final(self) == *old(self),
    {
        if now >= self.last_frame_at && now - self.last_frame_at >= INACTIVITY_TIMEOUT_SECS {
            self.phase = StreamPhase::Connecting;
            self.session_id = None;
            self.redirect_url = None;
            true
        } else {
            false
        }
    }

    /// The endpoint closed the socket: forget the session and reconnect
    /// from scratch on the default endpoint.
    pub fn on_socket_closed(&mut self)
        ensures
            final(self).phase is Connecting,
            final(self).session_id is None,
            final(self).redirect_url is None,
            final(self).sources == old(self).sources,
            final(self).last_frame_at == old(self).last_frame_at,
    {
        self.phase = StreamPhase::Connecting;
        self.session_id = None;
        self.redirect_url = None;
    }

    /// Cancellation: the only way the adapter fully terminates.
    pub fn on_cancelled(&mut self)
        ensures
            final(self).phase is Terminated,
    {
        self.phase = StreamPhase::Terminated;
    }
}

/// The metadata of a live source, as handed back by the metadata lookup.
pub struct SourceMeta {
    pub broadcaster_name: String,
    pub title: String,
    pub game_name: String,
    pub tags: Vec<String>,
}

/// The title of a live job: the source's name, then ` is Live`.
pub open spec fn live_title(m: SourceMeta) -> Seq<char> {
    m.broadcaster_name@ + " is Live"@
}

/// The message of a live job: stream title, blank line, category line,
/// and the comma-joined tag list.
pub open spec fn live_message(m: SourceMeta) -> Seq<char> {
    m.title@ + "\n\nCategory: "@ + m.game_name@ + "\nTags: "@ + joined(m.tags.deep_view(), ", "@)
}

/// Build the live job once the metadata lookup answered. Skips the single
/// notification when its timestamp does not parse.
pub fn build_live_job(meta: &SourceMeta, timestamp: &str) -> (r: Option<PrintData>)
    ensures
        match rfc3339_stamp(timestamp@) {
            Some(ts) => r matches Some(j) && j@.title == live_title(*meta) && j@.subtitle is None
                && j@.message == Some(live_message(*meta)) && j@.timestamp == ts && j@.wf(),
            None => r is None,
        },
{
    match parse_rfc3339(timestamp) {
        Some(ts) => {
            let mut t = String::new();
            t.append(meta.broadcaster_name.as_str());
            t.append(" is Live");
            let tags = join_comma(&meta.tags);
            let mut m = String::new();
            m.append(meta.title.as_str());
            m.append("\n\nCategory: ");
            m.append(meta.game_name.as_str());
            m.append("\nTags: ");
            m.append(tags.as_str());
            proof {
                assert(t@ =~= live_title(*meta));
                assert(m@ =~= live_message(*meta));
                reveal_strlit(" is Live");
            }
            Some(PrintData { title: t, subtitle: None, message: Some(m), timestamp: ts })
        },
        None => None,
    }
}

} // verus!
