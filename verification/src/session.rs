//! The session-poll adapter: credential lifecycle for a session-
//! authenticated notification API, classification of unread notification
//! events, and construction of the jobs they print as.
//!
//! The credential machine has three states: uninitialized (no refresh
//! token, never logged in), active (access token held), and expired
//! (access token cleared, refresh token retained). An authorization
//! failure on the unread listing only clears the access token, so the next
//! step is a refresh, never a needless fresh login; only a failed refresh
//! discards the refresh token and forces a login.

use vstd::prelude::*;
use vstd::string::StringExecFns;
use crate::printer::PrintData;
use crate::text::dec_chars;
use crate::text::push_u32_dec;
use crate::text::str_eq;
use crate::timestamp::rfc3339_stamp;
use crate::timestamp::parse_rfc3339;

verus! {

/// Seconds between polling cycles, except after an authorization failure,
/// which retries immediately.
pub const SESSION_POLL_SECS: u64 = 10;

/// What the adapter must do next, given its credential state.
#[derive(Clone, Copy, PartialEq, Eq, Structural, Debug)]
pub enum SessionAction {
    /// No refresh token held: log in with the stored identifier and secret.
    Login,
    /// Refresh token held but access token cleared: refresh the session.
    Refresh,
    /// Active: request the unread notifications.
    ListUnread,
}

/// The session credentials. Never persisted.
pub struct SessionCreds {
    pub access: Option<String>,
    pub refresh: Option<String>,
}

/// The next step the credential state calls for.
pub open spec fn next_action_spec(c: SessionCreds) -> SessionAction {
    if c.refresh is None {
        SessionAction::Login
    } else if c.access is None {
        SessionAction::Refresh
    } else {
        SessionAction::ListUnread
    }
}

/// The credential state after the unread listing reports an authorization
/// failure: the access token is cleared, the refresh token is retained.
pub open spec fn after_auth_failure(c: SessionCreds) -> SessionCreds {
    SessionCreds { access: None, refresh: c.refresh }
}

impl SessionCreds {
    /// Never logged in: no refresh token.
    pub open spec fn is_uninitialized(self) -> bool {
        self.refresh is None
    }

    /// Logged in with a usable access token.
    pub open spec fn is_active(self) -> bool {
        self.refresh is Some && self.access is Some
    }

    /// Access token cleared, refresh token retained.
    pub open spec fn is_expired(self) -> bool {
        self.refresh is Some && self.access is None
    }

    /// The state before the first loop iteration.
    pub fn new() -> (c: SessionCreds)
        ensures
            c.is_uninitialized(),
            c.access is None,
    {
        SessionCreds { access: None, refresh: None }
    }

    /// What to do on this loop iteration.
    pub fn next_action(&self) -> (a: SessionAction)
        ensures
            a == next_action_spec(*self),
    {
        if self.refresh.is_none() {
            SessionAction::Login
        } else if self.access.is_none() {
            SessionAction::Refresh
        } else {
            SessionAction::ListUnread
        }
    }

    /// A login or refresh handed back a fresh token pair.
    pub fn on_new_tokens(&mut self, access: String, refresh: String)
        ensures
            final(self).access == Some(access),
            final(self).refresh == Some(refresh),
            final(self).is_active(),
    {
        self.access = Some(access);
        self.refresh = Some(refresh);
    }

    /// The refresh attempt itself failed: discard the refresh token so the
    /// next iteration performs a fresh login.
    pub fn on_refresh_failure(&mut self)
        ensures
            final(self).refresh is None,
            final(self).access == old(self).access,
            final(self).is_uninitialized(),
    {
        self.refresh = None;
    }

    /// The unread listing reported an authorization failure: clear the
    /// access token only.
    pub fn on_auth_failure(&mut self)
        ensures
            *final(self) == after_auth_failure(*old(self)),
    {
        self.access = None;
    }
}

/// Token expiry: from an active session, an authorization failure on the
/// unread listing makes the next action a refresh attempt — not a fresh
/// login — because the refresh token is still held.
pub proof fn lemma_auth_failure_refreshes(c: SessionCreds)
    requires
        c.is_active(),
    ensures
        next_action_spec(after_auth_failure(c)) == SessionAction::Refresh,
{
}

/// How the listing endpoint answered, by status code.
#[derive(Clone, Copy, PartialEq, Eq, Structural, Debug)]
pub enum ListOutcome {
    /// The listing succeeded and carries notifications.
    Accepted,
    /// The access token was rejected: expire the session and retry at once.
    ExpiredToken,
    /// Any other failure: log and wait out the normal cycle.
    BadRequest,
}

/// The outcome a listing status code denotes: 200 succeeds, 400 is how the
/// endpoint reports a rejected token, anything else is a plain failure.
pub open spec fn list_outcome_spec(status: u16) -> ListOutcome {
    if status == 200 {
        ListOutcome::Accepted
    } else if status == 400 {
        ListOutcome::ExpiredToken
    } else {
        ListOutcome::BadRequest
    }
}

/// Classify the status code of the unread listing response.
pub fn classify_list_status(status: u16) -> (r: ListOutcome)
    ensures
        r == list_outcome_spec(status),
{
    if status == 200 {
        ListOutcome::Accepted
    } else if status == 400 {
        ListOutcome::ExpiredToken
    } else {
        ListOutcome::BadRequest
    }
}

/// True exactly for the OK status the refresh endpoint answers a
/// successful token refresh with; any other status fails the refresh and
/// forces a fresh login.
pub fn refresh_ok(status: u16) -> (r: bool)
    ensures
        r == (status == 200),
{
    status == 200
}

/// True exactly for the OK status a successful update of the remote
/// last-read marker answers with; any other status is logged only, since
/// the update is best-effort.
pub fn update_seen_ok(status: u16) -> (r: bool)
    ensures
        r == (status == 200),
{
    status == 200
}

/// Seconds to wait before the next cycle: an authorization failure is the
/// sole immediate-retry path.
pub fn post_cycle_delay(outcome: &ListOutcome) -> (d: u64)
    ensures
        d == (if outcome is ExpiredToken {
            0u64
        } else {
            SESSION_POLL_SECS
        }),
{
    match outcome {
        ListOutcome::ExpiredToken => 0,
        _ => SESSION_POLL_SECS,
    }
}

/// One unread notification event, normalized to plain fields at the
/// boundary.
pub struct Notification {
    pub reason: String,
    pub did: String,
    pub display_name: String,
    pub handle: String,
    pub text: String,
    pub created_at: String,
    pub is_read: bool,
}

/// The kind of a notification event, by its reason.
#[derive(Clone, Copy, PartialEq, Eq, Structural, Debug)]
pub enum NotifKind {
    /// A new follower: print with profile context.
    Follow,
    /// A reply: print quoting the replied-to text.
    Reply,
    /// Deliberately suppressed to avoid printer spam.
    Noisy,
    /// Logged and skipped.
    Unknown,
}

/// The reason dispatch: follows and replies print, the noisy kind is
/// suppressed by design, everything else is unknown.
pub open spec fn classify_reason_spec(r: Seq<char>) -> NotifKind {
    if r == "follow"@ {
        NotifKind::Follow
    } else if r == "reply"@ {
        NotifKind::Reply
    } else if r == "like"@ {
        NotifKind::Noisy
    } else {
        NotifKind::Unknown
    }
}

/// Classify a notification reason.
pub fn classify_reason(reason: &str) -> (k: NotifKind)
    ensures
        k == classify_reason_spec(reason@),
{
    if str_eq(reason, "follow") {
        NotifKind::Follow
    } else if str_eq(reason, "reply") {
        NotifKind::Reply
    } else if str_eq(reason, "like") {
        NotifKind::Noisy
    } else {
        NotifKind::Unknown
    }
}

/// The unread events of `v`, in order.
pub open spec fn unread_spec(s: Seq<Notification>) -> Seq<Notification>
    decreases s.len(),
{
    if s.len() == 0 {
        Seq::empty()
    } else {
        (if s[0].is_read {
            Seq::empty()
        } else {
            seq![s[0]]
        }) + unread_spec(s.drop_first())
    }
}

/// Keep only the events not yet read, in order.
pub fn unread_only(v: Vec<Notification>) -> (r: Vec<Notification>)
    ensures
        r@ == unread_spec(v@),
{
    let mut v = v;
    let ghost orig = v@;
    let mut r: Vec<Notification> = Vec::new();
    while v.len() > 0
        invariant
            unread_spec(orig) == r@ + unread_spec(v@),
        decreases v@.len(),
    {
        let ghost prev = v@;
        let n = v.remove(0);
        proof {
            assert(v@ =~= prev.drop_first());
        }
        if !n.is_read {
            r.push(n);
        }
        proof {
            assert(unread_spec(orig) =~= r@ + unread_spec(v@));
        }
    }
    proof {
        assert(r@ =~= unread_spec(orig));
    }
    r
}

/// The message body of a reply job: author, handle, and the quoted text.
pub open spec fn reply_message(n: Notification) -> Seq<char> {
    n.display_name@ + " ("@ + n.handle@ + ") said:\n"@ + n.text@
}

/// A follower's profile, as handed back by the profile lookup.
pub struct Profile {
    pub did: String,
    pub handle: String,
    pub display_name: String,
    pub description: String,
    pub followers_count: u32,
    pub follows_count: u32,
    pub posts_count: u32,
    pub created_at: String,
}

/// The message body of a follower job: who followed, their description,
/// and their following/follower counters.
pub open spec fn follow_message(p: Profile) -> Seq<char> {
    p.display_name@ + " ("@ + p.handle@ + ") followed you\n"@ + p.description@ + "\n"@ + dec_chars(
        p.follows_count as int,
    ) + " Following | "@ + dec_chars(p.followers_count as int) + " Followers"@
}

/// True when the event prints directly, with no further lookup: a reply
/// whose creation timestamp parses.
pub open spec fn emits_directly(n: Notification) -> bool {
    classify_reason_spec(n.reason@) == NotifKind::Reply && rfc3339_stamp(n.created_at@) is Some
}

/// True when the event needs a profile lookup before it can print: a
/// follow event.
pub open spec fn needs_profile(n: Notification) -> bool {
    classify_reason_spec(n.reason@) == NotifKind::Follow
}

/// What to do with one unread event.
pub enum NotifPlan {
    /// Look up this profile, then build the follower job.
    FetchProfile(String),
    /// Enqueue this job.
    Emit(PrintData),
    /// Nothing to print: suppressed, unknown, or malformed.
    Skip,
}

/// Decide what one unread event leads to. A noisy reason never yields a
/// job, whatever the rest of the payload holds; an unparsable creation
/// timestamp skips the single event.
pub fn plan_notification(n: &Notification) -> (p: NotifPlan)
    ensures
        p is FetchProfile <==> needs_profile(*n),
        p is Emit <==> emits_directly(*n),
        p matches NotifPlan::FetchProfile(did) ==> did@ == n.did@,
        p matches NotifPlan::Emit(j) ==> {
            &&& j@.title == "Bsky: New reply"@
            &&& j@.subtitle is None
            &&& j@.message == Some(reply_message(*n))
            &&& Some(j@.timestamp) == rfc3339_stamp(n.created_at@)
            &&& j@.wf()
        },
{
    match classify_reason(n.reason.as_str()) {
        NotifKind::Follow => NotifPlan::FetchProfile(n.did.clone()),
        NotifKind::Reply => {
            match parse_rfc3339(n.created_at.as_str()) {
                Some(ts) => {
                    let mut m = String::new();
                    m.append(n.display_name.as_str());
                    m.append(" (");
                    m.append(n.handle.as_str());
                    m.append(") said:\n");
                    m.append(n.text.as_str());
                    proof {
                        assert(m@ =~= reply_message(*n));
                        reveal_strlit("Bsky: New reply");
                    }
                    NotifPlan::Emit(
                        PrintData {
                            title: String::from_str("Bsky: New reply"),
                            subtitle: None,
                            message: Some(m),
                            timestamp: ts,
                        },
                    )
                },
                None => NotifPlan::Skip,
            }
        },
        NotifKind::Noisy => NotifPlan::Skip,
        NotifKind::Unknown => NotifPlan::Skip,
    }
}

/// Suppression: an event whose reason is the designated noisy kind never
/// yields a job and never requests a lookup, regardless of its payload.
pub proof fn lemma_noisy_suppressed(n: Notification)
    requires
        classify_reason_spec(n.reason@) == NotifKind::Noisy,
    ensures
        !emits_directly(n),
        !needs_profile(n),
{
}

/// Build the follower job once the profile lookup answered. Skips the
/// single event when its creation timestamp does not parse.
pub fn build_follow_job(n: &Notification, p: &Profile) -> (r: Option<PrintData>)
    ensures
        match rfc3339_stamp(n.created_at@) {
            Some(ts) => r matches Some(j) && j@.title == "Bsky: New follower"@ && j@.subtitle
                is None && j@.message == Some(follow_message(*p)) && j@.timestamp == ts && j@.wf(),
            None => r is None,
        },
{
    match parse_rfc3339(n.created_at.as_str()) {
        Some(ts) => {
            let mut m = String::new();
            m.append(p.display_name.as_str());
            m.append(" (");
            m.append(p.handle.as_str());
            m.append(") followed you\n");
            m.append(p.description.as_str());
            m.append("\n");
            push_u32_dec(&mut m, p.follows_count);
            m.append(" Following | ");
            push_u32_dec(&mut m, p.followers_count);
            m.append(" Followers");
            proof {
                assert(m@ =~= follow_message(*p));
                reveal_strlit("Bsky: New follower");
            }
            Some(
                PrintData {
                    title: String::from_str("Bsky: New follower"),
                    subtitle: None,
                    message: Some(m),
                    timestamp: ts,
                },
            )
        },
        None => None,
    }
}

} // verus!
