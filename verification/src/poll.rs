//! The poll adapter: a conditional long-poll against an issue-tracker
//! notification feed. A cursor carries the last-seen freshness token and
//! the server-advised minimum poll interval; comment-like events fetch
//! their detail resource and print as a comment job, everything else is
//! logged and ignored.

use vstd::prelude::*;
use vstd::string::StringExecFns;
use crate::printer::PrintData;
use crate::text::parse_u64;
use crate::text::str_eq;
use crate::text::u64_of_digits;
use crate::timestamp::rfc3339_stamp;
use crate::timestamp::parse_rfc3339;

verus! {

/// The poll interval used when the server does not advise one.
pub const DEFAULT_POLL_SECS: u64 = 60;

/// Seconds to wait after a transport-level failure before retrying; a
/// retry does not consume a full poll interval.
pub const TRANSPORT_RETRY_SECS: u64 = 5;

/// The poll cursor: last-seen freshness token (absent initially) and the
/// server-advised minimum poll interval.
pub struct PollCursor {
    pub freshness: Option<String>,
    pub interval_secs: u64,
}

impl PollCursor {
    /// The cursor before the first request: no freshness token, default
    /// interval.
    pub fn new() -> (c: PollCursor)
        ensures
            c.freshness is None,
            c.interval_secs == DEFAULT_POLL_SECS,
    {
        PollCursor { freshness: None, interval_secs: DEFAULT_POLL_SECS }
    }

    /// Take a successful response's headers into the cursor: the advised
    /// interval (default when unspecified), and the new freshness token
    /// when one was sent, else the previous token is kept.
    pub fn apply_headers(&mut self, interval: Option<u64>, freshness: Option<String>)
        ensures
            final(self).interval_secs == (match interval {
                Some(i) => i,
                None => DEFAULT_POLL_SECS,
            }),
            final(self).freshness == (match freshness {
                Some(f) => Some(f),
                None => old(self).freshness,
            }),
    {
        match interval {
            Some(i) => {
                self.interval_secs = i;
            },
            None => {
                self.interval_secs = DEFAULT_POLL_SECS;
            },
        }
        if let Some(f) = freshness {
            self.freshness = Some(f);
        }
    }

    /// Take a successful response's raw headers into the cursor, parsing
    /// the advised interval: a missing or malformed interval header means
    /// the default interval.
    pub fn apply_response(&mut self, interval_header: Option<String>, freshness: Option<String>)
        ensures
            final(self).interval_secs == (match interval_header {
                Some(h) => match u64_of_digits(h@) {
                    Some(v) => v,
                    None => DEFAULT_POLL_SECS,
                },
                None => DEFAULT_POLL_SECS,
            }),
            final(self).freshness == (match freshness {
                Some(f) => Some(f),
                None => old(self).freshness,
            }),
    {
        let advised = match &interval_header {
            Some(h) => parse_u64(h.as_str()),
            None => None,
        };
        self.apply_headers(advised, freshness);
    }
}

/// One notification event of the feed, normalized to plain fields at the
/// boundary.
pub struct PollEvent {
    pub id: String,
    pub reason: String,
    pub repository: String,
    pub subject_title: String,
    pub latest_comment_url: String,
    pub updated_at: String,
}

/// The fixed comment-like reason set: these events fetch their detail
/// resource and print.
pub open spec fn is_comment_like(r: Seq<char>) -> bool {
    r == "manual"@ || r == "comment"@ || r == "author"@
}

/// Decide whether a reason is comment-like.
pub fn comment_like(reason: &str) -> (r: bool)
    ensures
        r == is_comment_like(reason@),
{
    str_eq(reason, "manual") || str_eq(reason, "comment") || str_eq(reason, "author")
}

/// What to do with one feed event.
pub enum PollPlan {
    /// Fetch this detail resource, then build the comment job.
    FetchDetail(String),
    /// Not comment-like: log and ignore.
    Skip,
}

/// Decide what one feed event leads to: exactly the comment-like events
/// fetch their detail resource.
pub fn plan_event(e: &PollEvent) -> (p: PollPlan)
    ensures
        p is FetchDetail <==> is_comment_like(e.reason@),
        p matches PollPlan::FetchDetail(u) ==> u@ == e.latest_comment_url@,
{
    if comment_like(e.reason.as_str()) {
        PollPlan::FetchDetail(e.latest_comment_url.clone())
    } else {
        PollPlan::Skip
    }
}

/// The detail resource of a comment-like event: its author and body.
pub struct CommentDetail {
    pub author: String,
    pub body: String,
}

/// The subtitle of a comment job: repository, line break, issue title.
pub open spec fn comment_subtitle(e: PollEvent) -> Seq<char> {
    e.repository@ + "\n"@ + e.subject_title@
}

/// The message of a comment job: author, a colon and line break, body.
pub open spec fn comment_message(d: CommentDetail) -> Seq<char> {
    d.author@ + ":\n"@ + d.body@
}

/// Build the comment job once the detail fetch answered. Skips the single
/// event when its update timestamp does not parse.
pub fn build_comment_job(e: &PollEvent, d: &CommentDetail) -> (r: Option<PrintData>)
    ensures
        match rfc3339_stamp(e.updated_at@) {
            Some(ts) => r matches Some(j) && j@.title == "New Issue Comment"@ && j@.subtitle
                == Some(comment_subtitle(*e)) && j@.message == Some(comment_message(*d))
                && j@.timestamp == ts && j@.wf(),
            None => r is None,
        },
{
    match parse_rfc3339(e.updated_at.as_str()) {
        Some(ts) => {
            let mut sub = String::new();
            sub.append(e.repository.as_str());
            sub.append("\n");
            sub.append(e.subject_title.as_str());
            let mut m = String::new();
            m.append(d.author.as_str());
            m.append(":\n");
            m.append(d.body.as_str());
            proof {
                assert(sub@ =~= comment_subtitle(*e));
                assert(m@ =~= comment_message(*d));
                reveal_strlit("New Issue Comment");
            }
            Some(
                PrintData {
                    title: String::from_str("New Issue Comment"),
                    subtitle: Some(sub),
                    message: Some(m),
                    timestamp: ts,
                },
            )
        },
        None => None,
    }
}

/// True exactly for the `reset content` status the tracker answers a
/// successful mark-as-read request with.
pub fn mark_read_ok(status: u16) -> (r: bool)
    ensures
        r == (status == 205),
{
    status == 205
}

} // verus!
