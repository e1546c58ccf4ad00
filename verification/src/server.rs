use vstd::prelude::*;

use crate::config::Config;
use crate::clock::{is_stamp, renders_an_instant};
use crate::queue::{
    after_append, after_appends, after_take, after_takes, job_for, next_task, Queue, QueueView, Step,
};

verus! {

/// The answer to a download request.
#[derive(Clone, Copy, Debug, PartialEq, Eq, Structural)]
pub enum DownloadStatus {
    /// 202: the URL was queued.
    Accepted,
    /// 401: the request did not present the token.
    Unauthorized,
}

impl DownloadStatus {
    /// The HTTP status code of the answer.
    pub fn code(&self) -> (c: u16)
        ensures
            c == (match self {
                DownloadStatus::Accepted => 202u16,
                DownloadStatus::Unauthorized => 401u16,
            }),
    {
        match self {
            DownloadStatus::Accepted => 202,
            DownloadStatus::Unauthorized => 401,
        }
    }
}

/// What the HTTP server holds: the token clients must present and the queue
/// that accepted URLs go to.
#[derive(Debug)]
pub struct QueueServerState {
    token: String,
    queue: Queue,
}

/// The contents of a [`QueueServerState`], as mathematical values.
pub struct QueueServerStateView {
    pub token: Seq<char>,
    pub queue: QueueView,
}

impl View for QueueServerState {
    type V = QueueServerStateView;

    closed spec fn view(&self) -> QueueServerStateView {
        QueueServerStateView { token: self.token@, queue: self.queue@ }
    }
}

/// The text of an optional header value.
pub open spec fn header_text(h: Option<&str>) -> Option<Seq<char>> {
    match h {
        Some(v) => Some(v@),
        None => None,
    }
}

/// The `Authorization` header value that grants access: `Bearer <token>`.
pub open spec fn bearer(token: Seq<char>) -> Seq<char> {
    "Bearer "@ + token
}

/// Whether a request whose `Authorization` header is `authorization` may
/// queue downloads.
pub open spec fn authorized(token: Seq<char>, authorization: Option<Seq<char>>) -> bool {
    authorization == Some(bearer(token))
}

/// The answer to a request to download `url` and the state afterwards: an
/// authorized request queues the URL; any other request changes nothing.
pub open spec fn download_outcome(
    s: QueueServerStateView,
    authorization: Option<Seq<char>>,
    url: Seq<char>,
) -> (DownloadStatus, QueueServerStateView) {
    if authorized(s.token, authorization) {
        (
            DownloadStatus::Accepted,
            QueueServerStateView { token: s.token, queue: after_append(s.queue, url) },
        )
    } else {
        (DownloadStatus::Unauthorized, s)
    }
}

impl QueueServerState {
    /// The server state for `queue`, guarded by the token of `config`.
    pub fn new(queue: Queue, config: Config) -> (s: QueueServerState)
        ensures
            s@ == (QueueServerStateView { token: config@.token, queue: queue@ }),
    {
        QueueServerState { token: config.token, queue }
    }

    /// `Bearer <token>`, the `Authorization` value this server accepts.
    pub fn expected_authorization(&self) -> (s: String)
        ensures
            s@ == bearer(self@.token),
            s@ == "Bearer "@ + self@.token,
    {
        String::from_str("Bearer ").concat(self.token.as_str())
    }

    /// Handles a request to download `url` whose `Authorization` header is
    /// `authorization` (absent when the request has none).
    pub fn download(&mut self, authorization: Option<&str>, url: String) -> (status:
        DownloadStatus)
        ensures
            (status, final(self)@) == download_outcome(old(self)@, header_text(authorization), url@),
    {
        let granted = match authorization {
            Some(value) => {
                let presented = String::from_str(value);
                let expected = self.expected_authorization();
                presented == expected
            },
            None => false,
        };
        if granted {
            self.queue.append(url);
            DownloadStatus::Accepted
        } else {
            DownloadStatus::Unauthorized
        }
    }

    /// The queue worker's next step (see [`Queue::next_step`]).
    pub fn next_step(&mut self) -> (step: Step)
        ensures
            final(self)@.token == old(self)@.token,
            match step {
                Step::Run(job) => {
                    &&& final(self)@.queue == after_take(old(self)@.queue)
                    &&& next_task(old(self)@.queue) == Some(job.url@)
                    &&& job@ == job_for(old(self)@.queue, job.url@, job.stamp@)
                    &&& is_stamp(job.stamp@)
                    &&& renders_an_instant(job.stamp@)
                },
                Step::Sleep(secs) => {
                    &&& final(self)@.queue == old(self)@.queue
                    &&& next_task(old(self)@.queue) is None
                    &&& secs == old(self)@.queue.timeout
                },
                Step::ClockUnavailable => {
                    &&& final(self)@.queue == old(self)@.queue
                    &&& next_task(old(self)@.queue) is Some
                },
            },
    {
        self.queue.next_step()
    }
}

/// A request that presents `Bearer <token>` is answered 202 and queues its URL
/// behind the URLs already waiting: the worker takes those first, in their
/// order, and then this URL, whatever requests arrive afterwards. Any other
/// request is answered 401 and leaves the state unchanged.
pub proof fn accepted_url_is_taken_in_turn(
    s: QueueServerStateView,
    authorization: Option<Seq<char>>,
    url: Seq<char>,
    later: Seq<Seq<char>>,
)
    ensures
        ({
            let (status, after) = download_outcome(s, authorization, url);
            if authorization == Some(bearer(s.token)) {
                let r = after_appends(after.queue, later);
                &&& status == DownloadStatus::Accepted
                &&& after.token == s.token
                &&& forall|i: nat|
                    i < s.queue.pending.len() ==> next_task(#[trigger] after_takes(r, i)) == Some(
                        s.queue.pending[i as int],
                    )
                &&& next_task(after_takes(r, s.queue.pending.len())) == Some(url)
            } else {
                &&& status == DownloadStatus::Unauthorized
                &&& after == s
            }
        }),
{
    crate::queue::first_in_first_out(s.queue, url, later);
}

/// A request whose `Authorization` header is exactly `Bearer ` followed by the
/// whole token is answered 202 and queues its URL behind the waiting ones,
/// keeping the token and every setting; any other request (no header, another
/// scheme, a cut or lengthened token) is answered 401 and changes nothing.
pub proof fn only_the_whole_bearer_token_is_accepted(
    s: QueueServerStateView,
    authorization: Option<Seq<char>>,
    url: Seq<char>,
)
    ensures
        ({
            let (status, after) = download_outcome(s, authorization, url);
            if authorization == Some("Bearer "@ + s.token) {
                &&& status == DownloadStatus::Accepted
                &&& after.token == s.token
                &&& after.queue.pending == s.queue.pending.push(url)
                &&& after.queue.timeout == s.queue.timeout
                &&& after.queue.token == s.queue.token
                &&& after.queue.orpheusdl_path == s.queue.orpheusdl_path
                &&& after.queue.orpheusdl_args == s.queue.orpheusdl_args
                &&& after.queue.debug == s.queue.debug
            } else {
                &&& status == DownloadStatus::Unauthorized
                &&& after == s
            }
        }),
{
}

} // verus!
