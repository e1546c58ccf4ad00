use vstd::prelude::*;

use crate::clock::{current_stamp, is_stamp, renders_an_instant};
use crate::config::Config;
use crate::logger::LogLevel;
use crate::text::{clone_strings, texts};

verus! {

/// The download queue together with the settings the worker needs to run
/// OrpheusDL on each queued URL.
///
/// URLs are taken from the front: the oldest queued URL is processed first,
/// and a URL is processed only after every URL queued before it.
#[derive(Debug)]
pub struct Queue {
    /// URLs waiting to be downloaded, oldest first.
    pub items: Vec<String>,
    /// Seconds the worker sleeps when the queue is empty.
    pub timeout: u64,
    pub token: String,
    pub orpheusdl_path: String,
    pub orpheusdl_args: Vec<String>,
    pub debug: bool,
}

/// The contents of a [`Queue`], as mathematical values.
pub struct QueueView {
    pub pending: Seq<Seq<char>>,
    /// Seconds the worker sleeps when the queue is empty.
    pub timeout: u64,
    pub token: Seq<char>,
    pub orpheusdl_path: Seq<char>,
    pub orpheusdl_args: Seq<Seq<char>>,
    pub debug: bool,
}

impl View for Queue {
    type V = QueueView;

    open spec fn view(&self) -> QueueView {
        QueueView {
            pending: texts(self.items@),
            timeout: self.timeout,
            token: self.token@,
            orpheusdl_path: self.orpheusdl_path@,
            orpheusdl_args: texts(self.orpheusdl_args@),
            debug: self.debug,
        }
    }
}

/// One run of OrpheusDL: `program` started in `directory` with `args`.
#[derive(Debug)]
pub struct Job {
    pub url: String,
    /// The time the job was taken from the queue; it names the job's log files.
    pub stamp: String,
    pub program: String,
    pub directory: String,
    pub args: Vec<String>,
    /// Whether the output of a successful run is kept in a log file.
    pub debug: bool,
}

/// The contents of a [`Job`], as mathematical values.
pub struct JobView {
    pub url: Seq<char>,
    pub stamp: Seq<char>,
    pub program: Seq<char>,
    pub directory: Seq<char>,
    pub args: Seq<Seq<char>>,
    pub debug: bool,
}

impl View for Job {
    type V = JobView;

    open spec fn view(&self) -> JobView {
        JobView {
            url: self.url@,
            stamp: self.stamp@,
            program: self.program@,
            directory: self.directory@,
            args: texts(self.args@),
            debug: self.debug,
        }
    }
}

/// What the worker does next.
#[derive(Debug)]
pub enum Step {
    /// Run this job.
    Run(Job),
    /// The queue is empty: sleep this many seconds and look again.
    Sleep(u64),
    /// A URL waits, but the system clock gives no time to stamp its job with
    /// (it reads before 1970); the URL stays queued.
    ClockUnavailable,
}

/// How a run of OrpheusDL went.
#[derive(Debug)]
pub enum Outcome {
    /// The process ran to its end.
    Finished { success: bool, stdout: Vec<u8>, stderr: Vec<u8> },
    /// The process could not be started; `reason` describes the error.
    NotStarted { reason: String },
}

/// A file to write under the log folder.
#[derive(Debug)]
pub struct LogFile {
    pub name: String,
    pub contents: Vec<u8>,
}

/// What the worker reports after a job: a log message and, possibly, a file
/// with the output of the run.
#[derive(Debug)]
pub struct FollowUp {
    pub level: LogLevel,
    pub message: String,
    pub log_file: Option<LogFile>,
}

/// The contents of a [`FollowUp`], as mathematical values.
pub struct FollowUpView {
    pub level: LogLevel,
    pub message: Seq<char>,
    pub log_file: Option<(Seq<char>, Seq<u8>)>,
}

impl View for FollowUp {
    type V = FollowUpView;

    open spec fn view(&self) -> FollowUpView {
        FollowUpView {
            level: self.level,
            message: self.message@,
            log_file: match self.log_file {
                Some(f) => Some((f.name@, f.contents@)),
                None => None,
            },
        }
    }
}

/// A fresh queue for `config`: empty, with the configuration's settings.
pub open spec fn new_queue(config: crate::config::ConfigView) -> QueueView {
    QueueView {
        pending: Seq::empty(),
        timeout: config.timeout as u64,
        token: config.token,
        orpheusdl_path: config.orpheusdl_path,
        orpheusdl_args: config.orpheusdl_args,
        debug: config.debug,
    }
}

/// `q` after `url` was queued.
pub open spec fn after_append(q: QueueView, url: Seq<char>) -> QueueView {
    QueueView { pending: q.pending.push(url), ..q }
}

/// The URL the worker takes next from `q`: the oldest queued one.
pub open spec fn next_task(q: QueueView) -> Option<Seq<char>> {
    if q.pending.len() == 0 {
        None
    } else {
        Some(q.pending[0])
    }
}

/// `q` after the worker took its next URL.
pub open spec fn after_take(q: QueueView) -> QueueView {
    if q.pending.len() == 0 {
        q
    } else {
        QueueView { pending: q.pending.drop_first(), ..q }
    }
}

/// `q` after the worker took `n` URLs one after the other.
pub open spec fn after_takes(q: QueueView, n: nat) -> QueueView
    decreases n,
{
    if n == 0 {
        q
    } else {
        after_takes(after_take(q), (n - 1) as nat)
    }
}

/// `q` after `urls` were queued one after the other.
pub open spec fn after_appends(q: QueueView, urls: Seq<Seq<char>>) -> QueueView
    decreases urls.len(),
{
    if urls.len() == 0 {
        q
    } else {
        after_appends(after_append(q, urls[0]), urls.drop_first())
    }
}

/// The arguments OrpheusDL is run with for `url`.
pub open spec fn command_args(url: Seq<char>, extra: Seq<Seq<char>>) -> Seq<Seq<char>> {
    seq!["orpheus.py"@, url] + extra
}

/// The job that processes `url` with the settings of `q`, started at `stamp`.
pub open spec fn job_for(q: QueueView, url: Seq<char>, stamp: Seq<char>) -> JobView {
    JobView {
        url: url,
        stamp: stamp,
        program: "python"@,
        directory: q.orpheusdl_path,
        args: command_args(url, q.orpheusdl_args),
        debug: q.debug,
    }
}

/// The report after `job` ended with `outcome`: success is logged as
/// information and, in debug mode, its standard output kept in
/// `<stamp>.debug.log`; a failed run is logged as an error and its standard
/// error always kept in `<stamp>.error.log`; a run that could not start is
/// logged as an error with the reason.
pub open spec fn follow_up_for(job: JobView, outcome: Outcome) -> FollowUpView {
    match outcome {
        Outcome::Finished { success, stdout, stderr } => {
            if success {
                FollowUpView {
                    level: LogLevel::Info,
                    message: "Processed task "@ + job.url,
                    log_file: if job.debug {
                        Some((job.stamp + ".debug.log"@, stdout@))
                    } else {
                        None
                    },
                }
            } else {
                FollowUpView {
                    level: LogLevel::Error,
                    message: "Failed to process task "@ + job.url,
                    log_file: Some((job.stamp + ".error.log"@, stderr@)),
                }
            }
        },
        Outcome::NotStarted { reason } => FollowUpView {
            level: LogLevel::Error,
            message: "Failed to run orpheusdl "@ + reason@,
            log_file: None,
        },
    }
}

impl Queue {
    /// An empty queue that processes URLs with the settings of `config`.
    pub fn new(config: Config) -> (q: Queue)
        ensures
            q@ == new_queue(config@),
    {
        let q = Queue {
            items: Vec::new(),
            timeout: config.timeout as u64,
            token: config.token,
            orpheusdl_path: config.orpheusdl_path,
            orpheusdl_args: config.orpheusdl_args,
            debug: config.debug,
        };
        assert(q@.pending =~= Seq::<Seq<char>>::empty());
        q
    }

    /// Queues `url` for download.
    pub fn append(&mut self, url: String)
        ensures
            final(self)@ == after_append(old(self)@, url@),
    {
        self.items.push(url);
        assert(texts(self.items@) =~= texts(old(self).items@).push(url@));
    }

    /// Takes the URL to process next, the oldest queued one.
    pub fn take_next(&mut self) -> (url: Option<String>)
        ensures
            match url {
                Some(u) => next_task(old(self)@) == Some(u@),
                None => next_task(old(self)@) is None,
            },
            final(self)@ == after_take(old(self)@),
    {
        if self.items.len() == 0 {
            None
        } else {
            let url = self.items.remove(0);
            assert(texts(self.items@) =~= texts(old(self).items@).drop_first());
            Some(url)
        }
    }

    /// The job that processes `url` with this queue's settings; `stamp` is the
    /// time it starts.
    pub fn job_for(&self, url: String, stamp: String) -> (job: Job)
        ensures
            job@ == job_for(self@, url@, stamp@),
    {
        let mut args: Vec<String> = Vec::new();
        args.push(String::from_str("orpheus.py"));
        args.push(url.clone());
        let mut extra = clone_strings(&self.orpheusdl_args);
        let ghost prefix = args@;
        let ghost tail = extra@;
        args.append(&mut extra);
        proof {
            assert(args@ =~= prefix + tail);
            assert(texts(args@) =~= command_args(url@, self@.orpheusdl_args));
        }
        Job {
            url,
            stamp,
            program: String::from_str("python"),
            directory: self.orpheusdl_path.clone(),
            args,
            debug: self.debug,
        }
    }

    /// The worker's next step once the clock was read, `stamp` being what it
    /// gave: with no URL waiting, a sleep for the configured timeout; with
    /// URLs waiting and a stamp, the job for the oldest one, stamped with it;
    /// with URLs waiting and no stamp, nothing is taken.
    pub fn step_with_stamp(&mut self, stamp: Option<String>) -> (step: Step)
        ensures
            next_task(old(self)@) is None ==> step == Step::Sleep(old(self)@.timeout)
                && final(self)@ == old(self)@,
            next_task(old(self)@) is Some && stamp is None ==> step == Step::ClockUnavailable
                && final(self)@ == old(self)@,
            next_task(old(self)@) is Some && stamp is Some ==> match step {
                Step::Run(job) => {
                    &&& final(self)@ == after_take(old(self)@)
                    &&& next_task(old(self)@) == Some(job.url@)
                    &&& job@ == job_for(old(self)@, job.url@, stamp.unwrap()@)
                },
                _ => false,
            },
    {
        match stamp {
            Some(stamp) => match self.take_next() {
                Some(url) => Step::Run(self.job_for(url, stamp)),
                None => Step::Sleep(self.timeout),
            },
            None => {
                if self.items.len() == 0 {
                    Step::Sleep(self.timeout)
                } else {
                    Step::ClockUnavailable
                }
            },
        }
    }

    /// Decides the worker's next step: with URLs waiting, the clock is read
    /// and the step is [`Queue::step_with_stamp`] for what it gave; otherwise
    /// a sleep for the configured timeout, without reading the clock.
    pub fn next_step(&mut self) -> (step: Step)
        ensures
            match step {
                Step::Run(job) => {
                    &&& final(self)@ == after_take(old(self)@)
                    &&& next_task(old(self)@) == Some(job.url@)
                    &&& job@ == job_for(old(self)@, job.url@, job.stamp@)
                    &&& is_stamp(job.stamp@)
                    &&& renders_an_instant(job.stamp@)
                },
                Step::Sleep(secs) => {
                    &&& final(self)@ == old(self)@
                    &&& next_task(old(self)@) is None
                    &&& secs == old(self)@.timeout
                },
                Step::ClockUnavailable => {
                    &&& final(self)@ == old(self)@
                    &&& next_task(old(self)@) is Some
                },
            },
    {
        if self.items.len() == 0 {
            return Step::Sleep(self.timeout);
        }
        let stamp = current_stamp();
        self.step_with_stamp(stamp)
    }
}

impl Job {
    /// What to report once this job ended with `outcome`.
    pub fn follow_up(&self, outcome: Outcome) -> (f: FollowUp)
        ensures
            f@ == follow_up_for(self@, outcome),
    {
        match outcome {
            Outcome::Finished { success, stdout, stderr } => {
                if success {
                    let message = String::from_str("Processed task ").concat(self.url.as_str());
                    let log_file = if self.debug {
                        Some(
                            LogFile {
                                name: self.stamp.clone().concat(".debug.log"),
                                contents: stdout,
                            },
                        )
                    } else {
                        None
                    };
                    FollowUp { level: LogLevel::Info, message, log_file }
                } else {
                    let message = String::from_str("Failed to process task ").concat(
                        self.url.as_str(),
                    );
                    FollowUp {
                        level: LogLevel::Error,
                        message,
                        log_file: Some(
                            LogFile {
                                name: self.stamp.clone().concat(".error.log"),
                                contents: stderr,
                            },
                        ),
                    }
                }
            },
            Outcome::NotStarted { reason } => FollowUp {
                level: LogLevel::Error,
                message: String::from_str("Failed to run orpheusdl ").concat(reason.as_str()),
                log_file: None,
            },
        }
    }
}

/// Appending never changes which URL the worker takes next from a non-empty
/// queue, and taking then appending ends where appending then taking does: a
/// URL's turn does not depend on what arrives after it.
pub proof fn arrivals_do_not_overtake(q: QueueView, url: Seq<char>)
    requires
        q.pending.len() > 0,
    ensures
        next_task(after_append(q, url)) == next_task(q),
        after_take(after_append(q, url)) == after_append(after_take(q), url),
{
    assert(q.pending.push(url).drop_first() =~= q.pending.drop_first().push(url));
}

/// Queueing several URLs adds them behind the waiting ones, in order.
pub proof fn appends_go_to_the_back(q: QueueView, urls: Seq<Seq<char>>)
    ensures
        after_appends(q, urls) == (QueueView { pending: q.pending + urls, ..q }),
    decreases urls.len(),
{
    if urls.len() > 0 {
        appends_go_to_the_back(after_append(q, urls[0]), urls.drop_first());
        assert(q.pending.push(urls[0]) + urls.drop_first() =~= q.pending + urls);
    }
}

/// Taking `n` URLs with no URL queued meanwhile removes exactly the `n` oldest
/// ones, keeps the rest in order and changes no setting.
pub proof fn takes_remove_the_oldest(q: QueueView, n: nat)
    requires
        n <= q.pending.len(),
    ensures
        after_takes(q, n) == (QueueView { pending: q.pending.skip(n as int), ..q }),
    decreases n,
{
    if n > 0 {
        takes_remove_the_oldest(after_take(q), (n - 1) as nat);
        assert(q.pending.drop_first().skip(n - 1) =~= q.pending.skip(n as int));
    } else {
        assert(q.pending.skip(0) =~= q.pending);
    }
}

/// First in, first out: when `url` is queued behind the waiting URLs and
/// `later` URLs arrive after it, the worker takes the waiting URLs in their
/// order and then `url`, whatever arrived later.
pub proof fn first_in_first_out(q: QueueView, url: Seq<char>, later: Seq<Seq<char>>)
    ensures
        ({
            let r = after_appends(after_append(q, url), later);
            &&& forall|i: nat|
                i < q.pending.len() ==> next_task(#[trigger] after_takes(r, i)) == Some(
                    q.pending[i as int],
                )
            &&& next_task(after_takes(r, q.pending.len())) == Some(url)
        }),
{
    let r = after_appends(after_append(q, url), later);
    appends_go_to_the_back(after_append(q, url), later);
    assert(r.pending =~= q.pending + seq![url] + later);
    assert forall|i: nat| i < q.pending.len() implies next_task(#[trigger] after_takes(r, i))
        == Some(q.pending[i as int]) by {
        takes_remove_the_oldest(r, i);
        assert(r.pending.skip(i as int)[0] == q.pending[i as int]);
    }
    takes_remove_the_oldest(r, q.pending.len());
    assert(r.pending.skip(q.pending.len() as int)[0] == url);
}

/// One thing that happens to the queue: a URL is queued, or the worker takes
/// the next one.
pub enum QueueEvent {
    Append(Seq<char>),
    Take,
}

/// `q` after `event`.
pub open spec fn after_event(q: QueueView, event: QueueEvent) -> QueueView {
    match event {
        QueueEvent::Append(url) => after_append(q, url),
        QueueEvent::Take => after_take(q),
    }
}

/// `q` after `events`, in order.
pub open spec fn after_events(q: QueueView, events: Seq<QueueEvent>) -> QueueView
    decreases events.len(),
{
    if events.len() == 0 {
        q
    } else {
        after_events(after_event(q, events[0]), events.drop_first())
    }
}

/// How many of `events` are takes.
pub open spec fn take_count(events: Seq<QueueEvent>) -> nat
    decreases events.len(),
{
    if events.len() == 0 {
        0
    } else {
        (if events[0] is Take {
            1nat
        } else {
            0nat
        }) + take_count(events.drop_first())
    }
}

/// Each take moves a waiting URL one place towards the front; queued URLs
/// never move it back.
proof fn waiting_url_moves_up(q: QueueView, k: nat, events: Seq<QueueEvent>)
    requires
        k < q.pending.len(),
        take_count(events) <= k,
    ensures
        after_events(q, events).pending.len() > k - take_count(events),
        after_events(q, events).pending[k - take_count(events)] == q.pending[k as int],
    decreases events.len(),
{
    if events.len() > 0 {
        let next = after_event(q, events[0]);
        match events[0] {
            QueueEvent::Append(url) => {
                waiting_url_moves_up(next, k, events.drop_first());
            },
            QueueEvent::Take => {
                waiting_url_moves_up(next, (k - 1) as nat, events.drop_first());
            },
        }
    }
}

/// No URL is starved: whatever URLs are queued in between, the URL waiting in
/// place `k` (counting from 0 at the front) is the one the worker takes with
/// its `k + 1`-th take.
pub proof fn no_url_is_starved(q: QueueView, k: nat, events: Seq<QueueEvent>)
    requires
        k < q.pending.len(),
        take_count(events) == k,
    ensures
        next_task(after_events(q, events)) == Some(q.pending[k as int]),
{
    waiting_url_moves_up(q, k, events);
}

/// A job runs `python` in the OrpheusDL folder with the arguments
/// `orpheus.py`, the URL, then every configured extra argument in order,
/// whatever the debug setting; it carries the URL, the stamp and the debug
/// setting it was made with.
pub proof fn job_runs_orpheus_with_all_extra_arguments(
    q: QueueView,
    url: Seq<char>,
    stamp: Seq<char>,
)
    ensures
        ({
            let job = job_for(q, url, stamp);
            let flipped = job_for(QueueView { debug: !q.debug, ..q }, url, stamp);
            &&& job.program == "python"@
            &&& job.directory == q.orpheusdl_path
            &&& job.url == url
            &&& job.stamp == stamp
            &&& job.debug == q.debug
            &&& job.args.len() == q.orpheusdl_args.len() + 2
            &&& job.args[0] == "orpheus.py"@
            &&& job.args[1] == url
            &&& forall|i: int|
                0 <= i < q.orpheusdl_args.len() ==> job.args[i + 2] == #[trigger] q.orpheusdl_args[i]
            &&& flipped.args == job.args
        }),
{
}

/// Queueing and taking URLs never touch the worker's settings, and every take
/// from a non-empty queue shortens it by one, so the worker drains any queue.
pub proof fn queue_operations_keep_settings(q: QueueView, url: Seq<char>)
    ensures
        ({
            let a = after_append(q, url);
            let t = after_take(q);
            &&& a.timeout == q.timeout && t.timeout == q.timeout
            &&& a.token == q.token && t.token == q.token
            &&& a.orpheusdl_path == q.orpheusdl_path && t.orpheusdl_path == q.orpheusdl_path
            &&& a.orpheusdl_args == q.orpheusdl_args && t.orpheusdl_args == q.orpheusdl_args
            &&& a.debug == q.debug && t.debug == q.debug
            &&& a.pending.len() == q.pending.len() + 1
            &&& q.pending.len() > 0 ==> t.pending.len() == q.pending.len() - 1
        }),
{
}

} // verus!
