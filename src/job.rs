//! One recording job: its lifecycle, its log and its client-facing status.

use crate::clock::clock_seconds;
use crate::log::{
    appended, appended_all, last_n, lemma_appended_all_keeps_last, snapshot_of, EntryView,
    LogBuffer, LogEntry, LOG_CAPACITY,
};
use crate::settings::{summary, Settings};
use vstd::prelude::*;
use vstd::string::*;

verus! {

/// Newest log entries included in a status.
pub const STATUS_LOG_COUNT: usize = 20;

/// Characters of each log text included in a status.
pub const STATUS_TEXT_MAX: usize = 200;

/// An output stream of a job's process.
#[derive(Clone, Copy, Debug, PartialEq, Eq, Structural)]
pub enum OutputStream {
    /// Standard output; its end means the process is gone.
    Stdout,
    /// Standard error.
    Stderr,
}

/// The tag that marks a stream's lines in the log.
pub open spec fn stream_tag(stream: OutputStream) -> Seq<char> {
    match stream {
        OutputStream::Stdout => "STDOUT"@,
        OutputStream::Stderr => "STDERR"@,
    }
}

impl OutputStream {
    pub fn tag(&self) -> (r: &'static str)
        ensures
            r@ == stream_tag(*self),
    {
        match self {
            OutputStream::Stdout => "STDOUT",
            OutputStream::Stderr => "STDERR",
        }
    }

    /// Whether the end of this stream ends the job.
    pub fn ends_job(&self) -> (r: bool)
        ensures
            r == (*self == OutputStream::Stdout),
    {
        match self {
            OutputStream::Stdout => true,
            OutputStream::Stderr => false,
        }
    }
}

pub open spec fn started_text() -> Seq<char> {
    "<Started>"@
}

pub open spec fn settings_text(s: Settings) -> Seq<char> {
    "<Settings>  "@ + summary(s)
}

pub open spec fn output_text(stream: OutputStream, line: Seq<char>) -> Seq<char> {
    "<"@ + stream_tag(stream) + "> "@ + line
}

pub open spec fn exited_text() -> Seq<char> {
    "<Exited>"@
}

pub open spec fn stopped_text() -> Seq<char> {
    "<Stopped manually>"@
}

pub open spec fn entry(timestamp: u64, text: Seq<char>) -> EntryView {
    EntryView { timestamp, text }
}

/// What a job holds, as a value.
pub struct JobView<P> {
    pub id: u32,
    pub running: bool,
    pub started_at: Option<u64>,
    pub settings: Settings,
    pub log: Seq<EntryView>,
    pub process: Option<P>,
}

/// A job just admitted with its spawned `process`.
pub open spec fn started_job<P>(id: u32, settings: Settings, process: P, now: u64) -> JobView<P> {
    JobView {
        id,
        running: true,
        started_at: Some(now),
        settings,
        log: seq![entry(now, started_text()), entry(now, settings_text(settings))],
        process: Some(process),
    }
}

/// `j` after a line arrived on `stream`.
pub open spec fn after_output<P>(j: JobView<P>, stream: OutputStream, line: Seq<char>, now: u64) -> JobView<P> {
    JobView { log: appended(j.log, entry(now, output_text(stream, line))), ..j }
}

/// `j` after `stream` closed: the end of standard output means the process exited.
pub open spec fn after_close<P>(j: JobView<P>, stream: OutputStream, now: u64) -> JobView<P> {
    match stream {
        OutputStream::Stdout => JobView {
            running: false,
            started_at: None,
            log: appended(j.log, entry(now, exited_text())),
            ..j
        },
        OutputStream::Stderr => j,
    }
}

/// `j` after its process was terminated on request: it no longer runs and
/// its log gains the stop marker. The start time stays until standard
/// output closes.
pub open spec fn after_stop<P>(j: JobView<P>, now: u64) -> JobView<P> {
    JobView { running: false, log: appended(j.log, entry(now, stopped_text())), ..j }
}

pub open spec fn stop_failed_text() -> Seq<char> {
    "<Stop failed>"@
}

/// `j` after an attempt to terminate its process failed; the flags are left as they were.
pub open spec fn after_stop_failed<P>(j: JobView<P>, now: u64) -> JobView<P> {
    JobView { log: appended(j.log, entry(now, stop_failed_text())), ..j }
}

/// What an attempt to terminate a job's process came to.
#[derive(Clone, Copy, Debug, PartialEq, Eq, Structural)]
pub enum Termination {
    /// The job had no process handle: nothing was terminated.
    NoProcess,
    /// The process was killed and waited for.
    Terminated,
    /// Killing or waiting for the process failed.
    Failed,
}

/// The answer to a stop request.
#[derive(Debug)]
pub enum StopReply {
    /// No process was tracked: the job is not running.
    NotRunning,
    /// The process was terminated; the job's status afterwards.
    Stopped(JobStatus),
    /// Terminating the process failed.
    Failed,
}

/// The time stamped on log entries: the current Unix time, or 0 (the epoch
/// itself) while the clock reads a time before the epoch.
fn log_time() -> u64 {
    match clock_seconds() {
        Some(t) => t,
        None => 0,
    }
}

/// A job's state as reported to clients.
#[derive(Debug)]
pub struct JobStatus {
    pub job_id: u32,
    pub running: bool,
    pub started_at: Option<u64>,
    /// The newest entries, newest first, texts cut to `STATUS_TEXT_MAX` characters.
    pub logs: Vec<LogEntry>,
    pub settings: Settings,
}

pub struct StatusView {
    pub job_id: u32,
    pub running: bool,
    pub started_at: Option<u64>,
    pub logs: Seq<EntryView>,
    pub settings: Settings,
}

impl View for JobStatus {
    type V = StatusView;

    open spec fn view(&self) -> StatusView {
        StatusView {
            job_id: self.job_id,
            running: self.running,
            started_at: self.started_at,
            logs: self.logs@.map_values(|e: LogEntry| e@),
            settings: self.settings,
        }
    }
}

/// The status reported for `j`.
pub open spec fn status_of<P>(j: JobView<P>) -> StatusView {
    StatusView {
        job_id: j.id,
        running: j.running,
        started_at: j.started_at,
        logs: snapshot_of(j.log, STATUS_LOG_COUNT as nat, STATUS_TEXT_MAX as nat),
        settings: j.settings,
    }
}

/// One recording job, owning the handle `P` of its process while it has one.
pub struct Job<P> {
    id: u32,
    running: bool,
    started_at: Option<u64>,
    settings: Settings,
    log: LogBuffer,
    process: Option<P>,
}

impl<P> View for Job<P> {
    type V = JobView<P>;

    closed spec fn view(&self) -> JobView<P> {
        JobView {
            id: self.id,
            running: self.running,
            started_at: self.started_at,
            settings: self.settings,
            log: self.log@,
            process: self.process,
        }
    }
}

impl<P> Job<P> {
    /// A running job for the spawned `process`, its log opened with a
    /// start marker and a summary of its settings.
    pub fn new(id: u32, settings: Settings, process: P, now: u64) -> (r: Job<P>)
        ensures
            r@ == started_job(id, settings, process, now),
    {
        let mut log = LogBuffer::new();
        proof {
            reveal_strlit("<Started>");
        }
        log.append(LogEntry::new(now, String::from_str("<Started>")));
        let mut text = String::from_str("<Settings>  ");
        text.append(settings.summary().as_str());
        log.append(LogEntry::new(now, text));
        let r = Job { id, running: true, started_at: Some(now), settings, log, process: Some(process) };
        assert(r@.log =~= started_job(id, settings, process, now).log);
        r
    }

    pub fn id(&self) -> (r: u32)
        ensures
            r == self@.id,
    {
        self.id
    }

    pub fn is_running(&self) -> (r: bool)
        ensures
            r == self@.running,
    {
        self.running
    }

    /// Logs a line read from `stream`, tagged with the stream, at time `now`.
    pub fn record_output_at(&mut self, stream: OutputStream, line: &str, now: u64)
        ensures
            final(self)@ == after_output(old(self)@, stream, line@, now),
    {
        let mut text = String::from_str("<");
        text.append(stream.tag());
        text.append("> ");
        text.append(line);
        self.log.append(LogEntry::new(now, text));
    }

    /// Logs a line read from `stream`, stamped with the current time.
    pub fn record_output(&mut self, stream: OutputStream, line: &str)
        ensures
            exists|t: u64| final(self)@ == after_output(old(self)@, stream, line@, t),
    {
        let now = log_time();
        self.record_output_at(stream, line, now);
    }

    /// Records that `stream` closed at time `now`; the end of standard
    /// output marks the job as exited.
    pub fn record_stream_closed_at(&mut self, stream: OutputStream, now: u64)
        ensures
            final(self)@ == after_close(old(self)@, stream, now),
    {
        if stream.ends_job() {
            self.running = false;
            self.started_at = None;
            self.log.append(LogEntry::new(now, String::from_str("<Exited>")));
        }
    }

    /// Records that `stream` closed, stamped with the current time.
    pub fn record_stream_closed(&mut self, stream: OutputStream)
        ensures
            exists|t: u64| final(self)@ == after_close(old(self)@, stream, t),
    {
        let now = log_time();
        self.record_stream_closed_at(stream, now);
    }

    /// Takes the process handle out of the job. Of several callers, only
    /// the first gets it; the others get `None`.
    pub fn take_process(&mut self) -> (r: Option<P>)
        ensures
            r == old(self)@.process,
            final(self)@ == (JobView { process: None, ..old(self)@ }),
    {
        self.process.take()
    }

    /// Records that the process was terminated on request at time `now`.
    pub fn record_stopped_at(&mut self, now: u64)
        ensures
            final(self)@ == after_stop(old(self)@, now),
    {
        self.running = false;
        self.log.append(LogEntry::new(now, String::from_str("<Stopped manually>")));
    }

    /// Records that the process was terminated on request, stamped with the current time.
    pub fn record_stopped(&mut self)
        ensures
            exists|t: u64| final(self)@ == after_stop(old(self)@, t),
    {
        let now = log_time();
        self.record_stopped_at(now);
    }

    /// Records at time `now` that terminating the process failed.
    pub fn record_stop_failed_at(&mut self, now: u64)
        ensures
            final(self)@ == after_stop_failed(old(self)@, now),
    {
        self.log.append(LogEntry::new(now, String::from_str("<Stop failed>")));
    }

    /// Records that terminating the process failed, stamped with the current time.
    pub fn record_stop_failed(&mut self)
        ensures
            exists|t: u64| final(self)@ == after_stop_failed(old(self)@, t),
    {
        let now = log_time();
        self.record_stop_failed_at(now);
    }

    /// Records the outcome `t` of a stop request at time `now` and gives
    /// the reply: without a process nothing changes; a terminated process
    /// leaves the job stopped; a failed attempt is logged.
    pub fn conclude_stop_at(&mut self, t: Termination, now: u64) -> (r: StopReply)
        ensures
            t == Termination::NoProcess ==> final(self)@ == old(self)@ && r is NotRunning,
            t == Termination::Terminated ==> final(self)@ == after_stop(old(self)@, now) && (
            r matches StopReply::Stopped(s) && s@ == status_of(final(self)@)),
            t == Termination::Failed ==> final(self)@ == after_stop_failed(old(self)@, now)
                && r is Failed,
    {
        match t {
            Termination::NoProcess => StopReply::NotRunning,
            Termination::Terminated => {
                self.record_stopped_at(now);
                StopReply::Stopped(self.status())
            },
            Termination::Failed => {
                self.record_stop_failed_at(now);
                StopReply::Failed
            },
        }
    }

    /// Records the outcome `t` of a stop request as `conclude_stop_at`
    /// does, stamped with the current time.
    pub fn conclude_stop(&mut self, t: Termination) -> (r: StopReply)
        ensures
            exists|now: u64|
                {
                    &&& t == Termination::NoProcess ==> final(self)@ == old(self)@ && r is NotRunning
                    &&& t == Termination::Terminated ==> final(self)@ == after_stop(old(self)@, now)
                        && (r matches StopReply::Stopped(s) && s@ == status_of(final(self)@))
                    &&& t == Termination::Failed ==> final(self)@ == after_stop_failed(
                        old(self)@,
                        now,
                    ) && r is Failed
                },
    {
        let now = log_time();
        self.conclude_stop_at(t, now)
    }

    /// The job's status: its fields and its newest `STATUS_LOG_COUNT`
    /// log entries, newest first, each cut to `STATUS_TEXT_MAX` characters.
    pub fn status(&self) -> (r: JobStatus)
        ensures
            r@ == status_of(self@),
    {
        JobStatus {
            job_id: self.id,
            running: self.running,
            started_at: self.started_at,
            logs: self.log.snapshot(STATUS_LOG_COUNT, STATUS_TEXT_MAX),
            settings: self.settings,
        }
    }
}

/// Once standard output delivered two lines and closed, the job's log ends
/// with those two lines followed by the exit marker, and the job no longer runs.
pub proof fn lemma_exit_after_output<P>(
    j: JobView<P>,
    l1: Seq<char>,
    l2: Seq<char>,
    t1: u64,
    t2: u64,
    t3: u64,
)
    requires
        j.log.len() <= LOG_CAPACITY,
    ensures
        ({
            let f = after_close(
                after_output(after_output(j, OutputStream::Stdout, l1, t1), OutputStream::Stdout, l2, t2),
                OutputStream::Stdout,
                t3,
            );
            &&& !f.running
            &&& f.started_at is None
            &&& f.log.len() >= 3
            &&& f.log.subrange(f.log.len() - 3, f.log.len() as int) == seq![
                entry(t1, output_text(OutputStream::Stdout, l1)),
                entry(t2, output_text(OutputStream::Stdout, l2)),
                entry(t3, exited_text()),
            ]
        }),
{
    let e1 = entry(t1, output_text(OutputStream::Stdout, l1));
    let e2 = entry(t2, output_text(OutputStream::Stdout, l2));
    let e3 = entry(t3, exited_text());
    let es = seq![e1, e2, e3];
    assert(es.drop_last() =~= seq![e1, e2]);
    assert(seq![e1, e2].drop_last() =~= seq![e1]);
    assert(seq![e1].drop_last() =~= Seq::<EntryView>::empty());
    reveal_with_fuel(appended_all, 4);
    assert(appended_all(j.log, es) == appended(appended(appended(j.log, e1), e2), e3));
    lemma_appended_all_keeps_last(j.log, es);
    let all = j.log + es;
    let kept = last_n(all, LOG_CAPACITY as nat);
    assert(kept.subrange(kept.len() - 3, kept.len() as int) =~= es);
}

} // verus!
