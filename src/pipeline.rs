//! The messages a pipeline worker sends, the controller's view of a run, and
//! the discovery worker's decisions.
use vstd::prelude::*;
use crate::codec::StoreProblem;
use crate::report::{extract, extract_strategies};
use crate::text::{
    chars_of, contains, contains_chars, push_str, starts_with, starts_with_chars, string_from,
    trim, trim_chars, views,
};

verus! {

/// Which kind of pipeline a run is.
#[derive(Clone, Copy, Debug, PartialEq, Eq)]
pub enum PipelineKind {
    Install,
    Discovery,
}

/// Named stages that a worker reports as it reaches them.
#[derive(Clone, Copy, Debug, PartialEq, Eq)]
pub enum Stage {
    CheckingPrereqs,
    Cleaning,
    InstallingDeps,
    Installing,
    Configuring,
    Finalizing,
    AwaitingElevation,
    WaitingForNetwork,
    CloningRepo,
    Building,
    UsingExisting,
    InstallingTool,
}

/// Why a run failed.
#[derive(Debug, PartialEq, Eq)]
pub enum PipelineError {
    /// An external command could not be started.
    SpawnFailure(String),
    /// A script the run needs is not where it should be.
    NotFound(String),
    /// The elevated step failed or was refused; the last line it printed
    /// that was no status marker, if any.
    PermissionDenied { code: i32, last_line: Option<String> },
    /// An external command ran and failed; the last line it printed.
    NonZeroExit { code: i32, context: String },
    /// The repository could not be cloned.
    CloneFailed,
    /// A strategy store text was refused.
    ParseFailure(StoreProblem),
}

/// What a worker sends to the controller.
#[derive(Debug, PartialEq, Eq)]
pub enum WorkerMsg {
    Started(u32),
    StatusChanged(Stage),
    ProgressTick,
    LogLine(String),
    InstallFinished(Result<(), PipelineError>),
    DiscoveryFinished(Result<Vec<String>, PipelineError>),
}

/// Whether the controller keeps polling.
#[derive(Clone, Copy, Debug, PartialEq, Eq)]
pub enum Poll {
    Continue,
    Stop,
}

/// The controller's record of one run.
pub struct PipelineRun {
    pub kind: PipelineKind,
    pub cancelled: bool,
    pub active_pid: Option<u32>,
    pub stage: Stage,
    pub ticks: u64,
    pub last_log: Option<String>,
    pub outcome: Option<WorkerMsg>,
}

impl PipelineRun {
    /// A run that has just been started.
    pub fn new(kind: PipelineKind) -> (r: PipelineRun)
        ensures
            r.kind == kind,
            !r.cancelled,
            r.active_pid is None,
            r.stage == Stage::CheckingPrereqs,
            r.ticks == 0,
            r.last_log is None,
            r.outcome is None,
    {
        PipelineRun {
            kind,
            cancelled: false,
            active_pid: None,
            stage: Stage::CheckingPrereqs,
            ticks: 0,
            last_log: None,
            outcome: None,
        }
    }

    /// Marks the run cancelled and gives the process to kill, if one is
    /// running.
    pub fn cancel(&mut self) -> (r: Option<u32>)
        ensures
            final(self).cancelled,
            r == old(self).active_pid,
            final(self).active_pid is None,
            final(self).kind == old(self).kind,
            final(self).stage == old(self).stage,
            final(self).ticks == old(self).ticks,
            final(self).outcome is None,
    {
        self.cancelled = true;
        self.outcome = None;
        let pid = self.active_pid;
        self.active_pid = None;
        pid
    }

    /// Takes in one message from the worker. A cancelled run takes no
    /// message and stops polling; a final message is kept as the outcome and
    /// ends polling.
    pub fn on_message(&mut self, msg: WorkerMsg) -> (r: Poll)
        ensures
            old(self).cancelled ==> r == Poll::Stop && final(self).active_pid == old(self).active_pid
                && final(self).stage == old(self).stage && final(self).ticks == old(self).ticks
                && final(self).outcome == old(self).outcome,
            final(self).kind == old(self).kind,
            final(self).cancelled == old(self).cancelled,
            (old(self).cancelled || !(msg is LogLine)) ==> final(self).last_log == old(
                self,
            ).last_log,
            (msg is Started || msg is StatusChanged || msg is ProgressTick || msg is LogLine)
                ==> final(self).outcome == old(self).outcome,
            !old(self).cancelled ==> match msg {
                WorkerMsg::Started(pid) => r == Poll::Continue && final(self).active_pid == Some(
                    pid,
                ) && final(self).stage == old(self).stage && final(self).ticks == old(self).ticks,
                WorkerMsg::StatusChanged(s) => r == Poll::Continue && final(self).stage == s
                    && final(self).active_pid == old(self).active_pid && final(self).ticks == old(
                    self,
                ).ticks,
                WorkerMsg::ProgressTick => r == Poll::Continue && final(self).ticks == (if old(
                    self,
                ).ticks < u64::MAX {
                    old(self).ticks + 1
                } else {
                    old(self).ticks as int
                }) && final(self).stage == old(self).stage && final(self).active_pid == old(
                    self,
                ).active_pid,
                WorkerMsg::LogLine(l) => r == Poll::Continue && final(self).last_log == Some(l)
                    && final(self).stage == old(self).stage && final(self).active_pid == old(
                    self,
                ).active_pid && final(self).ticks == old(self).ticks,
                _ => r == Poll::Stop && final(self).active_pid is None && final(self).outcome
                    == Some(msg) && final(self).stage == old(self).stage && final(self).ticks
                    == old(self).ticks,
            },
    {
        if self.cancelled {
            return Poll::Stop;
        }
        match msg {
            WorkerMsg::Started(pid) => {
                self.active_pid = Some(pid);
                Poll::Continue
            },
            WorkerMsg::StatusChanged(s) => {
                self.stage = s;
                Poll::Continue
            },
            WorkerMsg::ProgressTick => {
                if self.ticks < u64::MAX {
                    self.ticks = self.ticks + 1;
                }
                Poll::Continue
            },
            WorkerMsg::LogLine(l) => {
                self.last_log = Some(l);
                Poll::Continue
            },
            _ => {
                self.active_pid = None;
                self.outcome = Some(msg);
                Poll::Stop
            },
        }
    }

    /// The worker went away: polling stops, and the run has no process left.
    pub fn on_disconnected(&mut self) -> (r: Poll)
        ensures
            r == Poll::Stop,
            final(self).active_pid is None,
            final(self).kind == old(self).kind,
            final(self).cancelled == old(self).cancelled,
            final(self).outcome == old(self).outcome,
            final(self).stage == old(self).stage,
            final(self).ticks == old(self).ticks,
    {
        self.active_pid = None;
        Poll::Stop
    }
}

/// A discovery output line that marks one more probe: it mentions `ipv4`
/// or `ipv6`, or (trimmed) begins with `- `.
pub open spec fn is_progress_line(l: Seq<char>) -> bool {
    contains(trim(l), "ipv4"@) || contains(trim(l), "ipv6"@) || starts_with(trim(l), "- "@)
}

pub fn progress_line(line: &str) -> (r: bool)
    ensures
        r == is_progress_line(line@),
{
    let cs = chars_of(line);
    let t = trim_chars(cs.as_slice());
    let v4 = chars_of("ipv4");
    let v6 = chars_of("ipv6");
    let dash = chars_of("- ");
    contains_chars(t.as_slice(), v4.as_slice()) || contains_chars(t.as_slice(), v6.as_slice())
        || starts_with_chars(t.as_slice(), dash.as_slice())
}

/// What a worker does after reading one output line.
#[derive(Clone, Copy, Debug, PartialEq, Eq)]
pub enum LineStep {
    /// The run was cancelled: kill the process, wait for it, send nothing more.
    Abandon,
    /// Go on reading; `tick` says whether to send a progress tick.
    Continue { tick: bool },
}

pub open spec fn discovery_step(cancelled: bool, line: Seq<char>) -> LineStep {
    if cancelled {
        LineStep::Abandon
    } else {
        LineStep::Continue { tick: is_progress_line(line) }
    }
}

/// The final message of a discovery worker whose process printed `lines`;
/// none where the run was cancelled.
pub open spec fn discovery_finish(cancelled: bool, lines: Seq<Seq<char>>) -> Option<
    Seq<Seq<char>>,
> {
    if cancelled {
        None
    } else {
        Some(extract(lines))
    }
}

/// The discovery worker's state: the output read so far.
pub struct DiscoveryWorker {
    pub lines: Vec<String>,
}

impl DiscoveryWorker {
    pub fn new() -> (r: DiscoveryWorker)
        ensures
            r.lines@.len() == 0,
    {
        DiscoveryWorker { lines: Vec::new() }
    }

    /// Takes one line of the discovery command's output, read after the
    /// cancellation flag was found `cancelled`. A cancelled run keeps
    /// nothing more.
    pub fn on_line(&mut self, line: String, cancelled: bool) -> (r: LineStep)
        ensures
            r == discovery_step(cancelled, line@),
            cancelled ==> final(self).lines@ == old(self).lines@,
            !cancelled ==> final(self).lines@ == old(self).lines@.push(line),
    {
        if cancelled {
            return LineStep::Abandon;
        }
        let tick = progress_line(line.as_str());
        self.lines.push(line);
        LineStep::Continue { tick }
    }

    /// The message to send once the process has ended, given the
    /// cancellation flag as it then stands: the strategies of the report, or
    /// nothing at all for a cancelled run.
    pub fn finish(&self, cancelled: bool) -> (r: Option<WorkerMsg>)
        ensures
            match discovery_finish(cancelled, views(self.lines@)) {
                None => r is None,
                Some(ss) => r matches Some(WorkerMsg::DiscoveryFinished(Ok(v))) && views(v@)
                    == ss,
            },
    {
        if cancelled {
            return None;
        }
        let found = extract_strategies(&self.lines);
        Some(WorkerMsg::DiscoveryFinished(Ok(found)))
    }
}

/// A run cancelled before the worker reads its first line ends with the
/// process abandoned and no final message at all, so no success either,
/// whatever the process printed.
pub proof fn lemma_cancel_before_first_line(line: Seq<char>, printed: Seq<Seq<char>>)
    ensures
        discovery_step(true, line) == LineStep::Abandon,
        discovery_finish(true, printed) is None,
{
}

/// How thoroughly the discovery command probes.
#[derive(Clone, Copy, Debug, PartialEq, Eq)]
pub enum ScanLevel {
    Quick,
    Standard,
    Force,
}

pub open spec fn level_name(l: ScanLevel) -> Seq<char> {
    match l {
        ScanLevel::Quick => "quick"@,
        ScanLevel::Standard => "standard"@,
        ScanLevel::Force => "force"@,
    }
}

pub open spec fn level_repeats(l: ScanLevel) -> Seq<char> {
    match l {
        ScanLevel::Quick => "1"@,
        _ => "3"@,
    }
}

impl ScanLevel {
    /// The level a choice names, where it names one.
    pub fn from_choice(choice: &str) -> (r: Option<ScanLevel>)
        ensures
            r == (if choice@ == "quick"@ {
                Some(ScanLevel::Quick)
            } else if choice@ == "standard"@ {
                Some(ScanLevel::Standard)
            } else if choice@ == "force"@ {
                Some(ScanLevel::Force)
            } else {
                None::<ScanLevel>
            }),
    {
        let c = chars_of(choice);
        let q = chars_of("quick");
        let s = chars_of("standard");
        let f = chars_of("force");
        if crate::text::chars_equal(c.as_slice(), q.as_slice()) {
            Some(ScanLevel::Quick)
        } else if crate::text::chars_equal(c.as_slice(), s.as_slice()) {
            Some(ScanLevel::Standard)
        } else if crate::text::chars_equal(c.as_slice(), f.as_slice()) {
            Some(ScanLevel::Force)
        } else {
            None
        }
    }

    /// How many times each probe is repeated: once for a quick scan, three
    /// times otherwise.
    pub fn repeats(&self) -> (r: usize)
        ensures
            r == (if *self == ScanLevel::Quick {
                1usize
            } else {
                3usize
            }),
    {
        match self {
            ScanLevel::Quick => 1,
            _ => 3,
        }
    }

    /// The name the discovery command knows the level by.
    pub fn name(&self) -> (r: String)
        ensures
            r@ == level_name(*self),
    {
        let n: &str = match self {
            ScanLevel::Quick => "quick",
            ScanLevel::Standard => "standard",
            ScanLevel::Force => "force",
        };
        n.to_owned()
    }
}

pub open spec fn discovery_env_spec(domains: Seq<Seq<char>>, level: ScanLevel, base: Seq<char>) -> Seq<
    Seq<char>,
> {
    seq![
        "BATCH=1"@,
        "REPEATS="@ + level_repeats(level),
        "SCANLEVEL="@ + level_name(level),
        "SKIP_TPWS=1"@,
        "ENABLE_HTTP=1"@,
        "ENABLE_HTTPS_TLS12=1"@,
        "ENABLE_HTTPS_TLS13=1"@,
        "ZAPRET_BASE="@ + base,
        "DOMAINS="@ + crate::install::join(domains),
    ]
}

fn prefixed(prefix: &str, value: &str) -> (r: String)
    ensures
        r@ == prefix@ + value@,
{
    let mut out: Vec<char> = Vec::new();
    push_str(&mut out, prefix);
    push_str(&mut out, value);
    string_from(out.as_slice())
}

/// The environment assignments under which the discovery command runs:
/// batch mode, the level's repeats and name, HTTP and both TLS probes,
/// the toolset's base directory, and the domains separated by spaces.
pub fn discovery_env(domains: &Vec<String>, level: ScanLevel, base: &str) -> (r: Vec<String>)
    ensures
        views(r@) == discovery_env_spec(views(domains@), level, base@),
{
    let joined = crate::install::join_words(domains);
    let reps: &str = match level {
        ScanLevel::Quick => "1",
        _ => "3",
    };
    let name = level.name();
    let mut out: Vec<String> = Vec::new();
    out.push("BATCH=1".to_owned());
    out.push(prefixed("REPEATS=", reps));
    out.push(prefixed("SCANLEVEL=", name.as_str()));
    out.push("SKIP_TPWS=1".to_owned());
    out.push("ENABLE_HTTP=1".to_owned());
    out.push("ENABLE_HTTPS_TLS12=1".to_owned());
    out.push("ENABLE_HTTPS_TLS13=1".to_owned());
    out.push(prefixed("ZAPRET_BASE=", base));
    out.push(prefixed("DOMAINS=", joined.as_str()));
    assert(views(out@) =~= discovery_env_spec(views(domains@), level, base@));
    out
}

} // verus!
