//! Lifecycle supervisor for the single external tunnel process.
//!
//! The supervisor owns a slot holding at most one process handle,
//! identified here by its operating-system process id. All spawning,
//! polling and killing is operating-system work done by the caller; the
//! supervisor makes every decision: whether a `start` request must spawn
//! a fresh process or report that one is already running, and whether a
//! `stop` request has anything to kill. The key rule is
//! verify-before-trust: a recorded handle is never believed to be alive
//! without a fresh liveness poll, so a silently crashed process never
//! blocks a restart, and a live one is never spawned twice.

use vstd::prelude::*;

verus! {

/// Result of a non-blocking exit poll on the recorded child process:
/// still running, observed exited, or the poll itself failed.
#[derive(Clone, Copy, PartialEq, Eq, Structural, Debug)]
pub enum Liveness {
    Running,
    Exited,
    Unknown,
}

/// What a `start` request must do next, decided from the recorded slot
/// and a fresh liveness poll.
#[derive(Clone, Copy, PartialEq, Eq, Structural, Debug)]
pub enum StartDecision {
    /// A live process is already recorded; nothing is spawned.
    AlreadyRunning,
    /// The slot is clear (or was just cleared); a fresh spawn may proceed.
    ShouldSpawn,
}

/// What a `stop` request must do next: kill the recorded process, or
/// nothing, because none was recorded.
#[derive(Clone, Copy, PartialEq, Eq, Structural, Debug)]
pub enum StopOutcome {
    /// The slot held this process id; the caller must now kill it.
    KillRequested(u64),
    /// The slot was empty; stopping is a harmless no-op.
    WasNotRunning,
}

/// One supervisor interaction, for reasoning about whole call
/// histories: a `start` attempt carries the poll answer the caller
/// observed and the process id the spawn produced (if one was tried and
/// succeeded), a `stop` carries nothing.
pub enum SupervisorEvent {
    StartAttempt { poll: Liveness, spawned: Option<u64> },
    StopRequest,
}

/// The decision a `start` request reaches, as a function of the
/// recorded slot and the fresh poll: only a recorded handle whose poll
/// says `Running` blocks a spawn; an exited or unpollable one is
/// discarded.
pub open spec fn start_decision_spec(slot: Option<u64>, poll: Liveness) -> StartDecision {
    match slot {
        Option::None => StartDecision::ShouldSpawn,
        Option::Some(_) => if poll is Running {
            StartDecision::AlreadyRunning
        } else {
            StartDecision::ShouldSpawn
        },
    }
}

/// The slot after the `start` decision is made (before any new spawn is
/// recorded): kept only when the poll confirmed the process alive.
pub open spec fn slot_after_check(slot: Option<u64>, poll: Liveness) -> Option<u64> {
    if start_decision_spec(slot, poll) is AlreadyRunning {
        slot
    } else {
        Option::None
    }
}

/// The slot after one whole interaction: a blocked `start` keeps it, a
/// spawning `start` records what the spawn produced, a `stop` clears it.
pub open spec fn step_spec(slot: Option<u64>, e: SupervisorEvent) -> Option<u64> {
    match e {
        SupervisorEvent::StartAttempt { poll, spawned } => {
            if start_decision_spec(slot, poll) is AlreadyRunning {
                slot
            } else {
                spawned
            }
        },
        SupervisorEvent::StopRequest => Option::None,
    }
}

/// The slot after a whole history of interactions, starting empty.
pub open spec fn run_history(es: Seq<SupervisorEvent>) -> Option<u64>
    decreases es.len(),
{
    if es.len() == 0 {
        Option::None
    } else {
        step_spec(run_history(es.drop_last()), es.last())
    }
}

/// Owner of the process slot. The surrounding application keeps the
/// real child handle beside it and performs exactly the actions the
/// decisions call for.
pub struct Supervisor {
    slot: Option<u64>,
}

impl Supervisor {
    /// The process id currently recorded, if any.
    pub closed spec fn recorded(self) -> Option<u64> {
        self.slot
    }

    /// A fresh supervisor records nothing.
    pub fn new() -> (s: Supervisor)
        ensures
            s.recorded() is None,
    {
        Supervisor { slot: None }
    }

    /// Cheap presence check: whether a handle is recorded. This is not
    /// a liveness re-verification; a silently crashed process keeps
    /// answering `true` until the next `start` attempt polls it.
    pub fn is_running(&self) -> (b: bool)
        ensures
            b == (self.recorded() is Some),
    {
        self.slot.is_some()
    }

    /// First half of a `start` request. `poll` is the answer of a fresh
    /// non-blocking exit poll on the recorded process (its value is
    /// irrelevant when nothing is recorded). A handle confirmed alive
    /// blocks the start; one that exited, or whose poll failed, is
    /// cleared so a fresh spawn can proceed.
    pub fn check_start(&mut self, poll: Liveness) -> (d: StartDecision)
        ensures
            d == start_decision_spec(old(self).recorded(), poll),
            final(self).recorded() == slot_after_check(old(self).recorded(), poll),
            d is ShouldSpawn ==> final(self).recorded() is None,
    {
        match self.slot {
            None => StartDecision::ShouldSpawn,
            Some(_) => {
                match poll {
                    Liveness::Running => StartDecision::AlreadyRunning,
                    _ => {
                        self.slot = None;
                        StartDecision::ShouldSpawn
                    },
                }
            },
        }
    }

    /// Second half of a `start` request, after `check_start` said
    /// `ShouldSpawn` and the caller attempted the spawn. A successful
    /// spawn is recorded and reported; a failed one leaves the slot
    /// empty and surfaces the spawn error.
    pub fn complete_start(&mut self, spawn: Result<u64, String>) -> (r: Result<String, String>)
        requires
            old(self).recorded() is None,
        ensures
            spawn is Ok ==> {
                &&& final(self).recorded() == Some(spawn->Ok_0)
                &&& r is Ok
                &&& r->Ok_0@ == started_msg()
            },
            spawn is Err ==> {
                &&& final(self).recorded() is None
                &&& r is Err
                &&& r->Err_0@ == spawn_failed_msg(spawn->Err_0@)
            },
    {
        match spawn {
            Ok(pid) => {
                self.slot = Some(pid);
                Ok(String::from_str("Started successfully"))
            },
            Err(e) => Err(String::from_str("Failed to start: ").concat(e.as_str())),
        }
    }

    /// A `stop` request: take whatever the slot holds. The slot is
    /// empty afterwards in every case — ownership of the handle is
    /// consumed even if the kill that follows fails.
    pub fn stop(&mut self) -> (r: StopOutcome)
        ensures
            final(self).recorded() is None,
            r == stop_outcome_spec(old(self).recorded()),
    {
        match self.slot.take() {
            Some(pid) => StopOutcome::KillRequested(pid),
            None => StopOutcome::WasNotRunning,
        }
    }
}

/// The outcome a `stop` request reaches, as a function of the slot.
pub open spec fn stop_outcome_spec(slot: Option<u64>) -> StopOutcome {
    match slot {
        Option::None => StopOutcome::WasNotRunning,
        Option::Some(p) => StopOutcome::KillRequested(p),
    }
}

/// The report a `stop` request hands back, as a function of its
/// outcome and of the kill result the caller observed.
pub open spec fn stop_report_spec(outcome: StopOutcome, kill_err: Option<Seq<char>>) -> Result<
    Seq<char>,
    Seq<char>,
> {
    match outcome {
        StopOutcome::WasNotRunning => Result::Ok(not_running_msg()),
        StopOutcome::KillRequested(_) => match kill_err {
            Option::None => Result::Ok(stopped_msg()),
            Option::Some(e) => Result::Err(kill_failed_msg(e)),
        },
    }
}

/// The message a blocked `start` returns.
pub open spec fn already_running_msg() -> Seq<char> {
    "Already running"@
}

/// The message a successful `start` returns.
pub open spec fn started_msg() -> Seq<char> {
    "Started successfully"@
}

/// The error a failed spawn surfaces, wrapping the system's own words.
pub open spec fn spawn_failed_msg(e: Seq<char>) -> Seq<char> {
    "Failed to start: "@ + e
}

/// The message a `stop` with nothing to do returns.
pub open spec fn not_running_msg() -> Seq<char> {
    "Not running"@
}

/// The message a successful `stop` returns.
pub open spec fn stopped_msg() -> Seq<char> {
    "Stopped successfully"@
}

/// The error a failed kill surfaces, wrapping the system's own words.
pub open spec fn kill_failed_msg(e: Seq<char>) -> Seq<char> {
    "Failed to kill process: "@ + e
}

/// The report a blocked `start` hands back.
pub fn already_running_report() -> (r: Result<String, String>)
    ensures
        r is Ok,
        r->Ok_0@ == already_running_msg(),
{
    Ok(String::from_str("Already running"))
}

/// The report a `stop` request hands back, given the outcome and the
/// result of the kill the caller performed (`None` for a kill that
/// succeeded; the kill result is irrelevant when nothing was
/// recorded, since no kill was requested).
pub fn stop_report(outcome: StopOutcome, kill_err: Option<String>) -> (r: Result<String, String>)
    ensures
        ({
            let spec_r = stop_report_spec(
                outcome,
                match kill_err {
                    Option::None => Option::None,
                    Option::Some(e) => Option::Some(e@),
                },
            );
            &&& r is Ok <==> spec_r is Ok
            &&& r is Ok ==> r->Ok_0@ == spec_r->Ok_0
            &&& r is Err ==> r->Err_0@ == spec_r->Err_0
        }),
    {
    match outcome {
        StopOutcome::WasNotRunning => Ok(String::from_str("Not running")),
        StopOutcome::KillRequested(_) => {
            match kill_err {
                None => Ok(String::from_str("Stopped successfully")),
                Some(e) => Err(String::from_str("Failed to kill process: ").concat(e.as_str())),
            }
        },
    }
}

/// The argument list the external binary is invoked with: the role
/// flag selected by `is_server`, then the config file path.
pub fn build_args(config_path: &str, is_server: bool) -> (args: Vec<String>)
    ensures
        args@.len() == 2,
        args@[0]@ == if is_server {
            "--server"@
        } else {
            "--client"@
        },
        args@[1]@ == config_path@,
{
    let mut args: Vec<String> = Vec::new();
    if is_server {
        args.push(String::from_str("--server"));
    } else {
        args.push(String::from_str("--client"));
    }
    args.push(String::from_str(config_path));
    args
}

/// Law: no double spawn. A `start` decision admits a spawn only with
/// the slot cleared first, and a decision that keeps the recorded
/// handle never takes up a spawned process: over any single
/// interaction, at most one handle is recorded, and a recorded live
/// handle is never displaced by a new spawn.
pub proof fn lemma_no_double_spawn(slot: Option<u64>, e: SupervisorEvent)
    ensures
        e matches SupervisorEvent::StartAttempt { poll, spawned } ==> {
            &&& (start_decision_spec(slot, poll) is ShouldSpawn ==> slot_after_check(slot, poll)
                is None)
            &&& (start_decision_spec(slot, poll) is AlreadyRunning ==> step_spec(slot, e) == slot)
        },
{
}

/// Unrolling a history one interaction at a time.
pub proof fn lemma_history_step(es: Seq<SupervisorEvent>, i: int)
    requires
        0 <= i < es.len(),
    ensures
        run_history(es.take(i + 1)) == step_spec(run_history(es.take(i)), es[i]),
{
    assert(es.take(i + 1).drop_last() =~= es.take(i));
    assert(es.take(i + 1).last() == es[i]);
}

/// Law: no double spawn, over any whole call history. At every
/// `start` interaction of any history: a recorded handle that polls as
/// live is kept, and no spawn is taken up beside it; in every other
/// case the slot is cleared first, and only then does the interaction's
/// spawn (successful or not) become the recorded state. So at most one
/// process handle is ever recorded at a time.
pub proof fn lemma_history_no_double_spawn(es: Seq<SupervisorEvent>, i: int)
    requires
        0 <= i < es.len(),
    ensures
        es[i] matches SupervisorEvent::StartAttempt { poll, spawned } ==> {
            let pre = run_history(es.take(i));
            &&& pre is Some && poll is Running ==> run_history(es.take(i + 1)) == pre
            &&& !(pre is Some && poll is Running) ==> slot_after_check(pre, poll) is None
                && run_history(es.take(i + 1)) == spawned
        },
{
    lemma_history_step(es, i);
}

/// Law: stopping when nothing is running is a success, never an error,
/// whatever kill result is on hand: the report is "Not running".
pub proof fn lemma_stop_idle_is_success(kill_err: Option<Seq<char>>)
    ensures
        stop_outcome_spec(Option::None) == StopOutcome::WasNotRunning,
        stop_report_spec(StopOutcome::WasNotRunning, kill_err) == Result::<
            Seq<char>,
            Seq<char>,
        >::Ok(not_running_msg()),
{
}

/// Law: `start` twice in a row without the process exiting. From an
/// empty slot, a first attempt spawns `p`; the second attempt polls the
/// live process, decides "already running", and leaves `p` recorded —
/// whatever `q` a second spawn could have produced is never taken up.
pub proof fn lemma_start_twice_blocks(poll0: Liveness, p: u64, q: Option<u64>)
    ensures
        ({
            let es = seq![
                SupervisorEvent::StartAttempt { poll: poll0, spawned: Option::Some(p) },
                SupervisorEvent::StartAttempt { poll: Liveness::Running, spawned: q },
            ];
            &&& run_history(es) == Option::<u64>::Some(p)
            &&& start_decision_spec(run_history(es.drop_last()), Liveness::Running)
                is AlreadyRunning
        }),
{
    let es = seq![
        SupervisorEvent::StartAttempt { poll: poll0, spawned: Option::Some(p) },
        SupervisorEvent::StartAttempt { poll: Liveness::Running, spawned: q },
    ];
    assert(es.drop_last() =~= seq![
        SupervisorEvent::StartAttempt { poll: poll0, spawned: Option::Some(p) },
    ]);
    assert(es.drop_last().drop_last() =~= Seq::<SupervisorEvent>::empty());
    assert(run_history(es.drop_last().drop_last()) is None);
    assert(es.drop_last().last() == SupervisorEvent::StartAttempt {
        poll: poll0,
        spawned: Option::Some(p),
    });
    assert(run_history(es.drop_last()) == Option::<u64>::Some(p));
    assert(es.last() == SupervisorEvent::StartAttempt {
        poll: Liveness::Running,
        spawned: q,
    });
    assert(run_history(es) == step_spec(Option::<u64>::Some(p), es.last()));
}

/// Law: a silent crash never blocks a restart. With `p` recorded but
/// polled as exited (or unpollable), the next `start` decides to spawn,
/// and a successful fresh spawn `q` becomes the recorded handle.
pub proof fn lemma_restart_after_silent_exit(p: u64, poll: Liveness, q: u64)
    requires
        !(poll is Running),
    ensures
        start_decision_spec(Option::Some(p), poll) is ShouldSpawn,
        step_spec(
            Option::Some(p),
            SupervisorEvent::StartAttempt { poll, spawned: Option::Some(q) },
        ) == Option::<u64>::Some(q),
{
}

} // verus!
