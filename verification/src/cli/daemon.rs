//! Starting and stopping the daemon: what to do next, given what was seen.
use vstd::prelude::*;
use vstd::string::*;

use crate::cli::error::{bootstrap_error, CliError, DaemonFailure};
use crate::text::{concat2, concat3, parse_u64, texts, trim, trimmed, u64_written};
use crate::types::{DaemonStatus, Profile};

verus! {

/// How often a daemon is looked for.
pub const POLL_TRIES: u32 = 20;

/// How long to wait between two looks, in milliseconds.
pub const POLL_INTERVAL_MS: u64 = 250;

/// How long a look at a running daemon may take, in milliseconds.
pub const PING_TIMEOUT_MS: u64 = 2_000;

/// How long the request to stop may take, in milliseconds.
pub const SHUTDOWN_RPC_TIMEOUT_MS: u64 = 3_000;

/// How long a look at a daemon that was just started may take, in milliseconds.
pub const POST_SPAWN_PING_TIMEOUT_MS: u64 = 750;

/// How long to wait for a daemon that was just started, in milliseconds.
pub const SPAWN_READY_DEADLINE_MS: u64 = 10_000;

// ---------------------------------------------------------------------------
// Texts
// ---------------------------------------------------------------------------

pub fn already_running_text(profile: &str, socket: &str) -> (r: String)
    ensures
        r@ == "daemon already running for profile "@ + profile@ + " at "@ + socket@,
{
    let mut m = "daemon already running for profile ".to_owned();
    m.append(profile);
    m.append(" at ");
    m.append(socket);
    m
}

pub fn listening_text(profile: &str, socket: &str) -> (r: String)
    ensures
        r@ == "daemon listening for profile "@ + profile@ + " at "@ + socket@,
{
    let mut m = "daemon listening for profile ".to_owned();
    m.append(profile);
    m.append(" at ");
    m.append(socket);
    m
}

pub fn stopped_text(profile: &str) -> (r: String)
    ensures
        r@ == "stopped daemon for profile "@ + profile@,
{
    concat2("stopped daemon for profile ", profile)
}

// ---------------------------------------------------------------------------
// Starting
// ---------------------------------------------------------------------------

/// How far a start has come.
#[derive(Debug, Clone, Copy, PartialEq, Eq, Structural)]
pub enum Starting {
    /// Is there a daemon already?
    Probe,
    /// It was started; so many looks are left.
    Poll(u32),
}

/// What a start does next.
#[derive(Debug, Clone, Copy, PartialEq, Eq, Structural)]
pub enum StartStep {
    /// There is one already.
    AlreadyRunning,
    /// Start it, then look.
    Spawn(Starting),
    /// It listens.
    Listening,
    /// Wait, then look again.
    Wait(Starting),
    /// It does not run.
    NotRunning,
}

pub open spec fn start_step(at: Starting, answers: bool) -> StartStep {
    match at {
        Starting::Probe => if answers {
            StartStep::AlreadyRunning
        } else {
            StartStep::Spawn(Starting::Poll(POLL_TRIES))
        },
        Starting::Poll(left) => if left == 0 {
            StartStep::NotRunning
        } else if answers {
            StartStep::Listening
        } else if left == 1 {
            StartStep::NotRunning
        } else {
            StartStep::Wait(Starting::Poll((left - 1) as u32))
        },
    }
}

/// Goes on with a look at the daemon.
pub fn handle_daemon_start(at: Starting, answers: bool) -> (r: StartStep)
    ensures
        r == start_step(at, answers),
{
    match at {
        Starting::Probe => {
            if answers {
                StartStep::AlreadyRunning
            } else {
                StartStep::Spawn(Starting::Poll(POLL_TRIES))
            }
        },
        Starting::Poll(left) => {
            if left == 0 {
                StartStep::NotRunning
            } else if answers {
                StartStep::Listening
            } else if left == 1 {
                StartStep::NotRunning
            } else {
                StartStep::Wait(Starting::Poll(left - 1))
            }
        },
    }
}

/// Where a start is after so many looks at a daemon that does not answer.
pub open spec fn after_silence(looks: nat) -> StartStep
    decreases looks,
{
    if looks == 0 {
        StartStep::Spawn(Starting::Poll(POLL_TRIES))
    } else {
        match after_silence((looks - 1) as nat) {
            StartStep::Spawn(at) => start_step(at, false),
            StartStep::Wait(at) => start_step(at, false),
            done => done,
        }
    }
}

/// A daemon that never answers is given up after twenty looks.
pub proof fn start_gives_up(looks: nat)
    requires
        1 <= looks,
    ensures
        looks < 20 ==> after_silence(looks) == StartStep::Wait(
            Starting::Poll((20 - looks) as u32),
        ),
        looks >= 20 ==> after_silence(looks) is NotRunning,
    decreases looks,
{
    if looks > 1 {
        start_gives_up((looks - 1) as nat);
    } else {
        assert(after_silence(0) == StartStep::Spawn(Starting::Poll(20)));
    }
}

/// The error of a daemon that does not run.
pub fn not_running(profile: &str) -> (r: CliError)
    ensures
        r matches CliError::Daemon(DaemonFailure::NotRunning(p)) && p@ == profile@,
{
    CliError::Daemon(DaemonFailure::NotRunning(profile.to_owned()))
}

// ---------------------------------------------------------------------------
// Keeping a running one
// ---------------------------------------------------------------------------

/// A daemon that is kept: the provider accepts its token, and as the bot that was
/// configured.
pub open spec fn healthy(status: DaemonStatus) -> bool {
    status.mattermost_ok && status.mattermost_identity_drift != Some(true)
}

/// Whether a running daemon is kept. One that did not answer in time is not.
pub fn keeps_running(status: Option<&DaemonStatus>) -> (r: bool)
    ensures
        r == (status matches Some(s) && healthy(*s)),
{
    match status {
        Some(s) => {
            let drifted = match s.mattermost_identity_drift {
                Some(d) => d,
                None => false,
            };
            s.mattermost_ok && !drifted
        },
        None => false,
    }
}

/// What to do after a look at a daemon that was just started.
#[derive(Debug, Clone, Copy, PartialEq, Eq, Structural)]
pub enum ReadyStep {
    /// It answers.
    Started,
    /// Look at it, and wait if it does not answer.
    Look,
    /// The time is over.
    NotRunning,
}

/// Goes on `elapsed_ms` after a daemon was started. `answers` is what the last look at
/// it gave, if one was made; no look is made once the time is over.
pub fn await_ready(elapsed_ms: u64, answers: Option<bool>) -> (r: ReadyStep)
    ensures
        r == (if answers == Some(true) {
            ReadyStep::Started
        } else if elapsed_ms < SPAWN_READY_DEADLINE_MS {
            ReadyStep::Look
        } else {
            ReadyStep::NotRunning
        }),
{
    let ready = match answers {
        Some(a) => a,
        None => false,
    };
    if ready {
        ReadyStep::Started
    } else if elapsed_ms < SPAWN_READY_DEADLINE_MS {
        ReadyStep::Look
    } else {
        ReadyStep::NotRunning
    }
}

// ---------------------------------------------------------------------------
// Stopping
// ---------------------------------------------------------------------------

/// What came of the request to stop.
pub enum StopAnswer {
    Stopped,
    /// Nobody listens at the socket.
    NotRunning,
    Failed(DaemonFailure),
    /// No answer in time.
    TimedOut,
}

/// What a stop does next.
pub enum StopStep {
    /// Nothing more.
    Done,
    /// Ask the daemon to stop.
    Ask,
    /// Look whether the socket is gone; so many looks are left.
    Poll(u32),
    /// End the process with this id, then remove its files.
    Kill(u32),
    Fail(CliError),
}

/// Begins a stop: without a socket there is nothing to do.
pub fn stop_begin(socket_exists: bool) -> (r: StopStep)
    ensures
        r == (if socket_exists {
            StopStep::Ask
        } else {
            StopStep::Done
        }),
{
    if socket_exists {
        StopStep::Ask
    } else {
        StopStep::Done
    }
}

/// Goes on with the answer. A daemon that does not answer is looked at as one that
/// does.
pub fn stop_answered(answer: StopAnswer) -> (r: StopStep)
    ensures
        match answer {
            StopAnswer::Stopped => r == StopStep::Poll(POLL_TRIES),
            StopAnswer::TimedOut => r == StopStep::Poll(POLL_TRIES),
            StopAnswer::NotRunning => r is Done,
            StopAnswer::Failed(f) => r == StopStep::Fail(CliError::Daemon(f)),
        },
{
    match answer {
        StopAnswer::Stopped => StopStep::Poll(POLL_TRIES),
        StopAnswer::TimedOut => StopStep::Poll(POLL_TRIES),
        StopAnswer::NotRunning => StopStep::Done,
        StopAnswer::Failed(f) => StopStep::Fail(CliError::Daemon(f)),
    }
}

/// Goes on with a look at the socket. `pid` is the process id that was recorded.
pub fn stop_looked(left: u32, socket_exists: bool, profile: &str, pid: Option<u32>) -> (r: StopStep)
    ensures
        !socket_exists && left > 0 ==> r is Done,
        socket_exists && left > 1 ==> r == StopStep::Poll((left - 1) as u32),
        left == 0 || (socket_exists && left == 1) ==> match pid {
            Some(p) => r == StopStep::Kill(p),
            None => r matches StopStep::Fail(e) && bootstrap_error(e) == Some(
                "daemon for profile "@ + profile@
                    + " did not exit within the shutdown grace window and no pid file was readable for the force-kill fallback"@,
            ),
        },
{
    if left > 0 && !socket_exists {
        return StopStep::Done;
    }
    if left > 1 {
        return StopStep::Poll(left - 1);
    }
    match pid {
        Some(p) => StopStep::Kill(p),
        None => StopStep::Fail(
            CliError::Bootstrap(
                concat3(
                    "daemon for profile ",
                    profile,
                    " did not exit within the shutdown grace window and no pid file was readable for the force-kill fallback",
                ),
            ),
        ),
    }
}

/// The process id that the text of a file records.
pub open spec fn recorded_pid(contents: Seq<char>) -> Option<u32> {
    match u64_written(trimmed(contents)) {
        Some(n) => if n <= u32::MAX {
            Some(n as u32)
        } else {
            None
        },
        None => None,
    }
}

pub fn read_daemon_pid(contents: Option<&str>) -> (r: Option<u32>)
    ensures
        r == (match contents {
            Some(text) => recorded_pid(text@),
            None => None,
        }),
{
    match contents {
        Some(text) => match parse_u64(trim(text)) {
            Ok(n) => {
                if n <= u32::MAX as u64 {
                    Some(n as u32)
                } else {
                    None
                }
            },
            Err(_) => None,
        },
        None => None,
    }
}

/// What was seen of a daemon on this machine.
#[derive(Debug, Clone, Copy, PartialEq, Eq, Structural)]
pub struct DaemonTraces {
    pub socket_exists: bool,
    pub pid_file_exists: bool,
    /// Whether the recorded process is alive, where one is recorded.
    pub alive: Option<bool>,
}

/// A daemon seems to run: its socket and the record of its process are there, and
/// the process is alive.
pub open spec fn seems_to_run(t: DaemonTraces) -> bool {
    t.socket_exists && t.pid_file_exists && t.alive == Some(true)
}

/// The names of the profiles whose daemons seem to run, in their order.
pub open spec fn running_names(profiles: Seq<Profile>, seen: Seq<DaemonTraces>) -> Seq<Seq<char>>
    decreases profiles.len(),
{
    if profiles.len() == 0 {
        Seq::empty()
    } else {
        let before = running_names(profiles.drop_last(), seen);
        if seems_to_run(seen[profiles.len() - 1]) {
            before.push(profiles.last().name@)
        } else {
            before
        }
    }
}

/// The names of the profiles whose daemons seem to run. `seen` tells of each profile
/// in turn.
pub fn list_running_daemon_profiles(profiles: &Vec<Profile>, seen: &Vec<DaemonTraces>) -> (r: Vec<
    String,
>)
    requires
        seen@.len() == profiles@.len(),
    ensures
        texts(r@) == running_names(profiles@, seen@),
{
    let mut out: Vec<String> = Vec::new();
    let mut i: usize = 0;
    while i < profiles.len()
        invariant
            i <= profiles@.len(),
            seen@.len() == profiles@.len(),
            texts(out@) =~= running_names(profiles@.take(i as int), seen@),
        decreases profiles.len() - i,
    {
        let t = &seen[i];
        let alive = match t.alive {
            Some(a) => a,
            None => false,
        };
        let ghost before = out@;
        proof {
            assert(profiles@.take(i + 1).drop_last() =~= profiles@.take(i as int));
        }
        if t.socket_exists && t.pid_file_exists && alive {
            out.push(profiles[i].name.clone());
            proof {
                assert(texts(out@) =~= texts(before).push(profiles@[i as int].name@));
            }
        }
        i += 1;
    }
    proof {
        assert(profiles@.take(i as int) =~= profiles@);
    }
    out
}

/// A daemon that answers at the first look runs already, and one that answers later listens;
/// one that does not is started, and looked at twenty times.
pub proof fn a_daemon_is_started_where_none_answers(left: u32)
    ensures
        start_step(Starting::Probe, true) is AlreadyRunning,
        start_step(Starting::Probe, false) == StartStep::Spawn(Starting::Poll(20)),
        left > 0 ==> start_step(Starting::Poll(left), true) is Listening,
        left > 1 ==> start_step(Starting::Poll(left), false) == StartStep::Wait(
            Starting::Poll((left - 1) as u32),
        ),
        left <= 1 ==> start_step(Starting::Poll(left), false) is NotRunning,
{
}

/// A daemon is kept where the provider answers it and knows it under its own name.
pub proof fn healthy_daemons_are_kept(status: DaemonStatus)
    ensures
        healthy(status) <==> status.mattermost_ok && (status.mattermost_identity_drift is None
            || status.mattermost_identity_drift == Some(false)),
{
    match status.mattermost_identity_drift {
        Some(drifted) => {
            if drifted {
                assert(status.mattermost_identity_drift == Some(true));
            } else {
                assert(status.mattermost_identity_drift == Some(false));
            }
        },
        None => {},
    }
}

/// The number of a process is what its file holds, without the space around it.
pub proof fn process_numbers_are_read_back(pid: u32)
    ensures
        recorded_pid(crate::text::decimal_text(pid as nat)) == Some(pid),
        recorded_pid(crate::text::decimal_text(pid as nat) + seq!['\n']) == Some(pid),
{
    let t = crate::text::decimal_text(pid as nat);
    crate::text::written_numbers_are_read_back(pid as nat);
    crate::text::space_is_white_space(t[0]);
    crate::text::space_is_white_space(t.last());
    crate::text::space_is_white_space('\n');
    crate::text::trimming_drops_the_space_around(Seq::empty(), t, Seq::empty());
    assert(Seq::<char>::empty() + t + Seq::<char>::empty() =~= t);
    crate::text::trimming_drops_the_space_around(Seq::empty(), t, seq!['\n']);
    assert(Seq::<char>::empty() + t + seq!['\n'] =~= t + seq!['\n']);
}

/// A daemon runs where its socket and its file are there and its process is alive; the
/// profiles of those that run are listed, and no others.
pub proof fn running_daemons_are_listed(
    profiles: Seq<Profile>,
    seen: Seq<DaemonTraces>,
    name: Seq<char>,
)
    ensures
        running_names(profiles, seen).contains(name) <==> exists|i: int|
            0 <= i < profiles.len() && (#[trigger] profiles[i]).name@ == name
                && seen[i].socket_exists && seen[i].pid_file_exists && seen[i].alive == Some(true),
        running_names(profiles, seen).len() <= profiles.len(),
    decreases profiles.len(),
{
    if profiles.len() > 0 {
        let front = profiles.drop_last();
        running_daemons_are_listed(front, seen, name);
        let all = running_names(profiles, seen);
        let rest = running_names(front, seen);
        let last = profiles.len() - 1;
        if all.contains(name) {
            let k = all.index_of(name);
            if k < rest.len() {
                assert(rest[k] == name);
                let i = choose|i: int|
                    0 <= i < front.len() && (#[trigger] front[i]).name@ == name
                        && seen[i].socket_exists && seen[i].pid_file_exists && seen[i].alive == Some(
                        true,
                    );
                assert(profiles[i].name@ == name);
            } else {
                assert(profiles[last].name@ == name);
            }
        }
        if exists|i: int|
            0 <= i < profiles.len() && (#[trigger] profiles[i]).name@ == name
                && seen[i].socket_exists && seen[i].pid_file_exists && seen[i].alive == Some(true) {
            let i = choose|i: int|
                0 <= i < profiles.len() && (#[trigger] profiles[i]).name@ == name
                    && seen[i].socket_exists && seen[i].pid_file_exists && seen[i].alive == Some(
                    true,
                );
            if i < last {
                assert(front[i].name@ == name);
                let k = rest.index_of(name);
                assert(all[k] == name);
            } else {
                assert(all[all.len() - 1] == name);
            }
        }
    }
}

/// A daemon has ten seconds to come up and three to stop; a look waits two seconds, or three
/// quarters of one after a start, and looks are a quarter of a second apart.
pub proof fn daemons_have_their_time()
    ensures
        SPAWN_READY_DEADLINE_MS == 10_000,
        SHUTDOWN_RPC_TIMEOUT_MS == 3_000,
        PING_TIMEOUT_MS == 2_000,
        POST_SPAWN_PING_TIMEOUT_MS == 750,
        POLL_INTERVAL_MS == 250,
        POLL_TRIES == 20,
{
}

/// A daemon that was started is looked at until it answers, for ten seconds.
pub proof fn started_daemons_are_waited_for(elapsed_ms: u64, answers: Option<bool>, r: ReadyStep)
    requires
        call_ensures(await_ready, (elapsed_ms, answers), r),
    ensures
        r is Started <==> answers == Some(true),
        r is Look <==> answers != Some(true) && elapsed_ms < 10_000,
        r is NotRunning <==> answers != Some(true) && elapsed_ms >= 10_000,
{
}

/// A daemon is asked to stop where its socket is there; one that agrees, or is silent, is looked
/// at twenty times, one that is not running has stopped, and any other refusal is handed on.
pub proof fn daemons_are_asked_to_stop(
    socket_exists: bool,
    first: StopStep,
    answer: StopAnswer,
    r: StopStep,
)
    requires
        call_ensures(stop_begin, (socket_exists,), first),
        call_ensures(stop_answered, (answer,), r),
    ensures
        first is Ask <==> socket_exists,
        first is Done <==> !socket_exists,
        answer is Stopped || answer is TimedOut ==> r == StopStep::Poll(20),
        answer is NotRunning <==> r is Done,
        answer is Failed ==> r == StopStep::Fail(CliError::Daemon(answer->Failed_0)),
{
}

/// A daemon has stopped once its socket is gone; one that outlasts the looks is killed by its
/// number, or reported where the number is unknown.
pub proof fn daemons_that_do_not_stop_are_killed(
    left: u32,
    socket_exists: bool,
    profile: &str,
    pid: Option<u32>,
    r: StopStep,
)
    requires
        left > 0,
        call_ensures(stop_looked, (left, socket_exists, profile, pid), r),
    ensures
        !socket_exists <==> r is Done,
        socket_exists && left > 1 <==> r is Poll,
        r is Poll ==> r->Poll_0 == left - 1,
        r is Kill <==> socket_exists && left == 1 && pid is Some,
        r is Kill ==> Some(r->Kill_0) == pid,
        r is Fail <==> socket_exists && left == 1 && pid is None,
{
}

/// Only a daemon that answers and is healthy keeps running, and one that does not answer is
/// reported by its profile.
pub proof fn silent_daemons_do_not_keep_running(
    status: Option<&DaemonStatus>,
    r: bool,
    profile: &str,
    e: CliError,
)
    requires
        call_ensures(keeps_running, (status,), r),
        call_ensures(not_running, (profile,), e),
    ensures
        r <==> status is Some && healthy(*status->0),
        e is Daemon && e->Daemon_0 is NotRunning && e->Daemon_0->NotRunning_0@ == profile@,
{
}

/// What is said of a daemon.
pub proof fn what_is_said_of_a_daemon(
    profile: &str,
    socket: &str,
    already: String,
    listening: String,
    stopped: String,
)
    requires
        call_ensures(already_running_text, (profile, socket), already),
        call_ensures(listening_text, (profile, socket), listening),
        call_ensures(stopped_text, (profile,), stopped),
    ensures
        already@ == "daemon already running for profile "@ + profile@ + " at "@ + socket@,
        listening@ == "daemon listening for profile "@ + profile@ + " at "@ + socket@,
        stopped@ == "stopped daemon for profile "@ + profile@,
{
}

/// What is said of a daemon that neither stops nor can be killed.
pub proof fn daemons_that_cannot_be_stopped_are_reported(profile: &str, r: StopStep)
    requires
        call_ensures(stop_looked, (1, true, profile, None), r),
    ensures
        r is Fail && r->Fail_0 is Bootstrap && r->Fail_0->Bootstrap_0@ == "daemon for profile "@
            + profile@
            + " did not exit within the shutdown grace window and no pid file was readable for the force-kill fallback"@,
{
}

} // verus!
