//! The cadence scheduler: one base tick drives the two remote actions in a
//! fixed order and, every twelve hours since the schedule epoch, a
//! fire-and-forget launch of the scanner.
//!
//! The scheduler is a state machine from a phase and an event to the next
//! phase and a command. The caller performs each command (a remote call, a
//! clock read, a launch, a wait) and reports back with the matching event.

use vstd::prelude::*;
use crate::config::{
    Config, ConfigError, config_error_for, get_id_server_url, load_config, server_url_for,
};
use crate::remote::{ActionKind, RemoteRequest, build_request, method_of, path_of, key_header_name};
use crate::scanner::{ScannerCommand, scanner_command, scanner_program, entry_suffix, scanner_mode};

verus! {

/// Length of the scanner's cadence, in hours.
pub const CADENCE_HOURS: u64 = 12;

/// Interval between base ticks, in seconds.
pub const TICK_INTERVAL_SECS: u64 = 600;

/// The scanner is due when the hours elapsed since the epoch are a multiple
/// of the cadence. A clock set back before the epoch gives a negative
/// elapsed count, to which the same rule applies.
pub open spec fn due_at(epoch_hours: u64, current_hours: u64) -> bool {
    (current_hours as int - epoch_hours as int) % (CADENCE_HOURS as int) == 0
}

/// Whether the scanner is due after `elapsed` whole hours.
pub fn scanner_due_after(elapsed: u64) -> (r: bool)
    ensures
        r == (elapsed % CADENCE_HOURS == 0),
{
    elapsed % CADENCE_HOURS == 0
}

/// Where the scheduler stands within a tick.
#[derive(Clone, Copy, Debug, PartialEq, Eq, Structural)]
pub enum Phase {
    /// Waiting for the next base tick.
    AwaitingTick,
    /// The deletion call is in flight.
    Deleting,
    /// The transfer call is in flight.
    Transferring,
    /// Both calls are done; waiting for the current hour.
    ReadingClock,
}

/// What the caller reports to the scheduler. The outcome of a remote call is
/// deliberately absent: it is logged by the caller and never steers the
/// schedule.
#[derive(Clone, Copy, Debug, PartialEq, Eq, Structural)]
pub enum Event {
    /// A base tick arrived.
    Tick,
    /// The remote call last asked for has finished, whatever its outcome.
    ActionFinished,
    /// The clock was read: whole hours since the Unix epoch, or `None` when
    /// it could not be read.
    HourRead { current_hours: Option<u64> },
}

/// What the scheduler asks the caller to do next.
#[derive(Clone, Copy, Debug, PartialEq, Eq, Structural)]
pub enum Command {
    /// Perform this remote call and wait for it to finish.
    Invoke { kind: ActionKind },
    /// Read the current hour.
    ReadClock,
    /// Start the scanner without waiting for it, then wait for the next tick.
    LaunchScanner,
    /// Wait for the next tick.
    AwaitTick,
    /// The event does not belong to this phase: nothing to do.
    Ignore,
}

/// The transition function of the scheduler.
pub open spec fn next(epoch_hours: u64, phase: Phase, event: Event) -> (Phase, Command) {
    match (phase, event) {
        (Phase::AwaitingTick, Event::Tick) => (
            Phase::Deleting,
            Command::Invoke { kind: ActionKind::DeleteUserData },
        ),
        (Phase::Deleting, Event::ActionFinished) => (
            Phase::Transferring,
            Command::Invoke { kind: ActionKind::TransferFunds },
        ),
        (Phase::Transferring, Event::ActionFinished) => (Phase::ReadingClock, Command::ReadClock),
        (Phase::ReadingClock, Event::HourRead { current_hours }) => (
            Phase::AwaitingTick,
            match current_hours {
                Some(h) if due_at(epoch_hours, h) => Command::LaunchScanner,
                _ => Command::AwaitTick,
            },
        ),
        _ => (phase, Command::Ignore),
    }
}

/// Replays `events` from `phase`: the phase reached and the commands issued,
/// one per event.
pub open spec fn run(epoch_hours: u64, phase: Phase, events: Seq<Event>) -> (Phase, Seq<Command>)
    decreases events.len(),
{
    if events.len() == 0 {
        (phase, Seq::empty())
    } else {
        let before = run(epoch_hours, phase, events.drop_last());
        let last = next(epoch_hours, before.0, events.last());
        (last.0, before.1.push(last.1))
    }
}

/// The events of one complete tick in which the clock reads `hour`.
pub open spec fn tick_events(hour: Option<u64>) -> Seq<Event> {
    seq![Event::Tick, Event::ActionFinished, Event::ActionFinished, Event::HourRead { current_hours: hour }]
}

/// The commands of one complete tick: delete, then transfer, then a clock
/// read, then either a scanner launch or a plain wait.
pub open spec fn tick_commands(epoch_hours: u64, hour: Option<u64>) -> Seq<Command> {
    seq![
        Command::Invoke { kind: ActionKind::DeleteUserData },
        Command::Invoke { kind: ActionKind::TransferFunds },
        Command::ReadClock,
        match hour {
            Some(h) if due_at(epoch_hours, h) => Command::LaunchScanner,
            _ => Command::AwaitTick,
        },
    ]
}

/// The events of consecutive ticks whose clock readings are `hours`.
pub open spec fn session_events(hours: Seq<Option<u64>>) -> Seq<Event>
    decreases hours.len(),
{
    if hours.len() == 0 {
        Seq::empty()
    } else {
        session_events(hours.drop_last()) + tick_events(hours.last())
    }
}

/// The commands of consecutive ticks whose clock readings are `hours`.
pub open spec fn session_commands(epoch_hours: u64, hours: Seq<Option<u64>>) -> Seq<Command>
    decreases hours.len(),
{
    if hours.len() == 0 {
        Seq::empty()
    } else {
        session_commands(epoch_hours, hours.drop_last()) + tick_commands(epoch_hours, hours.last())
    }
}

/// Replaying a concatenation of event logs is replaying the first, then the
/// second from where the first left off.
pub proof fn lemma_run_append(epoch_hours: u64, phase: Phase, a: Seq<Event>, b: Seq<Event>)
    ensures
        run(epoch_hours, phase, a + b) == (
            run(epoch_hours, run(epoch_hours, phase, a).0, b).0,
            run(epoch_hours, phase, a).1 + run(epoch_hours, run(epoch_hours, phase, a).0, b).1,
        ),
    decreases b.len(),
{
    let mid = run(epoch_hours, phase, a).0;
    if b.len() == 0 {
        assert(a + b =~= a);
        assert(run(epoch_hours, phase, a).1 + run(epoch_hours, mid, b).1 =~= run(epoch_hours, phase, a).1);
    } else {
        lemma_run_append(epoch_hours, phase, a, b.drop_last());
        assert((a + b).drop_last() =~= a + b.drop_last());
        assert((a + b).last() == b.last());
        let left = run(epoch_hours, phase, a).1;
        let rest = run(epoch_hours, mid, b.drop_last()).1;
        let last = next(epoch_hours, run(epoch_hours, mid, b.drop_last()).0, b.last());
        assert((left + rest).push(last.1) =~= left + rest.push(last.1));
    }
}

/// Every tick, whatever the outcomes of its remote calls, asks for the
/// deletion, then the transfer, then the clock, then launches the scanner or
/// waits, and ends waiting for the next tick.
pub proof fn lemma_tick_order(epoch_hours: u64, hour: Option<u64>)
    ensures
        run(epoch_hours, Phase::AwaitingTick, tick_events(hour)) == (
            Phase::AwaitingTick,
            tick_commands(epoch_hours, hour),
        ),
{
    let evs = tick_events(hour);
    let start = Phase::AwaitingTick;
    let s0 = Seq::<Event>::empty();
    let s1 = s0.push(Event::Tick);
    let s2 = s1.push(Event::ActionFinished);
    let s3 = s2.push(Event::ActionFinished);
    assert(s1.drop_last() =~= s0);
    assert(s2.drop_last() =~= s1);
    assert(s3.drop_last() =~= s2);
    assert(evs.drop_last() =~= s3);
    assert(run(epoch_hours, start, s0).0 == start);
    assert(run(epoch_hours, start, s1).0 == Phase::Deleting);
    assert(run(epoch_hours, start, s2).0 == Phase::Transferring);
    assert(run(epoch_hours, start, s3).0 == Phase::ReadingClock);
    assert(run(epoch_hours, start, evs).1 =~= tick_commands(epoch_hours, hour));
}

/// Over any number of consecutive ticks, each tick issues its commands in
/// the fixed order and hands over to the next tick: no tick is skipped or
/// reordered, whatever the remote calls returned.
pub proof fn lemma_session(epoch_hours: u64, hours: Seq<Option<u64>>)
    ensures
        run(epoch_hours, Phase::AwaitingTick, session_events(hours)) == (
            Phase::AwaitingTick,
            session_commands(epoch_hours, hours),
        ),
    decreases hours.len(),
{
    if hours.len() == 0 {
    } else {
        lemma_session(epoch_hours, hours.drop_last());
        lemma_run_append(epoch_hours, Phase::AwaitingTick, session_events(hours.drop_last()), tick_events(hours.last()));
        lemma_tick_order(epoch_hours, hours.last());
    }
}

/// How many times `c` occurs in `cs`.
pub open spec fn count_of(cs: Seq<Command>, c: Command) -> nat
    decreases cs.len(),
{
    if cs.len() == 0 {
        0
    } else {
        count_of(cs.drop_last(), c) + if cs.last() == c {
            1nat
        } else {
            0nat
        }
    }
}

/// How many of the clock readings `hours` fall on the cadence.
pub open spec fn due_readings(epoch_hours: u64, hours: Seq<Option<u64>>) -> nat
    decreases hours.len(),
{
    if hours.len() == 0 {
        0
    } else {
        due_readings(epoch_hours, hours.drop_last()) + match hours.last() {
            Some(h) if due_at(epoch_hours, h) => 1nat,
            _ => 0nat,
        }
    }
}

proof fn lemma_count_append(a: Seq<Command>, b: Seq<Command>, c: Command)
    ensures
        count_of(a + b, c) == count_of(a, c) + count_of(b, c),
    decreases b.len(),
{
    if b.len() == 0 {
        assert(a + b =~= a);
    } else {
        lemma_count_append(a, b.drop_last(), c);
        assert((a + b).drop_last() =~= a + b.drop_last());
    }
}

proof fn lemma_tick_counts(epoch_hours: u64, hour: Option<u64>, c: Command)
    ensures
        count_of(tick_commands(epoch_hours, hour), c) == count_of(
            tick_commands(epoch_hours, hour).drop_last(),
            c,
        ) + if tick_commands(epoch_hours, hour).last() == c {
            1nat
        } else {
            0nat
        },
        count_of(tick_commands(epoch_hours, hour).drop_last(), c) == (if c == (Command::Invoke {
            kind: ActionKind::DeleteUserData,
        }) {
            1nat
        } else {
            0nat
        }) + (if c == (Command::Invoke { kind: ActionKind::TransferFunds }) {
            1nat
        } else {
            0nat
        }) + (if c == Command::ReadClock {
            1nat
        } else {
            0nat
        }),
{
    let t = tick_commands(epoch_hours, hour);
    let p0 = Seq::<Command>::empty();
    let p1 = p0.push(Command::Invoke { kind: ActionKind::DeleteUserData });
    let p2 = p1.push(Command::Invoke { kind: ActionKind::TransferFunds });
    let p3 = p2.push(Command::ReadClock);
    assert(p1.drop_last() =~= p0);
    assert(p2.drop_last() =~= p1);
    assert(p3.drop_last() =~= p2);
    assert(t.drop_last() =~= p3);
    assert(count_of(p0, c) == 0);
    assert(count_of(p1, c) == count_of(p0, c) + if p1.last() == c { 1nat } else { 0nat });
    assert(count_of(p2, c) == count_of(p1, c) + if p2.last() == c { 1nat } else { 0nat });
    assert(count_of(p3, c) == count_of(p2, c) + if p3.last() == c { 1nat } else { 0nat });
}

/// Over any run of consecutive ticks, the deletion and the transfer are each
/// asked for once per tick, and the scanner is launched once per clock
/// reading that falls on the cadence.
pub proof fn lemma_session_counts(epoch_hours: u64, hours: Seq<Option<u64>>)
    ensures
        count_of(session_commands(epoch_hours, hours), Command::Invoke { kind: ActionKind::DeleteUserData })
            == hours.len(),
        count_of(session_commands(epoch_hours, hours), Command::Invoke { kind: ActionKind::TransferFunds })
            == hours.len(),
        count_of(session_commands(epoch_hours, hours), Command::LaunchScanner) == due_readings(
            epoch_hours,
            hours,
        ),
    decreases hours.len(),
{
    if hours.len() > 0 {
        let rest = hours.drop_last();
        let h = hours.last();
        lemma_session_counts(epoch_hours, rest);
        let d = Command::Invoke { kind: ActionKind::DeleteUserData };
        let t = Command::Invoke { kind: ActionKind::TransferFunds };
        let l = Command::LaunchScanner;
        lemma_count_append(session_commands(epoch_hours, rest), tick_commands(epoch_hours, h), d);
        lemma_count_append(session_commands(epoch_hours, rest), tick_commands(epoch_hours, h), t);
        lemma_count_append(session_commands(epoch_hours, rest), tick_commands(epoch_hours, h), l);
        lemma_tick_counts(epoch_hours, h, d);
        lemma_tick_counts(epoch_hours, h, t);
        lemma_tick_counts(epoch_hours, h, l);
    }
}

/// A scanner launch hands control straight back: the scheduler is then
/// waiting for the next tick, which starts the deletion call at once. No
/// event reports the scanner's exit, so nothing ever waits for it.
pub proof fn lemma_launch_does_not_block(epoch_hours: u64, current_hours: u64)
    requires
        due_at(epoch_hours, current_hours),
    ensures
        next(epoch_hours, Phase::ReadingClock, Event::HourRead { current_hours: Some(current_hours) })
            == (Phase::AwaitingTick, Command::LaunchScanner),
        next(epoch_hours, Phase::AwaitingTick, Event::Tick) == (
            Phase::Deleting,
            Command::Invoke { kind: ActionKind::DeleteUserData },
        ),
{
}

/// Once the clock has not gone back past the epoch, the scanner is due
/// exactly when the elapsed hours are a multiple of the cadence, the first
/// reading at the epoch itself included.
pub proof fn lemma_due_iff_multiple(epoch_hours: u64, current_hours: u64)
    requires
        epoch_hours <= current_hours,
    ensures
        due_at(epoch_hours, current_hours) == ((current_hours - epoch_hours) as int % CADENCE_HOURS as int == 0),
        due_at(epoch_hours, epoch_hours),
{
}

/// Without every required setting the daemon never gets a scheduler, so not
/// a single tick, and no remote call, ever happens.
pub proof fn lemma_missing_setting_refused(
    environment: Option<String>,
    admin_api_key: Option<String>,
    scanner_dir: Option<String>,
)
    requires
        environment is None || admin_api_key is None || scanner_dir is None,
    ensures
        config_error_for(environment, admin_api_key, scanner_dir) is Some,
{
}

/// The scheduler of one process: its configuration and the hour at which it
/// started, both fixed for its lifetime.
pub struct Scheduler {
    pub config: Config,
    pub epoch_hours: u64,
}

impl Scheduler {
    /// A scheduler whose epoch is `epoch_hours`.
    pub fn new(config: Config, epoch_hours: u64) -> (r: Scheduler)
        ensures
            r.config == config,
            r.epoch_hours == epoch_hours,
    {
        Scheduler { config, epoch_hours }
    }

    /// Validates the raw settings and, when all are present, starts a
    /// scheduler whose epoch is `epoch_hours`.
    pub fn start(
        environment: Option<String>,
        admin_api_key: Option<String>,
        scanner_dir: Option<String>,
        epoch_hours: u64,
    ) -> (r: Result<Scheduler, ConfigError>)
        ensures
            match config_error_for(environment, admin_api_key, scanner_dir) {
                Some(e) => r matches Err(f) && f == e,
                None => r matches Ok(s) && s.epoch_hours == epoch_hours && Some(s.config.environment)
                    == environment && Some(s.config.admin_api_key) == admin_api_key && Some(
                    s.config.scanner_dir,
                ) == scanner_dir,
            },
    {
        match load_config(environment, admin_api_key, scanner_dir) {
            Ok(config) => Ok(Scheduler::new(config, epoch_hours)),
            Err(e) => Err(e),
        }
    }

    /// Whether the scanner is due when the clock reads `current_hours`.
    pub fn scanner_due(&self, current_hours: u64) -> (r: bool)
        ensures
            r == due_at(self.epoch_hours, current_hours),
    {
        if current_hours >= self.epoch_hours {
            scanner_due_after(current_hours - self.epoch_hours)
        } else {
            scanner_due_after(self.epoch_hours - current_hours)
        }
    }

    /// One transition: the next phase and the command to carry out.
    pub fn step(&self, phase: Phase, event: Event) -> (r: (Phase, Command))
        ensures
            r == next(self.epoch_hours, phase, event),
    {
        match (phase, event) {
            (Phase::AwaitingTick, Event::Tick) => (
                Phase::Deleting,
                Command::Invoke { kind: ActionKind::DeleteUserData },
            ),
            (Phase::Deleting, Event::ActionFinished) => (
                Phase::Transferring,
                Command::Invoke { kind: ActionKind::TransferFunds },
            ),
            (Phase::Transferring, Event::ActionFinished) => (Phase::ReadingClock, Command::ReadClock),
            (Phase::ReadingClock, Event::HourRead { current_hours }) => {
                let command = match current_hours {
                    Some(h) => if self.scanner_due(h) {
                        Command::LaunchScanner
                    } else {
                        Command::AwaitTick
                    },
                    None => Command::AwaitTick,
                };
                (Phase::AwaitingTick, command)
            },
            _ => (phase, Command::Ignore),
        }
    }

    /// Replays `events` from `phase`, as a caller driven by these events
    /// would see it: the final phase and the commands issued.
    pub fn run(&self, phase: Phase, events: &Vec<Event>) -> (r: (Phase, Vec<Command>))
        ensures
            r.0 == run(self.epoch_hours, phase, events@).0,
            r.1@ == run(self.epoch_hours, phase, events@).1,
    {
        let mut current = phase;
        let mut commands: Vec<Command> = Vec::new();
        let mut i: usize = 0;
        while i < events.len()
            invariant
                i <= events@.len(),
                current == run(self.epoch_hours, phase, events@.subrange(0, i as int)).0,
                commands@ == run(self.epoch_hours, phase, events@.subrange(0, i as int)).1,
            decreases events@.len() - i,
        {
            let ghost done = events@.subrange(0, i as int);
            let (p, c) = self.step(current, events[i]);
            current = p;
            commands.push(c);
            i = i + 1;
            proof {
                let now = events@.subrange(0, i as int);
                assert(now.drop_last() =~= done);
            }
        }
        assert(events@.subrange(0, i as int) =~= events@);
        (current, commands)
    }

    /// The call to make for `kind`, against the service that the configured
    /// mode selects and with the configured credential.
    pub fn request_for(&self, kind: ActionKind) -> (r: RemoteRequest)
        ensures
            r.method == method_of(kind),
            r.url@ == server_url_for(self.config.environment@) + path_of(kind),
            r.key_header@ == key_header_name(),
            r.api_key@ == self.config.admin_api_key@,
    {
        let base = get_id_server_url(self.config.environment.as_str());
        build_request(kind, base.as_str(), self.config.admin_api_key.as_str())
    }

    /// The scanner process for the configured installation.
    pub fn scanner(&self) -> (r: ScannerCommand)
        ensures
            r.program@ == scanner_program(),
            r.args@.len() == 2,
            r.args@[0]@ == self.config.scanner_dir@ + entry_suffix(),
            r.args@[1]@ == scanner_mode(),
    {
        scanner_command(self.config.scanner_dir.as_str())
    }
}

} // verus!
