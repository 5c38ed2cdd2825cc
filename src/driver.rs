//! The orchestrator: it takes in discovered repositories, filters the
//! blacklisted ones, hands the rest to a fixed number of sync workers, counts
//! every outcome and decides when the run is over.
//!
//! Policy on the failure threshold: once it is reached nothing more is
//! dispatched and queued repositories are dropped, but syncs already in
//! flight are awaited and their outcomes are still counted.
use std::collections::VecDeque;
use vstd::prelude::*;

use crate::config::{is_blacklisted, General, GeneralView};
use crate::git::SyncError;
use crate::repository::{DownloadRepo, GitRepo, GitRepoView};

verus! {

/// Counters of a run.
#[derive(Debug, Clone, Copy, PartialEq, Eq, Default)]
pub struct Statistics {
    pub error_count: usize,
    pub success: usize,
    pub ignored: usize,
    pub total_repos: usize,
}

/// The mathematical view of [`Statistics`].
pub struct StatisticsView {
    pub failed: nat,
    pub succeeded: nat,
    pub ignored: nat,
    pub total: nat,
}

impl View for Statistics {
    type V = StatisticsView;

    open spec fn view(&self) -> StatisticsView {
        StatisticsView {
            failed: self.error_count as nat,
            succeeded: self.success as nat,
            ignored: self.ignored as nat,
            total: self.total_repos as nat,
        }
    }
}

/// Where a run stands.
#[derive(Debug, Clone, Copy, PartialEq, Eq, Structural)]
pub enum Phase {
    /// Providers are being registered; nothing has started.
    Idle,
    /// Repositories are being discovered and synchronised.
    Running,
    /// Every provider is exhausted and every accepted repository has an
    /// outcome.
    Finished,
    /// The failure threshold was reached.
    Aborted,
}

/// What became of a discovered repository.
#[derive(Debug, Clone, PartialEq)]
pub enum Handling {
    /// It is blacklisted, and counted as ignored.
    Ignored,
    /// A worker is free: the request is to be sent now.
    Dispatched(DownloadRepo),
    /// Every worker is busy: it waits for one.
    Queued,
    /// The run is not accepting repositories (not started, or stopped).
    Discarded,
}

/// The outcome of one synchronisation.
#[derive(Debug, PartialEq)]
pub struct Done {
    pub repo: GitRepo,
    pub outcome: Result<(), SyncError>,
}

/// The mathematical view of a [`Driver`].
pub struct DriverView {
    pub config: GeneralView,
    /// How many providers are registered.
    pub providers: nat,
    /// How many providers have not yet been exhausted.
    pub providers_left: nat,
    pub phase: Phase,
    pub stats: StatisticsView,
    /// Syncs handed to a worker whose outcome has not arrived.
    pub in_flight: nat,
    /// Accepted repositories waiting for a free worker, oldest first.
    pub pending: Seq<GitRepoView>,
}

/// Something that happens to a run.
pub enum Event {
    /// The run starts.
    Start,
    /// A provider produced a repository.
    Discovered(GitRepoView),
    /// A sync finished; `true` if it succeeded.
    Done(bool),
    /// A provider has no more repositories (or failed for good).
    ProviderFinished,
}

/// How many syncs may run at once: the configured number of workers, where
/// a pool of none is taken as one.
pub open spec fn slots(c: GeneralView) -> nat {
    if c.threads == 0 {
        1
    } else {
        c.threads
    }
}

/// Whether `failed` failures end the run.
pub open spec fn threshold_reached(c: GeneralView, failed: nat) -> bool {
    c.error_threshold > 0 && failed >= c.error_threshold
}

/// A run of the given settings with `providers` registered providers, before
/// it starts.
pub open spec fn initial(config: GeneralView, providers: nat) -> DriverView {
    DriverView {
        config,
        providers,
        providers_left: 0,
        phase: Phase::Idle,
        stats: StatisticsView { failed: 0, succeeded: 0, ignored: 0, total: 0 },
        in_flight: 0,
        pending: Seq::empty(),
    }
}

/// A running run ends once no provider is left and no sync is outstanding.
pub open spec fn settle(d: DriverView) -> DriverView {
    if d.phase == Phase::Running && d.providers_left == 0 && d.in_flight == 0 && d.pending.len()
        == 0 {
        DriverView { phase: Phase::Finished, ..d }
    } else {
        d
    }
}

/// The outcome `ok` counted, with the sync no longer in flight.
pub open spec fn count_outcome(d: DriverView, ok: bool) -> DriverView {
    DriverView {
        in_flight: (d.in_flight - 1) as nat,
        stats: if ok {
            StatisticsView { succeeded: d.stats.succeeded + 1, ..d.stats }
        } else {
            StatisticsView { failed: d.stats.failed + 1, ..d.stats }
        },
        ..d
    }
}

/// Whether the event can happen in this state.
pub open spec fn enabled(d: DriverView, e: Event) -> bool {
    match e {
        Event::Start => d.phase == Phase::Idle,
        Event::Discovered(_) => true,
        Event::Done(_) => d.in_flight > 0,
        Event::ProviderFinished => d.phase != Phase::Idle && d.providers_left > 0,
    }
}

/// The state after an event.
pub open spec fn step(d: DriverView, e: Event) -> DriverView {
    match e {
        Event::Start => {
            if d.phase == Phase::Idle {
                settle(DriverView { phase: Phase::Running, providers_left: d.providers, ..d })
            } else {
                d
            }
        },
        Event::Discovered(r) => {
            if d.phase != Phase::Running {
                d
            } else if is_blacklisted(d.config.blacklist, r.dest_dir) {
                DriverView {
                    stats: StatisticsView {
                        total: d.stats.total + 1,
                        ignored: d.stats.ignored + 1,
                        ..d.stats
                    },
                    ..d
                }
            } else if d.in_flight < slots(d.config) {
                DriverView {
                    stats: StatisticsView { total: d.stats.total + 1, ..d.stats },
                    in_flight: d.in_flight + 1,
                    ..d
                }
            } else {
                DriverView {
                    stats: StatisticsView { total: d.stats.total + 1, ..d.stats },
                    pending: d.pending.push(r),
                    ..d
                }
            }
        },
        Event::Done(ok) => {
            let c = count_outcome(d, ok);
            if d.phase != Phase::Running {
                c
            } else if !ok && threshold_reached(d.config, c.stats.failed) {
                DriverView { phase: Phase::Aborted, pending: Seq::empty(), ..c }
            } else if c.pending.len() > 0 {
                DriverView { in_flight: c.in_flight + 1, pending: c.pending.drop_first(), ..c }
            } else {
                settle(c)
            }
        },
        Event::ProviderFinished => settle(
            DriverView { providers_left: (d.providers_left - 1) as nat, ..d },
        ),
    }
}

/// The repository that an event hands to a worker, if any.
pub open spec fn dispatched(d: DriverView, e: Event) -> Option<GitRepoView> {
    match e {
        Event::Discovered(r) => {
            if d.phase == Phase::Running && !is_blacklisted(d.config.blacklist, r.dest_dir)
                && d.in_flight < slots(d.config) {
                Some(r)
            } else {
                None
            }
        },
        Event::Done(ok) => {
            if d.phase == Phase::Running && !(!ok && threshold_reached(
                d.config,
                count_outcome(d, ok).stats.failed,
            )) && d.pending.len() > 0 {
                Some(d.pending[0])
            } else {
                None
            }
        },
        _ => None,
    }
}

/// The exit code of a stopped run: `0` when everything succeeded, `1` when
/// some sync failed or the run was abandoned.
pub open spec fn exit_code_of(d: DriverView) -> Option<i32> {
    match d.phase {
        Phase::Finished => Some(if d.stats.failed == 0 { 0i32 } else { 1i32 }),
        Phase::Aborted => Some(1i32),
        _ => None,
    }
}

impl DriverView {
    /// What holds of every state a run can reach.
    pub open spec fn inv(self) -> bool {
        &&& self.in_flight <= slots(self.config)
        &&& self.providers_left <= self.providers
        &&& (self.phase == Phase::Running && self.pending.len() > 0 ==> self.in_flight == slots(
            self.config,
        ))
        &&& (self.phase != Phase::Running ==> self.pending.len() == 0)
        &&& (self.phase == Phase::Idle ==> self.in_flight == 0 && self.providers_left == 0
            && self.stats.total == 0
            && self.stats.ignored == 0 && self.stats.succeeded == 0 && self.stats.failed == 0)
        &&& (self.phase != Phase::Aborted ==> self.stats.total == self.stats.ignored
            + self.stats.succeeded + self.stats.failed + self.in_flight + self.pending.len())
        &&& (self.phase == Phase::Aborted ==> self.stats.ignored + self.stats.succeeded
            + self.stats.failed + self.in_flight <= self.stats.total)
        &&& ((self.phase == Phase::Aborted) <==> threshold_reached(self.config, self.stats.failed))
        &&& (self.phase == Phase::Finished ==> self.providers_left == 0 && self.in_flight == 0)
        &&& forall|i: int|
            0 <= i < self.pending.len() ==> !is_blacklisted(
                self.config.blacklist,
                #[trigger] self.pending[i].dest_dir,
            )
    }
}

/// Every step from a state of a run leads to a state of a run.
pub proof fn lemma_step_inv(d: DriverView, e: Event)
    requires
        d.inv(),
        enabled(d, e),
    ensures
        step(d, e).inv(),
{
    match e {
        Event::Done(ok) => {
            let c = count_outcome(d, ok);
            if d.phase == Phase::Running && !(!ok && threshold_reached(d.config, c.stats.failed))
                && c.pending.len() > 0 {
                let n = step(d, e);
                assert forall|i: int| 0 <= i < n.pending.len() implies !is_blacklisted(
                    n.config.blacklist,
                    #[trigger] n.pending[i].dest_dir,
                ) by {
                    assert(n.pending[i] == d.pending[i + 1]);
                }
            }
        },
        Event::Discovered(r) => {
            let n = step(d, e);
            if d.phase == Phase::Running && !is_blacklisted(d.config.blacklist, r.dest_dir)
                && d.in_flight >= slots(d.config) {
                assert forall|i: int| 0 <= i < n.pending.len() implies !is_blacklisted(
                    n.config.blacklist,
                    #[trigger] n.pending[i].dest_dir,
                ) by {
                    if i < d.pending.len() {
                        assert(n.pending[i] == d.pending[i]);
                    }
                }
            }
        },
        _ => {},
    }
}

/// The state after a sequence of events.
pub open spec fn run(d: DriverView, events: Seq<Event>) -> DriverView
    decreases events.len(),
{
    if events.len() == 0 {
        d
    } else {
        run(step(d, events[0]), events.drop_first())
    }
}

/// Whether each event of the sequence can happen in the state it meets.
pub open spec fn valid_run(d: DriverView, events: Seq<Event>) -> bool
    decreases events.len(),
{
    events.len() == 0 || (enabled(d, events[0]) && valid_run(
        step(d, events[0]),
        events.drop_first(),
    ))
}

/// A run never changes its settings, and only reaches states of a run.
pub proof fn lemma_run_inv(d: DriverView, events: Seq<Event>)
    requires
        d.inv(),
        valid_run(d, events),
    ensures
        run(d, events).inv(),
        run(d, events).config == d.config,
    decreases events.len(),
{
    if events.len() > 0 {
        lemma_step_inv(d, events[0]);
        lemma_run_inv(step(d, events[0]), events.drop_first());
    }
}

/// Every run that ends without being abandoned has counted every repository
/// it discovered exactly once: as ignored, succeeded or failed.
pub proof fn lemma_completeness(config: GeneralView, providers: nat, events: Seq<Event>)
    requires
        valid_run(initial(config, providers), events),
        run(initial(config, providers), events).phase == Phase::Finished,
    ensures
        ({
            let s = run(initial(config, providers), events).stats;
            s.total == s.ignored + s.succeeded + s.failed
        }),
{
    lemma_run_inv(initial(config, providers), events);
}

/// In every state of a run, whatever happens next: a blacklisted repository
/// is never handed to a worker, and one discovered while the run is going
/// is counted as ignored.
pub proof fn lemma_blacklist_respected(
    config: GeneralView,
    providers: nat,
    events: Seq<Event>,
    e: Event,
)
    requires
        valid_run(initial(config, providers), events),
        enabled(run(initial(config, providers), events), e),
    ensures
        ({
            let d = run(initial(config, providers), events);
            &&& dispatched(d, e) is Some ==> !is_blacklisted(
                config.blacklist,
                dispatched(d, e)->0.dest_dir,
            )
            &&& (e is Discovered && is_blacklisted(config.blacklist, e->Discovered_0.dest_dir)
                && d.phase == Phase::Running) ==> step(d, e).stats.ignored == d.stats.ignored
                + 1 && step(d, e).stats.total == d.stats.total + 1 && step(d, e).in_flight
                == d.in_flight && step(d, e).pending == d.pending
        }),
{
    lemma_run_inv(initial(config, providers), events);
}

/// Once `error_threshold` failures are counted (with a threshold above
/// zero) the run is abandoned: nothing more is handed to a worker, the run
/// stays abandoned, and syncs still in flight are counted when they end.
pub proof fn lemma_threshold_cutoff(
    config: GeneralView,
    providers: nat,
    events: Seq<Event>,
    e: Event,
)
    requires
        valid_run(initial(config, providers), events),
        config.error_threshold > 0,
        run(initial(config, providers), events).stats.failed >= config.error_threshold,
        enabled(run(initial(config, providers), events), e),
    ensures
        ({
            let d = run(initial(config, providers), events);
            &&& d.phase == Phase::Aborted
            &&& exit_code_of(d) == Some(1i32)
            &&& dispatched(d, e) is None
            &&& step(d, e).phase == Phase::Aborted
            &&& step(d, e).pending.len() == 0
            &&& e is Done ==> step(d, e).stats.succeeded + step(d, e).stats.failed
                == d.stats.succeeded + d.stats.failed + 1
        }),
{
    lemma_run_inv(initial(config, providers), events);
}

/// The failure that reaches the threshold abandons the run at once.
pub proof fn lemma_threshold_reached_aborts(config: GeneralView, providers: nat, events: Seq<Event>)
    requires
        valid_run(initial(config, providers), events),
        config.error_threshold > 0,
        enabled(run(initial(config, providers), events), Event::Done(false)),
        run(initial(config, providers), events).stats.failed + 1 >= config.error_threshold,
    ensures
        step(run(initial(config, providers), events), Event::Done(false)).phase == Phase::Aborted,
        exit_code_of(step(run(initial(config, providers), events), Event::Done(false))) == Some(
            1i32,
        ),
{
    lemma_run_inv(initial(config, providers), events);
    lemma_step_inv(run(initial(config, providers), events), Event::Done(false));
}

/// How many of the events are outcomes with the given success.
pub open spec fn outcome_count(events: Seq<Event>, ok: bool) -> nat
    decreases events.len(),
{
    if events.len() == 0 {
        0
    } else {
        outcome_count(events.drop_first(), ok) + if events[0] == Event::Done(ok) {
            1nat
        } else {
            0nat
        }
    }
}

/// Each outcome is counted once, whenever it arrives: a run's success and
/// failure counters are the numbers of successful and failed syncs it was
/// told of, in whatever order they came. So two runs whose syncs all
/// succeed again report the same number of successes.
pub proof fn lemma_outcomes_counted(d: DriverView, events: Seq<Event>)
    ensures
        run(d, events).stats.succeeded == d.stats.succeeded + outcome_count(events, true),
        run(d, events).stats.failed == d.stats.failed + outcome_count(events, false),
    decreases events.len(),
{
    if events.len() > 0 {
        lemma_outcomes_counted(step(d, events[0]), events.drop_first());
    }
}

/// The orchestrator of a backup run.
pub struct Driver {
    config: General,
    providers: Vec<String>,
    providers_left: usize,
    phase: Phase,
    stats: Statistics,
    in_flight: usize,
    pending: VecDeque<GitRepo>,
}

impl View for Driver {
    type V = DriverView;

    closed spec fn view(&self) -> DriverView {
        DriverView {
            config: self.config@,
            providers: self.providers@.len(),
            providers_left: self.providers_left as nat,
            phase: self.phase,
            stats: self.stats@,
            in_flight: self.in_flight as nat,
            pending: self.pending@.map_values(|r: GitRepo| r@),
        }
    }
}

impl Driver {
    /// Whether the driver is in a state that a run can reach.
    pub open spec fn wf(&self) -> bool {
        self@.inv()
    }

    /// A driver for a run with these settings, with no provider yet.
    pub fn new(config: General) -> (r: Driver)
        ensures
            r@ == initial(config@, 0),
            r.wf(),
    {
        let r = Driver {
            config,
            providers: Vec::new(),
            providers_left: 0,
            phase: Phase::Idle,
            stats: Statistics { error_count: 0, success: 0, ignored: 0, total_repos: 0 },
            in_flight: 0,
            pending: VecDeque::new(),
        };
        assert(r@.pending =~= Seq::empty());
        r
    }

    /// Registers a provider by name; its repositories are expected once the
    /// run has started.
    pub fn register(&mut self, name: String)
        requires
            old(self).wf(),
            old(self)@.phase == Phase::Idle,
        ensures
            final(self)@ == initial(old(self)@.config, old(self)@.providers + 1),
            final(self).wf(),
    {
        self.providers.push(name);
        assert(self@.pending =~= Seq::empty());
    }

    /// The names of the registered providers, in registration order.
    pub fn providers(&self) -> (r: &Vec<String>)
        ensures
            r@.len() == self@.providers,
    {
        &self.providers
    }

    /// Ends the run when nothing is left to wait for.
    fn settle(&mut self)
        requires
            old(self)@.inv() || old(self)@.phase == Phase::Running,
        ensures
            final(self)@ == settle(old(self)@),
            final(self).config == old(self).config,
    {
        if self.phase == Phase::Running && self.providers_left == 0 && self.in_flight == 0
            && self.pending.len() == 0 {
            self.phase = Phase::Finished;
        }
    }

    /// The number of syncs that may run at once.
    pub fn slots(&self) -> (r: usize)
        ensures
            r == slots(self@.config),
    {
        if self.config.threads == 0 {
            1
        } else {
            self.config.threads
        }
    }

    /// Starts the run. Returns the exit code if there is nothing to do.
    pub fn started(&mut self) -> (r: Option<i32>)
        requires
            old(self).wf(),
            old(self)@.phase == Phase::Idle,
        ensures
            final(self)@ == step(old(self)@, Event::Start),
            final(self).wf(),
            r == exit_code_of(final(self)@),
    {
        proof {
            lemma_step_inv(self@, Event::Start);
        }
        self.phase = Phase::Running;
        self.providers_left = self.providers.len();
        self.settle();
        self.exit_code()
    }

    /// Takes in a repository that a provider discovered.
    pub fn handle(&mut self, repo: GitRepo) -> (r: Handling)
        requires
            old(self).wf(),
            old(self)@.stats.total < usize::MAX,
        ensures
            final(self)@ == step(old(self)@, Event::Discovered(repo@)),
            final(self).wf(),
            match r {
                Handling::Dispatched(req) => dispatched(old(self)@, Event::Discovered(repo@))
                    == Some(req.0@) && req.0 == repo,
                _ => dispatched(old(self)@, Event::Discovered(repo@)) is None,
            },
            r is Discarded <==> old(self)@.phase != Phase::Running,
            r is Ignored <==> old(self)@.phase == Phase::Running && is_blacklisted(
                old(self)@.config.blacklist,
                repo@.dest_dir,
            ),
    {
        proof {
            lemma_step_inv(self@, Event::Discovered(repo@));
        }
        if self.phase != Phase::Running {
            return Handling::Discarded;
        }
        self.stats.total_repos = self.stats.total_repos + 1;
        if self.config.is_blacklisted(repo.dest_dir.as_str()) {
            self.stats.ignored = self.stats.ignored + 1;
            return Handling::Ignored;
        }
        if self.in_flight < self.slots() {
            self.in_flight = self.in_flight + 1;
            Handling::Dispatched(DownloadRepo(repo))
        } else {
            let ghost before = self.pending@;
            self.pending.push_back(repo);
            assert(self.pending@.map_values(|r: GitRepo| r@) =~= before.map_values(
                |r: GitRepo| r@,
            ).push(repo@));
            Handling::Queued
        }
    }

    /// Takes in the outcome of a sync. Returns the queued repository that
    /// the freed worker is to take next, if any.
    pub fn handle_done(&mut self, done: Done) -> (r: Option<DownloadRepo>)
        requires
            old(self).wf(),
            old(self)@.in_flight > 0,
        ensures
            final(self)@ == step(old(self)@, Event::Done(done.outcome is Ok)),
            final(self).wf(),
            match r {
                Some(req) => dispatched(old(self)@, Event::Done(done.outcome is Ok)) == Some(
                    req.0@,
                ),
                None => dispatched(old(self)@, Event::Done(done.outcome is Ok)) is None,
            },
    {
        let ghost ok = done.outcome is Ok;
        proof {
            lemma_step_inv(self@, Event::Done(ok));
        }
        self.in_flight = self.in_flight - 1;
        let succeeded = done.outcome.is_ok();
        if succeeded {
            self.stats.success = self.stats.success + 1;
        } else {
            self.stats.error_count = self.stats.error_count + 1;
        }
        if self.phase != Phase::Running {
            return None;
        }
        if !succeeded && self.config.error_threshold > 0 && self.stats.error_count
            >= self.config.error_threshold {
            self.phase = Phase::Aborted;
            self.pending = VecDeque::new();
            assert(self@.pending =~= Seq::empty());
            return None;
        }
        let ghost before = self.pending@;
        match self.pending.pop_front() {
            Some(next) => {
                self.in_flight = self.in_flight + 1;
                assert(self.pending@.map_values(|r: GitRepo| r@) =~= before.map_values(
                    |r: GitRepo| r@,
                ).drop_first());
                Some(DownloadRepo(next))
            },
            None => {
                self.settle();
                None
            },
        }
    }

    /// Records that a provider has no more repositories to offer, whether
    /// it ran out or failed. Returns the exit code if the run is over.
    pub fn finished(&mut self) -> (r: Option<i32>)
        requires
            old(self).wf(),
            old(self)@.phase != Phase::Idle,
            old(self)@.providers_left > 0,
        ensures
            final(self)@ == step(old(self)@, Event::ProviderFinished),
            final(self).wf(),
            r == exit_code_of(final(self)@),
    {
        proof {
            lemma_step_inv(self@, Event::ProviderFinished);
        }
        self.providers_left = self.providers_left - 1;
        self.settle();
        self.exit_code()
    }

    /// The exit code, once the run has stopped.
    pub fn exit_code(&self) -> (r: Option<i32>)
        ensures
            r == exit_code_of(self@),
    {
        match self.phase {
            Phase::Finished => {
                if self.stats.error_count == 0 {
                    Some(0)
                } else {
                    Some(1)
                }
            },
            Phase::Aborted => Some(1),
            _ => None,
        }
    }

    /// The counters so far.
    pub fn statistics(&self) -> (r: Statistics)
        ensures
            r@ == self@.stats,
    {
        self.stats
    }

    /// Where the run stands.
    pub fn phase(&self) -> (r: Phase)
        ensures
            r == self@.phase,
    {
        self.phase
    }

    /// How many syncs are running.
    pub fn in_flight(&self) -> (r: usize)
        ensures
            r == self@.in_flight,
    {
        self.in_flight
    }

    /// How many providers are not yet exhausted.
    pub fn providers_left(&self) -> (r: usize)
        ensures
            r == self@.providers_left,
    {
        self.providers_left
    }
}

} // verus!
