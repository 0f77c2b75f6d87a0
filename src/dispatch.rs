use vstd::prelude::*;

verus! {

/// The worker run for each connection when no command line is given.
pub const DEFAULT_WORKER: &'static str = "/usr/sbin/approx";

/// The command line to run for each connection: the one given, or the
/// default worker with no arguments.
pub fn worker_command(given: Vec<String>) -> (r: Vec<String>)
    ensures
        given@.len() > 0 ==> r@ == given@,
        given@.len() == 0 ==> r@.len() == 1 && r@[0]@ == DEFAULT_WORKER@,
{
    if given.len() > 0 {
        given
    } else {
        let mut r = Vec::new();
        r.push(String::from_str(DEFAULT_WORKER));
        r
    }
}

/// Where the accept loop stands.
#[derive(Clone, Copy, Debug, PartialEq, Eq, Structural)]
pub enum Phase {
    /// Waiting for the next connection.
    Accepting,
    /// Holding a connection whose three duplicate handles are being made.
    Duplicating,
    /// Holding a connection and its duplicates, the worker not yet spawned.
    Spawning,
    /// Stopped for good after the listener failed.
    Stopped,
}

/// What the outside world reports to the accept loop.
#[derive(Clone, Copy, Debug, PartialEq, Eq, Structural)]
pub enum Event {
    /// A connection was accepted.
    Accepted,
    /// Accepting failed.
    AcceptFailed,
    /// The three duplicate handles of the connection were made.
    Duplicated,
    /// Making the duplicates failed; any made were closed.
    DuplicationFailed,
    /// The worker was spawned with the duplicates as its standard streams.
    Spawned,
    /// Spawning the worker failed.
    SpawnFailed,
}

/// What the accept loop asks the outside world to do.
#[derive(Clone, Copy, Debug, PartialEq, Eq, Structural)]
pub enum Action {
    /// Wait for the next connection.
    Accept,
    /// Make three duplicates of the connection's handle that survive exec.
    Duplicate,
    /// Spawn the worker with the duplicates as standard input, output, error.
    Spawn,
    /// Close the connection and any duplicates, log the failure, then accept
    /// the next connection.
    Refuse,
    /// Hand the spawned worker to a unit of its own that waits for its exit,
    /// then accept the next connection without waiting.
    Reap,
    /// End the process with a diagnostic.
    Terminate,
}

/// The action due in a phase while no event has moved it on.
pub open spec fn due(p: Phase) -> Action {
    match p {
        Phase::Accepting => Action::Accept,
        Phase::Duplicating => Action::Duplicate,
        Phase::Spawning => Action::Spawn,
        Phase::Stopped => Action::Terminate,
    }
}

/// The next phase and the action that an event brings about.
pub open spec fn transition(p: Phase, e: Event) -> (Phase, Action) {
    match (p, e) {
        (Phase::Accepting, Event::Accepted) => (Phase::Duplicating, Action::Duplicate),
        (Phase::Accepting, Event::AcceptFailed) => (Phase::Stopped, Action::Terminate),
        (Phase::Duplicating, Event::Duplicated) => (Phase::Spawning, Action::Spawn),
        (Phase::Duplicating, Event::DuplicationFailed) => (Phase::Accepting, Action::Refuse),
        (Phase::Spawning, Event::Spawned) => (Phase::Accepting, Action::Reap),
        (Phase::Spawning, Event::SpawnFailed) => (Phase::Accepting, Action::Refuse),
        _ => (p, due(p)),
    }
}

/// Whether the loop holds an accepted connection in phase `p`.
pub open spec fn holds_connection(p: Phase) -> bool {
    p == Phase::Duplicating || p == Phase::Spawning
}

/// The accept loop's decisions, one event at a time.
pub struct Dispatcher {
    phase: Phase,
    /// Connections accepted so far.
    accepted: Ghost<nat>,
    /// Workers spawned so far.
    spawned: Ghost<nat>,
    /// Connections given up after a failed duplication or spawn.
    refused: Ghost<nat>,
}

impl Dispatcher {
    pub closed spec fn phase_spec(&self) -> Phase {
        self.phase
    }

    pub closed spec fn accepted(&self) -> nat {
        self.accepted@
    }

    pub closed spec fn spawned(&self) -> nat {
        self.spawned@
    }

    pub closed spec fn refused(&self) -> nat {
        self.refused@
    }

    /// Every accepted connection has led to exactly one worker, been given
    /// up, or is still held.
    pub open spec fn wf(&self) -> bool {
        self.accepted() == self.spawned() + self.refused() + if holds_connection(
            self.phase_spec(),
        ) {
            1nat
        } else {
            0nat
        }
    }

    /// A dispatcher whose listener is bound, about to accept.
    pub fn new() -> (r: Dispatcher)
        ensures
            r.wf(),
            r.phase_spec() == Phase::Accepting,
            r.accepted() == 0,
            r.spawned() == 0,
            r.refused() == 0,
    {
        Dispatcher {
            phase: Phase::Accepting,
            accepted: Ghost(0),
            spawned: Ghost(0),
            refused: Ghost(0),
        }
    }

    pub fn phase(&self) -> (r: Phase)
        ensures
            r == self.phase_spec(),
    {
        self.phase
    }

    /// The action due now.
    pub fn next_action(&self) -> (r: Action)
        ensures
            r == due(self.phase_spec()),
    {
        match self.phase {
            Phase::Accepting => Action::Accept,
            Phase::Duplicating => Action::Duplicate,
            Phase::Spawning => Action::Spawn,
            Phase::Stopped => Action::Terminate,
        }
    }

    /// Takes one event and returns the action it calls for. An event that
    /// does not fit the phase changes nothing and the due action is repeated.
    pub fn step(&mut self, e: Event) -> (r: Action)
        requires
            old(self).wf(),
        ensures
            final(self).wf(),
            (final(self).phase_spec(), r) == transition(old(self).phase_spec(), e),
            final(self).accepted() == old(self).accepted() + if old(self).phase_spec()
                == Phase::Accepting && e == Event::Accepted {
                1nat
            } else {
                0nat
            },
            final(self).spawned() == old(self).spawned() + if r == Action::Reap {
                1nat
            } else {
                0nat
            },
            final(self).refused() == old(self).refused() + if r == Action::Refuse {
                1nat
            } else {
                0nat
            },
    {
        match (self.phase, e) {
            (Phase::Accepting, Event::Accepted) => {
                self.phase = Phase::Duplicating;
                self.accepted = Ghost(self.accepted@ + 1);
                Action::Duplicate
            },
            (Phase::Accepting, Event::AcceptFailed) => {
                self.phase = Phase::Stopped;
                Action::Terminate
            },
            (Phase::Duplicating, Event::Duplicated) => {
                self.phase = Phase::Spawning;
                Action::Spawn
            },
            (Phase::Duplicating, Event::DuplicationFailed) | (
                Phase::Spawning,
                Event::SpawnFailed,
            ) => {
                self.phase = Phase::Accepting;
                self.refused = Ghost(self.refused@ + 1);
                Action::Refuse
            },
            (Phase::Spawning, Event::Spawned) => {
                self.phase = Phase::Accepting;
                self.spawned = Ghost(self.spawned@ + 1);
                Action::Reap
            },
            _ => self.next_action(),
        }
    }
}

/// Whenever the loop holds no connection, every connection accepted so far
/// has led to exactly one spawned worker or was given up; so where none was
/// given up, there are exactly as many workers as connections.
pub proof fn lemma_one_worker_per_connection(d: &Dispatcher)
    requires
        d.wf(),
        !holds_connection(d.phase_spec()),
    ensures
        d.accepted() == d.spawned() + d.refused(),
        d.refused() == 0 ==> d.spawned() == d.accepted(),
{
}

} // verus!
