//! The orchestrator's decisions: which command was given, and which worker
//! inbox a dispatched task goes to.
use vstd::prelude::*;

use crate::rotation::{lemma_picks_balanced, occurrences, RoundRobin};
use crate::task::AttackProfile;
use crate::text::same_text;

verus! {

/// An operator command.
#[derive(Clone, Copy, Debug, PartialEq, Eq, Structural)]
pub enum Command {
    Shutdown,
    Dispatch(AttackProfile),
    Unknown,
}

/// The command that a line of operator text names.
pub open spec fn command_of(text: Seq<char>) -> Command {
    if text == "SHUTDOWN"@ {
        Command::Shutdown
    } else if text == "DISPATCH"@ {
        Command::Dispatch(
            AttackProfile {
                force_http1: true,
                force_http10: false,
                force_tls11: false,
                use_0rtt: false,
                fragment_handshake: false,
            },
        )
    } else if text == "DISPATCH STEALTH"@ {
        Command::Dispatch(
            AttackProfile {
                force_http1: true,
                force_http10: false,
                force_tls11: false,
                use_0rtt: true,
                fragment_handshake: true,
            },
        )
    } else if text == "DISPATCH LEGACY"@ {
        Command::Dispatch(
            AttackProfile {
                force_http1: true,
                force_http10: true,
                force_tls11: true,
                use_0rtt: false,
                fragment_handshake: false,
            },
        )
    } else {
        Command::Unknown
    }
}

pub fn parse_command(text: &str) -> (r: Command)
    ensures
        r == command_of(text@),
{
    if same_text(text, "SHUTDOWN") {
        Command::Shutdown
    } else if same_text(text, "DISPATCH") {
        Command::Dispatch(AttackProfile::standard())
    } else if same_text(text, "DISPATCH STEALTH") {
        Command::Dispatch(AttackProfile::stealth())
    } else if same_text(text, "DISPATCH LEGACY") {
        Command::Dispatch(AttackProfile::legacy())
    } else {
        Command::Unknown
    }
}

/// What the orchestrator does next.
#[derive(Clone, Copy, Debug, PartialEq, Eq, Structural)]
pub enum EngineAction {
    /// Leave the command loop and let the inboxes drain.
    Stop,
    /// Send a task with this profile to the inbox of this worker.
    Send { worker: usize, profile: AttackProfile },
    /// Log the command and go on.
    Ignore,
}

/// Dispatch state of the orchestrator over a fixed pool of workers.
pub struct EngineCore {
    dispatch: RoundRobin,
}

impl EngineCore {
    pub closed spec fn worker_count(self) -> nat {
        self.dispatch.slot_count()
    }

    /// How many tasks were dispatched so far.
    pub closed spec fn dispatched(self) -> nat {
        self.dispatch.issued_count()
    }

    /// The worker of every task dispatched so far, in order.
    pub closed spec fn sent_to(self) -> Seq<int> {
        self.dispatch.history()
    }

    /// Whatever commands came in between, after the engine's dispatches no
    /// two workers received counts differing by more than one, the counts add
    /// up to the number of dispatches, and all are equal when the number of
    /// workers divides it.
    pub proof fn lemma_dispatch_balanced(self, i: int, j: int)
        requires
            0 <= i < self.worker_count(),
            0 <= j < self.worker_count(),
        ensures
            self.sent_to().len() == self.dispatched(),
            occurrences(self.sent_to(), i) <= occurrences(self.sent_to(), j) + 1,
            self.dispatched() / self.worker_count() <= occurrences(self.sent_to(), i)
                <= self.dispatched() / self.worker_count() + 1,
            self.dispatched() % self.worker_count() == 0 ==> occurrences(self.sent_to(), i)
                == self.dispatched() / self.worker_count(),
    {
        self.dispatch.lemma_history();
        lemma_picks_balanced(self.dispatched(), self.worker_count(), i, j);
    }

    pub fn new(num_workers: usize) -> (r: EngineCore)
        requires
            num_workers > 0,
        ensures
            r.sent_to() == Seq::<int>::empty(),
            r.worker_count() == num_workers,
            r.dispatched() == 0,
    {
        EngineCore { dispatch: RoundRobin::new(num_workers) }
    }

    pub fn num_workers(&self) -> (r: usize)
        ensures
            r == self.worker_count(),
            r > 0,
    {
        self.dispatch.slots()
    }

    pub fn dispatch_count(&self) -> (r: u64)
        ensures
            r == self.dispatched(),
    {
        self.dispatch.issued()
    }

    /// Decides what to do with one command. The `k`-th dispatch, counting
    /// from 0, goes to worker `k % worker_count`.
    pub fn handle_command(&mut self, text: &str) -> (r: EngineAction)
        requires
            old(self).dispatched() < u64::MAX,
        ensures
            final(self).worker_count() == old(self).worker_count(),
            command_of(text@) is Shutdown ==> r is Stop && final(self).dispatched()
                == old(self).dispatched() && final(self).sent_to() == old(self).sent_to(),
            command_of(text@) is Unknown ==> r is Ignore && final(self).dispatched()
                == old(self).dispatched() && final(self).sent_to() == old(self).sent_to(),
            r matches EngineAction::Send { worker, .. } ==> final(self).sent_to() == old(
                self,
            ).sent_to().push(worker as int),
            command_of(text@) matches Command::Dispatch(p) ==> r == (EngineAction::Send {
                worker: (old(self).dispatched() % old(self).worker_count()) as usize,
                profile: p,
            }) && final(self).dispatched() == old(self).dispatched() + 1,
    {
        match parse_command(text) {
            Command::Shutdown => EngineAction::Stop,
            Command::Unknown => EngineAction::Ignore,
            Command::Dispatch(profile) => {
                let worker = self.dispatch.pick();
                EngineAction::Send { worker, profile }
            },
        }
    }
}

} // verus!
