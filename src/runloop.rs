use core::time::Duration;
use std::collections::VecDeque;
use vstd::prelude::*;

use crate::coordinator::{calculate_coordinator, coordinator_of, PublicKeySet};
use crate::dispatch::{proposal_commands, DecodedChunk, StackerDBMessage};

verus! {

/// An operation that the operator asks the committee to perform.
#[derive(Clone, Debug, PartialEq, Eq)]
pub enum RunLoopCommand {
    /// Generate the committee's aggregate public key.
    Dkg,
    /// Sign a message.
    Sign {
        /// The bytes to sign.
        message: Vec<u8>,
        /// Whether to make a taproot signature.
        is_taproot: bool,
        /// The taproot merkle root.
        merkle_root: Option<[u8; 32]>,
    },
}

/// Where the node stands in the round protocol.
#[derive(Clone, Copy, Debug, PartialEq, Eq, Structural)]
pub enum State {
    /// The aggregate key state has not been read yet.
    Uninitialized,
    /// No round is in flight.
    Idle,
    /// A key-generation round is in flight.
    Dkg,
    /// A signing round is in flight.
    Sign,
}

/// A round is in flight.
pub open spec fn round_in_flight(s: State) -> bool {
    s == State::Dkg || s == State::Sign
}

/// A queued command may be started.
pub open spec fn may_start_command(s: State) -> bool {
    s == State::Idle
}

/// The state of the round that `command` starts.
pub open spec fn running_state(command: RunLoopCommand) -> State {
    match command {
        RunLoopCommand::Dkg => State::Dkg,
        RunLoopCommand::Sign { .. } => State::Sign,
    }
}

/// What happens to the round state within a pass.
pub enum Transition {
    /// The aggregate key state was read.
    Initialize,
    /// An attempt to start the round of `command`; `started` when the
    /// protocol engine began it.
    Start { command: RunLoopCommand, started: bool },
    /// A signer-channel batch was processed; `observed` when it completed
    /// the round with at least one outcome.
    Outcomes { observed: bool },
    /// Anything else a pass does: queueing a command, a miner batch, taking
    /// the next command from the queue.
    Quiet,
}

/// The round state after one transition.
pub open spec fn next_state(s: State, t: Transition) -> State {
    match t {
        Transition::Initialize => if s == State::Uninitialized {
            State::Idle
        } else {
            s
        },
        Transition::Start { command, started } => if may_start_command(s) && started {
            running_state(command)
        } else {
            s
        },
        Transition::Outcomes { observed } => if observed {
            State::Idle
        } else {
            s
        },
        Transition::Quiet => s,
    }
}

/// The round state after a sequence of transitions.
pub open spec fn run_transitions(s: State, ts: Seq<Transition>) -> State
    decreases ts.len(),
{
    if ts.len() == 0 {
        s
    } else {
        next_state(run_transitions(s, ts.drop_last()), ts.last())
    }
}

/// The command queue holds a key-generation command.
pub open spec fn dkg_queued(commands: Seq<RunLoopCommand>) -> bool {
    exists|i: int| 0 <= i < commands.len() && commands[i] is Dkg
}

/// The control loop of one committee member: its identity, the committee's
/// keys, the queue of commands waiting to run and the round state.
pub struct RunLoop<K> {
    /// How long the driver may wait for the next event.
    pub event_timeout: Duration,
    /// This member's identity.
    pub signer_id: u32,
    /// The committee's verification keys.
    pub public_keys: PublicKeySet<K>,
    /// Commands waiting to run, oldest first.
    pub commands: VecDeque<RunLoopCommand>,
    /// The round state.
    pub state: State,
}

impl<K> RunLoop<K> {
    /// This member coordinates the committee's rounds.
    pub open spec fn coordinates(&self) -> bool {
        coordinator_of(self.public_keys@).0 == self.signer_id
    }

    /// The queue after initialization: a key-generation command in front
    /// when no aggregate key is published, this member coordinates and none
    /// is queued yet.
    pub open spec fn initialized_queue(&self, aggregate_key_published: bool) -> Seq<RunLoopCommand> {
        if !aggregate_key_published && self.coordinates() && !dkg_queued(self.commands@) {
            seq![RunLoopCommand::Dkg] + self.commands@
        } else {
            self.commands@
        }
    }

    /// A loop that has not read the aggregate key state, with no commands.
    pub fn new(signer_id: u32, public_keys: PublicKeySet<K>, event_timeout: Duration) -> (r: Self)
        ensures
            r.signer_id == signer_id,
            r.public_keys == public_keys,
            r.event_timeout == event_timeout,
            r.commands@ == Seq::<RunLoopCommand>::empty(),
            r.state == State::Uninitialized,
    {
        RunLoop {
            event_timeout,
            signer_id,
            public_keys,
            commands: VecDeque::new(),
            state: State::Uninitialized,
        }
    }

    /// Sets how long the driver may wait for the next event.
    pub fn set_event_timeout(&mut self, timeout: Duration)
        ensures
            *final(self) == (RunLoop { event_timeout: timeout, ..*old(self) }),
    {
        self.event_timeout = timeout;
    }

    /// How long the driver may wait for the next event.
    pub fn get_event_timeout(&self) -> (r: Duration)
        ensures
            r == self.event_timeout,
    {
        self.event_timeout
    }

    /// Whether this member coordinates the committee's rounds.
    pub fn is_coordinator(&self) -> (r: bool)
        ensures
            r == self.coordinates(),
    {
        let (coordinator_id, _) = calculate_coordinator(&self.public_keys);
        coordinator_id == self.signer_id
    }

    /// Appends an operator command to the back of the queue.
    pub fn queue_command(&mut self, command: RunLoopCommand)
        ensures
            *final(self) == (RunLoop { commands: final(self).commands, ..*old(self) }),
            final(self).commands@ == old(self).commands@.push(command),
    {
        self.commands.push_back(command);
    }

    /// Opens a pass: the operator's command, when one came, joins the back
    /// of the queue, and the result says whether the aggregate key state
    /// must be read before the pass goes on.
    pub fn begin_pass(&mut self, command: Option<RunLoopCommand>) -> (needs_initialization: bool)
        ensures
            needs_initialization == (old(self).state == State::Uninitialized),
            *final(self) == (RunLoop { commands: final(self).commands, ..*old(self) }),
            final(self).commands@ == match command {
                Some(c) => old(self).commands@.push(c),
                None => old(self).commands@,
            },
    {
        if let Some(c) = command {
            self.queue_command(c);
        }
        match self.state {
            State::Uninitialized => true,
            _ => false,
        }
    }

    /// Whether a key-generation command waits in the queue.
    pub fn has_dkg_queued(&self) -> (r: bool)
        ensures
            r == dkg_queued(self.commands@),
    {
        let mut i: usize = 0;
        while i < self.commands.len()
            invariant
                i <= self.commands@.len(),
                forall|j: int| 0 <= j < i ==> !(self.commands@[j] is Dkg),
            decreases self.commands@.len() - i,
        {
            if let RunLoopCommand::Dkg = self.commands[i] {
                return true;
            }
            i = i + 1;
        }
        false
    }

    /// Initializes the loop once the aggregate key state is known. When no
    /// aggregate key is published and this member coordinates, key
    /// generation is queued in front of every other command, unless it is
    /// queued already. The loop becomes idle either way; installing a
    /// published key into the protocol engine is the caller's part.
    pub fn initialize(&mut self, aggregate_key_published: bool)
        requires
            old(self).state == State::Uninitialized,
        ensures
            final(self).state == next_state(old(self).state, Transition::Initialize),
            final(self).state == State::Idle,
            final(self).commands@ == old(self).initialized_queue(aggregate_key_published),
            final(self).signer_id == old(self).signer_id,
            final(self).public_keys == old(self).public_keys,
            final(self).event_timeout == old(self).event_timeout,
    {
        if !aggregate_key_published && self.is_coordinator() && !self.has_dkg_queued() {
            self.commands.push_front(RunLoopCommand::Dkg);
        }
        self.state = State::Idle;
    }

    /// Takes the next command to start: the front of the queue, while the
    /// loop is idle. While uninitialized or while a round is in flight,
    /// nothing is taken.
    pub fn process_next_command(&mut self) -> (r: Option<RunLoopCommand>)
        ensures
            final(self).state == next_state(old(self).state, Transition::Quiet),
            may_start_command(old(self).state) && old(self).commands@.len() > 0 ==> {
                &&& r == Some(old(self).commands@[0])
                &&& *final(self) == (RunLoop { commands: final(self).commands, ..*old(self) })
                &&& final(self).commands@ == old(self).commands@.skip(1)
            },
            !(may_start_command(old(self).state) && old(self).commands@.len() > 0) ==> {
                &&& r is None
                &&& *final(self) == *old(self)
            },
    {
        match self.state {
            State::Idle => if self.commands.len() > 0 {
                self.commands.pop_front()
            } else {
                None
            },
            _ => None,
        }
    }

    /// Records the protocol engine's answer to starting the round of
    /// `command`. When it began the round, the loop enters the round's state
    /// and the message to relay to the committee comes back; when it failed,
    /// the loop stays idle and `None` comes back: the caller resets the
    /// engine and starts the same command again.
    pub fn execute_command<M, E>(&mut self, command: &RunLoopCommand, started: Result<M, E>) -> (r: Option<M>)
        requires
            may_start_command(old(self).state),
        ensures
            r == started.ok(),
            final(self).state == next_state(
                old(self).state,
                Transition::Start { command: *command, started: started is Ok },
            ),
            *final(self) == (RunLoop { state: final(self).state, ..*old(self) }),
    {
        match started {
            Ok(message) => {
                self.state = match command {
                    RunLoopCommand::Dkg => State::Dkg,
                    RunLoopCommand::Sign { .. } => State::Sign,
                };
                Some(message)
            },
            Err(_) => None,
        }
    }

    /// Processes a batch from the miner channel. When this member
    /// coordinates, each proposed block that decoded and that the node found
    /// valid is queued for signing, in chunk order; everything else in the
    /// batch is dropped.
    pub fn process_event_miner<P>(&mut self, chunks: Vec<DecodedChunk<P>>)
        ensures
            final(self).state == next_state(old(self).state, Transition::Quiet),
            *final(self) == (RunLoop { commands: final(self).commands, ..*old(self) }),
            final(self).commands@ == old(self).commands@ + if old(self).coordinates() {
                proposal_commands(chunks@)
            } else {
                seq![]
            },
    {
        if !self.is_coordinator() {
            return;
        }
        let ghost start = self.commands@;
        let ghost all = chunks@;
        let total = chunks.len();
        let mut rest = chunks;
        let mut done: usize = 0;
        while rest.len() > 0
            invariant
                all.len() == total,
                done + rest@.len() == all.len(),
                rest@ == all.skip(done as int),
                self.commands@ == start + proposal_commands(all.take(done as int)),
                self.state == old(self).state,
                self.signer_id == old(self).signer_id,
                self.public_keys == old(self).public_keys,
                self.event_timeout == old(self).event_timeout,
            decreases rest@.len(),
        {
            let chunk = rest.remove(0);
            proof {
                assert(chunk == all[done as int]);
                assert(all.take(done + 1).drop_last() == all.take(done as int));
            }
            if chunk.accepted {
                if let Some(StackerDBMessage::Block(block)) = chunk.message {
                    self.commands.push_back(
                        RunLoopCommand::Sign { message: block, is_taproot: false, merkle_root: None },
                    );
                }
            }
            proof {
                assert(self.commands@ == start + proposal_commands(all.take(done + 1)));
            }
            done = done + 1;
        }
        proof {
            assert(all.take(done as int) == all);
        }
    }

    /// Records the round outcomes that a signer-channel batch produced. A
    /// non-empty batch completes the round in flight and the loop becomes
    /// idle; the result says whether there is a batch to hand to the
    /// operator.
    pub fn observe_outcomes<R>(&mut self, results: &Vec<R>) -> (r: bool)
        ensures
            r == (results@.len() > 0),
            final(self).state == next_state(old(self).state, Transition::Outcomes { observed: r }),
            *final(self) == (RunLoop { state: final(self).state, ..*old(self) }),
    {
        if results.len() > 0 {
            self.state = State::Idle;
            true
        } else {
            false
        }
    }
}

/// At most one round is in flight: once the engine has begun a round, the
/// node stays in that round, and no queued command can be started, until a
/// batch of round outcomes is observed.
pub proof fn lemma_one_round_in_flight(command: RunLoopCommand, ts: Seq<Transition>)
    requires
        forall|i: int| 0 <= i < ts.len() ==> ts[i] != (Transition::Outcomes { observed: true }),
    ensures
        round_in_flight(next_state(State::Idle, Transition::Start { command, started: true })),
        round_in_flight(
            run_transitions(next_state(State::Idle, Transition::Start { command, started: true }), ts),
        ),
        !may_start_command(
            run_transitions(next_state(State::Idle, Transition::Start { command, started: true }), ts),
        ),
    decreases ts.len(),
{
    if ts.len() > 0 {
        lemma_one_round_in_flight(command, ts.drop_last());
    }
}

} // verus!
