//! The command-dispatch model: one ordered channel fans command production
//! in from any number of sources to a single executor.
//!
//! Commands are opaque here: the channel is generic over them. A caller runs
//! the loops — producer tasks acquire commands from their sources and hand
//! them to `producer_step`; the executor task takes its next command from
//! `executor_step` and executes it. The channel keeps arrival order: the
//! executor observes commands exactly in the order they were pushed.

use vstd::prelude::*;

verus! {

/// How an input source is configured to run. Only sources marked for
/// concurrent operation get a producer task of their own; the synchronous
/// mode is a reserved configuration for which nothing is spawned.
#[derive(Debug, PartialEq, Eq, Structural, Clone, Copy)]
pub enum ExecutionOrder {
    Sync,
    Async,
}

/// Whether a source with this configuration is spawned as a producer task.
pub fn should_spawn(order: ExecutionOrder) -> (r: bool)
    ensures
        r == (order is Async),
{
    match order {
        ExecutionOrder::Async => true,
        ExecutionOrder::Sync => false,
    }
}

/// The ordered channel between producers and the executor: the commands
/// still pending, and — for the record — every command ever pushed.
pub struct CommandChannel<T> {
    pub pending: Vec<T>,
    pub history: Ghost<Seq<T>>,
}

impl<T> CommandChannel<T> {
    /// The commands pushed but not yet taken, oldest first.
    pub open spec fn pending_seq(&self) -> Seq<T> {
        self.pending@
    }

    /// Every command ever pushed, in arrival order.
    pub open spec fn pushed(&self) -> Seq<T> {
        self.history@
    }

    /// Every command already taken by the executor, in the order it took
    /// them.
    pub open spec fn delivered(&self) -> Seq<T> {
        self.pushed().take(self.pushed().len() - self.pending_seq().len())
    }

    /// The pending commands are exactly the tail of the push history that
    /// has not been delivered yet.
    pub open spec fn wf(&self) -> bool {
        &&& self.pending_seq().len() <= self.pushed().len()
        &&& self.pending_seq() == self.pushed().skip(
            self.pushed().len() - self.pending_seq().len(),
        )
    }

    /// A fresh channel with nothing pushed.
    pub fn new() -> (chan: CommandChannel<T>)
        ensures
            chan.wf(),
            chan.pushed() == Seq::<T>::empty(),
            chan.pending_seq() == Seq::<T>::empty(),
    {
        let chan = CommandChannel { pending: Vec::new(), history: Ghost(Seq::empty()) };
        proof {
            assert(chan.pending_seq() =~= chan.pushed().skip(0));
        }
        chan
    }

    /// Pushes a command onto the back of the channel. Delivery of what was
    /// pushed before is unaffected.
    pub fn push(&mut self, command: T)
        requires
            old(self).wf(),
        ensures
            final(self).wf(),
            final(self).pushed() == old(self).pushed().push(command),
            final(self).pending_seq() == old(self).pending_seq().push(command),
            final(self).delivered() == old(self).delivered(),
    {
        proof {
            self.history@ = self.history@.push(command);
        }
        self.pending.push(command);
        proof {
            let k: int = self.history@.len() - self.pending@.len();
            assert(self.pending@ =~= self.history@.skip(k));
            assert(self.history@.take(k) =~= old(self).history@.take(k));
        }
    }

    /// Takes the oldest pending command, if any: the one pushed right after
    /// everything already delivered.
    pub fn pop(&mut self) -> (r: Option<T>)
        requires
            old(self).wf(),
        ensures
            final(self).wf(),
            final(self).pushed() == old(self).pushed(),
            old(self).pending_seq().len() == 0 ==> {
                &&& r is None
                &&& final(self).pending_seq() == old(self).pending_seq()
                &&& final(self).delivered() == old(self).delivered()
            },
            old(self).pending_seq().len() > 0 ==> {
                &&& r == Some(old(self).pending_seq()[0])
                &&& r == Some(old(self).pushed()[old(self).delivered().len() as int])
                &&& final(self).pending_seq() == old(self).pending_seq().skip(1)
                &&& final(self).delivered() == old(self).delivered().push(
                    old(self).pending_seq()[0],
                )
            },
    {
        if self.pending.len() == 0 {
            None
        } else {
            let command = self.pending.remove(0);
            proof {
                let k: int = old(self).history@.len() - old(self).pending@.len();
                assert(old(self).pending@[0] == old(self).history@[k]);
                assert(self.pending@ =~= self.history@.skip(k + 1));
                assert(self.history@.take(k + 1) =~= old(self).history@.take(k).push(
                    old(self).pending@[0],
                ));
            }
            Some(command)
        }
    }
}

/// Commands are delivered to the executor in the order they were pushed:
/// what has been delivered is a prefix of the push history, and the pending
/// commands are exactly the rest of it.
pub proof fn lemma_delivery_order<T>(chan: &CommandChannel<T>)
    requires
        chan.wf(),
    ensures
        chan.delivered() == chan.pushed().take(chan.delivered().len() as int),
        chan.pushed() == chan.delivered() + chan.pending_seq(),
{
    assert(chan.pushed() =~= chan.delivered() + chan.pending_seq());
}

/// What one turn of the executor loop does.
#[derive(Debug)]
pub enum ExecutorStep<T> {
    Execute(T),
    Stop,
}

/// One turn of a producer loop: a command acquired from its source goes onto
/// the channel; a source that yielded nothing delivers nothing, and the loop
/// goes on either way.
pub fn producer_step<T>(chan: &mut CommandChannel<T>, acquired: Option<T>) -> (delivered: bool)
    requires
        old(chan).wf(),
    ensures
        final(chan).wf(),
        final(chan).delivered() == old(chan).delivered(),
        acquired matches Some(command) ==> {
            &&& delivered
            &&& final(chan).pushed() == old(chan).pushed().push(command)
            &&& final(chan).pending_seq() == old(chan).pending_seq().push(command)
        },
        acquired is None ==> {
            &&& !delivered
            &&& final(chan).pushed() == old(chan).pushed()
            &&& final(chan).pending_seq() == old(chan).pending_seq()
        },
{
    match acquired {
        Some(command) => {
            chan.push(command);
            true
        },
        None => false,
    }
}

/// One turn of the executor loop: take the next command in arrival order and
/// execute it; when nothing is pending and nothing more will come, the loop
/// ends.
pub fn executor_step<T>(chan: &mut CommandChannel<T>) -> (r: ExecutorStep<T>)
    requires
        old(chan).wf(),
    ensures
        final(chan).wf(),
        final(chan).pushed() == old(chan).pushed(),
        old(chan).pending_seq().len() == 0 ==> {
            &&& r is Stop
            &&& final(chan).delivered() == old(chan).delivered()
        },
        old(chan).pending_seq().len() > 0 ==> {
            &&& r == ExecutorStep::Execute(old(chan).pushed()[old(chan).delivered().len() as int])
            &&& final(chan).delivered() == old(chan).delivered().push(
                old(chan).pending_seq()[0],
            )
        },
{
    match chan.pop() {
        Some(command) => ExecutorStep::Execute(command),
        None => ExecutorStep::Stop,
    }
}

} // verus!
