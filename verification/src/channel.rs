//! The command queue between the decision loop and the audio worker, and the
//! worker's reaction to each command it receives.
//!
//! The queue is strictly first-in first-out: commands leave in exactly the
//! order they entered, so a command enqueued after another is never processed
//! before it.

use vstd::prelude::*;

use crate::mood::Command;
use crate::mood::Sound;

verus! {

/// A FIFO queue of commands. The controller enqueues at the back; the worker
/// side dequeues at the front.
pub struct CommandQueue {
    items: Vec<Command>,
}

impl View for CommandQueue {
    type V = Seq<Command>;

    /// The queued commands, front first.
    closed spec fn view(&self) -> Seq<Command> {
        self.items@
    }
}

impl CommandQueue {
    /// An empty queue.
    pub fn new() -> (q: CommandQueue)
        ensures
            q@ == Seq::<Command>::empty(),
    {
        CommandQueue { items: Vec::new() }
    }

    pub fn len(&self) -> (n: usize)
        ensures
            n == self@.len(),
    {
        self.items.len()
    }

    pub fn is_empty(&self) -> (b: bool)
        ensures
            b == (self@.len() == 0),
    {
        self.items.len() == 0
    }

    /// Enqueue `c` behind every command already queued.
    pub fn enqueue(&mut self, c: Command)
        ensures
            final(self)@ == old(self)@.push(c),
    {
        self.items.push(c);
    }

    /// Enqueue every command of `cs`, in order, behind what is already
    /// queued.
    pub fn enqueue_all(&mut self, cs: &Vec<Command>)
        ensures
            final(self)@ == old(self)@ + cs@,
    {
        proof {
            assert(self@ =~= old(self)@ + cs@.take(0));
        }
        let mut i: usize = 0;
        while i < cs.len()
            invariant
                i <= cs.len(),
                self@ == old(self)@ + cs@.take(i as int),
            decreases cs.len() - i,
        {
            self.enqueue(cs[i]);
            i = i + 1;
            proof {
                assert(self@ =~= old(self)@ + cs@.take(i as int));
            }
        }
        proof {
            assert(self@ =~= old(self)@ + cs@);
        }
    }

    /// Dequeue the oldest command, if any: the queue yields commands in
    /// exactly the order they were enqueued.
    pub fn dequeue(&mut self) -> (r: Option<Command>)
        ensures
            match r {
                Some(c) => old(self)@.len() > 0 && c == old(self)@[0] && final(self)@ == old(
                    self,
                )@.drop_first(),
                None => old(self)@.len() == 0 && final(self)@ == old(self)@,
            },
    {
        if self.items.len() == 0 {
            None
        } else {
            let c = self.items.remove(0);
            proof {
                assert(self.items@ =~= old(self).items@.drop_first());
            }
            Some(c)
        }
    }

    /// Remove every queued command and return them, front first: draining
    /// hands back exactly the sequence that was enqueued, in enqueue order.
    pub fn drain(&mut self) -> (r: Vec<Command>)
        ensures
            r@ == old(self)@,
            final(self)@ == Seq::<Command>::empty(),
    {
        let mut out: Vec<Command> = Vec::new();
        loop
            invariant
                out@ + self@ == old(self)@,
            decreases self@.len(),
        {
            match self.dequeue() {
                Some(c) => {
                    out.push(c);
                    proof {
                        assert(out@ + self@ =~= old(self)@);
                    }
                },
                None => {
                    proof {
                        assert(out@ =~= old(self)@);
                        assert(self@ =~= Seq::<Command>::empty());
                    }
                    return out;
                },
            }
        }
    }
}

/// FIFO law: the queue never reorders. By `dequeue`'s contract each dequeue
/// yields the front and leaves the rest, so after `k` dequeues a queue that
/// held `s` holds `s.skip(k)`; this lemma closes the induction step: the
/// next dequeue then yields `s[k]` and leaves `s.skip(k + 1)`. Hence the
/// `k`-th command dequeued is the `k`-th command enqueued, and a command
/// enqueued after another is never dequeued before it.
pub proof fn lemma_fifo_order(s: Seq<Command>, k: int)
    requires
        0 <= k < s.len(),
    ensures
        s.skip(k)[0] == s[k],
        s.skip(k).drop_first() == s.skip(k + 1),
{
    assert(s.skip(k).drop_first() =~= s.skip(k + 1));
}

/// What the worker does in reaction to one receive on the channel.
#[derive(Clone, Copy, Debug, PartialEq, Eq, Structural)]
pub enum WorkerStep {
    /// Overlay the effect for this sound on the background track.
    PlayEffect(Sound),
    /// Do nothing and wait for the next command.
    Idle,
    /// The channel is closed: leave the receive loop and end the worker.
    Shutdown,
}

/// The worker's reaction to one receive, as a function of the received
/// command alone.
pub open spec fn worker_reaction(received: Option<Command>) -> WorkerStep {
    match received {
        None => WorkerStep::Shutdown,
        Some(Command::Play(s)) => WorkerStep::PlayEffect(s),
        Some(Command::Stop) => WorkerStep::Idle,
    }
}

/// Decide the worker's next step from one receive on the channel: `None`
/// stands for a closed channel and shuts the worker down; `Play` overlays the
/// matching effect; `Stop` is a no-op under the current policy.
pub fn worker_step(received: Option<Command>) -> (r: WorkerStep)
    ensures
        r == worker_reaction(received),
{
    match received {
        None => WorkerStep::Shutdown,
        Some(Command::Play(s)) => WorkerStep::PlayEffect(s),
        Some(Command::Stop) => WorkerStep::Idle,
    }
}

} // verus!
