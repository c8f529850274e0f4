//! The two channel primitives of the simulation core: a bounded FIFO
//! queue of control commands, and a single-slot latest-value-wins
//! snapshot broadcast.

use vstd::prelude::*;

verus! {

use crate::state::game::{same_snapshot, GameData};
use crate::view::ui::ControlMessages;

/// The error a full command channel reports to a sender.
#[derive(Debug, Clone, Copy, PartialEq, Eq, Structural)]
pub enum ChannelError {
    Full,
}

/// A bounded FIFO queue of control commands. A send never blocks: it
/// either appends the command or reports `Full` and leaves the queue
/// untouched.
pub struct CommandChannel {
    queue: Vec<ControlMessages>,
    capacity: usize,
}

impl CommandChannel {
    /// The commands waiting to be received, oldest first.
    pub closed spec fn pending(&self) -> Seq<ControlMessages> {
        self.queue@
    }

    /// The fixed capacity the channel was created with.
    pub closed spec fn capacity(&self) -> int {
        self.capacity as int
    }

    /// The backlog never exceeds the capacity.
    pub open spec fn wf(&self) -> bool {
        self.pending().len() <= self.capacity() && self.capacity() >= 1
    }

    /// An empty channel with the given fixed capacity.
    pub fn new(capacity: usize) -> (c: CommandChannel)
        requires
            capacity >= 1,
        ensures
            c.wf(),
            c.capacity() == capacity,
            c.pending() == Seq::<ControlMessages>::empty(),
    {
        CommandChannel { queue: Vec::new(), capacity }
    }

    /// Appends the command when the queue has room; reports `Full` and
    /// changes nothing when it is at capacity. It never blocks either
    /// way.
    pub fn send(&mut self, message: ControlMessages) -> (r: Result<(), ChannelError>)
        requires
            old(self).wf(),
        ensures
            final(self).wf(),
            final(self).capacity() == old(self).capacity(),
            old(self).pending().len() < old(self).capacity() ==> r is Ok && final(self).pending()
                == old(self).pending().push(message),
            old(self).pending().len() >= old(self).capacity() ==> r == Err::<(), ChannelError>(
                ChannelError::Full,
            ) && final(self).pending() == old(self).pending(),
    {
        if self.queue.len() < self.capacity {
            self.queue.push(message);
            Ok(())
        } else {
            Err(ChannelError::Full)
        }
    }

    /// Removes and returns the oldest pending command, or `None` when
    /// the queue is empty. It never blocks.
    pub fn try_receive(&mut self) -> (r: Option<ControlMessages>)
        requires
            old(self).wf(),
        ensures
            final(self).wf(),
            final(self).capacity() == old(self).capacity(),
            old(self).pending().len() == 0 ==> r is None
                && final(self).pending() == old(self).pending(),
            old(self).pending().len() > 0 ==> r == Some(old(self).pending()[0])
                && final(self).pending()
                    == old(self).pending().subrange(1, old(self).pending().len() as int),
    {
        if self.queue.len() == 0 {
            None
        } else {
            let message = self.queue.remove(0);
            proof {
                assert(self.queue@ =~= old(self).queue@.subrange(1, old(self).queue@.len() as int));
            }
            Some(message)
        }
    }
}

/// A single-slot latest-value-wins broadcast of snapshots: a publish
/// overwrites the one held value and never blocks or queues history; a
/// read returns a copy of the most recently published value.
pub struct SnapshotChannel {
    slot: GameData,
}

impl SnapshotChannel {
    /// The one value the channel holds.
    pub closed spec fn held(&self) -> GameData {
        self.slot
    }

    /// A channel holding the given initial snapshot.
    pub fn new(initial: GameData) -> (c: SnapshotChannel)
        ensures
            c.held() == initial,
    {
        SnapshotChannel { slot: initial }
    }

    /// Overwrites the held value. The result does not depend on what
    /// was held before, so a reader observes only the newest publish,
    /// however many came before it.
    pub fn publish(&mut self, snapshot: GameData)
        ensures
            final(self).held() == snapshot,
    {
        self.slot = snapshot;
    }

    /// A copy of the most recently published value; the channel is
    /// unchanged.
    pub fn latest(&self) -> (s: GameData)
        ensures
            same_snapshot(s, self.held()),
    {
        GameData {
            running: self.slot.running,
            cells: crate::state::board::copy_board(&self.slot.cells),
            previousGeneration: crate::state::board::copy_board(&self.slot.previousGeneration),
        }
    }
}

/// Two reads with no publish between them observe the same value: both
/// copy the one held snapshot.
pub proof fn lemma_repeated_reads_agree(
    channel: SnapshotChannel,
    first: GameData,
    second: GameData,
)
    requires
        same_snapshot(first, channel.held()),
        same_snapshot(second, channel.held()),
    ensures
        same_snapshot(first, second),
{
}

/// After any number of publishes, a reader observes only the latest
/// one: a publish fixes the held value without regard to what was held
/// before, and a read copies exactly that value.
pub proof fn lemma_latest_publish_wins(
    channel: SnapshotChannel,
    published: GameData,
    observed: GameData,
)
    requires
        channel.held() == published,
        same_snapshot(observed, channel.held()),
    ensures
        same_snapshot(observed, published),
{
}

} // verus!
