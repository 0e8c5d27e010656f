//! The completion channel: the one-directional path on which each task
//! reports its one status back to the scheduler loop, drained once per
//! task after the loop exits. The whole run is single-threaded, so the
//! channel is a plain FIFO queue.

use vstd::prelude::*;

use crate::task::Status;

verus! {

/// A FIFO queue of task status reports.
pub struct CompletionChannel {
    queue: Vec<Status>,
}

impl View for CompletionChannel {
    type V = Seq<Status>;

    closed spec fn view(&self) -> Seq<Status> {
        self.queue@
    }
}

impl CompletionChannel {
    /// Creates an empty channel.
    pub fn new() -> (c: CompletionChannel)
        ensures
            c@ == Seq::<Status>::empty(),
    {
        CompletionChannel { queue: Vec::new() }
    }

    /// Appends one status report.
    pub fn send(&mut self, status: Status)
        ensures
            final(self)@ == old(self)@.push(status),
    {
        self.queue.push(status);
    }

    /// Removes and returns the oldest report, or `None` when the channel
    /// is empty.
    pub fn recv(&mut self) -> (r: Option<Status>)
        ensures
            old(self)@.len() == 0 ==> r is None && final(self)@ == old(self)@,
            old(self)@.len() > 0 ==> r == Some(old(self)@[0]) && final(self)@ == old(self)@.skip(1),
    {
        if self.queue.len() == 0 {
            None
        } else {
            let first = self.queue.remove(0);
            proof {
                assert(self@ =~= old(self)@.skip(1));
            }
            Some(first)
        }
    }

    /// The number of reports waiting in the channel.
    pub fn len(&self) -> (r: usize)
        ensures
            r == self@.len(),
    {
        self.queue.len()
    }
}

} // verus!
