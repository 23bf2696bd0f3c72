//! The multiplexer: one ordered stream of events out of the running
//! process and the refresh timer.
//!
//! The asynchronous sources are polled by the caller; the [`Streamer`]
//! decides, at each step, which source to poll next and what to hand on.
//! Process events come before ticks, and nothing follows the end of the
//! process, not even a tick.

use vstd::prelude::*;

use crate::process_wrapper::StreamItem;

verus! {

/// What a poll of the process source gave.
#[derive(Debug)]
pub enum ProcessPoll {
    /// An event of the process.
    Ready(StreamItem),
    /// The process source is exhausted.
    Exhausted,
    /// Nothing is available yet.
    Pending,
}

/// What the caller does next.
#[derive(Debug)]
pub enum Decision {
    /// Hand this event on.
    Emit(StreamItem),
    /// Poll the process source and report with `process_polled`.
    PollProcess,
    /// Poll the timer and report with `ticker_polled`.
    PollTicker,
    /// Nothing to hand on now; wait for a wake-up and poll again.
    Pending,
    /// The stream has ended.
    End,
}

/// Orders the events of one run.
#[derive(Debug)]
pub struct Streamer {
    replay: bool,
    items: Vec<StreamItem>,
    finished: bool,
}

impl Streamer {
    /// Whether the stream has ended for good.
    pub closed spec fn is_finished(&self) -> bool {
        self.finished
    }

    /// Whether the events come from a list given in advance.
    pub closed spec fn is_replay(&self) -> bool {
        self.replay
    }

    /// The events of the list not yet handed on.
    pub closed spec fn queued(&self) -> Seq<StreamItem> {
        self.items@
    }

    /// A stream over a live process and a timer.
    pub fn new() -> (r: Streamer)
        ensures
            !r.is_finished(),
            !r.is_replay(),
    {
        Streamer { replay: false, items: Vec::new(), finished: false }
    }

    /// A stream that hands on the events of `testlist`, in order, and
    /// ends after the list or after its first `Done`.
    pub fn new_test(testlist: Vec<StreamItem>) -> (r: Streamer)
        ensures
            !r.is_finished(),
            r.is_replay(),
            r.queued() == testlist@,
    {
        Streamer { replay: true, items: testlist, finished: false }
    }

    /// Starts a poll of the stream.
    pub fn poll_begin(&mut self) -> (r: Decision)
        ensures
            final(self).is_replay() == old(self).is_replay(),
            old(self).is_finished() ==> r is End && final(self).is_finished(),
            !old(self).is_finished() && !old(self).is_replay() ==> r is PollProcess
                && !final(self).is_finished(),
            !old(self).is_finished() && old(self).is_replay() && old(self).queued().len() == 0
                ==> r is End && final(self).is_finished(),
            !old(self).is_finished() && old(self).is_replay() && old(self).queued().len() > 0
                ==> r == Decision::Emit(old(self).queued()[0]) && final(self).queued()
                == old(self).queued().drop_first() && final(self).is_finished()
                == old(self).queued()[0].is_done(),
    {
        if self.finished {
            return Decision::End;
        }
        if !self.replay {
            return Decision::PollProcess;
        }
        if self.items.len() == 0 {
            self.finished = true;
            return Decision::End;
        }
        let item = self.items.remove(0);
        if let StreamItem::Done(_) = item {
            self.finished = true;
        }
        assert(self.items@ =~= old(self).items@.drop_first());
        Decision::Emit(item)
    }

    /// Goes on with what the poll of the process source gave: an event is
    /// handed on, and ends the stream when it is `Done`; an exhausted
    /// source ends the stream; only when nothing is available is the timer
    /// polled.
    pub fn process_polled(&mut self, p: ProcessPoll) -> (r: Decision)
        ensures
            final(self).is_replay() == old(self).is_replay(),
            final(self).queued() == old(self).queued(),
            old(self).is_finished() ==> r is End && final(self).is_finished(),
            !old(self).is_finished() ==> match p {
                ProcessPoll::Ready(item) => r == Decision::Emit(item) && final(self).is_finished()
                    == item.is_done(),
                ProcessPoll::Exhausted => r is End && final(self).is_finished(),
                ProcessPoll::Pending => r is PollTicker && !final(self).is_finished(),
            },
    {
        if self.finished {
            return Decision::End;
        }
        match p {
            ProcessPoll::Ready(item) => {
                if let StreamItem::Done(_) = item {
                    self.finished = true;
                }
                Decision::Emit(item)
            },
            ProcessPoll::Exhausted => {
                self.finished = true;
                Decision::End
            },
            ProcessPoll::Pending => Decision::PollTicker,
        }
    }

    /// Goes on with what the poll of the timer gave: a tick when it fired,
    /// else a wait; never anything once the stream has ended.
    pub fn ticker_polled(&mut self, ready: bool) -> (r: Decision)
        ensures
            final(self).is_replay() == old(self).is_replay(),
            final(self).queued() == old(self).queued(),
            final(self).is_finished() == old(self).is_finished(),
            old(self).is_finished() ==> r is End,
            !old(self).is_finished() && ready ==> r == Decision::Emit(StreamItem::Tick),
            !old(self).is_finished() && !ready ==> r is Pending,
    {
        if self.finished {
            Decision::End
        } else if ready {
            Decision::Emit(StreamItem::Tick)
        } else {
            Decision::Pending
        }
    }
}

} // verus!
