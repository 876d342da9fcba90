//! Logging from inside the hook callback without the disk on the keystroke
//! path: a line is queued on a bounded queue and a writer drains it. When the
//! queue is full the line is dropped rather than waited for, and the count of
//! dropped lines is reported with the next line that gets through.
use vstd::prelude::*;
use vstd::string::StringExecFns;

use crate::settings::strings_view;
use crate::text::{decimal, decimal_string};

verus! {

/// How many lines may wait before new ones are dropped.
pub const QUEUE_DEPTH: usize = 512;

/// The line that reaches the queue: prefixed with the count of lines dropped
/// since the last one that got through, when there were any.
pub open spec fn spec_line(dropped: nat, line: Seq<char>) -> Seq<char> {
    if dropped > 0 {
        "["@ + decimal(dropped) + " log lines dropped — the writer fell behind] "@ + line
    } else {
        line
    }
}

/// The bounded queue between the hook callback and the log writer.
pub struct HookLog {
    started: bool,
    depth: usize,
    queued: Vec<String>,
    dropped: usize,
}

impl HookLog {
    /// Whether a writer has been started.
    pub closed spec fn spec_started(&self) -> bool {
        self.started
    }

    /// How many lines may wait.
    pub closed spec fn spec_depth(&self) -> nat {
        self.depth as nat
    }

    /// The lines waiting for the writer, oldest first.
    pub closed spec fn spec_queued(&self) -> Seq<Seq<char>> {
        strings_view(self.queued@)
    }

    /// Lines dropped since the last one that got through.
    pub closed spec fn spec_dropped(&self) -> nat {
        self.dropped as nat
    }

    /// The queue never holds more than its depth.
    pub closed spec fn wf(&self) -> bool {
        self.queued@.len() <= self.depth
    }

    /// No writer yet: logging does nothing.
    pub fn new() -> (r: Self)
        ensures
            r.wf(),
            !r.spec_started(),
            r.spec_queued() == Seq::<Seq<char>>::empty(),
            r.spec_dropped() == 0,
    {
        let r = HookLog { started: false, depth: 0, queued: Vec::new(), dropped: 0 };
        assert(strings_view(r.queued@) =~= Seq::<Seq<char>>::empty());
        r
    }

    /// The writer is running, with room for `depth` waiting lines.
    pub fn start(&mut self, depth: usize)
        ensures
            final(self).wf(),
            final(self).spec_started(),
            final(self).spec_depth() == depth,
            final(self).spec_queued() == Seq::<Seq<char>>::empty(),
            final(self).spec_dropped() == 0,
    {
        self.started = true;
        self.depth = depth;
        self.queued = Vec::new();
        self.dropped = 0;
        assert(strings_view(self.queued@) =~= Seq::<Seq<char>>::empty());
    }

    /// Hands one line to the queue without waiting: `Err` gives it back when
    /// the queue is full.
    pub fn try_send(&mut self, line: String) -> (r: Result<(), String>)
        requires
            old(self).wf(),
        ensures
            final(self).wf(),
            final(self).spec_started() == old(self).spec_started(),
            final(self).spec_depth() == old(self).spec_depth(),
            final(self).spec_dropped() == old(self).spec_dropped(),
            old(self).spec_queued().len() < old(self).spec_depth() ==> r is Ok
                && final(self).spec_queued() == old(self).spec_queued().push(line@),
            old(self).spec_queued().len() >= old(self).spec_depth() ==> r is Err
                && r->Err_0@ == line@ && final(self).spec_queued() == old(self).spec_queued(),
    {
        if self.queued.len() < self.depth {
            let ghost before = self.queued@;
            self.queued.push(line);
            proof {
                reveal(strings_view);
            }
            assert(strings_view(self.queued@) =~= strings_view(before).push(self.queued@.last()@));
            Ok(())
        } else {
            Err(line)
        }
    }

    /// Queues one line; never waits. Before a writer is started it does
    /// nothing. A line that finds the queue full is dropped and counted, and
    /// the count is carried on the next line that gets through.
    pub fn log(&mut self, line: String)
        requires
            old(self).wf(),
        ensures
            final(self).wf(),
            final(self).spec_started() == old(self).spec_started(),
            final(self).spec_depth() == old(self).spec_depth(),
            !old(self).spec_started() ==> final(self).spec_queued() == old(self).spec_queued()
                && final(self).spec_dropped() == old(self).spec_dropped(),
            old(self).spec_started() && old(self).spec_queued().len() < old(self).spec_depth()
                ==> final(self).spec_queued() == old(self).spec_queued().push(
                spec_line(old(self).spec_dropped(), line@),
            ) && final(self).spec_dropped() == 0,
            old(self).spec_started() && old(self).spec_queued().len() >= old(self).spec_depth()
                ==> final(self).spec_queued() == old(self).spec_queued()
                && final(self).spec_dropped() == (if old(self).spec_dropped() < usize::MAX {
                old(self).spec_dropped() + 1
            } else {
                old(self).spec_dropped()
            }),
    {
        if !self.started {
            return;
        }
        let dropped = self.dropped;
        self.dropped = 0;
        let line = if dropped > 0 {
            let mut l = "[".to_owned();
            l.append(decimal_string(dropped).as_str());
            l.append(" log lines dropped — the writer fell behind] ");
            l.append(line.as_str());
            l
        } else {
            line
        };
        match self.try_send(line) {
            Ok(()) => {},
            Err(_) => {
                self.dropped = if dropped < usize::MAX { dropped + 1 } else { dropped };
            },
        }
    }

    /// What the writer takes: every waiting line, oldest first, leaving the
    /// queue empty.
    pub fn drain(&mut self) -> (lines: Vec<String>)
        ensures
            final(self).wf(),
            strings_view(lines@) == old(self).spec_queued(),
            final(self).spec_queued() == Seq::<Seq<char>>::empty(),
            final(self).spec_started() == old(self).spec_started(),
            final(self).spec_depth() == old(self).spec_depth(),
            final(self).spec_dropped() == old(self).spec_dropped(),
    {
        let mut lines: Vec<String> = Vec::new();
        std::mem::swap(&mut lines, &mut self.queued);
        assert(strings_view(self.queued@) =~= Seq::<Seq<char>>::empty());
        lines
    }
}

} // verus!
