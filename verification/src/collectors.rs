//! The collector state that the core owns: the file-integrity watch-path
//! registry and the privilege event buffer. The platform-specific
//! snapshotting around them (process tables, interface counters, file
//! walks) is a caller's concern; these types keep the state those
//! snapshots read and feed.

use vstd::prelude::*;
use crate::events::{Event, EventKind, PrivilegeEvent};
use std::collections::VecDeque;

verus! {

/// At most this many privilege events are buffered between snapshots.
pub const PRIVILEGE_BUFFER_CAP: usize = 1000;

/// Registry of paths watched for file-integrity scanning. It starts
/// empty; the embedding application seeds it with its platform's
/// defaults and may add more at any time.
pub struct FileIntegrityCollector {
    interval_secs: u64,
    watch_paths: Vec<String>,
}

impl FileIntegrityCollector {
    /// The registered paths, in registration order.
    pub closed spec fn paths(&self) -> Seq<String> {
        self.watch_paths@
    }

    /// The configured scan interval.
    pub closed spec fn spec_interval_secs(&self) -> u64 {
        self.interval_secs
    }

    pub fn new(interval_secs: u64) -> (c: Self)
        ensures
            c.paths() == Seq::<String>::empty(),
            c.spec_interval_secs() == interval_secs,
    {
        let c = FileIntegrityCollector { interval_secs, watch_paths: Vec::new() };
        proof {
            assert(c.paths() =~= Seq::<String>::empty());
        }
        c
    }

    /// Register one more path to watch.
    pub fn add_path(&mut self, path: String)
        ensures
            final(self).paths() == old(self).paths().push(path),
            final(self).spec_interval_secs() == old(self).spec_interval_secs(),
    {
        self.watch_paths.push(path);
    }

    /// All registered paths, for the scanner that walks them.
    pub fn watch_paths(&self) -> (r: &Vec<String>)
        ensures
            r@ == self.paths(),
    {
        &self.watch_paths
    }

    pub fn interval_secs(&self) -> (r: u64)
        ensures
            r == self.spec_interval_secs(),
    {
        self.interval_secs
    }
}

/// Bounded FIFO buffer of privilege events, fed by platform hooks and
/// drained into unified events by the cycle's snapshot.
pub struct PrivilegeCollector {
    recent: VecDeque<PrivilegeEvent>,
}

impl PrivilegeCollector {
    /// The buffered events, oldest first.
    pub closed spec fn recent(&self) -> Seq<PrivilegeEvent> {
        self.recent@
    }

    /// The buffer never exceeds its capacity.
    pub open spec fn wf(&self) -> bool {
        self.recent().len() <= PRIVILEGE_BUFFER_CAP
    }

    pub fn new() -> (c: Self)
        ensures
            c.wf(),
            c.recent() == Seq::<PrivilegeEvent>::empty(),
    {
        let c = PrivilegeCollector { recent: VecDeque::new() };
        proof {
            assert(c.recent() =~= Seq::<PrivilegeEvent>::empty());
        }
        c
    }

    /// Buffer one privilege event; when the buffer is full the oldest
    /// one is dropped first.
    pub fn record(&mut self, e: PrivilegeEvent)
        requires
            old(self).wf(),
        ensures
            final(self).wf(),
            final(self).recent() == if old(self).recent().len() < PRIVILEGE_BUFFER_CAP {
                old(self).recent().push(e)
            } else {
                old(self).recent().push(e).drop_first()
            },
    {
        self.recent.push_back(e);
        if self.recent.len() > PRIVILEGE_BUFFER_CAP {
            self.recent.pop_front();
            proof {
                assert(self.recent@ =~= old(self).recent().push(e).drop_first());
            }
        }
    }

    /// Drain the buffer into unified events, oldest first: each buffered
    /// privilege event wrapped with a fresh id, the current time, and
    /// the `privilege` source.
    pub fn snapshot(&mut self) -> (r: Vec<Event>)
        requires
            old(self).wf(),
        ensures
            final(self).wf(),
            final(self).recent() == Seq::<PrivilegeEvent>::empty(),
            r@.len() == old(self).recent().len(),
            forall|i: int|
                0 <= i < r@.len() ==> {
                    &&& #[trigger] r@[i].kind matches EventKind::Privilege(p) && p == old(
                        self,
                    ).recent()[i]
                    &&& r@[i].source@ == "privilege"@
                    &&& r@[i].id@.len() == 36
                },
    {
        let ghost buffered = self.recent@;
        let mut out: Vec<Event> = Vec::new();
        loop
            invariant
                self.recent@.len() + out@.len() == buffered.len(),
                self.recent@ =~= buffered.skip(out@.len() as int),
                forall|i: int|
                    0 <= i < out@.len() ==> {
                        &&& #[trigger] out@[i].kind matches EventKind::Privilege(p) && p
                            == buffered[i]
                        &&& out@[i].source@ == "privilege"@
                        &&& out@[i].id@.len() == 36
                    },
            ensures
                self.recent@.len() == 0,
                out@.len() == buffered.len(),
                forall|i: int|
                    0 <= i < out@.len() ==> {
                        &&& #[trigger] out@[i].kind matches EventKind::Privilege(p) && p
                            == buffered[i]
                        &&& out@[i].source@ == "privilege"@
                        &&& out@[i].id@.len() == 36
                    },
            decreases self.recent@.len(),
        {
            let next = self.recent.pop_front();
            match next {
                Some(p) => {
                    let ev = Event::new(EventKind::Privilege(p), "privilege".to_owned());
                    out.push(ev);
                    proof {
                        assert(self.recent@ =~= buffered.skip(out@.len() as int));
                    }
                },
                None => {
                    break;
                },
            }
        }
        proof {
            assert(self.recent@ =~= Seq::<PrivilegeEvent>::empty());
        }
        out
    }
}

} // verus!
