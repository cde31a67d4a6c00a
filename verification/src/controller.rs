//! The tracepoint controller and shutdown coordinator.
//!
//! The controller owns the Enabled-set: the tracepoints this process has
//! turned on, in activation order. It grows only while starting up, one
//! append per successful enable, and is read back exactly once, by the
//! shutdown pass that disables every member. The running flag starts true
//! and is cleared exactly once, when shutdown is first triggered; a second
//! trigger finds the flag already cleared and issues nothing.

use vstd::prelude::*;
use crate::tracefs::{enable_write, disable_write, write_is_enable, write_is_disable, FsWrite};
use crate::tracepoint::{
    all_tokens_wf,
    is_first_bad_token,
    parse_tracepoints,
    subsystem_of,
    event_of,
    TraceError,
    TracepointId,
};

verus! {

pub struct Controller {
    requested: Vec<TracepointId>,
    enabled: Vec<TracepointId>,
    running: bool,
    cleaned: bool,
}

impl Controller {
    /// The tracepoints the caller asked for, as (subsystem, event) pairs.
    pub closed spec fn requested(self) -> Seq<(Seq<char>, Seq<char>)> {
        self.requested@.map_values(|id: TracepointId| id@)
    }

    /// The Enabled-set: what this process has turned on, in activation order.
    pub closed spec fn enabled(self) -> Seq<(Seq<char>, Seq<char>)> {
        self.enabled@.map_values(|id: TracepointId| id@)
    }

    /// The running flag the stream loop consults.
    pub closed spec fn running(self) -> bool {
        self.running
    }

    /// Whether the disable-all pass has already run.
    pub closed spec fn cleaned(self) -> bool {
        self.cleaned
    }

    pub fn new(requested: Vec<TracepointId>) -> (c: Controller)
        ensures
            c.requested() == requested@.map_values(|id: TracepointId| id@),
            c.enabled() =~= Seq::<(Seq<char>, Seq<char>)>::empty(),
            c.running(),
            !c.cleaned(),
    {
        let c = Controller { requested, enabled: Vec::new(), running: true, cleaned: false };
        proof {
            assert(c.enabled() =~= Seq::<(Seq<char>, Seq<char>)>::empty());
        }
        c
    }

    /// The running flag, as the stream loop reads it before each read.
    pub fn is_running(&self) -> (b: bool)
        ensures
            b == self.running(),
    {
        self.running
    }

    /// The next enable write startup owes, if any member of the requested
    /// list is still off.
    pub fn next_enable_write(&self, root: &str) -> (w: Option<FsWrite>)
        ensures
            match w {
                Some(w) => self.enabled().len() < self.requested().len() && write_is_enable(
                    w,
                    root@,
                    self.requested()[self.enabled().len() as int],
                ),
                None => self.enabled().len() >= self.requested().len(),
            },
    {
        let k = self.enabled.len();
        if k < self.requested.len() {
            Some(enable_write(root, &self.requested[k]))
        } else {
            None
        }
    }

    /// Appends the tracepoint whose enable write just succeeded. Startup
    /// only: the Enabled-set never grows once shutdown has been triggered.
    pub fn record_enable_success(&mut self)
        requires
            old(self).enabled().len() < old(self).requested().len(),
            !old(self).cleaned(),
        ensures
            final(self).enabled() =~= old(self).enabled().push(
                old(self).requested()[old(self).enabled().len() as int],
            ),
            final(self).requested() == old(self).requested(),
            final(self).running() == old(self).running(),
            final(self).cleaned() == old(self).cleaned(),
    {
        let k = self.enabled.len();
        let id = self.requested[k].duplicate();
        self.enabled.push(id);
    }

    /// Enables every requested tracepoint in supplied order, one write per
    /// member, stopping at the first failure: the write that failed is the
    /// last one attempted, the tracepoints before it stay enabled, and the
    /// error names the position that failed. `outcomes[i]` reports whether
    /// the write for position `i` reached the kernel.
    ///
    /// On full success the Enabled-set holds exactly the requested
    /// identifiers, in supplied order, each matched by one enable write.
    pub fn enable_all(&mut self, root: &str, outcomes: &Vec<bool>) -> (r: (
        Vec<FsWrite>,
        Result<(), TraceError>,
    ))
        requires
            old(self).enabled().len() == 0,
            !old(self).cleaned(),
            outcomes@.len() == old(self).requested().len(),
        ensures
            final(self).requested() == old(self).requested(),
            final(self).running() == old(self).running(),
            final(self).cleaned() == old(self).cleaned(),
            forall|i: int|
                0 <= i < r.0@.len() ==> write_is_enable(
                    #[trigger] r.0@[i],
                    root@,
                    old(self).requested()[i],
                ),
            match r.1 {
                Ok(()) => {
                    &&& forall|i: int| 0 <= i < outcomes@.len() ==> outcomes@[i]
                    &&& final(self).enabled() =~= old(self).requested()
                    &&& r.0@.len() == outcomes@.len()
                },
                Err(e) => {
                    &&& e matches TraceError::EnableFailed { index }
                    &&& 0 <= index < outcomes@.len()
                    &&& !outcomes@[index as int]
                    &&& forall|j: int| 0 <= j < index ==> outcomes@[j]
                    &&& final(self).enabled() =~= old(self).requested().take(index as int)
                    &&& r.0@.len() == index + 1
                },
            },
    {
        let mut writes: Vec<FsWrite> = Vec::new();
        let n = self.requested.len();
        let mut i: usize = 0;
        while i < n
            invariant
                0 <= i <= n,
                n == self.requested().len(),
                outcomes@.len() == n,
                writes@.len() == i,
                self.requested() == old(self).requested(),
                self.running() == old(self).running(),
                self.cleaned() == old(self).cleaned(),
                !self.cleaned(),
                self.enabled() =~= old(self).requested().take(i as int),
                forall|j: int| 0 <= j < i ==> outcomes@[j],
                forall|j: int|
                    0 <= j < i ==> write_is_enable(
                        #[trigger] writes@[j],
                        root@,
                        old(self).requested()[j],
                    ),
            decreases n - i,
        {
            let w = enable_write(root, &self.requested[i]);
            writes.push(w);
            if !outcomes[i] {
                return (writes, Err(TraceError::EnableFailed { index: i }));
            }
            self.record_enable_success();
            proof {
                assert(self.enabled() =~= old(self).requested().take(i as int + 1));
            }
            i += 1;
        }
        proof {
            assert(old(self).requested().take(n as int) =~= old(self).requested());
        }
        (writes, Ok(()))
    }

    /// The disable-all pass, shared by the interrupt handler, normal
    /// termination and the fatal-read path. The first trigger clears the
    /// running flag and owes exactly one disable write per member of the
    /// Enabled-set, in its order (any order would do: the writes are
    /// independent); every later trigger is a no-op that owes nothing.
    /// Whether the writes then succeed is not tracked: cleanup is
    /// best-effort by design, so shutdown itself cannot fail.
    pub fn shutdown(&mut self, root: &str) -> (writes: Vec<FsWrite>)
        ensures
            final(self).requested() == old(self).requested(),
            final(self).enabled() == old(self).enabled(),
            !final(self).running(),
            final(self).cleaned(),
            old(self).cleaned() ==> writes@.len() == 0,
            !old(self).cleaned() ==> writes@.len() == old(self).enabled().len() && forall|i: int|
                0 <= i < writes@.len() ==> write_is_disable(
                    #[trigger] writes@[i],
                    root@,
                    old(self).enabled()[i],
                ),
    {
        let mut writes: Vec<FsWrite> = Vec::new();
        if self.cleaned {
            self.running = false;
            return writes;
        }
        let n = self.enabled.len();
        let mut i: usize = 0;
        while i < n
            invariant
                0 <= i <= n,
                n == self.enabled().len(),
                writes@.len() == i,
                self == old(self),
                forall|j: int|
                    0 <= j < i ==> write_is_disable(
                        #[trigger] writes@[j],
                        root@,
                        self.enabled()[j],
                    ),
            decreases n - i,
        {
            let w = disable_write(root, &self.enabled[i]);
            writes.push(w);
            i += 1;
        }
        self.running = false;
        self.cleaned = true;
        writes
    }
}

/// The one-line notice the interrupt handler emits before cleaning up.
pub fn shutdown_notice() -> (r: &'static str)
    ensures
        r@ == "\nCaught signal, cleaning up..."@,
{
    "\nCaught signal, cleaning up..."
}

/// What a run will do, settled before any kernel state changes.
#[derive(Debug)]
pub enum Mode {
    /// Discovery: print the events of one subsystem and exit. No tracepoint
    /// is toggled on this path.
    List { subsystem: String },
    /// Monitoring: enable `ids` in order, optionally filter by `pid`, then
    /// stream.
    Monitor { ids: Vec<TracepointId>, pid: Option<u32> },
}

/// Decides what a run does, checking the configuration in the order the
/// monitor reports it: discovery short-circuits; with no token the run is
/// refused; without the tracing root nothing is attempted; a malformed
/// token is refused by its position. No filesystem state has changed when
/// an error comes back.
pub fn plan_startup(
    list: Option<String>,
    tokens: &Vec<String>,
    pid: Option<u32>,
    root_exists: bool,
) -> (r: Result<Mode, TraceError>)
    ensures
        match r {
            Ok(Mode::List { subsystem }) => {
                &&& list matches Some(l) && subsystem@ == l@
            },
            Ok(Mode::Monitor { ids, pid: p }) => {
                &&& list is None
                &&& tokens@.len() > 0
                &&& root_exists
                &&& all_tokens_wf(tokens@)
                &&& ids@.len() == tokens@.len()
                &&& forall|i: int|
                    0 <= i < ids@.len() ==> (#[trigger] ids@[i])@ == (
                    subsystem_of(tokens@[i]@),
                    event_of(tokens@[i]@),
                )
                &&& forall|i: int| 0 <= i < ids@.len() ==> (#[trigger] ids@[i]).wf()
                &&& p == pid
            },
            Err(TraceError::NoTracepoints) => list is None && tokens@.len() == 0,
            Err(TraceError::TracingFsUnavailable) => list is None && tokens@.len() > 0
                && !root_exists,
            Err(e) => {
                &&& list is None
                &&& tokens@.len() > 0
                &&& root_exists
                &&& e matches TraceError::InvalidTracepoint { index }
                &&& is_first_bad_token(tokens@, index as int)
            },
        },
{
    if let Some(subsystem) = list {
        return Ok(Mode::List { subsystem });
    }
    if tokens.len() == 0 {
        return Err(TraceError::NoTracepoints);
    }
    if !root_exists {
        return Err(TraceError::TracingFsUnavailable);
    }
    match parse_tracepoints(tokens) {
        Ok(ids) => Ok(Mode::Monitor { ids, pid }),
        Err(e) => Err(e),
    }
}

} // verus!
