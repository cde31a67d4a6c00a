//! The whole monitoring lifecycle as one function over simulated outcomes:
//! enabling, streaming, disabling, exit.
//!
//! The process moves through enabling, then streaming, then disabling, and
//! exits. Enabling aborts at the first failed write and skips straight to
//! the exit, leaving what was already enabled on. Streaming ends on end of
//! stream, a cleared flag or a fatal read error, and every one of those
//! paths runs the same disable-all pass before the exit code is settled.

use vstd::prelude::*;
use crate::controller::Controller;
use crate::stream::{delivered, run_stream, stream_status, ReadEvent, StreamStatus};
use crate::tracefs::{write_is_disable, write_is_enable, FsWrite};
use crate::tracepoint::{exit_code, TraceError, TracepointId};

verus! {

/// Everything one run of the monitor did, in order.
pub struct MonitorRun {
    /// The enable writes issued, one per requested tracepoint until the
    /// first failure.
    pub enable_writes: Vec<FsWrite>,
    /// The records forwarded to the console.
    pub console: Vec<String>,
    /// The records appended to the file sink, when one was configured.
    pub file: Option<Vec<String>>,
    /// The disable writes of the cleanup pass.
    pub disable_writes: Vec<FsWrite>,
    /// The process exit code.
    pub exit: i32,
}

/// Runs the monitor over simulated outcomes: `enable_ok[i]` says whether
/// the enable write for `ids[i]` reached the kernel, and `evs` holds what
/// each successive read of the trace buffer came back with.
///
/// A failed enable aborts before streaming: nothing is forwarded, nothing
/// is disabled, and the exit code names the enable failure. Otherwise
/// every line before the stream's first terminator is forwarded exactly
/// once, the cleanup pass disables exactly the enabled tracepoints — on
/// the graceful paths and on the fatal-read path alike — and the exit
/// code is zero unless the stream failed.
pub fn run_monitor(
    root: &str,
    ids: Vec<TracepointId>,
    enable_ok: &Vec<bool>,
    evs: Vec<ReadEvent>,
    with_file: bool,
) -> (run: MonitorRun)
    requires
        enable_ok@.len() == ids@.len(),
    ensures
        forall|i: int|
            0 <= i < run.enable_writes@.len() ==> write_is_enable(
                #[trigger] run.enable_writes@[i],
                root@,
                ids@.map_values(|id: TracepointId| id@)[i],
            ),
        if forall|i: int| 0 <= i < enable_ok@.len() ==> enable_ok@[i] {
            &&& run.enable_writes@.len() == ids@.len()
            &&& run.console@.map_values(|l: String| l@) == delivered(evs@)
            &&& (with_file ==> (run.file matches Some(f) && f@.map_values(|l: String| l@)
                == delivered(evs@)))
            &&& (!with_file ==> run.file is None)
            &&& run.disable_writes@.len() == ids@.len()
            &&& forall|i: int|
                0 <= i < ids@.len() ==> write_is_disable(
                    #[trigger] run.disable_writes@[i],
                    root@,
                    ids@.map_values(|id: TracepointId| id@)[i],
                )
            &&& run.exit == if stream_status(evs@) is Fatal {
                exit_code_of_stream_failure()
            } else {
                0
            }
        } else {
            &&& run.console@.len() == 0
            &&& run.file is None
            &&& run.disable_writes@.len() == 0
            &&& run.exit == exit_code_of_enable_failure()
            &&& run.exit != 0
        },
{
    let mut controller = Controller::new(ids);
    let (enable_writes, res) = controller.enable_all(root, enable_ok);
    match res {
        Err(e) => {
            let failed: Result<(), TraceError> = Err(e);
            MonitorRun {
                enable_writes,
                console: Vec::new(),
                file: None,
                disable_writes: Vec::new(),
                exit: exit_code(&failed),
            }
        },
        Ok(()) => {
            let out = run_stream(evs, with_file);
            let disable_writes = controller.shutdown(root);
            let exit: i32 = match out.status {
                StreamStatus::Fatal => {
                    let failed: Result<(), TraceError> = Err(TraceError::StreamReadFailed);
                    exit_code(&failed)
                },
                _ => 0,
            };
            MonitorRun { enable_writes, console: out.console, file: out.file, disable_writes, exit }
        },
    }
}

/// The exit code of a run whose trace stream failed.
pub open spec fn exit_code_of_stream_failure() -> i32 {
    crate::tracepoint::exit_code_spec(TraceError::StreamReadFailed)
}

/// The exit code of a run that could not enable a requested tracepoint.
pub open spec fn exit_code_of_enable_failure() -> i32 {
    4
}

} // verus!
