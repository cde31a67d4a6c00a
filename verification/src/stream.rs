//! The trace stream reader: forwards newline-delimited records from the
//! live trace buffer to the console and, optionally, to a file sink.
//!
//! A read of the buffer has four outcomes, and the reader's policy over
//! them is fixed: a line is forwarded unmodified; an interrupted read is
//! retried transparently; end of stream ends the loop gracefully; any
//! other failure is fatal and leads to the same disable-all cleanup as a
//! clean shutdown.

use vstd::prelude::*;

verus! {

/// What one read of the trace buffer came back with.
pub enum ReadEvent {
    /// One newline-delimited record.
    Line(String),
    /// The read was interrupted by the arrival of a signal.
    Interrupted,
    /// The buffer reported end of stream.
    Eof,
    /// The read failed for a reason no retry covers.
    Fatal,
}

/// What the reader does with one read outcome.
#[derive(Debug, Clone, Copy, PartialEq, Eq, Structural)]
pub enum StepAction {
    /// Forward the line to every sink and keep reading.
    Forward,
    /// Retry the read; nothing is forwarded and nothing is lost.
    Retry,
    /// Stop gracefully.
    StopEof,
    /// Stop and report a fatal read error.
    StopFatal,
}

/// How a streaming pass ended.
#[derive(Debug, Clone, Copy, PartialEq, Eq, Structural)]
pub enum StreamStatus {
    /// End of stream: a graceful stop, not an error.
    Eof,
    /// A fatal read error; the caller still runs the disable-all cleanup.
    Fatal,
    /// The running flag was found cleared before any terminator came.
    Stopped,
}

/// The reader's decision for one read outcome.
pub fn classify_read(ev: &ReadEvent) -> (a: StepAction)
    ensures
        a == match ev {
            ReadEvent::Line(_) => StepAction::Forward,
            ReadEvent::Interrupted => StepAction::Retry,
            ReadEvent::Eof => StepAction::StopEof,
            ReadEvent::Fatal => StepAction::StopFatal,
        },
{
    match ev {
        ReadEvent::Line(_) => StepAction::Forward,
        ReadEvent::Interrupted => StepAction::Retry,
        ReadEvent::Eof => StepAction::StopEof,
        ReadEvent::Fatal => StepAction::StopFatal,
    }
}

/// The records a reader forwards, given the reads in `evs`: every line
/// before the first terminator, exactly once, in order; interrupted reads
/// contribute nothing and drop nothing.
pub open spec fn delivered(evs: Seq<ReadEvent>) -> Seq<Seq<char>>
    decreases evs.len(),
{
    if evs.len() == 0 {
        Seq::empty()
    } else {
        match evs[0] {
            ReadEvent::Line(l) => seq![l@] + delivered(evs.skip(1)),
            ReadEvent::Interrupted => delivered(evs.skip(1)),
            ReadEvent::Eof => Seq::empty(),
            ReadEvent::Fatal => Seq::empty(),
        }
    }
}

/// How a reader fed the reads in `evs` ends.
pub open spec fn stream_status(evs: Seq<ReadEvent>) -> StreamStatus
    decreases evs.len(),
{
    if evs.len() == 0 {
        StreamStatus::Stopped
    } else {
        match evs[0] {
            ReadEvent::Line(_) => stream_status(evs.skip(1)),
            ReadEvent::Interrupted => stream_status(evs.skip(1)),
            ReadEvent::Eof => StreamStatus::Eof,
            ReadEvent::Fatal => StreamStatus::Fatal,
        }
    }
}

/// What a streaming pass produced.
pub struct StreamOutcome {
    /// The records forwarded to the console, in order.
    pub console: Vec<String>,
    /// The same records, byte for byte, when a file sink was configured.
    pub file: Option<Vec<String>>,
    pub status: StreamStatus,
}

/// Runs the reader over a sequence of reads: `evs` holds what each
/// successive read of the trace buffer came back with, ending with a
/// terminator or, if the running flag was cleared first, simply ending.
/// Every line before the first terminator reaches the console exactly
/// once, and the file sink, when configured, receives the identical
/// records.
pub fn run_stream(evs: Vec<ReadEvent>, with_file: bool) -> (out: StreamOutcome)
    ensures
        out.console@.map_values(|l: String| l@) == delivered(evs@),
        out.status == stream_status(evs@),
        with_file ==> (out.file matches Some(f) && f@.map_values(|l: String| l@) == delivered(
            evs@,
        )),
        !with_file ==> out.file is None,
{
    let mut console: Vec<String> = Vec::new();
    let mut file: Vec<String> = Vec::new();
    let n = evs.len();
    let mut i: usize = 0;
    proof {
        assert(console@.map_values(|l: String| l@) =~= Seq::<Seq<char>>::empty());
        assert(evs@.skip(0) =~= evs@);
    }
    while i < n
        invariant
            0 <= i <= n,
            n == evs@.len(),
            console@.map_values(|l: String| l@) + delivered(evs@.skip(i as int)) =~= delivered(
                evs@,
            ),
            stream_status(evs@.skip(i as int)) == stream_status(evs@),
            file@.map_values(|l: String| l@) =~= console@.map_values(|l: String| l@),
        decreases n - i,
    {
        proof {
            assert(evs@.skip(i as int)[0] == evs@[i as int]);
            assert(evs@.skip(i as int).skip(1) =~= evs@.skip(i as int + 1));
        }
        let ghost before = console@.map_values(|l: String| l@);
        match &evs[i] {
            ReadEvent::Line(l) => {
                console.push(l.clone());
                file.push(l.clone());
                proof {
                    assert(console@.map_values(|l: String| l@) =~= before.push(
                        evs@[i as int]->Line_0@,
                    ));
                    assert(file@.map_values(|l: String| l@) =~= before.push(
                        evs@[i as int]->Line_0@,
                    ));
                }
            },
            ReadEvent::Interrupted => {},
            ReadEvent::Eof => {
                return StreamOutcome {
                    console,
                    file: if with_file {
                        Some(file)
                    } else {
                        None
                    },
                    status: StreamStatus::Eof,
                };
            },
            ReadEvent::Fatal => {
                return StreamOutcome {
                    console,
                    file: if with_file {
                        Some(file)
                    } else {
                        None
                    },
                    status: StreamStatus::Fatal,
                };
            },
        }
        i += 1;
    }
    proof {
        assert(evs@.skip(n as int) =~= Seq::<ReadEvent>::empty());
    }
    StreamOutcome {
        console,
        file: if with_file {
            Some(file)
        } else {
            None
        },
        status: StreamStatus::Stopped,
    }
}

} // verus!
