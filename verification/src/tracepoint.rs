//! Tracepoint identifiers and the parsing of `subsystem:event` tokens.

use vstd::prelude::*;
use vstd::string::*;

verus! {

/// One kernel tracepoint, named by its subsystem and event.
///
/// A well-formed identifier has non-empty parts and no `':'` in the
/// subsystem, so it maps to exactly one control file.
#[derive(Debug, PartialEq, Eq)]
pub struct TracepointId {
    pub subsystem: String,
    pub event: String,
}

impl View for TracepointId {
    type V = (Seq<char>, Seq<char>);

    open spec fn view(&self) -> (Seq<char>, Seq<char>) {
        (self.subsystem@, self.event@)
    }
}

impl TracepointId {
    pub open spec fn wf(self) -> bool {
        &&& self.subsystem@.len() > 0
        &&& self.event@.len() > 0
        &&& forall|j: int| 0 <= j < self.subsystem@.len() ==> self.subsystem@[j] != ':'
    }

    /// A fresh value naming the same tracepoint.
    pub fn duplicate(&self) -> (r: TracepointId)
        ensures
            r@ == self@,
            r.wf() == self.wf(),
    {
        TracepointId { subsystem: self.subsystem.clone(), event: self.event.clone() }
    }
}

/// `i` is the position of the first `':'` in `s`.
pub open spec fn is_first_colon(s: Seq<char>, i: int) -> bool {
    &&& 0 <= i < s.len()
    &&& s[i] == ':'
    &&& forall|j: int| 0 <= j < i ==> s[j] != ':'
}

pub proof fn lemma_first_colon_unique(s: Seq<char>, i: int, j: int)
    requires
        is_first_colon(s, i),
        is_first_colon(s, j),
    ensures
        i == j,
{
}

/// The position of the first `':'` in `s`, where one exists.
pub open spec fn colon_of(s: Seq<char>) -> int {
    choose|i: int| is_first_colon(s, i)
}

/// A token is well formed when a `':'` splits it into two non-empty parts.
pub open spec fn token_wf(s: Seq<char>) -> bool {
    exists|i: int| is_first_colon(s, i) && 0 < i && i + 1 < s.len()
}

/// The part before the first `':'`.
pub open spec fn subsystem_of(s: Seq<char>) -> Seq<char> {
    s.subrange(0, colon_of(s))
}

/// The part after the first `':'`.
pub open spec fn event_of(s: Seq<char>) -> Seq<char> {
    s.subrange(colon_of(s) + 1, s.len() as int)
}

/// Splits one `subsystem:event` token at its first `':'`; `None` when the
/// token has no `':'` or either part would be empty.
pub fn parse_tracepoint(token: &str) -> (r: Option<TracepointId>)
    ensures
        match r {
            Some(id) => {
                &&& token_wf(token@)
                &&& id.subsystem@ == subsystem_of(token@)
                &&& id.event@ == event_of(token@)
                &&& id.wf()
            },
            None => !token_wf(token@),
        },
{
    let len = token.unicode_len();
    let mut i: usize = 0;
    while i < len && token.get_char(i) != ':'
        invariant
            len == token@.len(),
            0 <= i <= len,
            forall|j: int| 0 <= j < i ==> token@[j] != ':',
        decreases len - i,
    {
        i += 1;
    }
    if i >= len {
        proof {
            if token_wf(token@) {
                let k = choose|k: int| is_first_colon(token@, k) && 0 < k && k + 1 < token@.len();
                assert(token@[k] != ':');
            }
        }
        return None;
    }
    proof {
        assert(is_first_colon(token@, i as int));
    }
    if i == 0 || i + 1 >= len {
        proof {
            if token_wf(token@) {
                let k = choose|k: int| is_first_colon(token@, k) && 0 < k && k + 1 < token@.len();
                lemma_first_colon_unique(token@, k, i as int);
            }
        }
        return None;
    }
    proof {
        lemma_first_colon_unique(token@, colon_of(token@), i as int);
    }
    let sub = token.substring_char(0, i);
    let ev = token.substring_char(i + 1, len);
    Some(TracepointId { subsystem: sub.to_owned(), event: ev.to_owned() })
}

/// The fatal conditions of the monitor, each mapped to its own exit code.
#[derive(Debug, Clone, Copy, PartialEq, Eq, Structural)]
pub enum TraceError {
    /// A token was not of the form `subsystem:event`.
    InvalidTracepoint { index: usize },
    /// No tracepoint was supplied.
    NoTracepoints,
    /// The tracing control filesystem is not mounted or not accessible.
    TracingFsUnavailable,
    /// Turning on the tracepoint at this position of the requested list failed.
    EnableFailed { index: usize },
    /// The trace stream failed with an error that no retry covers.
    StreamReadFailed,
}

pub open spec fn exit_code_spec(e: TraceError) -> i32 {
    match e {
        TraceError::InvalidTracepoint { .. } => 1,
        TraceError::NoTracepoints => 2,
        TraceError::TracingFsUnavailable => 3,
        TraceError::EnableFailed { .. } => 4,
        TraceError::StreamReadFailed => 5,
    }
}

/// The process exit code: `0` for a clean run, a distinct non-zero code for
/// each fatal condition.
pub fn exit_code(outcome: &Result<(), TraceError>) -> (code: i32)
    ensures
        match outcome {
            Ok(()) => code == 0,
            Err(e) => code == exit_code_spec(*e) && code != 0,
        },
{
    match outcome {
        Ok(()) => 0,
        Err(TraceError::InvalidTracepoint { .. }) => 1,
        Err(TraceError::NoTracepoints) => 2,
        Err(TraceError::TracingFsUnavailable) => 3,
        Err(TraceError::EnableFailed { .. }) => 4,
        Err(TraceError::StreamReadFailed) => 5,
    }
}

/// Scripting callers can tell the fatal conditions apart: equal exit codes
/// come only from errors of the same kind.
pub proof fn lemma_exit_codes_distinct(a: TraceError, b: TraceError)
    requires
        exit_code_spec(a) == exit_code_spec(b),
    ensures
        match (a, b) {
            (TraceError::InvalidTracepoint { .. }, TraceError::InvalidTracepoint { .. }) => true,
            (TraceError::NoTracepoints, TraceError::NoTracepoints) => true,
            (TraceError::TracingFsUnavailable, TraceError::TracingFsUnavailable) => true,
            (TraceError::EnableFailed { .. }, TraceError::EnableFailed { .. }) => true,
            (TraceError::StreamReadFailed, TraceError::StreamReadFailed) => true,
            _ => false,
        },
{
}

/// All tokens split cleanly into `subsystem:event` pairs.
pub open spec fn all_tokens_wf(tokens: Seq<String>) -> bool {
    forall|i: int| 0 <= i < tokens.len() ==> token_wf(#[trigger] tokens[i]@)
}

/// `k` is the position of the first malformed token.
pub open spec fn is_first_bad_token(tokens: Seq<String>, k: int) -> bool {
    &&& 0 <= k < tokens.len()
    &&& !token_wf(tokens[k]@)
    &&& forall|j: int| 0 <= j < k ==> token_wf(#[trigger] tokens[j]@)
}

/// Splits every token, in order; stops at the first malformed one.
pub fn parse_tracepoints(raw: &Vec<String>) -> (r: Result<Vec<TracepointId>, TraceError>)
    ensures
        match r {
            Ok(ids) => {
                &&& all_tokens_wf(raw@)
                &&& ids@.len() == raw@.len()
                &&& forall|i: int|
                    0 <= i < ids@.len() ==> (#[trigger] ids@[i])@ == (
                    subsystem_of(raw@[i]@),
                    event_of(raw@[i]@),
                )
                &&& forall|i: int| 0 <= i < ids@.len() ==> (#[trigger] ids@[i]).wf()
            },
            Err(e) => e matches TraceError::InvalidTracepoint { index } && is_first_bad_token(
                raw@,
                index as int,
            ),
        },
{
    let mut ids: Vec<TracepointId> = Vec::new();
    let mut i: usize = 0;
    while i < raw.len()
        invariant
            0 <= i <= raw@.len(),
            ids@.len() == i,
            forall|j: int| 0 <= j < i ==> token_wf(#[trigger] raw@[j]@),
            forall|j: int|
                0 <= j < i ==> (#[trigger] ids@[j])@ == (subsystem_of(raw@[j]@), event_of(raw@[j]@)),
            forall|j: int| 0 <= j < i ==> (#[trigger] ids@[j]).wf(),
        decreases raw@.len() - i,
    {
        match parse_tracepoint(raw[i].as_str()) {
            Some(id) => {
                ids.push(id);
            },
            None => {
                return Err(TraceError::InvalidTracepoint { index: i });
            },
        }
        i += 1;
    }
    Ok(ids)
}

} // verus!
