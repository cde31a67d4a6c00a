//! The tracing control filesystem, described as data: the paths the monitor
//! touches and the bytes it writes, so that every effect can be stated.

use vstd::prelude::*;
use vstd::string::*;
use crate::tracepoint::TracepointId;

verus! {

/// Where the tracing control filesystem is conventionally mounted.
pub fn tracefs_base() -> (r: &'static str)
    ensures
        r@ == "/sys/kernel/debug/tracing"@,
{
    "/sys/kernel/debug/tracing"
}

/// One write of `content` to the file at `path`.
pub struct FsWrite {
    pub path: String,
    pub content: String,
}

/// The control file that toggles one tracepoint:
/// `<root>/events/<subsystem>/<event>/enable`.
pub open spec fn enable_path_spec(root: Seq<char>, id: (Seq<char>, Seq<char>)) -> Seq<char> {
    root + "/events/"@ + id.0 + "/"@ + id.1 + "/enable"@
}

/// The directory that holds one subsystem's events: `<root>/events/<subsystem>`.
pub open spec fn events_dir_spec(root: Seq<char>, subsystem: Seq<char>) -> Seq<char> {
    root + "/events/"@ + subsystem
}

/// The file that restricts tracing to one process: `<root>/set_ftrace_pid`.
pub open spec fn pid_filter_path_spec(root: Seq<char>) -> Seq<char> {
    root + "/set_ftrace_pid"@
}

/// The live stream of trace records: `<root>/trace_pipe`.
pub open spec fn trace_pipe_path_spec(root: Seq<char>) -> Seq<char> {
    root + "/trace_pipe"@
}

pub fn enable_path(root: &str, id: &TracepointId) -> (r: String)
    ensures
        r@ == enable_path_spec(root@, id@),
{
    let mut s = root.to_owned();
    s.append("/events/");
    s.append(id.subsystem.as_str());
    s.append("/");
    s.append(id.event.as_str());
    s.append("/enable");
    s
}

pub fn events_dir_path(root: &str, subsystem: &str) -> (r: String)
    ensures
        r@ == events_dir_spec(root@, subsystem@),
{
    let mut s = root.to_owned();
    s.append("/events/");
    s.append(subsystem);
    s
}

pub fn pid_filter_path(root: &str) -> (r: String)
    ensures
        r@ == pid_filter_path_spec(root@),
{
    let mut s = root.to_owned();
    s.append("/set_ftrace_pid");
    s
}

pub fn trace_pipe_path(root: &str) -> (r: String)
    ensures
        r@ == trace_pipe_path_spec(root@),
{
    let mut s = root.to_owned();
    s.append("/trace_pipe");
    s
}

/// `w` turns the tracepoint `id` on: the byte `1` written to its control file.
pub open spec fn write_is_enable(w: FsWrite, root: Seq<char>, id: (Seq<char>, Seq<char>)) -> bool {
    &&& w.path@ == enable_path_spec(root, id)
    &&& w.content@ == seq!['1']
}

/// `w` turns the tracepoint `id` off: the byte `0` written to its control file.
pub open spec fn write_is_disable(w: FsWrite, root: Seq<char>, id: (Seq<char>, Seq<char>)) -> bool {
    &&& w.path@ == enable_path_spec(root, id)
    &&& w.content@ == seq!['0']
}

pub fn enable_write(root: &str, id: &TracepointId) -> (w: FsWrite)
    ensures
        write_is_enable(w, root@, id@),
{
    proof {
        reveal_strlit("1");
        assert("1"@ =~= seq!['1']);
    }
    FsWrite { path: enable_path(root, id), content: "1".to_owned() }
}

pub fn disable_write(root: &str, id: &TracepointId) -> (w: FsWrite)
    ensures
        write_is_disable(w, root@, id@),
{
    proof {
        reveal_strlit("0");
        assert("0"@ =~= seq!['0']);
    }
    FsWrite { path: enable_path(root, id), content: "0".to_owned() }
}

/// The decimal digits of `n`, most significant first.
pub open spec fn dec_spec(n: nat) -> Seq<char>
    decreases n,
{
    if n < 10 {
        seq![digit_char(n)]
    } else {
        dec_spec(n / 10).push(digit_char(n % 10))
    }
}

pub open spec fn digit_char(d: nat) -> char {
    if d == 0 {
        '0'
    } else if d == 1 {
        '1'
    } else if d == 2 {
        '2'
    } else if d == 3 {
        '3'
    } else if d == 4 {
        '4'
    } else if d == 5 {
        '5'
    } else if d == 6 {
        '6'
    } else if d == 7 {
        '7'
    } else if d == 8 {
        '8'
    } else {
        '9'
    }
}

fn digit_str(d: u32) -> (r: &'static str)
    requires
        d < 10,
    ensures
        r@ =~= seq![digit_char(d as nat)],
{
    match d {
        0 => {
            proof {
                reveal_strlit("0");
            }
            "0"
        },
        1 => {
            proof {
                reveal_strlit("1");
            }
            "1"
        },
        2 => {
            proof {
                reveal_strlit("2");
            }
            "2"
        },
        3 => {
            proof {
                reveal_strlit("3");
            }
            "3"
        },
        4 => {
            proof {
                reveal_strlit("4");
            }
            "4"
        },
        5 => {
            proof {
                reveal_strlit("5");
            }
            "5"
        },
        6 => {
            proof {
                reveal_strlit("6");
            }
            "6"
        },
        7 => {
            proof {
                reveal_strlit("7");
            }
            "7"
        },
        8 => {
            proof {
                reveal_strlit("8");
            }
            "8"
        },
        _ => {
            proof {
                reveal_strlit("9");
            }
            "9"
        },
    }
}

/// Renders `n` in decimal.
pub fn dec_u32(n: u32) -> (r: String)
    ensures
        r@ == dec_spec(n as nat),
    decreases n,
{
    let d = digit_str(n % 10);
    if n < 10 {
        d.to_owned()
    } else {
        let prefix = dec_u32(n / 10);
        let r = prefix.concat(d);
        proof {
            assert(r@ =~= dec_spec((n / 10) as nat).push(digit_char((n % 10) as nat)));
        }
        r
    }
}

/// The bytes that restrict tracing to `pid`: its decimal digits and a newline.
pub open spec fn pid_content_spec(pid: u32) -> Seq<char> {
    dec_spec(pid as nat).push('\n')
}

/// The write that applies a PID filter, replacing any previous one.
pub fn pid_filter_write(root: &str, pid: u32) -> (w: FsWrite)
    ensures
        w.path@ == pid_filter_path_spec(root@),
        w.content@ == pid_content_spec(pid),
{
    let digits = dec_u32(pid);
    let content = digits.concat("\n");
    proof {
        reveal_strlit("\n");
        assert(content@ =~= pid_content_spec(pid));
    }
    FsWrite { path: pid_filter_path(root), content }
}

/// What a directory listing reports of one entry.
pub struct DirEntry {
    pub name: String,
    pub is_dir: bool,
}

/// The names of the directories among `entries`, in order: each one is an
/// available event of the subsystem whose directory was listed.
pub open spec fn event_names(entries: Seq<DirEntry>) -> Seq<Seq<char>>
    decreases entries.len(),
{
    if entries.len() == 0 {
        Seq::empty()
    } else {
        let head: Seq<Seq<char>> = if entries[0].is_dir {
            seq![entries[0].name@]
        } else {
            Seq::empty()
        };
        head + event_names(entries.skip(1))
    }
}

/// Filters a directory listing down to the event directories, keeping the
/// order in which the filesystem reported them. Nothing is toggled here:
/// discovery produces no write.
pub fn list_events(entries: Vec<DirEntry>) -> (names: Vec<String>)
    ensures
        names@.map_values(|s: String| s@) == event_names(entries@),
{
    let mut names: Vec<String> = Vec::new();
    let n = entries.len();
    let mut i: usize = 0;
    proof {
        assert(names@.map_values(|s: String| s@) =~= Seq::<Seq<char>>::empty());
        assert(entries@.skip(0) =~= entries@);
    }
    while i < n
        invariant
            0 <= i <= n,
            n == entries@.len(),
            names@.map_values(|s: String| s@) + event_names(entries@.skip(i as int))
                =~= event_names(entries@),
        decreases n - i,
    {
        proof {
            assert(entries@.skip(i as int).len() > 0);
            assert(entries@.skip(i as int)[0] == entries@[i as int]);
            assert(entries@.skip(i as int).skip(1) =~= entries@.skip(i as int + 1));
        }
        let ghost before = names@.map_values(|s: String| s@);
        if entries[i].is_dir {
            names.push(entries[i].name.clone());
            proof {
                assert(names@.map_values(|s: String| s@) =~= before.push(entries@[i as int].name@));
            }
        }
        i += 1;
    }
    proof {
        assert(entries@.skip(n as int) =~= Seq::<DirEntry>::empty());
    }
    names
}

/// The banner above a subsystem's events.
pub fn list_header(subsystem: &str) -> (r: String)
    ensures
        r@ == "Available events in subsystem '"@ + subsystem@ + "':"@,
{
    let mut s = String::new();
    s.append("Available events in subsystem '");
    s.append(subsystem);
    s.append("':");
    proof {
        assert(s@ =~= "Available events in subsystem '"@ + subsystem@ + "':"@);
    }
    s
}

/// One line of discovery output: the event name, indented.
pub fn list_line(name: &str) -> (r: String)
    ensures
        r@ == "  "@ + name@,
{
    let mut s = String::new();
    s.append("  ");
    s.append(name);
    proof {
        assert(s@ =~= "  "@ + name@);
    }
    s
}

} // verus!
