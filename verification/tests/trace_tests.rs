use tracemon::controller::{plan_startup, shutdown_notice, Controller, Mode};
use tracemon::tracefs::{
    enable_write, events_dir_path, list_events, list_header, list_line, pid_filter_write,
    trace_pipe_path, tracefs_base, DirEntry,
};
use tracemon::tracepoint::{exit_code, parse_tracepoint, parse_tracepoints, TraceError, TracepointId};

const ROOT: &str = "/sys/kernel/debug/tracing";

fn id(subsystem: &str, event: &str) -> TracepointId {
    TracepointId { subsystem: subsystem.to_string(), event: event.to_string() }
}

#[test]
fn parse_valid_token() {
    let id = parse_tracepoint("syscalls:sys_enter_open").unwrap();
    assert_eq!(id.subsystem, "syscalls");
    assert_eq!(id.event, "sys_enter_open");
}

#[test]
fn parse_splits_at_first_colon() {
    let id = parse_tracepoint("a:b:c").unwrap();
    assert_eq!(id.subsystem, "a");
    assert_eq!(id.event, "b:c");
}

#[test]
fn parse_rejects_malformed_tokens() {
    assert!(parse_tracepoint("no_colon_here").is_none());
    assert!(parse_tracepoint(":event").is_none());
    assert!(parse_tracepoint("subsystem:").is_none());
    assert!(parse_tracepoint(":").is_none());
    assert!(parse_tracepoint("").is_none());
}

#[test]
fn parse_list_reports_first_bad_index() {
    let raw = vec!["a:b".to_string(), "bad".to_string(), ":x".to_string()];
    assert_eq!(parse_tracepoints(&raw), Err(TraceError::InvalidTracepoint { index: 1 }));
}

#[test]
fn parse_list_in_order() {
    let raw = vec!["sched:sched_switch".to_string(), "syscalls:sys_enter_open".to_string()];
    let ids = parse_tracepoints(&raw).unwrap();
    assert_eq!(ids.len(), 2);
    assert_eq!(ids[0].subsystem, "sched");
    assert_eq!(ids[0].event, "sched_switch");
    assert_eq!(ids[1].subsystem, "syscalls");
    assert_eq!(ids[1].event, "sys_enter_open");
}

#[test]
fn exit_codes_are_distinct() {
    let codes = vec![
        exit_code(&Ok(())),
        exit_code(&Err(TraceError::InvalidTracepoint { index: 0 })),
        exit_code(&Err(TraceError::NoTracepoints)),
        exit_code(&Err(TraceError::TracingFsUnavailable)),
        exit_code(&Err(TraceError::EnableFailed { index: 0 })),
        exit_code(&Err(TraceError::StreamReadFailed)),
    ];
    for i in 0..codes.len() {
        for j in 0..codes.len() {
            if i != j {
                assert_ne!(codes[i], codes[j]);
            }
        }
    }
    assert_eq!(codes[0], 0);
}

#[test]
fn paths_under_the_tracing_root() {
    assert_eq!(tracefs_base(), ROOT);
    let w = enable_write(ROOT, &id("syscalls", "sys_enter_open"));
    assert_eq!(w.path, "/sys/kernel/debug/tracing/events/syscalls/sys_enter_open/enable");
    assert_eq!(w.content, "1");
    assert_eq!(events_dir_path(ROOT, "sched"), "/sys/kernel/debug/tracing/events/sched");
    assert_eq!(trace_pipe_path(ROOT), "/sys/kernel/debug/tracing/trace_pipe");
}

#[test]
fn pid_filter_writes_decimal_and_newline() {
    let w = pid_filter_write(ROOT, 1234);
    assert_eq!(w.path, "/sys/kernel/debug/tracing/set_ftrace_pid");
    assert_eq!(w.content, "1234\n");
    let w0 = pid_filter_write(ROOT, 0);
    assert_eq!(w0.content, "0\n");
    let wmax = pid_filter_write(ROOT, u32::MAX);
    assert_eq!(wmax.content, "4294967295\n");
}

#[test]
fn startup_enables_in_supplied_order() {
    let ids = vec![id("syscalls", "sys_enter_open"), id("sched", "sched_switch")];
    let mut c = Controller::new(ids);
    let outcomes = vec![true, true];
    let (writes, res) = c.enable_all(ROOT, &outcomes);
    assert_eq!(res, Ok(()));
    assert_eq!(writes.len(), 2);
    assert_eq!(writes[0].path, "/sys/kernel/debug/tracing/events/syscalls/sys_enter_open/enable");
    assert_eq!(writes[1].path, "/sys/kernel/debug/tracing/events/sched/sched_switch/enable");
    assert!(writes.iter().all(|w| w.content == "1"));
    // the Enabled-set holds exactly those identifiers, in order
    let disables = c.shutdown(ROOT);
    assert_eq!(disables.len(), 2);
    assert_eq!(
        disables[0].path,
        "/sys/kernel/debug/tracing/events/syscalls/sys_enter_open/enable"
    );
    assert_eq!(disables[1].path, "/sys/kernel/debug/tracing/events/sched/sched_switch/enable");
}

#[test]
fn startup_aborts_at_first_failure_without_rollback() {
    let ids = vec![id("a", "x"), id("b", "y"), id("c", "z")];
    let mut c = Controller::new(ids);
    let outcomes = vec![true, false, true];
    let (writes, res) = c.enable_all(ROOT, &outcomes);
    assert_eq!(res, Err(TraceError::EnableFailed { index: 1 }));
    assert_eq!(exit_code(&res), 4);
    // the failing write was the last attempted
    assert_eq!(writes.len(), 2);
    // only the first tracepoint stays in the Enabled-set
    let disables = c.shutdown(ROOT);
    assert_eq!(disables.len(), 1);
    assert_eq!(disables[0].path, "/sys/kernel/debug/tracing/events/a/x/enable");
}

#[test]
fn shutdown_disables_each_once_and_clears_flag() {
    let ids = vec![id("syscalls", "sys_enter_open")];
    let mut c = Controller::new(ids);
    let (_, res) = c.enable_all(ROOT, &vec![true]);
    assert_eq!(res, Ok(()));
    assert!(c.is_running());
    let disables = c.shutdown(ROOT);
    assert!(!c.is_running());
    assert_eq!(disables.len(), 1);
    assert_eq!(disables[0].content, "0");
    assert_eq!(disables[0].path, "/sys/kernel/debug/tracing/events/syscalls/sys_enter_open/enable");
}

#[test]
fn shutdown_twice_issues_nothing_more() {
    let ids = vec![id("a", "x"), id("b", "y")];
    let mut c = Controller::new(ids);
    let (_, res) = c.enable_all(ROOT, &vec![true, true]);
    assert_eq!(res, Ok(()));
    let first = c.shutdown(ROOT);
    assert_eq!(first.len(), 2);
    let second = c.shutdown(ROOT);
    assert!(second.is_empty());
    assert!(!c.is_running());
}

#[test]
fn plan_refuses_empty_token_list() {
    let r = plan_startup(None, &Vec::new(), None, true);
    assert_eq!(r.unwrap_err(), TraceError::NoTracepoints);
    assert_eq!(exit_code(&Err(TraceError::NoTracepoints)), 2);
}

#[test]
fn plan_refuses_missing_tracing_root() {
    // tracing root absent: a fatal, user-facing condition, before any write
    let tokens = vec!["syscalls:sys_enter_open".to_string()];
    let r = plan_startup(None, &tokens, None, false);
    let e = r.unwrap_err();
    assert_eq!(e, TraceError::TracingFsUnavailable);
    assert_ne!(exit_code(&Err(e)), 0);
}

#[test]
fn plan_refuses_malformed_token() {
    let tokens = vec!["syscalls:sys_enter_open".to_string(), "oops".to_string()];
    let r = plan_startup(None, &tokens, None, true);
    assert_eq!(r.unwrap_err(), TraceError::InvalidTracepoint { index: 1 });
}

#[test]
fn plan_monitor_carries_ids_and_pid() {
    let tokens = vec!["syscalls:sys_enter_open".to_string()];
    match plan_startup(None, &tokens, Some(42), true) {
        Ok(Mode::Monitor { ids, pid }) => {
            assert_eq!(ids.len(), 1);
            assert_eq!(ids[0].subsystem, "syscalls");
            assert_eq!(ids[0].event, "sys_enter_open");
            assert_eq!(pid, Some(42));
        },
        other => panic!("expected monitor mode, got {:?}", other.is_ok()),
    }
}

#[test]
fn discovery_mode_lists_and_toggles_nothing() {
    // list mode short-circuits: no tracepoint ids, hence no enable write
    match plan_startup(Some("syscalls".to_string()), &Vec::new(), None, true) {
        Ok(Mode::List { subsystem }) => assert_eq!(subsystem, "syscalls"),
        _ => panic!("expected list mode"),
    }
    let entries = vec![
        DirEntry { name: "sys_enter_open".to_string(), is_dir: true },
        DirEntry { name: "enable".to_string(), is_dir: false },
        DirEntry { name: "sys_exit_open".to_string(), is_dir: true },
    ];
    let names = list_events(entries);
    assert_eq!(names, vec!["sys_enter_open".to_string(), "sys_exit_open".to_string()]);
    assert_eq!(list_header("syscalls"), "Available events in subsystem 'syscalls':");
    assert_eq!(list_line("sys_enter_open"), "  sys_enter_open");
}

#[test]
fn interrupted_run_cleans_up_and_exits_zero() {
    // one tracepoint enabled, streaming begins, a signal arrives
    let tokens = vec!["syscalls:sys_enter_open".to_string()];
    let plan = plan_startup(None, &tokens, None, true);
    let ids = match plan {
        Ok(Mode::Monitor { ids, .. }) => ids,
        _ => panic!("expected monitor mode"),
    };
    let mut c = Controller::new(ids);
    let (writes, res) = c.enable_all(ROOT, &vec![true]);
    assert_eq!(res, Ok(()));
    assert_eq!(writes.len(), 1);
    assert!(c.is_running());
    // the handler: notice, disable pass, flag cleared
    assert_eq!(shutdown_notice(), "\nCaught signal, cleaning up...");
    let disables = c.shutdown(ROOT);
    assert_eq!(disables.len(), 1);
    assert_eq!(disables[0].content, "0");
    assert!(!c.is_running());
    // the stream loop sees the cleared flag and stops; the run is clean
    assert_eq!(exit_code(&Ok(())), 0);
}
