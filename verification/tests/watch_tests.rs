use dsh_desktop::dsh::Phase;
use dsh_desktop::dsh::Shared;
use dsh_desktop::dsh::Supervisor;
use dsh_desktop::orphan::grace;
use dsh_desktop::orphan::is_our_dsh;
use dsh_desktop::orphan::listing_launch;
use dsh_desktop::orphan::pid_file_path;
use dsh_desktop::orphan::read_pid;
use dsh_desktop::orphan::reap_orphan;
use dsh_desktop::orphan::reap_probed;
use dsh_desktop::orphan::reap_waited;
use dsh_desktop::orphan::ReapStep;
use dsh_desktop::orphan::GRACE_MILLIS;
use dsh_desktop::runtime::current_version;
use dsh_desktop::runtime::read_current;
use dsh_desktop::runtime::write_good;
use dsh_desktop::watch::child_status;
use dsh_desktop::watch::parse_handshake;
use dsh_desktop::watch::rollback_text;
use dsh_desktop::watch::ChildStatus;
use dsh_desktop::watch::CloseStep;
use dsh_desktop::watch::ExitStep;
use dsh_desktop::watch::WaitStep;
use dsh_desktop::watch::WindowFault;

fn running(id: u64) -> Shared {
    let mut s = Shared::default();
    s.seq = id;
    s.slot = Some(Supervisor { pid: 70, id });
    s
}

#[test]
fn handshake_lines() {
    assert_eq!(parse_handshake("dsh web: http://127.0.0.1:8080"), Some(8080));
    assert_eq!(parse_handshake("dsh web: http://127.0.0.1:8080 (LAN: http://10.0.0.2:8080)"), Some(8080));
    assert_eq!(parse_handshake("dsh web: http://127.0.0.1:65535/"), Some(65535));
    assert_eq!(parse_handshake("dsh web: http://127.0.0.1:65536"), None);
    assert_eq!(parse_handshake("dsh web: http://127.0.0.1:"), None);
    assert_eq!(parse_handshake(" dsh web: http://127.0.0.1:80"), None);
    assert_eq!(parse_handshake("hello"), None);
}

#[test]
fn output_is_logged() {
    let mut s = running(1);
    assert_eq!(s.stdout_line("hello".to_string()), ("hello\n".to_string(), None));
    let (log, port) = s.stdout_line("dsh web: http://127.0.0.1:81".to_string());
    assert_eq!(log, "dsh web: http://127.0.0.1:81\n");
    assert_eq!(port, Some(81));
    assert_eq!(s.stderr_line("oops"), "[stderr] oops\n");
    assert_eq!(s.ring[2], "[stderr] oops");
}

#[test]
fn ready_forgives_failures() {
    let mut s = running(4);
    s.fail_streak = 2;
    let report = s.on_ready(4, 8123, Some("1.0.0".to_string())).unwrap();
    assert_eq!(report.url, "http://127.0.0.1:8123");
    assert_eq!(report.good, Some("1.0.0".to_string()));
    assert_eq!(s.fail_streak, 0);
    assert!(matches!(s.dsh_status(), Phase::Ready { url } if url == "http://127.0.0.1:8123"));
}

#[test]
fn stale_children_have_no_say() {
    let mut s = running(4);
    s.fail_streak = 2;
    s.start();
    assert!(s.on_ready(4, 8123, Some("1.0.0".to_string())).is_none());
    assert_eq!(s.fail_streak, 2);
    assert!(matches!(s.phase, Phase::Starting));
    s.slot = Some(Supervisor { pid: 71, id: 5 });
    assert_eq!(s.waiter(4, ChildStatus::Exited(Some(0)), 0), WaitStep::Stale);
    assert!(matches!(s.on_exit(4, None, None, false), ExitStep::Stale));
    s.stop();
    assert_eq!(s.waiter(5, ChildStatus::Running, 0), WaitStep::Stale);
}

#[test]
fn window_faults() {
    let mut s = running(1);
    match s.window_failed(WindowFault::Address("e".to_string())) {
        Phase::StartFailed { reason, .. } => assert_eq!(reason, "握手行 URL 解析失败: e"),
        other => panic!("{:?}", other),
    }
    match s.window_failed(WindowFault::Creation("e".to_string())) {
        Phase::StartFailed { reason, .. } => assert_eq!(reason, "创建主窗口失败: e"),
        other => panic!("{:?}", other),
    }
    assert_eq!(s.fail_streak, 2);
}

#[test]
fn closing_the_main_window() {
    let mut s = running(1);
    assert_eq!(s.close_requested("quit"), CloseStep::Dismiss);
    s.on_ready(1, 80, None);
    assert_eq!(s.close_requested("quit"), CloseStep::Quit);
    assert_eq!(s.close_requested("background"), CloseStep::Hide);
    assert!(s.ui_intent.is_none());
    assert_eq!(s.close_requested("ask"), CloseStep::Ask);
    assert_eq!(s.ui_intent(), Some("close-confirm".to_string()));
    assert_eq!(s.ui_intent(), None);
}

#[test]
fn looks_at_the_child() {
    assert_eq!(child_status(Ok(None)), ChildStatus::Running);
    assert_eq!(child_status(Ok(Some(Some(3)))), ChildStatus::Exited(Some(3)));
    assert_eq!(child_status(Ok(Some(None))), ChildStatus::Exited(None));
    assert_eq!(child_status(Err("e".to_string())), ChildStatus::Exited(None));
}

#[test]
fn handshake_timeout() {
    let mut s = running(1);
    assert_eq!(s.waiter(1, ChildStatus::Running, 30_000_000_000), WaitStep::Poll);
    assert_eq!(s.waiter(1, ChildStatus::Running, 30_000_000_001), WaitStep::TimedOut);
    assert_eq!(s.waiter(1, ChildStatus::Exited(None), 30_000_000_001), WaitStep::Exited(None));
    match s.timed_out() {
        Phase::StartFailed { reason, .. } => assert_eq!(reason, "dsh 在 30s 内未打印就绪握手行"),
        other => panic!("{:?}", other),
    }
    assert_eq!(s.waiter(1, ChildStatus::Running, u128::MAX), WaitStep::Poll);
}

#[test]
fn rollback_only_to_another_complete_version() {
    let s = running(1);
    let v = |t: &str| Some(t.to_string());
    match s.on_exit(1, v("2.0.0"), v("1.0.0"), true) {
        ExitStep::RollBack { from, to } => assert_eq!((from.as_str(), to.as_str()), ("2.0.0", "1.0.0")),
        other => panic!("{:?}", other),
    }
    assert!(matches!(s.on_exit(1, v("1.0.0"), v("1.0.0"), true), ExitStep::Settle { was_starting: true }));
    assert!(matches!(s.on_exit(1, v("2.0.0"), v("1.0.0"), false), ExitStep::Settle { was_starting: true }));
    assert!(matches!(s.on_exit(1, None, v("1.0.0"), true), ExitStep::Settle { was_starting: true }));
    assert!(matches!(s.on_exit(1, v("2.0.0"), None, true), ExitStep::Settle { was_starting: true }));
    let mut s = running(1);
    s.on_ready(1, 80, None);
    assert!(matches!(s.on_exit(1, v("2.0.0"), v("1.0.0"), true), ExitStep::Settle { was_starting: false }));
    assert_eq!(rollback_text(Some(1)), "新版本启动失败（退出码 Some(1)），已自动回退");
    assert_eq!(rollback_text(None), "新版本启动失败（退出码 None），已自动回退");
}

#[test]
fn the_end_of_a_child() {
    let mut s = running(1);
    s.fail_streak = 2;
    s.push_line("last words".to_string());
    let r = s.settle_exit(1, Some(7), true);
    assert!(r.remove_pid_file && s.slot.is_none() && s.fail_streak == 3);
    match r.phase {
        Phase::Exited { code, log_tail, can_reset } => {
            assert_eq!((code, log_tail.as_str(), can_reset), (Some(7), "last words", true));
        }
        other => panic!("{:?}", other),
    }
    let mut s = running(2);
    let r = s.settle_exit(1, None, false);
    assert!(!r.remove_pid_file && s.slot.is_none() && s.fail_streak == 0);
    assert!(matches!(r.phase, Phase::Exited { code: None, can_reset: false, .. }));
    assert!(!s.settle_exit(2, None, false).remove_pid_file);
}

#[test]
fn three_seconds_of_grace() {
    let mut polls: u32 = 0;
    let mut millis: u64 = 0;
    while grace(polls, false) {
        millis += GRACE_MILLIS;
        polls += 1;
    }
    assert_eq!(millis, 3000);
    assert!(!grace(0, true));
    assert_eq!(running(1).stop_graceful(), Some(70));
    assert_eq!(Shared::default().stop_graceful(), None);
}

#[test]
fn pid_files() {
    assert_eq!(pid_file_path(Ok("/d".to_string())), Ok("/d/dsh-child.pid".to_string()));
    assert_eq!(pid_file_path(Err("e".to_string())), Err("e".to_string()));
    assert_eq!(read_pid("4711\n3\n"), Some(4711));
    assert_eq!(read_pid(" 12 \r\n"), Some(12));
    assert_eq!(read_pid("0\n"), None);
    assert_eq!(read_pid("4294967296"), None);
    assert_eq!(read_pid("x\n12"), None);
    assert_eq!(read_pid(""), None);
}

#[test]
fn orphans() {
    assert_eq!(reap_orphan(None), ReapStep::Nothing);
    assert_eq!(reap_orphan(Some("junk")), ReapStep::Discard);
    assert_eq!(reap_orphan(Some("12\n1\n")), ReapStep::Probe(12));
    assert_eq!(reap_probed(12, true), ReapStep::Terminate(12));
    assert_eq!(reap_probed(12, false), ReapStep::Discard);
    assert_eq!(reap_waited(12, true), ReapStep::Kill(12));
    assert_eq!(reap_waited(12, false), ReapStep::Discard);
}

#[test]
fn the_version_to_fall_back_to() {
    let mut s = running(1);
    let current = current_version(None, Some("1.0.0\n"));
    let good = s.on_ready(1, 80, current).unwrap().good.unwrap();
    let note = write_good("/d", &good);
    assert_eq!((note.dir.as_str(), note.tmp.as_str()), ("/d/runtime", "/d/runtime/.last-known-good.tmp"));
    assert_eq!(note.target, "/d/runtime/last-known-good");
    let s = running(2);
    match s.on_exit(2, Some("2.0.0".to_string()), read_current(Some(&note.content)), true) {
        ExitStep::RollBack { from, to } => assert_eq!((from.as_str(), to.as_str()), ("2.0.0", "1.0.0")),
        other => panic!("{:?}", other),
    }
}

#[test]
fn an_unmanaged_child_leaves_the_versions_alone() {
    let unmanaged = || current_version(Some("/opt/dsh/lib/bin.js"), Some("0.1.0"));
    let mut s = running(1);
    assert!(matches!(s.on_exit(1, unmanaged(), Some("0.0.9".to_string()), true), ExitStep::Settle { was_starting: true }));
    assert_eq!(s.on_ready(1, 80, unmanaged()).unwrap().good, None);
}

#[test]
fn our_child_is_recognised() {
    let line = "node /r/lib/bin.js web --port 0";
    assert!(is_our_dsh(Some(line), false));
    assert!(!is_our_dsh(Some(line), true));
    assert!(is_our_dsh(Some("node /r/lib/bin.js web --port 0 HOME=/h DSH_DESKTOP_CHILD=1 X=y"), true));
    assert!(!is_our_dsh(Some("vim bin.js"), false));
    assert!(!is_our_dsh(Some("server --port 1"), false));
    assert!(!is_our_dsh(None, false));
    assert_eq!(listing_launch(12, true).args, vec!["-p", "12", "-E", "-o", "command="]);
    let l = listing_launch(12, false);
    assert_eq!((l.program.as_str(), l.args), ("ps", vec!["-p".to_string(), "12".to_string(), "-o".to_string(), "command=".to_string()]));
}
