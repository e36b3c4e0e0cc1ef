use dsh_desktop::child::app_data_dir;
use dsh_desktop::child::check_node;
use dsh_desktop::child::child_launch;
use dsh_desktop::child::child_workspace;
use dsh_desktop::child::logs_dir;
use dsh_desktop::child::open_log;
use dsh_desktop::dsh::Phase;
use dsh_desktop::dsh::Shared;
use dsh_desktop::dsh::Supervisor;
use dsh_desktop::launch::Output;
use dsh_desktop::resolve::Resolve;
use dsh_desktop::start::StartStep;
use dsh_desktop::start::INSTALL_NOTE;
use dsh_desktop::watch::InstallEnd;

fn ended(success: bool, stdout: &str) -> Output {
    Output { success, code: Some(if success { 0 } else { 1 }), stdout: stdout.to_string(), stderr: String::new() }
}

fn expect_failed(step: StartStep, streak: u32) -> (Option<String>, Option<u32>, String, String) {
    match step {
        StartStep::Failed { last_log, kill, phase, error } => match phase {
            Phase::StartFailed { reason, can_reset, .. } => {
                assert_eq!(can_reset, streak >= 3);
                (last_log, kill, reason, error)
            }
            other => panic!("{:?}", other),
        },
        other => panic!("{:?}", other),
    }
}

#[test]
fn default_state() {
    let s = Shared::default();
    assert!(matches!(s.phase, Phase::Starting));
    assert!(matches!(Phase::default(), Phase::Starting));
    assert!(s.slot.is_none() && s.ring.is_empty() && s.seq == 0 && s.fail_streak == 0);
    assert!(!s.install_busy() && s.ui_intent.is_none() && s.toast.is_none());
}

#[test]
fn ring_keeps_the_latest_lines() {
    let mut s = Shared::default();
    for i in 0..405 {
        s.push_line(format!("line {}", i));
    }
    assert_eq!(s.ring.len(), 400);
    assert_eq!(s.ring[0], "line 5");
    assert_eq!(s.ring[399], "line 404");
}

#[test]
fn tail_shows_twelve_lines_that_are_not_blank() {
    let mut s = Shared::default();
    for i in 0..20 {
        s.push_line(format!("l{}", i));
        s.push_line("  \t".to_string());
    }
    let lines: Vec<String> = (8..20).map(|i| format!("l{}", i)).collect();
    assert_eq!(s.log_tail(), lines.join("\n"));
    assert_eq!(Shared::default().log_tail(), "");
}

#[test]
fn reset_is_offered_at_the_third_failure() {
    let mut s = Shared::default();
    for n in 1..=3u32 {
        match s.fail_start("why".to_string()) {
            Phase::StartFailed { reason, can_reset, .. } => {
                assert_eq!(reason, "why");
                assert_eq!(can_reset, n == 3);
            }
            other => panic!("{:?}", other),
        }
        assert_eq!(s.fail_streak, n);
    }
    s.fail_streak = u32::MAX;
    s.fail_start("why".to_string());
    assert_eq!(s.fail_streak, 0);
}

#[test]
fn a_start_that_goes_well() {
    let mut s = Shared::default();
    s.slot = Some(Supervisor { pid: 1, id: 0 });
    let id = s.start();
    assert_eq!((id, s.seq), (1, 1));
    s.stop();
    assert!(s.slot.is_none());
    assert!(matches!(s.enter_starting(), Phase::Starting));
    let bin = match s.resolved(Resolve::Ready("/v/bin.js".to_string())) {
        StartStep::CheckNode { bin } => bin,
        other => panic!("{:?}", other),
    };
    let (bin, version) = match s.node_checked(bin, check_node(Ok(ended(true, "v22.1.0\n")))) {
        StartStep::OpenLog { bin, node_version } => (bin, node_version),
        other => panic!("{:?}", other),
    };
    assert_eq!(version, "v22.1.0");
    let shown = format!("{:?}", bin);
    let line = "[dsh] node v22.1.0, bin \"/v/bin.js\", log \"/l\"";
    match s.log_opened(&version, &shown, Ok("\"/l\"".to_string())) {
        StartStep::Spawn { log } => assert_eq!(log, format!("{}\n", line)),
        other => panic!("{:?}", other),
    }
    assert_eq!(s.ring[0], line);
    match s.spawned(Ok(4711)) {
        StartStep::FindDataDir { pid } => assert_eq!(pid, 4711),
        other => panic!("{:?}", other),
    }
    match s.data_dir_found(4711, Ok("/data".to_string())) {
        StartStep::CreateDataDir { pid, dir } => assert_eq!((pid, dir.as_str()), (4711, "/data")),
        other => panic!("{:?}", other),
    }
    assert!(matches!(s.data_dir_made(4711, Ok(())), StartStep::FindPidFile { pid: 4711 }));
    match s.pid_file_found(4711, id, Ok("/data/dsh-child.pid".to_string())) {
        StartStep::Watch { pid_path, pid_file, log } => {
            assert_eq!(pid_path, "/data/dsh-child.pid");
            assert_eq!(pid_file, "4711\n1\n");
            assert_eq!(log, "[dsh] spawned pid=4711 id=1\n");
            assert_eq!(dsh_desktop::orphan::read_pid(&pid_file), Some(4711));
        }
        other => panic!("{:?}", other),
    }
    assert_eq!(s.slot, Some(Supervisor { pid: 4711, id: 1 }));
    assert_eq!(s.fail_streak, 0);
}

#[test]
fn each_failure_of_a_start() {
    let mut s = Shared::default();
    let e = || "e".to_string();
    let f = expect_failed(s.resolved(Resolve::Failed("gone".to_string())), 1);
    assert_eq!(f, (None, None, "gone".to_string(), "runtime resolve failed".to_string()));
    let f = expect_failed(s.node_checked("b".to_string(), check_node(Err(e()))), 2);
    assert_eq!(f.2, "找不到 node 运行时（捆绑缺失且 PATH 中无 node）: e");
    assert_eq!(f.3, "node check failed");
    let f = expect_failed(s.log_opened("v", "b", open_log("/d", Err(e()), 7)), 3);
    assert_eq!((f.2.as_str(), f.3.as_str()), ("创建日志目录失败: e", "open log failed"));
    let f = expect_failed(s.spawned(Err(e())), 4);
    assert_eq!(f.0, Some("[dsh] spawn dsh 失败: e\n".to_string()));
    assert_eq!((f.1, f.2.as_str(), f.3.as_str()), (None, "spawn dsh 失败: e", "spawn failed"));
    assert_eq!(s.ring.back().map(|l| l.as_str()), Some("[dsh] spawn dsh 失败: e"));
    let f = expect_failed(s.data_dir_found(9, app_data_dir(Err(e()))), 5);
    assert_eq!((f.1, f.2.as_str(), f.3.as_str()), (Some(9), "无法解析应用数据目录: e", "app data dir failed"));
    let f = expect_failed(s.data_dir_made(9, Err(e())), 6);
    assert_eq!((f.1, f.2.as_str(), f.3.as_str()), (Some(9), "创建应用数据目录失败: e", "create app data dir failed"));
    let f = expect_failed(s.pid_file_found(9, 1, Err(e())), 7);
    assert_eq!((f.1, f.2.as_str(), f.3.as_str()), (Some(9), "e", "pid file path failed"));
    assert!(s.slot.is_none());
}

#[test]
fn a_missing_runtime_is_installed() {
    let mut s = Shared::default();
    match s.resolved(Resolve::NeedBootstrap) {
        StartStep::Install { phase: Phase::Bootstrapping { line } } => assert_eq!(line, INSTALL_NOTE),
        other => panic!("{:?}", other),
    }
    assert!(s.install_busy());
    assert!(matches!(s.install_line("npm 10"), Phase::Bootstrapping { .. }));
    assert_eq!(s.ring[0], "npm 10");
    assert!(s.install_busy());
    match s.install_ended(Err("net".to_string())) {
        InstallEnd::Failed { phase: Phase::StartFailed { reason, log_tail, .. } } => {
            assert_eq!(reason, "dsh 运行时安装失败: net");
            assert_eq!(log_tail, "npm 10");
        }
        other => panic!("{:?}", other),
    }
    assert!(!s.install_busy());
    assert_eq!(s.fail_streak, 1);
    s.begin_install();
    assert!(s.install_busy());
    match s.install_ended(Ok("1.0.0".to_string())) {
        InstallEnd::Start { version } => assert_eq!(version, "1.0.0"),
        other => panic!("{:?}", other),
    }
    assert!(!s.install_busy());
    assert_eq!(s.fail_streak, 1);
    s.forget_failures();
    assert_eq!(s.fail_streak, 0);
}

#[test]
fn node_check() {
    assert_eq!(check_node(Ok(ended(true, " v20 \n"))), Ok("v20".to_string()));
    assert_eq!(check_node(Ok(ended(false, "v20"))), Err("node --version 执行失败".to_string()));
}

#[test]
fn log_paths() {
    assert_eq!(logs_dir("/d"), "/d/logs");
    assert_eq!(open_log("/d", Ok(()), 1700000000), Ok("/d/logs/dsh-1700000000.log".to_string()));
}

#[test]
fn workspace_order() {
    let w = child_workspace(Some(" /c "), Some("/p"), Some("/h"));
    assert_eq!((w.dir.as_str(), w.create), ("/c", false));
    let w = child_workspace(Some("  "), Some("/p"), Some("/h"));
    assert_eq!((w.dir.as_str(), w.create), ("/p", false));
    let w = child_workspace(None, Some(""), Some("/h"));
    assert_eq!((w.dir.as_str(), w.create), ("/h/dsh-desktop-workspace", true));
    let w = child_workspace(None, None, None);
    assert_eq!((w.dir.as_str(), w.create), ("./dsh-desktop-workspace", true));
}

#[test]
fn child_command_line() {
    let l = child_launch("node".to_string(), "/b/bin.js".to_string(), "/w".to_string(), Some("/x:/y".to_string()));
    assert_eq!(l.program, "node");
    assert_eq!(l.args, vec!["/b/bin.js", "web", "--port", "0"]);
    assert_eq!(l.cwd, Some("/w".to_string()));
    assert_eq!(
        l.env,
        vec![
            ("DSH_DESKTOP_CHILD".to_string(), "1".to_string()),
            ("PATH".to_string(), "/x:/y".to_string()),
        ]
    );
    let l = child_launch("node".to_string(), "b".to_string(), "/w".to_string(), None);
    assert_eq!(l.env.len(), 1);
}
