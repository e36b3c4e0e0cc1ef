use dsh_desktop::dsh::Shared;
use dsh_desktop::launch::Output;
use dsh_desktop::nodejs::bundled_bin_dir;
use dsh_desktop::nodejs::bundled_toolchain;
use dsh_desktop::nodejs::candidate_roots;
use dsh_desktop::nodejs::choose_tools;
use dsh_desktop::nodejs::enriched_path;
use dsh_desktop::nodejs::node_program;
use dsh_desktop::nodejs::npm_invocation;
use dsh_desktop::nodejs::platform_dir;
use dsh_desktop::nodejs::toolchain_at;
use dsh_desktop::nodejs::NodeToolchain;
use dsh_desktop::nodejs::RootProbe;
use dsh_desktop::plugin::dir_picked;
use dsh_desktop::plugin::offline_data_found;
use dsh_desktop::plugin::offline_install_target;
use dsh_desktop::plugin::plugin_code;
use dsh_desktop::plugin::plugin_line;
use dsh_desktop::plugin::plugin_started;
use dsh_desktop::plugin::resolve_plugin_root;
use dsh_desktop::plugin::root_found;
use dsh_desktop::plugin::run_plugin_args;
use dsh_desktop::plugin::zip_picked;
use dsh_desktop::plugin::zip_unpacked;
use dsh_desktop::plugin::OfflineStep;
use dsh_desktop::plugin::PluginEntry;
use dsh_desktop::plugin::ZipFault;
use dsh_desktop::resolve::Resolve;
use dsh_desktop::runtime::Settings;
use dsh_desktop::shell::app_menu;
use dsh_desktop::shell::choice_made;
use dsh_desktop::shell::close_choice;
use dsh_desktop::shell::dsh_home_info;
use dsh_desktop::shell::menu_action;
use dsh_desktop::shell::tray_menu;
use dsh_desktop::shell::ChoiceStep;
use dsh_desktop::shell::MenuAction;
use dsh_desktop::shell::Panel;
use dsh_desktop::update::check;
use dsh_desktop::update::is_newer;
use dsh_desktop::update::note_look;
use dsh_desktop::update::update_due;
use dsh_desktop::update::view_launch;
use dsh_desktop::update::ApplyStep;
use dsh_desktop::update::RollbackStep;
use dsh_desktop::watch::CloseStep;

fn e() -> String {
    "e".to_string()
}

fn toolchain() -> Option<NodeToolchain> {
    toolchain_at("/r", "linux-x86_64", true, true)
}

#[test]
fn roots_are_searched_in_order() {
    let roots = candidate_roots(Some("/n"), Some("/app/MacOS"), Some("/w"), Some("/res"));
    assert_eq!(
        roots,
        vec!["/n", "/app/MacOS/../Resources/node-runtime", "/app/MacOS/node-runtime", "/w/binaries/node-runtime", "/res/node-runtime"]
    );
    assert_eq!(candidate_roots(Some(" "), None, Some("/w"), None), vec!["/w/binaries/node-runtime"]);
    assert_eq!(platform_dir("macos", "aarch64"), "macos-aarch64");
}

#[test]
fn the_first_root_with_a_toolchain() {
    let probe = |root: &str, node: bool, npm: bool| RootProbe { root: root.to_string(), node_is_file: node, npm_cli_is_file: npm };
    let roots = vec![probe("/a", true, false), probe("/b", false, true), probe("/c", true, true), probe("/d", true, true)];
    let t = bundled_toolchain(&roots, "p").unwrap();
    assert_eq!(t.node, "/c/p/bin/node");
    assert_eq!(t.npm_cli, "/c/p/lib/node_modules/npm/bin/npm-cli.js");
    assert_eq!(t.source, "/c/p");
    assert!(bundled_toolchain(&roots[..2].iter().map(|r| probe(&r.root, r.node_is_file, r.npm_cli_is_file)).collect(), "p").is_none());
    assert!(toolchain_at("/r", "p", true, false).is_none());
}

#[test]
fn programs_of_the_toolchain_or_the_system() {
    let t = toolchain();
    let node = "/r/linux-x86_64/bin/node".to_string();
    assert_eq!(node_program(&t), (node.clone(), Some("/r/linux-x86_64".to_string())));
    assert_eq!(node_program(&None), ("node".to_string(), None));
    assert_eq!(npm_invocation(&t), (node, vec!["/r/linux-x86_64/lib/node_modules/npm/bin/npm-cli.js".to_string()]));
    assert_eq!(npm_invocation(&None), ("npm".to_string(), vec![]));
    assert_eq!(bundled_bin_dir(&t), Some("/r/linux-x86_64/bin".to_string()));
    assert_eq!(bundled_bin_dir(&None), None);
    assert_eq!(enriched_path(&t, "/usr/bin:/bin"), Some("/r/linux-x86_64/bin:/usr/bin:/bin".to_string()));
    assert_eq!(enriched_path(&None, "/bin"), None);
}

#[test]
fn the_registry_is_asked_on_the_channel() {
    let settings = Settings { channel: "next".to_string(), registry: "https://r".to_string(), ..Settings::default() };
    let l = view_launch(&choose_tools(&toolchain(), "/bin"), &settings, "/d/npm-cache");
    assert_eq!(l.program, "/r/linux-x86_64/bin/node");
    assert_eq!(
        l.args[1..].join(" "),
        "view @deepseek-ai/dsh@next version --registry https://r --cache /d/npm-cache --json"
    );
    assert_eq!(l.args[0], "/r/linux-x86_64/lib/node_modules/npm/bin/npm-cli.js");
    assert_eq!(l.env, vec![("PATH".to_string(), "/r/linux-x86_64/bin:/bin".to_string())]);
}

#[test]
fn newer_versions() {
    assert!(is_newer("0.1.0-rc.6", "0.1.0-rc.7"));
    assert!(is_newer("0.1.0-rc.9", "0.1.0-rc.10"));
    assert!(!is_newer("0.1.0-rc.10", "0.1.0-rc.9"));
    assert!(!is_newer("0.1.0-rc.10", "0.1.0-rc.10"));
    assert!(is_newer("0.1.0-rc.0", "0.1.0-rc.18446744073709551615"));
    assert!(is_newer("0.1.0-rc.7", "0.1.0"));
    assert!(is_newer("1.2.0", "1.10.0"));
    assert!(is_newer("1.9.9", "2.0.0"));
    assert!(!is_newer("2.0.0", "1.9.9"));
    assert!(!is_newer("0.1.0", "0.1.0-rc.7"));
    assert!(!is_newer("1.0.0", "1.0.0"));
    assert!(!is_newer("dev", "1.0.0"));
    assert!(!is_newer("1.0.0", "latest"));
    assert!(!is_newer("1.0.0", "2.0"));
}

fn answer(success: bool, stdout: &str, stderr: &str) -> Result<Output, String> {
    Ok(Output { success, code: Some(0), stdout: stdout.to_string(), stderr: stderr.to_string() })
}

#[test]
fn checks_for_updates() {
    let c = check(Some("0.1.0-rc.5".to_string()), answer(true, "\"0.1.0-rc.6\"\n", "")).unwrap();
    assert_eq!((c.current.as_str(), c.latest.as_str(), c.updatable), ("0.1.0-rc.5", "0.1.0-rc.6", true));
    let c = check(None, answer(true, "\"0.1.0-rc.6\"\n", "")).unwrap();
    assert_eq!((c.current.as_str(), c.updatable), ("dev", false));
    assert_eq!(check(None, answer(false, "", " E404 \n")).unwrap_err(), "查询 registry 失败: E404");
    assert_eq!(check(None, Err(e())).unwrap_err(), "执行 npm view 失败（npm 可用性）: e");
}

#[test]
fn updates_are_applied_when_newer() {
    let found = |current: &str| check(Some(current.to_string()), answer(true, "\"1.1.0\"", ""));
    let mut s = Shared::default();
    match s.update_apply(found("1.1.0")) {
        ApplyStep::Refuse(done) => {
            assert!(!done.ok);
            assert_eq!(done.version, "1.1.0");
            assert_eq!(done.error, Some("已是最新版本 1.1.0，无需更新".to_string()));
        }
        other => panic!("{:?}", other),
    }
    match s.update_apply(Err(e())) {
        ApplyStep::Refuse(done) => assert_eq!((done.ok, done.version.as_str(), done.error), (false, "", Some(e()))),
        other => panic!("{:?}", other),
    }
    assert!(!s.install_busy());
    match s.update_apply(found("1.0.0")) {
        ApplyStep::Install(version) => assert_eq!(version, "1.1.0"),
        other => panic!("{:?}", other),
    }
    assert!(s.install_busy());
    assert!(!update_due(&Settings::default(), 0, s.install_busy()));
}

#[test]
fn the_end_of_an_update() {
    let mut s = Shared::default();
    s.begin_update();
    assert!(s.install_busy());
    let done = s.update_ended("1.1.0".to_string(), Ok("1.1.0".to_string()));
    assert!(!s.install_busy());
    assert!(update_due(&Settings::default(), 0, s.install_busy()));
    assert_eq!((done.ok, done.version.as_str(), done.error), (true, "1.1.0", None));
    let done = s.update_ended("1.1.0".to_string(), Err(e()));
    assert_eq!((done.ok, done.version.as_str(), done.error), (false, "1.1.0", Some(e())));
    assert_eq!(s.ring, vec!["update flow finished", "update flow finished"]);
}

#[test]
fn overlapping_installs_are_counted() {
    let mut s = Shared::default();
    s.begin_update();
    s.begin_install();
    s.update_ended("1.1.0".to_string(), Ok("1.1.0".to_string()));
    assert!(s.install_busy());
    assert!(!update_due(&Settings::default(), 0, s.install_busy()));
    s.begin_update();
    s.install_ended(Err(e()));
    assert!(s.install_busy());
    s.update_ended("1.1.0".to_string(), Err(e()));
    assert!(!s.install_busy());
    s.update_ended("1.1.0".to_string(), Err(e()));
    assert!(!s.install_busy());
}

#[test]
fn looks_for_updates_are_apart() {
    let s = Settings::default();
    assert!(update_due(&s, 0, false));
    assert!(!update_due(&s, 0, true));
    let s = note_look(s, 1000);
    assert_eq!(s.last_check, Some(1000));
    assert!(!update_due(&s, 1000 + 12 * 3600 - 1, false));
    assert!(update_due(&s, 1000 + 12 * 3600, false));
    assert!(!update_due(&Settings { auto_update: false, ..s }, u64::MAX, false));
    let s = Settings { last_check: Some(u64::MAX), interval_hours: u32::MAX, ..Settings::default() };
    assert!(!update_due(&s, u64::MAX, false));
}

#[test]
fn a_rollback_is_noted() {
    let mut s = Shared::default();
    s.slot = Some(dsh_desktop::dsh::Supervisor { pid: 3, id: 0 });
    assert!(matches!(s.rolled_back("2".to_string(), "1".to_string(), Some(1), false), RollbackStep::Settle));
    assert!(s.slot.is_some());
    match s.rolled_back("2".to_string(), "1".to_string(), Some(1), true) {
        RollbackStep::Restart(r) => {
            assert_eq!((r.from.as_str(), r.to.as_str(), r.outcome.as_str()), ("2", "1", "rolled-back"));
            assert_eq!(r.note, Some("新版本启动失败（退出码 Some(1)），已自动回退".to_string()));
        }
        other => panic!("{:?}", other),
    }
    assert!(s.slot.is_none());
}

#[test]
fn every_menu_entry_does_something() {
    let app = app_menu();
    let tray = tray_menu();
    for entry in app.iter().chain(tray.iter()) {
        assert_ne!(menu_action(&entry.id), MenuAction::Nothing, "{}", entry.id);
    }
    assert_eq!(app.len() + tray.len(), 12);
    assert_eq!((app[3].text.as_str(), app[3].accelerator.as_deref()), ("设置…", Some("CmdOrCtrl+,")));
    assert_eq!(app[5].accelerator.as_deref(), Some("CmdOrCtrl+Q"));
    assert_eq!((tray[0].id.as_str(), tray[0].text.as_str()), ("menu-tray-show", "显示窗口"));
    assert_eq!(menu_action("menu-check-update"), MenuAction::OpenPanel(Panel::Update));
    assert_eq!(menu_action("menu-install-plugin"), MenuAction::OpenPanel(Panel::Plugin));
    assert_eq!(menu_action("menu-settings"), MenuAction::OpenPanel(Panel::Settings));
    assert_eq!(menu_action("menu-open-logs"), MenuAction::OpenLogs);
    assert_eq!(menu_action("menu-restart-dsh"), MenuAction::Restart);
    assert_eq!(menu_action("menu-tray-show"), MenuAction::ShowWindow);
    assert_eq!(menu_action("menu-quit"), MenuAction::Quit);
    assert_eq!(menu_action("other"), MenuAction::Nothing);
    assert_eq!([Panel::Update.name(), Panel::Plugin.name(), Panel::Settings.name()], ["update", "plugin", "settings"]);
}

#[test]
fn panels_are_handed_out_once() {
    let mut s = Shared::default();
    s.open_shell_panel("plugin");
    s.open_shell_panel("update");
    assert_eq!(s.ui_intent(), Some("update".to_string()));
    assert_eq!(s.ui_intent(), None);
    assert!(s.slow_start());
    s.on_ready(0, 80, None);
    assert!(!s.slow_start());
}

#[test]
fn a_choice_is_remembered() {
    let mut s = Shared::default();
    s.on_ready(0, 80, None);
    let quit = close_choice(Settings::default(), true, true).unwrap();
    assert_eq!(s.close_requested(&quit.close_action), CloseStep::Quit);
    let hide = close_choice(Settings { interval_hours: 2, ..quit }, false, true).unwrap();
    assert_eq!(s.close_requested(&hide.close_action), CloseStep::Hide);
    assert_eq!(hide.interval_hours, 2);
    assert!(close_choice(hide, true, false).is_none());
}

#[test]
fn a_choice_is_acted_on() {
    assert!(matches!(choice_made(true, false, Ok(())), ChoiceStep::Quit));
    assert!(matches!(choice_made(false, false, Ok(())), ChoiceStep::Hide));
    assert!(matches!(choice_made(true, true, Ok(())), ChoiceStep::Quit));
    assert!(matches!(choice_made(false, true, Ok(())), ChoiceStep::Hide));
    assert!(matches!(choice_made(true, true, Err(e())), ChoiceStep::Refuse(reason) if reason == "e"));
    assert!(matches!(choice_made(false, true, Err(e())), ChoiceStep::Refuse(_)));
    assert!(matches!(choice_made(true, false, Err(e())), ChoiceStep::Quit));
}

#[test]
fn the_data_directory_of_dsh() {
    assert_eq!(dsh_home_info(Some(" /x "), Some("/h")), " /x ");
    assert_eq!(dsh_home_info(Some(" "), Some("/h")), "/h/.dsh");
    assert_eq!(dsh_home_info(None, None), "~/.dsh");
}

#[test]
fn plugin_commands() {
    let tools = choose_tools(&None, "/bin");
    let args = vec!["add".to_string(), "pkg".to_string()];
    let l = run_plugin_args(Resolve::Ready("/b".to_string()), &tools, args.clone()).unwrap();
    assert_eq!(l.program, "node");
    assert_eq!(l.args, vec!["/b", "plugin", "--profile", "web", "add", "pkg"]);
    assert_eq!(l.env, vec![("DSH_DESKTOP_CHILD".to_string(), "1".to_string())]);
    let l = run_plugin_args(Resolve::Ready("/b".to_string()), &choose_tools(&toolchain(), "/bin"), vec![]).unwrap();
    assert_eq!(l.env[1], ("PATH".to_string(), "/r/linux-x86_64/bin:/bin".to_string()));
    let no = run_plugin_args(Resolve::NeedBootstrap, &tools, args.clone()).unwrap_err();
    assert_eq!(no, "dsh 运行时尚未安装，请先启动一次应用完成初始化");
    assert_eq!(run_plugin_args(Resolve::Failed(e()), &tools, args).unwrap_err(), "e");
    assert_eq!(plugin_started(Err(e())), Err("启动 dsh plugin 失败: e".to_string()));
    assert_eq!(plugin_started(Ok(())), Ok(()));
    assert_eq!(plugin_line("x", true), "[stderr] x");
    assert_eq!(plugin_line("x", false), "x");
    assert_eq!([plugin_code(Ok(Some(2))), plugin_code(Ok(None)), plugin_code(Err(e()))], [2, -1, -1]);
}

fn offline_reason(step: OfflineStep) -> String {
    match step {
        OfflineStep::Failed { reason } => reason,
        other => panic!("{:?}", other),
    }
}

#[test]
fn offline_installs() {
    assert!(matches!(offline_install_target("zip"), OfflineStep::PickZip));
    assert!(matches!(offline_install_target("dir"), OfflineStep::PickDir));
    assert_eq!(offline_reason(offline_install_target("tar")), "未知的离线安装类型");
    assert!(matches!(zip_picked(None), OfflineStep::Cancelled));
    assert!(matches!(dir_picked(None), OfflineStep::Cancelled));
    assert_eq!(offline_reason(zip_picked(Some(Err(e())))), "读取所选文件路径失败: e");
    assert_eq!(offline_reason(dir_picked(Some(Err(e())))), "读取所选目录路径失败: e");
    assert!(matches!(dir_picked(Some(Ok("/p".to_string()))), OfflineStep::FindRoot { line: None, root } if root == "/p"));
    let zip = match zip_picked(Some(Ok("/p.zip".to_string()))) {
        OfflineStep::FindDataDir { zip } => zip,
        other => panic!("{:?}", other),
    };
    assert_eq!(offline_reason(offline_data_found("z".to_string(), Err(e()), 5)), "e");
    let out = match offline_data_found(zip, Ok("/d".to_string()), 5) {
        OfflineStep::Unpack { zip, out } => {
            assert_eq!((zip.as_str(), out.as_str()), ("/p.zip", "/d/offline-plugins/pkg-5"));
            out
        }
        other => panic!("{:?}", other),
    };
    match zip_unpacked(out, Ok(())) {
        OfflineStep::FindRoot { line, root } => {
            assert_eq!(line, Some("已解压: /d/offline-plugins/pkg-5".to_string()));
            assert_eq!(root, "/d/offline-plugins/pkg-5");
        }
        other => panic!("{:?}", other),
    }
    let fault = |f: ZipFault| offline_reason(zip_unpacked(String::new(), Err(f)));
    assert_eq!(fault(ZipFault::Directory(e())), "创建解压目录失败: e");
    assert_eq!(fault(ZipFault::Open(e())), "打开 zip 失败: e");
    assert_eq!(fault(ZipFault::Format(e())), "不是有效的 zip: e");
    assert_eq!(fault(ZipFault::Extract(e())), "解压失败: e");
    match root_found(Ok("/p".to_string())) {
        OfflineStep::Run { target, command_line, args } => {
            assert_eq!(target, "/p");
            assert_eq!(command_line, "离线安装: dsh plugin --profile web add /p --offline");
            assert_eq!(args, vec!["add", "/p", "--offline"]);
        }
        other => panic!("{:?}", other),
    }
    assert_eq!(offline_reason(root_found(Err(e()))), "e");
}

#[test]
fn the_directory_of_a_plugin() {
    let entry = |path: &str, is_dir: bool, has_manifest: bool| PluginEntry { path: path.to_string(), is_dir, has_manifest };
    let missing = "未在所选目录（或其唯一子目录）中找到 package.json，请选择插件包根目录";
    assert_eq!(resolve_plugin_root("/p", true, Err(e())), Ok("/p".to_string()));
    assert_eq!(resolve_plugin_root("/p", false, Err(e())), Err("读取目录失败: e".to_string()));
    let one = vec![entry("/p/doc", true, false), entry("/p/x", true, true), entry("/p/f", false, true)];
    assert_eq!(resolve_plugin_root("/p", false, Ok(one)), Ok("/p/x".to_string()));
    let two = vec![entry("/p/x", true, true), entry("/p/y", true, true)];
    assert_eq!(resolve_plugin_root("/p", false, Ok(two)), Err(missing.to_string()));
    assert_eq!(resolve_plugin_root("/p", false, Ok(vec![])), Err(missing.to_string()));
}
