use dsh_desktop::install::background_install;
use dsh_desktop::install::bootstrap;
use dsh_desktop::install::npm_check_launch;
use dsh_desktop::install::npm_checked;
use dsh_desktop::install::shows_line;
use dsh_desktop::install::InstallPlan;
use dsh_desktop::install::InstallStep;
use dsh_desktop::launch::Output;
use dsh_desktop::nodejs::choose_tools;
use dsh_desktop::resolve::prune_versions;
use dsh_desktop::resolve::resolve_active_bin;
use dsh_desktop::resolve::resolve_facts;
use dsh_desktop::resolve::runnable_versions;
use dsh_desktop::resolve::ListedVersion;
use dsh_desktop::resolve::Resolve;
use dsh_desktop::resolve::RuntimeFacts;
use dsh_desktop::resolve::RuntimeProbe;
use dsh_desktop::resolve::VersionEntry;
use dsh_desktop::runtime::bin_of;
use dsh_desktop::runtime::current_version;
use dsh_desktop::runtime::default_close_action;
use dsh_desktop::runtime::installed_version;
use dsh_desktop::runtime::is_complete;
use dsh_desktop::runtime::load_settings;
use dsh_desktop::runtime::manifest_of;
use dsh_desktop::runtime::pointer_written;
use dsh_desktop::runtime::read_current;
use dsh_desktop::runtime::save_settings;
use dsh_desktop::runtime::settings_encoded;
use dsh_desktop::runtime::settings_written;
use dsh_desktop::runtime::switch_plan;
use dsh_desktop::runtime::version_in;
use dsh_desktop::runtime::versions_dir;
use dsh_desktop::runtime::write_current;
use dsh_desktop::runtime::Install;
use dsh_desktop::runtime::Settings;
use dsh_desktop::runtime::WriteFault;
use dsh_desktop::runtime::DEFAULT_RETAINED;

fn e() -> String {
    "e".to_string()
}

fn install(version: &str) -> Install {
    Install { bin_is_file: true, manifest: Ok(format!("{{\"name\":\"x\",\"version\":\"{}\"}}", version)) }
}

fn missing() -> Install {
    Install { bin_is_file: false, manifest: Err(e()) }
}

fn entry(name: &str, mtime: i128, complete: bool) -> VersionEntry {
    VersionEntry { name: name.to_string(), is_dir: true, mtime_nanos: Some(mtime), complete }
}

fn facts(entries: Vec<VersionEntry>) -> RuntimeFacts {
    RuntimeFacts {
        dsh_bin: None,
        dsh_bin_is_file: false,
        versions: Ok("/v".to_string()),
        entries: Some(entries),
        pointer: None,
        pointed_complete: false,
    }
}

fn ready(r: Resolve) -> String {
    match r {
        Resolve::Ready(bin) => bin,
        other => panic!("{:?}", other),
    }
}

fn failed(r: Resolve) -> String {
    match r {
        Resolve::Failed(reason) => reason,
        other => panic!("{:?}", other),
    }
}

#[test]
fn settings_by_default() {
    let s = load_settings(None);
    assert_eq!(s.channel, "latest");
    assert!(s.auto_update);
    assert_eq!(s.interval_hours, 12);
    assert_eq!(s.registry, "https://registry.npmjs.org");
    assert_eq!((s.last_check, s.last_project_dir), (None, None));
    assert_eq!(s.close_action, default_close_action());
    assert_eq!(s.retained_versions, 1);
    let kept = load_settings(Some(Settings { interval_hours: 3, ..Settings::default() }));
    assert_eq!(kept.interval_hours, 3);
}

#[test]
fn settings_are_saved() {
    let w = save_settings("/d", "{}");
    assert_eq!((w.dir.as_str(), w.tmp.as_str()), ("/d", "/d/.settings.tmp"));
    assert_eq!((w.target.as_str(), w.content.as_str()), ("/d/settings.json", "{}"));
    assert_eq!(settings_encoded(Err(e())), Err("序列化设置失败: e".to_string()));
    assert_eq!(settings_encoded(Ok("{}".to_string())), Ok("{}".to_string()));
    assert_eq!(settings_written(Ok(())), Ok(()));
    assert_eq!(settings_written(Err(WriteFault::Directory(e()))), Err("创建应用数据目录失败: e".to_string()));
    assert_eq!(settings_written(Err(WriteFault::Content(e()))), Err("写入设置失败: e".to_string()));
    assert_eq!(settings_written(Err(WriteFault::Rename(e()))), Err("保存设置失败: e".to_string()));
}

#[test]
fn places_below_the_data_directory() {
    assert_eq!(versions_dir("/d"), "/d/runtime/versions");
    assert_eq!(bin_of("/v/1"), "/v/1/node_modules/@deepseek-ai/dsh/lib/bin.js");
    assert_eq!(manifest_of("/v/1"), "/v/1/node_modules/@deepseek-ai/dsh/package.json");
}

#[test]
fn the_installed_version() {
    assert_eq!(installed_version(&install("0.1.0-rc.6").manifest), Ok("0.1.0-rc.6".to_string()));
    let no = |t: &str| installed_version(&Ok(t.to_string()));
    assert_eq!(no("{}"), Err("已安装的 dsh 缺少 version 字段".to_string()));
    assert_eq!(no("{\"version\":1}"), Err("已安装的 dsh 缺少 version 字段".to_string()));
    assert_eq!(no("[\"version\"]"), Err("已安装的 dsh 缺少 version 字段".to_string()));
    assert_eq!(installed_version(&Err(e())), Err("读取已安装版本失败: e".to_string()));
    let reason = serde_json::from_str::<serde_json::Value>("{").unwrap_err().to_string();
    assert_eq!(no("{"), Err(format!("解析 package.json 失败: {}", reason)));
    assert_eq!(version_in(Ok(Ok(Some("1".to_string())))), Ok("1".to_string()));
}

#[test]
fn complete_installs() {
    assert!(is_complete(&install("1.0.0")));
    assert!(!is_complete(&missing()));
    assert!(!is_complete(&Install { bin_is_file: false, ..install("1.0.0") }));
    assert!(!is_complete(&Install { bin_is_file: true, manifest: Ok("{}".to_string()) }));
}

#[test]
fn the_pointer_is_read_back() {
    let w = write_current("/d", "1.2.3");
    assert_eq!((w.dir.as_str(), w.tmp.as_str()), ("/d/runtime", "/d/runtime/.current.tmp"));
    assert_eq!(w.target, "/d/runtime/current");
    assert_eq!(read_current(Some(&w.content)), Some("1.2.3".to_string()));
    assert_eq!(read_current(Some(" 1.2.3\n")), Some("1.2.3".to_string()));
    assert_eq!(read_current(Some(" \n")), None);
    assert_eq!(read_current(None), None);
    assert_eq!(pointer_written(Ok(())), Ok(()));
    assert_eq!(pointer_written(Err(WriteFault::Directory(e()))), Err("创建运行时目录失败: e".to_string()));
    assert_eq!(pointer_written(Err(WriteFault::Content(e()))), Err("写入版本指针失败: e".to_string()));
    assert_eq!(pointer_written(Err(WriteFault::Rename(e()))), Err("切换版本指针失败: e".to_string()));
}

#[test]
fn the_active_version() {
    assert_eq!(current_version(None, Some("0.1.0\n")), Some("0.1.0".to_string()));
    assert_eq!(current_version(Some(" "), Some("0.1.0")), Some("0.1.0".to_string()));
    assert_eq!(current_version(Some("/opt/dsh/lib/bin.js"), Some("0.1.0")), None);
    assert_eq!(current_version(None, Some("")), None);
    assert_eq!(current_version(None, None), None);
}

#[test]
fn a_switch_is_planned() {
    let w = switch_plan("/d", "1.0.0", true).unwrap();
    assert_eq!((w.target.as_str(), w.content.as_str()), ("/d/runtime/current", "1.0.0"));
    assert_eq!(switch_plan("/d", "1.0.0", false).unwrap_err(), "版本 1.0.0 安装不完整");
}

#[test]
fn versions_to_switch_to() {
    let entries = vec![
        entry("1", 1, true),
        entry("2", 2, false),
        entry(".staging-3", 3, true),
        VersionEntry { is_dir: false, ..entry("4", 4, true) },
        entry("5", 5, true),
    ];
    assert_eq!(runnable_versions(&entries), vec!["1", "5"]);
}

#[test]
fn the_override_wins() {
    let mut f = facts(vec![entry("1.0.0", 5, true)]);
    f.dsh_bin = Some(" /dev/bin.js ".to_string());
    assert_eq!(failed(resolve_facts(&f)), "DSH_BIN 指向的文件不存在:  /dev/bin.js ");
    f.dsh_bin_is_file = true;
    assert_eq!(ready(resolve_facts(&f)), "/dev/bin.js");
    f.dsh_bin = Some("  ".to_string());
    assert_eq!(ready(resolve_facts(&f)), bin_of("/v/1.0.0"));
}

#[test]
fn the_pointer_comes_before_the_newest() {
    let mut f = facts(vec![entry("1.0.0", 5, true), entry("2.0.0", 9, true)]);
    f.pointer = Some("1.0.0\n".to_string());
    assert_eq!(ready(resolve_facts(&f)), bin_of("/v/2.0.0"));
    f.pointed_complete = true;
    assert_eq!(ready(resolve_facts(&f)), bin_of("/v/1.0.0"));
}

#[test]
fn the_newest_complete_version() {
    let f = facts(vec![
        entry(".staging-9", 90, true),
        entry("0.9.0", -3, true),
        entry("1.0.0", 5, true),
        entry("1.1.0", 5, true),
        entry("3.0.0", 70, false),
        VersionEntry { is_dir: false, ..entry("4.0.0", 80, true) },
        VersionEntry { mtime_nanos: None, ..entry("0.1.0", 0, true) },
    ]);
    assert_eq!(ready(resolve_facts(&f)), bin_of("/v/1.0.0"));
    assert!(matches!(resolve_facts(&facts(vec![])), Resolve::NeedBootstrap));
    assert!(matches!(resolve_facts(&RuntimeFacts { entries: None, ..facts(vec![]) }), Resolve::NeedBootstrap));
    assert_eq!(failed(resolve_facts(&RuntimeFacts { versions: Err(e()), ..facts(vec![]) })), "e");
}

#[test]
fn resolution_reads_manifests() {
    let listed = |name: &str, mtime: i128, install: Install| ListedVersion {
        name: name.to_string(),
        is_dir: true,
        mtime_nanos: Some(mtime),
        install,
    };
    let probe = |pointed: Install| RuntimeProbe {
        dsh_bin: None,
        dsh_bin_is_file: false,
        versions: Ok("/v".to_string()),
        entries: Some(vec![
            listed("1.0.0", 1, install("1.0.0")),
            listed("2.0.0", 2, install("2.0.0")),
            listed("3.0.0", 3, Install { bin_is_file: true, manifest: Ok("not json".to_string()) }),
        ]),
        pointer: Some("1.0.0".to_string()),
        pointed,
    };
    assert_eq!(ready(resolve_active_bin(probe(install("1.0.0")))), bin_of("/v/1.0.0"));
    assert_eq!(ready(resolve_active_bin(probe(missing()))), bin_of("/v/2.0.0"));
}

#[test]
fn pruning_keeps_active_good_and_newest() {
    let entries = vec![
        entry("1", 1, true),
        entry("2", 2, true),
        entry("3", 3, false),
        entry("4", 4, true),
        entry("5", 5, true),
        entry("6", 5, true),
        entry(".staging-1", 0, true),
        VersionEntry { is_dir: false, ..entry("note", 0, true) },
    ];
    let v = |t: &str| Some(t.to_string());
    assert_eq!(prune_versions(&entries, &v("2"), &v("1"), DEFAULT_RETAINED), vec!["3", "4"]);
    assert_eq!(prune_versions(&entries, &v("6"), &None, DEFAULT_RETAINED), vec!["1", "2", "3", "4"]);
    assert_eq!(prune_versions(&entries, &v("1"), &None, 0), vec!["2", "3", "4", "6"]);
    assert!(prune_versions(&entries, &None, &None, u32::MAX).is_empty());
    let many: Vec<VersionEntry> = (0..12).map(|i| entry(&i.to_string(), i, true)).collect();
    assert_eq!(prune_versions(&many, &None, &None, 99), vec!["0"]);
    assert!(prune_versions(&Vec::new(), &None, &None, 0).is_empty());
}

fn plan() -> InstallPlan {
    let settings = Settings { registry: "https://r".to_string(), ..Settings::default() };
    bootstrap(choose_tools(&None, "/usr/bin"), &settings, "next", "/d", 77)
}

#[test]
fn a_missing_runtime_comes_from_the_channel() {
    let settings = Settings { channel: "beta".to_string(), registry: "https://r".to_string(), ..Settings::default() };
    let p = background_install(choose_tools(&None, "/usr/bin"), &settings, "/d", 78);
    assert_eq!((p.spec.as_str(), p.registry.as_str()), ("beta", "https://r"));
    assert_eq!(p.staging, "/d/runtime/versions/.staging-78");
}

fn out(success: bool, stdout: &str) -> Output {
    Output { success, code: Some(if success { 0 } else { 243 }), stdout: stdout.to_string(), stderr: String::new() }
}

fn reason(step: InstallStep) -> String {
    match step {
        InstallStep::Failed { discard, reason } => {
            assert!(discard.is_none());
            reason
        }
        other => panic!("{:?}", other),
    }
}

#[test]
fn npm_is_checked_first() {
    let l = npm_check_launch(&choose_tools(&None, ""));
    assert_eq!((l.program.as_str(), l.args), ("npm", vec!["--version".to_string()]));
    assert_eq!(npm_checked(Ok(out(true, "10.2.0\n"))), Ok("npm 10.2.0".to_string()));
    assert_eq!(npm_checked(Ok(out(false, ""))), Err("npm --version 执行失败".to_string()));
    assert_eq!(npm_checked(Err(e())), Err("找不到 npm（PATH 中无 npm，插件与运行时安装依赖它）: e".to_string()));
    assert!(shows_line("added 1 package") && !shows_line(" \t"));
}

#[test]
fn an_install_that_goes_well() {
    let p = plan();
    assert_eq!(p.staging, "/d/runtime/versions/.staging-77");
    assert_eq!(p.versions, "/d/runtime/versions");
    match p.versions_made(Ok(())) {
        InstallStep::CreateCache { dir } => assert_eq!(dir, "/d/npm-cache"),
        other => panic!("{:?}", other),
    }
    match p.cache_made(Ok(())) {
        InstallStep::RunNpm { line, remove, launch } => {
            assert_eq!(line, "安装 @deepseek-ai/dsh@next(https://r)…");
            assert_eq!(remove, p.staging);
            assert_eq!(launch.program, "npm");
            assert_eq!(
                launch.args.join(" "),
                "install @deepseek-ai/dsh@next --prefix /d/runtime/versions/.staging-77 --cache /d/npm-cache --registry https://r --no-audit --no-fund --loglevel error"
            );
        }
        other => panic!("{:?}", other),
    }
    assert!(matches!(p.npm_started(Ok(())), InstallStep::AwaitNpm));
    match p.npm_ended(Ok(out(true, ""))) {
        InstallStep::ReadStaging { dir } => assert_eq!(dir, p.staging),
        other => panic!("{:?}", other),
    }
    let version = match p.staging_read(&install("1.2.3").manifest) {
        InstallStep::CheckTarget { line, version, target } => {
            assert_eq!(line, "已安装 @deepseek-ai/dsh@1.2.3，正在验证…");
            assert_eq!(target, "/d/runtime/versions/1.2.3");
            version
        }
        other => panic!("{:?}", other),
    };
    match p.target_checked(&version, false) {
        InstallStep::Move { from, to } => assert_eq!((from, to.as_str()), (p.staging.clone(), "/d/runtime/versions/1.2.3")),
        other => panic!("{:?}", other),
    }
    match p.target_checked(&version, true) {
        InstallStep::Reuse { line, remove, target } => {
            assert_eq!(line, "版本 1.2.3 已存在，复用");
            assert_eq!((remove, target.as_str()), (p.staging.clone(), "/d/runtime/versions/1.2.3"));
        }
        other => panic!("{:?}", other),
    }
    assert!(matches!(p.moved(&version, Ok(())), InstallStep::ReadTarget { .. }));
    match p.target_read(&version, &install("1.2.3")) {
        InstallStep::AskVersion { launch } => {
            assert_eq!(launch.program, "node");
            assert_eq!(launch.args, vec![bin_of("/d/runtime/versions/1.2.3"), "--version".to_string()]);
        }
        other => panic!("{:?}", other),
    }
    match p.version_told(&version, Ok(out(true, "1.2.3\n"))) {
        InstallStep::Point { write } => assert_eq!((write.target.as_str(), write.content.as_str()), ("/d/runtime/current", "1.2.3")),
        other => panic!("{:?}", other),
    }
    match p.pointed(&version, Ok(())) {
        InstallStep::Done { line, version } => assert_eq!((line.as_str(), version.as_str()), ("运行时 1.2.3 就绪", "1.2.3")),
        other => panic!("{:?}", other),
    }
}

#[test]
fn each_failure_of_an_install() {
    let p = plan();
    assert_eq!(reason(p.versions_made(Err(e()))), "创建版本目录失败: e");
    assert_eq!(reason(p.cache_made(Err(e()))), "创建 npm 缓存目录失败: e");
    assert_eq!(reason(p.npm_started(Err(e()))), "启动 npm install 失败: e");
    assert_eq!(reason(p.npm_ended(Err(e()))), "等待 npm install 失败: e");
    match p.npm_ended(Ok(out(false, ""))) {
        InstallStep::Failed { discard, reason } => {
            assert_eq!(discard, Some(p.staging.clone()));
            assert_eq!(reason, "npm install 退出码 Some(243)（网络或 registry 问题）");
        }
        other => panic!("{:?}", other),
    }
    assert_eq!(reason(p.staging_read(&Err(e()))), "读取已安装版本失败: e");
    assert_eq!(reason(p.staging_version(Err(e()))), "e");
    assert_eq!(reason(p.moved("1", Err(e()))), "归档版本目录失败: e");
    assert_eq!(reason(p.target_read("1", &missing())), "版本 1 安装不完整");
    assert_eq!(reason(p.target_complete("1", false)), "版本 1 安装不完整");
    assert_eq!(reason(p.version_told("1", Err(e()))), "验证 --version 失败: e");
    assert_eq!(reason(p.version_told("1", Ok(out(true, "2\n")))), "版本验证失败: 期望 1，实际 2");
    assert_eq!(reason(p.version_told("1", Ok(out(false, "1\n")))), "版本验证失败: 期望 1，实际 1");
    assert_eq!(reason(p.pointed("1", Err(e()))), "e");
}
