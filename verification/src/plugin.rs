//! Plugins: the command that manages them, and the install of one from a local zip file or
//! directory.

use vstd::prelude::*;
use vstd::string::*;

use crate::child::CHILD_MARK;
use crate::launch::pairs;
use crate::launch::Launch;
use crate::launch::LaunchView;
use crate::nodejs::path_env;
use crate::nodejs::Tools;
use crate::nodejs::ToolsView;
use crate::paths::join_path;
use crate::paths::path_join;
use crate::resolve::Resolve;
use crate::resolve::ResolveView;
use crate::text::decimal;
use crate::text::decimal_text;
use crate::text::maybe_text;
use crate::text::plus;
use crate::text::result_of;
use crate::text::result_text;
use crate::text::same;
use crate::text::texts;

verus! {

/// The command `node <bin> plugin --profile web <args>`, marked as a child of the shell.
pub open spec fn plugin_command(tools: ToolsView, bin: Seq<char>, args: Seq<Seq<char>>) -> LaunchView {
    LaunchView {
        program: tools.node,
        args: seq![bin, "plugin"@, "--profile"@, "web"@] + args,
        cwd: None,
        env: seq![(CHILD_MARK@, "1"@)] + path_env(tools.path),
    }
}

/// The plugin command, or why there is none.
pub open spec fn plugin_run(found: ResolveView, tools: ToolsView, args: Seq<Seq<char>>) -> Result<
    LaunchView,
    Seq<char>,
> {
    match found {
        ResolveView::Ready(bin) => Ok(plugin_command(tools, bin, args)),
        ResolveView::NeedBootstrap => Err("dsh 运行时尚未安装，请先启动一次应用完成初始化"@),
        ResolveView::Failed(reason) => Err(reason),
    }
}

/// Makes the plugin command for the executable that was searched for.
pub fn run_plugin_args(found: Resolve, tools: &Tools, args: Vec<String>) -> (r: Result<
    Launch,
    String,
>)
    ensures
        match r {
            Ok(launch) => plugin_run(found@, tools@, texts(args@)) == Ok::<LaunchView, Seq<char>>(
                launch@,
            ),
            Err(e) => plugin_run(found@, tools@, texts(args@)) == Err::<LaunchView, Seq<char>>(e@),
        },
{
    let ghost given = texts(args@);
    match found {
        Resolve::Ready(bin) => {
            let ghost bin_text = bin@;
            let mut rest = args;
            let mut all: Vec<String> = Vec::new();
            all.push(bin);
            all.push("plugin".to_owned());
            all.push("--profile".to_owned());
            all.push("web".to_owned());
            all.append(&mut rest);
            let mut env: Vec<(String, String)> = Vec::new();
            env.push((CHILD_MARK.to_owned(), "1".to_owned()));
            if let Some(path) = &tools.path {
                env.push(("PATH".to_owned(), path.clone()));
            }
            let launch = Launch { program: tools.node.clone(), args: all, cwd: None, env };
            assert(texts(launch.args@) =~= plugin_command(tools@, bin_text, given).args);
            assert(pairs(launch.env@) =~= plugin_command(tools@, bin_text, given).env);
            assert(launch@ =~= plugin_command(tools@, bin_text, given));
            Ok(launch)
        },
        Resolve::NeedBootstrap => Err("dsh 运行时尚未安装，请先启动一次应用完成初始化".to_owned()),
        Resolve::Failed(reason) => Err(reason),
    }
}

/// How the start of a plugin command ended.
pub fn plugin_started(started: Result<(), String>) -> (r: Result<(), String>)
    ensures
        result_of(r) == (match started {
            Ok(_) => Ok(()),
            Err(e) => Err("启动 dsh plugin 失败: "@ + e@),
        }),
{
    match started {
        Ok(_) => Ok(()),
        Err(e) => Err(plus("启动 dsh plugin 失败: ", e.as_str())),
    }
}

/// A line that a plugin command printed, as the panel shows it.
pub fn plugin_line(line: &str, is_error: bool) -> (r: String)
    ensures
        r@ == (if is_error {
            "[stderr] "@ + line@
        } else {
            line@
        }),
{
    if is_error {
        plus("[stderr] ", line)
    } else {
        line.to_owned()
    }
}

/// The exit code that the panel is told: -1 where there is none, by a signal or because the command
/// could not be waited for.
pub fn plugin_code(ended: Result<Option<i32>, String>) -> (r: i32)
    ensures
        r == (match ended {
            Ok(Some(code)) => code as int,
            _ => -1,
        }),
{
    match ended {
        Ok(Some(code)) => code,
        _ => -1,
    }
}

/// The directory below the data directory that holds what was unpacked.
pub const OFFLINE_DIR: &'static str = "offline-plugins";

/// The directory that a zip file is unpacked to `secs` seconds after the epoch.
pub open spec fn unpack_path(data: Seq<char>, secs: u64) -> Seq<char> {
    path_join(path_join(data, OFFLINE_DIR@), "pkg-"@ + decimal(secs as nat))
}

/// At which point the unpacking of a zip file failed, and why.
#[derive(Debug)]
pub enum ZipFault {
    Directory(String),
    Open(String),
    Format(String),
    Extract(String),
}

/// What to do next in an install from a local file. A `line` is shown in the panel first.
#[derive(Debug)]
pub enum OfflineStep {
    /// Let the user pick a zip file.
    PickZip,
    /// Let the user pick a directory.
    PickDir,
    /// The user picked nothing.
    Cancelled,
    /// Find the data directory.
    FindDataDir { zip: String },
    /// Create the directory and unpack the zip file into it.
    Unpack { zip: String, out: String },
    /// Look for the plugin in the directory.
    FindRoot { line: Option<String>, root: String },
    /// Run the plugin command with these arguments.
    Run { target: String, command_line: String, args: Vec<String> },
    Failed { reason: String },
}

/// The values of an [`OfflineStep`].
#[verifier::ext_equal]
pub enum OfflineStepView {
    PickZip,
    PickDir,
    Cancelled,
    FindDataDir { zip: Seq<char> },
    Unpack { zip: Seq<char>, out: Seq<char> },
    FindRoot { line: Option<Seq<char>>, root: Seq<char> },
    Run { target: Seq<char>, command_line: Seq<char>, args: Seq<Seq<char>> },
    Failed { reason: Seq<char> },
}

impl View for OfflineStep {
    type V = OfflineStepView;

    open spec fn view(&self) -> OfflineStepView {
        match self {
            OfflineStep::PickZip => OfflineStepView::PickZip,
            OfflineStep::PickDir => OfflineStepView::PickDir,
            OfflineStep::Cancelled => OfflineStepView::Cancelled,
            OfflineStep::FindDataDir { zip } => OfflineStepView::FindDataDir { zip: zip@ },
            OfflineStep::Unpack { zip, out } => OfflineStepView::Unpack { zip: zip@, out: out@ },
            OfflineStep::FindRoot { line, root } => OfflineStepView::FindRoot {
                line: maybe_text(*line),
                root: root@,
            },
            OfflineStep::Run { target, command_line, args } => OfflineStepView::Run {
                target: target@,
                command_line: command_line@,
                args: texts(args@),
            },
            OfflineStep::Failed { reason } => OfflineStepView::Failed { reason: reason@ },
        }
    }
}

/// How an install from a local file of a kind begins.
pub open spec fn offline_start(kind: Seq<char>) -> OfflineStepView {
    if kind == "zip"@ {
        OfflineStepView::PickZip
    } else if kind == "dir"@ {
        OfflineStepView::PickDir
    } else {
        OfflineStepView::Failed { reason: "未知的离线安装类型"@ }
    }
}

/// What follows from the pick of a zip file, which may be none, or have no path.
pub open spec fn after_zip(picked: Option<Result<Seq<char>, Seq<char>>>) -> OfflineStepView {
    match picked {
        None => OfflineStepView::Cancelled,
        Some(Ok(zip)) => OfflineStepView::FindDataDir { zip },
        Some(Err(e)) => OfflineStepView::Failed { reason: "读取所选文件路径失败: "@ + e },
    }
}

/// What follows from the pick of a directory, which may be none, or have no path.
pub open spec fn after_dir(picked: Option<Result<Seq<char>, Seq<char>>>) -> OfflineStepView {
    match picked {
        None => OfflineStepView::Cancelled,
        Some(Ok(root)) => OfflineStepView::FindRoot { line: None, root },
        Some(Err(e)) => OfflineStepView::Failed { reason: "读取所选目录路径失败: "@ + e },
    }
}

/// What follows from the search for the data directory.
pub open spec fn after_offline_data(zip: Seq<char>, data: Result<Seq<char>, Seq<char>>, secs: u64) -> OfflineStepView {
    match data {
        Ok(dir) => OfflineStepView::Unpack { zip, out: unpack_path(dir, secs) },
        Err(reason) => OfflineStepView::Failed { reason },
    }
}

/// What follows from the unpacking into the directory `out`.
pub open spec fn after_unpack(out: Seq<char>, unpacked: Result<(), ZipFault>) -> OfflineStepView {
    match unpacked {
        Ok(_) => OfflineStepView::FindRoot { line: Some("已解压: "@ + out), root: out },
        Err(ZipFault::Directory(e)) => OfflineStepView::Failed {
            reason: "创建解压目录失败: "@ + e@,
        },
        Err(ZipFault::Open(e)) => OfflineStepView::Failed { reason: "打开 zip 失败: "@ + e@ },
        Err(ZipFault::Format(e)) => OfflineStepView::Failed { reason: "不是有效的 zip: "@ + e@ },
        Err(ZipFault::Extract(e)) => OfflineStepView::Failed { reason: "解压失败: "@ + e@ },
    }
}

/// What follows from the search for the plugin.
pub open spec fn after_root(found: Result<Seq<char>, Seq<char>>) -> OfflineStepView {
    match found {
        Ok(target) => OfflineStepView::Run {
            target,
            command_line: "离线安装: dsh plugin --profile web add "@ + target + " --offline"@,
            args: seq!["add"@, target, "--offline"@],
        },
        Err(reason) => OfflineStepView::Failed { reason },
    }
}

fn offline_failed(reason: String) -> (r: OfflineStep)
    ensures
        r@ == (OfflineStepView::Failed { reason: reason@ }),
{
    OfflineStep::Failed { reason }
}

/// Begins an install from a local file of a kind: `zip` or `dir`.
pub fn offline_install_target(kind: &str) -> (r: OfflineStep)
    ensures
        r@ == offline_start(kind@),
{
    if same(kind, "zip") {
        OfflineStep::PickZip
    } else if same(kind, "dir") {
        OfflineStep::PickDir
    } else {
        offline_failed("未知的离线安装类型".to_owned())
    }
}

/// The texts of a pick.
pub open spec fn pick_text(picked: Option<Result<String, String>>) -> Option<
    Result<Seq<char>, Seq<char>>,
> {
    match picked {
        Some(path) => Some(result_text(path)),
        None => None,
    }
}

/// A zip file has been picked, or none.
pub fn zip_picked(picked: Option<Result<String, String>>) -> (r: OfflineStep)
    ensures
        r@ == after_zip(pick_text(picked)),
{
    match picked {
        None => OfflineStep::Cancelled,
        Some(Ok(zip)) => OfflineStep::FindDataDir { zip },
        Some(Err(e)) => offline_failed(plus("读取所选文件路径失败: ", e.as_str())),
    }
}

/// A directory has been picked, or none.
pub fn dir_picked(picked: Option<Result<String, String>>) -> (r: OfflineStep)
    ensures
        r@ == after_dir(pick_text(picked)),
{
    match picked {
        None => OfflineStep::Cancelled,
        Some(Ok(root)) => OfflineStep::FindRoot { line: None, root },
        Some(Err(e)) => offline_failed(plus("读取所选目录路径失败: ", e.as_str())),
    }
}

/// The data directory has been searched for.
pub fn offline_data_found(zip: String, data: Result<String, String>, secs: u64) -> (r: OfflineStep)
    ensures
        r@ == after_offline_data(zip@, result_text(data), secs),
{
    match data {
        Ok(dir) => {
            let base = join_path(dir.as_str(), OFFLINE_DIR);
            let name = plus("pkg-", decimal_text(secs).as_str());
            OfflineStep::Unpack { zip, out: join_path(base.as_str(), name.as_str()) }
        },
        Err(reason) => offline_failed(reason),
    }
}

/// The zip file has been unpacked into the directory `out`, or could not be.
pub fn zip_unpacked(out: String, unpacked: Result<(), ZipFault>) -> (r: OfflineStep)
    ensures
        r@ == after_unpack(out@, unpacked),
{
    match unpacked {
        Ok(_) => OfflineStep::FindRoot {
            line: Some(plus("已解压: ", out.as_str())),
            root: out,
        },
        Err(ZipFault::Directory(e)) => offline_failed(plus("创建解压目录失败: ", e.as_str())),
        Err(ZipFault::Open(e)) => offline_failed(plus("打开 zip 失败: ", e.as_str())),
        Err(ZipFault::Format(e)) => offline_failed(plus("不是有效的 zip: ", e.as_str())),
        Err(ZipFault::Extract(e)) => offline_failed(plus("解压失败: ", e.as_str())),
    }
}

/// The plugin has been searched for.
pub fn root_found(found: Result<String, String>) -> (r: OfflineStep)
    ensures
        r@ == after_root(result_text(found)),
{
    match found {
        Ok(target) => {
            let mut command_line = "离线安装: dsh plugin --profile web add ".to_owned();
            command_line.append(target.as_str());
            command_line.append(" --offline");
            let mut args: Vec<String> = Vec::new();
            args.push("add".to_owned());
            args.push(target.clone());
            args.push("--offline".to_owned());
            assert(texts(args@) =~= seq!["add"@, target@, "--offline"@]);
            OfflineStep::Run { target, command_line, args }
        },
        Err(reason) => offline_failed(reason),
    }
}

/// An entry of the directory in which a plugin is searched for.
#[derive(Debug)]
pub struct PluginEntry {
    pub path: String,
    pub is_dir: bool,
    /// Whether `package.json` in it is a file.
    pub has_manifest: bool,
}

impl PluginEntry {
    /// The entry is a directory with a manifest.
    pub open spec fn is_plugin(self) -> bool {
        self.is_dir && self.has_manifest
    }
}

/// The entry `i` is the only one that is a directory with a manifest.
pub open spec fn only_plugin(entries: Seq<PluginEntry>, i: int) -> bool {
    &&& 0 <= i < entries.len()
    &&& entries[i].is_plugin()
    &&& forall|j: int| 0 <= j < entries.len() && j != i ==> !(#[trigger] entries[j]).is_plugin()
}

/// Finds the directory of a plugin: the one that was picked, if it has a manifest; else the only
/// directory in it that has one, as in most zip files.
pub fn resolve_plugin_root(
    root: &str,
    has_manifest: bool,
    entries: Result<Vec<PluginEntry>, String>,
) -> (r: Result<String, String>)
    ensures
        has_manifest ==> result_text(r) == Ok::<Seq<char>, Seq<char>>(root@),
        !has_manifest ==> match entries {
            Err(e) => result_text(r) == Err::<Seq<char>, Seq<char>>("读取目录失败: "@ + e@),
            Ok(entries) => {
                &&& forall|i: int|
                    only_plugin(entries@, i) ==> result_text(r) == Ok::<Seq<char>, Seq<char>>(
                        (#[trigger] entries@[i]).path@,
                    )
                &&& (forall|i: int| !only_plugin(entries@, i)) ==> result_text(r) == Err::<
                    Seq<char>,
                    Seq<char>,
                >("未在所选目录（或其唯一子目录）中找到 package.json，请选择插件包根目录"@)
            },
        },
{
    if has_manifest {
        return Ok(root.to_owned());
    }
    let entries = match entries {
        Ok(entries) => entries,
        Err(e) => {
            return Err(plus("读取目录失败: ", e.as_str()));
        },
    };
    let mut found: Option<usize> = None;
    let mut several = false;
    let mut i: usize = 0;
    while i < entries.len()
        invariant
            i <= entries.len(),
            match found {
                Some(f) => {
                    &&& f < i
                    &&& entries@[f as int].is_plugin()
                    &&& !several ==> forall|j: int|
                        0 <= j < i && j != f ==> !(#[trigger] entries@[j]).is_plugin()
                    &&& several ==> exists|j: int|
                        0 <= j < i && j != f && (#[trigger] entries@[j]).is_plugin()
                },
                None => !several && forall|j: int|
                    0 <= j < i ==> !(#[trigger] entries@[j]).is_plugin(),
            },
        decreases entries.len() - i,
    {
        if entries[i].is_dir && entries[i].has_manifest {
            assert(entries@[i as int].is_plugin());
            if found.is_some() {
                several = true;
            } else {
                found = Some(i);
            }
        }
        i = i + 1;
    }
    if let Some(f) = found {
        if !several {
            assert(only_plugin(entries@, f as int));
            return Ok(entries[f].path.clone());
        }
    }
    Err("未在所选目录（或其唯一子目录）中找到 package.json，请选择插件包根目录".to_owned())
}

/// A plugin command runs the executable that it is given on the `node` of the tools, as
/// `plugin --profile web`, with exactly the arguments that it is given behind, marked as a child of
/// the shell, in the directory of the shell and with the `PATH` of the tools.
pub proof fn law_plugin_command(tools: ToolsView, bin: Seq<char>, args: Seq<Seq<char>>)
    ensures
        ({
            let launch = plugin_command(tools, bin, args);
            &&& launch.program == tools.node
            &&& launch.args.len() == 4 + args.len()
            &&& launch.args[0] == bin
            &&& launch.args[1] == "plugin"@
            &&& launch.args[2] == "--profile"@
            &&& launch.args[3] == "web"@
            &&& launch.args.skip(4) == args
            &&& launch.cwd is None
            &&& tools.path is None ==> launch.env == seq![("DSH_DESKTOP_CHILD"@, "1"@)]
            &&& tools.path matches Some(path) ==> launch.env == seq![
                ("DSH_DESKTOP_CHILD"@, "1"@),
                ("PATH"@, path),
            ]
        }),
{
    let launch = plugin_command(tools, bin, args);
    assert(launch.args.skip(4) =~= args);
    if tools.path is None {
        assert(launch.env =~= seq![("DSH_DESKTOP_CHILD"@, "1"@)]);
    } else {
        assert(launch.env =~= seq![("DSH_DESKTOP_CHILD"@, "1"@), ("PATH"@, tools.path->0)]);
    }
}

/// There is a plugin command exactly if the executable was found; otherwise the reason is told, and
/// where nothing is installed yet, what to do.
pub proof fn law_plugin_run(
    tools: ToolsView,
    bin: Seq<char>,
    args: Seq<Seq<char>>,
    reason: Seq<char>,
)
    ensures
        plugin_run(ResolveView::Ready(bin), tools, args) == Ok::<LaunchView, Seq<char>>(
            plugin_command(tools, bin, args),
        ),
        plugin_run(ResolveView::NeedBootstrap, tools, args) == Err::<LaunchView, Seq<char>>(
            "dsh 运行时尚未安装，请先启动一次应用完成初始化"@,
        ),
        plugin_run(ResolveView::Failed(reason), tools, args) == Err::<LaunchView, Seq<char>>(reason),
{
}

/// A kind of local file leads to the pick of such a file, and any other word to a failure.
pub proof fn law_offline_kinds(kind: Seq<char>)
    ensures
        offline_start("zip"@) is PickZip,
        offline_start("dir"@) is PickDir,
        kind != "zip"@ && kind != "dir"@ ==> offline_start(kind) == (OfflineStepView::Failed {
            reason: "未知的离线安装类型"@,
        }),
{
    reveal_strlit("zip");
    reveal_strlit("dir");
    assert("zip"@[0] != "dir"@[0]);
}

/// What was picked is what is installed: nothing picked ends it, and a pick without a path fails with
/// the reason.
pub proof fn law_offline_picks(path: Seq<char>, e: Seq<char>)
    ensures
        after_zip(None) is Cancelled,
        after_zip(Some(Ok(path))) == (OfflineStepView::FindDataDir { zip: path }),
        after_zip(Some(Err(e))) == (OfflineStepView::Failed {
            reason: "读取所选文件路径失败: "@ + e,
        }),
        after_dir(None) is Cancelled,
        after_dir(Some(Ok(path))) == (OfflineStepView::FindRoot { line: None, root: path }),
        after_dir(Some(Err(e))) == (OfflineStepView::Failed {
            reason: "读取所选目录路径失败: "@ + e,
        }),
{
}

/// The zip file that was picked is unpacked below the data directory, into a directory of its own for
/// each second, and the plugin is then searched for there. Each fault is told with its reason.
pub proof fn law_offline_unpack(
    zip: Seq<char>,
    data: Seq<char>,
    secs: u64,
    out: Seq<char>,
    e: String,
)
    ensures
        after_offline_data(zip, Ok(data), secs) == (OfflineStepView::Unpack {
            zip,
            out: path_join(path_join(data, "offline-plugins"@), "pkg-"@ + decimal(secs as nat)),
        }),
        after_offline_data(zip, Err(e@), secs) == (OfflineStepView::Failed { reason: e@ }),
        after_unpack(out, Ok(())) == (OfflineStepView::FindRoot {
            line: Some("已解压: "@ + out),
            root: out,
        }),
        after_unpack(out, Err(ZipFault::Directory(e))) == (OfflineStepView::Failed {
            reason: "创建解压目录失败: "@ + e@,
        }),
        after_unpack(out, Err(ZipFault::Open(e))) == (OfflineStepView::Failed {
            reason: "打开 zip 失败: "@ + e@,
        }),
        after_unpack(out, Err(ZipFault::Format(e))) == (OfflineStepView::Failed {
            reason: "不是有效的 zip: "@ + e@,
        }),
        after_unpack(out, Err(ZipFault::Extract(e))) == (OfflineStepView::Failed {
            reason: "解压失败: "@ + e@,
        }),
{
}

/// The plugin that was found is added without the network, and the panel shows the command that does
/// it; without a plugin the reason is told.
pub proof fn law_offline_run(target: Seq<char>, e: Seq<char>)
    ensures
        after_root(Ok(target)) == (OfflineStepView::Run {
            target,
            command_line: "离线安装: dsh plugin --profile web add "@ + target + " --offline"@,
            args: seq!["add"@, target, "--offline"@],
        }),
        after_root(Err(e)) == (OfflineStepView::Failed { reason: e }),
{
}

/// There is at most one plugin that is the only one; it is a directory with a manifest, and with a
/// second such directory there is none.
pub proof fn law_only_plugin(entries: Seq<PluginEntry>, i: int, j: int)
    ensures
        only_plugin(entries, i) ==> 0 <= i < entries.len() && entries[i].is_dir
            && entries[i].has_manifest,
        only_plugin(entries, i) && only_plugin(entries, j) ==> i == j,
        0 <= j < entries.len() && i != j && entries[i].is_dir && entries[i].has_manifest && entries[j].is_dir
            && entries[j].has_manifest ==> !only_plugin(entries, i),
        (0 <= i < entries.len() && entries[i].is_dir && entries[i].has_manifest && forall|k: int|
            0 <= k < entries.len() && k != i ==> !((#[trigger] entries[k]).is_dir
                && entries[k].has_manifest)) ==> only_plugin(entries, i),
{
}

/// A step of an install from a local file is shown as it is, with all that it carries.
pub proof fn law_offline_step_shown(x: OfflineStep)
    ensures
        x is PickZip ==> x@ is PickZip,
        x is PickDir ==> x@ is PickDir,
        x is Cancelled ==> x@ is Cancelled,
        x matches OfflineStep::FindDataDir { zip } ==> x@ == (OfflineStepView::FindDataDir {
            zip: zip@,
        }),
        x matches OfflineStep::Unpack { zip, out } ==> x@ == (OfflineStepView::Unpack {
            zip: zip@,
            out: out@,
        }),
        x matches OfflineStep::FindRoot { line, root } ==> x@ == (OfflineStepView::FindRoot {
            line: maybe_text(line),
            root: root@,
        }),
        x matches OfflineStep::Run { target, command_line, args } ==> x@ == (OfflineStepView::Run {
            target: target@,
            command_line: command_line@,
            args: texts(args@),
        }),
        x matches OfflineStep::Failed { reason } ==> x@ == (OfflineStepView::Failed {
            reason: reason@,
        }),
{
}

/// A pick is shown as it is.
pub proof fn law_pick_text(path: String, e: String)
    ensures
        pick_text(Some(Ok(path))) == Some(Ok::<Seq<char>, Seq<char>>(path@)),
        pick_text(Some(Err(e))) == Some(Err::<Seq<char>, Seq<char>>(e@)),
        pick_text(None) is None,
{
}

} // verus!
