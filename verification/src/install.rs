//! Installing a version of the runtime, step by step: into a staging directory, checked, moved to
//! its place, checked again, and only then pointed to.

use vstd::prelude::*;
use vstd::string::*;

use crate::launch::Launch;
use crate::launch::LaunchView;
use crate::launch::Output;
use crate::nodejs::node_command;
use crate::nodejs::node_launch;
use crate::nodejs::npm_command;
use crate::nodejs::npm_launch;
use crate::nodejs::Tools;
use crate::nodejs::ToolsView;
use crate::paths::join_path;
use crate::paths::path_join;
use crate::runtime::bin_of;
use crate::runtime::bin_path;
use crate::runtime::installed_version;
use crate::runtime::is_complete;
use crate::runtime::manifest_version;
use crate::runtime::pointer_file;
use crate::runtime::versions_dir;
use crate::runtime::versions_path;
use crate::runtime::write_current;
use crate::runtime::FileWrite;
use crate::runtime::FileWriteView;
use crate::runtime::Install;
use crate::runtime::Settings;
use crate::runtime::NPM_CACHE_DIR;
use crate::runtime::PKG;
use crate::text::blank;
use crate::text::code_notation;
use crate::text::code_text;
use crate::text::decimal;
use crate::text::decimal_text;
use crate::text::is_blank;
use crate::text::is_white_space;
use crate::text::law_nothing_left;
use crate::text::law_trimmed;
use crate::text::maybe_text;
use crate::text::plus;
use crate::text::result_of;
use crate::text::result_text;
use crate::text::same;
use crate::text::trim;
use crate::text::trimmed;

verus! {

/// How the name of a staging directory begins. The dot keeps it from being taken for a version.
pub const STAGING_PREFIX: &'static str = ".staging";

/// An install of the version `spec`, which is a tag such as `latest` or a version.
#[derive(Debug)]
pub struct InstallPlan {
    pub tools: Tools,
    pub registry: String,
    pub spec: String,
    pub data: String,
    pub versions: String,
    pub cache: String,
    pub staging: String,
}

/// The values of an [`InstallPlan`].
#[verifier::ext_equal]
pub struct InstallPlanView {
    pub tools: ToolsView,
    pub registry: Seq<char>,
    pub spec: Seq<char>,
    pub data: Seq<char>,
    pub versions: Seq<char>,
    pub cache: Seq<char>,
    pub staging: Seq<char>,
}

impl View for InstallPlan {
    type V = InstallPlanView;

    open spec fn view(&self) -> InstallPlanView {
        InstallPlanView {
            tools: self.tools@,
            registry: self.registry@,
            spec: self.spec@,
            data: self.data@,
            versions: self.versions@,
            cache: self.cache@,
            staging: self.staging@,
        }
    }
}

/// What to do next in an install. Where something is to be removed, that comes first; then a `line`
/// is shown to the user; then the rest is done.
#[derive(Debug)]
pub enum InstallStep {
    /// Create the npm cache.
    CreateCache { dir: String },
    /// Remove the staging directory and run `npm`.
    RunNpm { line: String, remove: String, launch: Launch },
    /// Show what `npm` prints and wait for its end.
    AwaitNpm,
    /// Read the manifest in the staging directory.
    ReadStaging { dir: String },
    /// See whether the place of the version is taken.
    CheckTarget { line: String, version: String, target: String },
    /// The version is there already: remove the staging directory and look into the target.
    Reuse { line: String, remove: String, target: String },
    /// Move the staging directory to the place of the version.
    Move { from: String, to: String },
    /// Look into the place of the version.
    ReadTarget { target: String },
    /// Ask the executable for its version.
    AskVersion { launch: Launch },
    /// Replace the pointer.
    Point { write: FileWrite },
    /// The version is installed and active.
    Done { line: String, version: String },
    /// Remove what is given and report the reason.
    Failed { discard: Option<String>, reason: String },
}

/// The values of an [`InstallStep`].
#[verifier::ext_equal]
pub enum InstallStepView {
    CreateCache { dir: Seq<char> },
    RunNpm { line: Seq<char>, remove: Seq<char>, launch: LaunchView },
    AwaitNpm,
    ReadStaging { dir: Seq<char> },
    CheckTarget { line: Seq<char>, version: Seq<char>, target: Seq<char> },
    Reuse { line: Seq<char>, remove: Seq<char>, target: Seq<char> },
    Move { from: Seq<char>, to: Seq<char> },
    ReadTarget { target: Seq<char> },
    AskVersion { launch: LaunchView },
    Point { write: FileWriteView },
    Done { line: Seq<char>, version: Seq<char> },
    Failed { discard: Option<Seq<char>>, reason: Seq<char> },
}

impl View for InstallStep {
    type V = InstallStepView;

    open spec fn view(&self) -> InstallStepView {
        match self {
            InstallStep::CreateCache { dir } => InstallStepView::CreateCache { dir: dir@ },
            InstallStep::RunNpm { line, remove, launch } => InstallStepView::RunNpm {
                line: line@,
                remove: remove@,
                launch: launch@,
            },
            InstallStep::AwaitNpm => InstallStepView::AwaitNpm,
            InstallStep::ReadStaging { dir } => InstallStepView::ReadStaging { dir: dir@ },
            InstallStep::CheckTarget { line, version, target } => InstallStepView::CheckTarget {
                line: line@,
                version: version@,
                target: target@,
            },
            InstallStep::Reuse { line, remove, target } => InstallStepView::Reuse {
                line: line@,
                remove: remove@,
                target: target@,
            },
            InstallStep::Move { from, to } => InstallStepView::Move { from: from@, to: to@ },
            InstallStep::ReadTarget { target } => InstallStepView::ReadTarget { target: target@ },
            InstallStep::AskVersion { launch } => InstallStepView::AskVersion { launch: launch@ },
            InstallStep::Point { write } => InstallStepView::Point { write: write@ },
            InstallStep::Done { line, version } => InstallStepView::Done {
                line: line@,
                version: version@,
            },
            InstallStep::Failed { discard, reason } => InstallStepView::Failed {
                discard: maybe_text(*discard),
                reason: reason@,
            },
        }
    }
}

/// The command that asks `npm` for its version.
pub fn npm_check_launch(tools: &Tools) -> (r: Launch)
    ensures
        r@ == npm_command(tools@, seq!["--version"@]),
{
    let r = npm_launch(tools, &["--version"]);
    assert(r@.args =~= tools@.npm_prefix + seq!["--version"@]);
    r
}

/// The line that tells the version of `npm`, or why there is no `npm`.
pub fn npm_checked(asked: Result<Output, String>) -> (r: Result<String, String>)
    ensures
        result_text(r) == (match asked {
            Ok(out) => if out.success {
                Ok("npm "@ + trimmed(out.stdout@))
            } else {
                Err("npm --version 执行失败"@)
            },
            Err(e) => Err("找不到 npm（PATH 中无 npm，插件与运行时安装依赖它）: "@ + e@),
        }),
{
    match asked {
        Ok(out) => if out.success {
            Ok(plus("npm ", trim(out.stdout.as_str())))
        } else {
            Err("npm --version 执行失败".to_owned())
        },
        Err(e) => Err(plus("找不到 npm（PATH 中无 npm，插件与运行时安装依赖它）: ", e.as_str())),
    }
}

/// The staging directory of an install that begins `secs` seconds after the epoch.
pub open spec fn staging_name(secs: u64) -> Seq<char> {
    STAGING_PREFIX@ + "-"@ + decimal(secs as nat)
}

/// An install with its directories.
pub open spec fn install_plan(
    tools: ToolsView,
    registry: Seq<char>,
    spec_text: Seq<char>,
    data: Seq<char>,
    secs: u64,
) -> InstallPlanView {
    InstallPlanView {
        tools,
        registry,
        spec: spec_text,
        data,
        versions: versions_path(data),
        cache: path_join(data, NPM_CACHE_DIR@),
        staging: path_join(versions_path(data), staging_name(secs)),
    }
}

/// Plans an install of the version `spec` from the registry in the settings, below the data
/// directory.
pub fn bootstrap(tools: Tools, settings: &Settings, spec: &str, data: &str, secs: u64) -> (r:
    InstallPlan)
    ensures
        r@ == install_plan(tools@, settings.registry@, spec@, data@, secs),
        r@.spec == spec@,
        r@.registry == settings.registry@,
{
    let versions = versions_dir(data);
    let mut name = STAGING_PREFIX.to_owned();
    name.append("-");
    name.append(decimal_text(secs).as_str());
    let staging = join_path(versions.as_str(), name.as_str());
    InstallPlan {
        tools,
        registry: settings.registry.clone(),
        spec: spec.to_owned(),
        data: data.to_owned(),
        cache: join_path(data, NPM_CACHE_DIR),
        versions,
        staging,
    }
}

/// Plans the install of a runtime that is missing: what the channel in the settings has.
pub fn background_install(tools: Tools, settings: &Settings, data: &str, secs: u64) -> (r:
    InstallPlan)
    ensures
        r@ == install_plan(tools@, settings.registry@, settings.channel@, data@, secs),
        r@.spec == settings.channel@,
        r@.registry == settings.registry@,
{
    bootstrap(tools, settings, settings.channel.as_str(), data, secs)
}

/// Whether a line that `npm` printed is shown.
pub fn shows_line(line: &str) -> (r: bool)
    ensures
        r == !is_blank(line@),
{
    !blank(line)
}

impl InstallPlanView {
    /// The package and version to install.
    pub open spec fn wanted(self) -> Seq<char> {
        PKG@ + "@"@ + self.spec
    }

    /// The command that installs into the staging directory.
    pub open spec fn npm_install(self) -> LaunchView {
        npm_command(
            self.tools,
            seq![
                "install"@,
                self.wanted(),
                "--prefix"@,
                self.staging,
                "--cache"@,
                self.cache,
                "--registry"@,
                self.registry,
                "--no-audit"@,
                "--no-fund"@,
                "--loglevel"@,
                "error"@,
            ],
        )
    }

    /// The place of a version.
    pub open spec fn target(self, version: Seq<char>) -> Seq<char> {
        path_join(self.versions, version)
    }

    /// An install that ends here, with nothing to remove.
    pub open spec fn fails(self, reason: Seq<char>) -> InstallStepView {
        InstallStepView::Failed { discard: None, reason }
    }

    /// What follows from creating the directory of the versions.
    pub open spec fn after_versions(self, made: Result<(), Seq<char>>) -> InstallStepView {
        match made {
            Ok(_) => InstallStepView::CreateCache { dir: self.cache },
            Err(e) => self.fails("创建版本目录失败: "@ + e),
        }
    }

    /// What follows from creating the npm cache.
    pub open spec fn after_cache(self, made: Result<(), Seq<char>>) -> InstallStepView {
        match made {
            Ok(_) => InstallStepView::RunNpm {
                line: "安装 "@ + self.wanted() + "("@ + self.registry + ")…"@,
                remove: self.staging,
                launch: self.npm_install(),
            },
            Err(e) => self.fails("创建 npm 缓存目录失败: "@ + e),
        }
    }

    /// What follows from starting `npm`.
    pub open spec fn after_spawn(self, started: Result<(), Seq<char>>) -> InstallStepView {
        match started {
            Ok(_) => InstallStepView::AwaitNpm,
            Err(e) => self.fails("启动 npm install 失败: "@ + e),
        }
    }

    /// What follows from the end of `npm`: whether it did well, and its exit code.
    pub open spec fn after_npm(self, ended: Result<(bool, Option<i32>), Seq<char>>) -> InstallStepView {
        match ended {
            Ok((true, _)) => InstallStepView::ReadStaging { dir: self.staging },
            Ok((false, code)) => InstallStepView::Failed {
                discard: Some(self.staging),
                reason: "npm install 退出码 "@ + code_notation(code) + "（网络或 registry 问题）"@,
            },
            Err(e) => self.fails("等待 npm install 失败: "@ + e),
        }
    }

    /// What follows from the version found in the staging directory.
    pub open spec fn after_staging(self, found: Result<Seq<char>, Seq<char>>) -> InstallStepView {
        match found {
            Ok(version) => InstallStepView::CheckTarget {
                line: "已安装 "@ + PKG@ + "@"@ + version + "，正在验证…"@,
                version,
                target: self.target(version),
            },
            Err(reason) => self.fails(reason),
        }
    }

    /// What follows from the look at the place of the version.
    pub open spec fn after_check(self, version: Seq<char>, taken: bool) -> InstallStepView {
        if taken {
            InstallStepView::Reuse {
                line: "版本 "@ + version + " 已存在，复用"@,
                remove: self.staging,
                target: self.target(version),
            }
        } else {
            InstallStepView::Move { from: self.staging, to: self.target(version) }
        }
    }

    /// What follows from the move to the place of the version.
    pub open spec fn after_move(self, version: Seq<char>, moved: Result<(), Seq<char>>) -> InstallStepView {
        match moved {
            Ok(_) => InstallStepView::ReadTarget { target: self.target(version) },
            Err(e) => self.fails("归档版本目录失败: "@ + e),
        }
    }

    /// What follows from the look into the place of the version.
    pub open spec fn after_target(self, version: Seq<char>, complete: bool) -> InstallStepView {
        if complete {
            InstallStepView::AskVersion {
                launch: node_command(
                    self.tools,
                    seq![bin_path(self.target(version)), "--version"@],
                ),
            }
        } else {
            self.fails("版本 "@ + version + " 安装不完整"@)
        }
    }

    /// What follows from the version that the executable told: whether it did well, and what it
    /// printed.
    pub open spec fn after_answer(
        self,
        version: Seq<char>,
        asked: Result<(bool, Seq<char>), Seq<char>>,
    ) -> InstallStepView {
        match asked {
            Ok((success, printed)) => if success && trimmed(printed) == version {
                InstallStepView::Point { write: pointer_file(self.data, version) }
            } else {
                self.fails("版本验证失败: 期望 "@ + version + "，实际 "@ + trimmed(printed))
            },
            Err(e) => self.fails("验证 --version 失败: "@ + e),
        }
    }

    /// What follows from the write of the pointer.
    pub open spec fn after_pointer(self, version: Seq<char>, written: Result<(), Seq<char>>) -> InstallStepView {
        match written {
            Ok(_) => InstallStepView::Done { line: "运行时 "@ + version + " 就绪"@, version },
            Err(reason) => self.fails(reason),
        }
    }
}

/// The end of a command: whether it did well, and its exit code.
pub open spec fn end_of(out: Result<Output, String>) -> Result<(bool, Option<i32>), Seq<char>> {
    match out {
        Ok(out) => Ok((out.success, out.code)),
        Err(e) => Err(e@),
    }
}

/// The answer of a command: whether it did well, and what it printed.
pub open spec fn answer_of(out: Result<Output, String>) -> Result<(bool, Seq<char>), Seq<char>> {
    match out {
        Ok(out) => Ok((out.success, out.stdout@)),
        Err(e) => Err(e@),
    }
}

fn failed(reason: String) -> (r: InstallStep)
    ensures
        r@ == (InstallStepView::Failed { discard: None, reason: reason@ }),
{
    InstallStep::Failed { discard: None, reason }
}

impl InstallPlan {
    /// The directory of the versions has been created, or could not be.
    pub fn versions_made(&self, made: Result<(), String>) -> (r: InstallStep)
        ensures
            r@ == self@.after_versions(result_of(made)),
    {
        match made {
            Ok(_) => InstallStep::CreateCache { dir: self.cache.clone() },
            Err(e) => failed(plus("创建版本目录失败: ", e.as_str())),
        }
    }

    /// The npm cache has been created, or could not be.
    pub fn cache_made(&self, made: Result<(), String>) -> (r: InstallStep)
        ensures
            r@ == self@.after_cache(result_of(made)),
    {
        match made {
            Ok(_) => {
                let mut wanted = PKG.to_owned();
                wanted.append("@");
                wanted.append(self.spec.as_str());
                let mut line = "安装 ".to_owned();
                line.append(wanted.as_str());
                line.append("(");
                line.append(self.registry.as_str());
                line.append(")…");
                let rest: [&str; 12] = [
                    "install",
                    wanted.as_str(),
                    "--prefix",
                    self.staging.as_str(),
                    "--cache",
                    self.cache.as_str(),
                    "--registry",
                    self.registry.as_str(),
                    "--no-audit",
                    "--no-fund",
                    "--loglevel",
                    "error",
                ];
                let launch = npm_launch(&self.tools, &rest);
                assert(launch@.args =~= self@.npm_install().args);
                InstallStep::RunNpm { line, remove: self.staging.clone(), launch }
            },
            Err(e) => failed(plus("创建 npm 缓存目录失败: ", e.as_str())),
        }
    }

    /// `npm` has been started, or could not be.
    pub fn npm_started(&self, started: Result<(), String>) -> (r: InstallStep)
        ensures
            r@ == self@.after_spawn(result_of(started)),
    {
        match started {
            Ok(_) => InstallStep::AwaitNpm,
            Err(e) => failed(plus("启动 npm install 失败: ", e.as_str())),
        }
    }

    /// `npm` has ended, or could not be waited for.
    pub fn npm_ended(&self, ended: Result<Output, String>) -> (r: InstallStep)
        ensures
            r@ == self@.after_npm(end_of(ended)),
    {
        match ended {
            Ok(out) => if out.success {
                InstallStep::ReadStaging { dir: self.staging.clone() }
            } else {
                let mut reason = "npm install 退出码 ".to_owned();
                reason.append(code_text(out.code).as_str());
                reason.append("（网络或 registry 问题）");
                InstallStep::Failed { discard: Some(self.staging.clone()), reason }
            },
            Err(e) => failed(plus("等待 npm install 失败: ", e.as_str())),
        }
    }

    /// The manifest in the staging directory has been read, or could not be.
    pub fn staging_read(&self, manifest: &Result<String, String>) -> (r: InstallStep)
        ensures
            r@ == self@.after_staging(manifest_version(result_text(*manifest))),
    {
        self.staging_version(installed_version(manifest))
    }

    /// The version in the staging directory has been found, or could not be.
    pub fn staging_version(&self, found: Result<String, String>) -> (r: InstallStep)
        ensures
            r@ == self@.after_staging(result_text(found)),
    {
        match found {
            Ok(version) => {
                let mut line = "已安装 ".to_owned();
                line.append(PKG);
                line.append("@");
                line.append(version.as_str());
                line.append("，正在验证…");
                let target = join_path(self.versions.as_str(), version.as_str());
                InstallStep::CheckTarget { line, version, target }
            },
            Err(reason) => failed(reason),
        }
    }

    /// The place of the version has been looked at.
    pub fn target_checked(&self, version: &str, taken: bool) -> (r: InstallStep)
        ensures
            r@ == self@.after_check(version@, taken),
    {
        let target = join_path(self.versions.as_str(), version);
        if taken {
            let mut line = "版本 ".to_owned();
            line.append(version);
            line.append(" 已存在，复用");
            InstallStep::Reuse { line, remove: self.staging.clone(), target }
        } else {
            InstallStep::Move { from: self.staging.clone(), to: target }
        }
    }

    /// The staging directory has been moved, or could not be.
    pub fn moved(&self, version: &str, moved: Result<(), String>) -> (r: InstallStep)
        ensures
            r@ == self@.after_move(version@, result_of(moved)),
    {
        match moved {
            Ok(_) => InstallStep::ReadTarget { target: join_path(self.versions.as_str(), version) },
            Err(e) => failed(plus("归档版本目录失败: ", e.as_str())),
        }
    }

    /// The place of the version has been looked into.
    pub fn target_read(&self, version: &str, install: &Install) -> (r: InstallStep)
        ensures
            r@ == self@.after_target(version@, install.complete()),
    {
        self.target_complete(version, is_complete(install))
    }

    /// The install in the place of the version can be run, or not.
    pub fn target_complete(&self, version: &str, complete: bool) -> (r: InstallStep)
        ensures
            r@ == self@.after_target(version@, complete),
    {
        if complete {
            let bin = bin_of(join_path(self.versions.as_str(), version).as_str());
            let launch = node_launch(&self.tools, &[bin.as_str(), "--version"]);
            assert(launch@.args =~= seq![bin@, "--version"@]);
            InstallStep::AskVersion { launch }
        } else {
            let mut reason = "版本 ".to_owned();
            reason.append(version);
            reason.append(" 安装不完整");
            failed(reason)
        }
    }

    /// The executable has been asked for its version.
    pub fn version_told(&self, version: &str, asked: Result<Output, String>) -> (r: InstallStep)
        ensures
            r@ == self@.after_answer(version@, answer_of(asked)),
    {
        match asked {
            Ok(out) => {
                let reported = trim(out.stdout.as_str());
                if out.success && same(reported, version) {
                    InstallStep::Point { write: write_current(self.data.as_str(), version) }
                } else {
                    let mut reason = "版本验证失败: 期望 ".to_owned();
                    reason.append(version);
                    reason.append("，实际 ");
                    reason.append(reported);
                    failed(reason)
                }
            },
            Err(e) => failed(plus("验证 --version 失败: ", e.as_str())),
        }
    }

    /// The pointer has been written, or could not be.
    pub fn pointed(&self, version: &str, written: Result<(), String>) -> (r: InstallStep)
        ensures
            r@ == self@.after_pointer(version@, result_of(written)),
    {
        match written {
            Ok(_) => {
                let mut line = "运行时 ".to_owned();
                line.append(version);
                line.append(" 就绪");
                InstallStep::Done { line, version: version.to_owned() }
            },
            Err(reason) => failed(reason),
        }
    }
}

/// What the outside steps of one install give. `found` is the version in the staging directory.
pub struct InstallFacts {
    pub versions: Result<(), Seq<char>>,
    pub cache: Result<(), Seq<char>>,
    pub started: Result<(), Seq<char>>,
    pub ended: Result<(bool, Option<i32>), Seq<char>>,
    pub found: Result<Seq<char>, Seq<char>>,
    pub taken: bool,
    pub moved: Result<(), Seq<char>>,
    pub complete: bool,
    pub asked: Result<(bool, Seq<char>), Seq<char>>,
    pub written: Result<(), Seq<char>>,
}

impl InstallFacts {
    /// The version is in its place and told the same version that its manifest has.
    pub open spec fn verified(self) -> Option<Seq<char>> {
        if self.found is Ok && self.complete && self.asked is Ok && self.asked->Ok_0.0 && trimmed(
            self.asked->Ok_0.1,
        ) == self.found->Ok_0 {
            Some(self.found->Ok_0)
        } else {
            None
        }
    }
}

/// The steps of an install from the version found in the staging directory on: how it ends, and
/// what it writes to the pointer.
pub open spec fn archive_run(plan: InstallPlanView, version: Seq<char>, f: InstallFacts) -> (
    InstallStepView,
    Option<FileWriteView>,
) {
    let t1 = plan.after_check(version, f.taken);
    let t2 = if t1 is Move {
        plan.after_move(version, f.moved)
    } else {
        t1
    };
    if t2 is Reuse || t2 is ReadTarget {
        let t3 = plan.after_target(version, f.complete);
        if t3 is AskVersion {
            let t4 = plan.after_answer(version, f.asked);
            if t4 is Point {
                (plan.after_pointer(version, f.written), Some(t4->write))
            } else {
                (t4, None)
            }
        } else {
            (t3, None)
        }
    } else {
        (t2, None)
    }
}

/// A whole install: how it ends, and what it writes to the pointer.
pub open spec fn install_run(plan: InstallPlanView, f: InstallFacts) -> (
    InstallStepView,
    Option<FileWriteView>,
) {
    let t1 = plan.after_versions(f.versions);
    if t1 is CreateCache {
        let t2 = plan.after_cache(f.cache);
        if t2 is RunNpm {
            let t3 = plan.after_spawn(f.started);
            if t3 is AwaitNpm {
                let t4 = plan.after_npm(f.ended);
                if t4 is ReadStaging {
                    let t5 = plan.after_staging(f.found);
                    if t5 is CheckTarget {
                        archive_run(plan, t5->CheckTarget_version, f)
                    } else {
                        (t5, None)
                    }
                } else {
                    (t4, None)
                }
            } else {
                (t3, None)
            }
        } else {
            (t2, None)
        }
    } else {
        (t1, None)
    }
}

/// An install is done or fails. The pointer is touched only for a version that stands complete in
/// its place and told, when it was run, the version that its manifest has; so an install that
/// fails before leaves the active version alone. It is done only when that pointer was written.
pub proof fn law_install(plan: InstallPlanView, f: InstallFacts)
    ensures
        ({
            let (end, write) = install_run(plan, f);
            &&& end is Done || end is Failed
            &&& write matches Some(w) ==> f.verified() matches Some(version) && w == pointer_file(
                plan.data,
                version,
            )
            &&& end is Done ==> write is Some && f.written is Ok && f.verified() == Some(
                end->Done_version,
            )
        }),
{
}

/// An install of which every outside step does well is done, and what it installed is the version
/// in the manifest.
pub proof fn law_install_succeeds(plan: InstallPlanView, f: InstallFacts)
    requires
        f.versions is Ok,
        f.cache is Ok,
        f.started is Ok,
        f.ended matches Ok(e) && e.0,
        f.moved is Ok,
        f.verified() is Some,
        f.written is Ok,
    ensures
        install_run(plan, f).0 is Done,
        install_run(plan, f).0->Done_version == f.verified()->0,
{
}

/// A staging directory is never taken for a version: its name begins with a dot.
pub proof fn law_staging_hidden(secs: u64)
    ensures
        "."@.is_prefix_of(staging_name(secs)),
{
    reveal_strlit(".");
    reveal_strlit(".staging");
    assert(staging_name(secs).take(1) =~= "."@);
}

/// An install works on what it was asked for, below the data directory that it was given: versions,
/// cache and staging directory.
pub proof fn law_plan(
    tools: ToolsView,
    registry: Seq<char>,
    spec_text: Seq<char>,
    data: Seq<char>,
    secs: u64,
)
    ensures
        ({
            let plan = install_plan(tools, registry, spec_text, data, secs);
            &&& plan.tools == tools
            &&& plan.registry == registry
            &&& plan.spec == spec_text
            &&& plan.data == data
            &&& plan.versions == path_join(path_join(data, "runtime"@), "versions"@)
            &&& plan.cache == path_join(data, "npm-cache"@)
            &&& plan.staging == path_join(plan.versions, ".staging-"@ + decimal(secs as nat))
        }),
{
    reveal_strlit(".staging");
    reveal_strlit("-");
    reveal_strlit(".staging-");
    assert(staging_name(secs) =~= ".staging-"@ + decimal(secs as nat));
}

/// `npm` is asked to install exactly the package at exactly the version or tag that the plan names,
/// into the staging directory, with the cache of the application and from the registry of the plan.
/// The staging directory is removed before.
pub proof fn law_npm_install(plan: InstallPlanView)
    ensures
        ({
            let step = plan.after_cache(Ok(()));
            let args = step->RunNpm_launch.args;
            let n = plan.tools.npm_prefix.len() as int;
            &&& step is RunNpm
            &&& step->RunNpm_remove == plan.staging
            &&& step->RunNpm_launch.program == plan.tools.npm
            &&& step->RunNpm_launch.cwd is None
            &&& args.len() == n + 12
            &&& args.take(n) == plan.tools.npm_prefix
            &&& args[n] == "install"@
            &&& args[n + 1] == "@deepseek-ai/dsh@"@ + plan.spec
            &&& args[n + 2] == "--prefix"@ && args[n + 3] == plan.staging
            &&& args[n + 4] == "--cache"@ && args[n + 5] == plan.cache
            &&& args[n + 6] == "--registry"@ && args[n + 7] == plan.registry
            &&& args[n + 8] == "--no-audit"@ && args[n + 9] == "--no-fund"@
            &&& args[n + 10] == "--loglevel"@ && args[n + 11] == "error"@
            &&& step->RunNpm_line == "安装 @deepseek-ai/dsh@"@ + plan.spec + "("@ + plan.registry
                + ")…"@
        }),
{
    reveal_strlit("@deepseek-ai/dsh");
    reveal_strlit("@");
    reveal_strlit("@deepseek-ai/dsh@");
    reveal_strlit("安装 ");
    reveal_strlit("安装 @deepseek-ai/dsh@");
    let step = plan.after_cache(Ok(()));
    let n = plan.tools.npm_prefix.len() as int;
    assert(step->RunNpm_launch.args.take(n) =~= plan.tools.npm_prefix);
    assert(plan.wanted() =~= "@deepseek-ai/dsh@"@ + plan.spec);
    assert(step->RunNpm_line =~= "安装 @deepseek-ai/dsh@"@ + plan.spec + "("@ + plan.registry
        + ")…"@);
}

/// Two installs with the same tools that run the same command install the same version, from the same
/// registry, into the same directory.
pub proof fn law_npm_install_injective(a: InstallPlanView, b: InstallPlanView)
    requires
        a.tools == b.tools,
        a.after_cache(Ok(()))->RunNpm_launch == b.after_cache(Ok(()))->RunNpm_launch,
    ensures
        a.spec == b.spec,
        a.registry == b.registry,
        a.staging == b.staging,
        a.cache == b.cache,
{
    law_npm_install(a);
    law_npm_install(b);
    let p = "@deepseek-ai/dsh@"@;
    assert(a.spec =~= (p + a.spec).skip(p.len() as int));
    assert(b.spec =~= (p + b.spec).skip(p.len() as int));
}

/// What `npm` left in the staging directory is looked at exactly if it did well; otherwise it is
/// removed and the exit code told.
pub proof fn law_npm_end(plan: InstallPlanView, success: bool, code: Option<i32>, e: Seq<char>)
    ensures
        success ==> plan.after_npm(Ok((success, code))) == (InstallStepView::ReadStaging {
            dir: plan.staging,
        }),
        !success ==> plan.after_npm(Ok((success, code))) == (InstallStepView::Failed {
            discard: Some(plan.staging),
            reason: "npm install 退出码 "@ + code_notation(code) + "（网络或 registry 问题）"@,
        }),
        plan.after_npm(Err(e)) == (InstallStepView::Failed {
            discard: None,
            reason: "等待 npm install 失败: "@ + e,
        }),
{
}

/// Each outside step of an install that goes wrong ends it with its own reason and removes nothing;
/// each that goes well leads on.
pub proof fn law_install_faults(plan: InstallPlanView, version: Seq<char>, e: Seq<char>)
    ensures
        plan.after_versions(Ok(())) == (InstallStepView::CreateCache { dir: plan.cache }),
        plan.after_versions(Err(e)) == (InstallStepView::Failed {
            discard: None,
            reason: "创建版本目录失败: "@ + e,
        }),
        plan.after_cache(Err(e)) == (InstallStepView::Failed {
            discard: None,
            reason: "创建 npm 缓存目录失败: "@ + e,
        }),
        plan.after_spawn(Ok(())) is AwaitNpm,
        plan.after_spawn(Err(e)) == (InstallStepView::Failed {
            discard: None,
            reason: "启动 npm install 失败: "@ + e,
        }),
        plan.after_staging(Err(e)) == (InstallStepView::Failed { discard: None, reason: e }),
        plan.after_move(version, Err(e)) == (InstallStepView::Failed {
            discard: None,
            reason: "归档版本目录失败: "@ + e,
        }),
        plan.after_target(version, false) == (InstallStepView::Failed {
            discard: None,
            reason: "版本 "@ + version + " 安装不完整"@,
        }),
        plan.after_answer(version, Err(e)) == (InstallStepView::Failed {
            discard: None,
            reason: "验证 --version 失败: "@ + e,
        }),
        plan.after_pointer(version, Err(e)) == (InstallStepView::Failed { discard: None, reason: e }),
        plan.after_pointer(version, Ok(())) == (InstallStepView::Done {
            line: "运行时 "@ + version + " 就绪"@,
            version,
        }),
{
}

/// An installed version has one place, below the versions and under its own name. It is moved there
/// from the staging directory if the place is free; if it is taken, what is there stays and the
/// staging directory goes.
pub proof fn law_version_place(plan: InstallPlanView, version: Seq<char>)
    ensures
        ({
            let place = path_join(plan.versions, version);
            let found = plan.after_staging(Ok(version));
            &&& found is CheckTarget
            &&& found->CheckTarget_line == "已安装 @deepseek-ai/dsh@"@ + version + "，正在验证…"@
            &&& found->CheckTarget_version == version
            &&& found->CheckTarget_target == place
            &&& plan.after_check(version, false) == (InstallStepView::Move {
                from: plan.staging,
                to: place,
            })
            &&& plan.after_check(version, true) is Reuse
            &&& plan.after_check(version, true)->Reuse_line == "版本 "@ + version + " 已存在，复用"@
            &&& plan.after_check(version, true)->Reuse_remove == plan.staging
            &&& plan.after_check(version, true)->Reuse_target == place
            &&& plan.after_move(version, Ok(())) == (InstallStepView::ReadTarget { target: place })
        }),
{
    reveal_strlit("@deepseek-ai/dsh");
    reveal_strlit("@");
    reveal_strlit("已安装 ");
    reveal_strlit("已安装 @deepseek-ai/dsh@");
    assert("已安装 "@ + PKG@ + "@"@ + version + "，正在验证…"@ =~= "已安装 @deepseek-ai/dsh@"@
        + version + "，正在验证…"@);
}

/// The runtime that is missing is installed from the channel and the registry of the settings: that
/// is what `npm` is asked for.
pub proof fn law_channel_installed(tools: ToolsView, settings: Settings, data: Seq<char>, secs: u64)
    ensures
        ({
            let plan = install_plan(tools, settings.registry@, settings.channel@, data, secs);
            let args = plan.after_cache(Ok(()))->RunNpm_launch.args;
            let n = tools.npm_prefix.len() as int;
            &&& args[n + 1] == "@deepseek-ai/dsh@"@ + settings.channel@
            &&& args[n + 7] == settings.registry@
        }),
{
    law_npm_install(install_plan(tools, settings.registry@, settings.channel@, data, secs));
}

/// A version that stands complete in its place is run from there and asked for its version. Only if it
/// ends well and tells the version that it was installed as is it made the active one.
pub proof fn law_version_asked(
    plan: InstallPlanView,
    version: Seq<char>,
    success: bool,
    before: Seq<char>,
    told: Seq<char>,
    after: Seq<char>,
)
    requires
        is_blank(before),
        is_blank(after),
        told.len() > 0,
        !is_white_space(told[0]),
        !is_white_space(told.last()),
    ensures
        ({
            let step = plan.after_target(version, true);
            &&& step is AskVersion
            &&& step->AskVersion_launch.program == plan.tools.node
            &&& step->AskVersion_launch.args == seq![
                path_join(
                    path_join(plan.versions, version),
                    "node_modules/@deepseek-ai/dsh/lib/bin.js"@,
                ),
                "--version"@,
            ]
        }),
        ({
            let step = plan.after_answer(version, Ok((success, before + told + after)));
            &&& step is Point <==> success && told == version
            &&& step is Point || step == (InstallStepView::Failed {
                discard: None,
                reason: "版本验证失败: 期望 "@ + version + "，实际 "@ + told,
            })
            &&& step is Point ==> step->write.content == version && step->write.target == path_join(
                path_join(plan.data, "runtime"@),
                "current"@,
            )
        }),
{
    law_trimmed(before, told, after);
}

/// The end of a command is taken as it is.
pub proof fn law_ends(out: Output, e: String)
    ensures
        end_of(Ok(out)) == Ok::<(bool, Option<i32>), Seq<char>>((out.success, out.code)),
        end_of(Err(e)) == Err::<(bool, Option<i32>), Seq<char>>(e@),
        answer_of(Ok(out)) == Ok::<(bool, Seq<char>), Seq<char>>((out.success, out.stdout@)),
        answer_of(Err(e)) == Err::<(bool, Seq<char>), Seq<char>>(e@),
{
}

/// A plan is shown with each of its parts as it is.
pub proof fn law_install_plan_shown(x: InstallPlan)
    ensures
        x@.tools == x.tools@,
        x@.registry == x.registry@,
        x@.spec == x.spec@,
        x@.data == x.data@,
        x@.versions == x.versions@,
        x@.cache == x.cache@,
        x@.staging == x.staging@,
{
}

/// A step of an install is shown as it is, with all that it carries.
pub proof fn law_install_step_shown(x: InstallStep)
    ensures
        x matches InstallStep::CreateCache { dir } ==> x@ == (InstallStepView::CreateCache {
            dir: dir@,
        }),
        x matches InstallStep::RunNpm { line, remove, launch } ==> x@ == (InstallStepView::RunNpm {
            line: line@,
            remove: remove@,
            launch: launch@,
        }),
        x is AwaitNpm ==> x@ is AwaitNpm,
        x matches InstallStep::ReadStaging { dir } ==> x@ == (InstallStepView::ReadStaging {
            dir: dir@,
        }),
        x matches InstallStep::CheckTarget { line, version, target } ==> x@
            == (InstallStepView::CheckTarget {
            line: line@,
            version: version@,
            target: target@,
        }),
        x matches InstallStep::Reuse { line, remove, target } ==> x@ == (InstallStepView::Reuse {
            line: line@,
            remove: remove@,
            target: target@,
        }),
        x matches InstallStep::Move { from, to } ==> x@ == (InstallStepView::Move {
            from: from@,
            to: to@,
        }),
        x matches InstallStep::ReadTarget { target } ==> x@ == (InstallStepView::ReadTarget {
            target: target@,
        }),
        x matches InstallStep::AskVersion { launch } ==> x@ == (InstallStepView::AskVersion {
            launch: launch@,
        }),
        x matches InstallStep::Point { write } ==> x@ == (InstallStepView::Point { write: write@ }),
        x matches InstallStep::Done { line, version } ==> x@ == (InstallStepView::Done {
            line: line@,
            version: version@,
        }),
        x matches InstallStep::Failed { discard, reason } ==> x@ == (InstallStepView::Failed {
            discard: maybe_text(discard),
            reason: reason@,
        }),
{
}

/// A version that tells nothing about itself is not made the active one.
pub proof fn law_version_silent(
    plan: InstallPlanView,
    version: Seq<char>,
    success: bool,
    printed: Seq<char>,
)
    requires
        is_blank(printed),
        version.len() > 0,
    ensures
        plan.after_answer(version, Ok((success, printed))) is Failed,
        plan.after_answer(version, Ok((success, printed)))->discard is None,
{
    law_nothing_left(printed);
}

} // verus!
