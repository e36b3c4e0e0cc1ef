//! Starting the child, step by step. Each function takes what the last outside step gave and says
//! what to do next.

use vstd::prelude::*;
use vstd::string::*;

use crate::dsh::Phase;
use crate::dsh::PhaseView;
use crate::dsh::Shared;
use crate::dsh::SharedView;
use crate::dsh::Supervisor;
use crate::resolve::Resolve;
use crate::resolve::ResolveView;
use crate::text::decimal;
use crate::text::decimal_text;
use crate::text::maybe_text;
use crate::text::result_of;
use crate::text::result_text;
use crate::text::with_line_feed;

verus! {

/// What the shell UI shows when an install begins.
pub const INSTALL_NOTE: &'static str = "正在安装 dsh 运行时（首次约 1 分钟）…";

/// What to do next in a start.
#[derive(Debug)]
pub enum StartStep {
    /// Ask `node` for its version.
    CheckNode { bin: String },
    /// Tell the shell UI and install a runtime.
    Install { phase: Phase },
    /// Open a log file for the child.
    OpenLog { bin: String, node_version: String },
    /// Append `log` to the log file and spawn the child.
    Spawn { log: String },
    /// Find the application data directory.
    FindDataDir { pid: u32 },
    /// Create the application data directory.
    CreateDataDir { pid: u32, dir: String },
    /// Find the place of the pid file.
    FindPidFile { pid: u32 },
    /// Write the pid file, append `log` to the log file and watch the child.
    Watch { pid_path: String, pid_file: String, log: String },
    /// Append `last_log` to the log file, kill the process `kill`, tell the shell UI and return the
    /// error.
    Failed { last_log: Option<String>, kill: Option<u32>, phase: Phase, error: String },
}

/// The values of a [`StartStep`].
#[verifier::ext_equal]
pub enum StartStepView {
    CheckNode { bin: Seq<char> },
    Install { phase: PhaseView },
    OpenLog { bin: Seq<char>, node_version: Seq<char> },
    Spawn { log: Seq<char> },
    FindDataDir { pid: u32 },
    CreateDataDir { pid: u32, dir: Seq<char> },
    FindPidFile { pid: u32 },
    Watch { pid_path: Seq<char>, pid_file: Seq<char>, log: Seq<char> },
    Failed { last_log: Option<Seq<char>>, kill: Option<u32>, phase: PhaseView, error: Seq<char> },
}

impl View for StartStep {
    type V = StartStepView;

    open spec fn view(&self) -> StartStepView {
        match self {
            StartStep::CheckNode { bin } => StartStepView::CheckNode { bin: bin@ },
            StartStep::Install { phase } => StartStepView::Install { phase: phase@ },
            StartStep::OpenLog { bin, node_version } => StartStepView::OpenLog {
                bin: bin@,
                node_version: node_version@,
            },
            StartStep::Spawn { log } => StartStepView::Spawn { log: log@ },
            StartStep::FindDataDir { pid } => StartStepView::FindDataDir { pid: *pid },
            StartStep::CreateDataDir { pid, dir } => StartStepView::CreateDataDir {
                pid: *pid,
                dir: dir@,
            },
            StartStep::FindPidFile { pid } => StartStepView::FindPidFile { pid: *pid },
            StartStep::Watch { pid_path, pid_file, log } => StartStepView::Watch {
                pid_path: pid_path@,
                pid_file: pid_file@,
                log: log@,
            },
            StartStep::Failed { last_log, kill, phase, error } => StartStepView::Failed {
                last_log: maybe_text(*last_log),
                kill: *kill,
                phase: phase@,
                error: error@,
            },
        }
    }
}

/// The generation after `seq`, counted around at the end of the range.
pub open spec fn next_generation(seq: u64) -> u64 {
    if seq == u64::MAX {
        0
    } else {
        (seq + 1) as u64
    }
}

/// The first log line of a child: what it runs on, in the notation of the log.
pub open spec fn opening_line(
    node_version: Seq<char>,
    bin_shown: Seq<char>,
    log_shown: Seq<char>,
) -> Seq<char> {
    "[dsh] node "@ + node_version + ", bin "@ + bin_shown + ", log "@ + log_shown
}

/// The log line of a child that has been spawned.
pub open spec fn spawned_line(pid: u32, id: u64) -> Seq<char> {
    "[dsh] spawned pid="@ + decimal(pid as nat) + " id="@ + decimal(id as nat)
}

/// What the pid file of a child holds: its process id and its generation, one per line.
pub open spec fn pid_file_text(pid: u32, id: u64) -> Seq<char> {
    decimal(pid as nat) + "\n"@ + decimal(id as nat) + "\n"@
}

impl SharedView {
    /// The state with a new generation.
    pub open spec fn begun(self) -> SharedView {
        SharedView { seq: next_generation(self.seq), ..self }
    }

    /// The state without a child.
    pub open spec fn vacated(self) -> SharedView {
        SharedView { slot: None, ..self }
    }

    /// The state with a child in its place.
    pub open spec fn holding(self, child: Supervisor) -> SharedView {
        SharedView { slot: Some(child), ..self }
    }

    /// The state in which a start is under way.
    pub open spec fn entered(self) -> SharedView {
        SharedView { phase: PhaseView::Starting, ..self }
    }

    /// The state in which an install is under way.
    pub open spec fn installing(self) -> SharedView {
        SharedView { phase: PhaseView::Bootstrapping { line: INSTALL_NOTE@ }, ..self.busier() }
    }

    /// A start that ends here: the failure is in the state and in the step.
    pub open spec fn given_up(
        self,
        reason: Seq<char>,
        log: Option<Seq<char>>,
        kill: Option<u32>,
        error: Seq<char>,
    ) -> (SharedView, StartStepView) {
        let s = self.failed(reason);
        (s, StartStepView::Failed { last_log: log, kill, phase: s.phase, error })
    }

    /// What follows from the search for the executable.
    pub open spec fn after_resolve(self, found: ResolveView) -> (SharedView, StartStepView) {
        match found {
            ResolveView::Ready(bin) => (self, StartStepView::CheckNode { bin }),
            ResolveView::NeedBootstrap => (
                self.installing(),
                StartStepView::Install { phase: self.installing().phase },
            ),
            ResolveView::Failed(reason) => self.given_up(
                reason,
                None,
                None,
                "runtime resolve failed"@,
            ),
        }
    }

    /// What follows from the check of `node`.
    pub open spec fn after_node(self, bin: Seq<char>, node: Result<Seq<char>, Seq<char>>) -> (
        SharedView,
        StartStepView,
    ) {
        match node {
            Ok(node_version) => (self, StartStepView::OpenLog { bin, node_version }),
            Err(reason) => self.given_up(reason, None, None, "node check failed"@),
        }
    }

    /// What follows from opening the log.
    pub open spec fn after_log(
        self,
        node_version: Seq<char>,
        bin_shown: Seq<char>,
        log_shown: Result<Seq<char>, Seq<char>>,
    ) -> (SharedView, StartStepView) {
        match log_shown {
            Ok(shown) => {
                let line = opening_line(node_version, bin_shown, shown);
                (self.logged(line), StartStepView::Spawn { log: line + "\n"@ })
            },
            Err(reason) => self.given_up(reason, None, None, "open log failed"@),
        }
    }

    /// What follows from spawning the child.
    pub open spec fn after_spawn(self, child: Result<u32, Seq<char>>) -> (
        SharedView,
        StartStepView,
    ) {
        match child {
            Ok(pid) => (self, StartStepView::FindDataDir { pid }),
            Err(e) => {
                let reason = "spawn dsh 失败: "@ + e;
                let line = "[dsh] "@ + reason;
                self.logged(line).given_up(reason, Some(line + "\n"@), None, "spawn failed"@)
            },
        }
    }

    /// What follows from the search for the data directory.
    pub open spec fn after_data_dir(self, pid: u32, dir: Result<Seq<char>, Seq<char>>) -> (
        SharedView,
        StartStepView,
    ) {
        match dir {
            Ok(dir) => (self, StartStepView::CreateDataDir { pid, dir }),
            Err(reason) => self.given_up(reason, None, Some(pid), "app data dir failed"@),
        }
    }

    /// What follows from creating the data directory.
    pub open spec fn after_data_dir_made(self, pid: u32, made: Result<(), Seq<char>>) -> (
        SharedView,
        StartStepView,
    ) {
        match made {
            Ok(_) => (self, StartStepView::FindPidFile { pid }),
            Err(e) => self.given_up(
                "创建应用数据目录失败: "@ + e,
                None,
                Some(pid),
                "create app data dir failed"@,
            ),
        }
    }

    /// What follows from the search for the pid file: on success the child is in its place.
    pub open spec fn after_pid_file(self, pid: u32, id: u64, path: Result<Seq<char>, Seq<char>>) -> (
        SharedView,
        StartStepView,
    ) {
        match path {
            Ok(pid_path) => {
                let line = spawned_line(pid, id);
                (
                    self.logged(line).holding(Supervisor { pid, id }),
                    StartStepView::Watch {
                        pid_path,
                        pid_file: pid_file_text(pid, id),
                        log: line + "\n"@,
                    },
                )
            },
            Err(reason) => self.given_up(reason, None, Some(pid), "pid file path failed"@),
        }
    }
}

impl Shared {
    /// Begins a start: a new generation makes everything about the previous child stale. The new
    /// generation is returned.
    pub fn start(&mut self) -> (id: u64)
        ensures
            final(self)@ == old(self)@.begun(),
            id == final(self)@.seq,
    {
        self.seq = self.seq.wrapping_add(1);
        self.seq
    }

    /// Forgets the child, which has been killed and reaped.
    pub fn stop(&mut self)
        ensures
            final(self)@ == old(self)@.vacated(),
    {
        self.slot = None;
    }

    /// The previous child is gone and the start proper begins. The phase that is returned is for
    /// the shell UI.
    pub fn enter_starting(&mut self) -> (r: Phase)
        ensures
            final(self)@ == old(self)@.entered(),
            r@ == final(self)@.phase,
    {
        self.phase = Phase::Starting;
        Phase::Starting
    }

    /// An install begins. The phase that is returned is for the shell UI.
    pub fn begin_install(&mut self) -> (r: Phase)
        ensures
            final(self)@ == old(self)@.installing(),
            r@ == final(self)@.phase,
    {
        self.phase = Phase::Bootstrapping { line: INSTALL_NOTE.to_owned() };
        self.count_install();
        self.phase.clone()
    }

    fn give_up(
        &mut self,
        reason: String,
        log: Option<String>,
        kill: Option<u32>,
        error: &str,
    ) -> (r: StartStep)
        ensures
            (final(self)@, r@) == old(self)@.given_up(reason@, maybe_text(log), kill, error@),
    {
        let phase = self.fail_start(reason);
        StartStep::Failed { last_log: log, kill, phase, error: error.to_owned() }
    }

    /// The executable has been searched for.
    pub fn resolved(&mut self, found: Resolve) -> (r: StartStep)
        ensures
            (final(self)@, r@) == old(self)@.after_resolve(found@),
    {
        match found {
            Resolve::Ready(bin) => StartStep::CheckNode { bin },
            Resolve::NeedBootstrap => {
                let phase = self.begin_install();
                StartStep::Install { phase }
            },
            Resolve::Failed(reason) => self.give_up(reason, None, None, "runtime resolve failed"),
        }
    }

    /// `node` has been asked for its version.
    pub fn node_checked(&mut self, bin: String, node: Result<String, String>) -> (r: StartStep)
        ensures
            (final(self)@, r@) == old(self)@.after_node(bin@, result_text(node)),
    {
        match node {
            Ok(node_version) => StartStep::OpenLog { bin, node_version },
            Err(reason) => self.give_up(reason, None, None, "node check failed"),
        }
    }

    /// The log has been opened. Executable and log path are given in the notation of the log.
    pub fn log_opened(
        &mut self,
        node_version: &str,
        bin_shown: &str,
        log_shown: Result<String, String>,
    ) -> (r: StartStep)
        ensures
            (final(self)@, r@) == old(self)@.after_log(
                node_version@,
                bin_shown@,
                result_text(log_shown),
            ),
    {
        match log_shown {
            Ok(shown) => {
                let mut line = "[dsh] node ".to_owned();
                line.append(node_version);
                line.append(", bin ");
                line.append(bin_shown);
                line.append(", log ");
                line.append(shown.as_str());
                let log = self.log_line(line);
                StartStep::Spawn { log }
            },
            Err(reason) => self.give_up(reason, None, None, "open log failed"),
        }
    }

    /// The child has been spawned, or could not be.
    pub fn spawned(&mut self, child: Result<u32, String>) -> (r: StartStep)
        ensures
            (final(self)@, r@) == old(self)@.after_spawn(result_of(child)),
    {
        match child {
            Ok(pid) => StartStep::FindDataDir { pid },
            Err(e) => {
                let mut reason = "spawn dsh 失败: ".to_owned();
                reason.append(e.as_str());
                let mut line = "[dsh] ".to_owned();
                line.append(reason.as_str());
                let log = self.log_line(line);
                self.give_up(reason, Some(log), None, "spawn failed")
            },
        }
    }

    /// The data directory has been searched for.
    pub fn data_dir_found(&mut self, pid: u32, dir: Result<String, String>) -> (r: StartStep)
        ensures
            (final(self)@, r@) == old(self)@.after_data_dir(pid, result_text(dir)),
    {
        match dir {
            Ok(dir) => StartStep::CreateDataDir { pid, dir },
            Err(reason) => self.give_up(reason, None, Some(pid), "app data dir failed"),
        }
    }

    /// The data directory has been created, or could not be.
    pub fn data_dir_made(&mut self, pid: u32, made: Result<(), String>) -> (r: StartStep)
        ensures
            (final(self)@, r@) == old(self)@.after_data_dir_made(pid, result_of(made)),
    {
        match made {
            Ok(_) => StartStep::FindPidFile { pid },
            Err(e) => {
                let mut reason = "创建应用数据目录失败: ".to_owned();
                reason.append(e.as_str());
                self.give_up(reason, None, Some(pid), "create app data dir failed")
            },
        }
    }

    /// The place of the pid file has been searched for.
    pub fn pid_file_found(&mut self, pid: u32, id: u64, path: Result<String, String>) -> (r:
        StartStep)
        ensures
            (final(self)@, r@) == old(self)@.after_pid_file(pid, id, result_text(path)),
    {
        match path {
            Ok(pid_path) => {
                let pid_text = decimal_text(pid as u64);
                let id_text = decimal_text(id);
                let mut pid_file = with_line_feed(pid_text.as_str());
                pid_file.append(id_text.as_str());
                pid_file.append("\n");
                let mut line = "[dsh] spawned pid=".to_owned();
                line.append(pid_text.as_str());
                line.append(" id=");
                line.append(id_text.as_str());
                let log = self.log_line(line);
                self.slot = Some(Supervisor { pid, id });
                StartStep::Watch { pid_path, pid_file, log }
            },
            Err(reason) => self.give_up(reason, None, Some(pid), "pid file path failed"),
        }
    }
}

/// What the outside steps of one start give.
pub struct StartFacts {
    pub found: ResolveView,
    pub node: Result<Seq<char>, Seq<char>>,
    pub bin_shown: Seq<char>,
    pub log_shown: Result<Seq<char>, Seq<char>>,
    pub child: Result<u32, Seq<char>>,
    pub dir: Result<Seq<char>, Seq<char>>,
    pub made: Result<(), Seq<char>>,
    pub pid_path: Result<Seq<char>, Seq<char>>,
}

impl StartFacts {
    /// The process that a start with these facts spawns, if it comes so far.
    pub open spec fn child_spawned(self) -> Option<u32> {
        if self.found is Ready && self.node is Ok && self.log_shown is Ok && self.child is Ok {
            Some(self.child->Ok_0)
        } else {
            None
        }
    }
}

/// A whole start from the state `s`: the steps of this module in their order, each with what the
/// outside step before it gave, up to the first one that ends the start.
pub open spec fn start_run(s: SharedView, f: StartFacts) -> (SharedView, StartStepView) {
    let s0 = s.begun().vacated().entered();
    let (s1, t1) = s0.after_resolve(f.found);
    if t1 is CheckNode {
        let (s2, t2) = s1.after_node(t1->CheckNode_bin, f.node);
        if t2 is OpenLog {
            let (s3, t3) = s2.after_log(t2->node_version, f.bin_shown, f.log_shown);
            if t3 is Spawn {
                let (s4, t4) = s3.after_spawn(f.child);
                if t4 is FindDataDir {
                    let (s5, t5) = s4.after_data_dir(t4->FindDataDir_pid, f.dir);
                    if t5 is CreateDataDir {
                        let (s6, t6) = s5.after_data_dir_made(t5->CreateDataDir_pid, f.made);
                        if t6 is FindPidFile {
                            s6.after_pid_file(t6->FindPidFile_pid, s0.seq, f.pid_path)
                        } else {
                            (s6, t6)
                        }
                    } else {
                        (s5, t5)
                    }
                } else {
                    (s4, t4)
                }
            } else {
                (s3, t3)
            }
        } else {
            (s2, t2)
        }
    } else {
        (s1, t1)
    }
}

/// Every start ends in one of three ways, whatever the outside steps give: an install, a child
/// that is watched, or a failure.
pub proof fn law_start_ends(s: SharedView, f: StartFacts)
    ensures
        ({
            let t = start_run(s, f).1;
            t is Install || t is Watch || t is Failed
        }),
        start_run(s, f).1 is Install <==> f.found is NeedBootstrap,
        start_run(s, f).0.seq == next_generation(s.seq),
{
}

/// A start that fails raises the streak by one, tells the shell UI exactly what the state says,
/// holds no child, and has a process to kill if and only if it spawned one. The reset of the
/// runtime is offered from the third failure in a row on.
pub proof fn law_start_failure(s: SharedView, f: StartFacts)
    requires
        start_run(s, f).1 is Failed,
    ensures
        ({
            let (e, t) = start_run(s, f);
            &&& e.fail_streak == crate::dsh::next_streak(s.fail_streak)
            &&& e.phase is StartFailed
            &&& t->Failed_phase == e.phase
            &&& e.phase->StartFailed_can_reset == (e.fail_streak >= 3)
            &&& e.slot is None
            &&& t->kill == f.child_spawned()
        }),
{
}

/// A start that succeeds leaves the spawned child in its place under the new generation, leaves
/// the streak alone and still waits for the handshake.
pub proof fn law_start_success(s: SharedView, f: StartFacts)
    requires
        start_run(s, f).1 is Watch,
    ensures
        ({
            let (e, t) = start_run(s, f);
            &&& f.child_spawned() matches Some(pid)
            &&& e.slot == Some(Supervisor { pid, id: e.seq })
            &&& t->pid_file == pid_file_text(pid, e.seq)
            &&& e.phase is Starting
            &&& e.fail_streak == s.fail_streak
        }),
{
}

/// A start begins with a generation of its own, and stopping twice is no different from stopping
/// once.
pub proof fn law_start_fresh(s: SharedView)
    ensures
        s.begun().seq != s.seq,
        s.vacated().slot is None,
        s.vacated().vacated() == s.vacated(),
{
}

/// A new generation is the next number, and after the last number the first one.
pub proof fn law_generations(s: SharedView)
    ensures
        s.seq < u64::MAX ==> s.begun().seq == s.seq + 1,
        s.seq == u64::MAX ==> s.begun().seq == 0,
{
}

/// Each change on the way to a child touches what it names and nothing else.
pub proof fn law_start_alone(s: SharedView, child: Supervisor)
    ensures
        s.begun() == (SharedView { seq: s.begun().seq, ..s }),
        s.vacated() == (SharedView { slot: None, ..s }),
        s.holding(child) == (SharedView { slot: Some(child), ..s }),
        s.entered() == (SharedView { phase: PhaseView::Starting, ..s }),
        s.installing().phase == (PhaseView::Bootstrapping {
            line: "正在安装 dsh 运行时（首次约 1 分钟）…"@,
        }),
        s.installing() == (SharedView {
            phase: s.installing().phase,
            installs: s.installing().installs,
            ..s
        }),
        s.installing().install_busy(),
{
}

/// The log says of a child what it runs on, and which process and generation it is.
pub proof fn law_start_lines(
    node_version: Seq<char>,
    bin_shown: Seq<char>,
    log_shown: Seq<char>,
    pid: u32,
    id: u64,
)
    ensures
        opening_line(node_version, bin_shown, log_shown) == "[dsh] node "@ + node_version
            + ", bin "@ + bin_shown + ", log "@ + log_shown,
        spawned_line(pid, id) == "[dsh] spawned pid="@ + decimal(pid as nat) + " id="@ + decimal(
            id as nat,
        ),
        pid_file_text(pid, id) == decimal(pid as nat) + "\n"@ + decimal(id as nat) + "\n"@,
{
}

/// A failure on the way to a child is told with the reason that the outside step gave, and the
/// process that was spawned is killed; before it was, nothing is.
pub proof fn law_start_reasons(s: SharedView, bin: Seq<char>, shown: Seq<char>, pid: u32, id: u64, e: Seq<char>)
    ensures
        ({
            let (t, step) = s.after_resolve(ResolveView::Failed(e));
            &&& t == s.failed(e)
            &&& step == (StartStepView::Failed {
                last_log: None,
                kill: None,
                phase: s.failed(e).phase,
                error: "runtime resolve failed"@,
            })
        }),
        ({
            let (t, step) = s.after_node(bin, Err(e));
            &&& t == s.failed(e)
            &&& step == (StartStepView::Failed {
                last_log: None,
                kill: None,
                phase: s.failed(e).phase,
                error: "node check failed"@,
            })
        }),
        ({
            let (t, step) = s.after_log(bin, shown, Err(e));
            &&& t == s.failed(e)
            &&& step == (StartStepView::Failed {
                last_log: None,
                kill: None,
                phase: s.failed(e).phase,
                error: "open log failed"@,
            })
        }),
        ({
            let (t, step) = s.after_spawn(Err(e));
            let line = "[dsh] spawn dsh 失败: "@ + e;
            &&& t == s.logged(line).failed("spawn dsh 失败: "@ + e)
            &&& step == (StartStepView::Failed {
                last_log: Some(line + "\n"@),
                kill: None,
                phase: t.phase,
                error: "spawn failed"@,
            })
        }),
        ({
            let (t, step) = s.after_data_dir(pid, Err(e));
            &&& t == s.failed(e)
            &&& step == (StartStepView::Failed {
                last_log: None,
                kill: Some(pid),
                phase: s.failed(e).phase,
                error: "app data dir failed"@,
            })
        }),
        ({
            let (t, step) = s.after_data_dir_made(pid, Err(e));
            &&& t == s.failed("创建应用数据目录失败: "@ + e)
            &&& step == (StartStepView::Failed {
                last_log: None,
                kill: Some(pid),
                phase: t.phase,
                error: "create app data dir failed"@,
            })
        }),
        ({
            let (t, step) = s.after_pid_file(pid, id, Err(e));
            &&& t == s.failed(e)
            &&& step == (StartStepView::Failed {
                last_log: None,
                kill: Some(pid),
                phase: s.failed(e).phase,
                error: "pid file path failed"@,
            })
        }),
{
    reveal_strlit("[dsh] ");
    reveal_strlit("spawn dsh 失败: ");
    reveal_strlit("[dsh] spawn dsh 失败: ");
    assert("[dsh] "@ + ("spawn dsh 失败: "@ + e) =~= "[dsh] spawn dsh 失败: "@ + e);
}

/// Each outside step that succeeds hands on what it found, and leaves the state alone but for what is
/// logged, until the child is in its place.
pub proof fn law_start_goes_on(
    s: SharedView,
    bin: Seq<char>,
    node_version: Seq<char>,
    shown: Seq<char>,
    pid: u32,
    id: u64,
    path: Seq<char>,
)
    ensures
        s.after_resolve(ResolveView::Ready(bin)) == (s, StartStepView::CheckNode { bin }),
        s.after_resolve(ResolveView::NeedBootstrap) == (
            s.installing(),
            StartStepView::Install { phase: s.installing().phase },
        ),
        s.after_node(bin, Ok(node_version)) == (s, StartStepView::OpenLog { bin, node_version }),
        ({
            let line = "[dsh] node "@ + node_version + ", bin "@ + bin + ", log "@ + shown;
            s.after_log(node_version, bin, Ok(shown)) == (
                s.logged(line),
                StartStepView::Spawn { log: line + "\n"@ },
            )
        }),
        s.after_spawn(Ok(pid)) == (s, StartStepView::FindDataDir { pid }),
        s.after_data_dir(pid, Ok(path)) == (s, StartStepView::CreateDataDir { pid, dir: path }),
        s.after_data_dir_made(pid, Ok(())) == (s, StartStepView::FindPidFile { pid }),
        ({
            let line = "[dsh] spawned pid="@ + decimal(pid as nat) + " id="@ + decimal(id as nat);
            let (t, step) = s.after_pid_file(pid, id, Ok(path));
            &&& t == (SharedView { slot: Some(Supervisor { pid, id }), ..s.logged(line) })
            &&& step == (StartStepView::Watch {
                pid_path: path,
                pid_file: decimal(pid as nat) + "\n"@ + decimal(id as nat) + "\n"@,
                log: line + "\n"@,
            })
        }),
{
}

/// A step of a start is shown as it is, with all that it carries.
pub proof fn law_start_step_shown(x: StartStep)
    ensures
        x matches StartStep::CheckNode { bin } ==> x@ == (StartStepView::CheckNode { bin: bin@ }),
        x matches StartStep::Install { phase } ==> x@ == (StartStepView::Install { phase: phase@ }),
        x matches StartStep::OpenLog { bin, node_version } ==> x@ == (StartStepView::OpenLog {
            bin: bin@,
            node_version: node_version@,
        }),
        x matches StartStep::Spawn { log } ==> x@ == (StartStepView::Spawn { log: log@ }),
        x matches StartStep::FindDataDir { pid } ==> x@ == (StartStepView::FindDataDir {
            pid: pid,
        }),
        x matches StartStep::CreateDataDir { pid, dir } ==> x@ == (StartStepView::CreateDataDir {
            pid: pid,
            dir: dir@,
        }),
        x matches StartStep::FindPidFile { pid } ==> x@ == (StartStepView::FindPidFile {
            pid: pid,
        }),
        x matches StartStep::Watch { pid_path, pid_file, log } ==> x@ == (StartStepView::Watch {
            pid_path: pid_path@,
            pid_file: pid_file@,
            log: log@,
        }),
        x matches StartStep::Failed { last_log, kill, phase, error } ==> x@
            == (StartStepView::Failed {
            last_log: maybe_text(last_log),
            kill: kill,
            phase: phase@,
            error: error@,
        }),
{
}

} // verus!
