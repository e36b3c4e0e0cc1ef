//! Watching the child: its output, the handshake, its end, and the install of a runtime.

use vstd::prelude::*;
use vstd::string::*;

use crate::dsh::next_streak;
use crate::dsh::Phase;
use crate::dsh::PhaseView;
use crate::dsh::Shared;
use crate::dsh::SharedView;
use crate::dsh::Supervisor;
use crate::dsh::RESET_STREAK;
use crate::runtime::active_version;
use crate::runtime::good_file;
use crate::runtime::overrides;
use crate::runtime::pointed_version;
use crate::start::INSTALL_NOTE;
use crate::text::all_digits;
use crate::text::bounded_value;
use crate::text::code_notation;
use crate::text::code_text;
use crate::text::decimal;
use crate::text::decimal_text;
use crate::text::digit_run;
use crate::text::digits_value;
use crate::text::is_digit;
use crate::text::leading_digits;
use crate::text::lemma_decimal;
use crate::text::lemma_digit_run;
use crate::text::lemma_trimmed_ends;
use crate::text::lemma_trimmed_identity;
use crate::text::maybe_text;
use crate::text::parse_digits;
use crate::text::plus;
use crate::text::result_text;
use crate::text::same;
use crate::text::strip;
use crate::text::stripped;

verus! {

/// How the line begins on which the child tells its port.
pub const HANDSHAKE_PREFIX: &'static str = "dsh web: http://127.0.0.1:";

/// How the address of the child begins.
pub const URL_PREFIX: &'static str = "http://127.0.0.1:";

/// How long the child may take to tell its port, in seconds.
pub const HANDSHAKE_TIMEOUT_SECS: u64 = 30;

/// How long the watcher sleeps between two looks at the child, in milliseconds.
pub const WATCH_MILLIS: u64 = 100;

/// The port on a handshake line: the row of digits behind the prefix. What follows the digits is
/// ignored.
pub open spec fn handshake_port(line: Seq<char>) -> Option<u16> {
    match stripped(line, HANDSHAKE_PREFIX@) {
        Some(rest) => match bounded_value(rest.take(digit_run(rest) as int), u16::MAX as nat) {
            Some(n) => Some(n as u16),
            None => None,
        },
        None => None,
    }
}

/// Reads the port on a handshake line; any other line has none.
pub fn parse_handshake(line: &str) -> (r: Option<u16>)
    ensures
        r == handshake_port(line@),
{
    match strip(line, HANDSHAKE_PREFIX) {
        Some(rest) => match parse_digits(leading_digits(rest), u16::MAX as u64) {
            Some(n) => Some(n as u16),
            None => None,
        },
        None => None,
    }
}

/// The address that the child serves at a port.
pub open spec fn child_url(port: u16) -> Seq<char> {
    URL_PREFIX@ + decimal(port as nat)
}

/// A child that prints `dsh web: ` and its address is understood, whatever follows the port, such
/// as a second address in brackets, so long as it is no digit.
pub proof fn law_handshake(port: u16, suffix: Seq<char>)
    requires
        suffix.len() > 0 ==> !is_digit(suffix[0]),
    ensures
        handshake_port("dsh web: "@ + child_url(port) + suffix) == Some(port),
{
    let digits = decimal(port as nat);
    let line = "dsh web: "@ + child_url(port) + suffix;
    assert("dsh web: "@ + URL_PREFIX@ =~= HANDSHAKE_PREFIX@) by {
        reveal_strlit("dsh web: ");
        reveal_strlit("http://127.0.0.1:");
        reveal_strlit("dsh web: http://127.0.0.1:");
    }
    assert(line =~= HANDSHAKE_PREFIX@ + (digits + suffix));
    assert(line.skip(HANDSHAKE_PREFIX@.len() as int) =~= digits + suffix);
    assert(line.take(HANDSHAKE_PREFIX@.len() as int) =~= HANDSHAKE_PREFIX@);
    lemma_decimal(port as nat);
    lemma_digit_run(digits, suffix);
}

/// Whether the child still runs, or with which code it exited.
#[derive(Debug, Clone, Copy, PartialEq, Eq, Structural)]
pub enum ChildStatus {
    Running,
    Exited(Option<i32>),
}

/// What a look at the child found, by its exit status where it has exited. A child that cannot be
/// looked at counts as exited without a code.
pub fn child_status(looked: Result<Option<Option<i32>>, String>) -> (r: ChildStatus)
    ensures
        r == (match looked {
            Ok(Some(code)) => ChildStatus::Exited(code),
            Ok(None) => ChildStatus::Running,
            Err(_) => ChildStatus::Exited(None),
        }),
{
    match looked {
        Ok(Some(code)) => ChildStatus::Exited(code),
        Ok(None) => ChildStatus::Running,
        Err(_) => ChildStatus::Exited(None),
    }
}

/// What the watcher does next.
#[derive(Debug, Clone, Copy, PartialEq, Eq, Structural)]
pub enum WaitStep {
    /// Another child, or none, is in the place: stop watching.
    Stale,
    /// The child has exited.
    Exited(Option<i32>),
    /// The child told no port in time: stop it.
    TimedOut,
    /// Look again later.
    Poll,
}

/// How the end of a child is dealt with.
#[derive(Debug)]
pub enum ExitStep {
    /// A newer child has replaced it.
    Stale,
    /// The version `from` died before its handshake: switch to the version `to` and start again.
    RollBack { from: String, to: String },
    /// Tell the shell UI.
    Settle { was_starting: bool },
}

/// The values of an [`ExitStep`].
#[verifier::ext_equal]
pub enum ExitStepView {
    Stale,
    RollBack { from: Seq<char>, to: Seq<char> },
    Settle { was_starting: bool },
}

impl View for ExitStep {
    type V = ExitStepView;

    open spec fn view(&self) -> ExitStepView {
        match self {
            ExitStep::Stale => ExitStepView::Stale,
            ExitStep::RollBack { from, to } => ExitStepView::RollBack { from: from@, to: to@ },
            ExitStep::Settle { was_starting } => ExitStepView::Settle {
                was_starting: *was_starting,
            },
        }
    }
}

/// What the shell does about a child that is ready: the address that it shows, and the version that
/// it notes as the last good one before it removes the versions that are no longer needed. Where
/// there is none, it does neither.
#[derive(Debug)]
pub struct ReadyReport {
    pub url: String,
    pub good: Option<String>,
}

/// The values of a [`ReadyReport`].
#[verifier::ext_equal]
pub struct ReadyReportView {
    pub url: Seq<char>,
    pub good: Option<Seq<char>>,
}

impl View for ReadyReport {
    type V = ReadyReportView;

    open spec fn view(&self) -> ReadyReportView {
        ReadyReportView { url: self.url@, good: maybe_text(self.good) }
    }
}

/// What follows the end of an install in the background.
#[derive(Debug)]
pub enum InstallEnd {
    /// Start the child on the version that was installed.
    Start { version: String },
    /// Tell the shell UI.
    Failed { phase: Phase },
}

/// The values of an [`InstallEnd`].
#[verifier::ext_equal]
pub enum InstallEndView {
    Start { version: Seq<char> },
    Failed { phase: PhaseView },
}

impl View for InstallEnd {
    type V = InstallEndView;

    open spec fn view(&self) -> InstallEndView {
        match self {
            InstallEnd::Start { version } => InstallEndView::Start { version: version@ },
            InstallEnd::Failed { phase } => InstallEndView::Failed { phase: phase@ },
        }
    }
}

/// What the shell does about the end of a child: whether it removes the pid file, and the phase
/// that it tells the shell UI.
#[derive(Debug)]
pub struct ExitReport {
    pub remove_pid_file: bool,
    pub phase: Phase,
}

/// How a window that is asked to close behaves.
#[derive(Debug, Clone, Copy, PartialEq, Eq, Structural)]
pub enum CloseStep {
    /// Let it close: there is no child to lose.
    Dismiss,
    /// Keep it and leave the application.
    Quit,
    /// Keep it and hide it.
    Hide,
    /// Keep it and ask in the shell window.
    Ask,
}

/// Why there is no main window.
#[derive(Debug)]
pub enum WindowFault {
    /// The address of the child is not understood.
    Address(String),
    /// The window cannot be created.
    Creation(String),
}

/// The panel that asks how to close.
pub const CLOSE_PANEL: &'static str = "close-confirm";

impl SharedView {
    /// The state after the handshake of the child `id`; a stale one changes nothing.
    pub open spec fn made_ready(self, id: u64, port: u16) -> SharedView {
        if self.seq == id {
            SharedView { phase: PhaseView::Ready { url: child_url(port) }, fail_streak: 0, ..self }
        } else {
            self
        }
    }

    /// The version to note as the last good one when the child `id` told its port, where `current`
    /// is the active version: that one, unless a newer child has replaced the child.
    pub open spec fn good_version(self, id: u64, current: Option<Seq<char>>) -> Option<Seq<char>> {
        if self.seq == id {
            current
        } else {
            None
        }
    }

    /// What the shell does about the handshake of the child `id`.
    pub open spec fn ready_report(self, id: u64, port: u16, current: Option<Seq<char>>) -> Option<
        ReadyReportView,
    > {
        if self.seq == id {
            Some(ReadyReportView { url: child_url(port), good: self.good_version(id, current) })
        } else {
            None
        }
    }

    /// What the watcher of the child `id` does next.
    pub open spec fn wait_step(self, id: u64, status: ChildStatus, elapsed_nanos: u128) -> WaitStep {
        if self.slot is None || self.slot->0.id != id {
            WaitStep::Stale
        } else {
            match status {
                ChildStatus::Exited(code) => WaitStep::Exited(code),
                ChildStatus::Running => if elapsed_nanos > HANDSHAKE_TIMEOUT_SECS * 1_000_000_000
                    && self.phase is Starting {
                    WaitStep::TimedOut
                } else {
                    WaitStep::Poll
                },
            }
        }
    }

    /// How the end of the child `id` is dealt with, where `current` is the version in use and
    /// `good` the last one that became ready.
    pub open spec fn exit_step(
        self,
        id: u64,
        current: Option<Seq<char>>,
        good: Option<Seq<char>>,
        good_complete: bool,
    ) -> ExitStepView {
        if self.seq != id {
            ExitStepView::Stale
        } else if self.phase is Starting && current is Some && good is Some && current != good
            && good_complete {
            ExitStepView::RollBack { from: current->0, to: good->0 }
        } else {
            ExitStepView::Settle { was_starting: self.phase is Starting }
        }
    }

    /// The state after the end of the child: the place is empty, and a child that ended before
    /// its handshake counts as a failed start.
    pub open spec fn exited(self, code: Option<i32>, was_starting: bool) -> SharedView {
        let streak = if was_starting {
            next_streak(self.fail_streak)
        } else {
            self.fail_streak
        };
        SharedView {
            slot: None,
            fail_streak: streak,
            phase: PhaseView::Exited {
                code,
                log_tail: self.tail(),
                can_reset: streak >= RESET_STREAK,
            },
            ..self
        }
    }

    /// The state after one line of an install.
    pub open spec fn progressed(self, line: Seq<char>) -> SharedView {
        SharedView { phase: PhaseView::Bootstrapping { line }, ..self.logged(line) }
    }

    /// What follows the end of an install in the background: the child is started if and only if
    /// a version was installed.
    pub open spec fn after_install(self, installed: Result<Seq<char>, Seq<char>>) -> (
        SharedView,
        InstallEndView,
    ) {
        match installed {
            Ok(version) => (self.relieved(), InstallEndView::Start { version }),
            Err(e) => {
                let s = self.relieved().failed("dsh 运行时安装失败: "@ + e);
                (s, InstallEndView::Failed { phase: s.phase })
            },
        }
    }

    /// How a window that is asked to close behaves.
    pub open spec fn close_step(self, close_action: Seq<char>) -> CloseStep {
        if !(self.phase is Ready) {
            CloseStep::Dismiss
        } else if close_action == "quit"@ {
            CloseStep::Quit
        } else if close_action == "background"@ {
            CloseStep::Hide
        } else {
            CloseStep::Ask
        }
    }
}

/// The note on a version that was switched away from because its child ended with `code`.
pub open spec fn rollback_note(code: Option<i32>) -> Seq<char> {
    "新版本启动失败（退出码 "@ + code_notation(code) + "），已自动回退"@
}

/// Writes the note on a version that was switched away from.
pub fn rollback_text(code: Option<i32>) -> (r: String)
    ensures
        r@ == rollback_note(code),
{
    let mut r = "新版本启动失败（退出码 ".to_owned();
    r.append(code_text(code).as_str());
    r.append("），已自动回退");
    r
}

impl Shared {
    /// The child printed a line. The text that is returned belongs in the log file; where the line
    /// is a handshake, its port is returned too.
    pub fn stdout_line(&mut self, line: String) -> (r: (String, Option<u16>))
        ensures
            final(self)@ == old(self)@.logged(line@),
            r.0@ == line@ + "\n"@,
            r.1 == handshake_port(line@),
    {
        let port = parse_handshake(line.as_str());
        (self.log_line(line), port)
    }

    /// The child printed a line to its error output, which is marked so in the log. The text that
    /// is returned belongs in the log file.
    pub fn stderr_line(&mut self, line: &str) -> (r: String)
        ensures
            final(self)@ == old(self)@.logged("[stderr] "@ + line@),
            r@ == "[stderr] "@ + line@ + "\n"@,
    {
        self.log_line(plus("[stderr] ", line))
    }

    /// The child `id` told its port; `current` is the active version. Unless a newer child has
    /// replaced it, it is ready, and what the shell does about it is returned.
    pub fn on_ready(&mut self, id: u64, port: u16, current: Option<String>) -> (r: Option<
        ReadyReport,
    >)
        ensures
            final(self)@ == old(self)@.made_ready(id, port),
            match r {
                Some(report) => old(self)@.ready_report(id, port, maybe_text(current)) == Some(
                    report@,
                ),
                None => old(self)@.ready_report(id, port, maybe_text(current)) is None,
            },
    {
        if self.seq != id {
            return None;
        }
        let url = plus(URL_PREFIX, decimal_text(port as u64).as_str());
        self.phase = Phase::Ready { url: url.clone() };
        self.fail_streak = 0;
        Some(ReadyReport { url, good: current })
    }

    /// There is no main window for a child that is ready. The phase that is returned is for the
    /// shell UI.
    pub fn window_failed(&mut self, fault: WindowFault) -> (r: Phase)
        ensures
            final(self)@ == old(self)@.failed(
                match fault {
                    WindowFault::Address(e) => "握手行 URL 解析失败: "@ + e@,
                    WindowFault::Creation(e) => "创建主窗口失败: "@ + e@,
                },
            ),
            r@ == final(self)@.phase,
    {
        let reason = match fault {
            WindowFault::Address(e) => plus("握手行 URL 解析失败: ", e.as_str()),
            WindowFault::Creation(e) => plus("创建主窗口失败: ", e.as_str()),
        };
        self.fail_start(reason)
    }

    /// The main window is asked to close. A close that has to be asked about leaves its panel as
    /// the one that the shell UI opens.
    pub fn close_requested(&mut self, close_action: &str) -> (r: CloseStep)
        ensures
            r == old(self)@.close_step(close_action@),
            final(self)@ == (if r is Ask {
                old(self)@.wanting(CLOSE_PANEL@)
            } else {
                old(self)@
            }),
    {
        match self.phase {
            Phase::Ready { .. } => {},
            _ => {
                return CloseStep::Dismiss;
            },
        }
        if same(close_action, "quit") {
            return CloseStep::Quit;
        }
        if same(close_action, "background") {
            return CloseStep::Hide;
        }
        self.ui_intent = Some(CLOSE_PANEL.to_owned());
        CloseStep::Ask
    }

    /// The watcher of the child `id`, which has run for `elapsed_nanos` nanoseconds, looked at it.
    pub fn waiter(&self, id: u64, status: ChildStatus, elapsed_nanos: u128) -> (r: WaitStep)
        ensures
            r == self@.wait_step(id, status, elapsed_nanos),
    {
        match self.slot {
            Some(child) => {
                if child.id != id {
                    return WaitStep::Stale;
                }
            },
            None => {
                return WaitStep::Stale;
            },
        }
        match status {
            ChildStatus::Exited(code) => WaitStep::Exited(code),
            ChildStatus::Running => {
                if elapsed_nanos > HANDSHAKE_TIMEOUT_SECS as u128 * 1_000_000_000 {
                    if let Phase::Starting = self.phase {
                        return WaitStep::TimedOut;
                    }
                }
                WaitStep::Poll
            },
        }
    }

    /// A child that told no port in time has been stopped. The phase that is returned is for the
    /// shell UI.
    pub fn timed_out(&mut self) -> (r: Phase)
        ensures
            final(self)@ == old(self)@.failed(
                "dsh 在 "@ + decimal(HANDSHAKE_TIMEOUT_SECS as nat) + "s 内未打印就绪握手行"@,
            ),
            r@ == final(self)@.phase,
    {
        let mut reason = "dsh 在 ".to_owned();
        reason.append(decimal_text(HANDSHAKE_TIMEOUT_SECS).as_str());
        reason.append("s 内未打印就绪握手行");
        self.fail_start(reason)
    }

    /// The child `id` has ended. `current` is the version in use, `good` the last one that became
    /// ready, and `good_complete` says whether that one is still installed.
    pub fn on_exit(
        &self,
        id: u64,
        current: Option<String>,
        good: Option<String>,
        good_complete: bool,
    ) -> (r: ExitStep)
        ensures
            r@ == self@.exit_step(id, maybe_text(current), maybe_text(good), good_complete),
    {
        if self.seq != id {
            return ExitStep::Stale;
        }
        let was_starting = match self.phase {
            Phase::Starting => true,
            _ => false,
        };
        if was_starting {
            if let Some(from) = current {
                if let Some(to) = good {
                    if !same(from.as_str(), to.as_str()) && good_complete {
                        return ExitStep::RollBack { from, to };
                    }
                }
            }
        }
        ExitStep::Settle { was_starting }
    }

    /// The end of the child `id` is settled.
    pub fn settle_exit(&mut self, id: u64, code: Option<i32>, was_starting: bool) -> (r: ExitReport)
        ensures
            final(self)@ == old(self)@.exited(code, was_starting),
            r.remove_pid_file == (old(self)@.slot matches Some(child) && child.id == id),
            r.phase@ == final(self)@.phase,
    {
        let remove_pid_file = match self.slot {
            Some(child) => child.id == id,
            None => false,
        };
        self.slot = None;
        if was_starting {
            self.fail_streak = self.fail_streak.wrapping_add(1);
        }
        let log_tail = self.log_tail();
        self.phase = Phase::Exited { code, log_tail, can_reset: self.fail_streak >= RESET_STREAK };
        ExitReport { remove_pid_file, phase: self.phase.clone() }
    }

    /// An install printed a line. The phase that is returned is for the shell UI.
    pub fn install_line(&mut self, line: &str) -> (r: Phase)
        ensures
            final(self)@ == old(self)@.progressed(line@),
            r@ == final(self)@.phase,
    {
        self.push_line(line.to_owned());
        self.phase = Phase::Bootstrapping { line: line.to_owned() };
        self.phase.clone()
    }

    /// An install in the background ended, with the version that was installed or the reason why
    /// none was.
    pub fn install_ended(&mut self, installed: Result<String, String>) -> (r: InstallEnd)
        ensures
            (final(self)@, r@) == old(self)@.after_install(result_text(installed)),
    {
        self.discount_install();
        match installed {
            Ok(version) => InstallEnd::Start { version },
            Err(e) => {
                let phase = self.fail_start(plus("dsh 运行时安装失败: ", e.as_str()));
                InstallEnd::Failed { phase }
            },
        }
    }

    /// The runtime has been wiped: failed starts are forgotten.
    pub fn forget_failures(&mut self)
        ensures
            final(self)@ == (SharedView { fail_streak: 0, ..old(self)@ }),
    {
        self.fail_streak = 0;
    }
}

/// A child that becomes ready wipes out the failures before it: the reset of the runtime is again
/// three failed starts away.
pub proof fn law_ready_forgives(
    s: SharedView,
    port: u16,
    first: Seq<char>,
    second: Seq<char>,
    third: Seq<char>,
)
    ensures
        ({
            let r = s.made_ready(s.seq, port);
            &&& r.phase == (PhaseView::Ready { url: child_url(port) })
            &&& r.fail_streak == 0
            &&& !r.failed(first).failed(second).phase->StartFailed_can_reset
            &&& r.failed(first).failed(second).failed(third).phase->StartFailed_can_reset
        }),
{
}

/// Once a new start has begun, no earlier child has a say: its handshake changes nothing, its
/// watcher gives up, before and after the new child is in the place, and its end is ignored.
pub proof fn law_stale_child(
    s: SharedView,
    id: u64,
    port: u16,
    status: ChildStatus,
    elapsed_nanos: u128,
    current: Option<Seq<char>>,
    good: Option<Seq<char>>,
    good_complete: bool,
    child: Supervisor,
)
    requires
        id != s.begun().seq,
        child.id == s.begun().seq,
    ensures
        s.begun().made_ready(id, port) == s.begun(),
        s.begun().vacated().wait_step(id, status, elapsed_nanos) is Stale,
        s.begun().holding(child).wait_step(id, status, elapsed_nanos) is Stale,
        s.begun().exit_step(id, current, good, good_complete) is Stale,
{
}

/// A version is switched away from only when its child ended before the handshake, and only to
/// another version that is noted as the last good one and is still installed. On the version
/// switched to, the same cannot happen again.
pub proof fn law_rollback(
    s: SharedView,
    id: u64,
    current: Option<Seq<char>>,
    good: Option<Seq<char>>,
    good_complete: bool,
)
    ensures
        s.exit_step(id, current, good, good_complete) matches ExitStepView::RollBack { from, to }
            ==> {
            &&& s.seq == id
            &&& s.phase is Starting
            &&& current == Some(from)
            &&& good == Some(to)
            &&& from != to
            &&& good_complete
            &&& forall|later: SharedView, later_id: u64, complete: bool|
                !(#[trigger] later.exit_step(later_id, Some(to), Some(to), complete) is RollBack)
        },
{
}

/// The end of a child counts as a failed start exactly when it came before the handshake. In
/// either case the place is empty afterwards.
pub proof fn law_exit_counts(s: SharedView, id: u64, code: Option<i32>, port: u16)
    requires
        s.seq == id,
    ensures
        ({
            let e = s.entered().exited(code, true);
            &&& s.entered().exit_step(id, None, None, false) == (ExitStepView::Settle {
                was_starting: true,
            })
            &&& e.fail_streak == next_streak(s.fail_streak)
            &&& e.slot is None
        }),
        ({
            let r = s.made_ready(id, port);
            let e = r.exited(code, false);
            &&& r.exit_step(id, None, None, false) == (ExitStepView::Settle {
                was_starting: false,
            })
            &&& e.fail_streak == 0
            &&& e.slot is None
            &&& !e.phase->Exited_can_reset
        }),
{
}

/// The version that a child became ready on is noted as it is read back, and it is the version that
/// a later child, which ended before its handshake on another version, is switched to, if it is
/// still installed.
pub proof fn law_good_version(
    s: SharedView,
    id: u64,
    dsh_bin: Option<Seq<char>>,
    pointer: Option<Seq<char>>,
    data: Seq<char>,
    later: SharedView,
    later_id: u64,
    current: Option<Seq<char>>,
    complete: bool,
)
    requires
        s.seq == id,
        active_version(dsh_bin, pointer) is Some,
    ensures
        ({
            let version = active_version(dsh_bin, pointer)->0;
            let noted = pointed_version(Some(good_file(data, version).content));
            &&& s.good_version(id, active_version(dsh_bin, pointer)) == Some(version)
            &&& noted == Some(version)
            &&& later.seq == later_id && later.phase is Starting && current is Some && current
                != Some(version) && complete ==> later.exit_step(later_id, current, noted, complete)
                == (ExitStepView::RollBack { from: current->0, to: version })
        }),
{
    lemma_trimmed_ends(pointer->0);
    let version = active_version(dsh_bin, pointer)->0;
    lemma_trimmed_identity(version);
    assert(!crate::text::is_white_space(version[0]));
}

/// A stale child is never noted as good, and under `DSH_BIN` none is: no version is noted, and
/// none is switched away from.
pub proof fn law_good_only_managed(
    s: SharedView,
    id: u64,
    dsh_bin: Option<Seq<char>>,
    pointer: Option<Seq<char>>,
    good: Option<Seq<char>>,
    complete: bool,
)
    ensures
        s.seq != id ==> s.good_version(id, active_version(dsh_bin, pointer)) is None,
        overrides(dsh_bin) ==> s.good_version(id, active_version(dsh_bin, pointer)) is None
            && !(s.exit_step(id, active_version(dsh_bin, pointer), good, complete) is RollBack),
{
}

/// An install in the background is marked from its begin to its end, whatever it prints, and then
/// leads to a start if a version was installed, and to a failure that says why if none was.
pub proof fn law_background_install(
    s: SharedView,
    line: Seq<char>,
    t: SharedView,
    installed: Result<Seq<char>, Seq<char>>,
)
    ensures
        s.installing().install_busy(),
        s.installing().phase == (PhaseView::Bootstrapping { line: INSTALL_NOTE@ }),
        s.installing().progressed(line).install_busy(),
        ({
            let (e, step) = t.after_install(installed);
            &&& e.installs == t.relieved().installs
            &&& t.installs == 1 ==> !e.install_busy()
            &&& step is Start <==> installed is Ok
            &&& installed matches Ok(version) ==> e == t.relieved() && step == (InstallEndView::Start {
                version,
            })
            &&& installed matches Err(reason) ==> {
                &&& e.phase is StartFailed
                &&& e.phase->StartFailed_reason == "dsh 运行时安装失败: "@ + reason
                &&& e.fail_streak == next_streak(t.fail_streak)
                &&& e == t.relieved().failed("dsh 运行时安装失败: "@ + reason)
                &&& step == (InstallEndView::Failed { phase: e.phase })
            }
        }),
{
}

/// What a look at the child leads to, in every phase and at every time: an end of the child in its
/// place is an end, with the same code; a child that runs is given up exactly if it is still starting
/// after thirty seconds, and looked at again otherwise; and a child that is not in its place is no
/// matter for its watcher.
pub proof fn law_wait_step(s: SharedView, id: u64, code: Option<i32>, nanos: u128, status: ChildStatus)
    ensures
        (s.slot is Some && s.slot->0.id == id) ==> {
            &&& s.wait_step(id, ChildStatus::Exited(code), nanos) == WaitStep::Exited(code)
            &&& s.wait_step(id, ChildStatus::Running, nanos) == WaitStep::TimedOut <==> nanos
                > 30_000_000_000 && s.phase is Starting
            &&& s.wait_step(id, ChildStatus::Running, nanos) == WaitStep::Poll <==> !(nanos
                > 30_000_000_000 && s.phase is Starting)
        },
        s.wait_step(id, status, nanos) == WaitStep::Stale <==> !(s.slot is Some && s.slot->0.id
            == id),
        s.wait_step(id, status, nanos) == WaitStep::Poll ==> status == ChildStatus::Running,
{
}

/// How the end of a child is dealt with, in every case: not at all if it is stale; by a switch to the
/// last good version if it was still starting, both versions are known, they differ and the good one
/// is still installed; and by telling the shell UI otherwise.
pub proof fn law_exit_step(
    s: SharedView,
    id: u64,
    current: Option<Seq<char>>,
    good: Option<Seq<char>>,
    complete: bool,
)
    ensures
        ({
            let step = s.exit_step(id, current, good, complete);
            let switch = s.seq == id && s.phase is Starting && current is Some && good is Some
                && current->0 != good->0 && complete;
            &&& step is Stale <==> s.seq != id
            &&& step is RollBack <==> switch
            &&& switch ==> step == (ExitStepView::RollBack { from: current->0, to: good->0 })
            &&& s.seq == id && !switch ==> step == (ExitStepView::Settle {
                was_starting: s.phase is Starting,
            })
        }),
{
}

/// The end of a child is told with its code and the end of the log; it empties the place, counts as a
/// failure exactly if the child was still starting, and leaves everything else alone.
pub proof fn law_exited(s: SharedView, code: Option<i32>, was_starting: bool)
    ensures
        ({
            let t = s.exited(code, was_starting);
            let streak: int = if !was_starting {
                s.fail_streak as int
            } else if s.fail_streak == u32::MAX {
                0
            } else {
                s.fail_streak + 1
            };
            &&& t.fail_streak == streak
            &&& t.phase == (PhaseView::Exited { code, log_tail: s.tail(), can_reset: streak >= 3 })
            &&& t.slot is None
            &&& t.ring == s.ring
            &&& t.seq == s.seq
            &&& t.ui_intent == s.ui_intent
            &&& t.installs == s.installs
            &&& t.toast == s.toast
        }),
{
}

/// A child that tells its port is ready at that port of this machine, with no failures left, and
/// nothing else changes. What is reported is that address and the version in use; nothing is
/// reported of a child that was replaced.
pub proof fn law_made_ready(s: SharedView, id: u64, port: u16, current: Option<Seq<char>>)
    ensures
        child_url(port) == "http://127.0.0.1:"@ + decimal(port as nat),
        s.seq == id ==> {
            let t = s.made_ready(id, port);
            &&& t.phase == (PhaseView::Ready { url: "http://127.0.0.1:"@ + decimal(port as nat) })
            &&& t.fail_streak == 0
            &&& t.slot == s.slot
            &&& t.ring == s.ring
            &&& t.seq == s.seq
            &&& t.ui_intent == s.ui_intent
            &&& t.installs == s.installs
            &&& t.toast == s.toast
            &&& s.ready_report(id, port, current) == Some(
                ReadyReportView {
                    url: "http://127.0.0.1:"@ + decimal(port as nat),
                    good: current,
                },
            )
        },
        s.seq != id ==> s.made_ready(id, port) == s && s.ready_report(id, port, current) is None,
{
}

/// A line is a handshake exactly if it begins so and a row of digits follows that is worth a port;
/// that is then the port, whatever follows the digits.
pub proof fn law_handshake_lines(line: Seq<char>, digits: Seq<char>, suffix: Seq<char>)
    requires
        all_digits(digits),
        suffix.len() > 0 ==> !is_digit(suffix[0]),
    ensures
        ({
            let told = handshake_port("dsh web: http://127.0.0.1:"@ + digits + suffix);
            &&& digits.len() > 0 && digits_value(digits) <= 65535 ==> told == Some(
                digits_value(digits) as u16,
            )
            &&& digits.len() == 0 || digits_value(digits) > 65535 ==> told is None
        }),
        !("dsh web: http://127.0.0.1:"@.is_prefix_of(line)) ==> handshake_port(line) is None,
{
    let prefix = "dsh web: http://127.0.0.1:"@;
    let whole = prefix + digits + suffix;
    assert(whole =~= prefix + (digits + suffix));
    assert(whole.take(prefix.len() as int) =~= prefix);
    assert(whole.skip(prefix.len() as int) =~= digits + suffix);
    lemma_digit_run(digits, suffix);
}

/// A line of an install is logged and shown, and nothing else changes.
pub proof fn law_progressed(s: SharedView, line: Seq<char>)
    ensures
        ({
            let t = s.progressed(line);
            &&& t.phase == (PhaseView::Bootstrapping { line })
            &&& t.ring == s.logged(line).ring
            &&& t.slot == s.slot
            &&& t.seq == s.seq
            &&& t.ui_intent == s.ui_intent
            &&& t.installs == s.installs
            &&& t.fail_streak == s.fail_streak
            &&& t.toast == s.toast
        }),
{
}

/// A window of a child that is not ready may close. For one that is ready the settings decide between
/// leaving and hiding, and anything else in them is asked about.
pub proof fn law_close_step(s: SharedView, close_action: Seq<char>)
    ensures
        !(s.phase is Ready) <==> s.close_step(close_action) == CloseStep::Dismiss,
        s.phase is Ready ==> {
            &&& s.close_step("quit"@) == CloseStep::Quit
            &&& s.close_step("background"@) == CloseStep::Hide
            &&& close_action != "quit"@ && close_action != "background"@ ==> s.close_step(
                close_action,
            ) == CloseStep::Ask
        },
{
    reveal_strlit("quit");
    reveal_strlit("background");
    assert("quit"@.len() != "background"@.len());
}

/// The note on a version that was switched away from tells the exit code as it was: notes are the same
/// only for the same code.
pub proof fn law_rollback_note(code: i32)
    ensures
        rollback_note(None) == "新版本启动失败（退出码 None），已自动回退"@,
        code >= 0 ==> rollback_note(Some(code)) == "新版本启动失败（退出码 Some("@ + decimal(
            code as nat,
        ) + ")），已自动回退"@,
        code < 0 ==> rollback_note(Some(code)) == "新版本启动失败（退出码 Some(-"@ + decimal(
            -code as nat,
        ) + ")），已自动回退"@,
{
    reveal_strlit("新版本启动失败（退出码 ");
    reveal_strlit("），已自动回退");
    reveal_strlit("None");
    reveal_strlit("Some(");
    reveal_strlit(")");
    reveal_strlit("-");
    reveal_strlit("新版本启动失败（退出码 None），已自动回退");
    reveal_strlit("新版本启动失败（退出码 Some(");
    reveal_strlit("新版本启动失败（退出码 Some(-");
    reveal_strlit(")），已自动回退");
    assert(rollback_note(None) =~= "新版本启动失败（退出码 None），已自动回退"@);
    if code >= 0 {
        assert(rollback_note(Some(code)) =~= "新版本启动失败（退出码 Some("@ + decimal(
            code as nat,
        ) + ")），已自动回退"@);
    } else {
        assert(rollback_note(Some(code)) =~= "新版本启动失败（退出码 Some(-"@ + decimal(
            -code as nat,
        ) + ")），已自动回退"@);
    }
}

/// How an end is dealt with is shown as it is.
pub proof fn law_exit_step_shown(x: ExitStep)
    ensures
        x is Stale ==> x@ is Stale,
        x matches ExitStep::RollBack { from, to } ==> x@ == (ExitStepView::RollBack {
            from: from@,
            to: to@,
        }),
        x matches ExitStep::Settle { was_starting } ==> x@ == (ExitStepView::Settle {
            was_starting: was_starting,
        }),
{
}

/// A report is shown as it is.
pub proof fn law_ready_report_shown(x: ReadyReport)
    ensures
        x@.url == x.url@,
        x.good is None ==> x@.good is None,
        x.good matches Some(s) ==> x@.good == Some(s@),
{
}

/// The end of an install is shown as it is.
pub proof fn law_install_end_shown(x: InstallEnd)
    ensures
        x matches InstallEnd::Start { version } ==> x@ == (InstallEndView::Start {
            version: version@,
        }),
        x matches InstallEnd::Failed { phase } ==> x@ == (InstallEndView::Failed { phase: phase@ }),
{
}

} // verus!
