//! Updates: what the registry has, whether it is newer than what is installed, and the install of
//! the newer version beside the running one.

use vstd::prelude::*;
use vstd::string::*;

use crate::dsh::Shared;
use crate::dsh::SharedView;
use crate::launch::Launch;
use crate::launch::LaunchView;
use crate::launch::Output;
use crate::nodejs::npm_command;
use crate::nodejs::npm_launch;
use crate::nodejs::Tools;
use crate::nodejs::ToolsView;
use crate::outside::all_letters;
use crate::outside::counted;
use crate::outside::numbers_above;
use crate::outside::parse_version;
use crate::outside::parsed_version;
use crate::outside::prerelease_text;
use crate::outside::release_text;
use crate::outside::version_above;
use crate::outside::version_greater;
use crate::outside::version_numbers;
use crate::runtime::Settings;
use crate::runtime::PKG;
use crate::text::all_quotes;
use crate::text::is_blank;
use crate::text::is_white_space;
use crate::text::law_trimmed;
use crate::text::law_unquoted;
use crate::text::maybe_text;
use crate::text::plus;
use crate::text::trim;
use crate::text::trimmed;
use crate::text::unquote;
use crate::text::unquoted;
use crate::watch::rollback_note;
use crate::watch::rollback_text;

verus! {

/// What is installed and what the registry has.
#[derive(Debug, Clone)]
pub struct Check {
    pub current: String,
    pub latest: String,
    pub updatable: bool,
}

/// The values of a [`Check`].
#[verifier::ext_equal]
pub struct CheckView {
    pub current: Seq<char>,
    pub latest: Seq<char>,
    pub updatable: bool,
}

impl View for Check {
    type V = CheckView;

    open spec fn view(&self) -> CheckView {
        CheckView { current: self.current@, latest: self.latest@, updatable: self.updatable }
    }
}

/// The values of a check that may have failed.
pub open spec fn check_text(r: Result<Check, String>) -> Result<CheckView, Seq<char>> {
    match r {
        Ok(check) => Ok(check@),
        Err(e) => Err(e@),
    }
}

/// How an update ended.
#[derive(Debug, Clone)]
pub struct Done {
    pub ok: bool,
    pub version: String,
    pub error: Option<String>,
}

/// The values of a [`Done`].
#[verifier::ext_equal]
pub struct DoneView {
    pub ok: bool,
    pub version: Seq<char>,
    pub error: Option<Seq<char>>,
}

impl View for Done {
    type V = DoneView;

    open spec fn view(&self) -> DoneView {
        DoneView { ok: self.ok, version: self.version@, error: maybe_text(self.error) }
    }
}

/// The version in use where there is no pointer.
pub const UNMANAGED: &'static str = "dev";

/// The command that asks the registry for the version on a channel.
pub open spec fn view_command(
    tools: ToolsView,
    channel: Seq<char>,
    registry: Seq<char>,
    cache: Seq<char>,
) -> LaunchView {
    npm_command(
        tools,
        seq![
            "view"@,
            PKG@ + "@"@ + channel,
            "version"@,
            "--registry"@,
            registry,
            "--cache"@,
            cache,
            "--json"@,
        ],
    )
}

/// Makes the command that asks the registry for the version on the channel in the settings. The
/// cache is the application's own, so that a broken one of the user does no harm.
pub fn view_launch(tools: &Tools, settings: &Settings, cache: &str) -> (r: Launch)
    ensures
        r@ == view_command(tools@, settings.channel@, settings.registry@, cache@),
{
    let mut package = PKG.to_owned();
    package.append("@");
    package.append(settings.channel.as_str());
    let rest: [&str; 8] = [
        "view",
        package.as_str(),
        "version",
        "--registry",
        settings.registry.as_str(),
        "--cache",
        cache,
        "--json",
    ];
    let r = npm_launch(tools, &rest);
    assert(r@.args =~= view_command(tools@, settings.channel@, settings.registry@, cache@).args);
    r
}

/// `latest` is a newer version than `current`. Of what is no version, nothing is newer, and it is
/// newer than nothing.
pub open spec fn newer_version(current: Seq<char>, latest: Seq<char>) -> bool {
    match (parsed_version(current), parsed_version(latest)) {
        (Some(c), Some(l)) => version_above(l, c),
        _ => false,
    }
}

/// `newer` is an answer to whether `latest` is newer than `current` that keeps the order of versions.
/// It never holds both ways round, nor of a version and itself. Versions that are numbers alone are
/// compared number by number, and such a version is newer than any pre-release of it, and no
/// pre-release of it is newer. Pre-releases of the same numbers and the same word, such as `rc.9` and
/// `rc.10`, are compared by their count. Whatever the pre-releases, versions of different numbers are
/// compared by the numbers alone, and what is no version is neither newer nor older than anything.
pub open spec fn keeps_order(current: Seq<char>, latest: Seq<char>, newer: bool) -> bool {
    &&& newer ==> !newer_version(latest, current)
    &&& current == latest ==> !newer
    &&& newer ==> parsed_version(current) is Some && parsed_version(latest) is Some
    &&& forall|c: semver::Version, l: semver::Version|
        parsed_version(current) == Some(c) && parsed_version(latest) == Some(l)
            && #[trigger] version_numbers(c) != #[trigger] version_numbers(l) ==> newer
            == numbers_above(version_numbers(l), version_numbers(c))
    &&& forall|a: (u64, u64, u64), pre: Seq<char>, b: (u64, u64, u64)|
        a != b && parsed_version(current) is Some && current == #[trigger] prerelease_text(a, pre)
            && latest == #[trigger] release_text(b) ==> newer == numbers_above(b, a)
    &&& forall|a: (u64, u64, u64), b: (u64, u64, u64), pre: Seq<char>|
        a != b && parsed_version(latest) is Some && current == #[trigger] release_text(a) && latest
            == #[trigger] prerelease_text(b, pre) ==> newer == numbers_above(b, a)
    &&& forall|a: (u64, u64, u64), p: Seq<char>, b: (u64, u64, u64), q: Seq<char>|
        a != b && parsed_version(current) is Some && parsed_version(latest) is Some && current
            == #[trigger] prerelease_text(a, p) && latest == #[trigger] prerelease_text(b, q)
            ==> newer == numbers_above(b, a)
    &&& forall|n: (u64, u64, u64), pre: Seq<char>|
        parsed_version(latest) is Some && current == release_text(n) && latest
            == #[trigger] prerelease_text(n, pre) ==> !newer
    &&& forall|a: (u64, u64, u64), b: (u64, u64, u64)|
        current == #[trigger] release_text(a) && latest == #[trigger] release_text(b) ==> newer
            == numbers_above(b, a)
    &&& forall|n: (u64, u64, u64), pre: Seq<char>|
        parsed_version(current) is Some && current == #[trigger] prerelease_text(n, pre) && latest
            == release_text(n) ==> newer
    &&& forall|n: (u64, u64, u64), word: Seq<char>, i: u64, j: u64|
        all_letters(word) && current == #[trigger] prerelease_text(n, counted(word, i)) && latest
            == #[trigger] prerelease_text(n, counted(word, j)) ==> newer == (j > i)
}

/// Tests whether `latest` is a newer version than `current`.
pub fn is_newer(current: &str, latest: &str) -> (r: bool)
    ensures
        r == newer_version(current@, latest@),
        keeps_order(current@, latest@, r),
{
    match (parse_version(current), parse_version(latest)) {
        (Some(c), Some(l)) => version_greater(&l, &c),
        _ => false,
    }
}

/// The version that the registry printed: the text of a JSON string.
pub open spec fn printed_version(stdout: Seq<char>) -> Seq<char> {
    unquoted(trimmed(stdout))
}

/// What a check finds, by the pointer and by what the registry answered.
pub open spec fn check_found(current: Option<Seq<char>>, asked: Result<Output, String>) -> Result<
    (Seq<char>, Seq<char>),
    Seq<char>,
> {
    match asked {
        Err(e) => Err("执行 npm view 失败（npm 可用性）: "@ + e@),
        Ok(out) => if out.success {
            Ok(
                (
                    match current {
                        Some(version) => version,
                        None => UNMANAGED@,
                    },
                    printed_version(out.stdout@),
                ),
            )
        } else {
            Err("查询 registry 失败: "@ + trimmed(out.stderr@))
        },
    }
}

/// The installed version and that of the registry, or why they are not known.
pub fn versions_found(current: Option<String>, asked: Result<Output, String>) -> (r: Result<
    (String, String),
    String,
>)
    ensures
        match r {
            Ok(v) => check_found(maybe_text(current), asked) == Ok::<
                (Seq<char>, Seq<char>),
                Seq<char>,
            >((v.0@, v.1@)),
            Err(e) => check_found(maybe_text(current), asked) == Err::<
                (Seq<char>, Seq<char>),
                Seq<char>,
            >(e@),
        },
{
    match asked {
        Err(e) => Err(plus("执行 npm view 失败（npm 可用性）: ", e.as_str())),
        Ok(out) => if out.success {
            let current = match current {
                Some(version) => version,
                None => UNMANAGED.to_owned(),
            };
            Ok((current, unquote(trim(out.stdout.as_str())).to_owned()))
        } else {
            Err(plus("查询 registry 失败: ", trim(out.stderr.as_str())))
        },
    }
}

/// Compares what is installed with what the registry answered. `current` is the version that the
/// pointer names, where there is one.
pub fn check(current: Option<String>, asked: Result<Output, String>) -> (r: Result<Check, String>)
    ensures
        check_text(r) == (match check_found(maybe_text(current), asked) {
            Ok((current, latest)) => Ok(
                CheckView { current, latest, updatable: newer_version(current, latest) },
            ),
            Err(e) => Err(e),
        }),
        r matches Ok(c) ==> keeps_order(c.current@, c.latest@, c.updatable),
        r matches Ok(c) ==> (c.current@ == c.latest@ ==> !c.updatable) && (c.updatable
            ==> !newer_version(c.latest@, c.current@)),
{
    match versions_found(current, asked) {
        Ok((current, latest)) => {
            let updatable = is_newer(current.as_str(), latest.as_str());
            Ok(Check { current, latest, updatable })
        },
        Err(e) => Err(e),
    }
}

/// What an update does about a check.
#[derive(Debug)]
pub enum ApplyStep {
    /// Install this version.
    Install(String),
    /// There is nothing to install.
    Refuse(Done),
}

/// The values of an [`ApplyStep`].
#[verifier::ext_equal]
pub enum ApplyStepView {
    Install(Seq<char>),
    Refuse(DoneView),
}

impl View for ApplyStep {
    type V = ApplyStepView;

    open spec fn view(&self) -> ApplyStepView {
        match self {
            ApplyStep::Install(version) => ApplyStepView::Install(version@),
            ApplyStep::Refuse(done) => ApplyStepView::Refuse(done@),
        }
    }
}

/// What an update does about a check: a newer version is installed; no other is.
pub open spec fn apply_step(check: Result<CheckView, Seq<char>>) -> ApplyStepView {
    match check {
        Ok(c) => if c.updatable {
            ApplyStepView::Install(c.latest)
        } else {
            ApplyStepView::Refuse(
                DoneView {
                    ok: false,
                    version: c.latest,
                    error: Some("已是最新版本 "@ + c.current + "，无需更新"@),
                },
            )
        },
        Err(e) => ApplyStepView::Refuse(DoneView { ok: false, version: ""@, error: Some(e) }),
    }
}

impl SharedView {
    /// The state in which an update is being installed.
    pub open spec fn updating(self) -> SharedView {
        self.busier()
    }

    /// The state after the install of an update ended.
    pub open spec fn updated(self) -> SharedView {
        self.logged("update flow finished"@).relieved()
    }
}

/// How a switch to the last good version goes on.
#[derive(Debug)]
pub enum RollbackStep {
    /// Note this in the history and start again.
    Restart(UpdateRecord),
    /// The switch failed: settle the end of the child.
    Settle,
}

/// An update installs what the registry has if and only if that is newer than what is installed.
pub proof fn law_update_newer(current: Seq<char>, latest: Seq<char>)
    ensures
        ({
            let step = apply_step(
                Ok(CheckView { current, latest, updatable: newer_version(current, latest) }),
            );
            &&& newer_version(current, latest) ==> step == ApplyStepView::Install(latest)
            &&& !newer_version(current, latest) ==> step is Refuse && !step->Refuse_0.ok
        }),
{
}

impl Shared {
    /// The install of an update begins.
    pub fn begin_update(&mut self)
        ensures
            final(self)@ == old(self)@.updating(),
    {
        self.count_install();
    }

    /// Decides what an update does about a check. Where it installs, the install begins.
    pub fn update_apply(&mut self, check: Result<Check, String>) -> (r: ApplyStep)
        ensures
            r@ == apply_step(check_text(check)),
            final(self)@ == (if r is Install {
                old(self)@.updating()
            } else {
                old(self)@
            }),
    {
        match check {
            Ok(c) => if c.updatable {
                self.begin_update();
                ApplyStep::Install(c.latest)
            } else {
                let mut error = "已是最新版本 ".to_owned();
                error.append(c.current.as_str());
                error.append("，无需更新");
                ApplyStep::Refuse(Done { ok: false, version: c.latest, error: Some(error) })
            },
            Err(e) => ApplyStep::Refuse(
                Done { ok: false, version: "".to_owned(), error: Some(e) },
            ),
        }
    }

    /// The install of the version `latest` ended. What is returned is for the panel.
    pub fn update_ended(&mut self, latest: String, installed: Result<String, String>) -> (r: Done)
        ensures
            final(self)@ == old(self)@.updated(),
            r@ == (match installed {
                Ok(version) => DoneView { ok: true, version: version@, error: None },
                Err(e) => DoneView { ok: false, version: latest@, error: Some(e@) },
            }),
    {
        self.push_line("update flow finished".to_owned());
        self.discount_install();
        match installed {
            Ok(version) => Done { ok: true, version, error: None },
            Err(e) => Done { ok: false, version: latest, error: Some(e) },
        }
    }
}

/// Updates are looked for on their own: they are wanted, none is being installed, and the last
/// look is an interval ago, or there was none.
pub open spec fn look_due(settings: Settings, now_secs: u64, busy: bool) -> bool {
    &&& settings.auto_update
    &&& !busy
    &&& match settings.last_check {
        Some(last) => now_secs >= last + settings.interval_hours * 3600,
        None => true,
    }
}

/// Whether to look for updates `now_secs` seconds after the epoch.
pub fn update_due(settings: &Settings, now_secs: u64, busy: bool) -> (r: bool)
    ensures
        r == look_due(*settings, now_secs, busy),
{
    settings.auto_update && !busy && match settings.last_check {
        Some(last) => {
            let wait: u128 = settings.interval_hours as u128 * 3600;
            now_secs as u128 >= last as u128 + wait
        },
        None => true,
    }
}

/// Notes that updates were looked for; the other settings stay.
pub fn note_look(settings: Settings, now_secs: u64) -> (r: Settings)
    ensures
        r == (Settings { last_check: Some(now_secs), ..settings }),
{
    Settings { last_check: Some(now_secs), ..settings }
}

/// Once a look has been noted, the next one comes no earlier than an interval later.
pub proof fn law_looks_apart(settings: Settings, looked: u64, now_secs: u64, busy: bool)
    requires
        look_due(Settings { last_check: Some(looked), ..settings }, now_secs, busy),
    ensures
        now_secs - looked >= settings.interval_hours * 3600,
        settings.auto_update,
        !busy,
{
}

/// While an update or a runtime is being installed, no look for updates is due, whatever is logged
/// meanwhile, and neither while one of two installs has ended and the other has not. Once an
/// install has ended, looks are due as if it had not been.
pub proof fn law_no_look_while_busy(
    s: SharedView,
    line: Seq<char>,
    settings: Settings,
    now_secs: u64,
    installed: Result<Seq<char>, Seq<char>>,
)
    ensures
        !look_due(settings, now_secs, s.updating().logged(line).install_busy()),
        !look_due(settings, now_secs, s.installing().progressed(line).install_busy()),
        s.updating().installing().updated().install_busy(),
        s.updating().installing().after_install(installed).0.install_busy(),
        s.installing().updating().updated().install_busy(),
        s.installing().updating().after_install(installed).0.install_busy(),
        look_due(settings, now_secs, s.updating().updated().install_busy()) == look_due(
            settings,
            now_secs,
            s.install_busy(),
        ),
        look_due(settings, now_secs, s.installing().after_install(installed).0.install_busy())
            == look_due(settings, now_secs, s.install_busy()),
{
}

/// The end of an install leaves the mark if and only if another one is still under way.
pub proof fn law_installs_counted(s: SharedView, installed: Result<Seq<char>, Seq<char>>)
    ensures
        s.updated().install_busy() <==> s.installs > 1,
        s.after_install(installed).0.install_busy() <==> s.installs > 1,
{
}

/// An entry in the history of updates.
#[derive(Debug, Clone)]
pub struct UpdateRecord {
    pub from: String,
    pub to: String,
    pub outcome: String,
    pub note: Option<String>,
}

/// The values of an [`UpdateRecord`].
#[verifier::ext_equal]
pub struct UpdateRecordView {
    pub from: Seq<char>,
    pub to: Seq<char>,
    pub outcome: Seq<char>,
    pub note: Option<Seq<char>>,
}

impl View for UpdateRecord {
    type V = UpdateRecordView;

    open spec fn view(&self) -> UpdateRecordView {
        UpdateRecordView {
            from: self.from@,
            to: self.to@,
            outcome: self.outcome@,
            note: maybe_text(self.note),
        }
    }
}

/// The entry for a version that was switched away from because its child ended with `code`.
pub open spec fn rollback_entry(from: Seq<char>, to: Seq<char>, code: Option<i32>) -> UpdateRecordView {
    UpdateRecordView { from, to, outcome: "rolled-back"@, note: Some(rollback_note(code)) }
}

/// Makes the entry for a version that was switched away from.
pub fn rollback_record(from: String, to: String, code: Option<i32>) -> (r: UpdateRecord)
    ensures
        r@ == rollback_entry(from@, to@, code),
{
    UpdateRecord { from, to, outcome: "rolled-back".to_owned(), note: Some(rollback_text(code)) }
}

impl Shared {
    /// The version `from`, whose child ended with `code`, was to be switched to the version `to`.
    /// Where that worked, the place of the child is empty.
    pub fn rolled_back(&mut self, from: String, to: String, code: Option<i32>, switched: bool) -> (r:
        RollbackStep)
        ensures
            switched ==> final(self)@ == old(self)@.vacated() && (r matches RollbackStep::Restart(
                record,
            ) && record@ == rollback_entry(from@, to@, code)),
            !switched ==> final(self)@ == old(self)@ && r is Settle,
    {
        if switched {
            self.slot = None;
            RollbackStep::Restart(rollback_record(from, to, code))
        } else {
            RollbackStep::Settle
        }
    }
}

/// Of two texts that are versions, the later one is newer exactly if it is ordered above; a text that
/// is no version is neither newer nor older than any.
pub proof fn law_newer(current: Seq<char>, latest: Seq<char>, c: semver::Version, l: semver::Version)
    ensures
        parsed_version(current) == Some(c) && parsed_version(latest) == Some(l) ==> newer_version(
            current,
            latest,
        ) == version_above(l, c),
        parsed_version(current) is None ==> !newer_version(current, latest),
        parsed_version(latest) is None ==> !newer_version(current, latest),
{
}

/// The answer for versions of different numbers is that of the numbers, with a pre-release on either
/// side or without. It is stated of every answer that keeps the order, as each one that is given does.
pub proof fn law_numbers_decide(
    a: (u64, u64, u64),
    p: Seq<char>,
    b: (u64, u64, u64),
    q: Seq<char>,
    newer: bool,
)
    requires
        a != b,
    ensures
        keeps_order(release_text(a), release_text(b), newer) ==> newer == numbers_above(b, a),
        parsed_version(prerelease_text(a, p)) is Some && keeps_order(
            prerelease_text(a, p),
            release_text(b),
            newer,
        ) ==> newer == numbers_above(b, a),
        parsed_version(prerelease_text(b, q)) is Some && keeps_order(
            release_text(a),
            prerelease_text(b, q),
            newer,
        ) ==> newer == numbers_above(b, a),
        parsed_version(prerelease_text(a, p)) is Some && parsed_version(prerelease_text(b, q)) is Some
            && keeps_order(prerelease_text(a, p), prerelease_text(b, q), newer) ==> newer
            == numbers_above(b, a),
{
}

/// A release is newer than each of its own pre-releases, and none of them is newer than it.
pub proof fn law_release_over_prerelease(n: (u64, u64, u64), pre: Seq<char>, newer: bool)
    requires
        parsed_version(prerelease_text(n, pre)) is Some,
    ensures
        keeps_order(prerelease_text(n, pre), release_text(n), newer) ==> newer,
        keeps_order(release_text(n), prerelease_text(n, pre), newer) ==> !newer,
{
}

/// Numbers are ordered from left to right, and of two different triples exactly one is above.
pub proof fn law_numbers_ordered(a: (u64, u64, u64), b: (u64, u64, u64))
    ensures
        a.0 > b.0 ==> numbers_above(a, b),
        a.0 == b.0 && a.1 > b.1 ==> numbers_above(a, b),
        a.0 == b.0 && a.1 == b.1 ==> numbers_above(a, b) == (a.2 > b.2),
        a != b ==> numbers_above(a, b) == !numbers_above(b, a),
        a == b ==> !numbers_above(a, b),
{
}

/// The registry of the settings is asked for the version of the package on the channel of the
/// settings, with the cache of the application, and for an answer in JSON.
pub proof fn law_view_command(
    tools: ToolsView,
    channel: Seq<char>,
    registry: Seq<char>,
    cache: Seq<char>,
)
    ensures
        ({
            let launch = view_command(tools, channel, registry, cache);
            let n = tools.npm_prefix.len() as int;
            &&& launch.program == tools.npm
            &&& launch.cwd is None
            &&& launch.args.len() == n + 8
            &&& launch.args.take(n) == tools.npm_prefix
            &&& launch.args[n] == "view"@
            &&& launch.args[n + 1] == "@deepseek-ai/dsh@"@ + channel
            &&& launch.args[n + 2] == "version"@
            &&& launch.args[n + 3] == "--registry"@ && launch.args[n + 4] == registry
            &&& launch.args[n + 5] == "--cache"@ && launch.args[n + 6] == cache
            &&& launch.args[n + 7] == "--json"@
        }),
{
    reveal_strlit("@deepseek-ai/dsh");
    reveal_strlit("@");
    reveal_strlit("@deepseek-ai/dsh@");
    let launch = view_command(tools, channel, registry, cache);
    assert(launch.args.take(tools.npm_prefix.len() as int) =~= tools.npm_prefix);
    assert(PKG@ + "@"@ + channel =~= "@deepseek-ai/dsh@"@ + channel);
}

/// The version is taken out of what the registry printed, whatever blanks and quotes stand around it.
pub proof fn law_printed(
    before: Seq<char>,
    open: Seq<char>,
    version: Seq<char>,
    close: Seq<char>,
    after: Seq<char>,
)
    requires
        is_blank(before),
        is_blank(after),
        all_quotes(open),
        all_quotes(close),
        version.len() > 0,
        !is_white_space(version[0]),
        !is_white_space(version.last()),
        version[0] != '"',
        version.last() != '"',
    ensures
        printed_version(before + (open + version + close) + after) == version,
{
    let core = open + version + close;
    assert(core[0] == if open.len() > 0 {
        open[0]
    } else {
        version[0]
    });
    assert(core.last() == if close.len() > 0 {
        close[close.len() - 1]
    } else {
        version.last()
    });
    law_trimmed(before, core, after);
    law_unquoted(open, version, close);
}

/// A check finds the version in use, or `dev` where none is managed, and what the registry printed;
/// it fails exactly if the command did, and says why.
pub proof fn law_check_found(current: Option<Seq<char>>, out: Output, e: String)
    ensures
        out.success ==> check_found(current, Ok(out)) is Ok && check_found(current, Ok(out))->Ok_0.1
            == unquoted(trimmed(out.stdout@)),
        out.success && current is Some ==> check_found(current, Ok(out))->Ok_0.0 == current->0,
        out.success && current is None ==> check_found(current, Ok(out))->Ok_0.0 == "dev"@,
        !out.success ==> check_found(current, Ok(out)) == Err::<(Seq<char>, Seq<char>), Seq<char>>(
            "查询 registry 失败: "@ + trimmed(out.stderr@),
        ),
        check_found(current, Err(e)) == Err::<(Seq<char>, Seq<char>), Seq<char>>(
            "执行 npm view 失败（npm 可用性）: "@ + e@,
        ),
{
}

/// A check installs what it found exactly if that is newer; a refusal names both versions, or hands
/// on why the check failed.
pub proof fn law_apply(check: CheckView, e: Seq<char>)
    ensures
        check.updatable ==> apply_step(Ok(check)) == ApplyStepView::Install(check.latest),
        !check.updatable ==> apply_step(Ok(check)) == ApplyStepView::Refuse(
            DoneView {
                ok: false,
                version: check.latest,
                error: Some("已是最新版本 "@ + check.current + "，无需更新"@),
            },
        ),
        apply_step(Err(e)) is Refuse,
        !apply_step(Err(e))->Refuse_0.ok,
        apply_step(Err(e))->Refuse_0.version.len() == 0,
        apply_step(Err(e))->Refuse_0.error == Some(e),
{
    reveal_strlit("");
}

/// An update is one more install under way, and its end one less; the end is logged, and nothing else
/// changes.
pub proof fn law_update_alone(s: SharedView)
    ensures
        ({
            let t = s.updating();
            &&& t.phase == s.phase
            &&& t.slot == s.slot
            &&& t.ring == s.ring
            &&& t.seq == s.seq
            &&& t.fail_streak == s.fail_streak
            &&& t.ui_intent == s.ui_intent
            &&& t.toast == s.toast
            &&& t.install_busy()
        }),
        ({
            let t = s.updated();
            &&& t.phase == s.phase
            &&& t.slot == s.slot
            &&& t.ring == s.logged("update flow finished"@).ring
            &&& t.seq == s.seq
            &&& t.fail_streak == s.fail_streak
            &&& t.ui_intent == s.ui_intent
            &&& t.toast == s.toast
        }),
{
}

/// A look is due exactly if looks are wanted, no install is under way, and none has been noted or the
/// interval of the settings, counted in hours, has passed since.
pub proof fn law_look_due(settings: Settings, now_secs: u64, busy: bool)
    ensures
        settings.last_check is None ==> look_due(settings, now_secs, busy) == (settings.auto_update
            && !busy),
        settings.last_check is Some ==> look_due(settings, now_secs, busy) == (settings.auto_update
            && !busy && now_secs - settings.last_check->0 >= settings.interval_hours * 3600),
{
}

/// The entry of a version that was switched away from names both versions and the exit code.
pub proof fn law_rollback_entry(from: Seq<char>, to: Seq<char>, code: Option<i32>)
    ensures
        rollback_entry(from, to, code).from == from,
        rollback_entry(from, to, code).to == to,
        rollback_entry(from, to, code).outcome == "rolled-back"@,
        rollback_entry(from, to, code).note == Some(rollback_note(code)),
{
}

/// A check is shown as it is.
pub proof fn law_check_shown(x: Check)
    ensures
        x@.current == x.current@,
        x@.latest == x.latest@,
        x@.updatable == x.updatable,
{
}

/// The end of an update is shown as it is.
pub proof fn law_done_shown(x: Done)
    ensures
        x@.ok == x.ok,
        x@.version == x.version@,
        x.error is None ==> x@.error is None,
        x.error matches Some(s) ==> x@.error == Some(s@),
{
}

/// What an update does is shown as it is.
pub proof fn law_apply_step_shown(x: ApplyStep)
    ensures
        x matches ApplyStep::Install(version) ==> x@ == (ApplyStepView::Install(version@)),
        x matches ApplyStep::Refuse(done) ==> x@ == (ApplyStepView::Refuse(done@)),
{
}

/// An entry of the history is shown as it is.
pub proof fn law_update_record_shown(x: UpdateRecord)
    ensures
        x@.from == x.from@,
        x@.to == x.to@,
        x@.outcome == x.outcome@,
        x.note is None ==> x@.note is None,
        x.note matches Some(s) ==> x@.note == Some(s@),
{
}

/// A check that may have failed is shown as it is.
pub proof fn law_check_text(check: Check, e: String)
    ensures
        check_text(Ok(check)) == Ok::<CheckView, Seq<char>>(check@),
        check_text(Err(e)) == Err::<CheckView, Seq<char>>(e@),
{
}

} // verus!
