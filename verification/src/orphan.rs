//! Ending a child: the time of grace, the pid file, and the child that an earlier run left behind.

use vstd::prelude::*;
use vstd::string::*;

use crate::child::child_command;
use crate::dsh::Shared;
use crate::launch::words;
use crate::launch::Launch;
use crate::launch::LaunchView;
use crate::paths::join_path;
use crate::paths::path_join;
use crate::runtime::bin_path;
use crate::runtime::BIN_REL;
use crate::start::pid_file_text;
use crate::text::all_digits;
use crate::text::contains;
use crate::text::decimal;
use crate::text::decimal_text;
use crate::text::digits_value;
use crate::text::first_line;
use crate::text::has_part;
use crate::text::head_line;
use crate::text::is_blank;
use crate::text::is_digit;
use crate::text::joined;
use crate::text::law_bounded;
use crate::text::law_first_line;
use crate::text::law_trimmed;
use crate::text::lemma_decimal;
use crate::text::lemma_first_line;
use crate::text::lemma_has_part;
use crate::text::lemma_has_part_widens;
use crate::text::parse_unsigned;
use crate::text::result_text;
use crate::text::slice_text;
use crate::text::texts;
use crate::text::trim;
use crate::text::trimmed;
use crate::text::unsigned_value;

verus! {

/// The file in the data directory that names the child.
pub const PID_FILE: &'static str = "dsh-child.pid";

/// How often a process that was asked to end is looked at before it is killed.
pub const GRACE_POLLS: u32 = 60;

/// How long to sleep between two looks, in milliseconds.
pub const GRACE_MILLIS: u64 = 50;

/// The process is given more time before it is killed.
pub open spec fn gives_grace(polls: nat, done: bool) -> bool {
    polls < GRACE_POLLS && !done
}

/// Whether to sleep and look again: `polls` looks came before this one, which found the process
/// ended if `done`.
pub fn grace(polls: u32, done: bool) -> (r: bool)
    ensures
        r == gives_grace(polls as nat, done),
{
    polls < GRACE_POLLS && !done
}

/// How long a process is waited for from the look number `polls` on, in milliseconds, where
/// `done` says of each look whether it finds the process ended.
pub open spec fn grace_millis(done: spec_fn(nat) -> bool, polls: nat) -> nat
    decreases GRACE_POLLS - polls,
{
    if gives_grace(polls, done(polls)) {
        GRACE_MILLIS as nat + grace_millis(done, polls + 1)
    } else {
        0
    }
}

proof fn lemma_grace(done: spec_fn(nat) -> bool, polls: nat, end: nat)
    requires
        polls <= end <= GRACE_POLLS,
        forall|i: nat| polls <= i < end ==> !#[trigger] done(i),
        end < GRACE_POLLS ==> done(end),
    ensures
        grace_millis(done, polls) == (end - polls) * GRACE_MILLIS,
    decreases end - polls,
{
    if polls < end {
        lemma_grace(done, polls + 1, end);
        assert((end - polls) * 50 == (end - (polls + 1)) * 50 + 50) by (nonlinear_arith);
    }
}

/// A process that ends is waited for until the first look that finds it ended, and one that never
/// ends for three seconds.
pub proof fn law_grace(done: spec_fn(nat) -> bool, end: nat)
    requires
        end <= GRACE_POLLS,
        forall|i: nat| i < end ==> !#[trigger] done(i),
        end < GRACE_POLLS ==> done(end),
    ensures
        grace_millis(done, 0) == end * GRACE_MILLIS,
        grace_millis(done, 0) <= 3_000,
        end == GRACE_POLLS ==> grace_millis(done, 0) == 3_000,
{
    lemma_grace(done, 0, end);
}

impl Shared {
    /// The process to ask to end, where there is a child.
    pub fn stop_graceful(&self) -> (r: Option<u32>)
        ensures
            r == (match self@.slot {
                Some(child) => Some(child.pid),
                None => None,
            }),
    {
        match self.slot {
            Some(child) => Some(child.pid),
            None => None,
        }
    }
}

/// The place of the pid file, where there is a data directory.
pub fn pid_file_path(data: Result<String, String>) -> (r: Result<String, String>)
    ensures
        result_text(r) == (match data {
            Ok(dir) => Ok(path_join(dir@, PID_FILE@)),
            Err(reason) => Err(reason@),
        }),
{
    match data {
        Ok(dir) => Ok(join_path(dir.as_str(), PID_FILE)),
        Err(reason) => Err(reason),
    }
}

/// The process that a pid file names: the number on its first line, unless it is zero.
pub open spec fn recorded_pid(content: Seq<char>) -> Option<u32> {
    match unsigned_value(trimmed(first_line(content)), u32::MAX as nat) {
        Some(n) => if n > 0 {
            Some(n as u32)
        } else {
            None
        },
        None => None,
    }
}

/// Reads the process that a pid file names.
pub fn read_pid(content: &str) -> (r: Option<u32>)
    ensures
        r == recorded_pid(content@),
{
    match parse_unsigned(trim(head_line(content)), u32::MAX as u64) {
        Some(n) => if n > 0 {
            Some(n as u32)
        } else {
            None
        },
        None => None,
    }
}

/// The pid file that a start writes names the process that it spawned.
pub proof fn law_pid_file(pid: u32, id: u64)
    requires
        pid > 0,
    ensures
        recorded_pid(pid_file_text(pid, id)) == Some(pid),
{
    let digits = decimal(pid as nat);
    let rest = decimal(id as nat) + "\n"@;
    lemma_decimal(pid as nat);
    assert forall|i: int| 0 <= i < digits.len() implies #[trigger] digits[i] != '\n' by {
        assert(crate::text::is_digit(digits[i]));
    }
    reveal_strlit("\n");
    assert("\n"@ =~= seq!['\n']);
    lemma_first_line(digits, rest);
    assert(pid_file_text(pid, id) =~= digits + seq!['\n'] + rest);
}

/// What to do about a child that an earlier run may have left behind.
#[derive(Debug, Clone, Copy, PartialEq, Eq, Structural)]
pub enum ReapStep {
    /// There is no pid file.
    Nothing,
    /// Remove the pid file.
    Discard,
    /// See whether the process is a child of the shell.
    Probe(u32),
    /// Ask the process to end, give it grace, and see once more whether it is a child of the shell.
    Terminate(u32),
    /// Kill the process and remove the pid file.
    Kill(u32),
}

/// What follows from the pid file, where there is one.
pub open spec fn reap_begun(pid_file: Option<Seq<char>>) -> ReapStep {
    match pid_file {
        Some(content) => match recorded_pid(content) {
            Some(pid) => ReapStep::Probe(pid),
            None => ReapStep::Discard,
        },
        None => ReapStep::Nothing,
    }
}

/// What follows from the first look at the process.
pub open spec fn reap_looked(pid: u32, ours: bool) -> ReapStep {
    if ours {
        ReapStep::Terminate(pid)
    } else {
        ReapStep::Discard
    }
}

/// What follows from the last look at the process.
pub open spec fn reap_over(pid: u32, still_ours: bool) -> ReapStep {
    if still_ours {
        ReapStep::Kill(pid)
    } else {
        ReapStep::Discard
    }
}

/// The pid file has been read, where there is one.
pub fn reap_orphan(pid_file: Option<&str>) -> (r: ReapStep)
    ensures
        r == reap_begun(slice_text(pid_file)),
{
    match pid_file {
        Some(content) => match read_pid(content) {
            Some(pid) => ReapStep::Probe(pid),
            None => ReapStep::Discard,
        },
        None => ReapStep::Nothing,
    }
}

/// The process has been looked at: only a child of the shell is ended.
pub fn reap_probed(pid: u32, ours: bool) -> (r: ReapStep)
    ensures
        r == reap_looked(pid, ours),
{
    if ours {
        ReapStep::Terminate(pid)
    } else {
        ReapStep::Discard
    }
}

/// The process has had its time of grace: it is killed only if it is still a child of the shell. One
/// that ended may have left its id to another process.
pub fn reap_waited(pid: u32, still_ours: bool) -> (r: ReapStep)
    ensures
        r == reap_over(pid, still_ours),
        r is Kill <==> still_ours,
{
    if still_ours {
        ReapStep::Kill(pid)
    } else {
        ReapStep::Discard
    }
}

/// The steps after the pid file has been read, by the two looks at the process: whether it is asked
/// to end, and how it ends.
pub open spec fn reap_run(pid_file: Option<Seq<char>>, ours: bool, still_ours: bool) -> (
    bool,
    ReapStep,
) {
    match reap_begun(pid_file) {
        ReapStep::Probe(pid) => match reap_looked(pid, ours) {
            ReapStep::Terminate(pid) => (true, reap_over(pid, still_ours)),
            step => (false, step),
        },
        step => (false, step),
    }
}

/// A process is asked to end only if the look before says that it is a child of the shell, and killed
/// only if the look after the time of grace still says so; and it is the process that the pid file
/// names. The pid file is gone afterwards, if there was one.
pub proof fn law_reap_signals(pid_file: Option<Seq<char>>, ours: bool, still_ours: bool)
    ensures
        ({
            let (asked, end) = reap_run(pid_file, ours, still_ours);
            &&& asked <==> pid_file is Some && recorded_pid(pid_file->0) is Some && ours
            &&& end is Kill <==> asked && still_ours
            &&& end matches ReapStep::Kill(pid) ==> recorded_pid(pid_file->0) == Some(pid)
            &&& end is Nothing <==> pid_file is None
            &&& end is Kill || end is Discard || end is Nothing
        }),
{
}

/// The command that lists a process: its command line and, with `marks`, its environment.
pub open spec fn listing_command(pid: u32, marks: bool) -> LaunchView {
    LaunchView {
        program: "ps"@,
        args: if marks {
            seq!["-p"@, decimal(pid as nat), "-E"@, "-o"@, "command="@]
        } else {
            seq!["-p"@, decimal(pid as nat), "-o"@, "command="@]
        },
        cwd: None,
        env: Seq::empty(),
    }
}

/// Makes the command that lists a process. macOS shows the environment too.
pub fn listing_launch(pid: u32, marks: bool) -> (r: Launch)
    ensures
        r@ == listing_command(pid, marks),
{
    let pid_text = decimal_text(pid as u64);
    let args = if marks {
        words(&["-p", pid_text.as_str(), "-E", "-o", "command="])
    } else {
        words(&["-p", pid_text.as_str(), "-o", "command="])
    };
    let r = Launch { program: "ps".to_owned(), args, cwd: None, env: Vec::new() };
    assert(texts(r.args@) =~= listing_command(pid, marks).args);
    assert(r@ =~= listing_command(pid, marks));
    r
}

/// A listed process is a child of the shell: it runs the executable, and carries the mark in its
/// environment, or where that is not listed, takes a port.
pub open spec fn is_ours(listing: Seq<char>, marks: bool) -> bool {
    &&& has_part(listing, "bin.js"@)
    &&& has_part(
        listing,
        if marks {
            "DSH_DESKTOP_CHILD=1"@
        } else {
            "--port"@
        },
    )
}

/// Whether a process is a child of the shell, by its listing; without one it is none.
pub fn is_our_dsh(listing: Option<&str>, marks: bool) -> (r: bool)
    ensures
        r == (listing matches Some(text) && is_ours(text@, marks)),
{
    match listing {
        Some(text) => contains(text, "bin.js") && contains(
            text,
            if marks {
                "DSH_DESKTOP_CHILD=1"
            } else {
                "--port"
            },
        ),
        None => false,
    }
}

/// The command line of the child as one line.
pub open spec fn command_line(launch: LaunchView) -> Seq<char> {
    joined(seq![launch.program] + launch.args, " "@)
}

/// The mark of the child as `name=value`.
pub open spec fn mark_text(launch: LaunchView) -> Seq<char> {
    launch.env[0].0 + "="@ + launch.env[0].1
}

proof fn lemma_command_line(node: Seq<char>, bin: Seq<char>, cwd: Seq<char>, path: Option<Seq<char>>)
    ensures
        command_line(child_command(node, bin, cwd, path)) == node + " "@ + bin + (" "@ + "web"@
            + " "@ + "--port"@ + " "@ + "0"@),
{
    let launch = child_command(node, bin, cwd, path);
    let all = seq![launch.program] + launch.args;
    reveal_with_fuel(joined, 5);
    assert(all.drop_last() =~= seq![node, bin, "web"@, "--port"@]);
    assert(all.drop_last().drop_last() =~= seq![node, bin, "web"@]);
    assert(all.drop_last().drop_last().drop_last() =~= seq![node, bin]);
    assert(all.drop_last().drop_last().drop_last().drop_last() =~= seq![node]);
    assert(joined(all, " "@) =~= node + " "@ + bin + (" "@ + "web"@ + " "@ + "--port"@ + " "@
        + "0"@));
}

/// The child that a start spawns is recognised by a listing that shows its command line somewhere,
/// provided that the name of its executable has `bin.js` in it.
pub proof fn law_child_recognised(
    node: Seq<char>,
    bin: Seq<char>,
    cwd: Seq<char>,
    path: Option<Seq<char>>,
    before: Seq<char>,
    after: Seq<char>,
)
    requires
        has_part(bin, "bin.js"@),
    ensures
        is_ours(before + command_line(child_command(node, bin, cwd, path)) + after, false),
{
    let line = command_line(child_command(node, bin, cwd, path));
    let head = node + " "@;
    let tail = " "@ + "web"@ + " "@ + "--port"@ + " "@ + "0"@;
    lemma_command_line(node, bin, cwd, path);
    lemma_has_part_widens(head, bin, tail, "bin.js"@);
    let front = head + bin + (" "@ + "web"@ + " "@);
    let back = " "@ + "0"@;
    assert(line =~= front + "--port"@ + back);
    lemma_has_part(front, "--port"@, back);
    lemma_has_part_widens(before, line, after, "bin.js"@);
    lemma_has_part_widens(before, line, after, "--port"@);
}

/// Where the environment is listed, the child that a start spawns is recognised by a listing that
/// shows its command line somewhere and its mark behind it, provided that the name of its
/// executable has `bin.js` in it.
pub proof fn law_marked_child_recognised(
    node: Seq<char>,
    bin: Seq<char>,
    cwd: Seq<char>,
    path: Option<Seq<char>>,
    before: Seq<char>,
    between: Seq<char>,
    after: Seq<char>,
)
    requires
        has_part(bin, "bin.js"@),
    ensures
        ({
            let launch = child_command(node, bin, cwd, path);
            is_ours(before + command_line(launch) + between + mark_text(launch) + after, true)
        }),
{
    let launch = child_command(node, bin, cwd, path);
    let listed = before + command_line(launch) + between;
    let mark = mark_text(launch);
    assert(mark =~= "DSH_DESKTOP_CHILD=1"@) by {
        reveal_strlit("DSH_DESKTOP_CHILD");
        reveal_strlit("=");
        reveal_strlit("1");
        reveal_strlit("DSH_DESKTOP_CHILD=1");
    }
    law_child_recognised(node, bin, cwd, path, before, between);
    lemma_has_part(listed, mark, after);
    lemma_has_part_widens(Seq::empty(), listed, mark + after, "bin.js"@);
    assert(Seq::<char>::empty() + listed + (mark + after) =~= listed + mark + after);
}

/// The executable of a managed install is one by which its child is recognised.
pub proof fn law_managed_recognised(version_dir: Seq<char>)
    ensures
        has_part(bin_path(version_dir), "bin.js"@),
{
    reveal_strlit("node_modules/@deepseek-ai/dsh/lib/bin.js");
    reveal_strlit("bin.js");
    let n = BIN_REL@.len() as int;
    assert(BIN_REL@.subrange(n - 6, n - 6 + "bin.js"@.len()) =~= "bin.js"@);
    assert(has_part(BIN_REL@, "bin.js"@));
    let front = if version_dir.len() == 0 || version_dir.last() == '/' {
        version_dir
    } else {
        version_dir + "/"@
    };
    lemma_has_part_widens(front, BIN_REL@, Seq::empty(), "bin.js"@);
    assert(bin_path(version_dir) =~= front + BIN_REL@ + Seq::<char>::empty());
}

/// A process is given up on after sixty looks, fifty milliseconds apart, and not looked at again once
/// it has ended.
pub proof fn law_gives_grace(done: spec_fn(nat) -> bool, polls: nat)
    ensures
        gives_grace(polls, false) <==> polls < 60,
        !gives_grace(polls, true),
        polls < 60 && !done(polls) ==> grace_millis(done, polls) == 50 + grace_millis(
            done,
            polls + 1,
        ),
        polls >= 60 || done(polls) ==> grace_millis(done, polls) == 0,
{
}

/// A pid file names a process by the number on its first line, whatever blanks stand around the
/// number and whatever lines follow, unless the number is zero or too great.
pub proof fn law_recorded_pid(before: Seq<char>, digits: Seq<char>, after: Seq<char>, rest: Seq<char>)
    requires
        is_blank(before),
        is_blank(after),
        forall|i: int| 0 <= i < before.len() ==> #[trigger] before[i] != '\n',
        forall|i: int| 0 <= i < after.len() ==> #[trigger] after[i] != '\n',
        digits.len() > 0,
        all_digits(digits),
    ensures
        0 < digits_value(digits) <= 4_294_967_295 ==> {
            &&& recorded_pid(before + digits + after + seq!['\n'] + rest) == Some(
                digits_value(digits) as u32,
            )
            &&& recorded_pid(before + digits + after) == Some(digits_value(digits) as u32)
        },
        digits_value(digits) == 0 || digits_value(digits) > 4_294_967_295 ==> {
            &&& recorded_pid(before + digits + after + seq!['\n'] + rest) is None
            &&& recorded_pid(before + digits + after) is None
        },
{
    let line = before + digits + after;
    assert forall|i: int| 0 <= i < line.len() implies #[trigger] line[i] != '\n' by {
        if before.len() <= i < before.len() + digits.len() {
            assert(is_digit(digits[i - before.len()]));
        }
    }
    law_first_line(line, rest);
    assert(is_digit(digits[0]) && is_digit(digits[digits.len() - 1]));
    law_trimmed(before, digits, after);
    law_bounded(digits, u32::MAX as nat);
}

/// A pid file whose first line is not a number names no process.
pub proof fn law_no_pid(line: Seq<char>, rest: Seq<char>)
    requires
        forall|i: int| 0 <= i < line.len() ==> #[trigger] line[i] != '\n',
        unsigned_value(trimmed(line), 4_294_967_295) is None,
    ensures
        recorded_pid(line + seq!['\n'] + rest) is None,
        recorded_pid(line) is None,
{
    law_first_line(line, rest);
}

/// Each step about a child that was left behind is about the process that the pid file names: only
/// one that is a child of the shell is asked to end, and only one that still is is killed. Without a
/// pid file there is nothing to do, and one that is of no use is removed.
pub proof fn law_reap_steps(content: Seq<char>, pid: u32)
    ensures
        reap_begun(None) is Nothing,
        recorded_pid(content) == Some(pid) ==> reap_begun(Some(content)) == ReapStep::Probe(pid),
        recorded_pid(content) is None ==> reap_begun(Some(content)) == ReapStep::Discard,
        reap_looked(pid, true) == ReapStep::Terminate(pid),
        reap_looked(pid, false) == ReapStep::Discard,
        reap_over(pid, true) == ReapStep::Kill(pid),
        reap_over(pid, false) == ReapStep::Discard,
{
}

/// A process is listed by its own number, with its environment where marks are looked for.
pub proof fn law_listing(pid: u32, marks: bool)
    ensures
        ({
            let launch = listing_command(pid, marks);
            &&& launch.program == "ps"@
            &&& launch.args[0] == "-p"@
            &&& launch.args[1] == decimal(pid as nat)
            &&& launch.args[launch.args.len() - 2] == "-o"@
            &&& launch.args[launch.args.len() - 1] == "command="@
            &&& marks ==> launch.args.len() == 5 && launch.args[2] == "-E"@
            &&& !marks ==> launch.args.len() == 4
            &&& launch.cwd is None
            &&& launch.env.len() == 0
        }),
{
}

/// A process is taken for a child of the shell exactly if its listing shows the executable and, by
/// what can be listed, the mark or the port.
pub proof fn law_ours(listing: Seq<char>)
    ensures
        is_ours(listing, true) <==> has_part(listing, "bin.js"@) && has_part(
            listing,
            "DSH_DESKTOP_CHILD=1"@,
        ),
        is_ours(listing, false) <==> has_part(listing, "bin.js"@) && has_part(listing, "--port"@),
{
}

} // verus!
