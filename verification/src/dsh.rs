//! The dsh child process: its state as the shell shows it, and how each event changes it.

use std::collections::VecDeque;

use vstd::prelude::*;

use crate::text::blank;
use crate::text::is_blank;
use crate::text::join;
use crate::text::joined;
use crate::text::maybe_text;
use crate::text::texts;
use crate::text::with_line_feed;

verus! {

pub const STATE_EVENT: &'static str = "dsh://state";

pub const SPLASH_LABEL: &'static str = "splash";

pub const MAIN_LABEL: &'static str = "main";

/// How many log lines are kept in memory.
pub const RING_CAP: usize = 400;

/// How many log lines a failure report shows.
pub const TAIL_LINES: usize = 12;

/// How many failed starts in a row make a reset of the runtime available.
pub const RESET_STREAK: u32 = 3;

/// What the shell UI is told about the child.
#[derive(Debug)]
pub enum Phase {
    Starting,
    Bootstrapping { line: String },
    Ready { url: String },
    StartFailed { reason: String, log_tail: String, can_reset: bool },
    Exited { code: Option<i32>, log_tail: String, can_reset: bool },
}

/// The texts of a [`Phase`].
#[verifier::ext_equal]
pub enum PhaseView {
    Starting,
    Bootstrapping { line: Seq<char> },
    Ready { url: Seq<char> },
    StartFailed { reason: Seq<char>, log_tail: Seq<char>, can_reset: bool },
    Exited { code: Option<i32>, log_tail: Seq<char>, can_reset: bool },
}

impl View for Phase {
    type V = PhaseView;

    open spec fn view(&self) -> PhaseView {
        match self {
            Phase::Starting => PhaseView::Starting,
            Phase::Bootstrapping { line } => PhaseView::Bootstrapping { line: line@ },
            Phase::Ready { url } => PhaseView::Ready { url: url@ },
            Phase::StartFailed { reason, log_tail, can_reset } => PhaseView::StartFailed {
                reason: reason@,
                log_tail: log_tail@,
                can_reset: *can_reset,
            },
            Phase::Exited { code, log_tail, can_reset } => PhaseView::Exited {
                code: *code,
                log_tail: log_tail@,
                can_reset: *can_reset,
            },
        }
    }
}

impl Default for Phase {
    fn default() -> (r: Self)
        ensures
            r@ == PhaseView::Starting,
    {
        Phase::Starting
    }
}

impl Clone for Phase {
    fn clone(&self) -> (r: Self)
        ensures
            r@ == self@,
    {
        match self {
            Phase::Starting => Phase::Starting,
            Phase::Bootstrapping { line } => Phase::Bootstrapping { line: line.clone() },
            Phase::Ready { url } => Phase::Ready { url: url.clone() },
            Phase::StartFailed { reason, log_tail, can_reset } => Phase::StartFailed {
                reason: reason.clone(),
                log_tail: log_tail.clone(),
                can_reset: *can_reset,
            },
            Phase::Exited { code, log_tail, can_reset } => Phase::Exited {
                code: *code,
                log_tail: log_tail.clone(),
                can_reset: *can_reset,
            },
        }
    }
}

/// The child that is being supervised: its process id and the generation it belongs to.
#[derive(Debug, Clone, Copy, PartialEq, Eq, Structural)]
pub struct Supervisor {
    pub pid: u32,
    pub id: u64,
}

/// What commands, watchers and signal handling share.
#[derive(Debug)]
pub struct Shared {
    pub slot: Option<Supervisor>,
    pub phase: Phase,
    pub ring: VecDeque<String>,
    /// The generation of the newest child; older generations are ignored.
    pub seq: u64,
    /// The panel that the shell UI opens when it loads next.
    pub ui_intent: Option<String>,
    /// How many installs of a runtime or an update are under way.
    pub installs: u64,
    /// Failed starts since the last child that became ready.
    pub fail_streak: u32,
    /// Title and body of the latest toast.
    pub toast: Option<(String, String)>,
}

/// The values of a [`Shared`].
#[verifier::ext_equal]
pub struct SharedView {
    pub slot: Option<Supervisor>,
    pub phase: PhaseView,
    pub ring: Seq<Seq<char>>,
    pub seq: u64,
    pub ui_intent: Option<Seq<char>>,
    pub installs: u64,
    pub fail_streak: u32,
    pub toast: Option<(Seq<char>, Seq<char>)>,
}

/// The texts of an optional pair of strings.
pub open spec fn maybe_pair(p: Option<(String, String)>) -> Option<(Seq<char>, Seq<char>)> {
    match p {
        Some(p) => Some((p.0@, p.1@)),
        None => None,
    }
}

impl View for Shared {
    type V = SharedView;

    open spec fn view(&self) -> SharedView {
        SharedView {
            slot: self.slot,
            phase: self.phase@,
            ring: texts(self.ring@),
            seq: self.seq,
            ui_intent: maybe_text(self.ui_intent),
            installs: self.installs,
            fail_streak: self.fail_streak,
            toast: maybe_pair(self.toast),
        }
    }
}

impl Default for Shared {
    fn default() -> (r: Self)
        ensures
            r@ == SharedView::initial(),
    {
        let r = Shared {
            slot: None,
            phase: Phase::Starting,
            ring: VecDeque::new(),
            seq: 0,
            ui_intent: None,
            installs: 0,
            fail_streak: 0,
            toast: None,
        };
        assert(r@ =~= SharedView::initial());
        r
    }
}

/// The last `n` elements of `s`, or all where it has no more.
pub open spec fn last_of<T>(s: Seq<T>, n: nat) -> Seq<T> {
    if s.len() > n {
        s.skip(s.len() - n)
    } else {
        s
    }
}

/// The lines that are not blank.
pub open spec fn shown_lines(lines: Seq<Seq<char>>) -> Seq<Seq<char>>
    decreases lines.len(),
{
    if lines.len() == 0 {
        Seq::empty()
    } else if is_blank(lines.last()) {
        shown_lines(lines.drop_last())
    } else {
        shown_lines(lines.drop_last()).push(lines.last())
    }
}

/// One more in a row, counted around at the end of the range.
pub open spec fn next_streak(n: u32) -> u32 {
    if n == u32::MAX {
        0
    } else {
        (n + 1) as u32
    }
}

impl SharedView {
    /// The state before anything has happened.
    pub open spec fn initial() -> SharedView {
        SharedView {
            slot: None,
            phase: PhaseView::Starting,
            ring: Seq::empty(),
            seq: 0,
            ui_intent: None,
            installs: 0,
            fail_streak: 0,
            toast: None,
        }
    }

    /// A runtime or an update is being installed.
    pub open spec fn install_busy(self) -> bool {
        self.installs > 0
    }

    /// The state with one more install under way; at the end of the range the count stays.
    pub open spec fn busier(self) -> SharedView {
        SharedView {
            installs: if self.installs == u64::MAX {
                u64::MAX
            } else {
                (self.installs + 1) as u64
            },
            ..self
        }
    }

    /// The state with one install less under way.
    pub open spec fn relieved(self) -> SharedView {
        SharedView {
            installs: if self.installs == 0 {
                0
            } else {
                (self.installs - 1) as u64
            },
            ..self
        }
    }

    /// The state after one more log line.
    pub open spec fn logged(self, line: Seq<char>) -> SharedView {
        SharedView { ring: last_of(self.ring.push(line), RING_CAP as nat), ..self }
    }

    /// The last log lines that are not blank, one below the other.
    pub open spec fn tail(self) -> Seq<char> {
        joined(last_of(shown_lines(self.ring), TAIL_LINES as nat), "\n"@)
    }

    /// The state after a start that failed for `reason`.
    pub open spec fn failed(self, reason: Seq<char>) -> SharedView {
        let streak = next_streak(self.fail_streak);
        SharedView {
            fail_streak: streak,
            phase: PhaseView::StartFailed {
                reason,
                log_tail: self.tail(),
                can_reset: streak >= RESET_STREAK,
            },
            ..self
        }
    }
}

impl Shared {
    /// Whether a runtime or an update is being installed.
    pub fn install_busy(&self) -> (r: bool)
        ensures
            r == self@.install_busy(),
    {
        self.installs > 0
    }

    /// One more install is under way.
    pub(crate) fn count_install(&mut self)
        ensures
            final(self)@ == old(self)@.busier(),
    {
        if self.installs < u64::MAX {
            self.installs = self.installs + 1;
        }
    }

    /// An install has ended.
    pub(crate) fn discount_install(&mut self)
        ensures
            final(self)@ == old(self)@.relieved(),
    {
        if self.installs > 0 {
            self.installs = self.installs - 1;
        }
    }

    /// Appends a line to the log in memory; the oldest lines make room.
    pub fn push_line(&mut self, line: String)
        ensures
            final(self)@ == old(self)@.logged(line@),
    {
        let ghost all = self.ring@.push(line);
        self.ring.push_back(line);
        let ghost mut dropped: int = 0;
        assert(all.skip(0) =~= all);
        while self.ring.len() > RING_CAP
            invariant
                self.ring@ == all.skip(dropped),
                0 <= dropped <= all.len(),
                dropped > 0 ==> all.len() - dropped >= RING_CAP,
                self.slot == old(self).slot,
                self.phase == old(self).phase,
                self.seq == old(self).seq,
                self.ui_intent == old(self).ui_intent,
                self.installs == old(self).installs,
                self.fail_streak == old(self).fail_streak,
                self.toast == old(self).toast,
            decreases self.ring.len(),
        {
            self.ring.pop_front();
            proof {
                assert(all.skip(dropped).subrange(1, all.len() - dropped) =~= all.skip(dropped + 1));
                dropped = dropped + 1;
            }
        }
        assert(texts(all) =~= texts(old(self).ring@).push(line@));
        assert(texts(self.ring@) =~= last_of(texts(all), RING_CAP as nat));
    }

    /// Logs a line: it is kept in memory, and the text that is returned belongs in the log file.
    pub fn log_line(&mut self, line: String) -> (r: String)
        ensures
            final(self)@ == old(self)@.logged(line@),
            r@ == line@ + "\n"@,
    {
        let r = with_line_feed(line.as_str());
        self.push_line(line);
        r
    }

    /// The last log lines that are not blank, one below the other.
    pub fn log_tail(&self) -> (r: String)
        ensures
            r@ == self@.tail(),
    {
        let mut lines: Vec<String> = Vec::new();
        let ghost all = texts(self.ring@);
        let mut i: usize = 0;
        while i < self.ring.len()
            invariant
                i <= self.ring.len(),
                all == texts(self.ring@),
                texts(lines@) == shown_lines(all.take(i as int)),
            decreases self.ring.len() - i,
        {
            let ghost before = lines@;
            assert(all.take(i as int + 1).drop_last() =~= all.take(i as int));
            let line = &self.ring[i];
            if !blank(line.as_str()) {
                lines.push(line.clone());
                assert(texts(lines@) =~= texts(before).push(line@));
            }
            i = i + 1;
        }
        assert(all.take(self.ring.len() as int) =~= all);
        if lines.len() > TAIL_LINES {
            let cut: usize = lines.len() - TAIL_LINES;
            let ghost before = lines@;
            let kept = lines.split_off(cut);
            assert(texts(kept@) =~= last_of(texts(before), TAIL_LINES as nat));
            return join(&kept, "\n");
        }
        join(&lines, "\n")
    }

    /// A start failed: the streak grows, and the phase that is returned tells the shell UI why.
    pub fn fail_start(&mut self, reason: String) -> (r: Phase)
        ensures
            final(self)@ == old(self)@.failed(reason@),
            r@ == final(self)@.phase,
    {
        self.fail_streak = self.fail_streak.wrapping_add(1);
        let log_tail = self.log_tail();
        let can_reset = self.fail_streak >= RESET_STREAK;
        self.phase = Phase::StartFailed { reason, log_tail, can_reset };
        self.phase.clone()
    }
}

/// The log in memory never holds more than its limit, whatever it held before; the newest line is
/// its last, and the lines before it are the latest ones in their order.
pub proof fn law_log_bounded(s: SharedView, line: Seq<char>)
    ensures
        s.logged(line).ring.len() <= RING_CAP,
        s.logged(line).ring.last() == line,
        s.logged(line).ring.drop_last() == last_of(s.ring, (RING_CAP - 1) as nat),
{
    assert(s.logged(line).ring.drop_last() =~= last_of(s.ring, (RING_CAP - 1) as nat));
}

proof fn lemma_shown_lines(lines: Seq<Seq<char>>)
    ensures
        shown_lines(lines).len() <= lines.len(),
        forall|i: int|
            0 <= i < shown_lines(lines).len() ==> !is_blank(#[trigger] shown_lines(lines)[i])
                && lines.contains(shown_lines(lines)[i]),
    decreases lines.len(),
{
    if lines.len() > 0 {
        let front = lines.drop_last();
        lemma_shown_lines(front);
        assert forall|i: int| 0 <= i < shown_lines(lines).len() implies !is_blank(
            #[trigger] shown_lines(lines)[i],
        ) && lines.contains(shown_lines(lines)[i]) by {
            if i < shown_lines(front).len() {
                assert(shown_lines(lines)[i] == shown_lines(front)[i]);
                let j = choose|j: int| 0 <= j < front.len() && front[j] == shown_lines(front)[i];
                assert(lines[j] == front[j]);
            } else {
                assert(lines[lines.len() - 1] == lines.last());
            }
        }
    }
}

/// A failure report shows at most twelve lines, each of them a line of the log that is not blank.
/// The last line that was logged is the last that is shown, unless it is blank.
pub proof fn law_tail_short(s: SharedView, line: Seq<char>)
    ensures
        ({
            let shown = last_of(shown_lines(s.ring), TAIL_LINES as nat);
            &&& s.tail() == joined(shown, "\n"@)
            &&& shown.len() <= 12
            &&& forall|i: int|
                0 <= i < shown.len() ==> !is_blank(#[trigger] shown[i]) && s.ring.contains(shown[i])
        }),
        !is_blank(line) ==> last_of(shown_lines(s.logged(line).ring), TAIL_LINES as nat).last()
            == line,
{
    let all = shown_lines(s.ring);
    let shown = last_of(all, TAIL_LINES as nat);
    lemma_shown_lines(s.ring);
    assert forall|i: int| 0 <= i < shown.len() implies !is_blank(#[trigger] shown[i])
        && s.ring.contains(shown[i]) by {
        assert(shown[i] == all[i + (all.len() - shown.len())]);
    }
    law_log_bounded(s, line);
}

/// From a streak of none, the reset of the runtime is offered at the third failure in a row and
/// not before.
pub proof fn law_reset_offered(s: SharedView, first: Seq<char>, second: Seq<char>, third: Seq<char>)
    requires
        s.fail_streak == 0,
    ensures
        !s.failed(first).phase->StartFailed_can_reset,
        !s.failed(first).failed(second).phase->StartFailed_can_reset,
        s.failed(first).failed(second).failed(third).phase->StartFailed_can_reset,
{
}

/// The last elements of a row are as many as are asked for, or all where there are no more, in their
/// order and up to the end.
pub proof fn law_last_of<T>(s: Seq<T>, n: nat)
    ensures
        last_of(s, n).len() == (if s.len() < n {
            s.len()
        } else {
            n
        }),
        forall|i: int|
            0 <= i < last_of(s, n).len() ==> #[trigger] last_of(s, n)[i] == s[s.len() - last_of(
                s,
                n,
            ).len() + i],
{
}

/// Whether a line is shown depends on that line alone: it is shown where it stands unless it is
/// blank.
pub proof fn law_shown_lines(a: Seq<Seq<char>>, b: Seq<Seq<char>>, line: Seq<char>)
    ensures
        shown_lines(a + b) == shown_lines(a) + shown_lines(b),
        is_blank(line) ==> shown_lines(seq![line]) == Seq::<Seq<char>>::empty(),
        !is_blank(line) ==> shown_lines(seq![line]) == seq![line],
    decreases b.len(),
{
    assert(seq![line].drop_last() =~= Seq::<Seq<char>>::empty());
    assert(shown_lines(seq![line].drop_last()) =~= Seq::<Seq<char>>::empty());
    assert(!is_blank(line) ==> shown_lines(seq![line]) =~= seq![line]);
    if b.len() == 0 {
        assert(a + b =~= a);
        assert(shown_lines(a) + shown_lines(b) =~= shown_lines(a));
    } else {
        assert((a + b).drop_last() =~= a + b.drop_last());
        assert((a + b).last() == b.last());
        law_shown_lines(a, b.drop_last(), line);
        assert(shown_lines(a + b) =~= shown_lines(a) + shown_lines(b));
    }
}

/// A log line changes the log and nothing else.
pub proof fn law_log_only(s: SharedView, line: Seq<char>)
    ensures
        ({
            let t = s.logged(line);
            &&& t.slot == s.slot
            &&& t.phase == s.phase
            &&& t.seq == s.seq
            &&& t.ui_intent == s.ui_intent
            &&& t.installs == s.installs
            &&& t.fail_streak == s.fail_streak
            &&& t.toast == s.toast
        }),
        s.ring.len() < 400 ==> s.logged(line).ring == s.ring.push(line),
        s.ring.len() == 400 ==> s.logged(line).ring == s.ring.skip(1).push(line),
{
    if s.ring.len() == 400 {
        assert(s.ring.push(line).skip(1) =~= s.ring.skip(1).push(line));
    }
}

/// A failed start tells its reason and the end of the log, offers the reset from the third failure in
/// a row on, counts itself, and leaves everything else alone.
pub proof fn law_failed(s: SharedView, reason: Seq<char>)
    requires
        s.fail_streak < u32::MAX,
    ensures
        ({
            let t = s.failed(reason);
            &&& t.fail_streak == s.fail_streak + 1
            &&& t.phase == (PhaseView::StartFailed {
                reason,
                log_tail: s.tail(),
                can_reset: s.fail_streak + 1 >= 3,
            })
            &&& t.slot == s.slot
            &&& t.ring == s.ring
            &&& t.seq == s.seq
            &&& t.ui_intent == s.ui_intent
            &&& t.installs == s.installs
            &&& t.toast == s.toast
        }),
{
}

/// The count of installs goes up and down by one, and nothing else changes with it.
pub proof fn law_installs_alone(s: SharedView)
    ensures
        s.installs < u64::MAX ==> s.busier().installs == s.installs + 1,
        s.installs > 0 ==> s.relieved().installs == s.installs - 1,
        s.install_busy() <==> s.installs != 0,
        ({
            let t = s.busier();
            &&& t.slot == s.slot
            &&& t.phase == s.phase
            &&& t.ring == s.ring
            &&& t.seq == s.seq
            &&& t.ui_intent == s.ui_intent
            &&& t.fail_streak == s.fail_streak
            &&& t.toast == s.toast
        }),
        ({
            let t = s.relieved();
            &&& t.slot == s.slot
            &&& t.phase == s.phase
            &&& t.ring == s.ring
            &&& t.seq == s.seq
            &&& t.ui_intent == s.ui_intent
            &&& t.fail_streak == s.fail_streak
            &&& t.toast == s.toast
        }),
{
}

/// At first there is no child, no log and no wish, nothing is being installed, nothing has failed, and
/// a start is awaited.
pub proof fn law_initial()
    ensures
        ({
            let s = SharedView::initial();
            &&& s.slot is None
            &&& s.phase is Starting
            &&& s.ring.len() == 0
            &&& s.tail().len() == 0
            &&& s.seq == 0
            &&& s.ui_intent is None
            &&& !s.install_busy()
            &&& s.fail_streak == 0
            &&& s.toast is None
        }),
{
}

/// At the ends of their ranges the failures in a row are counted from the first one again, and the
/// installs stay as many as they are.
pub proof fn law_counts_at_ends(s: SharedView, reason: Seq<char>)
    ensures
        s.fail_streak == u32::MAX ==> s.failed(reason).fail_streak == 0 && !(s.failed(
            reason,
        ).phase->StartFailed_can_reset),
        s.installs == 0 ==> s.relieved() == s,
        s.installs == u64::MAX ==> s.busier() == s,
{
}

/// A phase is shown as it is, with all that it carries.
pub proof fn law_phase_shown(x: Phase)
    ensures
        x is Starting ==> x@ is Starting,
        x matches Phase::Bootstrapping { line } ==> x@ == (PhaseView::Bootstrapping {
            line: line@,
        }),
        x matches Phase::Ready { url } ==> x@ == (PhaseView::Ready { url: url@ }),
        x matches Phase::StartFailed { reason, log_tail, can_reset } ==> x@
            == (PhaseView::StartFailed {
            reason: reason@,
            log_tail: log_tail@,
            can_reset: can_reset,
        }),
        x matches Phase::Exited { code, log_tail, can_reset } ==> x@ == (PhaseView::Exited {
            code: code,
            log_tail: log_tail@,
            can_reset: can_reset,
        }),
{
}

/// The state is shown as it is, part by part.
pub proof fn law_shared_shown(x: Shared)
    ensures
        x@.slot == x.slot,
        x@.phase == x.phase@,
        x@.ring.len() == x.ring@.len(),
        forall|i: int| 0 <= i < x.ring@.len() ==> #[trigger] x@.ring[i] == x.ring@[i]@,
        x@.seq == x.seq,
        x.ui_intent is None ==> x@.ui_intent is None,
        x.ui_intent matches Some(s) ==> x@.ui_intent == Some(s@),
        x@.installs == x.installs,
        x@.fail_streak == x.fail_streak,
        x.toast is None ==> x@.toast is None,
        x.toast matches Some(p) ==> x@.toast == Some((p.0@, p.1@)),
{
}

/// A failure report ends where the log ends: it shows the last twelve lines that are not blank, or all
/// of them where there are no more, one below the other.
pub proof fn law_tail(s: SharedView)
    ensures
        shown_lines(s.ring).len() <= 12 ==> s.tail() == joined(shown_lines(s.ring), "\n"@),
        shown_lines(s.ring).len() > 12 ==> s.tail() == joined(
            shown_lines(s.ring).skip(shown_lines(s.ring).len() - 12),
            "\n"@,
        ),
{
}

} // verus!
