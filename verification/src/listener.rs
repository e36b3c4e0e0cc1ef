//! The event listener: what the shell makes of the frames that the child sends, and how it tells
//! the user.
//!
//! - `approval/requested`: a badge, a notice with the tool and the reason, and the main window
//!   comes forward
//! - `question/requested`: a badge, a notice with the number of questions, and the main window
//!   comes forward
//! - `approval/resolved`, `question/resolved`: no badge
//! - `host/agent-error`: a badge, a notice with the message, and the main window comes forward
//! - `stream/error`: a notice with the message
//!
//! The toast that shows a notice takes no focus itself.

use vstd::prelude::*;
use vstd::string::*;

use crate::dsh::Shared;
use crate::dsh::SharedView;
use crate::outside::json_as_array;
use crate::outside::json_get;
use crate::outside::json_items;
use crate::outside::json_member;
use crate::runtime::json_text_at;
use crate::runtime::text_member;
use crate::text::decimal;
use crate::text::decimal_text;
use crate::text::maybe_text;
use crate::text::plus;
use crate::text::replace;
use crate::text::replaced;
use crate::text::same;
use crate::text::signed_decimal;
use crate::text::signed_text;
use crate::text::texts;
use crate::watch::child_url;

verus! {

/// Where the child serves its events.
pub const MUX_PATH: &'static str = "/api/events.mux";

/// Where the child serves the events of the host.
pub const HOST_PATH: &'static str = "/api/events.host";

pub const TOAST_LABEL: &'static str = "toast";

/// How long a toast is shown, in seconds.
pub const TOAST_SECS: u64 = 6;

/// How long a stream waits before it connects again, in seconds.
pub const RETRY_SECS: u64 = 2;

/// The name of an authorization status of the macOS notification center.
pub open spec fn status_word(s: i64) -> Seq<char> {
    if s == 0 {
        "notDetermined"@
    } else if s == 1 {
        "denied"@
    } else if s == 2 {
        "authorized"@
    } else if s == 3 {
        "provisional"@
    } else if s == 4 {
        "ephemeral"@
    } else {
        "unknown"@
    }
}

/// Names an authorization status.
pub fn status_name(s: i64) -> (r: &'static str)
    ensures
        r@ == status_word(s),
{
    match s {
        0 => "notDetermined",
        1 => "denied",
        2 => "authorized",
        3 => "provisional",
        4 => "ephemeral",
        _ => "unknown",
    }
}

/// The diagnostic note on an authorization status.
pub fn status_note(s: i64) -> (r: String)
    ensures
        r@ == "sysnotify: status="@ + signed_decimal(s as int) + " ("@ + status_word(s) + ")"@,
{
    let mut r = "sysnotify: status=".to_owned();
    r.append(signed_text(s).as_str());
    r.append(" (");
    r.append(status_name(s));
    r.append(")");
    r
}

/// What to do about a system banner.
#[derive(Debug, Clone, Copy, PartialEq, Eq, Structural)]
pub enum BannerStep {
    Send,
    /// Ask for permission again: the first request may have been dropped.
    AskAgain,
    Skip,
}

/// Decides about a system banner by the authorization status: authorized and provisional send,
/// not determined asks again, anything else skips.
pub fn notify_if_authorized(status: i64) -> (r: BannerStep)
    ensures
        r == (if status == 2 || status == 3 {
            BannerStep::Send
        } else if status == 0 {
            BannerStep::AskAgain
        } else {
            BannerStep::Skip
        }),
{
    match status {
        2 => BannerStep::Send,
        3 => BannerStep::Send,
        0 => BannerStep::AskAgain,
        _ => BannerStep::Skip,
    }
}

/// The diagnostic note on the delivery of a system banner; one that was delivered needs none.
pub fn delivery_note(error: Option<&str>) -> (r: Option<String>)
    ensures
        maybe_text(r) == (match error {
            Some(e) => Some("sysnotify: delivery error: "@ + e@),
            None => None,
        }),
{
    match error {
        Some(e) => Some(plus("sysnotify: delivery error: ", e)),
        None => None,
    }
}

/// The executable at a path with these components stands in an application bundle.
pub open spec fn bundled(segments: Seq<Seq<char>>) -> bool {
    exists|i: int|
        0 <= i < segments.len() - 1 && #[trigger] segments[i] == "Contents"@ && segments[i + 1]
            == "MacOS"@
}

/// Whether the executable at a path with these components stands in an application bundle.
pub fn in_app_bundle(segments: &Vec<String>) -> (r: bool)
    ensures
        r == bundled(texts(segments@)),
{
    let ghost all = texts(segments@);
    let mut i: usize = 0;
    while i < segments.len() && i < segments.len() - 1
        invariant
            all == texts(segments@),
            i < segments.len() || segments.len() == 0,
            forall|j: int|
                0 <= j < i ==> !(#[trigger] all[j] == "Contents"@ && all[j + 1] == "MacOS"@),
        decreases segments.len() - i,
    {
        if same(segments[i].as_str(), "Contents") && same(segments[i + 1].as_str(), "MacOS") {
            assert(all[i as int] == "Contents"@);
            return true;
        }
        i = i + 1;
    }
    false
}

/// A line of the diagnostic file, written `secs` seconds after the epoch.
pub fn diag(secs: u64, msg: &str) -> (r: String)
    ensures
        r@ == "["@ + decimal(secs as nat) + "] "@ + msg@ + "\n"@,
{
    let mut r = "[".to_owned();
    r.append(decimal_text(secs).as_str());
    r.append("] ");
    r.append(msg);
    r.append("\n");
    r
}

/// The diagnostic note on an event.
pub fn notify_event(title: &str, body: &str) -> (r: String)
    ensures
        r@ == "notify: "@ + title@ + " :: "@ + body@,
{
    let mut r = "notify: ".to_owned();
    r.append(title);
    r.append(" :: ");
    r.append(body);
    r
}

/// Which toast is the latest.
#[derive(Debug, Clone, Copy, PartialEq, Eq, Structural)]
pub struct ToastClock {
    pub seq: u64,
}

impl ToastClock {
    /// The clock after one more toast, counted around at the end of the range.
    pub open spec fn advanced(self) -> ToastClock {
        ToastClock {
            seq: if self.seq == u64::MAX {
                0
            } else {
                (self.seq + 1) as u64
            },
        }
    }

    /// The clock after `n` more toasts.
    pub open spec fn after(self, n: nat) -> ToastClock
        decreases n,
    {
        if n == 0 {
            self
        } else {
            self.after((n - 1) as nat).advanced()
        }
    }

    /// The toast with the number `seq` is still the latest, so its end hides the window.
    pub open spec fn hides(self, seq: u64) -> bool {
        self.seq == seq
    }

    /// A toast is shown. Its number is returned.
    pub fn next(&mut self) -> (r: u64)
        ensures
            *final(self) == old(self).advanced(),
            r == final(self).seq,
    {
        self.seq = self.seq.wrapping_add(1);
        self.seq
    }

    /// The time of the toast with the number `seq` is over: whether it is hidden. A newer toast
    /// stays.
    pub fn expired(&self, seq: u64) -> (r: bool)
        ensures
            r == self.hides(seq),
    {
        self.seq == seq
    }
}

proof fn lemma_clock(clock: ToastClock, n: nat)
    requires
        n <= u64::MAX,
    ensures
        clock.after(n).seq == (if clock.seq + n <= u64::MAX {
            clock.seq + n
        } else {
            clock.seq + n - u64::MAX - 1
        }),
    decreases n,
{
    if n > 0 {
        lemma_clock(clock, (n - 1) as nat);
    }
}

/// The end of a toast hides the window if no other toast came after it, and leaves newer ones
/// alone, however many came, until the numbers have been counted around.
pub proof fn law_toast_superseded(clock: ToastClock, newer: nat)
    requires
        newer <= u64::MAX,
    ensures
        clock.advanced().after(newer).hides(clock.advanced().seq) <==> newer == 0,
{
    lemma_clock(clock.advanced(), newer);
}

impl Shared {
    /// A toast is shown: the toast window takes what it shows from here when it loads. What is
    /// returned is the diagnostic note.
    pub fn toast(&mut self, title: &str, body: &str) -> (r: String)
        ensures
            final(self)@ == (SharedView { toast: Some((title@, body@)), ..old(self)@ }),
            r@ == "toast: showing banner ("@ + title@ + ")"@,
    {
        self.toast = Some((title.to_owned(), body.to_owned()));
        let mut r = "toast: showing banner (".to_owned();
        r.append(title);
        r.append(")");
        r
    }

    /// The latest toast.
    pub fn toast_current(&self) -> (r: Option<(String, String)>)
        ensures
            crate::dsh::maybe_pair(r) == self@.toast,
    {
        match &self.toast {
            Some(toast) => Some((toast.0.clone(), toast.1.clone())),
            None => None,
        }
    }
}

/// What happens to the badge.
#[derive(Debug, Clone, Copy, PartialEq, Eq, Structural)]
pub enum Badge {
    Keep,
    Show(i64),
    Clear,
}

/// What is told the user: a title and a body.
#[derive(Debug)]
pub struct Notice {
    pub title: String,
    pub body: String,
}

/// What a frame leads to.
#[derive(Debug)]
pub struct Guidance {
    pub badge: Badge,
    pub notice: Option<Notice>,
    /// The main window comes forward.
    pub focus: bool,
}

/// The values of a [`Guidance`]; the notice is its title and body.
#[verifier::ext_equal]
pub struct GuidanceView {
    pub badge: Badge,
    pub notice: Option<(Seq<char>, Seq<char>)>,
    pub focus: bool,
}

impl View for Guidance {
    type V = GuidanceView;

    open spec fn view(&self) -> GuidanceView {
        GuidanceView {
            badge: self.badge,
            notice: match self.notice {
                Some(notice) => Some((notice.title@, notice.body@)),
                None => None,
            },
            focus: self.focus,
        }
    }
}

/// What a frame carries beside its kind, as far as it is read.
#[derive(Debug)]
pub struct FrameFields {
    /// The text under `toolName`.
    pub tool: Option<String>,
    /// The text under `reason`.
    pub reason: Option<String>,
    /// The length of the array under `questions`.
    pub questions: Option<u64>,
    /// The text under `message`.
    pub message: Option<String>,
    /// The text under `message` in what is under `error`.
    pub error_message: Option<String>,
}

/// The values of a [`FrameFields`].
#[verifier::ext_equal]
pub struct FrameFieldsView {
    pub tool: Option<Seq<char>>,
    pub reason: Option<Seq<char>>,
    pub questions: Option<nat>,
    pub message: Option<Seq<char>>,
    pub error_message: Option<Seq<char>>,
}

impl View for FrameFields {
    type V = FrameFieldsView;

    open spec fn view(&self) -> FrameFieldsView {
        FrameFieldsView {
            tool: maybe_text(self.tool),
            reason: maybe_text(self.reason),
            questions: match self.questions {
                Some(n) => Some(n as nat),
                None => None,
            },
            message: maybe_text(self.message),
            error_message: maybe_text(self.error_message),
        }
    }
}

/// What is read of a frame's JSON value.
pub open spec fn fields_in(extra: serde_json::Value) -> FrameFieldsView {
    FrameFieldsView {
        tool: text_member(extra, "toolName"@),
        reason: text_member(extra, "reason"@),
        questions: match json_member(extra, "questions"@) {
            Some(questions) => match json_items(questions) {
                Some(items) => Some(items.len()),
                None => None,
            },
            None => None,
        },
        message: text_member(extra, "message"@),
        error_message: match json_member(extra, "error"@) {
            Some(error) => text_member(error, "message"@),
            None => None,
        },
    }
}

/// A text, or another where it is missing.
pub open spec fn text_or(s: Option<Seq<char>>, other: Seq<char>) -> Seq<char> {
    match s {
        Some(s) => s,
        None => other,
    }
}

/// A frame of a kind asks for the user's attention, so the main window comes forward.
pub open spec fn needs_user(kind: Seq<char>) -> bool {
    kind == "approval/requested"@ || kind == "question/requested"@ || kind == "host/agent-error"@
}

/// Whether a frame of a kind brings the main window forward.
pub fn brings_forward(kind: &str) -> (r: bool)
    ensures
        r == needs_user(kind@),
{
    same(kind, "approval/requested") || same(kind, "question/requested") || same(
        kind,
        "host/agent-error",
    )
}

/// What a frame of a kind leads to.
pub open spec fn guidance(kind: Seq<char>, fields: FrameFieldsView) -> GuidanceView {
    if kind == "approval/requested"@ {
        GuidanceView {
            badge: Badge::Show(1),
            notice: Some(
                (
                    "dsh 请求权限"@,
                    "dsh 想要执行「"@ + text_or(fields.tool, "未知工具"@) + "」"@ + (
                    match fields.reason {
                        Some(reason) => "（"@ + reason + "）"@,
                        None => ""@,
                    }) + "，请在窗口中批准或拒绝。"@,
                ),
            ),
            focus: needs_user(kind),
        }
    } else if kind == "question/requested"@ {
        GuidanceView {
            badge: Badge::Show(1),
            notice: Some(
                (
                    "dsh 需要你的回答"@,
                    "dsh 向你提出了 "@ + decimal(
                        match fields.questions {
                            Some(n) => n,
                            None => 1,
                        },
                    ) + " 个问题，请在窗口中回答。"@,
                ),
            ),
            focus: needs_user(kind),
        }
    } else if kind == "approval/resolved"@ || kind == "question/resolved"@ {
        GuidanceView { badge: Badge::Clear, notice: None, focus: needs_user(kind) }
    } else if kind == "host/agent-error"@ {
        GuidanceView {
            badge: Badge::Show(1),
            notice: Some(("dsh 会话出错"@, text_or(fields.message, "未知错误"@))),
            focus: needs_user(kind),
        }
    } else if kind == "stream/error"@ {
        GuidanceView {
            badge: Badge::Keep,
            notice: Some(("dsh 事件流错误"@, text_or(fields.error_message, "未知错误"@))),
            focus: needs_user(kind),
        }
    } else {
        GuidanceView { badge: Badge::Keep, notice: None, focus: needs_user(kind) }
    }
}

/// The kinds of frames that bring the main window forward are exactly those that show the badge,
/// and each of them comes with a notice, whatever the frame carries.
pub proof fn law_attention(kind: Seq<char>, fields: FrameFieldsView)
    ensures
        guidance(kind, fields).focus == needs_user(kind),
        guidance(kind, fields).badge == Badge::Show(1) <==> needs_user(kind),
        needs_user(kind) ==> guidance(kind, fields).notice is Some,
{
    reveal_strlit("approval/requested");
    reveal_strlit("question/requested");
    reveal_strlit("approval/resolved");
    reveal_strlit("question/resolved");
    reveal_strlit("host/agent-error");
    assert("host/agent-error"@.len() != "approval/resolved"@.len());
    assert("host/agent-error"@.len() != "question/resolved"@.len());
}

fn own(s: Option<&str>) -> (r: Option<String>)
    ensures
        match s {
            Some(s) => maybe_text(r) == Some(s@),
            None => r is None,
        },
{
    match s {
        Some(s) => Some(s.to_owned()),
        None => None,
    }
}

fn own_or(s: Option<String>, other: &str) -> (r: String)
    ensures
        r@ == text_or(maybe_text(s), other@),
{
    match s {
        Some(s) => s,
        None => other.to_owned(),
    }
}

/// Reads the fields of a frame.
pub fn read_fields(extra: &serde_json::Value) -> (r: FrameFields)
    ensures
        r@ == fields_in(*extra),
{
    let questions: Option<u64> = match json_get(extra, "questions") {
        Some(questions) => match json_as_array(questions) {
            Some(items) => Some(items.len() as u64),
            None => None,
        },
        None => None,
    };
    let error_message = match json_get(extra, "error") {
        Some(error) => own(json_text_at(error, "message")),
        None => None,
    };
    FrameFields {
        tool: own(json_text_at(extra, "toolName")),
        reason: own(json_text_at(extra, "reason")),
        questions,
        message: own(json_text_at(extra, "message")),
        error_message,
    }
}

fn notice(badge: Badge, title: &str, body: String, focus: bool) -> (r: Guidance)
    ensures
        r@ == (GuidanceView { badge, notice: Some((title@, body@)), focus }),
{
    Guidance { badge, notice: Some(Notice { title: title.to_owned(), body }), focus }
}

/// Decides what a frame leads to, by its kind and fields.
pub fn frame_guidance(kind: &str, fields: FrameFields) -> (r: Guidance)
    ensures
        r@ == guidance(kind@, fields@),
{
    let focus = brings_forward(kind);
    if same(kind, "approval/requested") {
        let mut body = "dsh 想要执行「".to_owned();
        body.append(own_or(fields.tool, "未知工具").as_str());
        body.append("」");
        let reason = match fields.reason {
            Some(reason) => {
                let mut r = "（".to_owned();
                r.append(reason.as_str());
                r.append("）");
                r
            },
            None => "".to_owned(),
        };
        body.append(reason.as_str());
        body.append("，请在窗口中批准或拒绝。");
        return notice(Badge::Show(1), "dsh 请求权限", body, focus);
    }
    if same(kind, "question/requested") {
        let n: u64 = match fields.questions {
            Some(n) => n,
            None => 1,
        };
        let mut body = "dsh 向你提出了 ".to_owned();
        body.append(decimal_text(n).as_str());
        body.append(" 个问题，请在窗口中回答。");
        return notice(Badge::Show(1), "dsh 需要你的回答", body, focus);
    }
    if same(kind, "approval/resolved") || same(kind, "question/resolved") {
        return Guidance { badge: Badge::Clear, notice: None, focus };
    }
    if same(kind, "host/agent-error") {
        return notice(Badge::Show(1), "dsh 会话出错", own_or(fields.message, "未知错误"), focus);
    }
    if same(kind, "stream/error") {
        return notice(
            Badge::Keep,
            "dsh 事件流错误",
            own_or(fields.error_message, "未知错误"),
            focus,
        );
    }
    Guidance { badge: Badge::Keep, notice: None, focus }
}

impl Shared {
    /// A frame of a kind came on a stream: it is logged, and what it leads to is returned.
    pub fn handle_frame(&mut self, kind: &str, extra: &serde_json::Value, stream: &str) -> (r:
        Guidance)
        ensures
            final(self)@ == old(self)@.logged("[listener] "@ + stream@ + ": "@ + kind@),
            r@ == guidance(kind@, fields_in(*extra)),
    {
        let mut line = "[listener] ".to_owned();
        line.append(stream);
        line.append(": ");
        line.append(kind);
        self.push_line(line);
        frame_guidance(kind, read_fields(extra))
    }
}

/// Where the events of the child at `http_url` are served, under `path`.
pub open spec fn stream_address(http_url: Seq<char>, path: Seq<char>) -> Seq<char> {
    replaced(http_url, "http://"@, "ws://"@) + path
}

/// The two streams of the child at an address: their names and where they are served.
pub fn spawn(http_url: &str) -> (r: Vec<(String, String)>)
    ensures
        crate::launch::pairs(r@) == seq![
            ("mux"@, stream_address(http_url@, MUX_PATH@)),
            ("host"@, stream_address(http_url@, HOST_PATH@)),
        ],
{
    proof {
        reveal_strlit("http://");
    }
    let base = replace(http_url, "http://", "ws://");
    let mut r: Vec<(String, String)> = Vec::new();
    r.push(("mux".to_owned(), plus(base.as_str(), MUX_PATH)));
    r.push(("host".to_owned(), plus(base.as_str(), HOST_PATH)));
    assert(crate::launch::pairs(r@) =~= seq![
        ("mux"@, stream_address(http_url@, MUX_PATH@)),
        ("host"@, stream_address(http_url@, HOST_PATH@)),
    ]);
    r
}

proof fn lemma_replaced_nothing(s: Seq<char>, from: Seq<char>, to: Seq<char>)
    requires
        from.len() > 0,
        forall|i: int| 0 <= i < s.len() ==> #[trigger] s[i] != from[0],
    ensures
        replaced(s, from, to) == s,
    decreases s.len(),
{
    if s.len() > 0 {
        assert(!from.is_prefix_of(s)) by {
            if from.is_prefix_of(s) {
                assert(s.take(from.len() as int)[0] == s[0]);
            }
        }
        let rest = s.skip(1);
        assert forall|i: int| 0 <= i < rest.len() implies #[trigger] rest[i] != from[0] by {
            assert(rest[i] == s[i + 1]);
        }
        lemma_replaced_nothing(rest, from, to);
        assert(seq![s[0]] + rest =~= s);
    }
}

/// A child that is ready at a port serves its events at that port.
pub proof fn law_stream_address(port: u16, path: Seq<char>)
    ensures
        stream_address(child_url(port), path) == "ws://127.0.0.1:"@ + decimal(port as nat) + path,
{
    let digits = decimal(port as nat);
    let host = "127.0.0.1:"@;
    let url = child_url(port);
    crate::text::lemma_decimal(port as nat);
    reveal_strlit("http://");
    reveal_strlit("ws://");
    reveal_strlit("127.0.0.1:");
    reveal_strlit("http://127.0.0.1:");
    reveal_strlit("ws://127.0.0.1:");
    assert("http://127.0.0.1:"@ =~= "http://"@ + host);
    assert(url =~= "http://"@ + (host + digits));
    assert(url.take(7) =~= "http://"@);
    let rest = host + digits;
    assert(url.skip(7) =~= rest);
    assert forall|i: int| 0 <= i < rest.len() implies #[trigger] rest[i] != 'h' by {
        if i >= host.len() {
            assert(rest[i] == digits[i - host.len()]);
            assert(crate::text::is_digit(digits[i - host.len()]));
        }
    }
    lemma_replaced_nothing(rest, "http://"@, "ws://"@);
    assert("ws://"@ + host =~= "ws://127.0.0.1:"@);
    assert("ws://"@ + rest + path =~= "ws://127.0.0.1:"@ + digits + path);
}

/// What happened on a stream.
#[derive(Debug, Clone, Copy, PartialEq, Eq, Structural)]
pub enum StreamEvent {
    /// The stream is about to connect.
    Idle,
    Connected,
    /// The child is gone, or does not listen yet.
    Refused,
    /// A text message came.
    Text,
    /// A message that closes the stream came.
    Close,
    /// Any other message, or an error, came.
    Other,
    /// There are no more messages.
    Ended,
}

/// What a stream does next.
#[derive(Debug, Clone, Copy, PartialEq, Eq, Structural)]
pub enum StreamStep {
    /// A newer child has replaced the one that it listens to.
    Stop,
    Connect,
    /// Wait for the next message.
    Read,
    /// Deal with the text as a frame, and wait for the next message.
    Handle,
    /// Wait, and begin again.
    Retry,
}

impl SharedView {
    /// What a stream of the child `id` does next.
    pub open spec fn stream_step(self, id: u64, event: StreamEvent) -> StreamStep {
        match event {
            StreamEvent::Connected => StreamStep::Read,
            StreamEvent::Refused => StreamStep::Retry,
            StreamEvent::Ended => StreamStep::Retry,
            _ => if self.seq != id {
                StreamStep::Stop
            } else {
                match event {
                    StreamEvent::Idle => StreamStep::Connect,
                    StreamEvent::Text => StreamStep::Handle,
                    StreamEvent::Close => StreamStep::Retry,
                    _ => StreamStep::Read,
                }
            },
        }
    }
}

impl Shared {
    /// Something happened on a stream of the child `id`.
    pub fn run_stream(&self, id: u64, event: StreamEvent) -> (r: StreamStep)
        ensures
            r == self@.stream_step(id, event),
    {
        match event {
            StreamEvent::Connected => {
                return StreamStep::Read;
            },
            StreamEvent::Refused => {
                return StreamStep::Retry;
            },
            StreamEvent::Ended => {
                return StreamStep::Retry;
            },
            _ => {},
        }
        if self.seq != id {
            return StreamStep::Stop;
        }
        match event {
            StreamEvent::Idle => StreamStep::Connect,
            StreamEvent::Text => StreamStep::Handle,
            StreamEvent::Close => StreamStep::Retry,
            _ => StreamStep::Read,
        }
    }
}

/// Once a new start has begun, the streams of an earlier child connect no more and hand on no
/// frame.
pub proof fn law_stream_stops(s: SharedView, id: u64, event: StreamEvent)
    requires
        id != s.begun().seq,
    ensures
        s.begun().stream_step(id, StreamEvent::Idle) is Stop,
        !(s.begun().stream_step(id, event) is Handle),
        !(s.begun().stream_step(id, event) is Connect),
{
}

/// The names of the authorization statuses; a number without a name is unknown.
pub proof fn law_status_words(s: i64)
    ensures
        status_word(0) == "notDetermined"@,
        status_word(1) == "denied"@,
        status_word(2) == "authorized"@,
        status_word(3) == "provisional"@,
        status_word(4) == "ephemeral"@,
        s < 0 || s > 4 ==> status_word(s) == "unknown"@,
{
}

/// An executable stands in a bundle exactly if its path has `Contents` and right behind it `MacOS`.
pub proof fn law_bundled(front: Seq<Seq<char>>, rest: Seq<Seq<char>>, all: Seq<Seq<char>>)
    ensures
        bundled(front + seq!["Contents"@, "MacOS"@] + rest),
        bundled(all) ==> exists|i: int|
            0 <= i < all.len() - 1 && #[trigger] all[i] == "Contents"@ && all[i + 1] == "MacOS"@,
        (forall|i: int| 0 <= i < all.len() ==> #[trigger] all[i] != "Contents"@) ==> !bundled(all),
        (forall|i: int| 0 <= i < all.len() ==> #[trigger] all[i] != "MacOS"@) ==> !bundled(all),
{
    let path = front + seq!["Contents"@, "MacOS"@] + rest;
    let n = front.len() as int;
    assert(path[n] == "Contents"@ && path[n + 1] == "MacOS"@);
    if bundled(all) {
        let i = choose|i: int|
            0 <= i < all.len() - 1 && #[trigger] all[i] == "Contents"@ && all[i + 1] == "MacOS"@;
        assert(all[i + 1] == "MacOS"@);
    }
}

/// Toasts are numbered one after the other, and after the last number from the first one on.
pub proof fn law_toast_numbers(clock: ToastClock, seq: u64)
    ensures
        clock.seq < u64::MAX ==> clock.advanced().seq == clock.seq + 1,
        clock.seq == u64::MAX ==> clock.advanced().seq == 0,
        clock.hides(seq) <==> clock.seq == seq,
{
}

/// What is read of a frame stands under these names; a count is that of the questions.
pub proof fn law_frame_fields(extra: serde_json::Value, under: serde_json::Value)
    ensures
        fields_in(extra).tool == text_member(extra, "toolName"@),
        fields_in(extra).reason == text_member(extra, "reason"@),
        fields_in(extra).message == text_member(extra, "message"@),
        json_member(extra, "error"@) is None ==> fields_in(extra).error_message is None,
        json_member(extra, "error"@) == Some(under) ==> fields_in(extra).error_message
            == text_member(under, "message"@),
        json_member(extra, "questions"@) is None ==> fields_in(extra).questions is None,
        json_member(extra, "questions"@) == Some(under) ==> {
            &&& json_items(under) is None ==> fields_in(extra).questions is None
            &&& json_items(under) matches Some(items) ==> fields_in(extra).questions == Some(
                items.len(),
            )
        },
{
}

/// What each kind of frame tells the user: the tool and the reason of a request, the number of
/// questions, the message of an error; and a word in place of what is missing.
pub proof fn law_notices(fields: FrameFieldsView, kind: Seq<char>)
    ensures
        ({
            let g = guidance("approval/requested"@, fields);
            let tool = if fields.tool is Some {
                fields.tool->0
            } else {
                "未知工具"@
            };
            &&& g.badge == Badge::Show(1) && g.focus
            &&& g.notice is Some && g.notice->Some_0.0 == "dsh 请求权限"@
            &&& fields.reason matches Some(reason) ==> g.notice->Some_0.1 == "dsh 想要执行「"@ + tool
                + "」（"@ + reason + "），请在窗口中批准或拒绝。"@
            &&& fields.reason is None ==> g.notice->Some_0.1 == "dsh 想要执行「"@ + tool
                + "」，请在窗口中批准或拒绝。"@
        }),
        ({
            let g = guidance("question/requested"@, fields);
            let count: nat = if fields.questions is Some {
                fields.questions->0
            } else {
                1
            };
            &&& g.badge == Badge::Show(1) && g.focus
            &&& g.notice == Some(
                (
                    "dsh 需要你的回答"@,
                    "dsh 向你提出了 "@ + decimal(count) + " 个问题，请在窗口中回答。"@,
                ),
            )
        }),
        guidance("approval/resolved"@, fields) == (GuidanceView {
            badge: Badge::Clear,
            notice: None,
            focus: false,
        }),
        guidance("question/resolved"@, fields) == (GuidanceView {
            badge: Badge::Clear,
            notice: None,
            focus: false,
        }),
        ({
            let g = guidance("host/agent-error"@, fields);
            &&& g.badge == Badge::Show(1) && g.focus
            &&& g.notice is Some && g.notice->Some_0.0 == "dsh 会话出错"@
            &&& fields.message matches Some(message) ==> g.notice->Some_0.1 == message
            &&& fields.message is None ==> g.notice->Some_0.1 == "未知错误"@
        }),
        ({
            let g = guidance("stream/error"@, fields);
            &&& g.badge == Badge::Keep && !g.focus
            &&& g.notice is Some && g.notice->Some_0.0 == "dsh 事件流错误"@
            &&& fields.error_message matches Some(message) ==> g.notice->Some_0.1 == message
            &&& fields.error_message is None ==> g.notice->Some_0.1 == "未知错误"@
        }),
        kind != "approval/requested"@ && kind != "question/requested"@ && kind
            != "approval/resolved"@ && kind != "question/resolved"@ && kind != "host/agent-error"@
            && kind != "stream/error"@ ==> guidance(kind, fields) == (GuidanceView {
            badge: Badge::Keep,
            notice: None,
            focus: false,
        }),
{
    reveal_strlit("approval/requested");
    reveal_strlit("question/requested");
    reveal_strlit("approval/resolved");
    reveal_strlit("question/resolved");
    reveal_strlit("host/agent-error");
    reveal_strlit("stream/error");
    assert("approval/requested"@[0] == 'a' && "approval/requested"@.len() == 18);
    assert("question/requested"@[0] == 'q' && "question/requested"@.len() == 18);
    assert("approval/resolved"@[0] == 'a' && "approval/resolved"@.len() == 17);
    assert("question/resolved"@[0] == 'q' && "question/resolved"@.len() == 17);
    assert("host/agent-error"@[0] == 'h');
    assert("stream/error"@[0] == 's');
    reveal_strlit("」");
    reveal_strlit("（");
    reveal_strlit("）");
    reveal_strlit("");
    reveal_strlit("，请在窗口中批准或拒绝。");
    reveal_strlit("」（");
    reveal_strlit("），请在窗口中批准或拒绝。");
    reveal_strlit("」，请在窗口中批准或拒绝。");
    let g = guidance("approval/requested"@, fields);
    let tool = text_or(fields.tool, "未知工具"@);
    if fields.reason is Some {
        assert(g.notice->Some_0.1 =~= "dsh 想要执行「"@ + tool + "」（"@ + fields.reason->0
            + "），请在窗口中批准或拒绝。"@);
    } else {
        assert(g.notice->Some_0.1 =~= "dsh 想要执行「"@ + tool + "」，请在窗口中批准或拒绝。"@);
    }
}

/// What happens on a stream of the latest child is acted on; of an earlier one a stream goes on only
/// with a connection that it has just made, and otherwise stops or begins again.
pub proof fn law_stream_steps(s: SharedView, id: u64)
    ensures
        s.stream_step(id, StreamEvent::Connected) is Read,
        s.stream_step(id, StreamEvent::Refused) is Retry,
        s.stream_step(id, StreamEvent::Ended) is Retry,
        s.seq == id ==> {
            &&& s.stream_step(id, StreamEvent::Idle) is Connect
            &&& s.stream_step(id, StreamEvent::Text) is Handle
            &&& s.stream_step(id, StreamEvent::Close) is Retry
            &&& s.stream_step(id, StreamEvent::Other) is Read
        },
        s.seq != id ==> {
            &&& s.stream_step(id, StreamEvent::Idle) is Stop
            &&& s.stream_step(id, StreamEvent::Text) is Stop
            &&& s.stream_step(id, StreamEvent::Close) is Stop
            &&& s.stream_step(id, StreamEvent::Other) is Stop
        },
{
}

/// What a frame leads to is shown as it is; a notice is its title and its body.
pub proof fn law_guidance_shown(x: Guidance)
    ensures
        x@.badge == x.badge,
        x.notice is None ==> x@.notice is None,
        x.notice matches Some(notice) ==> x@.notice == Some((notice.title@, notice.body@)),
        x@.focus == x.focus,
{
}

/// The fields of a frame are shown as they are.
pub proof fn law_frame_fields_shown(x: FrameFields)
    ensures
        x.tool is None ==> x@.tool is None,
        x.tool matches Some(s) ==> x@.tool == Some(s@),
        x.reason is None ==> x@.reason is None,
        x.reason matches Some(s) ==> x@.reason == Some(s@),
        x.questions is None ==> x@.questions is None,
        x.questions matches Some(n) ==> x@.questions == Some(n as nat),
        x.message is None ==> x@.message is None,
        x.message matches Some(s) ==> x@.message == Some(s@),
        x.error_message is None ==> x@.error_message is None,
        x.error_message matches Some(s) ==> x@.error_message == Some(s@),
{
}

/// The events of a child that is ready at a port are served at that port, under the two paths; at any
/// other address only the scheme changes.
pub proof fn law_streams(port: u16, url: Seq<char>, path: Seq<char>)
    ensures
        stream_address(child_url(port), MUX_PATH@) == "ws://127.0.0.1:"@ + decimal(port as nat)
            + "/api/events.mux"@,
        stream_address(child_url(port), HOST_PATH@) == "ws://127.0.0.1:"@ + decimal(port as nat)
            + "/api/events.host"@,
        stream_address(url, path) == replaced(url, "http://"@, "ws://"@) + path,
{
    law_stream_address(port, MUX_PATH@);
    law_stream_address(port, HOST_PATH@);
}

} // verus!
