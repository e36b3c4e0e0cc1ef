use dsh_desktop::dsh::Shared;
use dsh_desktop::listener::brings_forward;
use dsh_desktop::listener::delivery_note;
use dsh_desktop::listener::diag;
use dsh_desktop::listener::frame_guidance;
use dsh_desktop::listener::in_app_bundle;
use dsh_desktop::listener::notify_event;
use dsh_desktop::listener::notify_if_authorized;
use dsh_desktop::listener::spawn;
use dsh_desktop::listener::status_name;
use dsh_desktop::listener::status_note;
use dsh_desktop::listener::Badge;
use dsh_desktop::listener::BannerStep;
use dsh_desktop::listener::FrameFields;
use dsh_desktop::listener::StreamEvent;
use dsh_desktop::listener::StreamStep;
use dsh_desktop::listener::ToastClock;

fn frame(kind: &str, extra: &str) -> (Badge, Option<(String, String)>) {
    let mut s = Shared::default();
    let value: serde_json::Value = serde_json::from_str(extra).unwrap();
    let g = s.handle_frame(kind, &value, "mux");
    assert_eq!(s.ring, vec![format!("[listener] mux: {}", kind)]);
    assert_eq!(g.focus, brings_forward(kind));
    assert_eq!(g.focus, g.badge == Badge::Show(1));
    (g.badge, g.notice.map(|n| (n.title, n.body)))
}

fn told(title: &str, body: &str) -> Option<(String, String)> {
    Some((title.to_string(), body.to_string()))
}

#[test]
fn approvals() {
    assert_eq!(
        frame("approval/requested", "{\"toolName\":\"bash\",\"reason\":\"rm\"}"),
        (Badge::Show(1), told("dsh 请求权限", "dsh 想要执行「bash」（rm），请在窗口中批准或拒绝。"))
    );
    assert_eq!(
        frame("approval/requested", "{\"toolName\":3}"),
        (Badge::Show(1), told("dsh 请求权限", "dsh 想要执行「未知工具」，请在窗口中批准或拒绝。"))
    );
    assert_eq!(frame("approval/resolved", "{}"), (Badge::Clear, None));
}

#[test]
fn questions() {
    assert_eq!(
        frame("question/requested", "{\"questions\":[1,{},\"x\"]}"),
        (Badge::Show(1), told("dsh 需要你的回答", "dsh 向你提出了 3 个问题，请在窗口中回答。"))
    );
    assert_eq!(
        frame("question/requested", "{\"questions\":\"x\"}"),
        (Badge::Show(1), told("dsh 需要你的回答", "dsh 向你提出了 1 个问题，请在窗口中回答。"))
    );
    assert_eq!(
        frame("question/requested", "{\"questions\":[]}").1,
        told("dsh 需要你的回答", "dsh 向你提出了 0 个问题，请在窗口中回答。")
    );
    assert_eq!(frame("question/resolved", "{}"), (Badge::Clear, None));
}

#[test]
fn errors() {
    assert_eq!(frame("host/agent-error", "{\"message\":\"boom\"}"), (Badge::Show(1), told("dsh 会话出错", "boom")));
    assert_eq!(frame("host/agent-error", "{}"), (Badge::Show(1), told("dsh 会话出错", "未知错误")));
    assert_eq!(frame("stream/error", "{\"error\":{\"message\":\"eof\"}}"), (Badge::Keep, told("dsh 事件流错误", "eof")));
    assert_eq!(frame("stream/error", "{\"message\":\"eof\"}"), (Badge::Keep, told("dsh 事件流错误", "未知错误")));
}

#[test]
fn other_frames_are_only_logged() {
    assert_eq!(frame("session/started", "{\"message\":\"x\"}"), (Badge::Keep, None));
    assert_eq!(frame("", "null"), (Badge::Keep, None));
}

#[test]
fn guidance_by_fields() {
    let fields = FrameFields { tool: None, reason: Some("r".to_string()), questions: Some(2), message: None, error_message: None };
    let g = frame_guidance("approval/requested", fields);
    assert_eq!(g.notice.map(|n| n.body), Some("dsh 想要执行「未知工具」（r），请在窗口中批准或拒绝。".to_string()));
}

#[test]
fn what_brings_the_window_forward() {
    for kind in ["approval/requested", "question/requested", "host/agent-error"] {
        assert!(brings_forward(kind));
    }
    for kind in ["approval/resolved", "question/resolved", "stream/error", "other", ""] {
        assert!(!brings_forward(kind));
    }
}

#[test]
fn delivery() {
    assert_eq!(delivery_note(Some("denied")), Some("sysnotify: delivery error: denied".to_string()));
    assert_eq!(delivery_note(None), None);
}

#[test]
fn authorization() {
    let names: Vec<&str> = (-1..6).map(status_name).collect();
    assert_eq!(names, vec!["unknown", "notDetermined", "denied", "authorized", "provisional", "ephemeral", "unknown"]);
    assert_eq!(status_note(-1), "sysnotify: status=-1 (unknown)");
    let steps: Vec<BannerStep> = (-1..5).map(notify_if_authorized).collect();
    assert_eq!(
        steps,
        vec![BannerStep::Skip, BannerStep::AskAgain, BannerStep::Skip, BannerStep::Send, BannerStep::Send, BannerStep::Skip]
    );
}

#[test]
fn bundles() {
    let path = |p: &str| p.split('/').map(|s| s.to_string()).collect::<Vec<String>>();
    assert!(in_app_bundle(&path("/Applications/dsh.app/Contents/MacOS/dsh")));
    assert!(!in_app_bundle(&path("/src/target/debug/dsh")));
    assert!(!in_app_bundle(&path("/Contents/x/MacOS")));
    assert!(!in_app_bundle(&Vec::new()));
}

#[test]
fn notes() {
    assert_eq!(diag(12, "x"), "[12] x\n");
    assert_eq!(notify_event("t", "b"), "notify: t :: b");
}

#[test]
fn toasts() {
    let mut s = Shared::default();
    assert_eq!(s.toast_current(), None);
    assert_eq!(s.toast("t", "b"), "toast: showing banner (t)");
    assert_eq!(s.toast_current(), Some(("t".to_string(), "b".to_string())));
    let mut clock = ToastClock { seq: 0 };
    let first = clock.next();
    assert!(clock.expired(first));
    let second = clock.next();
    assert!(!clock.expired(first));
    assert!(clock.expired(second));
    for _ in 0..1000 {
        clock.next();
        assert!(!clock.expired(first) && !clock.expired(second));
    }
    let mut clock = ToastClock { seq: u64::MAX };
    assert_eq!(clock.next(), 0);
}

#[test]
fn stream_addresses() {
    assert_eq!(
        spawn("http://127.0.0.1:8080"),
        vec![
            ("mux".to_string(), "ws://127.0.0.1:8080/api/events.mux".to_string()),
            ("host".to_string(), "ws://127.0.0.1:8080/api/events.host".to_string()),
        ]
    );
}

#[test]
fn streams() {
    let mut s = Shared::default();
    let id = s.start();
    assert_eq!(s.run_stream(id, StreamEvent::Idle), StreamStep::Connect);
    assert_eq!(s.run_stream(id, StreamEvent::Connected), StreamStep::Read);
    assert_eq!(s.run_stream(id, StreamEvent::Refused), StreamStep::Retry);
    assert_eq!(s.run_stream(id, StreamEvent::Text), StreamStep::Handle);
    assert_eq!(s.run_stream(id, StreamEvent::Other), StreamStep::Read);
    assert_eq!(s.run_stream(id, StreamEvent::Close), StreamStep::Retry);
    assert_eq!(s.run_stream(id, StreamEvent::Ended), StreamStep::Retry);
    s.start();
    assert_eq!(s.run_stream(id, StreamEvent::Idle), StreamStep::Stop);
    assert_eq!(s.run_stream(id, StreamEvent::Text), StreamStep::Stop);
    assert_eq!(s.run_stream(id, StreamEvent::Ended), StreamStep::Retry);
}
