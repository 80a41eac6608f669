use asr_client::json::{Json, JsonNumber};
use asr_client::ptt_lab::{
    lab_command, lab_config, lab_event_payload, HookAction, KeyEvent, LabConfig, LabKeyTracker,
    LabPhase, VK_RCONTROL, WM_KEYDOWN, WM_KEYUP, WM_SYSKEYDOWN, WM_SYSKEYUP,
};

fn obj(members: Vec<(&str, Json)>) -> Json {
    Json::Object(members.into_iter().map(|(k, v)| (k.to_string(), v)).collect())
}

fn ev(vk: u32, msg: u32) -> KeyEvent {
    KeyEvent { n_code: 0, vk, msg }
}

#[test]
fn config_defaults() {
    let c = lab_config(&Json::Null);
    assert_eq!(c, LabConfig { enabled: false, vk_code: VK_RCONTROL });
    assert_eq!(VK_RCONTROL, 0xA3);
    let c = lab_config(&obj(vec![("enabled", Json::Bool(true))]));
    assert_eq!(c, LabConfig { enabled: true, vk_code: 0xA3 });
    let c = lab_config(&obj(vec![("enabled", Json::Str("yes".into()))]));
    assert!(!c.enabled);
}

#[test]
fn config_vk_code() {
    let c = lab_config(&obj(vec![("vkCode", Json::Number(JsonNumber::PosInt(0x41)))]));
    assert_eq!(c.vk_code, 0x41);
    let c = lab_config(&obj(vec![("vkCode", Json::Number(JsonNumber::PosInt(0x1_0000_0042)))]));
    assert_eq!(c.vk_code, 0x42);
    let c = lab_config(&obj(vec![("vkCode", Json::Number(JsonNumber::NegInt(-1)))]));
    assert_eq!(c.vk_code, 0xA3);
    let c = lab_config(&obj(vec![("vkCode", Json::Number(JsonNumber::Float))]));
    assert_eq!(c.vk_code, 0xA3);
}

#[test]
fn reconfiguring() {
    let on = LabConfig { enabled: true, vk_code: 7 };
    let off = LabConfig { enabled: false, vk_code: 7 };
    let c = lab_command(true, 99, on);
    assert!(c.stop);
    assert_eq!(c.post_quit_to, Some(99));
    assert_eq!(c.start_vk, Some(7));
    let c = lab_command(true, 0, off);
    assert!(c.stop);
    assert_eq!(c.post_quit_to, None);
    assert_eq!(c.start_vk, None);
    let c = lab_command(false, 5, on);
    assert!(!c.stop);
    assert_eq!(c.post_quit_to, None);
}

#[test]
fn press_is_reported_once_and_release_once() {
    let mut t = LabKeyTracker::new(0xA3);
    assert_eq!(t.on_key(ev(0xA3, WM_KEYDOWN)), HookAction::Report(LabPhase::Down));
    assert_eq!(t.on_key(ev(0xA3, WM_KEYDOWN)), HookAction::Swallow);
    assert_eq!(t.on_key(ev(0xA3, WM_SYSKEYDOWN)), HookAction::Swallow);
    assert!(t.key_down);
    assert_eq!(t.on_key(ev(0xA3, WM_SYSKEYUP)), HookAction::Report(LabPhase::Up));
    assert_eq!(t.on_key(ev(0xA3, WM_KEYUP)), HookAction::Swallow);
    assert!(!t.key_down);
}

#[test]
fn other_keys_and_messages_pass_on() {
    let mut t = LabKeyTracker::new(0xA3);
    assert_eq!(t.on_key(ev(0x41, WM_KEYDOWN)), HookAction::PassOn);
    assert_eq!(t.on_key(ev(0xA3, 0x0102)), HookAction::PassOn);
    assert_eq!(t.on_key(KeyEvent { n_code: -1, vk: 0xA3, msg: WM_KEYDOWN }), HookAction::PassOn);
    assert!(!t.key_down);
}

#[test]
fn reports_alternate_over_a_long_run() {
    let mut t = LabKeyTracker::new(0xA3);
    let msgs = [WM_KEYDOWN, WM_KEYDOWN, WM_KEYUP, WM_KEYUP, WM_SYSKEYDOWN, WM_KEYUP, WM_KEYDOWN];
    let mut reports = Vec::new();
    for m in msgs {
        if let HookAction::Report(p) = t.on_key(ev(0xA3, m)) {
            reports.push(p);
        }
    }
    assert_eq!(reports, vec![LabPhase::Down, LabPhase::Up, LabPhase::Down, LabPhase::Up, LabPhase::Down]);
    assert!(t.key_down);
}

#[test]
fn event_payload() {
    let p = lab_event_payload(LabPhase::Down, 0xA3, 1_700_000_000_000);
    assert_eq!(p.get("phase").and_then(|v| v.as_str()), Some("down"));
    assert_eq!(p.get("vk").and_then(|v| v.as_u64()), Some(0xA3));
    assert_eq!(p.get("timestamp").and_then(|v| v.as_u64()), Some(1_700_000_000_000));
    let p = lab_event_payload(LabPhase::Up, 1, -5);
    assert_eq!(p.get("phase").and_then(|v| v.as_str()), Some("up"));
    assert!(matches!(p.get("timestamp"), Some(Json::Number(JsonNumber::NegInt(-5)))));
}
