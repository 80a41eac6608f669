use asr_client::json::Json;
use asr_client::shortcuts::{
    emits_on, hands_free_key, is_combo_accelerator, ptt_key, shortcut_plan, ShortcutTrigger,
};

fn obj(members: Vec<(&str, Json)>) -> Json {
    Json::Object(members.into_iter().map(|(k, v)| (k.to_string(), v)).collect())
}

fn s(t: &str) -> Json {
    Json::Str(t.to_string())
}

#[test]
fn key_settings_default() {
    assert_eq!(ptt_key(&Json::Null), "ShiftRight");
    assert_eq!(ptt_key(&s("F8")), "F8");
    assert_eq!(hands_free_key(&Json::Null), "AltRight");
    assert_eq!(hands_free_key(&Json::Bool(true)), "AltRight");
    assert_eq!(hands_free_key(&s("Ctrl+H")), "Ctrl+H");
}

#[test]
fn combinations_hold_a_plus() {
    assert!(is_combo_accelerator("Ctrl+Shift+A"));
    assert!(is_combo_accelerator("+"));
    assert!(!is_combo_accelerator("AltRight"));
    assert!(!is_combo_accelerator(""));
    assert!(!is_combo_accelerator("功能键"));
}

#[test]
fn single_hands_free_key_is_not_registered() {
    assert!(shortcut_plan(&Json::Null, &Json::Null).is_empty());
    assert!(shortcut_plan(&s("AltRight"), &obj(vec![])).is_empty());
}

#[test]
fn full_plan() {
    let presets = obj(vec![
        ("polish", s("Ctrl+1")),
        ("single", s("F9")),
        ("empty", s("")),
        ("number", Json::Bool(false)),
        ("translate", s("Ctrl+Alt+T")),
    ]);
    let plan = shortcut_plan(&s("Ctrl+Space"), &presets);
    assert_eq!(plan.len(), 3);
    assert_eq!(plan[0].accelerator, "Ctrl+Space");
    assert_eq!(plan[0].event, "toggle-hands-free");
    assert_eq!(plan[0].trigger, ShortcutTrigger::EveryEvent);
    assert_eq!(plan[0].payload.get("source").and_then(|v| v.as_str()), Some("globalShortcut"));
    assert_eq!(plan[1].accelerator, "Ctrl+1");
    assert_eq!(plan[1].event, "switch-preset");
    assert_eq!(plan[1].trigger, ShortcutTrigger::PressOnly);
    assert_eq!(plan[1].payload.get("presetId").and_then(|v| v.as_str()), Some("polish"));
    assert_eq!(plan[2].accelerator, "Ctrl+Alt+T");
    assert_eq!(plan[2].payload.get("presetId").and_then(|v| v.as_str()), Some("translate"));
    for b in &plan {
        assert!(b.accelerator.contains('+'));
    }
}

#[test]
fn presets_that_are_not_an_object_are_ignored() {
    let plan = shortcut_plan(&s("Ctrl+Space"), &Json::Array(vec![s("Ctrl+1")]));
    assert_eq!(plan.len(), 1);
}

#[test]
fn triggers() {
    assert!(emits_on(ShortcutTrigger::EveryEvent, true));
    assert!(emits_on(ShortcutTrigger::EveryEvent, false));
    assert!(emits_on(ShortcutTrigger::PressOnly, true));
    assert!(!emits_on(ShortcutTrigger::PressOnly, false));
}
