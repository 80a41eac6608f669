//! Keyboard shortcut settings: the push-to-talk and hands-free keys, and the
//! global shortcuts to register (the hands-free combination and one per
//! polishing preset).

use vstd::prelude::*;
use crate::json::{Json, JsonValue, json_view, lemma_members_view, members_view};
use crate::text::contains_char;

verus! {

/// A string setting, or `default` when the setting is not a string.
pub open spec fn setting_or(setting: JsonValue, default: Seq<char>) -> Seq<char> {
    match setting.as_str() {
        Some(s) => s,
        None => default,
    }
}

fn string_setting(setting: &Json, default: &str) -> (s: String)
    ensures
        s@ == setting_or(setting@, default@),
{
    match setting.as_str() {
        Some(s) => s.to_owned(),
        None => default.to_owned(),
    }
}

/// The push-to-talk key: the `shortcutPTT` setting, `ShiftRight` by default.
pub fn ptt_key(setting: &Json) -> (key: String)
    ensures
        key@ == setting_or(setting@, "ShiftRight"@),
{
    string_setting(setting, "ShiftRight")
}

/// The hands-free key or combination: the `shortcutHandsFree` setting,
/// `AltRight` by default.
pub fn hands_free_key(setting: &Json) -> (key: String)
    ensures
        key@ == setting_or(setting@, "AltRight"@),
{
    string_setting(setting, "AltRight")
}

/// Whether `accelerator` is a key combination (it holds a `+`). Single keys
/// are left to the low-level keyboard hook; combinations go to the system's
/// global shortcuts, and only those can be probed for conflicts.
pub fn is_combo_accelerator(accelerator: &str) -> (combo: bool)
    ensures
        combo == accelerator@.contains('+'),
{
    contains_char(accelerator, '+')
}

/// When a registered shortcut emits its event.
#[derive(Debug, Clone, Copy, PartialEq, Eq)]
pub enum ShortcutTrigger {
    /// On every press and release.
    EveryEvent,
    /// Only when the combination is pressed.
    PressOnly,
}

/// Whether a shortcut with `trigger` emits on an event that is a press
/// (`pressed`) or a release.
pub fn emits_on(trigger: ShortcutTrigger, pressed: bool) -> (emit: bool)
    ensures
        emit == (trigger == ShortcutTrigger::EveryEvent || pressed),
{
    match trigger {
        ShortcutTrigger::EveryEvent => true,
        ShortcutTrigger::PressOnly => pressed,
    }
}

/// A global shortcut to register: on `accelerator`, emit `event` with
/// `payload` to the UI as `trigger` says.
#[derive(Debug)]
pub struct ShortcutBinding {
    pub accelerator: String,
    pub event: String,
    pub payload: Json,
    pub trigger: ShortcutTrigger,
}

pub struct ShortcutBindingView {
    pub accelerator: Seq<char>,
    pub event: Seq<char>,
    pub payload: JsonValue,
    pub trigger: ShortcutTrigger,
}

impl View for ShortcutBinding {
    type V = ShortcutBindingView;

    open spec fn view(&self) -> ShortcutBindingView {
        ShortcutBindingView {
            accelerator: self.accelerator@,
            event: self.event@,
            payload: self.payload@,
            trigger: self.trigger,
        }
    }
}

/// The hands-free combination toggles hands-free recording on every event.
pub open spec fn hands_free_binding(accelerator: Seq<char>) -> ShortcutBindingView {
    ShortcutBindingView {
        accelerator,
        event: "toggle-hands-free"@,
        payload: JsonValue::Object(seq![("source"@, JsonValue::Str("globalShortcut"@))]),
        trigger: ShortcutTrigger::EveryEvent,
    }
}

/// A preset's combination switches to that preset when pressed.
pub open spec fn preset_binding(preset_id: Seq<char>, accelerator: Seq<char>) -> ShortcutBindingView {
    ShortcutBindingView {
        accelerator,
        event: "switch-preset"@,
        payload: JsonValue::Object(seq![("presetId"@, JsonValue::Str(preset_id))]),
        trigger: ShortcutTrigger::PressOnly,
    }
}

/// The bindings of the `presetShortcuts` members (preset id to combination)
/// whose value is a string holding a `+`, in order.
pub open spec fn preset_bindings(members: Seq<(Seq<char>, JsonValue)>) -> Seq<ShortcutBindingView>
    decreases members.len(),
{
    if members.len() == 0 {
        Seq::empty()
    } else {
        preset_bindings(members.drop_last()) + match members.last().1.as_str() {
            Some(a) => if a.contains('+') {
                seq![preset_binding(members.last().0, a)]
            } else {
                Seq::empty()
            },
            None => Seq::empty(),
        }
    }
}

/// All global shortcuts: the hands-free combination, when the hands-free
/// setting is a combination, then those of the presets.
pub open spec fn spec_shortcut_plan(hands_free: JsonValue, presets: JsonValue) -> Seq<
    ShortcutBindingView,
> {
    (if setting_or(hands_free, "AltRight"@).contains('+') {
        seq![hands_free_binding(setting_or(hands_free, "AltRight"@))]
    } else {
        Seq::empty()
    }) + match presets {
        JsonValue::Object(members) => preset_bindings(members),
        _ => Seq::empty(),
    }
}

proof fn lemma_preset_bindings_combos(members: Seq<(Seq<char>, JsonValue)>)
    ensures
        forall|i: int|
            0 <= i < preset_bindings(members).len() ==> (#[trigger] preset_bindings(members)[i]).accelerator.contains('+')
                && preset_bindings(members)[i].trigger == ShortcutTrigger::PressOnly
                && preset_bindings(members)[i].event == "switch-preset"@,
    decreases members.len(),
{
    if members.len() > 0 {
        lemma_preset_bindings_combos(members.drop_last());
    }
}

/// Only key combinations become global shortcuts: every accelerator in the
/// plan holds a `+` (single keys are left to the keyboard hook), and only
/// the hands-free binding fires on release as well as on press.
pub proof fn lemma_plan_only_combinations(hands_free: JsonValue, presets: JsonValue)
    ensures
        forall|i: int|
            0 <= i < spec_shortcut_plan(hands_free, presets).len() ==> (
            #[trigger] spec_shortcut_plan(hands_free, presets)[i]).accelerator.contains('+'),
        forall|i: int|
            0 < i < spec_shortcut_plan(hands_free, presets).len() ==> (
            #[trigger] spec_shortcut_plan(hands_free, presets)[i]).trigger
                == ShortcutTrigger::PressOnly,
{
    match presets {
        JsonValue::Object(members) => lemma_preset_bindings_combos(members),
        _ => {},
    }
}

/// `plan` without its hands-free binding, when it starts with one.
pub open spec fn without_hands_free(plan: Seq<ShortcutBindingView>) -> Seq<ShortcutBindingView> {
    if plan.len() > 0 && plan[0].event == "toggle-hands-free"@ {
        plan.drop_first()
    } else {
        plan
    }
}

/// The preset shortcuts do not depend on the hands-free setting: whether the
/// hands-free key is a single key, a combination or missing, the plan holds
/// the same preset bindings, all `switch-preset`, after at most one
/// hands-free binding at its front.
pub proof fn lemma_presets_ignore_hands_free(h1: JsonValue, h2: JsonValue, presets: JsonValue)
    ensures
        without_hands_free(spec_shortcut_plan(h1, presets)) == without_hands_free(
            spec_shortcut_plan(h2, presets),
        ),
        forall|i: int|
            0 <= i < without_hands_free(spec_shortcut_plan(h1, presets)).len() ==> (
            #[trigger] without_hands_free(spec_shortcut_plan(h1, presets))[i]).event
                == "switch-preset"@,
{
    reveal_strlit("toggle-hands-free");
    reveal_strlit("switch-preset");
    assert("toggle-hands-free"@ != "switch-preset"@) by {
        assert("toggle-hands-free"@.len() != "switch-preset"@.len());
    }
    let tail = match presets {
        JsonValue::Object(members) => preset_bindings(members),
        _ => Seq::<ShortcutBindingView>::empty(),
    };
    match presets {
        JsonValue::Object(members) => lemma_preset_bindings_combos(members),
        _ => {},
    }
    assert forall|h: JsonValue| #[trigger] without_hands_free(spec_shortcut_plan(h, presets)) == tail by {
        let p = spec_shortcut_plan(h, presets);
        if setting_or(h, "AltRight"@).contains('+') {
            assert(p[0].event == "toggle-hands-free"@);
            assert(p.drop_first() =~= tail);
        } else {
            assert(p =~= tail);
            if tail.len() > 0 {
                assert(tail[0].event == "switch-preset"@);
            }
        }
    }
    assert(without_hands_free(spec_shortcut_plan(h1, presets)) == tail);
    assert(without_hands_free(spec_shortcut_plan(h2, presets)) == tail);
}

proof fn lemma_preset_bindings_complete(members: Seq<(Seq<char>, JsonValue)>, i: int, a: Seq<char>)
    requires
        0 <= i < members.len(),
        members[i].1 == JsonValue::Str(a),
        a.contains('+'),
    ensures
        preset_bindings(members).contains(preset_binding(members[i].0, a)),
    decreases members.len(),
{
    let rest = members.drop_last();
    if i < members.len() - 1 {
        lemma_preset_bindings_complete(rest, i, a);
        let k = choose|k: int| 0 <= k < preset_bindings(rest).len() && preset_bindings(rest)[k] == preset_binding(rest[i].0, a);
        assert(preset_bindings(members)[k] == preset_bindings(rest)[k]);
    } else {
        let n = preset_bindings(rest).len() as int;
        assert(preset_bindings(members)[n] == preset_binding(members[i].0, a));
    }
}

/// Every preset whose combination is a string holding `+` gets a binding,
/// whatever the hands-free setting: pressing that combination emits
/// `switch-preset` with `{"presetId": <the preset's id>}`.
pub proof fn lemma_every_preset_combination_bound(
    hands_free: JsonValue,
    members: Seq<(Seq<char>, JsonValue)>,
    i: int,
    accelerator: Seq<char>,
)
    requires
        0 <= i < members.len(),
        members[i].1 == JsonValue::Str(accelerator),
        accelerator.contains('+'),
    ensures
        exists|k: int|
            0 <= k < spec_shortcut_plan(hands_free, JsonValue::Object(members)).len() && (
            #[trigger] spec_shortcut_plan(hands_free, JsonValue::Object(members))[k]) == (ShortcutBindingView {
                accelerator,
                event: "switch-preset"@,
                payload: JsonValue::Object(seq![("presetId"@, JsonValue::Str(members[i].0))]),
                trigger: ShortcutTrigger::PressOnly,
            }),
{
    lemma_preset_bindings_complete(members, i, accelerator);
    let pb = preset_bindings(members);
    let k = choose|k: int| 0 <= k < pb.len() && pb[k] == preset_binding(members[i].0, accelerator);
    let plan = spec_shortcut_plan(hands_free, JsonValue::Object(members));
    let head_len = plan.len() - pb.len();
    assert(plan[head_len + k] == pb[k]);
}

/// The global shortcuts to register, all at once (registering clears the
/// earlier ones): from the `shortcutHandsFree` and `presetShortcuts` settings.
pub fn shortcut_plan(hands_free_setting: &Json, preset_shortcuts: &Json) -> (plan: Vec<
    ShortcutBinding,
>)
    ensures
        plan@.map_values(|b: ShortcutBinding| b@) == spec_shortcut_plan(
            hands_free_setting@,
            preset_shortcuts@,
        ),
{
    let mut plan: Vec<ShortcutBinding> = Vec::new();
    let hf_key = hands_free_key(hands_free_setting);
    if is_combo_accelerator(hf_key.as_str()) {
        plan.push(
            ShortcutBinding {
                accelerator: hf_key,
                event: "toggle-hands-free".to_owned(),
                payload: Json::object1("source", Json::text("globalShortcut")),
                trigger: ShortcutTrigger::EveryEvent,
            },
        );
    }
    let ghost head = plan@.map_values(|b: ShortcutBinding| b@);
    assert(head =~= (if setting_or(hands_free_setting@, "AltRight"@).contains('+') {
        seq![hands_free_binding(setting_or(hands_free_setting@, "AltRight"@))]
    } else {
        Seq::<ShortcutBindingView>::empty()
    }));
    match preset_shortcuts {
        Json::Object(members) => {
            proof {
                lemma_members_view(members@);
            }
            let ghost mv = members_view(members@);
            assert(preset_shortcuts@ == JsonValue::Object(mv));
            let mut i: usize = 0;
            while i < members.len()
                invariant
                    i <= members@.len(),
                    mv.len() == members@.len(),
                    forall|j: int| 0 <= j < members@.len() ==> #[trigger] mv[j] == (
                        members@[j].0@,
                        json_view(members@[j].1),
                    ),
                    plan@.map_values(|b: ShortcutBinding| b@) == head + preset_bindings(
                        mv.take(i as int),
                    ),
                decreases members@.len() - i,
            {
                let ghost before = plan@.map_values(|b: ShortcutBinding| b@);
                proof {
                    assert(mv.take(i + 1).drop_last() =~= mv.take(i as int));
                    assert(mv[i as int] == (members@[i as int].0@, json_view(members@[i as int].1)));
                }
                match members[i].1.as_str() {
                    Some(accel) => {
                        if is_combo_accelerator(accel) {
                            plan.push(
                                ShortcutBinding {
                                    accelerator: accel.to_owned(),
                                    event: "switch-preset".to_owned(),
                                    payload: Json::object1("presetId", Json::text(members[i].0.as_str())),
                                    trigger: ShortcutTrigger::PressOnly,
                                },
                            );
                            assert(plan@.map_values(|b: ShortcutBinding| b@) =~= before.push(
                                preset_binding(members@[i as int].0@, accel@),
                            ));
                        }
                    },
                    None => {},
                }
                i = i + 1;
                assert(plan@.map_values(|b: ShortcutBinding| b@) =~= head + preset_bindings(
                    mv.take(i as int),
                ));
            }
            assert(mv.take(i as int) =~= mv);
        },
        _ => {
            assert(plan@.map_values(|b: ShortcutBinding| b@) =~= spec_shortcut_plan(
                hands_free_setting@,
                preset_shortcuts@,
            ));
        },
    }
    plan
}

} // verus!
