//! The push-to-talk lab: a dedicated low-level keyboard hook, independent of
//! the recording hook, that reports presses and releases of one test key
//! (right Ctrl by default) to the UI and swallows that key's messages.

use vstd::prelude::*;
use crate::json::{Json, JsonNumber, JsonValue};

verus! {

/// The keyboard message of a key press.
pub const WM_KEYDOWN: u32 = 0x0100;

/// The keyboard message of a key release.
pub const WM_KEYUP: u32 = 0x0101;

/// The keyboard message of a key press with Alt held or of F10.
pub const WM_SYSKEYDOWN: u32 = 0x0104;

/// The keyboard message of a key release with Alt held or of F10.
pub const WM_SYSKEYUP: u32 = 0x0105;

/// The virtual-key code of the right Ctrl key, the default test key.
pub const VK_RCONTROL: u32 = 0xA3;

/// The lab settings sent by the UI.
#[derive(Debug, Clone, Copy, PartialEq, Eq)]
pub struct LabConfig {
    pub enabled: bool,
    pub vk_code: u32,
}

/// `enabled` when it is a boolean, else off; `vkCode` (truncated to 32 bits)
/// when it is a non-negative integer, else right Ctrl.
pub open spec fn spec_lab_config(data: JsonValue) -> LabConfig {
    LabConfig {
        enabled: match data.get_key("enabled"@) {
            Some(v) => match v.as_bool() {
                Some(b) => b,
                None => false,
            },
            None => false,
        },
        vk_code: match data.get_key("vkCode"@) {
            Some(v) => match v.as_u64() {
                Some(n) => n as u32,
                None => VK_RCONTROL,
            },
            None => VK_RCONTROL,
        },
    }
}

/// Reads the lab settings from the UI's message.
pub fn lab_config(data: &Json) -> (c: LabConfig)
    ensures
        c == spec_lab_config(data@),
{
    let enabled = match data.get("enabled") {
        Some(v) => match v.as_bool() {
            Some(b) => b,
            None => false,
        },
        None => false,
    };
    let vk_code = match data.get("vkCode") {
        Some(v) => match v.as_u64() {
            Some(n) => #[verifier::truncate] (n as u32),
            None => VK_RCONTROL,
        },
        None => VK_RCONTROL,
    };
    LabConfig { enabled, vk_code }
}

/// What to do when the lab is (re)configured: stop the running hook (and ask
/// its thread to quit, when its id is known), then start one for a key.
#[derive(Debug, Clone, Copy, PartialEq, Eq)]
pub struct LabCommand {
    pub stop: bool,
    pub post_quit_to: Option<u32>,
    pub start_vk: Option<u32>,
}

/// The command for a new configuration: a running hook is always stopped
/// first; a new one starts only when the lab is enabled.
pub fn lab_command(running: bool, thread_id: u32, config: LabConfig) -> (cmd: LabCommand)
    ensures
        cmd.stop == running,
        cmd.post_quit_to == (if running && thread_id != 0 {
            Some(thread_id)
        } else {
            None
        }),
        cmd.start_vk == (if config.enabled {
            Some(config.vk_code)
        } else {
            None
        }),
{
    LabCommand {
        stop: running,
        post_quit_to: if running && thread_id != 0 {
            Some(thread_id)
        } else {
            None
        },
        start_vk: if config.enabled {
            Some(config.vk_code)
        } else {
            None
        },
    }
}

/// A reported transition of the test key.
#[derive(Debug, Clone, Copy, PartialEq, Eq)]
pub enum LabPhase {
    Down,
    Up,
}

/// What the hook does with a keyboard message.
#[derive(Debug, Clone, Copy, PartialEq, Eq)]
pub enum HookAction {
    /// Hand the message on to the next hook.
    PassOn,
    /// Swallow the message.
    Swallow,
    /// Report the transition to the UI and swallow the message.
    Report(LabPhase),
}

pub open spec fn is_down_message(msg: u32) -> bool {
    msg == WM_KEYDOWN || msg == WM_SYSKEYDOWN
}

pub open spec fn is_up_message(msg: u32) -> bool {
    msg == WM_KEYUP || msg == WM_SYSKEYUP
}

/// One low-level keyboard event: the hook code and the message's key and kind.
#[derive(Debug, Clone, Copy, PartialEq, Eq)]
pub struct KeyEvent {
    pub n_code: i32,
    pub vk: u32,
    pub msg: u32,
}

/// The hook's step on `ev` when the test key is `lab_vk` and is held
/// (`key_down`) or not: whether it is held afterwards, and the action. Only
/// messages of the test key with a non-negative hook code are handled: the
/// first press is reported, the release of a held key is reported, and
/// repeated presses and stray releases are swallowed.
pub open spec fn lab_step(lab_vk: u32, key_down: bool, ev: KeyEvent) -> (bool, HookAction) {
    if ev.n_code >= 0 && ev.vk == lab_vk {
        if is_down_message(ev.msg) && !key_down {
            (true, HookAction::Report(LabPhase::Down))
        } else if is_up_message(ev.msg) && key_down {
            (false, HookAction::Report(LabPhase::Up))
        } else if is_down_message(ev.msg) || is_up_message(ev.msg) {
            (key_down, HookAction::Swallow)
        } else {
            (key_down, HookAction::PassOn)
        }
    } else {
        (key_down, HookAction::PassOn)
    }
}

/// The state of the lab hook: the test key and whether it is held.
#[derive(Debug)]
pub struct LabKeyTracker {
    pub lab_vk: u32,
    pub key_down: bool,
}

impl LabKeyTracker {
    /// A hook for `lab_vk`, with the key released.
    pub fn new(lab_vk: u32) -> (t: LabKeyTracker)
        ensures
            t.lab_vk == lab_vk,
            !t.key_down,
    {
        LabKeyTracker { lab_vk, key_down: false }
    }

    /// Handles one keyboard event as `lab_step` says.
    pub fn on_key(&mut self, ev: KeyEvent) -> (action: HookAction)
        ensures
            final(self).lab_vk == old(self).lab_vk,
            (final(self).key_down, action) == lab_step(old(self).lab_vk, old(self).key_down, ev),
    {
        if ev.n_code >= 0 && ev.vk == self.lab_vk {
            let is_down = ev.msg == WM_KEYDOWN || ev.msg == WM_SYSKEYDOWN;
            let is_up = ev.msg == WM_KEYUP || ev.msg == WM_SYSKEYUP;
            if is_down && !self.key_down {
                self.key_down = true;
                return HookAction::Report(LabPhase::Down);
            }
            if is_up && self.key_down {
                self.key_down = false;
                return HookAction::Report(LabPhase::Up);
            }
            if is_down || is_up {
                return HookAction::Swallow;
            }
        }
        HookAction::PassOn
    }
}

/// The state after `events` and the transitions reported on the way.
pub open spec fn lab_run(lab_vk: u32, key_down: bool, events: Seq<KeyEvent>) -> (bool, Seq<LabPhase>)
    decreases events.len(),
{
    if events.len() == 0 {
        (key_down, Seq::empty())
    } else {
        let (held, reported) = lab_run(lab_vk, key_down, events.drop_last());
        let (next, action) = lab_step(lab_vk, held, events.last());
        (
            next,
            match action {
                HookAction::Report(phase) => reported.push(phase),
                _ => reported,
            },
        )
    }
}

/// Whatever the keyboard does, the reports of the lab alternate: from a
/// released key they read down, up, down, up, ... (from a held key up, down,
/// ...), so a press is reported once however long the key repeats, and the
/// key is held at the end exactly when an odd number of reports flipped the
/// start state.
pub proof fn lemma_reports_alternate(lab_vk: u32, key_down: bool, events: Seq<KeyEvent>)
    ensures
        lab_run(lab_vk, key_down, events).0 == (key_down != (lab_run(lab_vk, key_down, events).1.len()
            % 2 == 1)),
        forall|i: int|
            0 <= i < lab_run(lab_vk, key_down, events).1.len() ==> #[trigger] lab_run(
                lab_vk,
                key_down,
                events,
            ).1[i] == (if (i % 2 == 0) != key_down {
                LabPhase::Down
            } else {
                LabPhase::Up
            }),
    decreases events.len(),
{
    if events.len() > 0 {
        lemma_reports_alternate(lab_vk, key_down, events.drop_last());
    }
}

/// The UI decides whether the lab runs: when its message holds a boolean
/// `enabled`, that boolean is the configuration's flag; any other message
/// leaves the lab off.
pub proof fn lemma_enabled_follows_message(data: JsonValue)
    ensures
        forall|b: bool|
            data.get_key("enabled"@) == Some(JsonValue::Bool(b)) ==> #[trigger] spec_lab_config(
                data,
            ).enabled == b,
        (forall|b: bool| data.get_key("enabled"@) != Some(JsonValue::Bool(b))) ==> !spec_lab_config(
            data,
        ).enabled,
{
}

/// The test key is the message's non-negative integer `vkCode`, taken modulo
/// 2^32; without one it is right Ctrl.
pub proof fn lemma_vk_follows_message(data: JsonValue)
    ensures
        forall|n: u64|
            data.get_key("vkCode"@) == Some(JsonValue::Number(JsonNumber::PosInt(n))) ==> (
            #[trigger] spec_lab_config(data).vk_code) as nat == n as nat % 0x1_0000_0000,
        (forall|n: u64|
            data.get_key("vkCode"@) != Some(JsonValue::Number(JsonNumber::PosInt(n))))
            ==> spec_lab_config(data).vk_code == 0xA3,
{
    assert forall|n: u64|
        data.get_key("vkCode"@) == Some(JsonValue::Number(JsonNumber::PosInt(n))) implies (
        #[trigger] spec_lab_config(data).vk_code) as nat == n as nat % 0x1_0000_0000 by {
        assert((n as u32) as nat == n as nat % 0x1_0000_0000) by (bit_vector);
    }
}

/// Only the test key is the lab's business: an event of any other key, or
/// with a negative hook code, is passed on and leaves the held state as it
/// was; and every report is about the test key.
pub proof fn lemma_other_keys_pass_on(lab_vk: u32, key_down: bool, ev: KeyEvent)
    ensures
        ev.vk != lab_vk || ev.n_code < 0 ==> lab_step(lab_vk, key_down, ev) == (
            key_down,
            HookAction::PassOn,
        ),
        lab_step(lab_vk, key_down, ev).1 is Report ==> ev.vk == lab_vk && ev.n_code >= 0,
        lab_step(lab_vk, key_down, ev).1 == HookAction::Report(LabPhase::Down) ==> !key_down
            && lab_step(lab_vk, key_down, ev).0,
        lab_step(lab_vk, key_down, ev).1 == HookAction::Report(LabPhase::Up) ==> key_down
            && !lab_step(lab_vk, key_down, ev).0,
        lab_step(lab_vk, key_down, ev).1 == HookAction::Swallow ==> lab_step(lab_vk, key_down, ev).0
            == key_down,
{
}

/// The UI event of a transition: `{"phase": "down"|"up", "vk": .., "timestamp": ..}`
/// with the time in milliseconds since the Unix epoch.
pub open spec fn lab_event(phase: LabPhase, vk: u32, timestamp_ms: i64) -> JsonValue {
    JsonValue::Object(
        seq![
            (
                "phase"@,
                JsonValue::Str(
                    match phase {
                        LabPhase::Down => "down"@,
                        LabPhase::Up => "up"@,
                    },
                ),
            ),
            ("vk"@, JsonValue::Number(JsonNumber::PosInt(vk as u64))),
            (
                "timestamp"@,
                JsonValue::Number(
                    if timestamp_ms < 0 {
                        JsonNumber::NegInt(timestamp_ms)
                    } else {
                        JsonNumber::PosInt(timestamp_ms as u64)
                    },
                ),
            ),
        ],
    )
}

/// Builds the `ptt-lab-event` payload of a transition.
pub fn lab_event_payload(phase: LabPhase, vk: u32, timestamp_ms: i64) -> (payload: Json)
    ensures
        payload@ == lab_event(phase, vk, timestamp_ms),
{
    let name = match phase {
        LabPhase::Down => "down",
        LabPhase::Up => "up",
    };
    Json::object3(
        "phase",
        Json::text(name),
        "vk",
        Json::unsigned(vk as u64),
        "timestamp",
        Json::signed(timestamp_ms),
    )
}

} // verus!
