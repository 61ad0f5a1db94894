//! Escape discards a recording from anywhere. While a recording runs a keyboard hook
//! swallows Escape; otherwise the hook is not installed and Escape is left alone.
use vstd::prelude::*;

verus! {

/// The virtual key code of Escape.
pub const VK_ESCAPE: u32 = 0x1b;

pub const WM_KEYDOWN: u32 = 0x100;

pub const WM_KEYUP: u32 = 0x101;

pub const WM_SYSKEYDOWN: u32 = 0x104;

pub const WM_SYSKEYUP: u32 = 0x105;

pub const WM_APP: u32 = 0x8000;

/// The message that has the hook installed.
pub const CMD_INSTALL: u32 = 0x8001;

/// The message that has the hook removed.
pub const CMD_UNINSTALL: u32 = 0x8002;

/// What becomes of a key event.
#[derive(Clone, Copy, Debug, PartialEq, Eq, Structural)]
pub enum EscapeAction {
    /// Other programs see it.
    PassThrough,
    /// Nobody sees it.
    Swallow,
    /// Nobody sees it, and the recording is discarded.
    TriggerDiscard,
}

/// Whether a message says that a key went down.
pub open spec fn is_press(msg: u32) -> bool {
    msg == WM_KEYDOWN || msg == WM_SYSKEYDOWN
}

/// Whether a message says that a key came up.
pub open spec fn is_release(msg: u32) -> bool {
    msg == WM_KEYUP || msg == WM_SYSKEYUP
}

/// What becomes of a key event: a fresh press of Escape discards, repeats of it and
/// its release are swallowed, everything else passes.
pub open spec fn action_of(vk_code: u32, msg: u32, active: bool, already_down: bool)
    -> EscapeAction {
    if !active || vk_code != VK_ESCAPE {
        EscapeAction::PassThrough
    } else if is_press(msg) && !already_down {
        EscapeAction::TriggerDiscard
    } else if already_down && (is_press(msg) || is_release(msg)) {
        EscapeAction::Swallow
    } else {
        EscapeAction::PassThrough
    }
}

/// What becomes of a key event.
pub fn escape_action(vk_code: u32, msg: u32, active: bool, already_down: bool) -> (action:
    EscapeAction)
    ensures
        action == action_of(vk_code, msg, active, already_down),
{
    if !active || vk_code != VK_ESCAPE {
        return EscapeAction::PassThrough;
    }
    if msg == WM_KEYDOWN || msg == WM_SYSKEYDOWN {
        if already_down {
            EscapeAction::Swallow
        } else {
            EscapeAction::TriggerDiscard
        }
    } else if msg == WM_KEYUP || msg == WM_SYSKEYUP {
        if already_down {
            EscapeAction::Swallow
        } else {
            EscapeAction::PassThrough
        }
    } else {
        EscapeAction::PassThrough
    }
}

/// What the hook knows: whether Escape is intercepted, and whether a swallowed press
/// has not been released yet.
#[derive(Clone, Copy, Debug, PartialEq, Eq, Structural)]
pub struct HookState {
    pub active: bool,
    pub escape_down: bool,
}

impl HookState {
    /// The state after a key event. Events with a negative code are not the hook's.
    pub open spec fn after(self, code: i32, vk_code: u32, msg: u32) -> HookState {
        if code < 0 || action_of(vk_code, msg, self.active, self.escape_down)
            == EscapeAction::PassThrough {
            self
        } else {
            HookState { escape_down: is_press(msg), ..self }
        }
    }

    /// Takes in a key event: what becomes of it.
    pub fn on_key(&mut self, code: i32, vk_code: u32, msg: u32) -> (action: EscapeAction)
        ensures
            action == (if code < 0 {
                EscapeAction::PassThrough
            } else {
                action_of(vk_code, msg, old(self).active, old(self).escape_down)
            }),
            *final(self) == old(self).after(code, vk_code, msg),
    {
        if code < 0 || !self.active {
            return EscapeAction::PassThrough;
        }
        let action = escape_action(vk_code, msg, true, self.escape_down);
        match action {
            EscapeAction::PassThrough => {},
            EscapeAction::Swallow | EscapeAction::TriggerDiscard => {
                self.escape_down = msg == WM_KEYDOWN || msg == WM_SYSKEYDOWN;
            },
        }
        action
    }
}

/// A swallowed press is followed by its swallowed release: while the hook is active a
/// release of Escape is swallowed exactly if its press was, and afterwards the next
/// press is a fresh one.
pub proof fn presses_and_releases_go_together(state: HookState, press: u32, release: u32)
    requires
        state.active,
        is_press(press),
        is_release(release),
    ensures
        ({
            let down = state.after(0, VK_ESCAPE, press);
            let up = down.after(0, VK_ESCAPE, release);
            &&& down.escape_down
            &&& action_of(VK_ESCAPE, release, true, down.escape_down) == EscapeAction::Swallow
            &&& !up.escape_down
            &&& action_of(VK_ESCAPE, press, true, up.escape_down) == EscapeAction::TriggerDiscard
        }),
{
}

/// A key that is held down discards once: repeats of the press are swallowed.
pub proof fn repeats_discard_once(state: HookState, press: u32, repeat: u32)
    requires
        state.active,
        is_press(press),
        is_press(repeat),
    ensures
        action_of(VK_ESCAPE, repeat, true, state.after(0, VK_ESCAPE, press).escape_down)
            == EscapeAction::Swallow,
{
}

/// Other keys are never intercepted, and nothing is while no recording runs.
pub proof fn only_escape_is_intercepted(vk_code: u32, msg: u32, active: bool, already_down: bool)
    requires
        vk_code != VK_ESCAPE || !active,
    ensures
        action_of(vk_code, msg, active, already_down) == EscapeAction::PassThrough,
{
}

/// The switch of the hook, and the thread that owns it once that has started.
#[derive(Clone, Copy, Debug, PartialEq, Eq, Structural)]
pub struct EscHook {
    pub active: bool,
    /// The id of the thread that owns the hook; 0 before it has started.
    pub pump_thread: u32,
}

impl EscHook {
    /// What the pump of the hook is told as the hook is switched; nothing before it runs.
    pub open spec fn command_for(self, active: bool) -> Option<u32> {
        if self.pump_thread == 0 {
            None
        } else if active {
            Some(CMD_INSTALL)
        } else {
            Some(CMD_UNINSTALL)
        }
    }

    /// Switches interception on or off, at once. The message for the thread that owns
    /// the hook, if it has started; one that starts later looks at the switch.
    pub fn set_active(&mut self, active: bool) -> (command: Option<u32>)
        ensures
            *final(self) == (EscHook { active, ..*old(self) }),
            command == old(self).command_for(active),
    {
        self.active = active;
        if self.pump_thread == 0 {
            None
        } else if active {
            Some(CMD_INSTALL)
        } else {
            Some(CMD_UNINSTALL)
        }
    }

    /// The thread that owns the hook has started: whether it installs the hook at
    /// once, because interception was switched on before.
    pub fn started(&mut self, thread_id: u32) -> (install: bool)
        ensures
            *final(self) == (EscHook { pump_thread: thread_id, ..*old(self) }),
            install == old(self).active,
    {
        self.pump_thread = thread_id;
        self.active
    }
}

/// Whether the hook is installed after a message, given whether it was before.
pub fn pump_message(message: u32, installed: bool) -> (r: bool)
    ensures
        r == installed_after(message, installed),
{
    if message == CMD_INSTALL {
        true
    } else if message == CMD_UNINSTALL {
        false
    } else {
        installed
    }
}

/// Signals that Escape was pressed during a recording, waiting to be read.
#[derive(Clone, Copy, Debug, PartialEq, Eq, Structural)]
pub struct EscEvents {
    pub pending: u64,
}

impl EscEvents {
    /// Adds a signal.
    pub fn notify_discard(&mut self)
        requires
            old(self).pending < u64::MAX,
        ensures
            final(self).pending == old(self).pending + 1,
    {
        self.pending = self.pending + 1;
    }

    /// Takes one signal; whether there was one.
    pub fn try_recv_escape(&mut self) -> (r: bool)
        ensures
            r == (old(self).pending > 0),
            final(self).pending == (if r {
                old(self).pending - 1
            } else {
                0
            }),
    {
        if self.pending > 0 {
            self.pending = self.pending - 1;
            true
        } else {
            false
        }
    }
}

/// Whether the hook is installed after a message to its pump.
pub open spec fn installed_after(message: u32, installed: bool) -> bool {
    if message == CMD_INSTALL {
        true
    } else if message == CMD_UNINSTALL {
        false
    } else {
        installed
    }
}

/// The hook is installed exactly while a recording runs: whatever it was before, it is as
/// it was last switched once the pump has read what it was told, and other messages leave
/// it.
pub proof fn the_hook_is_as_it_was_switched(hook: EscHook, active: bool, installed: bool)
    ensures
        hook.pump_thread == 0 ==> hook.command_for(active) is None,
        hook.pump_thread != 0 ==> hook.command_for(active) is Some && installed_after(
            hook.command_for(active)->0,
            installed,
        ) == active,
        forall|message: u32|
            message != 0x8001 && message != 0x8002 ==> #[trigger] installed_after(
                message,
                installed,
            ) == installed,
{
}

/// While a recording runs, the first press of Escape discards it, and what follows up to
/// the release is swallowed; every other message goes on to the window it was meant for.
/// A message of no interest to hooks changes nothing.
pub proof fn escape_discards_the_recording(
    state: HookState,
    code: i32,
    vk_code: u32,
    msg: u32,
    already_down: bool,
)
    ensures
        ({
            let escape = state.active && vk_code == 0x1b;
            let press = msg == 0x100 || msg == 0x104;
            let release = msg == 0x101 || msg == 0x105;
            let action = action_of(vk_code, msg, state.active, already_down);
            &&& action == EscapeAction::TriggerDiscard <==> escape && press && !already_down
            &&& action == EscapeAction::Swallow <==> escape && already_down && (press || release)
            &&& state.after(code, vk_code, msg).active == state.active
            &&& code < 0 ==> state.after(code, vk_code, msg) == state
            &&& code >= 0 && escape && press ==> state.after(code, vk_code, msg).escape_down
            &&& code >= 0 && escape && release ==> !state.after(code, vk_code, msg).escape_down
            &&& !escape ==> state.after(code, vk_code, msg) == state
        }),
{
}

} // verus!
