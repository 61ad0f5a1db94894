//! The tray icon and its menu.
use vstd::prelude::*;

verus! {

/// The message that the tray icon sends: a mouse event.
pub const TRAY_CALLBACK: u32 = 0x8001;

pub const WM_LBUTTONUP: u32 = 0x202;

pub const WM_RBUTTONUP: u32 = 0x205;

pub const WM_COMMAND: u32 = 0x111;

pub const WM_TIMER: u32 = 0x113;

pub const WM_DESTROY: u32 = 0x2;

/// The entries of the menu.
pub const MENU_TOGGLE: u64 = 1;

pub const MENU_SETTINGS: u64 = 2;

pub const MENU_QUIT: u64 = 3;

/// What the tray is told.
#[derive(Clone, Copy, Debug, PartialEq, Eq, Structural)]
pub enum TrayCommand {
    SetEnabled(bool),
}

/// What the user asked the tray for.
#[derive(Clone, Copy, Debug, PartialEq, Eq, Structural)]
pub enum TrayRequest {
    ToggleRecording,
    OpenSettings,
    Quit,
}

/// What is done with the icon.
#[derive(Clone, Copy, Debug, PartialEq, Eq, Structural)]
pub enum IconChange {
    Add,
    Remove,
}

/// What is done about a message.
#[derive(Clone, Copy, Debug, PartialEq, Eq, Structural)]
pub enum TrayReaction {
    Request(TrayRequest),
    ShowMenu,
    /// Nothing, and nobody else gets to see the message.
    Ignore,
    /// The tray ends, with its icon if that shows.
    Close(Option<IconChange>),
    /// It is left to the system.
    Default,
}

/// The tray: whether its icon shows.
#[derive(Clone, Copy, Debug, PartialEq, Eq, Structural)]
pub struct TrayController {
    pub enabled: bool,
}

impl TrayController {
    /// A tray whose icon does not show yet.
    pub fn new() -> (tray: TrayController)
        ensures
            !tray.enabled,
    {
        TrayController { enabled: false }
    }

    /// Shows the icon or takes it away; nothing is done where it is so already.
    pub fn set_enabled(&mut self, enabled: bool) -> (change: Option<IconChange>)
        ensures
            final(self).enabled == enabled,
            change == icon_change(old(self).enabled, enabled),
    {
        if enabled == self.enabled {
            return None;
        }
        self.enabled = enabled;
        if enabled {
            Some(IconChange::Add)
        } else {
            Some(IconChange::Remove)
        }
    }

    /// Takes in a command.
    pub fn obey(&mut self, command: TrayCommand) -> (change: Option<IconChange>)
        ensures
            command matches TrayCommand::SetEnabled(enabled) && final(self).enabled == enabled
                && change == icon_change(old(self).enabled, enabled),
    {
        match command {
            TrayCommand::SetEnabled(enabled) => self.set_enabled(enabled),
        }
    }

    /// What is done about a message.
    pub open spec fn reaction(self, message: u32, wparam: u64, lparam: u64) -> TrayReaction {
        if message == TRAY_CALLBACK && lparam % 0x1_0000_0000 == WM_LBUTTONUP {
            TrayReaction::Request(TrayRequest::OpenSettings)
        } else if message == TRAY_CALLBACK && lparam % 0x1_0000_0000 == WM_RBUTTONUP {
            TrayReaction::ShowMenu
        } else if message == WM_COMMAND {
            let entry = wparam % 0x10000;
            if entry == MENU_TOGGLE {
                TrayReaction::Request(TrayRequest::ToggleRecording)
            } else if entry == MENU_SETTINGS {
                TrayReaction::Request(TrayRequest::OpenSettings)
            } else if entry == MENU_QUIT {
                TrayReaction::Request(TrayRequest::Quit)
            } else {
                TrayReaction::Ignore
            }
        } else if message == WM_TIMER {
            TrayReaction::Ignore
        } else if message == WM_DESTROY {
            TrayReaction::Close(
                if self.enabled {
                    Some(IconChange::Remove)
                } else {
                    None
                },
            )
        } else {
            TrayReaction::Default
        }
    }

    /// Takes in a message: what is done about it.
    pub fn on_message(&mut self, message: u32, wparam: u64, lparam: u64) -> (reaction: TrayReaction)
        ensures
            reaction == old(self).reaction(message, wparam, lparam),
            final(self).enabled == (old(self).enabled && message != WM_DESTROY),
    {
        let event: u64 = lparam % 0x1_0000_0000;
        if message == TRAY_CALLBACK && event == WM_LBUTTONUP as u64 {
            TrayReaction::Request(TrayRequest::OpenSettings)
        } else if message == TRAY_CALLBACK && event == WM_RBUTTONUP as u64 {
            TrayReaction::ShowMenu
        } else if message == WM_COMMAND {
            let entry: u64 = wparam % 0x10000;
            if entry == MENU_TOGGLE {
                TrayReaction::Request(TrayRequest::ToggleRecording)
            } else if entry == MENU_SETTINGS {
                TrayReaction::Request(TrayRequest::OpenSettings)
            } else if entry == MENU_QUIT {
                TrayReaction::Request(TrayRequest::Quit)
            } else {
                TrayReaction::Ignore
            }
        } else if message == WM_TIMER {
            TrayReaction::Ignore
        } else if message == WM_DESTROY {
            TrayReaction::Close(self.set_enabled(false))
        } else {
            TrayReaction::Default
        }
    }
}

/// What is done to the icon as the tray is switched.
pub open spec fn icon_change(was: bool, enabled: bool) -> Option<IconChange> {
    if enabled == was {
        None
    } else if enabled {
        Some(IconChange::Add)
    } else {
        Some(IconChange::Remove)
    }
}

/// The icon as a change leaves it.
pub open spec fn shown_after(shown: bool, change: Option<IconChange>) -> bool {
    match change {
        Some(IconChange::Add) => true,
        Some(IconChange::Remove) => false,
        None => shown,
    }
}

/// An icon that is shown while the tray is on stays so: each switch shows or hides it as
/// is asked and never twice, and the end of the window takes it away.
pub proof fn the_icon_is_shown_while_the_tray_is_on(
    tray: TrayController,
    enabled: bool,
    wparam: u64,
    lparam: u64,
)
    ensures
        shown_after(tray.enabled, icon_change(tray.enabled, enabled)) == enabled,
        icon_change(enabled, enabled) is None,
        tray.reaction(0x2, wparam, lparam) is Close,
        !shown_after(tray.enabled, tray.reaction(0x2, wparam, lparam)->Close_0),
        !tray.enabled ==> tray.reaction(0x2, wparam, lparam)->Close_0 is None,
{
}

/// A click on the icon opens the settings, and the other button the menu, whose entries
/// toggle the recording, open the settings and quit; nothing else asks for anything.
pub proof fn the_tray_asks_for_what_was_chosen(
    tray: TrayController,
    message: u32,
    wparam: u64,
    lparam: u64,
)
    ensures
        ({
            let reaction = tray.reaction(message, wparam, lparam);
            let clicked = message == 0x8001 && lparam % 0x1_0000_0000 == 0x202;
            let chosen = |entry: int| message == 0x111 && wparam % 0x10000 == entry;
            &&& reaction == TrayReaction::Request(TrayRequest::OpenSettings) <==> clicked
                || chosen(2)
            &&& reaction == TrayReaction::Request(TrayRequest::ToggleRecording) <==> chosen(1)
            &&& reaction == TrayReaction::Request(TrayRequest::Quit) <==> chosen(3)
            &&& reaction == TrayReaction::ShowMenu <==> message == 0x8001 && lparam
                % 0x1_0000_0000 == 0x205
        }),
{
}

} // verus!
