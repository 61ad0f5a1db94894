//! The window that a text is pasted into.
use crate::text::{joined, owned};
use vstd::prelude::*;

verus! {

/// A window that had the focus.
#[derive(Clone, Copy, Debug, PartialEq, Eq, Structural)]
pub struct FocusTarget {
    pub hwnd: isize,
}

/// The window in the foreground, and whether it is the app's own.
#[derive(Clone, Copy, Debug, PartialEq, Eq, Structural)]
pub struct Foreground {
    pub window: Option<FocusTarget>,
    pub own: bool,
}

/// The window that has to be brought back before pasting: none while the user is
/// in a window of another app, since the text then goes there; the window of the
/// start of the recording while the app itself is in front, or nothing is.
pub open spec fn paste_focus(initial: Option<FocusTarget>, current: Foreground) -> Option<
    FocusTarget,
> {
    if current.window is Some && !current.own {
        None
    } else {
        initial
    }
}

/// The window that has to be brought back before pasting.
pub fn focus_to_restore(initial: Option<FocusTarget>, current: Foreground) -> (focus: Option<
    FocusTarget,
>)
    ensures
        focus == paste_focus(initial, current),
{
    match current.window {
        Some(_) => if current.own {
            initial
        } else {
            None
        },
        None => initial,
    }
}

/// Why a window could not be brought back.
#[derive(Clone, Copy, Debug, PartialEq, Eq, Structural)]
pub enum FocusFailure {
    NotCaptured,
    Gone,
    Rejected,
}

impl FocusFailure {
    /// The wording of the failure; `window` describes the window.
    pub open spec fn wording(self, window: Seq<char>) -> Seq<char> {
        match self {
            FocusFailure::NotCaptured => "no captured window"@,
            FocusFailure::Gone => "captured window gone ("@ + window + ")"@,
            FocusFailure::Rejected => "SetForegroundWindow rejected for "@ + window,
        }
    }

    /// The wording of the failure; `window` describes the window.
    pub fn text(self, window: &str) -> (text: String)
        ensures
            text@ == self.wording(window@),
    {
        match self {
            FocusFailure::NotCaptured => owned("no captured window"),
            FocusFailure::Gone => joined(joined("captured window gone (", window).as_str(), ")"),
            FocusFailure::Rejected => joined("SetForegroundWindow rejected for ", window),
        }
    }
}

/// Whether a window may be brought back at all: it must have been captured and
/// still exist.
pub fn may_restore(target: FocusTarget, exists: bool) -> (r: Result<(), FocusFailure>)
    ensures
        r == (if target.hwnd == 0 {
            Err(FocusFailure::NotCaptured)
        } else if !exists {
            Err(FocusFailure::Gone)
        } else {
            Ok::<(), FocusFailure>(())
        }),
{
    if target.hwnd == 0 {
        Err(FocusFailure::NotCaptured)
    } else if !exists {
        Err(FocusFailure::Gone)
    } else {
        Ok(())
    }
}

/// Text goes where the user is now: the window that was in front at first is brought back
/// only where none but the app's own is in front.
pub proof fn the_window_in_front_gets_the_text(
    initial: Option<FocusTarget>,
    current: Foreground,
)
    ensures
        current.window is Some && !current.own ==> paste_focus(initial, current) is None,
        current.own ==> paste_focus(initial, current) == initial,
        current.window is None ==> paste_focus(initial, current) == initial,
{
}

/// A window is brought back exactly where one was seen and is still there.
pub proof fn windows_that_are_there_are_restored(
    target: FocusTarget,
    exists: bool,
    r: Result<(), FocusFailure>,
)
    requires
        call_ensures(may_restore, (target, exists), r),
    ensures
        r is Ok <==> target.hwnd != 0 && exists,
        target.hwnd == 0 ==> r == Err::<(), FocusFailure>(FocusFailure::NotCaptured),
        target.hwnd != 0 && !exists ==> r == Err::<(), FocusFailure>(FocusFailure::Gone),
{
}

} // verus!
