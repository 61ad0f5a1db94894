use amanuensis::esc_hook::{
    escape_action, EscapeAction, WM_KEYDOWN, WM_KEYUP, WM_SYSKEYDOWN, WM_SYSKEYUP,
};

const ESC: u32 = 0x1b;
const KEY_A: u32 = 0x41;
const WM_APP: u32 = 0x8000;

#[test]
fn passes_everything_through_when_inactive() {
    assert_eq!(
        escape_action(ESC, WM_KEYDOWN, false, false),
        EscapeAction::PassThrough
    );
    assert_eq!(
        escape_action(ESC, WM_KEYUP, false, true),
        EscapeAction::PassThrough
    );
    assert_eq!(
        escape_action(KEY_A, WM_KEYDOWN, false, false),
        EscapeAction::PassThrough
    );
}

#[test]
fn triggers_discard_on_fresh_press_only() {
    assert_eq!(
        escape_action(ESC, WM_KEYDOWN, true, false),
        EscapeAction::TriggerDiscard
    );
    assert_eq!(
        escape_action(ESC, WM_SYSKEYDOWN, true, false),
        EscapeAction::TriggerDiscard
    );
    assert_eq!(
        escape_action(ESC, WM_KEYDOWN, true, true),
        EscapeAction::Swallow
    );
}

#[test]
fn swallows_release_of_a_swallowed_press_only() {
    assert_eq!(
        escape_action(ESC, WM_KEYUP, true, true),
        EscapeAction::Swallow
    );
    assert_eq!(
        escape_action(ESC, WM_SYSKEYUP, true, true),
        EscapeAction::Swallow
    );
    assert_eq!(
        escape_action(ESC, WM_KEYUP, true, false),
        EscapeAction::PassThrough
    );
}

#[test]
fn other_keys_never_intercept_even_when_active() {
    assert_eq!(
        escape_action(KEY_A, WM_KEYDOWN, true, false),
        EscapeAction::PassThrough
    );
    assert_eq!(
        escape_action(KEY_A, WM_KEYUP, true, false),
        EscapeAction::PassThrough
    );
}

#[test]
fn unknown_messages_pass_through() {
    assert_eq!(
        escape_action(ESC, WM_APP, true, false),
        EscapeAction::PassThrough
    );
}
