use amanuensis::pill::{
    apply_alpha, dock_position, format_timer, point_in_round_rect, BarLayout, HoverTarget,
    LevelSource, Metrics, Pill, PillButton, PillCommand, PillMode, PillReaction, Press, Rect,
    Visibility, COLOR_WAVE, COLOR_WAVE_HOVER, FLASH_NANOS, WM_CREATE, WM_DESTROY, WM_LBUTTONDOWN,
    WM_MOUSELEAVE, WM_MOUSEMOVE, WM_RBUTTONUP, WM_SETCURSOR, WM_TIMER,
};
use amanuensis::pill_window::{
    click_through_style, halved, panel_ex_style, panel_handler, panel_place, panel_style, pill_ex_style,
    pill_place, pill_style, progress_handler, Area, Handler, WM_NCCALCSIZE, WM_NCHITTEST,
    WS_EX_APPWINDOW, WS_EX_TRANSPARENT, WS_POPUP,
};
use amanuensis::tray::{
    IconChange, TrayCommand, TrayController, TrayReaction, TrayRequest, MENU_QUIT, MENU_SETTINGS,
    MENU_TOGGLE, TRAY_CALLBACK, WM_COMMAND, WM_LBUTTONUP,
};
use amanuensis::win_focus::{focus_to_restore, may_restore, FocusFailure, FocusTarget, Foreground};

fn metrics() -> Metrics {
    Metrics {
        width: 120,
        height: 36,
        controls: Rect { left: 0, top: 0, right: 120, bottom: 36 },
        pad: 6,
        button: 22,
        bar_w: 2,
        text_x: 32,
        text_w: 56,
    }
}

fn recording() -> Pill {
    let mut pill = Pill::new(metrics());
    assert_eq!(pill.obey(PillCommand::Show(PillMode::Recording), 0), Visibility::Shown);
    pill.obey(PillCommand::RecordingStarted(0), 0);
    pill
}

fn point(x: i32, y: i32) -> u64 {
    ((y as u64) << 16) | x as u64
}

#[test]
fn the_pill_follows_its_commands() {
    let mut pill = recording();
    assert_eq!(pill.mode, Some(PillMode::Recording));
    assert_eq!(pill.update_elapsed(2_000_000_000), Visibility::Unchanged);
    assert_eq!(pill.elapsed, 2_000_000_000);
    let shown = pill.drain_commands(
        &[PillCommand::Show(PillMode::Transcribing), PillCommand::TranscribingStarted(5)],
        5,
    );
    assert_eq!(shown, Visibility::Shown);
    assert_eq!(pill.mode, Some(PillMode::Transcribing));
    assert_eq!(pill.drain_commands(&[PillCommand::Hide], 6), Visibility::Hidden);
    assert_eq!(pill.mode, None);
}

#[test]
fn the_flash_hides_the_pill() {
    let mut pill = recording();
    pill.obey(PillCommand::FlashStarted, 100);
    assert_eq!(pill.mode, Some(PillMode::Flash));
    assert_eq!(pill.update_elapsed(100 + FLASH_NANOS - 1), Visibility::Unchanged);
    assert_eq!(pill.update_elapsed(100 + FLASH_NANOS), Visibility::Hidden);
    assert_eq!(pill.mode, None);
}

#[test]
fn buttons_show_under_the_mouse_while_recording() {
    let mut pill = recording();
    assert!(!pill.buttons_visible());
    let discard = pill.metrics.discard_rect();
    let finish = pill.metrics.finish_rect();
    assert!(discard.right <= finish.left);
    let (watch, redraw) = pill.mouse_moved(discard.left, discard.top);
    assert!(watch && redraw);
    assert!(pill.buttons_visible());
    assert_eq!(pill.hit_test(discard.left, discard.top), HoverTarget::Discard);
    assert_eq!(pill.hit_test(finish.left, finish.top), HoverTarget::Finish);
    assert_eq!(pill.pressed(discard.left, discard.top), Press::Click(PillButton::Discard));
    assert_eq!(pill.pressed(finish.left, finish.top), Press::Click(PillButton::Finish));
    assert!(pill.hand_cursor(finish.left, finish.top));
    pill.mouse_left();
    assert!(!pill.buttons_visible());
    assert_eq!(pill.hover, HoverTarget::Outside);
}

#[test]
fn messages_reach_the_pill() {
    let mut pill = recording();
    assert_eq!(pill.on_message(WM_CREATE, 0, (0, 0), &[], 0), PillReaction::StartTimer);
    assert_eq!(pill.on_message(WM_DESTROY, 0, (0, 0), &[], 0), PillReaction::End);
    assert_eq!(pill.on_message(0x9999, 0, (0, 0), &[], 0), PillReaction::Default);
    let commands = [PillCommand::Hide];
    assert!(matches!(
        pill.on_message(WM_TIMER, 0, (0, 0), &commands, 0),
        PillReaction::Ticked { commanded: Visibility::Hidden, .. }
    ));
    let mut pill = recording();
    let discard = pill.metrics.discard_rect();
    let over = point(discard.left, discard.top);
    assert!(matches!(
        pill.on_message(WM_MOUSEMOVE, over, (0, 0), &[], 0),
        PillReaction::Moved { watch: true, redraw: true }
    ));
    assert_eq!(
        pill.on_message(WM_LBUTTONDOWN, over, (0, 0), &[], 0),
        PillReaction::Click(PillButton::Discard)
    );
    assert_eq!(
        pill.on_message(WM_SETCURSOR, 1, (discard.left, discard.top), &[], 0),
        PillReaction::Hand
    );
    assert_eq!(
        pill.on_message(WM_SETCURSOR, 2, (discard.left, discard.top), &[], 0),
        PillReaction::Default
    );
    assert_eq!(
        pill.on_message(WM_RBUTTONUP, over, (0, 0), &[], 0),
        PillReaction::Click(PillButton::OpenSettings)
    );
    assert_eq!(pill.on_message(WM_MOUSELEAVE, 0, (0, 0), &[], 0), PillReaction::Redraw);
}

#[test]
fn the_pill_is_drawn_after_its_mode() {
    assert!(Pill::new(metrics()).render_pill().is_none());
    let mut pill = recording();
    let picture = pill.render_pill().unwrap();
    assert_eq!(picture.levels, LevelSource::Live);
    assert_eq!(picture.wave_color, COLOR_WAVE);
    assert!(picture.buttons.is_none());
    let discard = pill.metrics.discard_rect();
    pill.mouse_moved(discard.left, discard.top);
    pill.update_elapsed(65_000_000_000);
    let picture = pill.render_pill().unwrap();
    assert_eq!(picture.wave_color, COLOR_WAVE_HOVER);
    assert_eq!(picture.timer, "1:05");
    assert!(picture.buttons.is_some());
    pill.obey(PillCommand::Show(PillMode::Transcribing), 0);
    assert_eq!(pill.render_pill().unwrap().levels, LevelSource::Animated);
}

#[test]
fn timers_show_minutes_and_seconds() {
    assert_eq!(format_timer(0), "0:00");
    assert_eq!(format_timer(59_999_999_999), "0:59");
    assert_eq!(format_timer(600_000_000_000), "10:00");
}

#[test]
fn bars_stand_around_the_middle() {
    let layout = BarLayout { start_x: 10, pitch: 3, bar_w: 2, middle: 18 };
    assert_eq!(layout.bar(0, 10), Rect { left: 10, top: 13, right: 12, bottom: 23 });
    assert_eq!(layout.bar(2, 10).left, 16);
    assert!(metrics().bar_layout().is_some());
}

#[test]
fn round_corners_are_cut() {
    let rect = Rect { left: 0, top: 0, right: 20, bottom: 20 };
    assert!(!point_in_round_rect(0, 0, rect, 8));
    assert!(!point_in_round_rect(19, 19, rect, 8));
    assert!(point_in_round_rect(3, 3, rect, 8));
    assert!(point_in_round_rect(7, 7, rect, 8));
    assert!(point_in_round_rect(10, 0, rect, 8));
    assert!(point_in_round_rect(10, 10, rect, 8));
    assert!(!point_in_round_rect(20, 10, rect, 8));
    let mut pixels = vec![0u8; 20 * 20 * 4];
    let none = Rect { left: 0, top: 0, right: 0, bottom: 0 };
    apply_alpha(&mut pixels, 20, 20, rect, none, 8);
    assert_eq!(pixels[3], 0);
    assert_eq!(pixels[(10 * 20 + 10) * 4 + 3], 255);
}

#[test]
fn the_pill_docks_at_the_bottom() {
    let area = Rect { left: 0, top: 0, right: 1920, bottom: 1040 };
    assert_eq!(dock_position(area, 120, 36, 8), (900, 996));
    let narrow = Rect { right: area.left + 115, ..area };
    assert_eq!(dock_position(narrow, 120, 36, 8), (area.left - 2, 996));
}

#[test]
fn window_styles_switch() {
    let framed = panel_style(WS_POPUP);
    assert_eq!(framed & WS_POPUP, 0);
    assert_eq!(pill_style(framed), WS_POPUP);
    assert_eq!(panel_style(pill_style(framed)), framed);
    assert_eq!(panel_ex_style(pill_ex_style(0)), WS_EX_APPWINDOW);
    assert_eq!(click_through_style(0, true), (WS_EX_TRANSPARENT, true));
    assert_eq!(click_through_style(WS_EX_TRANSPARENT, true), (WS_EX_TRANSPARENT, false));
    assert_eq!(click_through_style(WS_EX_TRANSPARENT, false), (0, true));
}

#[test]
fn windows_have_their_places() {
    let area = Area { x: 0, y: 0, w: 1920, h: 1040 };
    assert_eq!(pill_place(area, 340, 64), (790, 964));
    assert_eq!(panel_place(area, 800, 600), (560, 220));
    assert_eq!(panel_place(area, 801, 601), (559, 219));
    assert_eq!(panel_place(Area { x: 0, y: 0, w: 10, h: 10 }, 13, 10), (-1, 0));
    let wide = Area { x: 0, y: 0, w: i32::MAX, h: i32::MAX };
    assert_eq!(panel_place(wide, 1, 1), (1_073_741_823, 1_073_741_823));
    assert_eq!((halved(7), halved(-7), halved(i32::MIN)), (3, -3, -1_073_741_824));
}

#[test]
fn messages_of_framed_windows() {
    assert_eq!(panel_handler(WM_NCCALCSIZE, true), Handler::System);
    assert_eq!(panel_handler(0x10, true), Handler::Before);
    assert_eq!(panel_handler(0x10, false), Handler::System);
    assert_eq!(progress_handler(WM_NCHITTEST, true, true), Handler::Caption);
    assert_eq!(progress_handler(WM_NCHITTEST, false, true), Handler::System);
}

#[test]
fn the_tray_icon_comes_and_goes() {
    let mut tray = TrayController::new();
    assert_eq!(tray.obey(TrayCommand::SetEnabled(true)), Some(IconChange::Add));
    assert_eq!(tray.set_enabled(true), None);
    assert_eq!(
        tray.on_message(TRAY_CALLBACK, 0, WM_LBUTTONUP as u64),
        TrayReaction::Request(TrayRequest::OpenSettings)
    );
    assert_eq!(tray.on_message(TRAY_CALLBACK, 0, 0x205), TrayReaction::ShowMenu);
    assert_eq!(
        tray.on_message(WM_COMMAND, MENU_TOGGLE, 0),
        TrayReaction::Request(TrayRequest::ToggleRecording)
    );
    assert_eq!(
        tray.on_message(WM_COMMAND, MENU_SETTINGS, 0),
        TrayReaction::Request(TrayRequest::OpenSettings)
    );
    assert_eq!(
        tray.on_message(WM_COMMAND, MENU_QUIT, 0),
        TrayReaction::Request(TrayRequest::Quit)
    );
    assert_eq!(tray.on_message(0x2, 0, 0), TrayReaction::Close(Some(IconChange::Remove)));
    assert!(!tray.enabled);
    assert_eq!(tray.on_message(0x2, 0, 0), TrayReaction::Close(None));
    assert_eq!(tray.set_enabled(false), None);
}

#[test]
fn the_focus_is_brought_back_where_it_was_taken() {
    let editor = Some(FocusTarget { hwnd: 1 });
    let other = Some(FocusTarget { hwnd: 2 });
    assert_eq!(focus_to_restore(editor, Foreground { window: other, own: false }), None);
    assert_eq!(focus_to_restore(editor, Foreground { window: other, own: true }), editor);
    assert_eq!(focus_to_restore(editor, Foreground { window: None, own: false }), editor);
    assert_eq!(may_restore(FocusTarget { hwnd: 0 }, true), Err(FocusFailure::NotCaptured));
    assert_eq!(may_restore(FocusTarget { hwnd: 3 }, false), Err(FocusFailure::Gone));
    assert_eq!(may_restore(FocusTarget { hwnd: 3 }, true), Ok(()));
    assert_eq!(FocusFailure::NotCaptured.text("hwnd=0x3"), "no captured window");
    assert_eq!(FocusFailure::Gone.text("hwnd=0x3"), "captured window gone (hwnd=0x3)");
    assert_eq!(
        FocusFailure::Rejected.text("hwnd=0x3"),
        "SetForegroundWindow rejected for hwnd=0x3",
    );
}
