use amanuensis::asr::worker::{Command, Event};
use amanuensis::asr::Mode;
use amanuensis::audio::Sound;
use amanuensis::dictation::{
    capture_wanted, Dictation, Effect, HotkeyMessage, PasteResult, Phase, FLASH_NANOS,
    SETTLE_NANOS,
};
use amanuensis::win_focus::{FocusTarget, Foreground};

const EDITOR: FocusTarget = FocusTarget { hwnd: 7 };

const OTHER: FocusTarget = FocusTarget { hwnd: 8 };

fn front(window: FocusTarget, own: bool) -> Foreground {
    Foreground { window: Some(window), own }
}

fn idle() -> Dictation {
    let mut d = Dictation::new(false);
    let effects = d.handle_asr_event(Event::Ready, 0, front(EDITOR, false));
    assert!(effects.is_empty());
    assert_eq!(d.phase, Phase::Idle);
    d
}

fn recording() -> Dictation {
    let mut d = idle();
    d.toggle_recording(10, Some(EDITOR));
    assert_eq!(d.phase, Phase::Recording);
    d
}

fn commit(d: &Dictation, text: &str, samples: u64, rewritten: bool) -> Event {
    Event::Committed { text: text.to_owned(), samples, epoch: d.epoch, rewritten }
}

fn pasted(effects: &[Effect]) -> Option<(String, Option<FocusTarget>)> {
    let mut found = None;
    for effect in effects {
        if let Effect::Paste { text, focus } = effect {
            found = Some((text.clone(), *focus));
        }
    }
    found
}

#[test]
fn mic_captured_only_while_recording_or_checking() {
    assert!(capture_wanted(Some(Phase::Recording), false));
    for phase in [Phase::Loading, Phase::Idle, Phase::Transcribing, Phase::Flash] {
        assert!(!capture_wanted(Some(phase), false), "{phase:?} must not capture");
    }
    assert!(capture_wanted(None, true));
    assert!(!capture_wanted(None, false));
}

#[test]
fn a_recording_begins_and_ends() {
    let mut d = idle();
    let begun = d.toggle_recording(10, Some(EDITOR));
    assert_eq!(
        format!("{begun:?}"),
        "[Escape(true), Play(Start), Pill(Show(Recording)), Pill(RecordingStarted(10))]"
    );
    assert_eq!(d.epoch, 1);
    assert_eq!(d.focus, Some(EDITOR));
    let ended = d.toggle_recording(20, Some(OTHER));
    assert_eq!(
        format!("{ended:?}"),
        "[Escape(false), Pill(Show(Transcribing)), Pill(TranscribingStarted(20)), Send(Stop { epoch: 1 })]"
    );
    assert_eq!(d.phase, Phase::Transcribing);
    assert_eq!(d.focus, Some(EDITOR));
}

#[test]
fn the_session_starts_with_the_first_audio() {
    let mut d = recording();
    assert!(d.forward_audio(&[]).is_empty());
    assert!(!d.start_sent);
    let commands = d.forward_audio(&[480, 480]);
    assert_eq!(
        format!("{commands:?}"),
        "[Start { epoch: 1 }, Chunk { samples: 480 }, Chunk { samples: 480 }]"
    );
    let more = d.forward_audio(&[480]);
    assert_eq!(format!("{more:?}"), "[Chunk { samples: 480 }]");
}

#[test]
fn committed_text_goes_to_the_window_in_front() {
    let mut d = recording();
    d.done_clicked(20);
    let event = commit(&d, "um hello , world", 16000, false);
    let effects = d.handle_asr_event(event, 30, front(OTHER, false));
    assert_eq!(pasted(&effects), Some(("hello, world".to_owned(), None)));
    assert_eq!(d.phase, Phase::Flash);
    assert_eq!(d.handle_paste_result(PasteResult::Pasted(12)), Sound::Success);
    assert_eq!(d.handle_paste_result(PasteResult::Failed), Sound::Failure);
}

#[test]
fn the_apps_own_window_gives_the_focus_back() {
    let mut d = recording();
    d.done_clicked(20);
    let event = commit(&d, "hello", 16000, false);
    let effects = d.handle_asr_event(event, 30, front(OTHER, true));
    assert_eq!(pasted(&effects), Some(("hello".to_owned(), Some(EDITOR))));
}

#[test]
fn rewritten_text_is_only_trimmed() {
    let mut d = recording();
    d.done_clicked(20);
    let event = commit(&d, "  um, quite so ", 16000, true);
    let effects = d.handle_asr_event(event, 30, front(EDITOR, false));
    assert_eq!(pasted(&effects), Some(("um, quite so".to_owned(), None)));
}

#[test]
fn short_recordings_and_bare_fillers_are_not_pasted() {
    for (text, samples) in [("hello", 4799), ("um", 16000), ("  ", 16000)] {
        let mut d = recording();
        d.done_clicked(20);
        let event = commit(&d, text, samples, false);
        let effects = d.handle_asr_event(event, 30, front(EDITOR, false));
        assert_eq!(pasted(&effects), None);
        assert_eq!(d.phase, Phase::Flash);
    }
    let mut d = recording();
    d.done_clicked(20);
    let event = commit(&d, "hello", 4800, false);
    let effects = d.handle_asr_event(event, 30, front(EDITOR, false));
    assert!(pasted(&effects).is_some());
}

#[test]
fn a_discarded_recording_is_dropped_with_its_queued_start() {
    let mut d = recording();
    let effects = d.discard_clicked(20);
    assert!(matches!(effects[0], Effect::Play(Sound::Cancel)));
    assert_eq!(d.phase, Phase::Transcribing);
    d.toggle_recording(21, Some(EDITOR));
    assert!(d.pending_start);
    let event = commit(&d, "hello", 16000, false);
    let effects = d.handle_asr_event(event, 30, front(EDITOR, false));
    assert_eq!(pasted(&effects), None);
    assert_eq!(d.phase, Phase::Flash);
    assert!(!d.pending_start);
    assert!(!d.discard_requested);
}

#[test]
fn discarding_while_transcribing_sends_no_second_stop() {
    let mut d = recording();
    d.done_clicked(20);
    let effects = d.discard_clicked(21);
    assert_eq!(format!("{effects:?}"), "[Play(Cancel)]");
    assert!(idle().discard_clicked(5).is_empty());
    assert!(idle().done_clicked(5).is_empty());
}

#[test]
fn a_stale_commit_is_dropped() {
    let mut d = recording();
    d.done_clicked(20);
    let before = d;
    let event =
        Event::Committed { text: "old".to_owned(), samples: 16000, epoch: 0, rewritten: false };
    assert!(d.handle_asr_event(event, 30, front(EDITOR, false)).is_empty());
    assert_eq!(d, before);
}

#[test]
fn a_start_queued_while_loading_is_kept() {
    let mut d = Dictation::new(false);
    assert!(d.toggle_recording(1, Some(EDITOR)).is_empty());
    let effects = d.handle_asr_event(Event::ModelReady(Mode::Live), 2, front(OTHER, false));
    assert_eq!(effects.len(), 4);
    assert_eq!(d.phase, Phase::Recording);
    assert_eq!(d.mode, Mode::Live);
    assert_eq!(d.focus, Some(OTHER));
    let mut d = Dictation::new(true);
    d.cancel_pending_start();
    d.handle_asr_event(Event::Ready, 2, front(OTHER, false));
    assert_eq!(d.phase, Phase::Idle);
}

#[test]
fn a_start_queued_while_transcribing_begins_the_next_recording() {
    let mut d = recording();
    d.done_clicked(20);
    d.toggle_recording(25, Some(EDITOR));
    let event = commit(&d, "hello", 16000, false);
    let effects = d.handle_asr_event(event, 30, front(EDITOR, false));
    assert!(pasted(&effects).is_some());
    assert_eq!(d.phase, Phase::Recording);
    assert_eq!(d.epoch, 2);
}

#[test]
fn the_flash_ends_after_a_second() {
    let mut d = recording();
    d.done_clicked(20);
    let event = commit(&d, "", 0, false);
    d.handle_asr_event(event, 30, front(EDITOR, false));
    assert!(d.tick_flash(30 + FLASH_NANOS - 1, None).is_empty());
    assert_eq!(d.phase, Phase::Flash);
    let effects = d.tick_flash(30 + FLASH_NANOS, None);
    assert_eq!(format!("{effects:?}"), "[Pill(Hide)]");
    assert_eq!(d.phase, Phase::Idle);
}

#[test]
fn the_debug_key_reloads_an_idle_engine() {
    let mut d = idle();
    let effects = d.handle_hotkey(HotkeyMessage::DebugReload, 5, None);
    assert!(matches!(effects[..], [Effect::Send(Command::ReloadForDebug)]));
    let mut d = recording();
    assert!(d.handle_hotkey(HotkeyMessage::DebugReload, 15, None).is_empty());
    assert_eq!(d.handle_hotkey(HotkeyMessage::ToggleRecording, 15, None).len(), 4);
}

#[test]
fn levels_show_once_the_microphone_has_settled() {
    let d = recording();
    assert!(!d.levels_shown(10 + SETTLE_NANOS - 1));
    assert!(d.levels_shown(10 + SETTLE_NANOS));
    assert!(idle().levels_shown(0));
}

#[test]
fn recordings_are_numbered_without_end() {
    let mut d = Dictation { epoch: u64::MAX, ..idle() };
    d.toggle_recording(10, None);
    assert_eq!(d.epoch, 0);
}
