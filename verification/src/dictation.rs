//! One dictation at a time: from the hotkey to the pasted text. Clock readings are
//! in nanoseconds.
use crate::asr::worker::{Command, Event};
use crate::asr::Mode;
use crate::audio::Sound;
use crate::paste::{clean_transcript, MIN_AUDIO_SAMPLES};
use crate::pill::{PillCommand, PillMode};
use crate::text::trim;
use crate::win_focus::{focus_to_restore, FocusTarget, Foreground};
use vstd::prelude::*;

verus! {

/// How long the done flash lasts.
pub const FLASH_NANOS: u64 = 1_000_000_000;

/// How long a freshly opened microphone is left to settle before its levels show.
pub const SETTLE_NANOS: u64 = 300_000_000;

/// Where a dictation stands.
#[derive(Clone, Copy, Debug, PartialEq, Eq, Structural)]
pub enum Phase {
    /// The engine is not ready yet.
    Loading,
    Idle,
    Recording,
    Transcribing,
    /// A commit came in; the pill says so for a moment.
    Flash,
}

/// A key that the app reacts to from anywhere.
#[derive(Clone, Copy, Debug, PartialEq, Eq, Structural)]
pub enum HotkeyMessage {
    ToggleRecording,
    DebugReload,
}

/// How pasting went: the number of characters, or a failure.
#[derive(Clone, Copy, Debug, PartialEq, Eq, Structural)]
pub enum PasteResult {
    Pasted(usize),
    Failed,
}

/// What has to be done.
#[derive(Debug)]
pub enum Effect {
    /// Escape discards the recording from anywhere, or no longer does.
    Escape(bool),
    Play(Sound),
    Pill(PillCommand),
    Send(Command),
    Paste { text: String, focus: Option<FocusTarget> },
}

/// What has to be done, as a mathematical value.
pub ghost enum EffectView {
    Escape(bool),
    Play(Sound),
    Pill(PillCommand),
    Send(Command),
    Paste { text: Seq<char>, focus: Option<FocusTarget> },
}

impl View for Effect {
    type V = EffectView;

    open spec fn view(&self) -> EffectView {
        match *self {
            Effect::Escape(on) => EffectView::Escape(on),
            Effect::Play(sound) => EffectView::Play(sound),
            Effect::Pill(command) => EffectView::Pill(command),
            Effect::Send(command) => EffectView::Send(command),
            Effect::Paste { text, focus } => EffectView::Paste { text: text@, focus },
        }
    }
}

/// The effects of a list as mathematical values.
pub open spec fn views(effects: Seq<Effect>) -> Seq<EffectView> {
    effects.map_values(|e: Effect| e@)
}

/// A dictation.
#[derive(Clone, Copy, Debug, PartialEq, Eq, Structural)]
pub struct Dictation {
    pub phase: Phase,
    pub mode: Mode,
    /// A start was asked for while none was possible.
    pub pending_start: bool,
    pub transcribing_since: Option<u64>,
    /// The window in front when the recording began.
    pub focus: Option<FocusTarget>,
    pub recording_started: Option<u64>,
    /// The next commit is to be dropped.
    pub discard_requested: bool,
    pub flash_since: Option<u64>,
    /// The worker was told of this recording.
    pub start_sent: bool,
    /// The number of the recording.
    pub epoch: u64,
}

/// The number after `epoch`.
pub open spec fn next_epoch(epoch: u64) -> u64 {
    if epoch == u64::MAX {
        0
    } else {
        (epoch + 1) as u64
    }
}

/// Whether `span` nanoseconds have gone by since `since`.
pub open spec fn gone_by(since: u64, now: u64, span: u64) -> bool {
    now - since >= span
}

impl Dictation {
    /// A recording begins.
    pub open spec fn begun(self, now: u64, window: Option<FocusTarget>) -> (
        Dictation,
        Seq<EffectView>,
    ) {
        (
            Dictation {
                epoch: next_epoch(self.epoch),
                focus: window,
                phase: Phase::Recording,
                transcribing_since: None,
                flash_since: None,
                recording_started: Some(now),
                start_sent: false,
                ..self
            },
            seq![
                EffectView::Escape(true),
                EffectView::Play(Sound::Start),
                EffectView::Pill(PillCommand::Show(PillMode::Recording)),
                EffectView::Pill(PillCommand::RecordingStarted(now)),
            ],
        )
    }

    /// The recording ends, however it came to that.
    pub open spec fn ended(self, now: u64) -> (Dictation, Seq<EffectView>) {
        (
            Dictation {
                phase: Phase::Transcribing,
                transcribing_since: Some(now),
                recording_started: None,
                ..self
            },
            seq![
                EffectView::Escape(false),
                EffectView::Pill(PillCommand::Show(PillMode::Transcribing)),
                EffectView::Pill(PillCommand::TranscribingStarted(now)),
                EffectView::Send(Command::Stop { epoch: self.epoch }),
            ],
        )
    }

    /// The record key.
    pub open spec fn toggled(self, now: u64, window: Option<FocusTarget>) -> (
        Dictation,
        Seq<EffectView>,
    ) {
        match self.phase {
            Phase::Loading | Phase::Transcribing => (
                Dictation { pending_start: true, ..self },
                seq![],
            ),
            Phase::Idle | Phase::Flash => self.begun(now, window),
            Phase::Recording => self.ended(now),
        }
    }

    /// The user discards the recording. While it is being transcribed a stop is
    /// already under way, so only its commit is marked.
    pub open spec fn discarded(self, now: u64) -> (Dictation, Seq<EffectView>) {
        let marked = Dictation { discard_requested: true, ..self };
        let cancel = EffectView::Play(Sound::Cancel);
        match self.phase {
            Phase::Transcribing => (marked, seq![cancel]),
            Phase::Recording => (marked.ended(now).0, seq![cancel] + marked.ended(now).1),
            _ => (self, seq![]),
        }
    }

    /// The user finishes the recording.
    pub open spec fn finished(self, now: u64) -> (Dictation, Seq<EffectView>) {
        if self.phase == Phase::Recording {
            self.ended(now)
        } else {
            (self, seq![])
        }
    }

    /// The done flash begins.
    pub open spec fn flashing(self, now: u64) -> (Dictation, Seq<EffectView>) {
        (
            Dictation { phase: Phase::Flash, flash_since: Some(now), ..self },
            seq![EffectView::Pill(PillCommand::FlashStarted)],
        )
    }

    /// The done flash is looked at: once it is over, a queued start is consumed, or
    /// else the pill is hidden.
    pub open spec fn ticked(self, now: u64, window: Option<FocusTarget>) -> (
        Dictation,
        Seq<EffectView>,
    ) {
        if self.phase == Phase::Flash && self.flash_since is Some && gone_by(
            self.flash_since->0,
            now,
            FLASH_NANOS,
        ) {
            if self.pending_start {
                Dictation { pending_start: false, ..self }.begun(now, window)
            } else {
                (
                    Dictation { phase: Phase::Idle, flash_since: None, ..self },
                    seq![EffectView::Pill(PillCommand::Hide)],
                )
            }
        } else {
            (self, seq![])
        }
    }

    /// What is pasted of a committed text: rewritten text is only trimmed, raw text
    /// is cleaned; nothing if that leaves nothing, or the recording was too short.
    pub open spec fn pasted(
        self,
        text: Seq<char>,
        samples: u64,
        rewritten: bool,
        current: Foreground,
    ) -> Seq<EffectView> {
        let clean = if rewritten {
            crate::text::trimmed(text)
        } else {
            crate::paste::cleaned(text)
        };
        if clean.len() == 0 || samples < MIN_AUDIO_SAMPLES {
            seq![]
        } else {
            seq![
                EffectView::Paste {
                    text: clean,
                    focus: crate::win_focus::paste_focus(self.focus, current),
                },
            ]
        }
    }

    /// A text was committed.
    pub open spec fn committed(
        self,
        text: Seq<char>,
        samples: u64,
        epoch: u64,
        rewritten: bool,
        now: u64,
        current: Foreground,
    ) -> (Dictation, Seq<EffectView>) {
        if epoch != self.epoch || self.phase != Phase::Transcribing {
            (self, seq![])
        } else if self.discard_requested {
            Dictation {
                transcribing_since: None,
                discard_requested: false,
                pending_start: false,
                ..self
            }.flashing(now)
        } else {
            let (flash, shown) = Dictation { transcribing_since: None, ..self }.flashing(now);
            let sent = shown + self.pasted(text, samples, rewritten, current);
            if self.pending_start {
                let (next, started) = Dictation { pending_start: false, ..flash }.begun(
                    now,
                    current.window,
                );
                (next, sent + started)
            } else {
                (flash, sent)
            }
        }
    }

    /// The worker reported something.
    pub open spec fn told(
        self,
        event: crate::asr::worker::EventView,
        now: u64,
        current: Foreground,
    ) -> (Dictation, Seq<EffectView>) {
        match event {
            crate::asr::worker::EventView::LoadingProgress(_) => (self, seq![]),
            crate::asr::worker::EventView::Partial(_) => (self, seq![]),
            crate::asr::worker::EventView::Ready => self.ready(now, current.window),
            crate::asr::worker::EventView::ModelReady(mode) => Dictation { mode, ..self }.ready(
                now,
                current.window,
            ),
            crate::asr::worker::EventView::Committed { text, samples, epoch, rewritten } =>
                self.committed(text, samples, epoch, rewritten, now, current),
        }
    }

    /// The engine is ready: a queued start is consumed.
    pub open spec fn ready(self, now: u64, window: Option<FocusTarget>) -> (
        Dictation,
        Seq<EffectView>,
    ) {
        if self.phase != Phase::Loading {
            (self, seq![])
        } else if self.pending_start {
            Dictation { pending_start: false, ..self }.begun(now, window)
        } else {
            (Dictation { phase: Phase::Idle, ..self }, seq![])
        }
    }

    /// A dictation whose engine is loading.
    pub fn new(pending_start: bool) -> (d: Dictation)
        ensures
            d == (Dictation {
                phase: Phase::Loading,
                mode: Mode::Record,
                pending_start,
                transcribing_since: None,
                focus: None,
                recording_started: None,
                discard_requested: false,
                flash_since: None,
                start_sent: false,
                epoch: 0,
            }),
    {
        Dictation {
            phase: Phase::Loading,
            mode: Mode::Record,
            pending_start,
            transcribing_since: None,
            focus: None,
            recording_started: None,
            discard_requested: false,
            flash_since: None,
            start_sent: false,
            epoch: 0,
        }
    }

    fn begin_recording(&mut self, now: u64, window: Option<FocusTarget>, effects: &mut Vec<Effect>)
        ensures
            *final(self) == old(self).begun(now, window).0,
            views(final(effects)@) == views(old(effects)@) + old(self).begun(now, window).1,
    {
        if self.epoch == u64::MAX {
            self.epoch = 0;
        } else {
            self.epoch = self.epoch + 1;
        }
        self.focus = window;
        self.phase = Phase::Recording;
        self.transcribing_since = None;
        self.flash_since = None;
        self.recording_started = Some(now);
        self.start_sent = false;
        effects.push(Effect::Escape(true));
        effects.push(Effect::Play(Sound::Start));
        effects.push(Effect::Pill(PillCommand::Show(PillMode::Recording)));
        effects.push(Effect::Pill(PillCommand::RecordingStarted(now)));
        assert(views(effects@) =~= views(old(effects)@) + old(self).begun(now, window).1);
    }

    fn stop_recording(&mut self, now: u64, effects: &mut Vec<Effect>)
        ensures
            *final(self) == old(self).ended(now).0,
            views(final(effects)@) == views(old(effects)@) + old(self).ended(now).1,
    {
        self.phase = Phase::Transcribing;
        self.transcribing_since = Some(now);
        self.recording_started = None;
        effects.push(Effect::Escape(false));
        effects.push(Effect::Pill(PillCommand::Show(PillMode::Transcribing)));
        effects.push(Effect::Pill(PillCommand::TranscribingStarted(now)));
        effects.push(Effect::Send(Command::Stop { epoch: self.epoch }));
        assert(views(effects@) =~= views(old(effects)@) + old(self).ended(now).1);
    }

    /// The record key: starts a recording, ends it, or queues a start.
    pub fn toggle_recording(&mut self, now: u64, window: Option<FocusTarget>) -> (effects: Vec<
        Effect,
    >)
        ensures
            (*final(self), views(effects@)) == old(self).toggled(now, window),
    {
        let mut effects: Vec<Effect> = Vec::new();
        assert(views(effects@) =~= seq![]);
        match self.phase {
            Phase::Loading | Phase::Transcribing => {
                self.pending_start = true;
            },
            Phase::Idle | Phase::Flash => {
                self.begin_recording(now, window, &mut effects);
            },
            Phase::Recording => {
                self.stop_recording(now, &mut effects);
            },
        }
        assert(views(effects@) =~= old(self).toggled(now, window).1);
        effects
    }

    /// The user discards the recording.
    pub fn discard_clicked(&mut self, now: u64) -> (effects: Vec<Effect>)
        ensures
            (*final(self), views(effects@)) == old(self).discarded(now),
    {
        let mut effects: Vec<Effect> = Vec::new();
        if self.phase == Phase::Transcribing {
            self.discard_requested = true;
            effects.push(Effect::Play(Sound::Cancel));
        } else if self.phase == Phase::Recording {
            self.discard_requested = true;
            effects.push(Effect::Play(Sound::Cancel));
            assert(views(effects@) =~= seq![EffectView::Play(Sound::Cancel)]);
            self.stop_recording(now, &mut effects);
        }
        assert(views(effects@) =~= old(self).discarded(now).1);
        effects
    }

    /// The user finishes the recording.
    pub fn done_clicked(&mut self, now: u64) -> (effects: Vec<Effect>)
        ensures
            (*final(self), views(effects@)) == old(self).finished(now),
    {
        let mut effects: Vec<Effect> = Vec::new();
        assert(views(effects@) =~= seq![]);
        if self.phase == Phase::Recording {
            self.stop_recording(now, &mut effects);
        }
        assert(views(effects@) =~= old(self).finished(now).1);
        effects
    }

    /// Looks whether the done flash is over.
    pub fn tick_flash(&mut self, now: u64, window: Option<FocusTarget>) -> (effects: Vec<Effect>)
        ensures
            (*final(self), views(effects@)) == old(self).ticked(now, window),
    {
        let mut effects: Vec<Effect> = Vec::new();
        assert(views(effects@) =~= seq![]);
        if self.phase == Phase::Flash {
            if let Some(since) = self.flash_since {
                if now >= since && now - since >= FLASH_NANOS {
                    if self.pending_start {
                        self.pending_start = false;
                        self.begin_recording(now, window, &mut effects);
                    } else {
                        self.phase = Phase::Idle;
                        self.flash_since = None;
                        effects.push(Effect::Pill(PillCommand::Hide));
                    }
                }
            }
        }
        assert(views(effects@) =~= old(self).ticked(now, window).1);
        effects
    }

    fn engine_ready(&mut self, now: u64, window: Option<FocusTarget>) -> (effects: Vec<Effect>)
        ensures
            (*final(self), views(effects@)) == old(self).ready(now, window),
    {
        let mut effects: Vec<Effect> = Vec::new();
        assert(views(effects@) =~= seq![]);
        if self.phase == Phase::Loading {
            if self.pending_start {
                self.pending_start = false;
                self.begin_recording(now, window, &mut effects);
            } else {
                self.phase = Phase::Idle;
            }
        }
        assert(views(effects@) =~= old(self).ready(now, window).1);
        effects
    }

    fn commit(
        &mut self,
        text: String,
        samples: u64,
        epoch: u64,
        rewritten: bool,
        now: u64,
        current: Foreground,
    ) -> (effects: Vec<Effect>)
        ensures
            (*final(self), views(effects@)) == old(self).committed(
                text@,
                samples,
                epoch,
                rewritten,
                now,
                current,
            ),
    {
        let mut effects: Vec<Effect> = Vec::new();
        if epoch != self.epoch || self.phase != Phase::Transcribing {
            assert(views(effects@) =~= seq![]);
            return effects;
        }
        self.transcribing_since = None;
        self.phase = Phase::Flash;
        self.flash_since = Some(now);
        effects.push(Effect::Pill(PillCommand::FlashStarted));
        assert(views(effects@) =~= seq![EffectView::Pill(PillCommand::FlashStarted)]);
        if self.discard_requested {
            self.discard_requested = false;
            self.pending_start = false;
            return effects;
        }
        let clean = if rewritten {
            trim(text.as_str())
        } else {
            clean_transcript(text.as_str())
        };
        let ghost shown = views(effects@);
        if !clean.as_str().is_empty() && samples >= MIN_AUDIO_SAMPLES {
            let focus = focus_to_restore(self.focus, current);
            effects.push(Effect::Paste { text: clean, focus });
        }
        assert(views(effects@) =~= shown + old(self).pasted(text@, samples, rewritten, current));
        if self.pending_start {
            self.pending_start = false;
            self.begin_recording(now, current.window, &mut effects);
        }
        effects
    }

    /// The worker reported something.
    pub fn handle_asr_event(&mut self, event: Event, now: u64, current: Foreground) -> (effects:
        Vec<Effect>)
        ensures
            (*final(self), views(effects@)) == old(self).told(event@, now, current),
    {
        match event {
            Event::LoadingProgress(_) | Event::Partial(_) => {
                let effects: Vec<Effect> = Vec::new();
                assert(views(effects@) =~= seq![]);
                effects
            },
            Event::Ready => self.engine_ready(now, current.window),
            Event::ModelReady(mode) => {
                self.mode = mode;
                self.engine_ready(now, current.window)
            },
            Event::Committed { text, samples, epoch, rewritten } => self.commit(
                text,
                samples,
                epoch,
                rewritten,
                now,
                current,
            ),
        }
    }

    /// A key that the app reacts to from anywhere.
    pub open spec fn keyed(self, message: HotkeyMessage, now: u64, window: Option<FocusTarget>) -> (
        Dictation,
        Seq<EffectView>,
    ) {
        match message {
            HotkeyMessage::ToggleRecording => self.toggled(now, window),
            HotkeyMessage::DebugReload => (
                self,
                if self.phase == Phase::Idle {
                    seq![EffectView::Send(Command::ReloadForDebug)]
                } else {
                    seq![]
                },
            ),
        }
    }

    /// A key that the app reacts to from anywhere.
    pub fn handle_hotkey(
        &mut self,
        message: HotkeyMessage,
        now: u64,
        window: Option<FocusTarget>,
    ) -> (effects: Vec<Effect>)
        ensures
            (*final(self), views(effects@)) == old(self).keyed(message, now, window),
    {
        match message {
            HotkeyMessage::ToggleRecording => self.toggle_recording(now, window),
            HotkeyMessage::DebugReload => {
                let mut effects: Vec<Effect> = Vec::new();
                if self.phase == Phase::Idle {
                    effects.push(Effect::Send(Command::ReloadForDebug));
                }
                assert(views(effects@) =~= old(self).keyed(message, now, window).1);
                effects
            },
        }
    }

    /// The sound that tells how pasting went.
    pub fn handle_paste_result(&self, result: PasteResult) -> (sound: Sound)
        ensures
            sound == (match result {
                PasteResult::Pasted(_) => Sound::Success,
                PasteResult::Failed => Sound::Failure,
            }),
    {
        match result {
            PasteResult::Pasted(_) => Sound::Success,
            PasteResult::Failed => Sound::Failure,
        }
    }

    /// Whether captured levels are shown at this time: not while a freshly opened
    /// microphone settles.
    pub fn levels_shown(&self, now: u64) -> (r: bool)
        ensures
            r == !(self.recording_started matches Some(since) && !gone_by(
                since,
                now,
                SETTLE_NANOS,
            )),
    {
        match self.recording_started {
            Some(since) => now >= since && now - since >= SETTLE_NANOS,
            None => true,
        }
    }

    /// What is sent when `chunks` pieces of audio were captured, of the given
    /// sizes: the start of the session goes before the first audio, never earlier.
    pub open spec fn forwarded(self, chunks: Seq<u64>) -> (Dictation, Seq<Command>) {
        let audio = chunks.map_values(|samples: u64| Command::Chunk { samples });
        if chunks.len() > 0 && !self.start_sent {
            (
                Dictation { start_sent: true, ..self },
                seq![Command::Start { epoch: self.epoch }] + audio,
            )
        } else {
            (self, audio)
        }
    }

    /// Forwards captured audio to the worker, after the start of the session.
    pub fn forward_audio(&mut self, chunks: &[u64]) -> (commands: Vec<Command>)
        ensures
            (*final(self), commands@) == old(self).forwarded(chunks@),
    {
        let mut commands: Vec<Command> = Vec::new();
        if chunks.len() > 0 && !self.start_sent {
            commands.push(Command::Start { epoch: self.epoch });
            self.start_sent = true;
        }
        let ghost lead = commands@;
        let ghost audio = chunks@.map_values(|samples: u64| Command::Chunk { samples });
        let mut i: usize = 0;
        while i < chunks.len()
            invariant
                i <= chunks.len(),
                audio == chunks@.map_values(|samples: u64| Command::Chunk { samples }),
                commands@ == lead + audio.subrange(0, i as int),
            decreases chunks.len() - i,
        {
            commands.push(Command::Chunk { samples: chunks[i] });
            i += 1;
            assert(commands@ =~= lead + audio.subrange(0, i as int));
        }
        assert(audio.subrange(0, i as int) =~= audio);
        assert(commands@ =~= old(self).forwarded(chunks@).1);
        commands
    }

    /// Forgets a queued start.
    pub fn cancel_pending_start(&mut self)
        ensures
            *final(self) == (Dictation { pending_start: false, ..*old(self) }),
    {
        self.pending_start = false;
    }
}

/// Whether the microphone is to be captured: while recording, or during the
/// microphone check of setup, where there is no dictation.
pub open spec fn capturing(phase: Option<Phase>, mic_check_active: bool) -> bool {
    match phase {
        Some(phase) => phase == Phase::Recording,
        None => mic_check_active,
    }
}

/// Whether the microphone is to be captured.
pub fn capture_wanted(phase: Option<Phase>, mic_check_active: bool) -> (r: bool)
    ensures
        r == capturing(phase, mic_check_active),
{
    match phase {
        Some(Phase::Recording) => true,
        Some(_) => false,
        None => mic_check_active,
    }
}

/// Anything that can happen to a dictation.
pub ghost enum Happening {
    Key(HotkeyMessage),
    Discard,
    Finish,
    Tick,
    Told(crate::asr::worker::EventView),
    Forward(Seq<u64>),
    CancelPending,
}

impl Dictation {
    /// The dictation after something happened, and what is done about it.
    pub open spec fn after(self, happening: Happening, now: u64, current: Foreground) -> (
        Dictation,
        Seq<EffectView>,
    ) {
        match happening {
            Happening::Key(message) => self.keyed(message, now, current.window),
            Happening::Discard => self.discarded(now),
            Happening::Finish => self.finished(now),
            Happening::Tick => self.ticked(now, current.window),
            Happening::Told(event) => self.told(event, now, current),
            Happening::Forward(chunks) => (
                self.forwarded(chunks).0,
                self.forwarded(chunks).1.map_values(|c: Command| EffectView::Send(c)),
            ),
            Happening::CancelPending => (Dictation { pending_start: false, ..self }, seq![]),
        }
    }

    /// The notes that a dictation keeps belong to its phase.
    pub open spec fn consistent(self) -> bool {
        &&& self.recording_started is Some <==> self.phase == Phase::Recording
        &&& self.transcribing_since is Some <==> self.phase == Phase::Transcribing
        &&& self.flash_since is Some <==> self.phase == Phase::Flash
        &&& self.discard_requested ==> self.phase == Phase::Transcribing
    }
}

/// A new dictation is consistent, and whatever happens keeps it so.
pub proof fn dictations_stay_consistent(
    d: Dictation,
    happening: Happening,
    now: u64,
    current: Foreground,
)
    requires
        d.consistent(),
    ensures
        d.after(happening, now, current).0.consistent(),
{
}

/// Whether Escape is watched after some effects, given whether it was before.
pub open spec fn escape_watched(before: bool, effects: Seq<EffectView>) -> bool
    decreases effects.len(),
{
    if effects.len() == 0 {
        before
    } else {
        match effects.last() {
            EffectView::Escape(on) => on,
            _ => escape_watched(before, effects.drop_last()),
        }
    }
}

proof fn escape_watched_skips(before: bool, a: Seq<EffectView>, b: Seq<EffectView>)
    requires
        forall|i: int| 0 <= i < b.len() ==> !(#[trigger] b[i] is Escape),
    ensures
        escape_watched(before, a + b) == escape_watched(before, a),
    decreases b.len(),
{
    if b.len() == 0 {
        assert(a + b =~= a);
    } else {
        assert((a + b).drop_last() =~= a + b.drop_last());
        assert((a + b).last() == b.last());
        escape_watched_skips(before, a, b.drop_last());
    }
}

/// Escape is watched exactly while a recording runs, on every way into a recording
/// and out of it.
pub proof fn escape_is_watched_while_recording(
    d: Dictation,
    happening: Happening,
    now: u64,
    current: Foreground,
    watched: bool,
)
    requires
        watched == (d.phase == Phase::Recording),
    ensures
        ({
            let (next, effects) = d.after(happening, now, current);
            escape_watched(watched, effects) == (next.phase == Phase::Recording)
        }),
{
    let (next, effects) = d.after(happening, now, current);
    reveal_with_fuel(escape_watched, 7);
    match happening {
        Happening::Forward(chunks) => {
            assert(Seq::<EffectView>::empty() + effects =~= effects);
            escape_watched_skips(watched, Seq::empty(), effects);
        },
        Happening::Discard => {
            if d.phase == Phase::Recording {
                let tail = effects.subrange(2, effects.len() as int);
                assert(effects =~= effects.subrange(0, 2) + tail);
                escape_watched_skips(watched, effects.subrange(0, 2), tail);
                assert(effects.subrange(0, 2).last() == EffectView::Escape(false));
            }
        },
        Happening::Told(event) => {
            if next.phase == Phase::Recording && d.phase == Phase::Transcribing {
                let n = effects.len();
                let tail = effects.subrange(n - 3, n as int);
                assert(effects =~= effects.subrange(0, n - 3) + tail);
                escape_watched_skips(watched, effects.subrange(0, n - 3), tail);
                assert(effects.subrange(0, n - 3).last() == EffectView::Escape(true));
            }
        },
        _ => {},
    }
}

/// A commit of another recording is dropped: it changes nothing and pastes
/// nothing.
pub proof fn stale_commits_are_dropped(
    d: Dictation,
    text: Seq<char>,
    samples: u64,
    epoch: u64,
    rewritten: bool,
    now: u64,
    current: Foreground,
)
    requires
        epoch != d.epoch,
    ensures
        d.committed(text, samples, epoch, rewritten, now, current) == (
            d,
            Seq::<EffectView>::empty(),
        ),
{
}

/// Whether a list of effects pastes something.
pub open spec fn pastes(effects: Seq<EffectView>) -> bool {
    exists|i: int| 0 <= i < effects.len() && #[trigger] effects[i] is Paste
}

/// Text is pasted only for the recording that is being transcribed, if it was not
/// discarded, was long enough, and left something after cleaning.
pub proof fn only_wanted_text_is_pasted(
    d: Dictation,
    happening: Happening,
    now: u64,
    current: Foreground,
)
    requires
        pastes(d.after(happening, now, current).1),
    ensures
        d.phase == Phase::Transcribing,
        !d.discard_requested,
        happening matches Happening::Told(
            crate::asr::worker::EventView::Committed { samples, epoch, .. },
        ) && samples >= MIN_AUDIO_SAMPLES && epoch == d.epoch,
{
    let effects = d.after(happening, now, current).1;
    let i = choose|i: int| 0 <= i < effects.len() && #[trigger] effects[i] is Paste;
    assert(effects[i] is Paste);
}

/// A discarded recording is never pasted: its commit only ends the transcribing
/// phase, and a start that was queued meanwhile is forgotten.
pub proof fn discarded_recordings_are_not_pasted(
    d: Dictation,
    then: u64,
    text: Seq<char>,
    samples: u64,
    rewritten: bool,
    now: u64,
    current: Foreground,
)
    requires
        d.phase == Phase::Recording || d.phase == Phase::Transcribing,
    ensures
        ({
            let marked = d.discarded(then).0;
            let (next, effects) = marked.committed(text, samples, d.epoch, rewritten, now, current);
            &&& !pastes(effects)
            &&& next.phase == Phase::Flash
            &&& !next.pending_start
            &&& !next.discard_requested
        }),
{
}

/// A start that is asked for while a text is being transcribed begins the next
/// recording as soon as the text is committed.
pub proof fn queued_starts_are_kept(
    d: Dictation,
    then: u64,
    window: Option<FocusTarget>,
    text: Seq<char>,
    samples: u64,
    rewritten: bool,
    now: u64,
    current: Foreground,
)
    requires
        d.phase == Phase::Transcribing,
        !d.discard_requested,
    ensures
        ({
            let queued = d.toggled(then, window).0;
            let next = queued.committed(text, samples, d.epoch, rewritten, now, current).0;
            &&& next.phase == Phase::Recording
            &&& next.epoch == next_epoch(d.epoch)
            &&& !next.pending_start
        }),
{
}

/// The audio of a recording always follows the start of its session: the start is
/// sent with the first audio, once.
pub proof fn sessions_start_with_their_audio(d: Dictation, chunks: Seq<u64>)
    requires
        chunks.len() > 0,
    ensures
        ({
            let (next, commands) = d.forwarded(chunks);
            &&& next.start_sent
            &&& commands[0] == (if d.start_sent {
                Command::Chunk { samples: chunks[0] }
            } else {
                Command::Start { epoch: d.epoch }
            })
            &&& forall|i: int| 1 <= i < commands.len() ==> commands[i] is Chunk
        }),
{
}

/// A recording that ends always gets out of the transcribing phase: the worker
/// answers its Stop, also where it never heard of the recording, and the answer is
/// the one that the dictation waits for.
pub proof fn transcribing_always_ends(
    d: Dictation,
    worker: crate::asr::worker::WorkerView,
    text: String,
    result: Option<crate::asr::rewrite::RewriteResult>,
    wall_ms: u64,
    then: u64,
    now: u64,
    current: Foreground,
)
    requires
        d.phase == Phase::Recording,
        worker.stage is Serving,
        worker.active ==> worker.epoch == d.epoch,
    ensures
        ({
            let (waiting, effects) = d.ended(then);
            let stop = Command::Stop { epoch: d.epoch };
            let (closed, sent) = worker.after(crate::asr::worker::Input::Command(stop));
            let (done, committed) = closed.after(crate::asr::worker::Input::Finalized(text));
            let rewritten = done.after(
                crate::asr::worker::Input::Rewritten { result, wall_ms },
            ).1;
            let answer = if !worker.active {
                sent.last()
            } else if done.stage is Rewriting {
                rewritten.last()
            } else {
                committed.last()
            };
            &&& effects.contains(EffectView::Send(stop))
            &&& answer matches crate::asr::worker::ActionView::Send(event) && waiting.told(
                event,
                now,
                current,
            ).0.phase != Phase::Transcribing
        }),
{
    let (waiting, effects) = d.ended(then);
    assert(effects[3] == EffectView::Send(Command::Stop { epoch: d.epoch }));
}

/// The microphone is captured only while the user uses it: during a recording, or
/// during the microphone check.
pub proof fn the_microphone_is_free_otherwise(phase: Option<Phase>, mic_check_active: bool)
    ensures
        capturing(phase, mic_check_active) <==> phase == Some(Phase::Recording) || (phase is None
            && mic_check_active),
{
}

/// The text of the recording that is being transcribed is pasted exactly where it was
/// not discarded, the recording lasted at least 0.3 seconds and something is left of the
/// text: once, as a whole, trimmed if it was rewritten and cleaned if not. It goes to
/// the window in front, or to that of the start of the recording where the app itself or
/// nothing is in front.
pub proof fn wanted_text_is_pasted(
    d: Dictation,
    text: Seq<char>,
    samples: u64,
    rewritten: bool,
    now: u64,
    current: Foreground,
)
    requires
        d.phase == Phase::Transcribing,
        !d.discard_requested,
    ensures
        ({
            let kept = if rewritten {
                crate::text::trimmed(text)
            } else {
                crate::paste::cleaned(text)
            };
            let event = crate::asr::worker::EventView::Committed {
                text,
                samples,
                epoch: d.epoch,
                rewritten,
            };
            let effects = d.told(event, now, current).1;
            let paste = EffectView::Paste {
                text: kept,
                focus: match (current.window, current.own) {
                    (Some(_), false) => None,
                    _ => d.focus,
                },
            };
            &&& effects.len() > 0 && effects[0] == EffectView::Pill(PillCommand::FlashStarted)
            &&& samples >= 4_800 && kept.len() > 0 ==> effects.len() > 1 && effects[1] == paste
                && forall|i: int|
                0 <= i < effects.len() && i != 1 ==> !(#[trigger] effects[i] is Paste)
            &&& samples < 4_800 || kept.len() == 0 ==> !pastes(effects)
        }),
{
}

/// A commit ends the transcribing phase: the next recording begins where one was asked
/// for meanwhile and the text was not discarded, with a number of its own, and else the
/// done flash begins. The pill says so either way.
pub proof fn a_commit_ends_in_a_flash_or_the_next_recording(
    d: Dictation,
    text: Seq<char>,
    samples: u64,
    rewritten: bool,
    now: u64,
    current: Foreground,
)
    requires
        d.phase == Phase::Transcribing,
    ensures
        ({
            let event = crate::asr::worker::EventView::Committed {
                text,
                samples,
                epoch: d.epoch,
                rewritten,
            };
            let (next, effects) = d.told(event, now, current);
            &&& effects.contains(EffectView::Pill(PillCommand::FlashStarted))
            &&& next.transcribing_since is None && !next.pending_start && !next.discard_requested
            &&& next.mode == d.mode
            &&& if d.pending_start && !d.discard_requested {
                &&& next.phase == Phase::Recording
                &&& next.epoch != d.epoch
                &&& next.focus == current.window
                &&& next.recording_started == Some(now)
                &&& effects.contains(EffectView::Play(Sound::Start))
            } else {
                &&& next.phase == Phase::Flash
                &&& next.epoch == d.epoch
                &&& next.flash_since == Some(now)
                &&& !effects.contains(EffectView::Play(Sound::Start))
            }
        }),
{
    let event = crate::asr::worker::EventView::Committed {
        text,
        samples,
        epoch: d.epoch,
        rewritten,
    };
    let (next, effects) = d.told(event, now, current);
    assert(effects[0] == EffectView::Pill(PillCommand::FlashStarted));
    if d.pending_start && !d.discard_requested {
        assert(effects[effects.len() - 3] == EffectView::Play(Sound::Start));
    }
}

/// The record key begins a recording where none is under way, with a number of its own,
/// the window in front, a sound and the pill, and says nothing to the worker yet; ends
/// the one that runs, which tells the worker once, with its number; and otherwise keeps
/// the wish for later and does nothing else.
pub proof fn the_record_key_starts_and_stops(d: Dictation, now: u64, window: Option<FocusTarget>)
    ensures
        ({
            let (next, effects) = d.keyed(HotkeyMessage::ToggleRecording, now, window);
            match d.phase {
                Phase::Idle | Phase::Flash => {
                    &&& next.phase == Phase::Recording
                    &&& next.epoch == (if d.epoch == 0xffff_ffff_ffff_ffff {
                        0int
                    } else {
                        d.epoch + 1
                    })
                    &&& next.focus == window
                    &&& next.recording_started == Some(now)
                    &&& !next.start_sent && next.flash_since is None
                    &&& next.pending_start == d.pending_start && next.mode == d.mode
                    &&& next.discard_requested == d.discard_requested
                    &&& effects.contains(EffectView::Play(Sound::Start))
                    &&& effects.contains(EffectView::Pill(PillCommand::Show(PillMode::Recording)))
                    &&& effects.contains(EffectView::Pill(PillCommand::RecordingStarted(now)))
                    &&& effects.contains(EffectView::Escape(true))
                    &&& forall|i: int|
                        0 <= i < effects.len() ==> !(#[trigger] effects[i] is Send)
                },
                Phase::Recording => {
                    &&& next.phase == Phase::Transcribing
                    &&& next.epoch == d.epoch && next.focus == d.focus
                    &&& next.transcribing_since == Some(now)
                    &&& next.recording_started is None
                    &&& next.discard_requested == d.discard_requested
                    &&& next.pending_start == d.pending_start && next.mode == d.mode
                    &&& effects.contains(
                        EffectView::Pill(PillCommand::Show(PillMode::Transcribing)),
                    )
                    &&& effects.contains(EffectView::Pill(PillCommand::TranscribingStarted(now)))
                    &&& effects.contains(EffectView::Escape(false))
                    &&& effects.last() == EffectView::Send(Command::Stop { epoch: d.epoch })
                    &&& forall|i: int|
                        0 <= i < effects.len() - 1 ==> !(#[trigger] effects[i] is Send)
                },
                _ => {
                    &&& effects.len() == 0
                    &&& next == (Dictation { pending_start: true, ..d })
                },
            }
        }),
{
    let effects = d.keyed(HotkeyMessage::ToggleRecording, now, window).1;
    if effects.len() > 3 {
        assert(effects[0] is Escape);
        assert(effects[1] == effects[1]);
        assert(effects[2] == effects[2]);
        assert(effects[3] == effects[3]);
    }
}

/// Discarding a recording that runs ends it as the key does, after the cancel sound, and
/// marks it; one that is being transcribed is only marked; finishing is what the key does
/// while a recording runs. Nothing is discarded or finished in any other phase.
pub proof fn discarding_and_finishing_end_a_recording(d: Dictation, now: u64)
    ensures
        ({
            let (stopped, stopping) = d.keyed(HotkeyMessage::ToggleRecording, now, None);
            let (discarded, cancelling) = d.discarded(now);
            let (finished, finishing) = d.finished(now);
            match d.phase {
                Phase::Recording => {
                    &&& discarded == (Dictation { discard_requested: true, ..stopped })
                    &&& cancelling == seq![EffectView::Play(Sound::Cancel)] + stopping
                    &&& finished == stopped && finishing == stopping
                },
                Phase::Transcribing => {
                    &&& discarded == (Dictation { discard_requested: true, ..d })
                    &&& cancelling == seq![EffectView::Play(Sound::Cancel)]
                    &&& finished == d && finishing.len() == 0
                },
                _ => {
                    &&& discarded == d && cancelling.len() == 0
                    &&& finished == d && finishing.len() == 0
                },
            }
        }),
{
}

/// The done flash lasts one second: before that nothing changes, and after it a start
/// that was asked for is consumed, or else the pill is hidden.
pub proof fn the_done_flash_lasts_a_second(d: Dictation, now: u64, window: Option<FocusTarget>)
    requires
        d.consistent(),
    ensures
        ({
            let (next, effects) = d.ticked(now, window);
            if d.phase == Phase::Flash && now - d.flash_since->0 >= 1_000_000_000 {
                &&& next.flash_since is None && !next.pending_start
                &&& d.pending_start ==> next.phase == Phase::Recording && effects.contains(
                    EffectView::Play(Sound::Start),
                ) && next.focus == window
                &&& !d.pending_start ==> next.phase == Phase::Idle && effects == seq![
                    EffectView::Pill(PillCommand::Hide),
                ]
            } else {
                next == d && effects.len() == 0
            }
        }),
{
    let effects = d.ticked(now, window).1;
    if effects.len() > 3 {
        assert(effects[1] == EffectView::Play(Sound::Start));
    }
}

/// An engine that is ready ends the loading phase: with the recording that was asked for
/// meanwhile, or else idle. In every other phase it changes nothing but the mode that it
/// names, and progress and partial transcripts change nothing at all.
pub proof fn ready_engines_end_the_loading(
    d: Dictation,
    mode: Mode,
    text: Seq<char>,
    now: u64,
    current: Foreground,
)
    ensures
        ({
            let named = crate::asr::worker::EventView::ModelReady(mode);
            let (ready, effects) = d.told(crate::asr::worker::EventView::Ready, now, current);
            let (swapped, following) = d.told(named, now, current);
            &&& following == effects
            &&& swapped == (Dictation { mode, ..ready })
            &&& ready.mode == d.mode
            &&& d.phase != Phase::Loading ==> ready == d && effects.len() == 0
            &&& d.phase == Phase::Loading && !d.pending_start ==> ready == (Dictation {
                phase: Phase::Idle,
                ..d
            }) && effects.len() == 0
            &&& d.phase == Phase::Loading && d.pending_start ==> ready.phase == Phase::Recording
                && !ready.pending_start && ready.epoch != d.epoch && ready.focus == current.window
                && effects.contains(EffectView::Play(Sound::Start))
            &&& d.told(crate::asr::worker::EventView::LoadingProgress(text), now, current) == (
                d,
                Seq::<EffectView>::empty(),
            )
            &&& d.told(crate::asr::worker::EventView::Partial(text), now, current) == (
                d,
                Seq::<EffectView>::empty(),
            )
        }),
{
    let effects = d.told(crate::asr::worker::EventView::Ready, now, current).1;
    if effects.len() > 3 {
        assert(effects[1] == EffectView::Play(Sound::Start));
    }
}

/// All the captured audio is forwarded in its order, and before the first of it the start
/// of the session, with the number of the recording, where that was not sent yet. Without
/// audio nothing is sent.
pub proof fn captured_audio_is_forwarded_whole(d: Dictation, chunks: Seq<u64>)
    ensures
        ({
            let (next, commands) = d.forwarded(chunks);
            let lead = if chunks.len() > 0 && !d.start_sent {
                1int
            } else {
                0
            };
            &&& commands.len() == lead + chunks.len()
            &&& lead == 1 ==> commands[0] == (Command::Start { epoch: d.epoch })
            &&& forall|i: int|
                0 <= i < chunks.len() ==> #[trigger] commands[lead + i] == (Command::Chunk {
                    samples: chunks[i],
                })
            &&& next == (Dictation { start_sent: d.start_sent || chunks.len() > 0, ..d })
        }),
{
}

/// A paste that went well sounds so, and one that failed does too.
pub proof fn pastes_sound_as_they_went(d: Dictation, result: PasteResult, sound: Sound)
    requires
        call_ensures(Dictation::handle_paste_result, (&d, result), sound),
    ensures
        sound == Sound::Success <==> result is Pasted,
        sound == Sound::Failure <==> result is Failed,
{
}

/// The microphone is open while a recording runs, and otherwise only for the check of it.
pub proof fn the_microphone_is_open_while_recording(phase: Option<Phase>, checking: bool)
    ensures
        phase is Some ==> (capturing(phase, checking) <==> phase->0 == Phase::Recording),
        phase is None ==> (capturing(phase, checking) <==> checking),
{
}

} // verus!
