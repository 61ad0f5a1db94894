//! The pill: the small overlay that shows a recording. Sizes are device pixels,
//! clock readings are in nanoseconds.
use crate::pill_window::halved;
use crate::text::{decimal, two_digits};
use crate::words::{signed_hiword, signed_loword};
use vstd::prelude::*;

verus! {

/// The size of the pill before scaling.
pub const PILL_W: i32 = 120;

pub const PILL_H: i32 = 36;

/// The space around the buttons before scaling.
pub const INNER_PAD: i32 = 6;

/// The size of a button before scaling.
pub const BTN_SIZE: i32 = 22;

/// The space beside a button before scaling.
pub const BTN_GAP: i32 = 4;

/// How many levels come from the microphone.
pub const BARS: usize = 26;

/// How many bars are drawn.
pub const WAVE_BARS: i32 = 31;

/// The width of a bar before scaling.
pub const BAR_W: i32 = 2;

/// The greatest height of a bar before scaling.
pub const BAR_MAX_H: i32 = 20;

/// The least height of a bar before scaling.
pub const MIN_BAR_H: i32 = 1;

/// Colours, blue before green before red.
pub const COLOR_BG: u32 = 0x101010;

pub const COLOR_BORDER: u32 = 0x2e2e2e;

pub const COLOR_WAVE: u32 = 0xd8d8d8;

pub const COLOR_WAVE_HOVER: u32 = 0x5a5a5a;

pub const COLOR_TEXT: u32 = 0xf2f2f2;

pub const COLOR_BTN_IDLE: u32 = 0x1a1a1a;

pub const COLOR_BTN_HOVER: u32 = 0x262626;

/// How long the pill shows that it is done.
pub const FLASH_NANOS: u64 = 800_000_000;

/// What the pill shows.
#[derive(Clone, Copy, Debug, PartialEq, Eq, Structural)]
pub enum PillMode {
    Recording,
    Transcribing,
    Flash,
}

/// What the pill is told. Times are clock readings in nanoseconds.
#[derive(Clone, Copy, Debug, PartialEq, Eq, Structural)]
pub enum PillCommand {
    Show(PillMode),
    Hide,
    RecordingStarted(u64),
    TranscribingStarted(u64),
    FlashStarted,
}

/// What the user asked the pill for.
#[derive(Clone, Copy, Debug, PartialEq, Eq, Structural)]
pub enum PillButton {
    Discard,
    Finish,
    OpenSettings,
}

/// A rectangle.
#[derive(Clone, Copy, Debug, PartialEq, Eq, Structural)]
pub struct Rect {
    pub left: i32,
    pub top: i32,
    pub right: i32,
    pub bottom: i32,
}

impl Rect {
    /// Whether a point is in the rectangle or on its edge.
    pub open spec fn has(self, x: i32, y: i32) -> bool {
        self.left <= x <= self.right && self.top <= y <= self.bottom
    }

    /// Whether a point is in the rectangle or on its edge.
    pub fn holds(self, x: i32, y: i32) -> (r: bool)
        ensures
            r == self.has(x, y),
    {
        x >= self.left && x <= self.right && y >= self.top && y <= self.bottom
    }
}

/// The sizes of the pill after scaling.
#[derive(Clone, Copy, Debug, PartialEq, Eq, Structural)]
pub struct Metrics {
    pub width: i32,
    pub height: i32,
    /// The space that the controls take.
    pub controls: Rect,
    pub pad: i32,
    pub button: i32,
    pub bar_w: i32,
    pub text_x: i32,
    pub text_w: i32,
}

impl Metrics {
    /// Sizes that a screen can have: none is negative, a button is not higher than the
    /// controls, and the edges of what is drawn are numbers of 32 bits.
    pub open spec fn valid(self) -> bool {
        &&& 0 <= self.width
        &&& 0 <= self.height
        &&& 0 <= self.controls.left <= self.controls.right
        &&& 0 <= self.controls.top <= self.controls.bottom
        &&& 0 <= self.pad
        &&& 0 <= self.button <= self.controls.bottom - self.controls.top
        &&& 0 <= self.bar_w
        &&& 0 <= self.text_x
        &&& 0 <= self.text_w
        &&& crate::pill_window::fits(self.controls.left + self.pad + self.button)
        &&& crate::pill_window::fits(self.controls.right - self.pad - self.button)
        &&& crate::pill_window::fits(self.width - 2 * self.pad)
        &&& crate::pill_window::fits(self.pad + WAVE_BARS * (self.bar_w + 1))
        &&& crate::pill_window::fits(self.text_x + self.text_w)
    }

    /// Where the top of a button is: it stands in the middle of the controls.
    pub open spec fn button_top(self) -> int {
        self.controls.top + (self.controls.bottom - self.controls.top - self.button) / 2
    }

    /// The button that discards, on the left.
    pub open spec fn discard_area(self) -> Rect {
        Rect {
            left: (self.controls.left + self.pad) as i32,
            top: self.button_top() as i32,
            right: (self.controls.left + self.pad + self.button) as i32,
            bottom: (self.button_top() + self.button) as i32,
        }
    }

    /// The button that finishes, on the right.
    pub open spec fn finish_area(self) -> Rect {
        Rect {
            left: (self.controls.right - self.pad - self.button) as i32,
            top: self.button_top() as i32,
            right: (self.controls.right - self.pad) as i32,
            bottom: (self.button_top() + self.button) as i32,
        }
    }

    /// The button that discards.
    pub fn discard_rect(self) -> (r: Rect)
        requires
            self.valid(),
        ensures
            r == self.discard_area(),
    {
        let top: i32 = self.controls.top + (self.controls.bottom - self.controls.top
            - self.button) / 2;
        Rect {
            left: self.controls.left + self.pad,
            top,
            right: self.controls.left + self.pad + self.button,
            bottom: top + self.button,
        }
    }

    /// The button that finishes.
    pub fn finish_rect(self) -> (r: Rect)
        requires
            self.valid(),
        ensures
            r == self.finish_area(),
    {
        let top: i32 = self.controls.top + (self.controls.bottom - self.controls.top
            - self.button) / 2;
        let x: i32 = self.controls.right - self.pad - self.button;
        Rect { left: x, top, right: x + self.button, bottom: top + self.button }
    }

    /// Where the timer stands.
    pub fn text_rect(self) -> (r: Rect)
        requires
            self.valid(),
        ensures
            r == (Rect {
                left: self.text_x,
                top: self.controls.top,
                right: (self.text_x + self.text_w) as i32,
                bottom: self.controls.bottom,
            }),
    {
        Rect {
            left: self.text_x,
            top: self.controls.top,
            right: self.text_x + self.text_w,
            bottom: self.controls.bottom,
        }
    }
}

/// The buttons do not overlap, and they lie within the controls, where the controls
/// are wide enough for both.
pub proof fn buttons_do_not_overlap(m: Metrics, x: i32, y: i32)
    requires
        m.valid(),
        2 * (m.pad + m.button) < m.controls.right - m.controls.left,
    ensures
        !(m.discard_area().has(x, y) && m.finish_area().has(x, y)),
        m.discard_area().has(x, y) || m.finish_area().has(x, y) ==> m.controls.has(x, y),
{
}

/// What the mouse is over.
#[derive(Clone, Copy, Debug, PartialEq, Eq, Structural)]
pub enum HoverTarget {
    Outside,
    Discard,
    Finish,
    Body,
}

/// The pill.
#[derive(Clone, Copy, Debug, PartialEq, Eq, Structural)]
pub struct Pill {
    pub metrics: Metrics,
    /// What is shown; `None` while the pill is hidden.
    pub mode: Option<PillMode>,
    /// How long the current mode lasts.
    pub elapsed: u64,
    pub record_start: Option<u64>,
    pub transcribe_start: Option<u64>,
    pub flash_start: Option<u64>,
    pub hover: HoverTarget,
    pub mouse_in: bool,
}

/// What becomes of the window.
#[derive(Clone, Copy, Debug, PartialEq, Eq, Structural)]
pub enum Visibility {
    Unchanged,
    Shown,
    Hidden,
}

/// What a press of the left mouse button does.
#[derive(Clone, Copy, Debug, PartialEq, Eq, Structural)]
pub enum Press {
    Nothing,
    Click(PillButton),
    /// The pill is dragged.
    Drag,
}

/// A time that is kept if it is there, or else taken now.
pub open spec fn kept_or(start: Option<u64>, now: u64) -> Option<u64> {
    match start {
        Some(at) => Some(at),
        None => Some(now),
    }
}

/// The time from `start` to `now`, none if the clock went backwards.
pub open spec fn span(start: u64, now: u64) -> u64 {
    if now >= start {
        (now - start) as u64
    } else {
        0
    }
}

impl Pill {
    /// A hidden pill of the given sizes.
    pub fn new(metrics: Metrics) -> (pill: Pill)
        ensures
            pill == (Pill {
                metrics,
                mode: None,
                elapsed: 0,
                record_start: None,
                transcribe_start: None,
                flash_start: None,
                hover: HoverTarget::Outside,
                mouse_in: false,
            }),
    {
        Pill {
            metrics,
            mode: None,
            elapsed: 0,
            record_start: None,
            transcribe_start: None,
            flash_start: None,
            hover: HoverTarget::Outside,
            mouse_in: false,
        }
    }

    /// The buttons show while recording, under the mouse.
    pub open spec fn shows_buttons(self) -> bool {
        self.mode == Some(PillMode::Recording) && self.mouse_in
    }

    /// The buttons show while recording, under the mouse.
    pub fn buttons_visible(&self) -> (r: bool)
        ensures
            r == self.shows_buttons(),
    {
        match self.mode {
            Some(PillMode::Recording) => self.mouse_in,
            _ => false,
        }
    }

    /// What a point is over.
    pub open spec fn target(self, x: i32, y: i32) -> HoverTarget {
        if !self.shows_buttons() {
            HoverTarget::Outside
        } else if self.metrics.discard_area().has(x, y) {
            HoverTarget::Discard
        } else if self.metrics.finish_area().has(x, y) {
            HoverTarget::Finish
        } else {
            HoverTarget::Body
        }
    }

    /// What a point is over.
    pub fn hit_test(&self, x: i32, y: i32) -> (target: HoverTarget)
        requires
            self.metrics.valid(),
        ensures
            target == self.target(x, y),
    {
        if !self.buttons_visible() {
            HoverTarget::Outside
        } else if self.metrics.discard_rect().holds(x, y) {
            HoverTarget::Discard
        } else if self.metrics.finish_rect().holds(x, y) {
            HoverTarget::Finish
        } else {
            HoverTarget::Body
        }
    }

    /// The pill after a command, and what becomes of its window.
    pub open spec fn told(self, command: PillCommand, now: u64) -> (Pill, Visibility) {
        match command {
            PillCommand::Show(mode) => {
                let shown = Pill { mode: Some(mode), ..self };
                (
                    match mode {
                        PillMode::Transcribing => Pill {
                            transcribe_start: kept_or(self.transcribe_start, now),
                            ..shown
                        },
                        PillMode::Flash => Pill {
                            flash_start: kept_or(self.flash_start, now),
                            ..shown
                        },
                        PillMode::Recording => shown,
                    },
                    Visibility::Shown,
                )
            },
            PillCommand::Hide => (Pill { mode: None, ..self }, Visibility::Hidden),
            PillCommand::RecordingStarted(at) => (
                Pill { record_start: Some(at), ..self },
                Visibility::Unchanged,
            ),
            PillCommand::TranscribingStarted(at) => (
                Pill { transcribe_start: Some(at), ..self },
                Visibility::Unchanged,
            ),
            PillCommand::FlashStarted => (
                Pill { mode: Some(PillMode::Flash), flash_start: Some(now), ..self },
                Visibility::Shown,
            ),
        }
    }

    /// Takes in a command: what becomes of the window.
    pub fn obey(&mut self, command: PillCommand, now: u64) -> (visibility: Visibility)
        ensures
            (*final(self), visibility) == old(self).told(command, now),
    {
        match command {
            PillCommand::Show(mode) => {
                self.mode = Some(mode);
                match mode {
                    PillMode::Transcribing => {
                        if self.transcribe_start.is_none() {
                            self.transcribe_start = Some(now);
                        }
                    },
                    PillMode::Flash => {
                        if self.flash_start.is_none() {
                            self.flash_start = Some(now);
                        }
                    },
                    PillMode::Recording => {},
                }
                Visibility::Shown
            },
            PillCommand::Hide => {
                self.mode = None;
                Visibility::Hidden
            },
            PillCommand::RecordingStarted(at) => {
                self.record_start = Some(at);
                Visibility::Unchanged
            },
            PillCommand::TranscribingStarted(at) => {
                self.transcribe_start = Some(at);
                Visibility::Unchanged
            },
            PillCommand::FlashStarted => {
                self.mode = Some(PillMode::Flash);
                self.flash_start = Some(now);
                Visibility::Shown
            },
        }
    }

    /// The pill after a list of commands.
    pub open spec fn told_all(self, commands: Seq<PillCommand>, now: u64) -> Pill
        decreases commands.len(),
    {
        if commands.len() == 0 {
            self
        } else {
            self.told_all(commands.drop_last(), now).told(commands.last(), now).0
        }
    }

    /// What the last command of a list that concerns the window does to it.
    pub open spec fn seen_after(self, commands: Seq<PillCommand>, now: u64) -> Visibility
        decreases commands.len(),
    {
        if commands.len() == 0 {
            Visibility::Unchanged
        } else {
            let last = self.told_all(commands.drop_last(), now).told(commands.last(), now).1;
            if last == Visibility::Unchanged {
                self.seen_after(commands.drop_last(), now)
            } else {
                last
            }
        }
    }

    /// Takes in the commands that have come: what becomes of the window in the end.
    pub fn drain_commands(&mut self, commands: &[PillCommand], now: u64) -> (visibility: Visibility)
        ensures
            *final(self) == old(self).told_all(commands@, now),
            visibility == old(self).seen_after(commands@, now),
    {
        let mut visibility = Visibility::Unchanged;
        let mut i: usize = 0;
        assert(commands@.subrange(0, 0) =~= Seq::empty());
        while i < commands.len()
            invariant
                i <= commands.len(),
                *self == old(self).told_all(commands@.subrange(0, i as int), now),
                visibility == old(self).seen_after(commands@.subrange(0, i as int), now),
            decreases commands.len() - i,
        {
            assert(commands@.subrange(0, i + 1).drop_last() =~= commands@.subrange(0, i as int));
            let next = self.obey(commands[i], now);
            match next {
                Visibility::Unchanged => {},
                _ => {
                    visibility = next;
                },
            }
            i += 1;
        }
        assert(commands@.subrange(0, i as int) =~= commands@);
        visibility
    }

    /// The pill at a later time: the flash ends by itself.
    pub open spec fn ticked(self, now: u64) -> (Pill, Visibility) {
        match self.mode {
            Some(PillMode::Recording) if self.record_start is Some => (
                Pill { elapsed: span(self.record_start->0, now), ..self },
                Visibility::Unchanged,
            ),
            Some(PillMode::Transcribing) if self.transcribe_start is Some => (
                Pill { elapsed: span(self.transcribe_start->0, now), ..self },
                Visibility::Unchanged,
            ),
            Some(PillMode::Flash) if self.flash_start is Some => if span(self.flash_start->0, now)
                >= FLASH_NANOS {
                (Pill { mode: None, ..self }, Visibility::Hidden)
            } else {
                (
                    Pill { elapsed: span(self.flash_start->0, now), ..self },
                    Visibility::Unchanged,
                )
            },
            _ => (self, Visibility::Unchanged),
        }
    }

    /// Looks at the clock: what becomes of the window.
    pub fn update_elapsed(&mut self, now: u64) -> (visibility: Visibility)
        ensures
            (*final(self), visibility) == old(self).ticked(now),
    {
        match self.mode {
            Some(PillMode::Recording) => {
                if let Some(start) = self.record_start {
                    self.elapsed = now.saturating_sub(start);
                }
            },
            Some(PillMode::Transcribing) => {
                if let Some(start) = self.transcribe_start {
                    self.elapsed = now.saturating_sub(start);
                }
            },
            Some(PillMode::Flash) => {
                if let Some(start) = self.flash_start {
                    let elapsed: u64 = now.saturating_sub(start);
                    if elapsed >= FLASH_NANOS {
                        self.mode = None;
                        return Visibility::Hidden;
                    }
                    self.elapsed = elapsed;
                }
            },
            None => {},
        }
        Visibility::Unchanged
    }

    /// The mouse moved to a point: whether its leaving has to be watched from now on,
    /// and whether the pill has to be drawn again.
    pub fn mouse_moved(&mut self, x: i32, y: i32) -> (r: (bool, bool))
        requires
            old(self).metrics.valid(),
        ensures
            final(self).mouse_in,
            *final(self) == (Pill {
                mouse_in: true,
                hover: Pill { mouse_in: true, ..*old(self) }.target(x, y),
                ..*old(self)
            }),
            r.0 == !old(self).mouse_in,
            r.1 == (final(self).hover != old(self).hover),
    {
        let watch = !self.mouse_in;
        self.mouse_in = true;
        let hover = self.hit_test(x, y);
        let changed = hover != self.hover;
        self.hover = hover;
        (watch, changed)
    }

    /// The mouse left the pill.
    pub fn mouse_left(&mut self)
        ensures
            *final(self) == (Pill { mouse_in: false, hover: HoverTarget::Outside, ..*old(self) }),
    {
        self.mouse_in = false;
        self.hover = HoverTarget::Outside;
    }

    /// What a press of the left mouse button does.
    pub open spec fn press_of(self, x: i32, y: i32) -> Press {
        match self.target(x, y) {
            HoverTarget::Discard => Press::Click(PillButton::Discard),
            HoverTarget::Finish => Press::Click(PillButton::Finish),
            HoverTarget::Body => Press::Drag,
            HoverTarget::Outside => Press::Nothing,
        }
    }

    /// What a press of the left mouse button does.
    pub fn pressed(&self, x: i32, y: i32) -> (press: Press)
        requires
            self.metrics.valid(),
        ensures
            press == self.press_of(x, y),
    {
        match self.hit_test(x, y) {
            HoverTarget::Discard => Press::Click(PillButton::Discard),
            HoverTarget::Finish => Press::Click(PillButton::Finish),
            HoverTarget::Body => Press::Drag,
            HoverTarget::Outside => Press::Nothing,
        }
    }

    /// Whether the mouse pointer is a hand.
    pub fn hand_cursor(&self, x: i32, y: i32) -> (r: bool)
        requires
            self.metrics.valid(),
        ensures
            r == (self.press_of(x, y) is Click),
    {
        match self.hit_test(x, y) {
            HoverTarget::Discard | HoverTarget::Finish => true,
            _ => false,
        }
    }
}

/// The buttons can be pressed only while recording, with the mouse over the pill.
pub proof fn buttons_work_while_recording_only(pill: Pill, x: i32, y: i32)
    ensures
        pill.press_of(x, y) is Click ==> pill.mode == Some(PillMode::Recording) && pill.mouse_in,
{
}

/// A flash hides the pill once it is over, whatever came before.
pub proof fn flashes_end(pill: Pill, then: u64, now: u64)
    requires
        now - then >= FLASH_NANOS,
    ensures
        pill.told(PillCommand::FlashStarted, then).0.ticked(now).0.mode is None,
        pill.told(PillCommand::FlashStarted, then).0.ticked(now).1 == Visibility::Hidden,
{
}

/// What is drawn.
#[derive(Clone, Copy, Debug, PartialEq, Eq, Structural)]
pub enum LevelSource {
    /// The levels of the microphone.
    Live,
    /// A wave that moves by itself.
    Animated,
    /// No wave.
    Flat,
}

/// A button that is drawn.
#[derive(Clone, Copy, Debug, PartialEq, Eq, Structural)]
pub struct ButtonPicture {
    pub area: Rect,
    pub background: u32,
}

/// What the pill looks like.
#[derive(Debug)]
pub struct Picture {
    pub levels: LevelSource,
    pub wave_color: u32,
    /// The buttons that discard and finish, where they show.
    pub buttons: Option<(ButtonPicture, ButtonPicture)>,
    /// The text of the timer; empty where there is none.
    pub timer: String,
    pub timer_area: Rect,
}

/// The text of the timer: minutes and seconds.
pub open spec fn timer_text(nanos: u64) -> Seq<char> {
    let total = nanos / 1_000_000_000;
    crate::text::decimal_of((total / 60) as nat) + ":"@ + crate::text::two_digits_of(
        (total % 60) as nat,
    )
}

/// The text of the timer: minutes and seconds.
pub fn format_timer(nanos: u64) -> (text: String)
    ensures
        text@ == timer_text(nanos),
{
    let total: u64 = nanos / 1_000_000_000;
    let mut text = decimal(total / 60);
    text.push_str(":");
    text.push_str(two_digits(total % 60).as_str());
    text
}

/// The background of a button.
pub open spec fn button_color(hovered: bool) -> u32 {
    if hovered {
        COLOR_BTN_HOVER
    } else {
        COLOR_BTN_IDLE
    }
}

fn button_picture(area: Rect, hovered: bool) -> (b: ButtonPicture)
    ensures
        b == (ButtonPicture { area, background: button_color(hovered) }),
{
    ButtonPicture {
        area,
        background: if hovered {
            COLOR_BTN_HOVER
        } else {
            COLOR_BTN_IDLE
        },
    }
}

impl Pill {
    /// What the pill looks like; `None` while it is hidden. Under the mouse the wave
    /// is dimmed, and the buttons and the timer stand over it.
    pub fn render_pill(&self) -> (picture: Option<Picture>)
        requires
            self.metrics.valid(),
        ensures
            picture is Some <==> self.mode is Some,
            picture matches Some(p) ==> {
                &&& p.levels == (match self.mode->0 {
                    PillMode::Recording => LevelSource::Live,
                    PillMode::Transcribing => LevelSource::Animated,
                    PillMode::Flash => LevelSource::Flat,
                })
                &&& p.wave_color == (if self.shows_buttons() {
                    COLOR_WAVE_HOVER
                } else {
                    COLOR_WAVE
                })
                &&& p.buttons == (if self.shows_buttons() {
                    Some(
                        (
                            ButtonPicture {
                                area: self.metrics.discard_area(),
                                background: button_color(self.hover == HoverTarget::Discard),
                            },
                            ButtonPicture {
                                area: self.metrics.finish_area(),
                                background: button_color(self.hover == HoverTarget::Finish),
                            },
                        ),
                    )
                } else {
                    None
                })
                &&& p.timer@ == (if self.shows_buttons() {
                    timer_text(self.elapsed)
                } else {
                    Seq::empty()
                })
                &&& p.timer_area == (Rect {
                    left: self.metrics.text_x,
                    top: self.metrics.controls.top,
                    right: (self.metrics.text_x + self.metrics.text_w) as i32,
                    bottom: self.metrics.controls.bottom,
                })
            },
    {
        match self.mode {
            None => None,
            Some(mode) => {
                let levels = match mode {
                    PillMode::Recording => LevelSource::Live,
                    PillMode::Transcribing => LevelSource::Animated,
                    PillMode::Flash => LevelSource::Flat,
                };
                let visible = self.buttons_visible();
                let timer_area = self.metrics.text_rect();
                if visible {
                    let discard = button_picture(
                        self.metrics.discard_rect(),
                        self.hover == HoverTarget::Discard,
                    );
                    let finish = button_picture(
                        self.metrics.finish_rect(),
                        self.hover == HoverTarget::Finish,
                    );
                    Some(
                        Picture {
                            levels,
                            wave_color: COLOR_WAVE_HOVER,
                            buttons: Some((discard, finish)),
                            timer: format_timer(self.elapsed),
                            timer_area,
                        },
                    )
                } else {
                    Some(
                        Picture {
                            levels,
                            wave_color: COLOR_WAVE,
                            buttons: None,
                            timer: String::new(),
                            timer_area,
                        },
                    )
                }
            },
        }
    }
}

/// Where the bars of the wave stand.
#[derive(Clone, Copy, Debug, PartialEq, Eq, Structural)]
pub struct BarLayout {
    pub start_x: i32,
    /// The distance from the left edge of one bar to that of the next.
    pub pitch: i32,
    pub bar_w: i32,
    pub middle: i32,
}

impl Metrics {
    /// The width that the wave can take.
    pub open spec fn wave_width(self) -> int {
        self.width - self.pad - self.pad
    }

    /// The space between two bars: at least one pixel.
    pub open spec fn bar_gap(self) -> int {
        let free = self.wave_width() - WAVE_BARS * self.bar_w;
        if free >= 2 * (WAVE_BARS - 1) {
            free / (WAVE_BARS - 1)
        } else {
            1
        }
    }

    /// The width that the bars take.
    pub open spec fn bars_width(self) -> int {
        WAVE_BARS * self.bar_w + (WAVE_BARS - 1) * self.bar_gap()
    }

    /// Where the bars of the wave stand: centred, and none at all where the wave has
    /// no room for one.
    pub fn bar_layout(self) -> (layout: Option<BarLayout>)
        requires
            self.valid(),
        ensures
            layout is Some <==> self.wave_width() > self.bar_w,
            layout matches Some(l) ==> {
                &&& l.bar_w == self.bar_w
                &&& l.pitch == self.bar_w + self.bar_gap()
                &&& l.middle == self.height / 2
                &&& self.wave_width() >= self.bars_width() ==> l.start_x == self.pad + (
                self.wave_width() - self.bars_width()) / 2
                &&& self.wave_width() < self.bars_width() ==> l.start_x == self.pad - (
                self.bars_width() - self.wave_width()) / 2
                &&& forall|i: int, height: int|
                    0 <= i < WAVE_BARS && 0 <= height && crate::pill_window::fits(
                        self.height / 2 + height,
                    ) ==> #[trigger] l.holds(i, height)
            },
    {
        let area_w: i32 = self.width - self.pad - self.pad;
        if area_w <= self.bar_w {
            return None;
        }
        let free: i32 = area_w - WAVE_BARS * self.bar_w;
        let gap: i32 = if free >= 2 * (WAVE_BARS - 1) {
            free / (WAVE_BARS - 1)
        } else {
            1
        };
        let total_w: i32 = WAVE_BARS * self.bar_w + (WAVE_BARS - 1) * gap;
        let start_x: i32 = if area_w >= total_w {
            self.pad + (area_w - total_w) / 2
        } else {
            self.pad - (total_w - area_w) / 2
        };
        let layout = BarLayout {
            start_x,
            pitch: self.bar_w + gap,
            bar_w: self.bar_w,
            middle: self.height / 2,
        };
        assert forall|i: int, height: int|
            0 <= i < WAVE_BARS && 0 <= height && crate::pill_window::fits(
                self.height / 2 + height,
            ) implies #[trigger] layout.holds(i, height) by {
            let pitch = layout.pitch as int;
            assert(0 <= i * pitch <= 30 * pitch) by (nonlinear_arith)
                requires
                    0 <= i <= 30,
                    0 <= pitch,
            ;
        }
        Some(layout)
    }
}

impl BarLayout {
    /// Whether the edges of a bar are numbers of 32 bits.
    pub open spec fn holds(self, i: int, height: int) -> bool {
        &&& crate::pill_window::fits(i * self.pitch)
        &&& crate::pill_window::fits(self.start_x + i * self.pitch)
        &&& crate::pill_window::fits(self.start_x + i * self.pitch + self.bar_w)
        &&& crate::pill_window::fits(self.middle - height / 2)
        &&& crate::pill_window::fits(self.middle - height / 2 + height)
    }

    /// The bar with this number and height, centred on the middle line.
    pub fn bar(self, i: i32, height: i32) -> (r: Rect)
        requires
            0 <= height,
            self.holds(i as int, height as int),
        ensures
            r.left == self.start_x + i * self.pitch,
            r.right == r.left + self.bar_w,
            r.top == self.middle - height / 2,
            r.bottom == r.top + height,
    {
        let left: i32 = self.start_x + i * self.pitch;
        let top: i32 = self.middle - height / 2;
        Rect { left, top, right: left + self.bar_w, bottom: top + height }
    }
}

/// Whether a pixel is inside a rectangle with rounded corners: near a corner, it has to
/// lie within the radius around the middle of the corner's circle.
pub open spec fn in_round_rect(x: int, y: int, r: Rect, radius: int) -> bool {
    let dx = if x - r.left <= r.right - 1 - x {
        x - r.left
    } else {
        r.right - 1 - x
    };
    let dy = if y - r.top <= r.bottom - 1 - y {
        y - r.top
    } else {
        r.bottom - 1 - y
    };
    &&& r.left <= x < r.right
    &&& r.top <= y < r.bottom
    &&& dx >= radius || dy >= radius || (radius - dx) * (radius - dx) + (radius - dy) * (radius - dy)
        <= radius * radius
}

/// Whether a pixel is inside a rectangle with rounded corners.
pub fn point_in_round_rect(x: i32, y: i32, rect: Rect, radius: i32) -> (r: bool)
    requires
        0 <= radius,
    ensures
        r == in_round_rect(x as int, y as int, rect, radius as int),
{
    if x < rect.left || x >= rect.right || y < rect.top || y >= rect.bottom {
        return false;
    }
    let (px, py) = (x as i64, y as i64);
    let west: i64 = px - rect.left as i64;
    let east: i64 = rect.right as i64 - 1 - px;
    let north: i64 = py - rect.top as i64;
    let south: i64 = rect.bottom as i64 - 1 - py;
    let dx: i64 = if west <= east {
        west
    } else {
        east
    };
    let dy: i64 = if north <= south {
        north
    } else {
        south
    };
    let reach: i64 = radius as i64;
    if dx >= reach || dy >= reach {
        return true;
    }
    let across: i64 = reach - dx;
    let down: i64 = reach - dy;
    proof {
        assert(0 <= across * across <= 0x4000_0000_0000_0000) by (nonlinear_arith)
            requires
                0 <= across <= 0x7fff_ffff,
        ;
        assert(0 <= down * down <= 0x4000_0000_0000_0000) by (nonlinear_arith)
            requires
                0 <= down <= 0x7fff_ffff,
        ;
        assert(0 <= reach * reach <= 0x4000_0000_0000_0000) by (nonlinear_arith)
            requires
                0 <= reach <= 0x7fff_ffff,
        ;
    }
    let (wide_across, wide_down, wide_reach) = (across as i128, down as i128, reach as i128);
    wide_across * wide_across + wide_down * wide_down <= wide_reach * wide_reach
}

/// A rectangle with rounded corners lies in the rectangle, lacks its corners, and looks
/// the same from every side.
pub proof fn rounded_rectangles_lose_their_corners(x: int, y: int, r: Rect, radius: int)
    requires
        0 < radius,
    ensures
        in_round_rect(x, y, r, radius) ==> r.left <= x < r.right && r.top <= y < r.bottom,
        !in_round_rect(r.left as int, r.top as int, r, radius),
        !in_round_rect(r.right - 1, r.top as int, r, radius),
        !in_round_rect(r.left as int, r.bottom - 1, r, radius),
        !in_round_rect(r.right - 1, r.bottom - 1, r, radius),
        in_round_rect(x, y, r, radius) == in_round_rect(r.left + r.right - 1 - x, y, r, radius),
        in_round_rect(x, y, r, radius) == in_round_rect(x, r.top + r.bottom - 1 - y, r, radius),
{
    assert(radius * radius + radius * radius > radius * radius) by (nonlinear_arith)
        requires
            0 < radius,
    ;
}

/// Whether a pixel of the pill is opaque.
pub open spec fn opaque(x: int, y: int, wave: Rect, controls: Rect, radius: int) -> bool {
    in_round_rect(x, y, wave, radius) || in_round_rect(x, y, controls, radius)
}

/// Makes the pixels of the pill opaque inside its two rounded rectangles and
/// transparent outside. A pixel takes four bytes, the last of which is its opacity;
/// the others stay as they are.
pub fn apply_alpha(
    pixels: &mut Vec<u8>,
    w: usize,
    h: usize,
    wave: Rect,
    controls: Rect,
    corner_radius: i32,
)
    requires
        w <= i32::MAX,
        h <= i32::MAX,
        old(pixels)@.len() == w * h * 4,
    ensures
        final(pixels)@.len() == old(pixels)@.len(),
        forall|p: int|
            0 <= p < w * h ==> #[trigger] final(pixels)@[4 * p + 3] == (if opaque(
                p % w as int,
                p / w as int,
                wave,
                controls,
                if corner_radius < 0 {
                    0
                } else {
                    corner_radius as int
                },
            ) {
                0xffu8
            } else {
                0u8
            }),
        forall|k: int|
            0 <= k < old(pixels)@.len() && k % 4 != 3 ==> #[trigger] final(pixels)@[k] == old(
                pixels,
            )@[k],
{
    let radius: i32 = if corner_radius < 0 {
        0
    } else {
        corner_radius
    };
    let n: usize = pixels.len() / 4;
    assert(n == w * h);
    let mut p: usize = 0;
    while p < n
        invariant
            p <= n,
            n == w * h,
            w <= i32::MAX,
            h <= i32::MAX,
            pixels@.len() == n * 4 <= usize::MAX,
            pixels@.len() == old(pixels)@.len(),
            0 <= radius,
            forall|q: int|
                0 <= q < p ==> #[trigger] pixels@[4 * q + 3] == (if opaque(
                    q % w as int,
                    q / w as int,
                    wave,
                    controls,
                    radius as int,
                ) {
                    0xffu8
                } else {
                    0u8
                }),
            forall|k: int|
                0 <= k < old(pixels)@.len() && k % 4 != 3 ==> #[trigger] pixels@[k] == old(
                    pixels,
                )@[k],
        decreases n - p,
    {
        proof {
            assert(w > 0) by (nonlinear_arith)
                requires
                    0 <= p < w * h,
                    0 <= w,
            ;
            assert(p / w < h) by (nonlinear_arith)
                requires
                    p < w * h,
                    w > 0,
            ;
            assert(p % w < w);
        }
        let x: i32 = (p % w) as i32;
        let y: i32 = (p / w) as i32;
        let inside = point_in_round_rect(x, y, wave, radius) || point_in_round_rect(
            x,
            y,
            controls,
            radius,
        );
        pixels.set(
            4 * p + 3,
            if inside {
                0xff
            } else {
                0
            },
        );
        p += 1;
    }
}

/// Where the pill is docked: at the bottom of the work area, in its middle, `gap`
/// pixels above its edge. A pill that is wider than the area stands out on both sides.
pub fn dock_position(area: Rect, w: i32, h: i32, gap: i32) -> (r: (i32, i32))
    requires
        crate::pill_window::fits(area.right - area.left),
        crate::pill_window::fits(area.right - area.left - w),
        crate::pill_window::fits(
            area.left + crate::pill_window::half(area.right - area.left - w),
        ),
        crate::pill_window::fits(area.bottom - h),
        crate::pill_window::fits(area.bottom - h - gap),
    ensures
        r.0 == area.left + crate::pill_window::half(area.right - area.left - w),
        r.1 == area.bottom - h - gap,
{
    let free: i32 = area.right - area.left - w;
    (area.left + halved(free), area.bottom - h - gap)
}

/// Messages of a window.
pub const WM_CREATE: u32 = 0x0001;

pub const WM_DESTROY: u32 = 0x0002;

pub const WM_SETCURSOR: u32 = 0x0020;

pub const WM_TIMER: u32 = 0x0113;

pub const WM_MOUSEMOVE: u32 = 0x0200;

pub const WM_LBUTTONDOWN: u32 = 0x0201;

pub const WM_RBUTTONUP: u32 = 0x0205;

pub const WM_MOUSELEAVE: u32 = 0x02a3;

/// What a message of the window leads to.
#[derive(Clone, Copy, Debug, PartialEq, Eq, Structural)]
pub enum PillReaction {
    /// The system handles the message.
    Default,
    /// The message is done with.
    Nothing,
    StartTimer,
    /// The timer is stopped and the message loop ends.
    End,
    /// What became of the window, first by the commands and then by the clock, and
    /// whether the pill is to be drawn.
    Ticked { commanded: Visibility, timed: Visibility, draw: bool },
    /// The mouse pointer becomes a hand.
    Hand,
    /// Whether the mouse's leaving has to be watched, and whether the pill has to be
    /// drawn again.
    Moved { watch: bool, redraw: bool },
    Redraw,
    Click(PillButton),
    Drag,
}

/// The point that a message parameter gives.
pub open spec fn point_of(lparam: u64) -> (i32, i32) {
    (
        crate::words::signed_word(lparam as int % 0x10000) as i32,
        crate::words::signed_word(lparam as int / 0x10000 % 0x10000) as i32,
    )
}

impl Pill {
    /// The pill after a message, and what the message leads to. `cursor` is where the
    /// mouse is, `commands` are those that have come.
    pub open spec fn after(
        self,
        message: u32,
        lparam: u64,
        cursor: (i32, i32),
        commands: Seq<PillCommand>,
        now: u64,
    ) -> (Pill, PillReaction) {
        let (x, y) = point_of(lparam);
        if message == WM_CREATE {
            (self, PillReaction::StartTimer)
        } else if message == WM_DESTROY {
            (self, PillReaction::End)
        } else if message == WM_TIMER {
            let (next, timed) = self.told_all(commands, now).ticked(now);
            (
                next,
                PillReaction::Ticked {
                    commanded: self.seen_after(commands, now),
                    timed,
                    draw: next.mode is Some,
                },
            )
        } else if message == WM_SETCURSOR {
            if lparam as int % 0x10000 == 1 && self.press_of(cursor.0, cursor.1) is Click {
                (self, PillReaction::Hand)
            } else {
                (self, PillReaction::Default)
            }
        } else if message == WM_MOUSEMOVE {
            let hover = Pill { mouse_in: true, ..self }.target(x, y);
            (
                Pill { mouse_in: true, hover, ..self },
                PillReaction::Moved { watch: !self.mouse_in, redraw: hover != self.hover },
            )
        } else if message == WM_MOUSELEAVE {
            (
                Pill { mouse_in: false, hover: HoverTarget::Outside, ..self },
                PillReaction::Redraw,
            )
        } else if message == WM_LBUTTONDOWN {
            (
                self,
                match self.press_of(x, y) {
                    Press::Nothing => PillReaction::Nothing,
                    Press::Click(button) => PillReaction::Click(button),
                    Press::Drag => PillReaction::Drag,
                },
            )
        } else if message == WM_RBUTTONUP {
            (self, PillReaction::Click(PillButton::OpenSettings))
        } else {
            (self, PillReaction::Default)
        }
    }

    /// Takes in a message of the window.
    pub fn on_message(
        &mut self,
        message: u32,
        lparam: u64,
        cursor: (i32, i32),
        commands: &[PillCommand],
        now: u64,
    ) -> (reaction: PillReaction)
        requires
            old(self).metrics.valid(),
        ensures
            (*final(self), reaction) == old(self).after(message, lparam, cursor, commands@, now),
    {
        if message == WM_CREATE {
            PillReaction::StartTimer
        } else if message == WM_DESTROY {
            PillReaction::End
        } else if message == WM_TIMER {
            let commanded = self.drain_commands(commands, now);
            let timed = self.update_elapsed(now);
            PillReaction::Ticked { commanded, timed, draw: self.mode.is_some() }
        } else if message == WM_SETCURSOR {
            if lparam % 0x10000 == 1 && self.hand_cursor(cursor.0, cursor.1) {
                PillReaction::Hand
            } else {
                PillReaction::Default
            }
        } else if message == WM_MOUSEMOVE {
            let (watch, redraw) = self.mouse_moved(signed_loword(lparam), signed_hiword(lparam));
            PillReaction::Moved { watch, redraw }
        } else if message == WM_MOUSELEAVE {
            self.mouse_left();
            PillReaction::Redraw
        } else if message == WM_LBUTTONDOWN {
            match self.pressed(signed_loword(lparam), signed_hiword(lparam)) {
                Press::Nothing => PillReaction::Nothing,
                Press::Click(button) => PillReaction::Click(button),
                Press::Drag => PillReaction::Drag,
            }
        } else if message == WM_RBUTTONUP {
            PillReaction::Click(PillButton::OpenSettings)
        } else {
            PillReaction::Default
        }
    }
}

/// A message changes neither the sizes of the pill nor, unless the timer brought it,
/// what the pill shows.
pub proof fn only_the_timer_changes_what_is_shown(
    pill: Pill,
    message: u32,
    lparam: u64,
    cursor: (i32, i32),
    commands: Seq<PillCommand>,
    now: u64,
)
    ensures
        pill.after(message, lparam, cursor, commands, now).0.metrics == pill.metrics,
        message != WM_TIMER ==> pill.after(message, lparam, cursor, commands, now).0.mode
            == pill.mode,
{
    commands_keep_the_sizes(pill, commands, now);
}

proof fn commands_keep_the_sizes(pill: Pill, commands: Seq<PillCommand>, now: u64)
    ensures
        pill.told_all(commands, now).metrics == pill.metrics,
    decreases commands.len(),
{
    if commands.len() > 0 {
        commands_keep_the_sizes(pill, commands.drop_last(), now);
    }
}

/// The buttons are squares, half way up the pill; one is as far from its left end as the
/// other from its right.
pub proof fn buttons_are_placed_evenly(m: Metrics)
    requires
        m.valid(),
    ensures
        ({
            let (discard, finish) = (m.discard_area(), m.finish_area());
            &&& discard.left - m.controls.left == m.pad
            &&& m.controls.right - finish.right == m.pad
            &&& discard.right - discard.left == m.button && discard.bottom - discard.top == m.button
            &&& finish.right - finish.left == m.button && finish.bottom - finish.top == m.button
            &&& discard.top == finish.top
            &&& -1 <= (discard.top - m.controls.top) - (m.controls.bottom - discard.bottom) <= 1
        }),
{
}

/// While a recording runs and the mouse is over the pill, what is under the mouse is what
/// is pressed: a button, or else the pill, which is then dragged. At all other times nothing
/// is.
pub proof fn buttons_are_pressed_where_they_are(pill: Pill, x: i32, y: i32)
    ensures
        ({
            let works = pill.mode == Some(PillMode::Recording) && pill.mouse_in;
            let on_discard = pill.metrics.discard_area().has(x, y);
            let on_finish = pill.metrics.finish_area().has(x, y);
            let press = pill.press_of(x, y);
            &&& press == Press::Click(PillButton::Discard) <==> works && on_discard
            &&& press == Press::Click(PillButton::Finish) <==> works && !on_discard && on_finish
            &&& press == Press::Drag <==> works && !on_discard && !on_finish
            &&& press == Press::Nothing <==> !works
            &&& press != Press::Click(PillButton::OpenSettings)
        }),
{
}

/// The pill shows what it was last told to, and nothing once it was told to hide; the times
/// that it counts from are those it was told.
pub proof fn pills_show_what_they_are_told(pill: Pill, mode: PillMode, at: u64, now: u64)
    ensures
        pill.told(PillCommand::Show(mode), now).0.mode == Some(mode),
        pill.told(PillCommand::Show(mode), now).1 == Visibility::Shown,
        pill.told(PillCommand::Hide, now).0.mode is None,
        pill.told(PillCommand::Hide, now).1 == Visibility::Hidden,
        pill.told(PillCommand::FlashStarted, now).0.mode == Some(PillMode::Flash),
        pill.told(PillCommand::FlashStarted, now).0.flash_start == Some(now),
        pill.told(PillCommand::FlashStarted, now).1 == Visibility::Shown,
        pill.told(PillCommand::RecordingStarted(at), now) == (
            Pill { record_start: Some(at), ..pill },
            Visibility::Unchanged,
        ),
        pill.told(PillCommand::TranscribingStarted(at), now) == (
            Pill { transcribe_start: Some(at), ..pill },
            Visibility::Unchanged,
        ),
        pill.told(PillCommand::Show(mode), now).0.record_start == pill.record_start,
        pill.transcribe_start is Some ==> pill.told(
            PillCommand::Show(mode),
            now,
        ).0.transcribe_start == pill.transcribe_start,
        pill.transcribe_start is None && mode == PillMode::Transcribing ==> pill.told(
            PillCommand::Show(mode),
            now,
        ).0.transcribe_start == Some(now),
{
}

/// Commands are obeyed one by one, none is left out, and the last that shows or hides the
/// pill decides whether it is seen.
pub proof fn every_command_is_obeyed(
    pill: Pill,
    commands: Seq<PillCommand>,
    command: PillCommand,
    now: u64,
)
    ensures
        ({
            let before = pill.told_all(commands, now);
            let seen = before.told(command, now).1;
            &&& pill.told_all(commands.push(command), now) == before.told(command, now).0
            &&& seen != Visibility::Unchanged ==> pill.seen_after(commands.push(command), now)
                == seen
            &&& seen == Visibility::Unchanged ==> pill.seen_after(commands.push(command), now)
                == pill.seen_after(commands, now)
            &&& pill.told_all(Seq::empty(), now) == pill
            &&& pill.seen_after(Seq::empty(), now) == Visibility::Unchanged
        }),
{
    assert(commands.push(command).drop_last() == commands);
}

/// The pill counts from the start of what it shows, and a flash goes away after eight tenths
/// of a second, not before.
pub proof fn pills_count_from_the_start(pill: Pill, start: u64, now: u64)
    requires
        start <= now,
    ensures
        pill.mode == Some(PillMode::Recording) && pill.record_start == Some(start) ==> pill.ticked(
            now,
        ) == (Pill { elapsed: (now - start) as u64, ..pill }, Visibility::Unchanged),
        pill.mode == Some(PillMode::Transcribing) && pill.transcribe_start == Some(start)
            ==> pill.ticked(now) == (
            Pill { elapsed: (now - start) as u64, ..pill },
            Visibility::Unchanged,
        ),
        pill.mode == Some(PillMode::Flash) && pill.flash_start == Some(start) ==> {
            &&& pill.ticked(now).0.mode is None <==> now - start >= 800_000_000
            &&& pill.ticked(now).1 == Visibility::Hidden <==> now - start >= 800_000_000
        },
        pill.mode is None ==> pill.ticked(now) == (pill, Visibility::Unchanged),
{
}

/// The timer shows whole seconds, below sixty in two digits behind the minutes.
pub proof fn timers_show_minutes_and_seconds(nanos: u64)
    ensures
        ({
            let minutes = (nanos / 1_000_000_000 / 60) as nat;
            let text = timer_text(nanos);
            let n = text.len() as int;
            &&& n >= 4
            &&& text[n - 3] == ':'
            &&& text.subrange(0, n - 3) == crate::text::decimal_of(minutes)
            &&& minutes * 60 + (text[n - 2] as u32 - '0' as u32) * 10 + (text[n - 1] as u32
                - '0' as u32) == nanos / 1_000_000_000
        }),
{
    let total = nanos / 1_000_000_000;
    reveal_strlit(":");
    crate::text::two_digits_are_read_back((total % 60) as nat);
    crate::text::decimals_are_read_back((total / 60) as nat);
    let text = timer_text(nanos);
    assert(text.subrange(0, text.len() - 3) =~= crate::text::decimal_of((total / 60) as nat));
}

/// A pill that is shown is drawn, with the levels of the recording while it runs; under the
/// mouse it has its buttons and the time, and the button that is pointed at stands out.
pub proof fn shown_pills_are_drawn(pill: Pill, picture: Option<Picture>)
    requires
        pill.metrics.valid(),
        call_ensures(Pill::render_pill, (&pill,), picture),
    ensures
        picture is Some <==> pill.mode is Some,
        picture is Some ==> {
            let shown = picture->0;
            let works = pill.mode == Some(PillMode::Recording) && pill.mouse_in;
            &&& shown.levels == LevelSource::Live <==> pill.mode == Some(PillMode::Recording)
            &&& shown.levels == LevelSource::Animated <==> pill.mode == Some(PillMode::Transcribing)
            &&& shown.buttons is Some <==> works
            &&& works ==> {
                let (discard, finish) = shown.buttons->0;
                &&& discard.area == pill.metrics.discard_area()
                &&& finish.area == pill.metrics.finish_area()
                &&& discard.background == 0x262626 <==> pill.hover == HoverTarget::Discard
                &&& finish.background == 0x262626 <==> pill.hover == HoverTarget::Finish
                &&& shown.timer@ == timer_text(pill.elapsed)
            }
            &&& !works ==> shown.timer@.len() == 0
            &&& shown.wave_color == (if works {
                0x5a5a5au32
            } else {
                0xd8d8d8u32
            })
        },
{
}

/// The bars stand side by side without touching, and in the middle of the pill.
pub proof fn bars_stand_side_by_side(
    m: Metrics,
    layout: Option<BarLayout>,
    i: i32,
    height: i32,
    bar: Rect,
    next: Rect,
)
    requires
        m.valid(),
        call_ensures(Metrics::bar_layout, (m,), layout),
        layout is Some,
        0 <= i < 30,
        0 <= height,
        layout->0.holds(i as int, height as int),
        layout->0.holds(i + 1, height as int),
        call_ensures(BarLayout::bar, (layout->0, i, height), bar),
        call_ensures(BarLayout::bar, (layout->0, (i + 1) as i32, height), next),
    ensures
        bar.right - bar.left == m.bar_w,
        bar.bottom - bar.top == height,
        bar.right < next.left,
        -1 <= (m.height / 2 - bar.top) - (bar.bottom - m.height / 2) <= 1,
{
    let l = layout->0;
    assert((i + 1) * l.pitch == i * l.pitch + l.pitch) by (nonlinear_arith);
}

/// The bars are in the middle of the wave: as far from its one end as from the other.
pub proof fn bars_are_centred(m: Metrics, layout: Option<BarLayout>)
    requires
        m.valid(),
        call_ensures(Metrics::bar_layout, (m,), layout),
    ensures
        layout is Some <==> m.width - 2 * m.pad > m.bar_w,
        layout is Some ==> {
            let l = layout->0;
            let before = l.start_x - m.pad;
            let behind = m.width - m.pad - (l.start_x + m.bars_width());
            -1 <= before - behind <= 1
        },
        m.bars_width() == 31 * m.bar_w + 30 * m.bar_gap(),
{
}

/// A rounded rectangle with no radius is the whole rectangle, and with any radius it holds
/// what is at least that far from its ends one way or the other.
pub proof fn only_corners_are_cut(x: int, y: int, r: Rect, radius: int)
    requires
        0 <= radius,
        r.left <= x < r.right,
        r.top <= y < r.bottom,
    ensures
        in_round_rect(x, y, r, 0),
        r.left + radius <= x < r.right - radius ==> in_round_rect(x, y, r, radius),
        r.top + radius <= y < r.bottom - radius ==> in_round_rect(x, y, r, radius),
{
}

/// What is inside the wave or the controls is opaque, all else is clear, and no colour
/// changes.
pub proof fn only_the_shape_is_opaque()
    ensures
        forall|
            pixels: &mut Vec<u8>,
            w: usize,
            h: usize,
            wave: Rect,
            controls: Rect,
            radius: i32,
            r: (),
            p: int,
        |
            #![trigger call_ensures(apply_alpha, (pixels, w, h, wave, controls, radius), r), final(pixels)@[4 * p + 3]]
            call_ensures(apply_alpha, (pixels, w, h, wave, controls, radius), r) && 0 <= p < w * h
                && radius >= 0 ==> {
                let (x, y) = (p % w as int, p / w as int);
                &&& final(pixels)@[4 * p + 3] == 255 <==> in_round_rect(x, y, wave, radius as int)
                    || in_round_rect(x, y, controls, radius as int)
                &&& final(pixels)@[4 * p + 3] == 0 || final(pixels)@[4 * p + 3] == 255
            },
        forall|
            pixels: &mut Vec<u8>,
            w: usize,
            h: usize,
            wave: Rect,
            controls: Rect,
            radius: i32,
            r: (),
            k: int,
        |
            #![trigger call_ensures(apply_alpha, (pixels, w, h, wave, controls, radius), r), final(pixels)@[k]]
            call_ensures(apply_alpha, (pixels, w, h, wave, controls, radius), r) && 0 <= k
                < pixels@.len() && k % 4 != 3 ==> final(pixels)@[k] == pixels@[k],
{
}

/// The pill is docked in the middle of the lower edge, with the gap below it.
pub proof fn pills_are_docked_in_the_middle(area: Rect, w: i32, h: i32, gap: i32, r: (i32, i32))
    requires
        call_ensures(dock_position, (area, w, h, gap), r),
    ensures
        r.1 + h + gap == area.bottom,
        -1 <= (r.0 - area.left) - (area.right - (r.0 + w)) <= 1,
{
}

/// A press does what is under the mouse, the other button opens the settings, and a mouse
/// that leaves takes the buttons away.
pub proof fn messages_reach_the_pill(
    pill: Pill,
    lparam: u64,
    cursor: (i32, i32),
    commands: Seq<PillCommand>,
    now: u64,
)
    ensures
        ({
            let (x, y) = point_of(lparam);
            let after = |message: u32| pill.after(message, lparam, cursor, commands, now);
            &&& after(0x201).0 == pill && after(0x205).0 == pill
            &&& after(0x205).1 == PillReaction::Click(PillButton::OpenSettings)
            &&& after(0x201).1 == PillReaction::Click(PillButton::Discard) <==> pill.press_of(x, y)
                == Press::Click(PillButton::Discard)
            &&& after(0x201).1 == PillReaction::Click(PillButton::Finish) <==> pill.press_of(x, y)
                == Press::Click(PillButton::Finish)
            &&& after(0x201).1 == PillReaction::Drag <==> pill.press_of(x, y) == Press::Drag
            &&& after(0x200).0.mouse_in && after(0x200).0.hover == after(0x200).0.target(x, y)
            &&& after(0x200).1 == (PillReaction::Moved {
                watch: !pill.mouse_in,
                redraw: after(0x200).0.hover != pill.hover,
            })
            &&& !after(0x2a3).0.mouse_in && after(0x2a3).0.hover == HoverTarget::Outside
            &&& after(0x113).0 == pill.told_all(commands, now).ticked(now).0
            &&& after(0x1).1 == PillReaction::StartTimer && after(0x2).1 == PillReaction::End
            &&& after(0x20).1 == PillReaction::Hand <==> lparam % 0x10000 == 1 && (pill.press_of(
                cursor.0,
                cursor.1,
            ) is Click)
        }),
{
}

/// The place of the mouse is in the two low words of a message, each with its sign.
pub proof fn points_have_signed_words(lparam: u64)
    ensures
        -32_768 <= point_of(lparam).0 <= 32_767,
        -32_768 <= point_of(lparam).1 <= 32_767,
        (point_of(lparam).0 - lparam as int) % 65_536 == 0,
        (point_of(lparam).1 - lparam as int / 65_536) % 65_536 == 0,
{
    crate::words::signed_words_keep_their_bits(lparam as int % 0x10000);
    crate::words::signed_words_keep_their_bits(lparam as int / 0x10000 % 0x10000);
}

} // verus!
