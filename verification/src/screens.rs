//! What the panel shows: the pages of the tour and the settings page, as a list of
//! items from top to bottom.
use crate::asr::fetch::{progress_status, progress_summary};
use crate::asr::model::{spec_by_id, ModelKind};
use crate::backend_detect::{candidates_for, BenchResult, HardwareProfile, Vendor, RTF_NAN};
use crate::onboarding::{
    bench_label, BenchBoard, EngineSlot, OnboardingView, PresetSlot, SetupOrigin, RECOVERY_NOTICE,
};
use crate::setup_steps::{SetupStep, StepEvent};
use crate::text::{decimal, is_blank, joined, owned, same_text, signed_decimal};
use vstd::prelude::*;

verus! {

/// How a line is set.
#[derive(Clone, Copy, Debug, PartialEq, Eq, Structural)]
pub enum Tone {
    Title,
    Body,
    Note,
    Status,
    Warning,
    Failure,
    Success,
}

/// A value of a preset.
#[derive(Clone, Copy, Debug, PartialEq, Eq, Structural)]
pub enum Preset {
    Casual,
    SemiCasual,
    SemiFormal,
    Formal,
    Prose,
    Lists,
    General,
    Email,
}

impl Preset {
    /// The value as it is stored.
    pub open spec fn value_text(self) -> Seq<char> {
        match self {
            Preset::Casual => "casual"@,
            Preset::SemiCasual => "semi-casual"@,
            Preset::SemiFormal => "semi-formal"@,
            Preset::Formal => "formal"@,
            Preset::Prose => "prose"@,
            Preset::Lists => "lists"@,
            Preset::General => "general"@,
            Preset::Email => "email"@,
        }
    }

    /// The value as it is stored.
    pub fn value(self) -> (value: &'static str)
        ensures
            value@ == self.value_text(),
    {
        match self {
            Preset::Casual => "casual",
            Preset::SemiCasual => "semi-casual",
            Preset::SemiFormal => "semi-formal",
            Preset::Formal => "formal",
            Preset::Prose => "prose",
            Preset::Lists => "lists",
            Preset::General => "general",
            Preset::Email => "email",
        }
    }

    /// The value as it is shown.
    pub open spec fn label_text(self) -> Seq<char> {
        match self {
            Preset::Casual => "Casual"@,
            Preset::SemiCasual => "Semi-casual"@,
            Preset::SemiFormal => "Semi-formal"@,
            Preset::Formal => "Formal"@,
            Preset::Prose => "Prose"@,
            Preset::Lists => "Lists"@,
            Preset::General => "General"@,
            Preset::Email => "Email"@,
        }
    }

    /// The value as it is shown.
    pub fn label(self) -> (label: &'static str)
        ensures
            label@ == self.label_text(),
    {
        match self {
            Preset::Casual => "Casual",
            Preset::SemiCasual => "Semi-casual",
            Preset::SemiFormal => "Semi-formal",
            Preset::Formal => "Formal",
            Preset::Prose => "Prose",
            Preset::Lists => "Lists",
            Preset::General => "General",
            Preset::Email => "Email",
        }
    }
}

/// What a click does.
#[derive(Clone, Copy, Debug, PartialEq, Eq, Structural)]
pub enum Control {
    Nav(StepEvent),
    Start,
    Cancel,
    SkipBench,
    Finish,
    TryNow,
    ToggleConsent,
    ToggleTray,
    TogglePreload,
    Recheck,
    Engine(EngineSlot, ModelKind),
    Choose(PresetSlot, Preset),
    ExportLogs,
    Reveal,
    Delete,
    Redownload,
    Reset,
}

/// How a button is drawn.
#[derive(Clone, Copy, Debug, PartialEq, Eq, Structural)]
pub enum ButtonStyle {
    Primary,
    Action,
    Plain,
}

/// What stands behind a measured candidate.
#[derive(Clone, Copy, Debug, PartialEq, Eq, Structural)]
pub enum Tag {
    Selected,
    Fastest,
    /// It is slower: `rtf` over `fastest` times.
    Slower,
    /// Nothing: the measurement is no number.
    Blank,
}

/// How far the measurement of a candidate has come.
#[derive(Clone, Copy, Debug, PartialEq, Eq, Structural)]
pub enum Standing {
    /// It is measured. `rank` is its place, counted from 1, and `fastest` the speed that
    /// it is held against.
    Done { rank: usize, rtf: i64, fastest: i64, tag: Tag },
    /// It is being measured; `dots` of them follow the word.
    Running { dots: u64 },
    Waiting,
}

/// An item of a page.
#[derive(Debug)]
pub enum Item {
    Logo,
    Line { tone: Tone, text: String },
    Numbered { index: u64, text: String },
    Shortcut { key: String, text: String },
    Labeled { label: String, text: String },
    Switch { control: Control, on: bool },
    /// The level of the microphone.
    Level,
    Bar { done: u64, total: u64 },
    /// The head of the list of candidates.
    BoardHead,
    Candidate { name: String, standing: Standing },
    Button { control: Control, label: String, style: ButtonStyle, enabled: bool },
    Choice { control: Control, label: String, selected: bool },
}

/// `Item` as a mathematical value.
#[verifier::ext_equal]
pub ghost enum ItemView {
    Logo,
    Line { tone: Tone, text: Seq<char> },
    Numbered { index: u64, text: Seq<char> },
    Shortcut { key: Seq<char>, text: Seq<char> },
    Labeled { label: Seq<char>, text: Seq<char> },
    Switch { control: Control, on: bool },
    Level,
    Bar { done: u64, total: u64 },
    BoardHead,
    Candidate { name: Seq<char>, standing: Standing },
    Button { control: Control, label: Seq<char>, style: ButtonStyle, enabled: bool },
    Choice { control: Control, label: Seq<char>, selected: bool },
}

impl View for Item {
    type V = ItemView;

    open spec fn view(&self) -> ItemView {
        match *self {
            Item::Logo => ItemView::Logo,
            Item::Line { tone, text } => ItemView::Line { tone, text: text@ },
            Item::Numbered { index, text } => ItemView::Numbered { index, text: text@ },
            Item::Shortcut { key, text } => ItemView::Shortcut { key: key@, text: text@ },
            Item::Labeled { label, text } => ItemView::Labeled { label: label@, text: text@ },
            Item::Switch { control, on } => ItemView::Switch { control, on },
            Item::Level => ItemView::Level,
            Item::Bar { done, total } => ItemView::Bar { done, total },
            Item::BoardHead => ItemView::BoardHead,
            Item::Candidate { name, standing } => ItemView::Candidate { name: name@, standing },
            Item::Button { control, label, style, enabled } => ItemView::Button {
                control,
                label: label@,
                style,
                enabled,
            },
            Item::Choice { control, label, selected } => ItemView::Choice {
                control,
                label: label@,
                selected,
            },
        }
    }
}

/// A page, from top to bottom.
#[derive(Debug)]
pub struct Page {
    pub items: Vec<Item>,
}

impl View for Page {
    type V = Seq<ItemView>;

    open spec fn view(&self) -> Seq<ItemView> {
        self.items@.map_values(|item: Item| item@)
    }
}

impl Page {
    /// An empty page.
    pub fn new() -> (page: Page)
        ensures
            page@ == Seq::<ItemView>::empty(),
    {
        let page = Page { items: Vec::new() };
        assert(page@ =~= Seq::<ItemView>::empty());
        page
    }

    /// Puts an item at the end.
    pub fn put(&mut self, item: Item)
        ensures
            final(self)@ == old(self)@.push(item@),
    {
        self.items.push(item);
        assert(self@ =~= old(self)@.push(item@));
    }

    /// Puts the items of another page at the end.
    pub fn extend(&mut self, other: Page)
        ensures
            final(self)@ == old(self)@ + other@,
    {
        let ghost more = other@;
        let mut items = other.items;
        self.items.append(&mut items);
        assert(self@ =~= old(self)@ + more);
    }

    /// Puts a line at the end.
    pub fn line(&mut self, tone: Tone, text: &str)
        ensures
            final(self)@ == old(self)@.push(ItemView::Line { tone, text: text@ }),
    {
        self.put(Item::Line { tone, text: owned(text) });
    }

    /// Puts a button at the end.
    pub fn button(&mut self, control: Control, label: &str, style: ButtonStyle, enabled: bool)
        ensures
            final(self)@ == old(self)@.push(
                ItemView::Button { control, label: label@, style, enabled },
            ),
    {
        self.put(Item::Button { control, label: owned(label), style, enabled });
    }
}

/// A line.
pub open spec fn line_of(tone: Tone, text: Seq<char>) -> ItemView {
    ItemView::Line { tone, text }
}

/// A button that can be clicked.
pub open spec fn button_of(control: Control, label: Seq<char>, style: ButtonStyle) -> ItemView {
    ItemView::Button { control, label, style, enabled: true }
}

/// An item that is there in some cases only.
pub open spec fn when(there: bool, item: ItemView) -> Seq<ItemView> {
    if there {
        seq![item]
    } else {
        Seq::empty()
    }
}

/// A line that is there if there is a text.
pub open spec fn line_if(tone: Tone, text: Option<Seq<char>>) -> Seq<ItemView> {
    match text {
        Some(text) => seq![line_of(tone, text)],
        None => Seq::empty(),
    }
}

fn optional_line(tone: Tone, text: &Option<String>) -> (page: Page)
    ensures
        page@ == line_if(tone, crate::text::opt_text(*text)),
{
    let mut page = Page::new();
    if let Some(text) = text {
        page.line(tone, text.as_str());
    }
    page
}

/// The buttons at the end of a page of the tour.
pub open spec fn footer_of(primary: Seq<char>) -> Seq<ItemView> {
    seq![
        button_of(Control::Nav(StepEvent::NavBack), "Back"@, ButtonStyle::Action),
        button_of(Control::Nav(StepEvent::NavNext), primary, ButtonStyle::Primary),
    ]
}

/// The buttons at the end of a page of the tour.
pub fn tour_footer(primary: &str) -> (page: Page)
    ensures
        page@ == footer_of(primary@),
{
    let mut page = Page::new();
    page.button(Control::Nav(StepEvent::NavBack), "Back", ButtonStyle::Action, true);
    page.button(Control::Nav(StepEvent::NavNext), primary, ButtonStyle::Primary, true);
    page
}

/// What went wrong, if something did.
pub open spec fn error_of(view: OnboardingView, words: Seq<char>) -> Seq<ItemView> {
    match view.error {
        Some(error) => seq![line_of(Tone::Failure, words + error@)],
        None => Seq::empty(),
    }
}

/// The time left of the download that is shown.
pub open spec fn eta_of(view: OnboardingView, progress: crate::asr::fetch::DownloadProgress) -> Option<
    Seq<char>,
> {
    crate::asr::fetch::eta_text(view.transfer.eta@, progress.done, progress.total)
}

/// The words on a download.
pub open spec fn status_of(
    view: OnboardingView,
    label: Seq<char>,
    progress: crate::asr::fetch::DownloadProgress,
) -> Seq<char> {
    "Downloading "@ + label + " \u{2014} "@ + crate::asr::fetch::summary(
        progress.done,
        progress.total,
    ) + crate::asr::fetch::part_of(crate::text::opt_text(view.transfer.speed))
        + crate::asr::fetch::part_of(eta_of(view, progress)) + " ("@ + progress.file@ + ")"@
}

/// The bar of a download.
pub open spec fn bar_of(progress: crate::asr::fetch::DownloadProgress) -> ItemView {
    ItemView::Bar { done: progress.done, total: progress.total }
}

/// The Cancel button, while there is something to cancel.
pub open spec fn cancel_of(view: OnboardingView) -> Seq<ItemView> {
    when(
        view.transfer.busy && view.transfer.downloading,
        ItemView::Button {
            control: Control::Cancel,
            label: if view.transfer.cancel_requested {
                "Cancelling\u{2026}"@
            } else {
                "Cancel"@
            },
            style: ButtonStyle::Action,
            enabled: !view.transfer.cancel_requested,
        },
    )
}

/// The words on a machine.
pub open spec fn heading_of(profile: HardwareProfile) -> Seq<char> {
    if profile.vendor == Vendor::Nvidia {
        "I found an "@ + "NVIDIA"@
            + " graphics card. I'll check whether it can make dictation faster."@
    } else {
        "I'll tune the engine to make the most of this CPU."@
    }
}

/// The words on a machine.
pub fn detect_heading(profile: &HardwareProfile) -> (text: String)
    ensures
        text@ == heading_of(*profile),
{
    if let Vendor::Nvidia = profile.vendor {
        joined(
            joined("I found an ", profile.vendor.label()).as_str(),
            " graphics card. I'll check whether it can make dictation faster.",
        )
    } else {
        owned("I'll tune the engine to make the most of this CPU.")
    }
}

/// The graphics of a machine.
pub open spec fn graphics_of(profile: HardwareProfile) -> Seq<char> {
    if profile.vendor == Vendor::Nvidia {
        if crate::text::blank(profile.gpu_label@) {
            "NVIDIA"@
        } else {
            profile.gpu_label@
        }
    } else {
        "CPU only"@
    }
}

/// The graphics of a machine.
pub fn bench_graphics_line(profile: &HardwareProfile) -> (text: String)
    ensures
        text@ == graphics_of(*profile),
{
    if let Vendor::Nvidia = profile.vendor {
        if is_blank(profile.gpu_label.as_str()) {
            owned(profile.vendor.label())
        } else {
            profile.gpu_label.clone()
        }
    } else {
        owned("CPU only")
    }
}

/// The first place of a candidate among the results.
pub open spec fn place_of(results: Seq<BenchResult>, provider: Seq<char>, threads: i32) -> Option<int>
    decreases results.len(),
{
    if results.len() == 0 {
        None
    } else {
        match place_of(results.drop_last(), provider, threads) {
            Some(i) => Some(i),
            None => if results.last().provider@ == provider && results.last().threads == threads {
                Some(results.len() - 1)
            } else {
                None
            },
        }
    }
}

/// The speed that the others are held against: that of the first result, or real time.
pub open spec fn yardstick(results: Seq<BenchResult>) -> i64 {
    if results.len() > 0 && results[0].rtf > 0 {
        results[0].rtf
    } else {
        10_000
    }
}

/// Whether the candidate won.
pub open spec fn is_winner(board: BenchBoard, provider: Seq<char>, threads: i32) -> bool {
    match board.winner_result {
        Some(winner) => winner.provider@ == provider && winner.threads == threads,
        None => false,
    }
}

/// Whether the candidate is being measured.
pub open spec fn is_running(board: BenchBoard, provider: Seq<char>, threads: i32) -> bool {
    match board.running {
        Some((p, t)) => p@ == provider && t == threads,
        None => false,
    }
}

/// The number of dots at a beat.
pub open spec fn dots_at(pulse: u64) -> u64 {
    (pulse % 3 + 1) as u64
}

/// How far the measurement of a candidate has come.
pub open spec fn standing_of(board: BenchBoard, provider: Seq<char>, threads: i32) -> Standing {
    match place_of(board.results@, provider, threads) {
        Some(i) => {
            let rtf = board.results@[i].rtf;
            let fastest = yardstick(board.results@);
            Standing::Done {
                rank: (i + 1) as usize,
                rtf,
                fastest,
                tag: if is_winner(board, provider, threads) {
                    Tag::Selected
                } else if rtf == crate::backend_detect::RTF_NAN {
                    Tag::Blank
                } else if rtf <= fastest {
                    Tag::Fastest
                } else {
                    Tag::Slower
                },
            }
        },
        None => if is_running(board, provider, threads) {
            Standing::Running { dots: dots_at(board.pulse) }
        } else {
            Standing::Waiting
        },
    }
}

/// The row of a candidate.
pub open spec fn row_of(board: BenchBoard, c: crate::backend_detect::CandidateView) -> ItemView {
    ItemView::Candidate {
        name: crate::onboarding::engine_text(c.provider, c.threads),
        standing: standing_of(board, c.provider, c.threads),
    }
}

/// The rows of the candidates, in order.
pub open spec fn rows_of(
    board: BenchBoard,
    candidates: Seq<crate::backend_detect::CandidateView>,
) -> Seq<ItemView>
    decreases candidates.len(),
{
    if candidates.len() == 0 {
        Seq::empty()
    } else {
        rows_of(board, candidates.drop_last()).push(row_of(board, candidates.last()))
    }
}

fn place(results: &Vec<BenchResult>, provider: &str, threads: i32) -> (found: Option<usize>)
    ensures
        match found {
            Some(i) => i < results@.len() <= usize::MAX && place_of(
                results@,
                provider@,
                threads,
            ) == Some(i as int),
            None => place_of(results@, provider@, threads) is None,
        },
{
    let mut i: usize = 0;
    let n: usize = results.len();
    let mut found: Option<usize> = None;
    while i < n
        invariant
            i <= n,
            n == results@.len(),
            match found {
                Some(k) => k < i && place_of(results@.subrange(0, i as int), provider@, threads)
                    == Some(k as int),
                None => place_of(results@.subrange(0, i as int), provider@, threads) is None,
            },
        decreases n - i,
    {
        assert(results@.subrange(0, i + 1).drop_last() =~= results@.subrange(0, i as int));
        if found.is_none() && same_text(results[i].provider.as_str(), provider)
            && results[i].threads == threads {
            found = Some(i);
        }
        i += 1;
    }
    assert(results@.subrange(0, n as int) =~= results@);
    found
}

fn standing(board: &BenchBoard, provider: &str, threads: i32) -> (standing: Standing)
    ensures
        standing == standing_of(*board, provider@, threads),
{
    match place(&board.results, provider, threads) {
        Some(i) => {
            let rtf: i64 = board.results[i].rtf;
            let fastest: i64 = if board.results[0].rtf > 0 {
                board.results[0].rtf
            } else {
                10_000
            };
            let won = match &board.winner_result {
                Some(winner) => same_text(winner.provider.as_str(), provider) && winner.threads
                    == threads,
                None => false,
            };
            let tag = if won {
                Tag::Selected
            } else if rtf == RTF_NAN {
                Tag::Blank
            } else if rtf <= fastest {
                Tag::Fastest
            } else {
                Tag::Slower
            };
            Standing::Done { rank: i + 1, rtf, fastest, tag }
        },
        None => {
            let running = match &board.running {
                Some((p, t)) => same_text(p.as_str(), provider) && *t == threads,
                None => false,
            };
            if running {
                Standing::Running { dots: board.pulse % 3 + 1 }
            } else {
                Standing::Waiting
            }
        },
    }
}

fn rows(board: &BenchBoard, profile: &HardwareProfile) -> (page: Page)
    ensures
        page@ == rows_of(*board, crate::backend_detect::candidates_of(*profile)),
{
    let candidates = candidates_for(profile);
    let ghost views = crate::backend_detect::candidates_of(*profile);
    assert(candidates@.len() == views.len()) by {
        assert(candidates@.map_values(|c: crate::backend_detect::ProviderCandidate| c@).len()
            == candidates@.len());
    }
    let mut page = Page::new();
    let mut i: usize = 0;
    let n: usize = candidates.len();
    while i < n
        invariant
            i <= n,
            n == candidates@.len(),
            n == views.len(),
            candidates@.map_values(|c: crate::backend_detect::ProviderCandidate| c@) == views,
            page@ == rows_of(*board, views.subrange(0, i as int)),
        decreases n - i,
    {
        assert(views[i as int] == candidates@[i as int]@);
        assert(views.subrange(0, i + 1).drop_last() =~= views.subrange(0, i as int));
        let c = &candidates[i];
        page.put(
            Item::Candidate {
                name: bench_label(c.provider.as_str(), c.threads),
                standing: standing(board, c.provider.as_str(), c.threads),
            },
        );
        i += 1;
    }
    assert(views.subrange(0, n as int) =~= views);
    page
}

/// As many dots as the beat has.
pub open spec fn dots_text(pulse: u64) -> Seq<char> {
    if pulse % 3 == 0 {
        "."@
    } else if pulse % 3 == 1 {
        ".."@
    } else {
        "..."@
    }
}

fn dots(pulse: u64) -> (text: &'static str)
    ensures
        text@ == dots_text(pulse),
{
    if pulse % 3 == 0 {
        "."
    } else if pulse % 3 == 1 {
        ".."
    } else {
        "..."
    }
}

/// What stands below the candidates: how it goes while it goes, and what came out.
pub open spec fn outcome_of(view: OnboardingView) -> Seq<ItemView> {
    let board = view.bench;
    if board.busy {
        seq![
            line_of(Tone::Body, "Measuring"@ + dots_text(board.pulse)),
            line_of(
                Tone::Note,
                if board.results@.len() >= crate::backend_detect::candidates_of(
                    view.profile,
                ).len() {
                    "Almost done, just wrapping up."@
                } else {
                    "This usually takes a few seconds."@
                },
            ),
            line_of(Tone::Note, "You can stop early and use the CPU default."@),
            button_of(Control::Nav(StepEvent::NavBack), "Back"@, ButtonStyle::Action),
            button_of(Control::SkipBench, "Use CPU default"@, ButtonStyle::Action),
        ]
    } else {
        seq![
            line_of(
                if board.winner is Some && !board.skipped {
                    Tone::Success
                } else {
                    Tone::Note
                },
                if board.skipped {
                    "Using the CPU default."@
                } else {
                    match board.winner {
                        Some(winner) => "Done. I'll use "@ + winner@ + "."@,
                        None => "I'll start you on the CPU default."@,
                    }
                },
            ),
        ] + footer_of("Next"@)
    }
}

fn outcome(view: &OnboardingView) -> (page: Page)
    ensures
        page@ == outcome_of(*view),
{
    let board = &view.bench;
    let mut page = Page::new();
    if board.busy {
        let candidates = candidates_for(&view.profile);
        assert(candidates@.len() == crate::backend_detect::candidates_of(view.profile).len()) by {
            assert(candidates@.map_values(|c: crate::backend_detect::ProviderCandidate| c@).len()
                == candidates@.len());
        }
        page.line(Tone::Body, joined("Measuring", dots(board.pulse)).as_str());
        if board.results.len() >= candidates.len() {
            page.line(Tone::Note, "Almost done, just wrapping up.");
        } else {
            page.line(Tone::Note, "This usually takes a few seconds.");
        }
        page.line(Tone::Note, "You can stop early and use the CPU default.");
        page.button(Control::Nav(StepEvent::NavBack), "Back", ButtonStyle::Action, true);
        page.button(Control::SkipBench, "Use CPU default", ButtonStyle::Action, true);
    } else {
        if board.skipped {
            page.line(Tone::Note, "Using the CPU default.");
        } else {
            match &board.winner {
                Some(winner) => page.line(
                    Tone::Success,
                    joined(joined("Done. I'll use ", winner.as_str()).as_str(), ".").as_str(),
                ),
                None => page.line(Tone::Note, "I'll start you on the CPU default."),
            }
        }
        page.extend(tour_footer("Next"));
    }
    page
}

fn error_line(view: &OnboardingView, words: &str) -> (page: Page)
    ensures
        page@ == error_of(*view, words@),
{
    let mut page = Page::new();
    if let Some(error) = &view.error {
        page.line(Tone::Failure, joined(words, error.as_str()).as_str());
    }
    page
}

fn cancel_button(view: &OnboardingView) -> (page: Page)
    ensures
        page@ == cancel_of(*view),
{
    let mut page = Page::new();
    if view.transfer.busy && view.transfer.downloading {
        if view.transfer.cancel_requested {
            page.button(Control::Cancel, "Cancelling\u{2026}", ButtonStyle::Action, false);
        } else {
            page.button(Control::Cancel, "Cancel", ButtonStyle::Action, true);
        }
    }
    page
}

/// The words on a download and its bar, while there is one.
pub open spec fn progress_of(view: OnboardingView, label: Seq<char>) -> Seq<ItemView> {
    match view.transfer.progress {
        Some(progress) => seq![
            line_of(Tone::Status, status_of(view, label, progress)),
            bar_of(progress),
        ],
        None => Seq::empty(),
    }
}

fn as_text(text: &Option<String>) -> (r: Option<&str>)
    ensures
        match r {
            Some(r) => crate::text::opt_text(*text) == Some(r@),
            None => text is None,
        },
{
    match text {
        Some(text) => Some(text.as_str()),
        None => None,
    }
}

/// The label of a download: its file, or a name.
fn progress_lines(view: &OnboardingView, name: Option<&str>) -> (page: Page)
    requires
        view.well_formed(),
    ensures
        match view.transfer.progress {
            Some(p) => page@ == progress_of(
                *view,
                match name {
                    Some(name) => name@,
                    None => p.file@,
                },
            ),
            None => page@ == Seq::<ItemView>::empty(),
        },
{
    let mut page = Page::new();
    if let Some(progress) = &view.transfer.progress {
        let eta = view.transfer.eta.estimate(progress.done, progress.total);
        let label = match name {
            Some(name) => name,
            None => progress.file.as_str(),
        };
        let text = progress_status(label, progress, as_text(&view.transfer.speed), as_text(&eta));
        page.line(Tone::Status, text.as_str());
        page.put(Item::Bar { done: progress.done, total: progress.total });
    }
    page
}

/// The first page: what the app does and what setup will do.
pub open spec fn welcome_page(view: OnboardingView) -> Seq<ItemView> {
    seq![
        ItemView::Logo,
        line_of(Tone::Title, "Welcome to Amanuensis"@),
        line_of(
            Tone::Body,
            "Press F9 anywhere, speak, and your words become text in whatever app you're using."@,
        ),
        line_of(
            Tone::Note,
            "One-time setup downloads the voice model (~"@ + crate::text::decimal_of(632)
                + " MB), then a small cleanup model. After that, everything runs on your PC. Nothing leaves it."@,
        ),
    ] + when(
        4 > view.ram_gb,
        line_of(
            Tone::Warning,
            "Your PC has less memory than recommended. It may run slowly."@,
        ),
    ) + seq![
        ItemView::Switch { control: Control::ToggleConsent, on: view.choices.telemetry_consent },
        line_of(Tone::Note, "Share anonymous usage stats. Off unless you say yes."@),
    ] + match view.transfer.progress {
        Some(progress) => progress_of(view, progress.file@),
        None => Seq::empty(),
    } + error_of(view, "Something went wrong: "@) + seq![
        button_of(Control::Nav(StepEvent::NavNext), "Next"@, ButtonStyle::Primary),
    ]
}

fn welcome(view: &OnboardingView) -> (page: Page)
    requires
        view.well_formed(),
    ensures
        page@ == welcome_page(*view),
{
    let mut page = Page::new();
    page.put(Item::Logo);
    page.line(Tone::Title, "Welcome to Amanuensis");
    page.line(
        Tone::Body,
        "Press F9 anywhere, speak, and your words become text in whatever app you're using.",
    );
    let mut words = joined("One-time setup downloads the voice model (~", decimal(632).as_str());
    words.push_str(
        " MB), then a small cleanup model. After that, everything runs on your PC. Nothing leaves it.",
    );
    page.line(Tone::Note, words.as_str());
    let mut warning = Page::new();
    if 4 > view.ram_gb {
        warning.line(Tone::Warning, "Your PC has less memory than recommended. It may run slowly.");
    }
    page.extend(warning);
    let mut consent = Page::new();
    consent.put(
        Item::Switch { control: Control::ToggleConsent, on: view.choices.telemetry_consent },
    );
    consent.line(Tone::Note, "Share anonymous usage stats. Off unless you say yes.");
    page.extend(consent);
    page.extend(progress_lines(view, None));
    page.extend(error_line(view, "Something went wrong: "));
    let mut footer = Page::new();
    footer.button(Control::Nav(StepEvent::NavNext), "Next", ButtonStyle::Primary, true);
    page.extend(footer);
    page
}

/// The second page: how dictation works.
pub open spec fn how_page() -> Seq<ItemView> {
    seq![
        line_of(Tone::Title, "How it works"@),
        ItemView::Numbered { index: 1, text: "F9 starts your microphone"@ },
        ItemView::Numbered {
            index: 2,
            text: "A voice model on your PC turns your speech into text. Audio never leaves your machine"@,
        },
        ItemView::Numbered {
            index: 3,
            text: "A cleanup model tidies the text using your presets, then pastes it where your cursor is. Very short clips skip this step"@,
        },
    ] + footer_of("Next"@)
}

fn how_it_works() -> (page: Page)
    ensures
        page@ == how_page(),
{
    let mut page = Page::new();
    page.line(Tone::Title, "How it works");
    page.put(Item::Numbered { index: 1, text: owned("F9 starts your microphone") });
    page.put(
        Item::Numbered {
            index: 2,
            text: owned(
                "A voice model on your PC turns your speech into text. Audio never leaves your machine",
            ),
        },
    );
    page.put(
        Item::Numbered {
            index: 3,
            text: owned(
                "A cleanup model tidies the text using your presets, then pastes it where your cursor is. Very short clips skip this step",
            ),
        },
    );
    page.extend(tour_footer("Next"));
    page
}

/// The third page: the shortcuts.
pub open spec fn shortcuts_page() -> Seq<ItemView> {
    seq![
        line_of(Tone::Title, "Your shortcuts"@),
        ItemView::Shortcut { key: "F9"@, text: "Start / stop dictation"@ },
        ItemView::Shortcut { key: "Esc"@, text: "Discard an active recording"@ },
        ItemView::Labeled {
            label: "Pill hover"@,
            text: "\u{2715} discard \u{b7} \u{2713} finish"@,
        },
        line_of(Tone::Body, "Right-click the pill \u{2014} open settings"@),
        line_of(Tone::Body, "Tray icon \u{2014} left-click opens settings"@),
    ] + footer_of("Test my microphone"@)
}

fn shortcuts() -> (page: Page)
    ensures
        page@ == shortcuts_page(),
{
    let mut page = Page::new();
    page.line(Tone::Title, "Your shortcuts");
    page.put(Item::Shortcut { key: owned("F9"), text: owned("Start / stop dictation") });
    page.put(Item::Shortcut { key: owned("Esc"), text: owned("Discard an active recording") });
    page.put(
        Item::Labeled {
            label: owned("Pill hover"),
            text: owned("\u{2715} discard \u{b7} \u{2713} finish"),
        },
    );
    page.line(Tone::Body, "Right-click the pill \u{2014} open settings");
    page.line(Tone::Body, "Tray icon \u{2014} left-click opens settings");
    page.extend(tour_footer("Test my microphone"));
    page
}

/// The page that checks the microphone. Both buttons start the download.
pub open spec fn mic_page(view: OnboardingView) -> Seq<ItemView> {
    seq![
        line_of(Tone::Title, "Mic check"@),
        line_of(Tone::Body, "Say something. The bar should move."@),
        ItemView::Level,
    ] + line_if(Tone::Status, crate::text::opt_text(view.status)) + error_of(
        view,
        "Something went wrong: "@,
    ) + seq![
        button_of(Control::Start, "Skip"@, ButtonStyle::Plain),
        button_of(Control::Start, "Looks good. Continue"@, ButtonStyle::Primary),
    ]
}

fn mic_check(view: &OnboardingView) -> (page: Page)
    ensures
        page@ == mic_page(*view),
{
    let mut page = Page::new();
    page.line(Tone::Title, "Mic check");
    page.line(Tone::Body, "Say something. The bar should move.");
    page.put(Item::Level);
    page.extend(optional_line(Tone::Status, &view.status));
    page.extend(error_line(view, "Something went wrong: "));
    let mut footer = Page::new();
    footer.button(Control::Start, "Skip", ButtonStyle::Plain, true);
    footer.button(Control::Start, "Looks good. Continue", ButtonStyle::Primary, true);
    page.extend(footer);
    page
}

/// What is known of the download: its bar and its numbers, or the status before it
/// begins.
pub open spec fn transfer_of(view: OnboardingView) -> Seq<ItemView> {
    match view.transfer.progress {
        Some(progress) => seq![
            bar_of(progress),
            line_of(
                Tone::Note,
                crate::asr::fetch::summary(progress.done, progress.total)
                    + crate::asr::fetch::part_of(crate::text::opt_text(view.transfer.speed))
                    + crate::asr::fetch::part_of(eta_of(view, progress)),
            ),
        ],
        None => seq![
            line_of(
                Tone::Status,
                match view.status {
                    Some(status) => status@,
                    None => "Preparing the download..."@,
                },
            ),
        ],
    }
}

/// The page that shows the download.
pub open spec fn download_page(view: OnboardingView) -> Seq<ItemView> {
    seq![line_of(Tone::Title, "Setting up dictation"@)] + transfer_of(view) + cancel_of(view)
        + seq![line_of(Tone::Note, "You can cancel. It resumes where it left off."@)]
}

fn downloading(view: &OnboardingView) -> (page: Page)
    requires
        view.well_formed(),
    ensures
        page@ == download_page(*view),
{
    let mut page = Page::new();
    page.line(Tone::Title, "Setting up dictation");
    let mut middle = Page::new();
    match &view.transfer.progress {
        Some(progress) => {
            let eta = view.transfer.eta.estimate(progress.done, progress.total);
            let text = progress_summary(
                progress.done,
                progress.total,
                as_text(&view.transfer.speed),
                as_text(&eta),
            );
            middle.put(Item::Bar { done: progress.done, total: progress.total });
            middle.line(Tone::Note, text.as_str());
        },
        None => match &view.status {
            Some(status) => middle.line(Tone::Status, status.as_str()),
            None => middle.line(Tone::Status, "Preparing the download..."),
        },
    }
    page.extend(middle);
    page.extend(cancel_button(view));
    let mut note = Page::new();
    note.line(Tone::Note, "You can cancel. It resumes where it left off.");
    page.extend(note);
    page
}

/// The page that shows what the machine is.
pub open spec fn hardware_page(view: OnboardingView) -> Seq<ItemView> {
    seq![
        line_of(Tone::Title, "A quick look at your setup"@),
        line_of(Tone::Body, heading_of(view.profile)),
        ItemView::Labeled { label: "Graphics"@, text: graphics_of(view.profile) },
        line_of(
            Tone::Note,
            "Next I'll time a quick sample on each engine and pick the fastest one for your machine."@,
        ),
    ] + footer_of("Next"@)
}

fn detect_hardware_page(view: &OnboardingView) -> (page: Page)
    ensures
        page@ == hardware_page(*view),
{
    let mut page = Page::new();
    page.line(Tone::Title, "A quick look at your setup");
    page.line(Tone::Body, detect_heading(&view.profile).as_str());
    page.put(Item::Labeled { label: owned("Graphics"), text: bench_graphics_line(&view.profile) });
    page.line(
        Tone::Note,
        "Next I'll time a quick sample on each engine and pick the fastest one for your machine.",
    );
    page.extend(tour_footer("Next"));
    page
}

/// The page that shows the benchmark: a row for each candidate of the machine, and
/// what comes of it.
pub open spec fn measuring_page(view: OnboardingView) -> Seq<ItemView> {
    seq![
        line_of(Tone::Title, "Finding your fastest engine"@),
        line_of(
            Tone::Body,
            "I'm timing a short sample on each engine. Every planned test is listed below; rows fill in as each engine finishes."@,
        ),
        ItemView::BoardHead,
    ] + rows_of(view.bench, crate::backend_detect::candidates_of(view.profile)) + outcome_of(view)
}

fn measuring(view: &OnboardingView) -> (page: Page)
    ensures
        page@ == measuring_page(*view),
{
    let mut page = Page::new();
    page.line(Tone::Title, "Finding your fastest engine");
    page.line(
        Tone::Body,
        "I'm timing a short sample on each engine. Every planned test is listed below; rows fill in as each engine finishes.",
    );
    page.put(Item::BoardHead);
    page.extend(rows(&view.bench, &view.profile));
    page.extend(outcome(view));
    page
}

/// The last page of the tour.
pub open spec fn ready_page(view: OnboardingView) -> Seq<ItemView> {
    seq![
        line_of(Tone::Title, "You are all set. Try it."@),
        line_of(Tone::Body, "Hold F9 and speak. Your words land in the last app you used."@),
    ] + line_if(Tone::Warning, crate::text::opt_text(view.notice)) + when(
        view.start_queued,
        line_of(Tone::Warning, "F9 pressed. Recording begins once the models load"@),
    ) + seq![
        button_of(Control::Finish, "Start using Amanuensis"@, ButtonStyle::Primary),
        button_of(Control::TryNow, "Try it now (F9)"@, ButtonStyle::Action),
    ]
}

fn queued_line(view: &OnboardingView) -> (page: Page)
    ensures
        page@ == when(
            view.start_queued,
            line_of(Tone::Warning, "F9 pressed. Recording begins once the models load"@),
        ),
{
    let mut page = Page::new();
    if view.start_queued {
        page.line(Tone::Warning, "F9 pressed. Recording begins once the models load");
    }
    page
}

fn ready(view: &OnboardingView) -> (page: Page)
    ensures
        page@ == ready_page(*view),
{
    let mut page = Page::new();
    page.line(Tone::Title, "You are all set. Try it.");
    page.line(Tone::Body, "Hold F9 and speak. Your words land in the last app you used.");
    page.extend(optional_line(Tone::Warning, &view.notice));
    page.extend(queued_line(view));
    let mut footer = Page::new();
    footer.button(Control::Finish, "Start using Amanuensis", ButtonStyle::Primary, true);
    footer.button(Control::TryNow, "Try it now (F9)", ButtonStyle::Action, true);
    page.extend(footer);
    page
}

/// A page of the tour.
pub open spec fn tour_page(view: OnboardingView, step: SetupStep) -> Seq<ItemView> {
    match step {
        SetupStep::Welcome => welcome_page(view),
        SetupStep::HowItWorks => how_page(),
        SetupStep::Shortcuts => shortcuts_page(),
        SetupStep::MicCheck => mic_page(view),
        SetupStep::Downloading => download_page(view),
        SetupStep::DetectHardware => hardware_page(view),
        SetupStep::Measuring => measuring_page(view),
        SetupStep::Ready => ready_page(view),
    }
}

/// A page of the tour.
pub fn render_step(view: &OnboardingView, step: SetupStep) -> (page: Page)
    requires
        view.well_formed(),
    ensures
        page@ == tour_page(*view, step),
{
    match step {
        SetupStep::Welcome => welcome(view),
        SetupStep::HowItWorks => how_it_works(),
        SetupStep::Shortcuts => shortcuts(),
        SetupStep::MicCheck => mic_check(view),
        SetupStep::Downloading => downloading(view),
        SetupStep::DetectHardware => detect_hardware_page(view),
        SetupStep::Measuring => measuring(view),
        SetupStep::Ready => ready(view),
    }
}

/// What the settings page shows of the disk and of the stored backend.
#[derive(Clone, Copy, Debug)]
pub struct SettingsFacts<'a> {
    /// The model is downloaded.
    pub cached: bool,
    /// The folder of the model is there.
    pub dir_exists: bool,
    /// The stored provider; empty if none was picked yet.
    pub provider: &'a str,
    pub threads: i32,
    /// The stored speed with two decimals.
    pub rtf: &'a str,
}

/// A choice.
pub open spec fn choice_of(control: Control, label: Seq<char>, selected: bool) -> ItemView {
    ItemView::Choice { control, label, selected }
}

/// The row of the tray icon.
pub open spec fn tray_row(view: OnboardingView) -> Seq<ItemView> {
    seq![
        line_of(Tone::Body, "Windows tray icon"@),
        line_of(Tone::Note, "Left-click opens settings; right-click shows actions."@),
        ItemView::Switch { control: Control::ToggleTray, on: view.choices.tray_enabled },
    ]
}

/// The words on the stored backend.
pub open spec fn backend_text(view: OnboardingView, facts: SettingsFacts<'_>) -> Seq<char> {
    if view.bench.rechecking {
        "Benchmarking backend\u{2026}"@
    } else if facts.provider@.len() > 0 {
        facts.provider@ + " \u{b7} "@ + crate::text::signed_decimal_of(facts.threads as int)
            + " threads \u{b7} "@ + facts.rtf@ + "x realtime"@
    } else {
        "Not selected yet"@
    }
}

/// The row of the backend.
pub open spec fn backend_row(view: OnboardingView, facts: SettingsFacts<'_>) -> Seq<ItemView> {
    seq![
        line_of(Tone::Body, "Audio backend"@),
        line_of(Tone::Note, backend_text(view, facts)),
        line_of(
            Tone::Note,
            view.profile.vendor.name() + " \u{b7} "@ + view.profile.gpu_label@,
        ),
        ItemView::Button {
            control: Control::Recheck,
            label: if view.bench.rechecking {
                "Benchmarking\u{2026}"@
            } else {
                "Re-check"@
            },
            style: ButtonStyle::Action,
            enabled: !view.bench.rechecking,
        },
    ]
}

/// The choices of an engine.
pub open spec fn engine_choices(slot: EngineSlot, label: Seq<char>, chosen: Seq<char>) -> Seq<
    ItemView,
> {
    seq![
        line_of(Tone::Note, label),
        choice_of(
            Control::Engine(slot, ModelKind::Moonshine),
            "Moonshine"@,
            chosen == "moonshine"@,
        ),
        choice_of(Control::Engine(slot, ModelKind::Nemotron), "Nemotron"@, chosen == "nemotron"@),
    ]
}

/// The rows of the engines.
pub open spec fn engine_rows(view: OnboardingView) -> Seq<ItemView> {
    seq![
        line_of(Tone::Body, "Engines"@),
        line_of(
            Tone::Note,
            "Record handles F9 clips and lands after you stop. Live shows text as you talk when set to Nemotron."@,
        ),
    ] + engine_choices(EngineSlot::Record, "Record"@, view.choices.record_model@) + engine_choices(
        EngineSlot::Live,
        "Live"@,
        view.choices.live_model@,
    ) + when(
        view.choices.live_model@ == "moonshine"@,
        line_of(
            Tone::Warning,
            "Live runs on Moonshine, so text only lands after you stop. You will not see partials while speaking."@,
        ),
    )
}

/// A choice of a preset.
pub open spec fn preset_choice(slot: PresetSlot, preset: Preset, chosen: Seq<char>) -> ItemView {
    choice_of(Control::Choose(slot, preset), preset.label_text(), chosen == preset.value_text())
}

/// The rows of the presets.
pub open spec fn preset_rows(view: OnboardingView) -> Seq<ItemView> {
    let styling = view.choices.rewrite_styling@;
    let structure = view.choices.rewrite_structure@;
    let context = view.choices.rewrite_context@;
    seq![
        line_of(Tone::Body, "Rewrite presets"@),
        line_of(
            Tone::Note,
            "Record clips get tidied before pasting. These presets set the tone. Very short clips skip this step."@,
        ),
        line_of(Tone::Note, "Styling"@),
        preset_choice(PresetSlot::Styling, Preset::Casual, styling),
        preset_choice(PresetSlot::Styling, Preset::SemiCasual, styling),
        preset_choice(PresetSlot::Styling, Preset::SemiFormal, styling),
        preset_choice(PresetSlot::Styling, Preset::Formal, styling),
        line_of(Tone::Note, "Structure"@),
        preset_choice(PresetSlot::Structure, Preset::Prose, structure),
        preset_choice(PresetSlot::Structure, Preset::Lists, structure),
        line_of(Tone::Note, "Context"@),
        preset_choice(PresetSlot::Context, Preset::General, context),
        preset_choice(PresetSlot::Context, Preset::Email, context),
    ]
}

/// The rows of telemetry, of loading ahead and of the logs.
pub open spec fn option_rows(view: OnboardingView) -> Seq<ItemView> {
    seq![
        line_of(Tone::Body, "Usage stats"@),
        line_of(Tone::Note, "Anonymous telemetry. Off unless you say yes."@),
        ItemView::Switch { control: Control::ToggleConsent, on: view.choices.telemetry_consent },
        line_of(Tone::Body, "Preload engines"@),
        line_of(Tone::Note, "Warm both engines at startup when memory allows."@),
        ItemView::Switch { control: Control::TogglePreload, on: view.choices.preload_engines },
        line_of(Tone::Body, "Logs"@),
        line_of(Tone::Note, "Bundle logs and device info into a zip."@),
        button_of(Control::ExportLogs, "Export logs"@, ButtonStyle::Action),
    ]
}

/// What the user should know first: that the model is missing.
pub open spec fn notices_of(view: OnboardingView, cached: bool) -> Seq<ItemView> {
    when(
        view.origin == SetupOrigin::Recovery && !view.transfer.downloading,
        line_of(Tone::Warning, RECOVERY_NOTICE@),
    ) + if !cached && !view.transfer.downloading {
        line_if(Tone::Warning, crate::text::opt_text(view.notice))
    } else {
        Seq::empty()
    }
}

/// The rows of the model.
pub open spec fn model_rows(view: OnboardingView, cached: bool) -> Seq<ItemView> {
    seq![
        line_of(Tone::Body, "Nemotron Streaming"@),
        line_of(
            if cached {
                Tone::Status
            } else {
                Tone::Note
            },
            if cached {
                "cached"@
            } else {
                "not downloaded"@
            },
        ),
        line_of(Tone::Note, "~"@ + crate::text::decimal_of(632) + " MB download"@),
        line_of(Tone::Note, "~7.2\u{2013}7.8% WER, tracks voice closely"@),
    ] + when(
        !cached && !view.transfer.downloading,
        line_of(Tone::Warning, "Model not on disk. Download it before dictating."@),
    ) + when(
        4 > view.ram_gb && !view.transfer.downloading,
        line_of(
            Tone::Warning,
            "Nemotron Streaming"@ + " recommends >= "@ + crate::text::decimal_of(4)
                + " GB RAM (detected "@ + crate::text::decimal_of(view.ram_gb as nat) + " GB)"@,
        ),
    )
}

/// How an operation goes, or how the last one went.
pub open spec fn state_rows(view: OnboardingView) -> Seq<ItemView> {
    (match view.transfer.progress {
        Some(_) => progress_of(view, "Nemotron Streaming"@),
        None => line_if(Tone::Status, crate::text::opt_text(view.status)),
    }) + error_of(view, "failed: "@) + when(
        view.start_queued,
        line_of(Tone::Warning, "F9 pressed. Recording begins once the models load"@),
    )
}

/// The buttons of the model: Cancel while a download runs, and what can be done with
/// the model otherwise.
pub open spec fn model_buttons(view: OnboardingView, facts: SettingsFacts<'_>) -> Seq<ItemView> {
    let idle = !view.transfer.busy;
    if view.transfer.busy && view.transfer.downloading {
        cancel_of(view)
    } else {
        when(
            facts.dir_exists,
            ItemView::Button {
                control: Control::Reveal,
                label: "Reveal in Explorer"@,
                style: ButtonStyle::Action,
                enabled: idle,
            },
        ) + when(
            facts.cached,
            ItemView::Button {
                control: Control::Delete,
                label: "Delete model"@,
                style: ButtonStyle::Action,
                enabled: idle,
            },
        ) + seq![
            ItemView::Button {
                control: Control::Redownload,
                label: if facts.cached {
                    "Download again"@
                } else {
                    "Download"@
                },
                style: ButtonStyle::Action,
                enabled: idle,
            },
        ] + when(
            view.origin == SetupOrigin::Settings,
            ItemView::Button {
                control: Control::Reset,
                label: "Run setup again"@,
                style: ButtonStyle::Action,
                enabled: idle,
            },
        )
    }
}

/// The settings page.
pub open spec fn settings_page(view: OnboardingView, facts: SettingsFacts<'_>) -> Seq<ItemView> {
    seq![
        line_of(Tone::Title, "Amanuensis settings"@),
        line_of(
            Tone::Note,
            "Found "@ + crate::text::decimal_of(view.ram_gb as nat) + " GB RAM and "@
                + crate::text::decimal_of(view.cores as nat) + " logical cores"@,
        ),
    ] + tray_row(view) + backend_row(view, facts) + engine_rows(view) + preset_rows(view)
        + option_rows(view) + notices_of(view, facts.cached) + model_rows(view, facts.cached)
        + state_rows(view) + model_buttons(view, facts)
}

/// What the panel shows: the page of the tour while it is on, or else the settings.
pub open spec fn panel_page(view: OnboardingView, facts: SettingsFacts<'_>) -> Seq<ItemView> {
    if crate::asr::model::kind_of_id(view.model_id@) is None {
        seq![line_of(Tone::Body, "unknown model"@)]
    } else {
        match view.step {
            Some(step) => tour_page(view, step),
            None => settings_page(view, facts),
        }
    }
}

fn tray(view: &OnboardingView) -> (page: Page)
    ensures
        page@ == tray_row(*view),
{
    let mut page = Page::new();
    page.line(Tone::Body, "Windows tray icon");
    page.line(Tone::Note, "Left-click opens settings; right-click shows actions.");
    page.put(Item::Switch { control: Control::ToggleTray, on: view.choices.tray_enabled });
    page
}

fn backend(view: &OnboardingView, facts: &SettingsFacts<'_>) -> (page: Page)
    ensures
        page@ == backend_row(*view, *facts),
{
    let words = if view.bench.rechecking {
        owned("Benchmarking backend\u{2026}")
    } else if facts.provider.unicode_len() > 0 {
        let mut words = joined(facts.provider, " \u{b7} ");
        words.push_str(signed_decimal(facts.threads).as_str());
        words.push_str(" threads \u{b7} ");
        words.push_str(facts.rtf);
        words.push_str("x realtime");
        words
    } else {
        owned("Not selected yet")
    };
    let mut machine = joined(view.profile.vendor.label(), " \u{b7} ");
    machine.push_str(view.profile.gpu_label.as_str());
    let mut page = Page::new();
    page.line(Tone::Body, "Audio backend");
    page.line(Tone::Note, words.as_str());
    page.line(Tone::Note, machine.as_str());
    if view.bench.rechecking {
        page.button(Control::Recheck, "Benchmarking\u{2026}", ButtonStyle::Action, false);
    } else {
        page.button(Control::Recheck, "Re-check", ButtonStyle::Action, true);
    }
    page
}

fn engine_choice(slot: EngineSlot, label: &str, chosen: &str) -> (page: Page)
    ensures
        page@ == engine_choices(slot, label@, chosen@),
{
    let mut page = Page::new();
    page.line(Tone::Note, label);
    page.put(
        Item::Choice {
            control: Control::Engine(slot, ModelKind::Moonshine),
            label: owned("Moonshine"),
            selected: same_text(chosen, "moonshine"),
        },
    );
    page.put(
        Item::Choice {
            control: Control::Engine(slot, ModelKind::Nemotron),
            label: owned("Nemotron"),
            selected: same_text(chosen, "nemotron"),
        },
    );
    page
}

fn engines(view: &OnboardingView) -> (page: Page)
    ensures
        page@ == engine_rows(*view),
{
    let mut page = Page::new();
    page.line(Tone::Body, "Engines");
    page.line(
        Tone::Note,
        "Record handles F9 clips and lands after you stop. Live shows text as you talk when set to Nemotron.",
    );
    page.extend(engine_choice(EngineSlot::Record, "Record", view.choices.record_model.as_str()));
    page.extend(engine_choice(EngineSlot::Live, "Live", view.choices.live_model.as_str()));
    let mut warning = Page::new();
    if same_text(view.choices.live_model.as_str(), "moonshine") {
        warning.line(
            Tone::Warning,
            "Live runs on Moonshine, so text only lands after you stop. You will not see partials while speaking.",
        );
    }
    page.extend(warning);
    page
}

fn put_preset(page: &mut Page, slot: PresetSlot, preset: Preset, chosen: &str)
    ensures
        final(page)@ == old(page)@.push(preset_choice(slot, preset, chosen@)),
{
    page.put(
        Item::Choice {
            control: Control::Choose(slot, preset),
            label: owned(preset.label()),
            selected: same_text(chosen, preset.value()),
        },
    );
}

fn presets(view: &OnboardingView) -> (page: Page)
    ensures
        page@ == preset_rows(*view),
{
    let styling = view.choices.rewrite_styling.as_str();
    let structure = view.choices.rewrite_structure.as_str();
    let context = view.choices.rewrite_context.as_str();
    let mut page = Page::new();
    page.line(Tone::Body, "Rewrite presets");
    page.line(
        Tone::Note,
        "Record clips get tidied before pasting. These presets set the tone. Very short clips skip this step.",
    );
    page.line(Tone::Note, "Styling");
    put_preset(&mut page, PresetSlot::Styling, Preset::Casual, styling);
    put_preset(&mut page, PresetSlot::Styling, Preset::SemiCasual, styling);
    put_preset(&mut page, PresetSlot::Styling, Preset::SemiFormal, styling);
    put_preset(&mut page, PresetSlot::Styling, Preset::Formal, styling);
    page.line(Tone::Note, "Structure");
    put_preset(&mut page, PresetSlot::Structure, Preset::Prose, structure);
    put_preset(&mut page, PresetSlot::Structure, Preset::Lists, structure);
    page.line(Tone::Note, "Context");
    put_preset(&mut page, PresetSlot::Context, Preset::General, context);
    put_preset(&mut page, PresetSlot::Context, Preset::Email, context);
    page
}

fn options(view: &OnboardingView) -> (page: Page)
    ensures
        page@ == option_rows(*view),
{
    let mut page = Page::new();
    page.line(Tone::Body, "Usage stats");
    page.line(Tone::Note, "Anonymous telemetry. Off unless you say yes.");
    page.put(Item::Switch { control: Control::ToggleConsent, on: view.choices.telemetry_consent });
    page.line(Tone::Body, "Preload engines");
    page.line(Tone::Note, "Warm both engines at startup when memory allows.");
    page.put(Item::Switch { control: Control::TogglePreload, on: view.choices.preload_engines });
    page.line(Tone::Body, "Logs");
    page.line(Tone::Note, "Bundle logs and device info into a zip.");
    page.button(Control::ExportLogs, "Export logs", ButtonStyle::Action, true);
    page
}

fn notices(view: &OnboardingView, cached: bool) -> (page: Page)
    ensures
        page@ == notices_of(*view, cached),
{
    let mut page = Page::new();
    if let SetupOrigin::Recovery = view.origin {
        if !view.transfer.downloading {
            page.line(Tone::Warning, RECOVERY_NOTICE);
        }
    }
    let more = if !cached && !view.transfer.downloading {
        optional_line(Tone::Warning, &view.notice)
    } else {
        Page::new()
    };
    page.extend(more);
    page
}

fn model(view: &OnboardingView, cached: bool) -> (page: Page)
    ensures
        page@ == model_rows(*view, cached),
{
    let mut page = Page::new();
    page.line(Tone::Body, "Nemotron Streaming");
    if cached {
        page.line(Tone::Status, "cached");
    } else {
        page.line(Tone::Note, "not downloaded");
    }
    page.line(Tone::Note, joined(joined("~", decimal(632).as_str()).as_str(), " MB download").as_str());
    page.line(Tone::Note, "~7.2\u{2013}7.8% WER, tracks voice closely");
    let mut missing = Page::new();
    if !cached && !view.transfer.downloading {
        missing.line(Tone::Warning, "Model not on disk. Download it before dictating.");
    }
    page.extend(missing);
    let mut memory = Page::new();
    if 4 > view.ram_gb && !view.transfer.downloading {
        let mut words = joined("Nemotron Streaming", " recommends >= ");
        words.push_str(decimal(4).as_str());
        words.push_str(" GB RAM (detected ");
        words.push_str(decimal(view.ram_gb as u64).as_str());
        words.push_str(" GB)");
        memory.line(Tone::Warning, words.as_str());
    }
    page.extend(memory);
    page
}

fn state(view: &OnboardingView) -> (page: Page)
    requires
        view.well_formed(),
    ensures
        page@ == state_rows(*view),
{
    let mut page = match view.transfer.progress {
        Some(_) => progress_lines(view, Some("Nemotron Streaming")),
        None => optional_line(Tone::Status, &view.status),
    };
    page.extend(error_line(view, "failed: "));
    page.extend(queued_line(view));
    page
}

fn buttons(view: &OnboardingView, facts: &SettingsFacts<'_>) -> (page: Page)
    ensures
        page@ == model_buttons(*view, *facts),
{
    if view.transfer.busy && view.transfer.downloading {
        return cancel_button(view);
    }
    let idle = !view.transfer.busy;
    let mut page = Page::new();
    if facts.dir_exists {
        page.button(Control::Reveal, "Reveal in Explorer", ButtonStyle::Action, idle);
    }
    let mut delete = Page::new();
    if facts.cached {
        delete.button(Control::Delete, "Delete model", ButtonStyle::Action, idle);
    }
    page.extend(delete);
    let mut download = Page::new();
    if facts.cached {
        download.button(Control::Redownload, "Download again", ButtonStyle::Action, idle);
    } else {
        download.button(Control::Redownload, "Download", ButtonStyle::Action, idle);
    }
    page.extend(download);
    let mut reset = Page::new();
    if let SetupOrigin::Settings = view.origin {
        reset.button(Control::Reset, "Run setup again", ButtonStyle::Action, idle);
    }
    page.extend(reset);
    page
}

fn settings(view: &OnboardingView, facts: &SettingsFacts<'_>) -> (page: Page)
    requires
        view.well_formed(),
    ensures
        page@ == settings_page(*view, *facts),
{
    let mut words = joined("Found ", decimal(view.ram_gb as u64).as_str());
    words.push_str(" GB RAM and ");
    words.push_str(decimal(view.cores as u64).as_str());
    words.push_str(" logical cores");
    let mut page = Page::new();
    page.line(Tone::Title, "Amanuensis settings");
    page.line(Tone::Note, words.as_str());
    page.extend(tray(view));
    page.extend(backend(view, facts));
    page.extend(engines(view));
    page.extend(presets(view));
    page.extend(options(view));
    page.extend(notices(view, facts.cached));
    page.extend(model(view, facts.cached));
    page.extend(state(view));
    page.extend(buttons(view, facts));
    page
}

/// What the panel shows.
pub fn render(view: &OnboardingView, facts: &SettingsFacts<'_>) -> (page: Page)
    requires
        view.well_formed(),
    ensures
        page@ == panel_page(*view, *facts),
{
    if spec_by_id(view.model_id.as_str()).is_none() {
        let mut page = Page::new();
        page.line(Tone::Body, "unknown model");
        return page;
    }
    match view.step {
        Some(step) => render_step(view, step),
        None => settings(view, facts),
    }
}

/// While an operation is under way, no button of the settings page starts another one
/// on the model: the ones that would are shown disabled or not at all.
pub proof fn busy_panels_offer_no_operation(view: OnboardingView, facts: SettingsFacts<'_>, i: int)
    requires
        view.transfer.busy,
        0 <= i < model_buttons(view, facts).len(),
    ensures
        match model_buttons(view, facts)[i] {
            ItemView::Button { control, enabled, .. } => enabled ==> control == Control::Cancel,
            _ => false,
        },
{
}

/// The measuring page has a row for every candidate, in the order in which they are
/// measured.
pub proof fn every_candidate_has_a_row(
    board: BenchBoard,
    candidates: Seq<crate::backend_detect::CandidateView>,
)
    ensures
        rows_of(board, candidates).len() == candidates.len(),
        forall|i: int|
            0 <= i < candidates.len() ==> #[trigger] rows_of(board, candidates)[i] == row_of(
                board,
                candidates[i],
            ),
    decreases candidates.len(),
{
    if candidates.len() > 0 {
        every_candidate_has_a_row(board, candidates.drop_last());
    }
}

proof fn items_of_both(a: Seq<ItemView>, b: Seq<ItemView>, item: ItemView)
    ensures
        (a + b).contains(item) <==> a.contains(item) || b.contains(item),
{
    if a.contains(item) {
        let i = choose|i: int| 0 <= i < a.len() && a[i] == item;
        assert((a + b)[i] == item);
    }
    if b.contains(item) {
        let i = choose|i: int| 0 <= i < b.len() && b[i] == item;
        assert((a + b)[a.len() + i] == item);
    }
    if (a + b).contains(item) {
        let i = choose|i: int| 0 <= i < (a + b).len() && (a + b)[i] == item;
        if i < a.len() {
            assert(a[i] == item);
        } else {
            assert(b[i - a.len()] == item);
        }
    }
}

/// The settings page has everything that can be set, and what there is to say of the model.
pub proof fn everything_can_be_set(view: OnboardingView, facts: SettingsFacts<'_>, item: ItemView)
    ensures
        tray_row(view).contains(item) || backend_row(view, facts).contains(item) || engine_rows(
            view,
        ).contains(item) || preset_rows(view).contains(item) || option_rows(view).contains(item)
            || notices_of(view, facts.cached).contains(item) || model_rows(
            view,
            facts.cached,
        ).contains(item) || state_rows(view).contains(item) || model_buttons(view, facts).contains(
            item,
        ) ==> settings_page(view, facts).contains(item),
        settings_page(view, facts)[0] == line_of(Tone::Title, "Amanuensis settings"@),
{
    let head = settings_page(view, facts).subrange(0, 2);
    let s1 = head + tray_row(view);
    items_of_both(head, tray_row(view), item);
    let s2 = s1 + backend_row(view, facts);
    items_of_both(s1, backend_row(view, facts), item);
    let s3 = s2 + engine_rows(view);
    items_of_both(s2, engine_rows(view), item);
    let s4 = s3 + preset_rows(view);
    items_of_both(s3, preset_rows(view), item);
    let s5 = s4 + option_rows(view);
    items_of_both(s4, option_rows(view), item);
    let s6 = s5 + notices_of(view, facts.cached);
    items_of_both(s5, notices_of(view, facts.cached), item);
    let s7 = s6 + model_rows(view, facts.cached);
    items_of_both(s6, model_rows(view, facts.cached), item);
    let s8 = s7 + state_rows(view);
    items_of_both(s7, state_rows(view), item);
    let s9 = s8 + model_buttons(view, facts);
    items_of_both(s8, model_buttons(view, facts), item);
    assert(s9 =~= settings_page(view, facts));
}

/// Every switch shows how it is set: the tray, the usage statistics and the preloading.
pub proof fn switches_show_how_they_are_set(view: OnboardingView, facts: SettingsFacts<'_>)
    ensures
        settings_page(view, facts).contains(
            ItemView::Switch { control: Control::ToggleTray, on: view.choices.tray_enabled },
        ),
        settings_page(view, facts).contains(
            ItemView::Switch { control: Control::ToggleConsent, on: view.choices.telemetry_consent },
        ),
        settings_page(view, facts).contains(
            ItemView::Switch { control: Control::TogglePreload, on: view.choices.preload_engines },
        ),
        settings_page(view, facts).contains(
            button_of(Control::ExportLogs, "Export logs"@, ButtonStyle::Action),
        ),
{
    let tray = ItemView::Switch { control: Control::ToggleTray, on: view.choices.tray_enabled };
    let consent = ItemView::Switch {
        control: Control::ToggleConsent,
        on: view.choices.telemetry_consent,
    };
    let preload = ItemView::Switch {
        control: Control::TogglePreload,
        on: view.choices.preload_engines,
    };
    let export = button_of(Control::ExportLogs, "Export logs"@, ButtonStyle::Action);
    assert(tray_row(view)[2] == tray);
    assert(option_rows(view)[2] == consent);
    assert(option_rows(view)[5] == preload);
    assert(option_rows(view)[8] == export);
    everything_can_be_set(view, facts, tray);
    everything_can_be_set(view, facts, consent);
    everything_can_be_set(view, facts, preload);
    everything_can_be_set(view, facts, export);
}

/// Each engine can be picked for recordings and for live mode, and the one that is picked is
/// marked; for live mode it is said where no text will show while speaking.
pub proof fn picked_engines_are_marked(
    view: OnboardingView,
    facts: SettingsFacts<'_>,
    slot: EngineSlot,
    kind: ModelKind,
)
    ensures
        ({
            let chosen = match slot {
                EngineSlot::Record => view.choices.record_model@,
                EngineSlot::Live => view.choices.live_model@,
            };
            settings_page(view, facts).contains(
                choice_of(Control::Engine(slot, kind), kind.name_text(), chosen == kind.id_text()),
            )
        }),
        view.choices.live_model@ == "moonshine"@ ==> settings_page(view, facts).contains(
            line_of(
                Tone::Warning,
                "Live runs on Moonshine, so text only lands after you stop. You will not see partials while speaking."@,
            ),
        ),
{
    let chosen = match slot {
        EngineSlot::Record => view.choices.record_model@,
        EngineSlot::Live => view.choices.live_model@,
    };
    let item = choice_of(Control::Engine(slot, kind), kind.name_text(), chosen == kind.id_text());
    let rows = engine_rows(view);
    assert(rows[3] == choice_of(
        Control::Engine(EngineSlot::Record, ModelKind::Moonshine),
        "Moonshine"@,
        view.choices.record_model@ == "moonshine"@,
    ));
    assert(rows[4] == choice_of(
        Control::Engine(EngineSlot::Record, ModelKind::Nemotron),
        "Nemotron"@,
        view.choices.record_model@ == "nemotron"@,
    ));
    assert(rows[6] == choice_of(
        Control::Engine(EngineSlot::Live, ModelKind::Moonshine),
        "Moonshine"@,
        view.choices.live_model@ == "moonshine"@,
    ));
    assert(rows[7] == choice_of(
        Control::Engine(EngineSlot::Live, ModelKind::Nemotron),
        "Nemotron"@,
        view.choices.live_model@ == "nemotron"@,
    ));
    assert(rows.contains(item));
    everything_can_be_set(view, facts, item);
    if view.choices.live_model@ == "moonshine"@ {
        let warning = line_of(
            Tone::Warning,
            "Live runs on Moonshine, so text only lands after you stop. You will not see partials while speaking."@,
        );
        assert(rows[8] == warning);
        everything_can_be_set(view, facts, warning);
    }
}

/// A preset is saved under its label in lower case.
pub proof fn presets_are_saved_by_their_labels(preset: Preset)
    ensures
        preset.value_text() == crate::text::ascii_lowered(preset.label_text()),
{
    reveal_strlit("casual");
    reveal_strlit("semi-casual");
    reveal_strlit("semi-formal");
    reveal_strlit("formal");
    reveal_strlit("prose");
    reveal_strlit("lists");
    reveal_strlit("general");
    reveal_strlit("email");
    reveal_strlit("Casual");
    reveal_strlit("Semi-casual");
    reveal_strlit("Semi-formal");
    reveal_strlit("Formal");
    reveal_strlit("Prose");
    reveal_strlit("Lists");
    reveal_strlit("General");
    reveal_strlit("Email");
    assert(preset.value_text() =~= crate::text::ascii_lowered(preset.label_text()));
}

/// The slot of a preset.
pub open spec fn slot_of(preset: Preset) -> PresetSlot {
    match preset {
        Preset::Casual | Preset::SemiCasual | Preset::SemiFormal | Preset::Formal =>
            PresetSlot::Styling,
        Preset::Prose | Preset::Lists => PresetSlot::Structure,
        Preset::General | Preset::Email => PresetSlot::Context,
    }
}

/// Every preset can be picked, and the one that is picked is marked.
pub proof fn picked_presets_are_marked(
    view: OnboardingView,
    facts: SettingsFacts<'_>,
    preset: Preset,
)
    ensures
        ({
            let slot = slot_of(preset);
            let chosen = match slot {
                PresetSlot::Styling => view.choices.rewrite_styling@,
                PresetSlot::Structure => view.choices.rewrite_structure@,
                PresetSlot::Context => view.choices.rewrite_context@,
            };
            settings_page(view, facts).contains(
                choice_of(
                    Control::Choose(slot, preset),
                    preset.label_text(),
                    chosen == preset.value_text(),
                ),
            )
        }),
{
    let slot = slot_of(preset);
    let chosen = match slot {
        PresetSlot::Styling => view.choices.rewrite_styling@,
        PresetSlot::Structure => view.choices.rewrite_structure@,
        PresetSlot::Context => view.choices.rewrite_context@,
    };
    let item = preset_choice(slot, preset, chosen);
    let rows = preset_rows(view);
    let i: int = match preset {
        Preset::Casual => 3,
        Preset::SemiCasual => 4,
        Preset::SemiFormal => 5,
        Preset::Formal => 6,
        Preset::Prose => 8,
        Preset::Lists => 9,
        Preset::General => 11,
        Preset::Email => 12,
    };
    assert(rows[i] == item);
    everything_can_be_set(view, facts, item);
}

/// A panel for an engine that setup does not offer says so and no more; else the page of
/// the tour is up while there is one, and the settings when there is none.
pub proof fn panels_show_the_tour_or_the_settings(view: OnboardingView, facts: SettingsFacts<'_>)
    ensures
        view.model_id@ != "nemotron"@ ==> panel_page(view, facts) == seq![
            line_of(Tone::Body, "unknown model"@),
        ],
        view.model_id@ == "nemotron"@ && view.step is None ==> panel_page(view, facts)
            == settings_page(view, facts),
        view.model_id@ == "nemotron"@ && view.step is Some ==> panel_page(view, facts) == tour_page(
            view,
            view.step->0,
        ),
{
}

/// A page of the tour can be left wherever setup can go on or back from it by hand, and the
/// ways out of it are the last things on it.
pub proof fn pages_of_the_tour_can_be_left(view: OnboardingView, step: SetupStep)
    ensures
        ({
            let page = tour_page(view, step);
            let n = page.len() as int;
            let next = |i: int| page[i] matches ItemView::Button { control, enabled, .. } && enabled
                && control == Control::Nav(StepEvent::NavNext);
            let back = |i: int| page[i] matches ItemView::Button { control, enabled, .. } && enabled
                && control == Control::Nav(StepEvent::NavBack);
            let does = |i: int, wanted: Control| page[i] matches ItemView::Button {
                control,
                enabled,
                ..
            } && enabled && control == wanted;
            &&& step == SetupStep::Welcome ==> next(n - 1)
            &&& step == SetupStep::HowItWorks || step == SetupStep::Shortcuts || step
                == SetupStep::DetectHardware ==> back(n - 2) && next(n - 1)
            &&& step == SetupStep::Measuring && !view.bench.busy ==> back(n - 2) && next(n - 1)
            &&& step == SetupStep::Measuring && view.bench.busy ==> back(n - 2) && does(
                n - 1,
                Control::SkipBench,
            )
            &&& step == SetupStep::MicCheck ==> does(n - 2, Control::Start) && does(
                n - 1,
                Control::Start,
            )
            &&& step == SetupStep::Ready ==> does(n - 2, Control::Finish) && does(
                n - 1,
                Control::TryNow,
            )
        }),
{
}

/// A download can be cancelled while it runs, once.
pub proof fn downloads_can_be_cancelled_once(view: OnboardingView)
    ensures
        cancel_of(view).len() == (if view.transfer.busy && view.transfer.downloading {
            1int
        } else {
            0
        }),
        view.transfer.busy && view.transfer.downloading ==> (cancel_of(view)[0] matches
            ItemView::Button { control, enabled, .. } && control == Control::Cancel && enabled
            == !view.transfer.cancel_requested),
        view.transfer.busy && view.transfer.downloading ==> download_page(view).contains(
            cancel_of(view)[0],
        ),
{
    if view.transfer.busy && view.transfer.downloading {
        let page = download_page(view);
        assert(page[page.len() - 2] == cancel_of(view)[0]);
    }
}

/// Of the model what is there can be shown and deleted, it can always be fetched, and setup
/// can be run again from the settings; while it is fetched it can only be cancelled.
pub proof fn models_can_be_managed(view: OnboardingView, facts: SettingsFacts<'_>, i: int)
    requires
        0 <= i < model_buttons(view, facts).len(),
    ensures
        ({
            let fetching = view.transfer.busy && view.transfer.downloading;
            let button = model_buttons(view, facts)[i];
            let count = (if facts.dir_exists {
                1int
            } else {
                0
            }) + (if facts.cached {
                1int
            } else {
                0
            }) + (if view.origin == SetupOrigin::Settings {
                1int
            } else {
                0
            });
            &&& !fetching ==> model_buttons(view, facts).len() == 1 + count
            &&& fetching ==> model_buttons(view, facts).len() == 1
            &&& button matches ItemView::Button { control, enabled, .. } && {
                &&& control == Control::Cancel <==> fetching
                &&& control == Control::Reveal ==> facts.dir_exists
                &&& control == Control::Delete ==> facts.cached
                &&& control == Control::Reset ==> view.origin == SetupOrigin::Settings
                &&& !fetching ==> enabled == !view.transfer.busy
                &&& control == Control::Cancel || control == Control::Reveal || control
                    == Control::Delete || control == Control::Reset || control
                    == Control::Redownload
            }
        }),
{
}

/// What went wrong is shown, with all that was said of it.
pub proof fn errors_are_shown(view: OnboardingView, words: Seq<char>)
    ensures
        view.error is Some ==> error_of(view, words) == seq![
            ItemView::Line { tone: Tone::Failure, text: words + view.error->0@ },
        ],
        view.error is None ==> error_of(view, words).len() == 0,
        view.error is Some ==> tour_page(view, SetupStep::Welcome).contains(
            error_of(view, "Something went wrong: "@)[0],
        ) && tour_page(view, SetupStep::MicCheck).contains(
            error_of(view, "Something went wrong: "@)[0],
        ) && state_rows(view).contains(error_of(view, "failed: "@)[0]),
{
    if view.error is Some {
        let line = error_of(view, "Something went wrong: "@)[0];
        let first = welcome_page(view);
        assert(first[first.len() - 2] == line);
        let mic = mic_page(view);
        assert(mic[mic.len() - 3] == line);
        let rows = state_rows(view);
        let last = rows.len() - (if view.start_queued {
            2int
        } else {
            1
        });
        assert(rows[last] == error_of(view, "failed: "@)[0]);
    }
}

/// A machine with less than four gibibytes is warned on the first page; a larger one is
/// not.
pub proof fn small_machines_are_warned(view: OnboardingView)
    ensures
        welcome_page(view).contains(
            line_of(
                Tone::Warning,
                "Your PC has less memory than recommended. It may run slowly."@,
            ),
        ) <==> view.ram_gb < 4,
{
    let warning = line_of(
        Tone::Warning,
        "Your PC has less memory than recommended. It may run slowly."@,
    );
    let page = welcome_page(view);
    if view.ram_gb < 4 {
        assert(page[4] == warning);
    } else if page.contains(warning) {
        let i = choose|i: int| 0 <= i < page.len() && page[i] == warning;
        assert(page[i] matches ItemView::Line { tone, .. } && tone == Tone::Warning);
        let shown = match view.transfer.progress {
            Some(progress) => progress_of(view, progress.file@),
            None => Seq::empty(),
        };
        let error = error_of(view, "Something went wrong: "@);
        assert(page.len() == 6 + shown.len() + error.len() + 1);
        if 6 <= i < 6 + shown.len() {
            assert(page[i] == shown[i - 6]);
        } else if 6 + shown.len() <= i < 6 + shown.len() + error.len() {
            assert(page[i] == error[i - 6 - shown.len()]);
        }
        assert(false);
    }
}

/// An engine is listed as done once it was measured, at its first place among the results;
/// before that as running while it is, and else as waiting. The one that was picked says so.
pub proof fn measured_engines_are_listed(board: BenchBoard, provider: Seq<char>, threads: i32)
    ensures
        ({
            let standing = standing_of(board, provider, threads);
            let results = board.results@;
            let fits = |i: int| results[i].provider@ == provider && results[i].threads == threads;
            &&& standing is Done <==> exists|i: int| 0 <= i < results.len() && #[trigger] fits(i)
            &&& standing matches Standing::Done { rank, rtf, tag, .. } ==> results.len()
                <= usize::MAX ==> {
                &&& 1 <= rank <= results.len()
                &&& fits(rank - 1)
                &&& results[rank - 1].rtf == rtf
                &&& forall|i: int| 0 <= i < rank - 1 ==> !#[trigger] fits(i)
                &&& tag == Tag::Selected <==> is_winner(board, provider, threads)
            }
            &&& standing is Running ==> is_running(board, provider, threads)
            &&& standing is Waiting ==> !is_running(board, provider, threads)
        }),
{
    places_are_first(board.results@, provider, threads);
    let results = board.results@;
    let fits = |i: int| results[i].provider@ == provider && results[i].threads == threads;
    match place_of(results, provider, threads) {
        Some(i) => {
            assert(fits(i));
        },
        None => {},
    }
}

proof fn places_are_first(results: Seq<BenchResult>, provider: Seq<char>, threads: i32)
    ensures
        match place_of(results, provider, threads) {
            Some(i) => {
                &&& 0 <= i < results.len()
                &&& results[i].provider@ == provider && results[i].threads == threads
                &&& forall|j: int|
                    0 <= j < i ==> !((#[trigger] results[j]).provider@ == provider
                        && results[j].threads == threads)
            },
            None => forall|j: int|
                0 <= j < results.len() ==> !((#[trigger] results[j]).provider@ == provider
                    && results[j].threads == threads),
        },
    decreases results.len(),
{
    if results.len() > 0 {
        let before = results.drop_last();
        places_are_first(before, provider, threads);
        assert forall|j: int| 0 <= j < before.len() implies before[j] == #[trigger] results[j] by {
        }
    }
}

/// The end of measuring names the engine that will be used, or the processor where none was
/// found or it was skipped.
pub proof fn outcomes_name_the_engine(view: OnboardingView)
    requires
        !view.bench.busy,
    ensures
        view.bench.skipped ==> outcome_of(view)[0] == line_of(
            Tone::Note,
            "Using the CPU default."@,
        ),
        !view.bench.skipped && view.bench.winner is None ==> outcome_of(view)[0] == line_of(
            Tone::Note,
            "I'll start you on the CPU default."@,
        ),
        !view.bench.skipped && view.bench.winner is Some ==> outcome_of(view)[0] == line_of(
            Tone::Success,
            "Done. I'll use "@ + view.bench.winner->0@ + "."@,
        ),
{
}

/// The graphics card is named where it is NVIDIA's, by its own name where that is known, and
/// all other machines are told that their processor is used.
pub proof fn graphics_cards_are_named(profile: HardwareProfile)
    ensures
        profile.vendor == Vendor::Nvidia && !crate::text::blank(profile.gpu_label@) ==> graphics_of(
            profile,
        ) == profile.gpu_label@,
        profile.vendor == Vendor::Nvidia && crate::text::blank(profile.gpu_label@) ==> graphics_of(
            profile,
        ) == "NVIDIA"@,
        profile.vendor != Vendor::Nvidia ==> graphics_of(profile) == "CPU only"@,
        profile.vendor != Vendor::Nvidia ==> heading_of(profile)
            == "I'll tune the engine to make the most of this CPU."@,
        profile.vendor == Vendor::Nvidia ==> crate::text::begins(
            heading_of(profile),
            "I found an NVIDIA"@,
        ),
{
    reveal_strlit("I found an ");
    reveal_strlit("NVIDIA");
    reveal_strlit("I found an NVIDIA");
    if profile.vendor == Vendor::Nvidia {
        assert(heading_of(profile).subrange(0, 17) =~= "I found an NVIDIA"@);
    }
}

/// The panel says that the model is missing where it is, that it could not be found where
/// it was there before, and why nothing could be recorded.
pub proof fn missing_models_are_told(view: OnboardingView, cached: bool)
    requires
        !view.transfer.downloading,
    ensures
        view.origin == SetupOrigin::Recovery ==> notices_of(view, cached)[0] == line_of(
            Tone::Warning,
            "Cached model not found. Download it below to continue."@,
        ),
        !cached && view.notice is Some ==> notices_of(view, cached).last() == line_of(
            Tone::Warning,
            view.notice->0@,
        ),
        cached && view.origin != SetupOrigin::Recovery ==> notices_of(view, cached).len() == 0,
        model_rows(view, cached)[1] == (if cached {
            line_of(Tone::Status, "cached"@)
        } else {
            line_of(Tone::Note, "not downloaded"@)
        }),
        !cached ==> model_rows(view, cached)[4] == line_of(
            Tone::Warning,
            "Model not on disk. Download it before dictating."@,
        ),
{
}

/// The backend that was picked is shown with its threads and its speed; none is shown while
/// it is measured again, which can be asked for only once.
pub proof fn picked_backends_are_shown(view: OnboardingView, facts: SettingsFacts<'_>)
    ensures
        view.bench.rechecking ==> backend_text(view, facts) == "Benchmarking backend\u{2026}"@,
        !view.bench.rechecking && facts.provider@.len() == 0 ==> backend_text(view, facts)
            == "Not selected yet"@,
        !view.bench.rechecking && facts.provider@.len() > 0 ==> crate::text::begins(
            backend_text(view, facts),
            facts.provider@,
        ) && crate::text::has_text(
            backend_text(view, facts),
            crate::text::signed_decimal_of(facts.threads as int) + " threads"@,
        ) && crate::text::has_text(backend_text(view, facts), facts.rtf@ + "x realtime"@),
        backend_row(view, facts)[3] matches ItemView::Button { control, enabled, .. } && control
            == Control::Recheck && enabled == !view.bench.rechecking,
{
    let text = backend_text(view, facts);
    if !view.bench.rechecking && facts.provider@.len() > 0 {
        reveal_strlit(" \u{b7} ");
        reveal_strlit(" threads");
        reveal_strlit(" threads \u{b7} ");
        reveal_strlit("x realtime");
        let n = facts.provider@.len() as int;
        let number = crate::text::signed_decimal_of(facts.threads as int);
        let threads = number + " threads"@;
        let speed = facts.rtf@ + "x realtime"@;
        assert(text.subrange(0, n) =~= facts.provider@);
        assert(text.subrange(n + 3, n + 3 + threads.len()) =~= threads);
        assert(crate::text::occurs_at(text, threads, n + 3));
        crate::text::found_texts_stand_somewhere(text, threads);
        let i = text.len() - speed.len();
        assert(text.subrange(i, text.len() as int) =~= speed);
        assert(crate::text::occurs_at(text, speed, i));
        crate::text::found_texts_stand_somewhere(text, speed);
    }
}

/// While an engine is measured one to three dots show that it goes on.
pub proof fn dots_show_that_it_goes_on(pulse: u64, i: int)
    ensures
        dots_text(pulse).len() == pulse % 3 + 1,
        dots_at(pulse) == pulse % 3 + 1,
        0 <= i < dots_text(pulse).len() ==> dots_text(pulse)[i] == '.',
{
    reveal_strlit(".");
    reveal_strlit("..");
    reveal_strlit("...");
}

/// Speeds are drawn against that of the first place, and against real time where that has
/// none; an engine that was not picked is told to be the fastest exactly where none is
/// faster than it.
pub proof fn speeds_are_drawn_against_the_first(
    board: BenchBoard,
    provider: Seq<char>,
    threads: i32,
)
    ensures
        board.results@.len() > 0 && board.results@[0].rtf > 0 ==> yardstick(board.results@)
            == board.results@[0].rtf,
        board.results@.len() == 0 || board.results@[0].rtf <= 0 ==> yardstick(board.results@)
            == 10_000,
        standing_of(board, provider, threads) matches Standing::Done { rtf, fastest, tag, .. } ==> {
            &&& fastest == yardstick(board.results@)
            &&& !is_winner(board, provider, threads) && rtf != i64::MIN ==> (tag == Tag::Fastest
                <==> rtf <= fastest)
            &&& !is_winner(board, provider, threads) && rtf != i64::MIN ==> (tag == Tag::Slower
                <==> rtf > fastest)
            &&& !is_winner(board, provider, threads) && rtf == i64::MIN ==> tag == Tag::Blank
        },
{
}

} // verus!
