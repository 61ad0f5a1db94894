//! The window of the installer: what it asks, what it shows while it works, and when
//! it goes away. Clock readings are in nanoseconds.
use crate::installer::{InstallOptions, InstalledInfo, LaunchMode, APP_VERSION};
use crate::text::{joined, owned, same_text};
use crate::words::{signed_hiword, signed_loword, wide};
use vstd::prelude::*;

verus! {

/// The title of the window. It is not that of the app, which the installer closes.
pub const WINDOW_TITLE: &'static str = "Amanuensis Setup";

/// The height of the strip by which the window can be moved.
pub const DRAG_STRIP_PX: i32 = 44;

/// How long success stays visible after an installation.
pub const SUCCESS_LINGER: u64 = 1_200_000_000;

/// How long success stays visible after a removal.
pub const UNINSTALL_SUCCESS_LINGER: u64 = 600_000_000;

/// The number of steps that make up the whole.
pub const STEP_COUNT: usize = 6;

pub const TAGLINE: &'static str =
    "Press F9 anywhere, speak, and your words become text. It all runs on your PC.";

pub const LAUNCHING_LINE: &'static str = "Launching Amanuensis\u{2026}";

/// What the installer is there for.
#[derive(Clone, Debug)]
pub enum Pipeline {
    Install,
    Update(InstalledInfo),
    Uninstall,
}

impl Pipeline {
    /// Whether the app is being removed.
    pub fn is_uninstall(&self) -> (r: bool)
        ensures
            r == (self is Uninstall),
    {
        match self {
            Pipeline::Uninstall => true,
            _ => false,
        }
    }
}

/// Which page is up.
#[derive(Clone, Copy, Debug, PartialEq, Eq, Structural)]
pub enum Stage {
    Choosing,
    Progress,
}

/// What the workers report.
#[derive(Debug)]
pub enum WorkerEvent {
    /// A step is about to begin.
    StepStarted { message: String },
    FolderPicked(Option<String>),
    Finished(Result<(), String>),
}

/// The installer.
#[derive(Debug)]
pub struct InstallerApp {
    pub pipeline: Pipeline,
    pub stage: Stage,
    pub dir: String,
    pub start_menu: bool,
    pub autostart: bool,
    pub keep_data: bool,
    /// The lines of the steps that are behind.
    pub completed: Vec<String>,
    /// The line of the step that runs.
    pub active: Option<String>,
    pub error: Option<String>,
    pub finished: bool,
    pub quit_deadline: Option<u64>,
}

/// What the machine says of an installation.
#[derive(Debug)]
pub struct Machine {
    pub default_dir: String,
    pub location: String,
    pub has_shortcut: bool,
    pub autostarts: bool,
}

/// The lines of the steps that are behind once the running one is.
pub open spec fn ticked_off(completed: Seq<String>, active: Option<String>) -> Seq<String> {
    match active {
        Some(line) => completed.push(line),
        None => completed,
    }
}

/// The clock reading after a while.
pub open spec fn later(now: u64, span: u64) -> u64 {
    if now + span > u64::MAX {
        u64::MAX
    } else {
        (now + span) as u64
    }
}

impl InstallerApp {
    /// The window after what its worker reported.
    pub open spec fn took(self, event: WorkerEvent, now: u64, after: InstallerApp) -> bool {
        match event {
            WorkerEvent::StepStarted { message } => {
                &&& after.completed@ == ticked_off(
                    self.completed@,
                    self.active,
                )
                &&& after == (InstallerApp {
                    completed: after.completed,
                    active: Some(message),
                    ..self
                })
            },
            WorkerEvent::FolderPicked(Some(dir)) => after == (InstallerApp {
                dir,
                ..self
            }),
            WorkerEvent::FolderPicked(None) => after == self,
            WorkerEvent::Finished(Ok(_)) => {
                &&& after.completed@ == ticked_off(
                    self.completed@,
                    self.active,
                )
                &&& crate::text::opt_text(after.active) == (if self.pipeline is Uninstall {
                    None
                } else {
                    Some(LAUNCHING_LINE@)
                })
                &&& after == (InstallerApp {
                    completed: after.completed,
                    active: after.active,
                    finished: true,
                    quit_deadline: Some(
                        later(
                            now,
                            if self.pipeline is Uninstall {
                                UNINSTALL_SUCCESS_LINGER
                            } else {
                                SUCCESS_LINGER
                            },
                        ),
                    ),
                    ..self
                })
            },
            WorkerEvent::Finished(Err(error)) => after == (InstallerApp {
                finished: true,
                error: Some(error),
                ..self
            }),
        }
    }

    /// The installer as it opens. An update starts from what the machine has now.
    pub fn for_mode(mode: LaunchMode, machine: Machine) -> (app: InstallerApp)
        ensures
            match mode {
                LaunchMode::Install | LaunchMode::App => {
                    &&& app.pipeline == Pipeline::Install
                    &&& app.dir == machine.default_dir
                    &&& app.start_menu
                    &&& !app.autostart
                },
                LaunchMode::Update(info) => {
                    &&& app.pipeline matches Pipeline::Update(i)
                    &&& i.dir@ == info.dir@
                    &&& i.version@ == info.version@
                    &&& app.dir@ == info.dir@
                    &&& app.start_menu == machine.has_shortcut
                    &&& app.autostart == machine.autostarts
                },
                LaunchMode::Uninstall => {
                    &&& app.pipeline == Pipeline::Uninstall
                    &&& app.dir == machine.location
                    &&& !app.start_menu
                    &&& !app.autostart
                },
            },
            app.stage == Stage::Choosing,
            app.keep_data,
            app.completed@.len() == 0,
            app.active is None,
            app.error is None,
            !app.finished,
            app.quit_deadline is None,
    {
        let (pipeline, dir, start_menu, autostart) = match mode {
            LaunchMode::Install | LaunchMode::App => (
                Pipeline::Install,
                machine.default_dir,
                true,
                false,
            ),
            LaunchMode::Update(info) => {
                let dir = info.dir.clone();
                (Pipeline::Update(info), dir, machine.has_shortcut, machine.autostarts)
            },
            LaunchMode::Uninstall => (Pipeline::Uninstall, machine.location, false, false),
        };
        InstallerApp {
            pipeline,
            stage: Stage::Choosing,
            dir,
            start_menu,
            autostart,
            keep_data: true,
            completed: Vec::new(),
            active: None,
            error: None,
            finished: false,
            quit_deadline: None,
        }
    }

    /// What the user chose.
    pub fn options(&self) -> (opts: InstallOptions)
        ensures
            opts.dir@ == self.dir@,
            opts.start_menu == self.start_menu,
            opts.autostart == self.autostart,
    {
        InstallOptions {
            dir: self.dir.clone(),
            start_menu: self.start_menu,
            autostart: self.autostart,
        }
    }

    /// Begins the work, or begins it once more. Without a window there is nothing to
    /// show it in: that is an error. Whether the work is to begin.
    pub fn start_pipeline(&mut self, has_window: bool) -> (start: bool)
        ensures
            start == has_window,
            has_window ==> {
                &&& final(self).completed@.len() == 0
                &&& *final(self) == (InstallerApp {
                    stage: Stage::Progress,
                    completed: final(self).completed,
                    active: None,
                    error: None,
                    finished: false,
                    quit_deadline: None,
                    ..*old(self)
                })
            },
            !has_window ==> {
                &&& crate::text::opt_text(final(self).error) == Some(
                    "installer window not found"@,
                )
                &&& *final(self) == (InstallerApp { error: final(self).error, ..*old(self) })
            },
    {
        if !has_window {
            self.error = Some(owned("installer window not found"));
            return false;
        }
        self.stage = Stage::Progress;
        self.completed = Vec::new();
        self.active = None;
        self.error = None;
        self.finished = false;
        self.quit_deadline = None;
        true
    }

    /// The work is tried once more.
    pub fn retry_clicked(&mut self, has_window: bool) -> (start: bool)
        ensures
            start == has_window,
            has_window ==> {
                &&& final(self).completed@.len() == 0
                &&& *final(self) == (InstallerApp {
                    stage: Stage::Progress,
                    completed: final(self).completed,
                    active: None,
                    error: None,
                    finished: false,
                    quit_deadline: None,
                    ..*old(self)
                })
            },
            !has_window ==> {
                &&& crate::text::opt_text(final(self).error) == Some(
                    "installer window not found"@,
                )
                &&& *final(self) == (InstallerApp { error: final(self).error, ..*old(self) })
            },
    {
        self.start_pipeline(has_window)
    }

    /// Whether the window may be closed: not while the work is going on.
    pub fn request_close(&self) -> (may: bool)
        ensures
            may == !(self.stage == Stage::Progress && !self.finished),
    {
        !(self.stage == Stage::Progress && !self.finished)
    }

    /// A worker reported something.
    pub fn handle_event(&mut self, event: WorkerEvent, now: u64)
        ensures
            old(self).took(event, now, *final(self)),
    {
        match event {
            WorkerEvent::StepStarted { message } => {
                self.tick_off();
                self.active = Some(message);
            },
            WorkerEvent::FolderPicked(Some(dir)) => {
                self.dir = dir;
            },
            WorkerEvent::FolderPicked(None) => {},
            WorkerEvent::Finished(Ok(_)) => {
                self.tick_off();
                self.finished = true;
                let removing = self.pipeline.is_uninstall();
                if !removing {
                    self.active = Some(owned(LAUNCHING_LINE));
                }
                let linger: u64 = if removing {
                    UNINSTALL_SUCCESS_LINGER
                } else {
                    SUCCESS_LINGER
                };
                self.quit_deadline = Some(now.saturating_add(linger));
            },
            WorkerEvent::Finished(Err(error)) => {
                self.finished = true;
                self.error = Some(error);
            },
        }
    }

    fn tick_off(&mut self)
        ensures
            final(self).completed@ == ticked_off(old(self).completed@, old(self).active),
            *final(self) == (InstallerApp {
                completed: final(self).completed,
                active: None,
                ..*old(self)
            }),
    {
        if let Some(line) = self.active.take() {
            self.completed.push(line);
        }
    }

    /// Whether success was visible for long enough. That is said once.
    pub fn poll_quit(&mut self, now: u64) -> (quit: bool)
        ensures
            quit == (old(self).quit_deadline matches Some(deadline) && now >= deadline),
            *final(self) == (InstallerApp {
                quit_deadline: if quit {
                    None
                } else {
                    old(self).quit_deadline
                },
                ..*old(self)
            }),
    {
        match self.quit_deadline {
            Some(deadline) => {
                if now >= deadline {
                    self.quit_deadline = None;
                    true
                } else {
                    false
                }
            },
            None => false,
        }
    }

    /// Switches the shortcut on or off.
    pub fn toggle_start_menu(&mut self)
        ensures
            *final(self) == (InstallerApp { start_menu: !old(self).start_menu, ..*old(self) }),
    {
        self.start_menu = !self.start_menu;
    }

    /// Switches starting with the session on or off.
    pub fn toggle_autostart(&mut self)
        ensures
            *final(self) == (InstallerApp { autostart: !old(self).autostart, ..*old(self) }),
    {
        self.autostart = !self.autostart;
    }

    /// Switches keeping the settings on or off.
    pub fn toggle_keep_data(&mut self)
        ensures
            *final(self) == (InstallerApp { keep_data: !old(self).keep_data, ..*old(self) }),
    {
        self.keep_data = !self.keep_data;
    }
}

/// The words on the versions: both, if they are known and differ.
pub open spec fn versions(installed: Seq<char>, this: Seq<char>) -> Seq<char> {
    if installed.len() == 0 || installed == this {
        "v"@ + this
    } else {
        "v"@ + installed + " \u{2192} v"@ + this
    }
}

/// The words on the versions.
pub fn version_arrow(installed: &str, this: &str) -> (text: String)
    ensures
        text@ == versions(installed@, this@),
{
    if installed.unicode_len() == 0 || same_text(installed, this) {
        joined("v", this)
    } else {
        joined(joined(joined("v", installed).as_str(), " \u{2192} v").as_str(), this)
    }
}

/// How much of the work is done, as a fraction of the number of steps.
pub fn progress_fraction(completed: usize, finished_ok: bool) -> (r: (usize, usize))
    ensures
        r.1 == STEP_COUNT,
        r.0 == (if finished_ok || completed > STEP_COUNT {
            STEP_COUNT
        } else {
            completed
        }),
{
    if finished_ok || completed > STEP_COUNT {
        (STEP_COUNT, STEP_COUNT)
    } else {
        (completed, STEP_COUNT)
    }
}

/// The page before an installation or an update.
#[derive(Debug)]
pub struct IntroPage {
    pub title: &'static str,
    pub tagline: &'static str,
    /// The words on the versions, for an update.
    pub versions: Option<String>,
    pub dir: String,
    /// The directory can be chosen.
    pub browsable: bool,
    pub start_menu: bool,
    pub autostart: bool,
    /// The words on the button that begins.
    pub button: &'static str,
}

/// The page before a removal.
#[derive(Debug)]
pub struct ConfirmPage {
    pub title: &'static str,
    pub words: &'static str,
    pub place: String,
    pub keep_data: bool,
    pub button: &'static str,
}

/// The page while the work goes on, and after it.
#[derive(Debug)]
pub struct ProgressPage {
    pub done: usize,
    pub steps: usize,
    pub completed: Vec<String>,
    pub active: Option<String>,
    pub error: Option<String>,
    /// The work can be tried once more, or the window closed.
    pub buttons: bool,
}

/// A page of the installer.
#[derive(Debug)]
pub enum InstallerPage {
    Intro(IntroPage),
    Confirm(ConfirmPage),
    Progress(ProgressPage),
}

impl InstallerApp {
    /// Whether a page is the one before an installation or an update.
    pub open spec fn is_intro(self, page: IntroPage) -> bool {
        &&& page.title@ == "Amanuensis"@
        &&& page.tagline@ == TAGLINE@
        &&& crate::text::opt_text(page.versions) == (match self.pipeline {
            Pipeline::Update(info) => Some(versions(info.version@, APP_VERSION@)),
            _ => None,
        })
        &&& page.dir@ == self.dir@
        &&& page.browsable == (self.pipeline is Install)
        &&& page.start_menu == self.start_menu
        &&& page.autostart == self.autostart
        &&& page.button@ == (if self.pipeline is Update {
            "Update"@
        } else {
            "Install"@
        })
    }

    /// Whether a page is the one before a removal.
    pub open spec fn is_confirm(self, page: ConfirmPage) -> bool {
        &&& page.title@ == "Uninstall Amanuensis?"@
        &&& page.words@ == "Amanuensis will be removed from this PC."@
        &&& page.place@ == "Installed at "@ + self.dir@
        &&& page.keep_data == self.keep_data
        &&& page.button@ == "Remove"@
    }

    /// Whether a page is the one while the work goes on.
    pub open spec fn is_progress(self, page: ProgressPage) -> bool {
        &&& page.steps == STEP_COUNT
        &&& page.done == (if self.finished && self.error is None || self.completed@.len()
            > STEP_COUNT {
            STEP_COUNT as int
        } else {
            self.completed@.len() as int
        })
        &&& crate::text::texts(page.completed@) == crate::text::texts(self.completed@)
        &&& crate::text::opt_text(page.active) == crate::text::opt_text(self.active)
        &&& crate::text::opt_text(page.error) == (match self.error {
            Some(error) => Some("Something went wrong: "@ + error@),
            None => None,
        })
        &&& page.buttons == (self.error is Some)
    }

    /// What the window shows.
    pub fn render(&self) -> (page: InstallerPage)
        ensures
            match page {
                InstallerPage::Intro(p) => self.stage == Stage::Choosing && !(
                self.pipeline is Uninstall) && self.is_intro(p),
                InstallerPage::Confirm(p) => self.stage == Stage::Choosing
                    && self.pipeline is Uninstall && self.is_confirm(p),
                InstallerPage::Progress(p) => self.stage == Stage::Progress && self.is_progress(p),
            },
    {
        match self.stage {
            Stage::Choosing => match &self.pipeline {
                Pipeline::Uninstall => InstallerPage::Confirm(self.render_uninstall_confirm()),
                _ => InstallerPage::Intro(self.render_intro_update()),
            },
            Stage::Progress => InstallerPage::Progress(self.render_progress()),
        }
    }

    fn render_intro_update(&self) -> (page: IntroPage)
        ensures
            self.is_intro(page),
    {
        let (versions, button) = match &self.pipeline {
            Pipeline::Update(info) => (
                Some(version_arrow(info.version.as_str(), APP_VERSION)),
                "Update",
            ),
            _ => (None, "Install"),
        };
        let browsable = match &self.pipeline {
            Pipeline::Install => true,
            _ => false,
        };
        IntroPage {
            title: "Amanuensis",
            tagline: TAGLINE,
            versions,
            dir: self.dir.clone(),
            browsable,
            start_menu: self.start_menu,
            autostart: self.autostart,
            button,
        }
    }

    fn render_uninstall_confirm(&self) -> (page: ConfirmPage)
        ensures
            self.is_confirm(page),
    {
        ConfirmPage {
            title: "Uninstall Amanuensis?",
            words: "Amanuensis will be removed from this PC.",
            place: joined("Installed at ", self.dir.as_str()),
            keep_data: self.keep_data,
            button: "Remove",
        }
    }

    fn render_progress(&self) -> (page: ProgressPage)
        ensures
            self.is_progress(page),
    {
        let ok = self.finished && self.error.is_none();
        let (done, steps) = progress_fraction(self.completed.len(), ok);
        let mut completed: Vec<String> = Vec::new();
        let mut i: usize = 0;
        assert(crate::text::texts(completed@) =~= crate::text::texts(
            self.completed@,
        ).subrange(0, 0));
        while i < self.completed.len()
            invariant
                i <= self.completed@.len(),
                crate::text::texts(completed@) == crate::text::texts(self.completed@).subrange(
                    0,
                    i as int,
                ),
            decreases self.completed@.len() - i,
        {
            let ghost before = completed@;
            completed.push(self.completed[i].clone());
            i += 1;
            assert(crate::text::texts(completed@) =~= crate::text::texts(before).push(
                self.completed@[i - 1]@,
            ));
            assert(crate::text::texts(completed@) =~= crate::text::texts(
                self.completed@,
            ).subrange(0, i as int));
        }
        assert(crate::text::texts(self.completed@).subrange(0, i as int) =~= crate::text::texts(
            self.completed@,
        ));
        let active = match &self.active {
            Some(line) => Some(line.clone()),
            None => None,
        };
        let error = match &self.error {
            Some(error) => Some(joined("Something went wrong: ", error.as_str())),
            None => None,
        };
        let buttons = self.error.is_some();
        ProgressPage { done, steps, completed, active, error, buttons }
    }
}

/// The title of the window for the system.
pub fn window_title_utf16() -> (units: Vec<u16>)
    ensures
        units@ == crate::words::encoded(WINDOW_TITLE@).push(0),
{
    wide(WINDOW_TITLE)
}

/// Whether a point of the screen, as a message gives it, is in the strip by which the
/// window can be moved. `window` is where the window is: left, top and right.
pub fn hit_in_drag_strip(lparam: u64, left: i32, top: i32, right: i32) -> (r: bool)
    ensures
        r == ({
            let x = crate::words::signed_word(lparam as int % 0x10000);
            let y = crate::words::signed_word(lparam as int / 0x10000 % 0x10000);
            left <= x < right && top <= y <= top + DRAG_STRIP_PX
        }),
{
    let x: i32 = signed_loword(lparam);
    let y: i32 = signed_hiword(lparam);
    x >= left && x < right && y >= top && (y as i64) - (top as i64) <= DRAG_STRIP_PX as i64
}

/// The window of the installer is not taken for that of a running app, which an
/// installation closes.
pub proof fn the_installer_is_not_the_app()
    ensures
        WINDOW_TITLE@ != crate::installer::APP_WINDOW_TITLE@,
{
    reveal_strlit("Amanuensis Setup");
    reveal_strlit("amanuensis-window");
    assert(WINDOW_TITLE@[0] == 'A');
    assert(crate::installer::APP_WINDOW_TITLE@[0] == 'a');
}

/// The window shows a line for each step that is done, in order, and the one that runs;
/// a step that begins ends the one before it. It names the folder that was picked, and
/// picking none changes nothing.
pub proof fn steps_are_shown_in_order(
    app: InstallerApp,
    event: WorkerEvent,
    now: u64,
    after: InstallerApp,
)
    requires
        app.took(event, now, after),
    ensures
        event is StepStarted ==> {
            &&& after.active == Some(event->message)
            &&& app.active is Some ==> after.completed@ == app.completed@.push(app.active->0)
            &&& app.active is None ==> after.completed@ == app.completed@
            &&& after.finished == app.finished && after.error == app.error
        },
        event is FolderPicked && event->FolderPicked_0 is Some ==> after.dir
            == event->FolderPicked_0->0,
        event is FolderPicked && event->FolderPicked_0 is None ==> after == app,
        !(event is FolderPicked) ==> after.dir == app.dir,
        after.start_menu == app.start_menu && after.autostart == app.autostart && after.keep_data
            == app.keep_data && after.pipeline == app.pipeline && after.stage == app.stage,
{
}

/// Success closes the window after it has been shown for a while, twice as long after an
/// installation, which goes on to the launch, as after a removal; a failure is shown, and
/// the window stays.
pub proof fn success_closes_the_window(
    app: InstallerApp,
    event: WorkerEvent,
    now: u64,
    after: InstallerApp,
)
    requires
        app.took(event, now, after),
        event is Finished,
        now <= u64::MAX - 1_200_000_000,
    ensures
        after.finished,
        event->Finished_0 is Ok ==> {
            &&& after.error == app.error
            &&& app.pipeline is Uninstall ==> after.quit_deadline == Some(
                (now + 600_000_000) as u64,
            ) && after.active is None
            &&& !(app.pipeline is Uninstall) ==> after.quit_deadline == Some(
                (now + 1_200_000_000) as u64,
            ) && after.active is Some
        },
        event->Finished_0 is Err ==> {
            &&& after.error == Some(event->Finished_0->Err_0)
            &&& after.quit_deadline == app.quit_deadline
            &&& after.active == app.active && after.completed@ == app.completed@
        },
{
}

/// The window may be closed at any time but while it works.
pub proof fn work_is_not_closed(app: InstallerApp, may: bool)
    requires
        call_ensures(InstallerApp::request_close, (&app,), may),
    ensures
        app.stage == Stage::Choosing ==> may,
        app.finished ==> may,
        app.stage == Stage::Progress && !app.finished ==> !may,
{
}

/// What was chosen in the window is what is installed.
pub proof fn choices_are_installed(app: InstallerApp, opts: InstallOptions)
    requires
        call_ensures(InstallerApp::options, (&app,), opts),
    ensures
        opts.dir@ == app.dir@,
        opts.start_menu == app.start_menu,
        opts.autostart == app.autostart,
{
}

/// An update shows the installed version and the new one, where they differ and the first
/// is known; else only the new one.
pub proof fn updates_show_both_versions(installed: Seq<char>, this: Seq<char>)
    ensures
        installed.len() > 0 && installed != this ==> versions(installed, this) == "v"@ + installed
            + " \u{2192} v"@ + this,
        versions(this, this) == "v"@ + this,
        versions(Seq::empty(), this) == "v"@ + this,
{
}

/// The bar is at the steps that are done of six, and full only when all are or it ended
/// well.
pub proof fn the_bar_follows_the_steps(app: InstallerApp, page: ProgressPage)
    requires
        app.is_progress(page),
        app.completed@.len() <= 6,
    ensures
        page.steps == 6,
        app.finished && app.error is None ==> page.done == 6,
        !app.finished || app.error is Some ==> page.done == app.completed@.len(),
        page.buttons <==> page.error is Some,
        page.error is Some <==> app.error is Some,
        page.active is Some <==> app.active is Some,
        page.completed@.len() == app.completed@.len(),
{
    assert(crate::text::texts(page.completed@).len() == page.completed@.len());
    assert(crate::text::texts(app.completed@).len() == app.completed@.len());
}

/// The first page shows what was chosen, and lets only an installation choose its folder; a
/// removal is asked for before it begins.
pub proof fn pages_show_the_choices(app: InstallerApp, page: InstallerPage)
    requires
        call_ensures(InstallerApp::render, (&app,), page),
    ensures
        page is Progress <==> app.stage == Stage::Progress,
        page is Confirm <==> app.stage == Stage::Choosing && app.pipeline is Uninstall,
        page is Intro ==> {
            let shown = page->Intro_0;
            &&& shown.dir@ == app.dir@
            &&& shown.start_menu == app.start_menu && shown.autostart == app.autostart
            &&& shown.browsable <==> app.pipeline is Install
            &&& shown.versions is Some <==> app.pipeline is Update
            &&& app.pipeline is Install ==> shown.button@ == "Install"@
            &&& app.pipeline is Update ==> shown.button@ == "Update"@
        },
        page is Confirm ==> page->Confirm_0.keep_data == app.keep_data && page->Confirm_0.place@
            == "Installed at "@ + app.dir@,
{
}

/// The window is dragged by a strip along its upper edge.
pub proof fn the_upper_edge_drags(
    x: u16,
    y: u16,
    lparam: u64,
    left: i32,
    top: i32,
    right: i32,
    hit: bool,
)
    requires
        x < 0x8000 && y < 0x8000,
        lparam == x + 65_536 * y,
        call_ensures(hit_in_drag_strip, (lparam, left, top, right), hit),
    ensures
        hit <==> left <= x < right && top <= y <= top + 44,
{
    assert(lparam as int % 0x10000 == x);
    assert(lparam as int / 0x10000 == y);
}

/// The window begins with what is known: an installation in the usual folder, an update and
/// a removal where the app is; an update keeps the shortcut and the start with the system as
/// they are, and the data is kept unless it is said otherwise.
pub proof fn windows_begin_with_what_is_known(
    mode: LaunchMode,
    machine: Machine,
    app: InstallerApp,
)
    requires
        call_ensures(InstallerApp::for_mode, (mode, machine), app),
    ensures
        mode is Install ==> app.pipeline is Install && app.dir@ == machine.default_dir@
            && app.start_menu && !app.autostart,
        mode is Update ==> app.pipeline is Update && app.dir@ == mode->Update_0.dir@
            && app.start_menu == machine.has_shortcut && app.autostart == machine.autostarts,
        mode is Uninstall ==> app.pipeline is Uninstall && app.dir@ == machine.location@,
        app.keep_data,
        app.stage == Stage::Choosing && !app.finished && app.error is None && app.quit_deadline
            is None,
{
}

/// Work begins anew each time, with nothing shown of an earlier try and the choices as they
/// are; the window quits once, when its time has come; and a switch changes itself alone.
pub proof fn work_begins_anew()
    ensures
        forall|app: &mut InstallerApp, has_window: bool, start: bool| #[trigger]
            call_ensures(InstallerApp::start_pipeline, (app, has_window), start) ==> {
                &&& start <==> has_window
                &&& has_window ==> final(app).stage == Stage::Progress && !final(app).finished
                    && final(app).error is None && final(app).completed@.len() == 0
                    && final(app).active is None && final(app).quit_deadline is None
                &&& !has_window ==> final(app).error is Some && final(app).stage == app.stage
                &&& final(app).dir == app.dir && final(app).start_menu == app.start_menu
                    && final(app).autostart == app.autostart && final(app).keep_data
                    == app.keep_data
            },
        forall|app: &mut InstallerApp, has_window: bool, start: bool| #[trigger]
            call_ensures(InstallerApp::retry_clicked, (app, has_window), start) ==> {
                &&& start <==> has_window
                &&& has_window ==> final(app).stage == Stage::Progress && !final(app).finished
                    && final(app).error is None && final(app).completed@.len() == 0
                &&& final(app).dir == app.dir && final(app).keep_data == app.keep_data
            },
        forall|app: &mut InstallerApp, now: u64, quit: bool| #[trigger]
            call_ensures(InstallerApp::poll_quit, (app, now), quit) ==> {
                &&& quit <==> app.quit_deadline is Some && now >= app.quit_deadline->0
                &&& quit ==> final(app).quit_deadline is None
                &&& !quit ==> *final(app) == *app
            },
        forall|app: &mut InstallerApp, r: ()| #[trigger]
            call_ensures(InstallerApp::toggle_start_menu, (app,), r) ==> final(app).start_menu
                != app.start_menu && final(app).autostart == app.autostart && final(app).keep_data
                == app.keep_data,
        forall|app: &mut InstallerApp, r: ()| #[trigger]
            call_ensures(InstallerApp::toggle_autostart, (app,), r) ==> final(app).autostart
                != app.autostart && final(app).start_menu == app.start_menu && final(app).keep_data
                == app.keep_data,
        forall|app: &mut InstallerApp, r: ()| #[trigger]
            call_ensures(InstallerApp::toggle_keep_data, (app,), r) ==> final(app).keep_data
                != app.keep_data && final(app).start_menu == app.start_menu && final(app).autostart
                == app.autostart,
{
}

} // verus!
