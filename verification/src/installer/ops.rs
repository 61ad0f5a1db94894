//! The steps of an installation and of a removal, and the texts that they leave on the
//! machine.
use super::{InstallOptions, Step, APP_VERSION, APP_WINDOW_TITLE, CONFIG_DIR_NAME, SHORTCUT_FILE_NAME};
use crate::paths::join;
use crate::text::{chars_of, joined, owned, same_ignoring_case, signed_decimal, signed_decimal_wide, text_of, trim};
use crate::words::{le_units, wide};
use vstd::prelude::*;

verus! {

/// What a step does.
#[derive(Clone, Copy, Debug, PartialEq, Eq, Structural)]
pub enum Task {
    CloseRunning,
    CopySelf,
    AddShortcut,
    AddAutostart,
    Register,
    WriteMarker,
    Launch,
    RemoveShortcut,
    RemoveAutostart,
    RemoveRegistration,
    DeleteFiles,
}

/// A part of a plan: a step is announced, or a task is done.
#[derive(Clone, Copy, Debug, PartialEq, Eq)]
pub enum Part {
    Announce(Step, &'static str),
    Do(Task),
}

/// `Part` as a mathematical value.
#[verifier::ext_equal]
pub ghost enum PartView {
    Announce(Step, Seq<char>),
    Do(Task),
}

impl View for Part {
    type V = PartView;

    open spec fn view(&self) -> PartView {
        match *self {
            Part::Announce(step, message) => PartView::Announce(step, message@),
            Part::Do(task) => PartView::Do(task),
        }
    }
}

/// The parts of a plan as mathematical values.
pub open spec fn views(parts: Seq<Part>) -> Seq<PartView> {
    parts.map_values(|p: Part| p@)
}

/// A task that is done in some cases only.
pub open spec fn done_if(wanted: bool, task: Task) -> Seq<PartView> {
    if wanted {
        seq![PartView::Do(task)]
    } else {
        Seq::empty()
    }
}

/// The announcement of a step of an installation.
pub open spec fn announced(step: Step, enabled: bool) -> PartView {
    PartView::Announce(step, step.line(enabled))
}

/// The plan of an installation or an update.
pub open spec fn install_parts(start_menu: bool, autostart: bool) -> Seq<PartView> {
    seq![
        announced(Step::CloseRunning, true),
        PartView::Do(Task::CloseRunning),
        announced(Step::CopyFiles, true),
        PartView::Do(Task::CopySelf),
        announced(Step::StartMenu, start_menu),
    ] + done_if(start_menu, Task::AddShortcut) + seq![announced(Step::AutoStart, autostart)]
        + done_if(autostart, Task::AddAutostart) + seq![
        announced(Step::Register, true),
        PartView::Do(Task::Register),
        PartView::Do(Task::WriteMarker),
        announced(Step::Launch, true),
        PartView::Do(Task::Launch),
    ]
}

/// The plan of a removal.
pub open spec fn uninstall_parts() -> Seq<PartView> {
    seq![
        PartView::Announce(Step::CloseRunning, "Closing Amanuensis\u{2026}"@),
        PartView::Do(Task::CloseRunning),
        PartView::Announce(Step::StartMenu, "Removing Start menu shortcut\u{2026}"@),
        PartView::Do(Task::RemoveShortcut),
        PartView::Announce(Step::AutoStart, "Removing auto-start entry\u{2026}"@),
        PartView::Do(Task::RemoveAutostart),
        PartView::Announce(Step::Register, "Removing uninstall registration\u{2026}"@),
        PartView::Do(Task::RemoveRegistration),
        PartView::Announce(Step::CopyFiles, "Deleting files\u{2026}"@),
        PartView::Do(Task::DeleteFiles),
    ]
}

fn announce(step: Step, enabled: bool) -> (part: Part)
    ensures
        part@ == announced(step, enabled),
{
    Part::Announce(step, step.label(enabled))
}

/// The plan of an installation or an update.
pub fn pipeline(opts: &InstallOptions) -> (parts: Vec<Part>)
    ensures
        views(parts@) == install_parts(opts.start_menu, opts.autostart),
{
    let mut parts: Vec<Part> = Vec::new();
    parts.push(announce(Step::CloseRunning, true));
    parts.push(Part::Do(Task::CloseRunning));
    parts.push(announce(Step::CopyFiles, true));
    parts.push(Part::Do(Task::CopySelf));
    parts.push(announce(Step::StartMenu, opts.start_menu));
    if opts.start_menu {
        parts.push(Part::Do(Task::AddShortcut));
    }
    parts.push(announce(Step::AutoStart, opts.autostart));
    if opts.autostart {
        parts.push(Part::Do(Task::AddAutostart));
    }
    parts.push(announce(Step::Register, true));
    parts.push(Part::Do(Task::Register));
    parts.push(Part::Do(Task::WriteMarker));
    parts.push(announce(Step::Launch, true));
    parts.push(Part::Do(Task::Launch));
    assert(views(parts@) =~= install_parts(opts.start_menu, opts.autostart));
    parts
}

/// A plan that is being carried out.
#[derive(Debug)]
pub struct Plan {
    pub parts: Vec<Part>,
    /// How many parts are behind.
    pub done: usize,
    /// A part failed.
    pub failed: bool,
}

/// What to do next.
#[derive(Debug)]
pub enum Next {
    Part(Part),
    Done,
    Failed(String),
}

impl Plan {
    /// The plan after the outcome of a part, and what comes next.
    pub open spec fn went_on(self, outcome: Result<(), String>, after: Plan, next: Next) -> bool {
        match outcome {
            Ok(_) if !self.failed => {
                &&& !after.failed
                &&& after.done == (if self.done < self.parts@.len() {
                    self.done + 1
                } else {
                    self.done as int
                })
                &&& self.upcoming(next)
            },
            Ok(_) => after.failed && after.done == self.done && next is Done,
            Err(error) => after.failed && after.done == self.done && next == Next::Failed(error),
        }
    }

    /// What holds of a plan all the time.
    pub open spec fn well_formed(self) -> bool {
        self.done <= self.parts@.len()
    }

    /// What to do next if nothing failed.
    pub open spec fn upcoming(self, next: Next) -> bool {
        if self.done < self.parts@.len() {
            next matches Next::Part(part) && part == self.parts@[self.done as int]
        } else {
            next is Done
        }
    }

    /// The next part of a plan, after the part before went as `outcome` says. A plan
    /// ends with the first part that fails.
    pub fn next(&mut self, outcome: Result<(), String>) -> (next: Next)
        requires
            old(self).well_formed(),
        ensures
            final(self).well_formed(),
            final(self).parts@ == old(self).parts@,
            old(self).went_on(outcome, *final(self), next),
    {
        match outcome {
            Ok(_) => {
                if self.failed {
                    return Next::Done;
                }
                if self.done < self.parts.len() {
                    let part = self.parts[self.done];
                    self.done = self.done + 1;
                    Next::Part(part)
                } else {
                    Next::Done
                }
            },
            Err(error) => {
                self.failed = true;
                Next::Failed(error)
            },
        }
    }
}

/// Begins an installation.
pub fn run_install(opts: &InstallOptions) -> (plan: Plan)
    ensures
        plan.well_formed(),
        views(plan.parts@) == install_parts(opts.start_menu, opts.autostart),
        plan.done == 0,
        !plan.failed,
{
    Plan { parts: pipeline(opts), done: 0, failed: false }
}

/// Begins an update: it does what an installation does.
pub fn run_update(opts: &InstallOptions) -> (plan: Plan)
    ensures
        plan.well_formed(),
        views(plan.parts@) == install_parts(opts.start_menu, opts.autostart),
        plan.done == 0,
        !plan.failed,
{
    Plan { parts: pipeline(opts), done: 0, failed: false }
}

/// Begins a removal.
pub fn run_uninstall() -> (plan: Plan)
    ensures
        plan.well_formed(),
        views(plan.parts@) == uninstall_parts(),
        plan.done == 0,
        !plan.failed,
{
    let mut parts: Vec<Part> = Vec::new();
    parts.push(Part::Announce(Step::CloseRunning, "Closing Amanuensis\u{2026}"));
    parts.push(Part::Do(Task::CloseRunning));
    parts.push(Part::Announce(Step::StartMenu, "Removing Start menu shortcut\u{2026}"));
    parts.push(Part::Do(Task::RemoveShortcut));
    parts.push(Part::Announce(Step::AutoStart, "Removing auto-start entry\u{2026}"));
    parts.push(Part::Do(Task::RemoveAutostart));
    parts.push(Part::Announce(Step::Register, "Removing uninstall registration\u{2026}"));
    parts.push(Part::Do(Task::RemoveRegistration));
    parts.push(Part::Announce(Step::CopyFiles, "Deleting files\u{2026}"));
    parts.push(Part::Do(Task::DeleteFiles));
    assert(views(parts@) =~= uninstall_parts());
    Plan { parts, done: 0, failed: false }
}

/// The place of a step.
pub open spec fn place(step: Step) -> int {
    match step {
        Step::CloseRunning => 0,
        Step::CopyFiles => 1,
        Step::StartMenu => 2,
        Step::AutoStart => 3,
        Step::Register => 4,
        Step::Launch => 5,
    }
}

/// Whether a part announces a step.
pub open spec fn announces(part: PartView, step: Step) -> bool {
    match part {
        PartView::Announce(s, _) => s == step,
        PartView::Do(_) => false,
    }
}

/// Whether a plan announces a step.
pub open spec fn is_announced(parts: Seq<PartView>, step: Step) -> bool {
    exists|i: int| 0 <= i < parts.len() && announces(#[trigger] parts[i], step)
}

/// An installation announces every step, and each one before those that come later in
/// order, whatever the user chose.
pub proof fn installations_announce_every_step_in_order(start_menu: bool, autostart: bool)
    ensures
        forall|step: Step| #[trigger] is_announced(install_parts(start_menu, autostart), step),
        forall|i: int, j: int, a: Step, b: Step|
            0 <= i < j < install_parts(start_menu, autostart).len() && #[trigger] announces(
                install_parts(start_menu, autostart)[i],
                a,
            ) && #[trigger] announces(install_parts(start_menu, autostart)[j], b) ==> place(a)
                < place(b),
{
    let parts = install_parts(start_menu, autostart);
    let k = if start_menu {
        6int
    } else {
        5
    };
    let m = if autostart {
        k + 2
    } else {
        k + 1
    };
    assert forall|step: Step| #[trigger] is_announced(parts, step) by {
        match step {
            Step::CloseRunning => assert(announces(parts[0], step)),
            Step::CopyFiles => assert(announces(parts[2], step)),
            Step::StartMenu => assert(announces(parts[4], step)),
            Step::AutoStart => assert(announces(parts[k], step)),
            Step::Register => assert(announces(parts[m], step)),
            Step::Launch => assert(announces(parts[m + 3], step)),
        }
    }
}

/// The app is launched by the last part of an installation, and only after it was
/// registered and its marker written; nothing is switched on that the user did not
/// choose.
pub proof fn installations_launch_last(start_menu: bool, autostart: bool)
    ensures
        install_parts(start_menu, autostart).last() == PartView::Do(Task::Launch),
        install_parts(start_menu, autostart).contains(PartView::Do(Task::AddShortcut))
            == start_menu,
        install_parts(start_menu, autostart).contains(PartView::Do(Task::AddAutostart))
            == autostart,
{
    let parts = install_parts(start_menu, autostart);
    if start_menu {
        assert(parts[5] == PartView::Do(Task::AddShortcut));
    }
    let k = if start_menu {
        6int
    } else {
        5
    };
    if autostart {
        assert(parts[k + 1] == PartView::Do(Task::AddAutostart));
    }
}

/// A text with every quote doubled.
pub open spec fn doubled(s: Seq<char>) -> Seq<char>
    decreases s.len(),
{
    if s.len() == 0 {
        Seq::empty()
    } else if s.last() == '\'' {
        doubled(s.drop_last()).push('\'').push('\'')
    } else {
        doubled(s.drop_last()).push(s.last())
    }
}

/// A text as a PowerShell literal.
pub open spec fn quoted(s: Seq<char>) -> Seq<char> {
    "'"@ + doubled(s) + "'"@
}

/// A text as a PowerShell literal.
pub fn ps_quote(value: &str) -> (text: String)
    ensures
        text@ == quoted(value@),
{
    let chars = chars_of(value);
    let mut text = owned("'");
    let ghost lead = text@;
    let mut i: usize = 0;
    assert(value@.subrange(0, 0) =~= Seq::empty());
    assert(text@ =~= lead + doubled(value@.subrange(0, 0)));
    while i < chars.len()
        invariant
            i <= chars.len(),
            chars@ == value@,
            text@ == lead + doubled(value@.subrange(0, i as int)),
        decreases chars.len() - i,
    {
        assert(value@.subrange(0, i + 1).drop_last() =~= value@.subrange(0, i as int));
        if chars[i] == '\'' {
            text.push('\'');
        }
        text.push(chars[i]);
        i += 1;
        assert(text@ =~= lead + doubled(value@.subrange(0, i as int)));
    }
    assert(value@.subrange(0, i as int) =~= value@);
    text.push_str("'");
    text
}

/// What stands between the quotes of a literal: two quotes mean one, and a single one
/// would end the literal.
pub open spec fn literal_text(s: Seq<char>) -> Option<Seq<char>>
    decreases s.len(),
{
    if s.len() == 0 {
        Some(Seq::empty())
    } else if s.last() != '\'' {
        match literal_text(s.drop_last()) {
            Some(text) => Some(text.push(s.last())),
            None => None,
        }
    } else if s.len() >= 2 && s[s.len() - 2] == '\'' {
        match literal_text(s.subrange(0, s.len() - 2)) {
            Some(text) => Some(text.push('\'')),
            None => None,
        }
    } else {
        None
    }
}

/// Whatever a text holds, its literal means that text and does not end early.
pub proof fn quoted_texts_are_read_back(s: Seq<char>)
    ensures
        literal_text(doubled(s)) == Some(s),
    decreases s.len(),
{
    if s.len() > 0 {
        quoted_texts_are_read_back(s.drop_last());
        let d = doubled(s.drop_last());
        let t = doubled(s);
        if s.last() == '\'' {
            assert(t.subrange(0, t.len() - 2) =~= d);
        } else {
            assert(t.drop_last() =~= d);
        }
        assert(s.drop_last().push(s.last()) =~= s);
    }
}

/// The script that asks for a folder, owned by the window `parent_hwnd`.
pub fn folder_script(parent_hwnd: i64) -> (script: String)
    ensures
        script@ == "$f = (New-Object -ComObject Shell.Application).BrowseForFolder("@
            + crate::text::signed_decimal_of(parent_hwnd as int)
            + ", 'Select folder', 0x0051); if ($f) { Write-Output $f.Self.Path }"@,
{
    let mut script = joined(
        "$f = (New-Object -ComObject Shell.Application).BrowseForFolder(",
        signed_decimal_wide(parent_hwnd).as_str(),
    );
    script.push_str(", 'Select folder', 0x0051); if ($f) { Write-Output $f.Self.Path }");
    script
}

/// The folder that a script answered with: none if it failed, or said nothing.
pub fn pick_folder(success: bool, stdout: &str) -> (dir: Option<String>)
    ensures
        crate::text::opt_text(dir) == (if success && crate::text::trimmed(stdout@).len() > 0 {
            Some(crate::text::trimmed(stdout@))
        } else {
            None
        }),
{
    let chosen = trim(stdout);
    if success && chosen.as_str().unicode_len() > 0 {
        Some(chosen)
    } else {
        None
    }
}

/// How a script went.
pub fn powershell_result(success: bool, code: Option<i32>, stderr: &str) -> (r: Result<(), String>)
    ensures
        r is Ok <==> success,
        r matches Err(text) ==> text@ == "powershell failed ("@ + crate::text::signed_decimal_of(
            match code {
                Some(code) => code as int,
                None => -1,
            },
        ) + "): "@ + crate::text::trimmed(stderr@),
{
    if success {
        return Ok(());
    }
    let code: i32 = match code {
        Some(code) => code,
        None => -1,
    };
    let mut text = joined("powershell failed (", signed_decimal(code).as_str());
    text.push_str("): ");
    text.push_str(trim(stderr).as_str());
    Err(text)
}

/// The path of the shortcut.
pub open spec fn lnk_path(appdata: Seq<char>) -> Seq<char> {
    crate::paths::path_in(
        crate::paths::path_in(appdata, "Microsoft\\Windows\\Start Menu\\Programs"@),
        SHORTCUT_FILE_NAME@,
    )
}

/// The path of the shortcut, given the directory for roaming data.
pub fn start_menu_lnk_path(appdata: &str) -> (path: String)
    ensures
        path@ == lnk_path(appdata@),
{
    join(join(appdata, "Microsoft\\Windows\\Start Menu\\Programs").as_str(), SHORTCUT_FILE_NAME)
}

/// The path of the shortcut; an error where the directory for roaming data is not
/// known.
pub fn shortcut_lnk_path(appdata: Option<&str>) -> (path: Result<String, String>)
    ensures
        match (appdata, path) {
            (Some(appdata), Ok(path)) => path@ == lnk_path(appdata@),
            (None, Err(error)) => error@ == "APPDATA not set"@,
            _ => false,
        },
{
    match appdata {
        Some(appdata) => Ok(start_menu_lnk_path(appdata)),
        None => Err(owned("APPDATA not set")),
    }
}

/// Whether there is a shortcut.
pub fn start_menu_shortcut_exists(known: bool, exists: bool) -> (r: bool)
    ensures
        r == (known && exists),
{
    known && exists
}

/// The script that makes a shortcut.
pub open spec fn shortcut_text(lnk: Seq<char>, exe: Seq<char>, working_dir: Seq<char>) -> Seq<char> {
    "$s = (New-Object -ComObject WScript.Shell).CreateShortcut("@ + quoted(lnk)
        + "); $s.TargetPath = "@ + quoted(exe) + "; $s.WorkingDirectory = "@ + quoted(working_dir)
        + "; $s.Description = 'Amanuensis'; $s.Save()"@
}

/// The script that makes a shortcut.
pub fn shortcut_script(lnk: &str, exe: &str, working_dir: &str) -> (script: String)
    ensures
        script@ == shortcut_text(lnk@, exe@, working_dir@),
{
    let mut script = joined(
        "$s = (New-Object -ComObject WScript.Shell).CreateShortcut(",
        ps_quote(lnk).as_str(),
    );
    script.push_str("); $s.TargetPath = ");
    script.push_str(ps_quote(exe).as_str());
    script.push_str("; $s.WorkingDirectory = ");
    script.push_str(ps_quote(working_dir).as_str());
    script.push_str("; $s.Description = 'Amanuensis'; $s.Save()");
    script
}

/// How a removal of a file went.
#[derive(Clone, Copy, Debug, PartialEq, Eq, Structural)]
pub enum Removal {
    Removed,
    Missing,
    Failed,
}

/// How setting the shortcut went. `removal` is how removing went, `exists` whether
/// the shortcut is there after it was made; `detail` is what the system says.
pub fn set_start_menu_shortcut(
    lnk: &str,
    add: bool,
    removal: Removal,
    exists: bool,
    detail: &str,
) -> (r: Result<(), String>)
    ensures
        r is Ok <==> (if add {
            exists
        } else {
            removal != Removal::Failed
        }),
        r matches Err(text) ==> text@ == (if add {
            "shortcut did not appear at "@ + lnk@
        } else {
            "removing "@ + lnk@ + ": "@ + detail@
        }),
{
    if add {
        if exists {
            Ok(())
        } else {
            Err(joined("shortcut did not appear at ", lnk))
        }
    } else {
        match removal {
            Removal::Removed | Removal::Missing => Ok(()),
            Removal::Failed => {
                let mut text = joined("removing ", lnk);
                text.push_str(": ");
                text.push_str(detail);
                Err(text)
            },
        }
    }
}

/// The command that starts the app with the session.
pub fn run_key_value(exe: &str) -> (value: String)
    ensures
        value@ == "\""@ + exe@ + "\""@,
{
    joined(joined("\"", exe).as_str(), "\"")
}

/// Whether the app starts with the session.
pub fn autostart_enabled(value: Option<&str>) -> (r: bool)
    ensures
        r == (value is Some),
{
    value.is_some()
}

/// What to do about starting with the session: the command to store, or that the
/// stored one is to be removed.
pub fn set_autostart(exe: &str, enabled: bool) -> (value: Option<String>)
    ensures
        crate::text::opt_text(value) == (if enabled {
            Some("\""@ + exe@ + "\""@)
        } else {
            None
        }),
{
    if enabled {
        Some(run_key_value(exe))
    } else {
        None
    }
}

/// The command that removes the app.
pub fn uninstall_string(exe: &str) -> (text: String)
    ensures
        text@ == "\""@ + exe@ + "\" --uninstall"@,
{
    joined(joined("\"", exe).as_str(), "\" --uninstall")
}

/// A value of a registry key.
#[derive(Debug, PartialEq, Eq)]
pub enum RegData {
    Text(String),
    Number(u32),
}

/// `RegData` as a mathematical value.
#[verifier::ext_equal]
pub ghost enum RegDataView {
    Text(Seq<char>),
    Number(u32),
}

impl View for RegData {
    type V = RegDataView;

    open spec fn view(&self) -> RegDataView {
        match *self {
            RegData::Text(text) => RegDataView::Text(text@),
            RegData::Number(n) => RegDataView::Number(n),
        }
    }
}

/// The names and values of a list.
pub open spec fn entries(values: Seq<(&'static str, RegData)>) -> Seq<(Seq<char>, RegDataView)> {
    values.map_values(|v: (&'static str, RegData)| (v.0@, v.1@))
}

/// What the registry says of an installation.
pub open spec fn registration(exe: Seq<char>, dir: Seq<char>) -> Seq<(Seq<char>, RegDataView)> {
    seq![
        ("DisplayName"@, RegDataView::Text("Amanuensis"@)),
        ("DisplayVersion"@, RegDataView::Text(APP_VERSION@)),
        ("DisplayIcon"@, RegDataView::Text(exe)),
        ("InstallLocation"@, RegDataView::Text(dir)),
        ("UninstallString"@, RegDataView::Text("\""@ + exe + "\" --uninstall"@)),
        ("NoModify"@, RegDataView::Number(1)),
        ("NoRepair"@, RegDataView::Number(1)),
    ]
}

/// What the registry says of an installation.
pub fn uninstall_registry_values(exe: &str, dir: &str) -> (values: Vec<(&'static str, RegData)>)
    ensures
        entries(values@) == registration(exe@, dir@),
{
    let mut values: Vec<(&'static str, RegData)> = Vec::new();
    values.push(("DisplayName", RegData::Text(owned("Amanuensis"))));
    values.push(("DisplayVersion", RegData::Text(owned(APP_VERSION))));
    values.push(("DisplayIcon", RegData::Text(owned(exe))));
    values.push(("InstallLocation", RegData::Text(owned(dir))));
    values.push(("UninstallString", RegData::Text(uninstall_string(exe))));
    values.push(("NoModify", RegData::Number(1)));
    values.push(("NoRepair", RegData::Number(1)));
    assert(entries(values@) =~= registration(exe@, dir@));
    values
}

/// A call of the registry that went well.
pub const ERROR_SUCCESS: u32 = 0;

/// What the call asked for is not there.
pub const ERROR_FILE_NOT_FOUND: u32 = 2;

/// There is more data than was asked for.
pub const ERROR_MORE_DATA: u32 = 234;

/// The kind of a value that is a text.
pub const REG_SZ: u32 = 1;

/// What to do after a key was opened for writing.
#[derive(Debug)]
pub enum Opened {
    Write,
    /// The key has to be made first.
    Create,
    Failed(String),
}

/// The words on a failed call.
pub open spec fn failure_of(what: Seq<char>, name: Seq<char>, status: u32) -> Seq<char> {
    what + name + ": win32 error "@ + crate::text::decimal_of(status as nat)
}

fn failure_text(what: &str, name: &str, status: u32) -> (text: String)
    ensures
        text@ == failure_of(what@, name@, status),
{
    let mut text = joined(what, name);
    text.push_str(": win32 error ");
    text.push_str(crate::text::decimal(status as u64).as_str());
    text
}

/// What to do after a key was opened for writing. A missing key is made once.
pub fn reg_opened(subkey: &str, status: u32, created: bool) -> (opened: Opened)
    ensures
        opened is Write <==> status == ERROR_SUCCESS,
        opened is Create <==> status == ERROR_FILE_NOT_FOUND && !created,
        opened matches Opened::Failed(text) ==> text@ == failure_of("opening "@, subkey@, status),
{
    if status == ERROR_SUCCESS {
        Opened::Write
    } else if status == ERROR_FILE_NOT_FOUND && !created {
        Opened::Create
    } else {
        Opened::Failed(failure_text("opening ", subkey, status))
    }
}

/// How storing a value went.
pub fn reg_set(subkey: &str, value_name: &str, status: u32) -> (r: Result<(), String>)
    ensures
        r is Ok <==> status == ERROR_SUCCESS,
        r matches Err(text) ==> text@ == failure_of(
            "setting "@,
            subkey@ + "\\"@ + value_name@,
            status,
        ),
{
    if status == ERROR_SUCCESS {
        Ok(())
    } else {
        let name = joined(joined(subkey, "\\").as_str(), value_name);
        Err(failure_text("setting ", name.as_str(), status))
    }
}

/// How removing a value went: `opening` and `deleting` are what the two calls said. A
/// missing key or value is as good as a removed one.
pub fn reg_delete_value(subkey: &str, value_name: &str, opening: u32, deleting: u32) -> (r: Result<
    (),
    String,
>)
    ensures
        r is Ok <==> opening == ERROR_FILE_NOT_FOUND || (opening == ERROR_SUCCESS && (deleting
            == ERROR_SUCCESS || deleting == ERROR_FILE_NOT_FOUND)),
        r matches Err(text) ==> text@ == (if opening != ERROR_SUCCESS {
            failure_of("opening "@, subkey@, opening)
        } else {
            failure_of("deleting "@, subkey@ + "\\"@ + value_name@, deleting)
        }),
{
    if opening == ERROR_FILE_NOT_FOUND {
        return Ok(());
    }
    if opening != ERROR_SUCCESS {
        return Err(failure_text("opening ", subkey, opening));
    }
    if deleting == ERROR_SUCCESS || deleting == ERROR_FILE_NOT_FOUND {
        Ok(())
    } else {
        let name = joined(joined(subkey, "\\").as_str(), value_name);
        Err(failure_text("deleting ", name.as_str(), deleting))
    }
}

/// How removing a key went. A missing key is as good as a removed one.
pub fn reg_delete_tree(subkey: &str, status: u32) -> (r: Result<(), String>)
    ensures
        r is Ok <==> status == ERROR_SUCCESS || status == ERROR_FILE_NOT_FOUND,
        r matches Err(text) ==> text@ == failure_of("deleting key "@, subkey@, status),
{
    if status == ERROR_SUCCESS || status == ERROR_FILE_NOT_FOUND {
        Ok(())
    } else {
        Err(failure_text("deleting key ", subkey, status))
    }
}

/// How making a key went.
pub fn reg_created(prefix: &str, status: u32) -> (r: Result<(), String>)
    ensures
        r is Ok <==> status == ERROR_SUCCESS,
        r matches Err(text) ==> text@ == failure_of("creating "@, prefix@, status),
{
    if status == ERROR_SUCCESS {
        Ok(())
    } else {
        Err(failure_text("creating ", prefix, status))
    }
}

/// The keys on the way to a key, itself included: each text that ends before a
/// separator or at the end. An empty component at the start leads nowhere and drops
/// the separator behind it.
pub open spec fn chain_of(s: Seq<char>) -> Seq<Seq<char>>
    decreases s.len(),
{
    if s.len() == 0 {
        seq![Seq::empty()]
    } else {
        let before = chain_of(s.drop_last());
        if s.last() == '\\' {
            before.push(grown(before.last()))
        } else {
            before.drop_last().push(before.last().push(s.last()))
        }
    }
}

/// A key that another component will be put to.
pub open spec fn grown(prefix: Seq<char>) -> Seq<char> {
    if prefix.len() == 0 {
        prefix
    } else {
        prefix.push('\\')
    }
}

/// The keys that have to be made, one after the other, for a key to be there.
pub fn create_key_chain(subkey: &str) -> (prefixes: Vec<String>)
    ensures
        crate::text::texts(prefixes@) == chain_of(subkey@),
{
    let chars = chars_of(subkey);
    let mut prefixes: Vec<String> = Vec::new();
    let mut prefix: Vec<char> = Vec::new();
    let mut i: usize = 0;
    assert(subkey@.subrange(0, 0) =~= Seq::empty());
    assert(crate::text::texts(prefixes@).push(prefix@) =~= chain_of(subkey@.subrange(0, 0)));
    while i < chars.len()
        invariant
            i <= chars.len(),
            chars@ == subkey@,
            crate::text::texts(prefixes@).push(prefix@) == chain_of(
                subkey@.subrange(0, i as int),
            ),
        decreases chars.len() - i,
    {
        let ghost before = chain_of(subkey@.subrange(0, i as int));
        let ghost behind = crate::text::texts(prefixes@);
        assert(before.drop_last() =~= behind);
        assert(before.last() == prefix@);
        assert(subkey@.subrange(0, i + 1).drop_last() =~= subkey@.subrange(0, i as int));
        if chars[i] == '\\' {
            prefixes.push(text_of(prefix.as_slice()));
            assert(crate::text::texts(prefixes@) =~= behind.push(prefix@));
            assert(before =~= behind.push(prefix@));
            if prefix.len() > 0 {
                prefix.push('\\');
            }
        } else {
            prefix.push(chars[i]);
        }
        i += 1;
        assert(crate::text::texts(prefixes@).push(prefix@) =~= chain_of(
            subkey@.subrange(0, i as int),
        ));
    }
    assert(subkey@.subrange(0, i as int) =~= subkey@);
    let ghost behind = crate::text::texts(prefixes@);
    prefixes.push(text_of(prefix.as_slice()));
    assert(crate::text::texts(prefixes@) =~= behind.push(prefix@));
    prefixes
}

/// The last key that is made is the key itself, where it does not begin with a
/// separator.
pub proof fn chains_lead_to_the_key(s: Seq<char>)
    requires
        s.len() > 0 ==> s[0] != '\\',
    ensures
        chain_of(s).len() > 0,
        chain_of(s).last() == s,
    decreases s.len(),
{
    if s.len() > 0 {
        let rest = s.drop_last();
        if rest.len() > 0 {
            assert(rest[0] == s[0]);
        }
        chains_lead_to_the_key(rest);
        assert(chain_of(s).last() =~= s);
    }
}

/// How a call for the size of a value went: the number of bytes to read, if it is a
/// text that is not empty.
pub fn sz_size(status: u32, value_type: u32, size: u32) -> (bytes: Option<u32>)
    ensures
        bytes == (if (status == ERROR_SUCCESS || status == ERROR_MORE_DATA) && value_type == REG_SZ
            && size > 0 {
            Some(size)
        } else {
            None
        }),
{
    if status != ERROR_SUCCESS && status != ERROR_MORE_DATA {
        return None;
    }
    if value_type != REG_SZ || size == 0 {
        return None;
    }
    Some(size)
}

/// Code units without the zeros at their end.
pub open spec fn unpadded(units: Seq<u16>) -> Seq<u16>
    decreases units.len(),
{
    if units.len() > 0 && units.last() == 0 {
        unpadded(units.drop_last())
    } else {
        units
    }
}

/// Whether a text is what code units stand for.
pub open spec fn stands_for(units: Seq<u16>, text: Option<Seq<char>>) -> bool {
    match text {
        Some(text) => crate::words::encoded(text) == units,
        None => forall|s: Seq<char>| #[trigger] crate::words::encoded(s) != units,
    }
}

/// `String::from_utf16`: the text whose UTF-16 code units these are; none if they are
/// not the code units of a text.
#[verifier::external_body]
fn from_utf16(units: &[u16]) -> (text: Option<String>)
    ensures
        stands_for(units@, crate::text::opt_text(text)),
{
    String::from_utf16(units).ok()
}

/// The text of a value, given its bytes.
pub fn read_sz(bytes: &[u8]) -> (text: Option<String>)
    ensures
        stands_for(unpadded(crate::words::units_of(bytes@)), crate::text::opt_text(text)),
{
    let mut units = le_units(bytes);
    while units.len() > 0 && units[units.len() - 1] == 0
        invariant
            unpadded(units@) == unpadded(crate::words::units_of(bytes@)),
        decreases units.len(),
    {
        let ghost before = units@;
        units.pop();
        assert(units@ =~= before.drop_last());
    }
    from_utf16(units.as_slice())
}

/// The bytes of code units, the low byte first.
pub open spec fn bytes_of(units: Seq<u16>) -> Seq<u8> {
    Seq::new(
        2 * units.len(),
        |i: int|
            if i % 2 == 0 {
                (units[i / 2] % 256) as u8
            } else {
                (units[i / 2] / 256) as u8
            },
    )
}

/// The bytes of a text value.
pub fn sz_bytes(value: &str) -> (bytes: Vec<u8>)
    ensures
        bytes@ == bytes_of(crate::words::encoded(value@).push(0)),
{
    let units = wide(value);
    let mut bytes: Vec<u8> = Vec::new();
    let mut i: usize = 0;
    while i < units.len()
        invariant
            i <= units@.len(),
            bytes@ == bytes_of(units@.subrange(0, i as int)),
        decreases units@.len() - i,
    {
        bytes.push((units[i] % 256) as u8);
        bytes.push((units[i] / 256) as u8);
        i += 1;
        assert(bytes@ =~= bytes_of(units@.subrange(0, i as int)));
    }
    assert(units@.subrange(0, i as int) =~= units@);
    bytes
}

proof fn last_unit_is_no_padding(s: Seq<char>)
    requires
        s.len() > 0,
        s.last() as u32 != 0,
    ensures
        crate::words::encoded(s).len() > 0,
        crate::words::encoded(s).last() != 0,
{
    let c = s.last();
    let units = crate::words::utf16_of(c);
    vstd::utf8::char_is_scalar(c);
    assert(crate::words::encoded(s) == crate::words::encoded(s.drop_last()) + units);
    assert(crate::words::encoded(s).last() == units.last());
    if (c as u32) < 0x10000 {
        assert(units[0] as u32 == c as u32);
    } else {
        let rest = (c as u32 - 0x10000) as int;
        assert(units[1] == 0xdc00 + rest % 0x400);
    }
}

proof fn unit_is_read_back(units: Seq<u16>, i: int)
    requires
        0 <= i < units.len(),
    ensures
        crate::words::units_of(bytes_of(units))[i] == units[i],
{
    let bytes = bytes_of(units);
    let u = units[i] as int;
    assert((2 * i) % 2 == 0 && (2 * i) / 2 == i);
    assert((2 * i + 1) % 2 == 1 && (2 * i + 1) / 2 == i);
    assert(bytes[2 * i] as int == u % 256);
    assert(bytes[2 * i + 1] as int == u / 256);
    assert(u % 256 + 256 * (u / 256) == u);
}

proof fn units_are_read_back(units: Seq<u16>)
    ensures
        crate::words::units_of(bytes_of(units)) == units,
{
    assert forall|i: int| 0 <= i < units.len() implies crate::words::units_of(bytes_of(units))[i]
        == units[i] by {
        unit_is_read_back(units, i);
    }
    assert(crate::words::units_of(bytes_of(units)) =~= units);
}

/// A text that is stored in the registry is read back, if it does not end in a zero
/// character.
pub proof fn registry_texts_are_read_back(s: Seq<char>, read: Option<Seq<char>>)
    requires
        s.len() > 0 ==> s.last() as u32 != 0,
        stands_for(unpadded(crate::words::units_of(bytes_of(crate::words::encoded(s).push(0)))), read),
    ensures
        read == Some(s),
{
    let units = crate::words::encoded(s).push(0);
    units_are_read_back(units);
    assert(units.drop_last() =~= crate::words::encoded(s));
    assert(unpadded(units) == unpadded(crate::words::encoded(s)));
    if s.len() > 0 {
        last_unit_is_no_padding(s);
    }
    assert(unpadded(units) == crate::words::encoded(s));
    crate::words::wide_texts_are_read_back(s);
    crate::words::wide_texts_are_read_back(read->0);
}

/// Whether the title of a window is that of a running app. `title` is what the system
/// filled a buffer with: zeros may follow it.
pub fn is_app_window(title: &[u16]) -> (r: bool)
    ensures
        r == (unpadded(title@) == crate::words::encoded(APP_WINDOW_TITLE@)),
{
    let mut n: usize = title.len();
    assert(title@.subrange(0, n as int) =~= title@);
    while n > 0 && title[n - 1] == 0
        invariant
            n <= title@.len(),
            unpadded(title@.subrange(0, n as int)) == unpadded(title@),
        decreases n,
    {
        assert(title@.subrange(0, n as int).drop_last() =~= title@.subrange(0, n - 1));
        n -= 1;
    }
    let ghost bare = title@.subrange(0, n as int);
    assert(unpadded(bare) == bare);
    let wanted = wide(APP_WINDOW_TITLE);
    let ghost sought = crate::words::encoded(APP_WINDOW_TITLE@);
    assert(wanted@.drop_last() =~= sought);
    let m: usize = wanted.len() - 1;
    if n != m {
        return false;
    }
    let mut i: usize = 0;
    while i < n
        invariant
            i <= n,
            n <= title@.len(),
            n == m,
            m == sought.len(),
            sought == crate::words::encoded(APP_WINDOW_TITLE@),
            wanted@ == sought.push(0),
            unpadded(title@) == bare,
            bare == title@.subrange(0, n as int),
            forall|k: int| 0 <= k < i ==> bare[k] == sought[k],
        decreases n - i,
    {
        if title[i] != wanted[i] {
            assert(bare[i as int] != sought[i as int]);
            return false;
        }
        i += 1;
    }
    assert(bare =~= sought);
    true
}

/// Whether the process behind a window of a running app may be ended: it is not this
/// one, it can be opened, and it does not run this very file.
pub fn may_terminate(pid: u32, own_pid: u32, opened: bool, own_image: bool) -> (r: bool)
    ensures
        r == (pid != 0 && pid != own_pid && opened && !own_image),
{
    pid != 0 && pid != own_pid && opened && !own_image
}

/// Whether a process runs this very file, given both paths as far as they are known.
pub fn is_this_installer(image: Option<&str>, own: Option<&str>) -> (r: bool)
    ensures
        r == match (image, own) {
            (Some(image), Some(own)) => crate::text::same_but_case(image@, own@),
            _ => false,
        },
{
    match (image, own) {
        (Some(image), Some(own)) => same_ignoring_case(image, own),
        _ => false,
    }
}

/// How long a running app is waited for, in nanoseconds.
pub const CLOSE_WAIT_TIMEOUT: u64 = 5_000_000_000;

/// Whether to go on waiting for a running app to end.
pub fn still_closing(since: u64, now: u64, held: bool) -> (r: bool)
    ensures
        r == (held && now < since + CLOSE_WAIT_TIMEOUT),
{
    held && (now < since || now - since < CLOSE_WAIT_TIMEOUT)
}

/// How often copying is tried.
pub const COPY_RETRIES: u32 = 8;

/// How an attempt to copy went.
#[derive(Clone, Copy, Debug, PartialEq, Eq, Structural)]
pub enum Copied {
    Done,
    /// Access was denied, or the file is in use: `code` is the system's number.
    Denied,
    Code(i32),
    Failed,
}

/// What to do after an attempt.
#[derive(Debug)]
pub enum CopyStep {
    Done,
    /// Wait, and try for the `attempt`-th time, counted from 0.
    Retry { attempt: u32 },
    Failed(String),
}

/// Whether a failure can pass by itself: the file is still in use.
pub open spec fn passing(copied: Copied) -> bool {
    match copied {
        Copied::Denied => true,
        Copied::Code(code) => code == 32 || code == 33,
        _ => false,
    }
}

/// What to do after the `attempt`-th attempt to copy to `target`, counted from 0.
pub fn copy_self_to_dir(attempt: u32, copied: Copied, target: &str, detail: &str) -> (step: CopyStep)
    requires
        attempt < COPY_RETRIES,
    ensures
        step is Done <==> copied == Copied::Done,
        step is Retry <==> passing(copied) && attempt + 1 < COPY_RETRIES,
        step matches CopyStep::Retry { attempt: a } ==> a == attempt + 1,
        step matches CopyStep::Failed(text) ==> text@ == (if passing(copied) {
            target@ + " still locked after "@ + crate::text::decimal_of(8) + " attempts: "@
                + detail@
        } else {
            "copying to "@ + target@ + ": "@ + detail@
        }),
{
    let locked = match copied {
        Copied::Done => {
            return CopyStep::Done;
        },
        Copied::Denied => true,
        Copied::Code(code) => code == 32 || code == 33,
        Copied::Failed => false,
    };
    if !locked {
        let mut text = joined("copying to ", target);
        text.push_str(": ");
        text.push_str(detail);
        return CopyStep::Failed(text);
    }
    if attempt + 1 < COPY_RETRIES {
        CopyStep::Retry { attempt: attempt + 1 }
    } else {
        let mut text = joined(target, " still locked after ");
        text.push_str(crate::text::decimal(8).as_str());
        text.push_str(" attempts: ");
        text.push_str(detail);
        CopyStep::Failed(text)
    }
}

/// The directory that a removal deletes besides the installation: that of the
/// settings, unless the user keeps it or it is not known.
pub fn data_dir(keep_data: bool, appdata: Option<&str>) -> (dir: Option<String>)
    ensures
        crate::text::opt_text(dir) == (match appdata {
            Some(appdata) if !keep_data => Some(
                crate::paths::path_in(appdata@, CONFIG_DIR_NAME@),
            ),
            _ => None,
        }),
{
    match appdata {
        Some(appdata) => if keep_data {
            None
        } else {
            Some(join(appdata, CONFIG_DIR_NAME))
        },
        None => None,
    }
}

/// How deleting the directory of the settings went.
pub fn delete_install_data(removal: Removal, dir: &str, detail: &str) -> (r: Result<(), String>)
    ensures
        r is Ok <==> removal != Removal::Failed,
        r matches Err(text) ==> text@ == "removing "@ + dir@ + ": "@ + detail@,
{
    match removal {
        Removal::Removed | Removal::Missing => Ok(()),
        Removal::Failed => {
            let mut text = joined("removing ", dir);
            text.push_str(": ");
            text.push_str(detail);
            Err(text)
        },
    }
}

/// The command that deletes the installation once this process is gone.
pub fn self_delete_command(dir: &str) -> (command: String)
    ensures
        command@ == "ping -n 2 127.0.0.1 > NUL & rd /s /q \""@ + dir@ + "\""@,
{
    joined(joined("ping -n 2 127.0.0.1 > NUL & rd /s /q \"", dir).as_str(), "\"")
}

/// An installation closes the app, copies it, registers it and leaves its marker before it
/// launches it, each behind its announcement, with the shortcut and the start with the
/// system in between exactly where they are wanted.
pub proof fn installations_do_their_tasks_in_order(start_menu: bool, autostart: bool)
    ensures
        ({
            let parts = install_parts(start_menu, autostart);
            let more: int = if start_menu {
                1
            } else {
                0
            };
            let n: int = more + if autostart {
                1int
            } else {
                0
            };
            &&& parts.len() == 11 + n
            &&& announces(parts[0], Step::CloseRunning) && parts[1] == PartView::Do(
                Task::CloseRunning,
            )
            &&& announces(parts[2], Step::CopyFiles) && parts[3] == PartView::Do(Task::CopySelf)
            &&& announces(parts[4], Step::StartMenu)
            &&& start_menu ==> parts[5] == PartView::Do(Task::AddShortcut)
            &&& announces(parts[5 + more], Step::AutoStart)
            &&& autostart ==> parts[6 + more] == PartView::Do(Task::AddAutostart)
            &&& announces(parts[6 + n], Step::Register)
            &&& parts[7 + n] == PartView::Do(Task::Register)
            &&& parts[8 + n] == PartView::Do(Task::WriteMarker)
            &&& announces(parts[9 + n], Step::Launch)
            &&& parts[10 + n] == PartView::Do(Task::Launch)
        }),
{
}

/// A removal closes the app, takes back all that an installation leaves, and deletes the
/// files last; it installs and launches nothing.
pub proof fn removals_take_everything_back()
    ensures
        ({
            let parts = uninstall_parts();
            &&& parts.len() == 10
            &&& parts[1] == PartView::Do(Task::CloseRunning)
            &&& parts[3] == PartView::Do(Task::RemoveShortcut)
            &&& parts[5] == PartView::Do(Task::RemoveAutostart)
            &&& parts[7] == PartView::Do(Task::RemoveRegistration)
            &&& parts[9] == PartView::Do(Task::DeleteFiles)
            &&& forall|i: int| 0 <= i < 10 && i % 2 == 0 ==> (#[trigger] parts[i]) is Announce
        }),
{
}

/// As long as nothing fails a plan does its parts one by one to the end; a failure ends it,
/// is told once, and no part comes after it.
pub proof fn plans_run_to_their_end_or_failure(
    plan: Plan,
    after: Plan,
    next: Next,
    outcome: Result<(), String>,
)
    requires
        plan.well_formed(),
        plan.went_on(outcome, after, next),
    ensures
        outcome is Ok && !plan.failed && plan.done < plan.parts@.len() ==> next == Next::Part(
            plan.parts@[plan.done as int],
        ) && after.done == plan.done + 1 && !after.failed,
        outcome is Ok && !plan.failed && plan.done == plan.parts@.len() ==> next is Done
            && !after.failed,
        outcome is Err ==> next == Next::Failed(outcome->Err_0) && after.failed,
        outcome is Ok && plan.failed ==> next is Done && after.failed,
        next is Part ==> outcome is Ok && !plan.failed,
{
}

/// A text in quotes begins and ends with one, and only the quotes in it change.
pub proof fn texts_are_quoted(s: Seq<char>)
    ensures
        quoted(s).len() >= 2,
        quoted(s)[0] == '\'',
        quoted(s).last() == '\'',
        quoted(s).subrange(1, quoted(s).len() - 1) == doubled(s),
        !s.contains('\'') ==> doubled(s) == s,
    decreases s.len(),
{
    reveal_strlit("'");
    assert(quoted(s).subrange(1, quoted(s).len() - 1) =~= doubled(s));
    if s.len() > 0 && !s.contains('\'') {
        assert(s.last() != '\'');
        assert(!s.drop_last().contains('\''));
        texts_are_quoted(s.drop_last());
        assert(s.drop_last().push(s.last()) == s);
    }
}

/// A shortcut points to the file of the app, starts it in its folder, and is saved where it
/// is wanted.
pub proof fn shortcuts_point_to_the_app(lnk: Seq<char>, exe: Seq<char>, working_dir: Seq<char>)
    ensures
        ({
            let text = shortcut_text(lnk, exe, working_dir);
            &&& crate::text::has_text(text, ".CreateShortcut("@ + quoted(lnk) + ")"@)
            &&& crate::text::has_text(text, "$s.TargetPath = "@ + quoted(exe) + ";"@)
            &&& crate::text::has_text(text, "$s.WorkingDirectory = "@ + quoted(working_dir) + ";"@)
            &&& crate::text::has_text(text, "$s.Save()"@)
        }),
{
    reveal_strlit("$s = (New-Object -ComObject WScript.Shell).CreateShortcut(");
    reveal_strlit("); $s.TargetPath = ");
    reveal_strlit("; $s.WorkingDirectory = ");
    reveal_strlit("; $s.Description = 'Amanuensis'; $s.Save()");
    reveal_strlit(".CreateShortcut(");
    reveal_strlit(")");
    reveal_strlit(";");
    reveal_strlit("$s.TargetPath = ");
    reveal_strlit("$s.WorkingDirectory = ");
    reveal_strlit("$s.Save()");
    let text = shortcut_text(lnk, exe, working_dir);
    let a = "$s = (New-Object -ComObject WScript.Shell).CreateShortcut("@;
    let b = a.len() + quoted(lnk).len();
    let c = b + "); $s.TargetPath = "@.len() + quoted(exe).len();
    let d = c + "; $s.WorkingDirectory = "@.len() + quoted(working_dir).len();
    let first = ".CreateShortcut("@ + quoted(lnk) + ")"@;
    let second = "$s.TargetPath = "@ + quoted(exe) + ";"@;
    let third = "$s.WorkingDirectory = "@ + quoted(working_dir) + ";"@;
    let i = a.len() - ".CreateShortcut("@.len();
    assert(text.subrange(i, i + first.len()) =~= first);
    assert(crate::text::occurs_at(text, first, i));
    crate::text::found_texts_stand_somewhere(text, first);
    let j = (b + 3) as int;
    assert(text.subrange(j, j + second.len()) =~= second);
    assert(crate::text::occurs_at(text, second, j));
    crate::text::found_texts_stand_somewhere(text, second);
    let k = (c + 2) as int;
    assert(text.subrange(k, k + third.len()) =~= third);
    assert(crate::text::occurs_at(text, third, k));
    crate::text::found_texts_stand_somewhere(text, third);
    let l = text.len() - "$s.Save()"@.len();
    assert(text.subrange(l, text.len() as int) =~= "$s.Save()"@);
    assert(crate::text::occurs_at(text, "$s.Save()"@, l));
    crate::text::found_texts_stand_somewhere(text, "$s.Save()"@);
}

/// A folder is taken from the dialog where it went well and named one, without the white
/// space around it.
pub proof fn picked_folders_are_taken(success: bool, stdout: &str, dir: Option<String>)
    requires
        call_ensures(pick_folder, (success, stdout), dir),
    ensures
        dir is Some <==> success && !(crate::text::trimmed(stdout@).len() == 0),
        dir is Some ==> dir->0@ == crate::text::trimmed(stdout@),
{
}

/// A shortcut is added where it is there afterwards, and removed where it could be or was
/// not there.
pub proof fn shortcuts_are_as_wanted(
    lnk: &str,
    add: bool,
    removal: Removal,
    exists: bool,
    detail: &str,
    r: Result<(), String>,
)
    requires
        call_ensures(set_start_menu_shortcut, (lnk, add, removal, exists, detail), r),
    ensures
        add ==> (r is Ok <==> exists),
        !add ==> (r is Ok <==> removal == Removal::Removed || removal == Removal::Missing),
{
}

/// The app starts with the system by its file in quotes, and is removed by the same with
/// what asks for it; switched off, nothing starts.
pub proof fn commands_name_the_file_in_quotes(
    exe: &str,
    enabled: bool,
    value: Option<String>,
    run: String,
    removal: String,
)
    requires
        call_ensures(set_autostart, (exe, enabled), value),
        call_ensures(run_key_value, (exe,), run),
        call_ensures(uninstall_string, (exe,), removal),
    ensures
        value is Some <==> enabled,
        enabled ==> value->0@ == run@,
        run@ == seq!['"'] + exe@ + seq!['"'],
        removal@ == run@ + " --uninstall"@,
{
    reveal_strlit("\"");
    reveal_strlit("\" --uninstall");
    reveal_strlit(" --uninstall");
    assert("\""@ =~= seq!['"']);
    assert("\" --uninstall"@ =~= "\""@ + " --uninstall"@);
    assert(removal@ =~= run@ + " --uninstall"@);
}

/// The registration holds the name, the version, the file and the folder of the app and how
/// to remove it, and offers no change and no repair.
pub proof fn registrations_name_file_and_folder(exe: Seq<char>, dir: Seq<char>)
    ensures
        ({
            let values = registration(exe, dir);
            let holds = |name: Seq<char>, data: RegDataView| values.contains((name, data));
            &&& values.len() == 7
            &&& holds("DisplayName"@, RegDataView::Text("Amanuensis"@))
            &&& holds("DisplayVersion"@, RegDataView::Text(APP_VERSION@))
            &&& holds("DisplayIcon"@, RegDataView::Text(exe))
            &&& holds("InstallLocation"@, RegDataView::Text(dir))
            &&& holds("UninstallString"@, RegDataView::Text("\""@ + exe + "\" --uninstall"@))
            &&& holds("NoModify"@, RegDataView::Number(1))
            &&& holds("NoRepair"@, RegDataView::Number(1))
        }),
{
    let values = registration(exe, dir);
    assert(values[0].0 == "DisplayName"@ && values[1].0 == "DisplayVersion"@ && values[2].0
        == "DisplayIcon"@ && values[3].0 == "InstallLocation"@ && values[4].0
        == "UninstallString"@ && values[5].0 == "NoModify"@ && values[6].0 == "NoRepair"@);
}

/// A value or a key that is not there counts as deleted; another error does not, and a value
/// whose key cannot be opened does not.
pub proof fn missing_values_count_as_deleted(
    subkey: &str,
    name: &str,
    opening: u32,
    deleting: u32,
    value: Result<(), String>,
    tree: Result<(), String>,
    written: Result<(), String>,
)
    requires
        call_ensures(reg_delete_value, (subkey, name, opening, deleting), value),
        call_ensures(reg_delete_tree, (subkey, deleting), tree),
        call_ensures(reg_set, (subkey, name, deleting), written),
    ensures
        value is Ok <==> opening == 2 || opening == 0 && (deleting == 0 || deleting == 2),
        tree is Ok <==> deleting == 0 || deleting == 2,
        written is Ok <==> deleting == 0,
{
}

/// A key is created once where it is missing, and written where it could be opened; all
/// else has failed.
pub proof fn missing_keys_are_created_once(
    subkey: &str,
    status: u32,
    created: bool,
    opened: Opened,
)
    requires
        call_ensures(reg_opened, (subkey, status, created), opened),
    ensures
        opened is Write <==> status == 0,
        opened is Create <==> status == 2 && !created,
        opened is Failed <==> status != 0 && (status != 2 || created),
{
}

/// Each key of a chain is one further down the path to the last.
pub proof fn chains_go_down_the_path(s: Seq<char>, i: int)
    requires
        s.len() > 0 ==> s[0] != '\\',
        0 <= i < chain_of(s).len() - 1,
    ensures
        chain_of(s)[i].len() < chain_of(s)[i + 1].len(),
        chain_of(s)[i].len() < s.len(),
        chain_of(s)[i] == s.subrange(0, chain_of(s)[i].len() as int),
        s[chain_of(s)[i].len() as int] == '\\',
    decreases s.len(),
{
    let before = chain_of(s.drop_last());
    chains_lead_to_the_key(s);
    chains_lead_to_the_key(s.drop_last());
    if s.drop_last().len() == 0 {
        assert(s.drop_last() =~= Seq::empty());
        assert(chain_of(s).len() == 1);
    } else {
        assert(s.drop_last()[0] == s[0]);
        if i < before.len() - 1 {
            chains_go_down_the_path(s.drop_last(), i);
            assert(s.drop_last().subrange(0, chain_of(s)[i].len() as int) =~= s.subrange(
                0,
                chain_of(s)[i].len() as int,
            ));
        } else {
            assert(before.last() == s.drop_last());
            assert(s.subrange(0, s.len() - 1) =~= s.drop_last());
        }
    }
}

/// Only the zeros at the end are cut off.
pub proof fn only_padding_is_cut(units: Seq<u16>)
    ensures
        unpadded(units).len() <= units.len(),
        unpadded(units) == units.subrange(0, unpadded(units).len() as int),
        forall|i: int| unpadded(units).len() <= i < units.len() ==> #[trigger] units[i] == 0,
        unpadded(units).len() > 0 ==> unpadded(units).last() != 0,
    decreases units.len(),
{
    if units.len() > 0 && units.last() == 0 {
        only_padding_is_cut(units.drop_last());
        let n = unpadded(units).len() as int;
        assert(units.drop_last().subrange(0, n) =~= units.subrange(0, n));
        assert forall|i: int| n <= i < units.len() implies #[trigger] units[i] == 0 by {
            if i < units.len() - 1 {
                assert(units.drop_last()[i] == 0);
            }
        }
    } else {
        assert(units.subrange(0, units.len() as int) =~= units);
    }
}

/// Only another process that could be opened and is not this very file is ended, whatever
/// the case of its name; a process is waited for up to five seconds.
pub proof fn only_the_running_app_is_ended(
    pid: u32,
    own_pid: u32,
    opened: bool,
    own_image: bool,
    ended: bool,
    since: u64,
    now: u64,
    held: bool,
    waits: bool,
)
    requires
        call_ensures(may_terminate, (pid, own_pid, opened, own_image), ended),
        call_ensures(still_closing, (since, now, held), waits),
    ensures
        ended ==> pid != own_pid && pid != 0 && !own_image && opened,
        pid != 0 && pid != own_pid && opened && !own_image ==> ended,
        waits <==> held && now < since + 5_000_000_000,
{
}

/// A file that is in use is copied again, up to the eighth attempt; any other failure is the
/// end of it.
pub proof fn locked_files_are_copied_again(
    attempt: u32,
    copied: Copied,
    target: &str,
    detail: &str,
    step: CopyStep,
)
    requires
        attempt < 8,
        call_ensures(copy_self_to_dir, (attempt, copied, target, detail), step),
    ensures
        copied == Copied::Done <==> step is Done,
        copied == Copied::Denied || copied == Copied::Code(32) || copied == Copied::Code(33) ==> (
        step is Retry <==> attempt < 7),
        step is Retry ==> step->attempt == attempt + 1,
        copied == Copied::Failed ==> step is Failed,
        copied matches Copied::Code(code) ==> code != 32 && code != 33 ==> step is Failed,
{
}

/// The data of the user goes only where it is not to be kept.
pub proof fn kept_data_stays(keep_data: bool, appdata: Option<&str>, dir: Option<String>)
    requires
        call_ensures(data_dir, (keep_data, appdata), dir),
    ensures
        keep_data ==> dir is None,
        !keep_data && appdata is Some ==> dir is Some && dir->0@ == crate::paths::path_in(
            appdata->0@,
            "amanuensis"@,
        ),
        appdata is None ==> dir is None,
{
}

} // verus!
