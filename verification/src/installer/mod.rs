//! Installing, updating and removing the app: what the launched file is for, and
//! what is known of an installation.
pub mod ops;

use crate::paths::join;
use crate::text::{owned, same_text};
use vstd::prelude::*;

verus! {

/// The version that this file installs.
pub const APP_VERSION: &'static str = "1.0.3";

/// The name of the installed file.
pub const EXE_NAME: &'static str = "amanuensis.exe";

/// The name of the marker next to the installed file.
pub const MARKER_FILE: &'static str = "install.json";

/// The title of the window of a running app.
pub const APP_WINDOW_TITLE: &'static str = "amanuensis-window";

/// The name of the mutex that a running app holds.
pub const SINGLE_INSTANCE_MUTEX_NAME: &'static str = "Local\\amanuensis-single-instance";

/// The registry key of the installation.
pub const UNINSTALL_SUBKEY: &'static str =
    "Software\\Microsoft\\Windows\\CurrentVersion\\Uninstall\\Amanuensis";

/// The registry key of what starts with the session.
pub const RUN_SUBKEY: &'static str = "Software\\Microsoft\\Windows\\CurrentVersion\\Run";

/// The name of the app's value under that key.
pub const RUN_VALUE_NAME: &'static str = "Amanuensis";

/// The name of the shortcut.
pub const SHORTCUT_FILE_NAME: &'static str = "Amanuensis.lnk";

/// The name of the directory of the settings.
pub const CONFIG_DIR_NAME: &'static str = "amanuensis";

/// An installation.
#[derive(Clone, Debug, PartialEq, Eq)]
pub struct InstalledInfo {
    pub dir: String,
    /// Empty if it is not known.
    pub version: String,
}

/// What the launched file is for.
#[derive(Clone, Debug, PartialEq, Eq)]
pub enum LaunchMode {
    /// It is the installed file: it runs the app.
    App,
    /// Nothing is installed.
    Install,
    /// There is an installation elsewhere.
    Update(InstalledInfo),
    /// It was launched to remove the app.
    Uninstall,
}

/// What the user chose for an installation.
#[derive(Clone, Debug, PartialEq, Eq)]
pub struct InstallOptions {
    pub dir: String,
    pub start_menu: bool,
    pub autostart: bool,
}

/// A step of an installation.
#[derive(Clone, Copy, Debug, PartialEq, Eq, Structural)]
pub enum Step {
    CloseRunning,
    CopyFiles,
    StartMenu,
    AutoStart,
    Register,
    Launch,
}

/// The steps in order.
pub const ALL_STEPS: [Step; 6] = [
    Step::CloseRunning,
    Step::CopyFiles,
    Step::StartMenu,
    Step::AutoStart,
    Step::Register,
    Step::Launch,
];

impl Step {
    /// The line that announces the step. A step that can be switched off says so.
    pub open spec fn line(self, enabled: bool) -> Seq<char> {
        match self {
            Step::CloseRunning => "Closing Amanuensis\u{2026}"@,
            Step::CopyFiles => "Copying files\u{2026}"@,
            Step::StartMenu => if enabled {
                "Adding Start menu shortcut\u{2026}"@
            } else {
                "Skipping Start menu shortcut"@
            },
            Step::AutoStart => if enabled {
                "Setting up auto-start\u{2026}"@
            } else {
                "Skipping auto-start"@
            },
            Step::Register => "Finishing\u{2026}"@,
            Step::Launch => "Launching Amanuensis\u{2026}"@,
        }
    }

    /// The line that announces the step.
    pub fn label(&self, enabled: bool) -> (label: &'static str)
        ensures
            label@ == self.line(enabled),
    {
        match self {
            Step::CloseRunning => "Closing Amanuensis\u{2026}",
            Step::CopyFiles => "Copying files\u{2026}",
            Step::StartMenu => if enabled {
                "Adding Start menu shortcut\u{2026}"
            } else {
                "Skipping Start menu shortcut"
            },
            Step::AutoStart => if enabled {
                "Setting up auto-start\u{2026}"
            } else {
                "Skipping auto-start"
            },
            Step::Register => "Finishing\u{2026}",
            Step::Launch => "Launching Amanuensis\u{2026}",
        }
    }
}

/// The directory that the app is installed to unless the user says otherwise.
pub open spec fn programs_path(local_app_data: Option<Seq<char>>) -> Seq<char> {
    let programs = match local_app_data {
        Some(base) => crate::paths::path_in(base, "Programs"@),
        None => "Programs"@,
    };
    crate::paths::path_in(programs, "Amanuensis"@)
}

/// The directory that the app is installed to unless the user says otherwise.
pub fn programs_dir(local_app_data: Option<&str>) -> (dir: String)
    ensures
        dir@ == programs_path(
            match local_app_data {
                Some(base) => Some(base@),
                None => None,
            },
        ),
{
    match local_app_data {
        Some(base) => join(join(base, "Programs").as_str(), "Amanuensis"),
        None => join("Programs", "Amanuensis"),
    }
}

/// The directory that the app is installed to unless the user says otherwise, given
/// the directory for local data.
pub fn default_install_dir(local_app_data: Option<&str>) -> (dir: String)
    ensures
        dir@ == programs_path(
            match local_app_data {
                Some(base) => Some(base@),
                None => None,
            },
        ),
{
    programs_dir(local_app_data)
}

/// The path of the marker of an installation.
pub fn marker_path(dir: &str) -> (path: String)
    ensures
        path@ == crate::paths::path_in(dir@, MARKER_FILE@),
{
    join(dir, MARKER_FILE)
}

/// The version that a marker states, where one could be read: an empty one says
/// nothing.
pub open spec fn stated_version(marker: Option<Seq<char>>) -> Option<Seq<char>> {
    match marker {
        Some(version) if version.len() > 0 => Some(version),
        _ => None,
    }
}

/// The version that a marker states, where one could be read.
pub fn installed_version(marker: Option<String>) -> (version: Option<String>)
    ensures
        crate::text::opt_text(version) == stated_version(crate::text::opt_text(marker)),
{
    match marker {
        Some(version) => if version.as_str().unicode_len() > 0 {
            Some(version)
        } else {
            None
        },
        None => None,
    }
}

/// The version that a marker states, or that it is not known.
pub fn installed_version_or_unknown(marker: Option<String>) -> (version: String)
    ensures
        version@ == (match stated_version(crate::text::opt_text(marker)) {
            Some(stated) => stated,
            None => "unknown"@,
        }),
{
    match installed_version(marker) {
        Some(version) => version,
        None => owned("unknown"),
    }
}

/// What the launched file is for: a request to remove the app comes first, the
/// installed file runs the app, and any other file installs or updates it.
pub fn classify_mode(
    uninstall_requested: bool,
    running_from_install_dir: bool,
    installed: Option<InstalledInfo>,
) -> (mode: LaunchMode)
    ensures
        mode == (if uninstall_requested {
            LaunchMode::Uninstall
        } else if running_from_install_dir {
            LaunchMode::App
        } else {
            match installed {
                Some(info) => LaunchMode::Update(info),
                None => LaunchMode::Install,
            }
        }),
{
    if uninstall_requested {
        LaunchMode::Uninstall
    } else if running_from_install_dir {
        LaunchMode::App
    } else {
        match installed {
            Some(info) => LaunchMode::Update(info),
            None => LaunchMode::Install,
        }
    }
}

/// Whether the app was launched to be removed.
pub fn uninstall_requested(args: &[String]) -> (r: bool)
    ensures
        r == exists|i: int| 0 <= i < args@.len() && (#[trigger] args@[i])@ == "--uninstall"@,
{
    let mut i: usize = 0;
    while i < args.len()
        invariant
            i <= args@.len(),
            forall|k: int| 0 <= k < i ==> (#[trigger] args@[k])@ != "--uninstall"@,
        decreases args@.len() - i,
    {
        if same_text(args[i].as_str(), "--uninstall") {
            assert(args@[i as int]@ == "--uninstall"@);
            return true;
        }
        i += 1;
    }
    false
}

/// The installation in `dir`, given what its marker states, whether the registry knows
/// it, and the version there. There is none where neither does.
pub fn query_installed(
    dir: String,
    marker_version: Option<String>,
    has_key: bool,
    display_version: Option<String>,
) -> (installed: Option<InstalledInfo>)
    ensures
        match installed {
            Some(info) => {
                &&& marker_version is Some || has_key
                &&& info.dir == dir
                &&& info.version@ == (match marker_version {
                    Some(version) => version@,
                    None => match display_version {
                        Some(version) => version@,
                        None => Seq::empty(),
                    },
                })
            },
            None => marker_version is None && !has_key,
        },
{
    if marker_version.is_none() && !has_key {
        return None;
    }
    let version = match marker_version {
        Some(version) => version,
        None => match display_version {
            Some(version) => version,
            None => String::new(),
        },
    };
    Some(InstalledInfo { dir, version })
}

/// Where the app is installed: where the registry says, if that is a directory, or
/// else at the default place.
pub fn install_location(registered: Option<String>, is_dir: bool, default_dir: String) -> (dir:
    String)
    ensures
        dir == (match registered {
            Some(dir) if is_dir => dir,
            _ => default_dir,
        }),
{
    match registered {
        Some(dir) => if is_dir {
            dir
        } else {
            default_dir
        },
        None => default_dir,
    }
}

/// Whether two files are the same, given their canonical paths as far as they can be
/// resolved.
pub fn same_file(a: Option<&str>, b: Option<&str>) -> (r: bool)
    ensures
        r == match (a, b) {
            (Some(a), Some(b)) => a@ == b@,
            _ => false,
        },
{
    match (a, b) {
        (Some(a), Some(b)) => same_text(a, b),
        _ => false,
    }
}

/// Where the launched file has to be in order to be the installed one.
pub fn installed_exe(dir: &str) -> (path: String)
    ensures
        path@ == crate::paths::path_in(dir@, EXE_NAME@),
{
    join(dir, EXE_NAME)
}

/// The installed file never offers to install: whatever is known of an installation,
/// it runs the app, unless it was launched to remove it.
pub proof fn the_installed_file_runs_the_app(installed: Option<InstalledInfo>, mode: LaunchMode)
    requires
        call_ensures(classify_mode, (false, true, installed), mode),
    ensures
        mode == LaunchMode::App,
{
}

/// A launch to remove the app removes it; else the installed file runs the app, and any
/// other one updates what is installed, or installs where nothing is.
pub proof fn launches_do_what_they_are_for(
    uninstall: bool,
    from_install_dir: bool,
    installed: Option<InstalledInfo>,
    mode: LaunchMode,
)
    requires
        call_ensures(classify_mode, (uninstall, from_install_dir, installed), mode),
    ensures
        mode == LaunchMode::Uninstall <==> uninstall,
        mode == LaunchMode::App <==> !uninstall && from_install_dir,
        mode == LaunchMode::Install <==> !uninstall && !from_install_dir && installed is None,
        !uninstall && !from_install_dir && installed is Some ==> mode == LaunchMode::Update(
            installed->0,
        ),
{
}

/// An installation is known by its marker or its registration, and its version is that of
/// the marker before that of the registration.
pub proof fn markers_tell_the_version(
    dir: String,
    marker: Option<String>,
    has_key: bool,
    registered: Option<String>,
    found: Option<InstalledInfo>,
)
    requires
        call_ensures(query_installed, (dir, marker, has_key, registered), found),
    ensures
        found is Some <==> marker is Some || has_key,
        found is Some ==> found->0.dir == dir,
        marker is Some ==> found->0.version@ == marker->0@,
        marker is None && has_key && registered is Some ==> found->0.version@ == registered->0@,
        marker is None && has_key && registered is None ==> found->0.version@.len() == 0,
{
}

/// A version that a marker states is taken as it is; an empty one counts as none.
pub proof fn stated_versions_are_kept(version: Seq<char>)
    ensures
        version.len() > 0 ==> stated_version(Some(version)) == Some(version),
        stated_version(Some(Seq::empty())) is None,
        stated_version(None) is None,
{
}

/// The app is where it is registered, as long as that is there, and else where it is
/// installed by default.
pub proof fn registered_folders_are_used(
    registered: Option<String>,
    is_dir: bool,
    default_dir: String,
    dir: String,
)
    requires
        call_ensures(install_location, (registered, is_dir, default_dir), dir),
    ensures
        registered is Some && is_dir ==> dir == registered->0,
        registered is None || !is_dir ==> dir == default_dir,
{
}

/// The app is installed in a folder of its own among the programs of the user.
pub proof fn the_app_has_its_folder(base: Seq<char>)
    ensures
        programs_path(Some(base)) == crate::paths::path_in(
            crate::paths::path_in(base, "Programs"@),
            "Amanuensis"@,
        ),
        programs_path(None) == crate::paths::path_in("Programs"@, "Amanuensis"@),
{
}

/// A step that is switched off is announced as skipped, and all others as being done.
pub proof fn skipped_steps_are_announced_so(step: Step, enabled: bool)
    ensures
        crate::text::begins(step.line(enabled), "Skipping "@) <==> !enabled && (step
            == Step::StartMenu || step == Step::AutoStart),
{
    reveal_strlit("Skipping ");
    reveal_strlit("Skipping Start menu shortcut");
    reveal_strlit("Skipping auto-start");
    reveal_strlit("Closing Amanuensis\u{2026}");
    reveal_strlit("Copying files\u{2026}");
    reveal_strlit("Adding Start menu shortcut\u{2026}");
    reveal_strlit("Setting up auto-start\u{2026}");
    reveal_strlit("Finishing\u{2026}");
    reveal_strlit("Launching Amanuensis\u{2026}");
    let line = step.line(enabled);
    if crate::text::begins(line, "Skipping "@) {
        assert(line.subrange(0, 9)[0] == 'S' && line.subrange(0, 9)[1] == 'k');
        assert(line[0] == 'S' && line[1] == 'k');
    } else {
        assert("Skipping Start menu shortcut"@.subrange(0, 9) =~= "Skipping "@);
        assert("Skipping auto-start"@.subrange(0, 9) =~= "Skipping "@);
    }
}

} // verus!
