use amanuensis::installer::ops::{
    autostart_enabled, copy_self_to_dir, create_key_chain, data_dir, delete_install_data,
    folder_script, is_app_window, is_this_installer, may_terminate, pick_folder,
    powershell_result, ps_quote, read_sz, reg_created, reg_delete_tree, reg_delete_value,
    reg_opened, reg_set, run_install, run_key_value, run_uninstall, run_update,
    self_delete_command, set_autostart, set_start_menu_shortcut, shortcut_lnk_path,
    shortcut_script, start_menu_lnk_path, start_menu_shortcut_exists, still_closing, sz_bytes,
    sz_size, uninstall_registry_values, uninstall_string, Copied, CopyStep, Next, Opened, Part,
    RegData, Removal, Task,
};
use amanuensis::installer::{
    classify_mode, default_install_dir, install_location, installed_exe, installed_version,
    marker_path, programs_dir, query_installed, same_file, uninstall_requested, InstallOptions,
    InstalledInfo, LaunchMode, Step, ALL_STEPS, APP_VERSION,
};
use amanuensis::installer_ui::{
    hit_in_drag_strip, progress_fraction, version_arrow, window_title_utf16, InstallerApp,
    InstallerPage, Machine, Stage, WorkerEvent,
};
use amanuensis::words::{signed_hiword, signed_loword, wide};

#[test]
fn classify_prefers_uninstall_flag_over_everything() {
    let installed = Some(InstalledInfo {
        dir: "C:\\Apps\\Amanuensis".to_owned(),
        version: "1.0.0".to_owned(),
    });
    assert_eq!(
        classify_mode(true, true, installed.clone()),
        LaunchMode::Uninstall
    );
    assert_eq!(classify_mode(true, false, installed), LaunchMode::Uninstall);
}

#[test]
fn running_inside_install_dir_is_app_mode() {
    assert_eq!(classify_mode(false, true, None), LaunchMode::App);
    assert_eq!(
        classify_mode(
            false,
            true,
            Some(InstalledInfo {
                dir: "C:\\other".to_owned(),
                version: "9.9".to_owned(),
            })
        ),
        LaunchMode::App
    );
}

#[test]
fn outside_exe_without_install_is_install_mode() {
    assert_eq!(classify_mode(false, false, None), LaunchMode::Install);
}

#[test]
fn outside_exe_with_install_is_update_mode() {
    let info = InstalledInfo {
        dir: "C:\\Apps\\Amanuensis".to_owned(),
        version: "1.0.0".to_owned(),
    };
    assert_eq!(
        classify_mode(false, false, Some(info.clone())),
        LaunchMode::Update(info)
    );
}

#[test]
fn programs_dir_nests_under_local_app_data() {
    assert_eq!(
        programs_dir(Some("C:\\Users\\x\\AppData\\Local")),
        "C:\\Users\\x\\AppData\\Local\\Programs\\Amanuensis"
    );
    assert_eq!(programs_dir(None), "Programs\\Amanuensis");
    assert_eq!(default_install_dir(None), programs_dir(None));
}

#[test]
fn missing_marker_reads_as_absent() {
    assert_eq!(installed_version(None), None);
    assert_eq!(installed_version(Some(String::new())), None);
    assert_eq!(
        installed_version(Some(APP_VERSION.to_owned())),
        Some(APP_VERSION.to_owned())
    );
    assert_eq!(marker_path("C:\\A"), "C:\\A\\install.json");
}

#[test]
fn step_labels_cover_both_toggle_states() {
    assert_eq!(Step::CloseRunning.label(true), "Closing Amanuensis…");
    assert_eq!(Step::CopyFiles.label(true), "Copying files…");
    assert_eq!(Step::StartMenu.label(true), "Adding Start menu shortcut…");
    assert_eq!(Step::StartMenu.label(false), "Skipping Start menu shortcut");
    assert_eq!(Step::AutoStart.label(true), "Setting up auto-start…");
    assert_eq!(Step::AutoStart.label(false), "Skipping auto-start");
    assert_eq!(Step::Register.label(true), "Finishing…");
    assert_eq!(Step::Launch.label(true), "Launching Amanuensis…");
    assert_eq!(Step::CopyFiles.label(false), Step::CopyFiles.label(true));
}

#[test]
fn all_steps_are_ordered_and_distinct() {
    let mut seen = ALL_STEPS.to_vec();
    seen.dedup();
    assert_eq!(seen.len(), ALL_STEPS.len());
    assert_eq!(ALL_STEPS[0], Step::CloseRunning);
    assert_eq!(*ALL_STEPS.last().unwrap(), Step::Launch);
}

#[test]
fn same_file_compares_canonical_paths() {
    assert!(same_file(Some("C:\\a"), Some("C:\\a")));
    assert!(!same_file(Some("C:\\a"), Some("C:\\b")));
    assert!(!same_file(None, None));
}

#[test]
fn ps_quote_wraps_in_single_quotes_and_doubles_embedded_ones() {
    assert_eq!(ps_quote("C:\\Apps"), "'C:\\Apps'");
    assert_eq!(ps_quote("it's here"), "'it''s here'");
}

#[test]
fn run_key_value_quotes_the_exe_path() {
    assert_eq!(
        run_key_value("C:\\Apps\\Amanuensis\\amanuensis.exe"),
        "\"C:\\Apps\\Amanuensis\\amanuensis.exe\""
    );
}

#[test]
fn uninstall_string_quotes_exe_and_appends_flag() {
    assert_eq!(
        uninstall_string("C:\\Apps\\amanuensis.exe"),
        "\"C:\\Apps\\amanuensis.exe\" --uninstall"
    );
}

#[test]
fn start_menu_lnk_lands_in_programs_folder() {
    assert_eq!(
        start_menu_lnk_path("C:\\Users\\x\\AppData\\Roaming"),
        "C:\\Users\\x\\AppData\\Roaming\\Microsoft\\Windows\\Start Menu\\Programs\\Amanuensis.lnk"
    );
    assert_eq!(shortcut_lnk_path(None), Err("APPDATA not set".to_owned()));
    assert!(!start_menu_shortcut_exists(false, true));
}

#[test]
fn self_delete_command_pings_then_removes_dir_quoted() {
    let command = self_delete_command("C:\\Programs\\Amanuensis");
    assert!(command.starts_with("ping -n 2 127.0.0.1 > NUL & rd /s /q \""));
    assert!(command.ends_with("\\Programs\\Amanuensis\""));
}

#[test]
fn wide_appends_nul_terminator() {
    assert_eq!(wide("ab"), vec![b'a' as u16, b'b' as u16, 0]);
    assert_eq!(wide("😀"), vec![0xd83d, 0xde00, 0]);
}

#[test]
fn version_arrow_shows_both_versions_when_different() {
    assert_eq!(version_arrow("1.0.0", "1.0.1"), "v1.0.0 \u{2192} v1.0.1");
}

#[test]
fn version_arrow_collapses_equal_or_unknown_installed_version() {
    assert_eq!(version_arrow("1.0.1", "1.0.1"), "v1.0.1");
    assert_eq!(version_arrow("", "1.0.1"), "v1.0.1");
}

fn fraction(completed: usize, finished_ok: bool) -> f32 {
    let (done, steps) = progress_fraction(completed, finished_ok);
    done as f32 / steps as f32
}

#[test]
fn progress_fraction_tracks_completed_over_all_steps() {
    let total = ALL_STEPS.len();
    assert_eq!(fraction(0, false), 0.0);
    assert_eq!(fraction(total - 1, false), (total - 1) as f32 / total as f32);
    assert_eq!(fraction(3, true), 1.0);
}

#[test]
fn progress_fraction_clamps_out_of_range_counts() {
    assert_eq!(fraction(99, false), 1.0);
}

#[test]
fn signed_words_decode_screen_coordinates_with_negatives() {
    let x = -4_i32;
    let y = -9_i32;
    let lparam = ((y as u16 as isize) << 16) | (x as u16 as isize);
    assert_eq!(signed_loword(lparam as u64), x);
    assert_eq!(signed_hiword(lparam as u64), y);
}

fn options(start_menu: bool, autostart: bool) -> InstallOptions {
    InstallOptions { dir: "C:\\A".to_owned(), start_menu, autostart }
}

fn tasks(mut plan: amanuensis::installer::ops::Plan) -> Vec<Task> {
    let mut done = Vec::new();
    loop {
        match plan.next(Ok(())) {
            Next::Part(Part::Do(task)) => done.push(task),
            Next::Part(Part::Announce(_, _)) => {}
            Next::Done => return done,
            Next::Failed(_) => panic!("failed"),
        }
    }
}

#[test]
fn installations_do_what_was_chosen() {
    assert_eq!(
        tasks(run_install(&options(true, false))),
        vec![
            Task::CloseRunning,
            Task::CopySelf,
            Task::AddShortcut,
            Task::Register,
            Task::WriteMarker,
            Task::Launch,
        ]
    );
    assert_eq!(
        tasks(run_update(&options(false, true))),
        vec![
            Task::CloseRunning,
            Task::CopySelf,
            Task::AddAutostart,
            Task::Register,
            Task::WriteMarker,
            Task::Launch,
        ]
    );
    assert_eq!(
        tasks(run_uninstall()),
        vec![
            Task::CloseRunning,
            Task::RemoveShortcut,
            Task::RemoveAutostart,
            Task::RemoveRegistration,
            Task::DeleteFiles,
        ]
    );
}

#[test]
fn a_failed_part_ends_a_plan() {
    let mut plan = run_install(&options(true, true));
    assert!(matches!(
        plan.next(Ok(())),
        Next::Part(Part::Announce(Step::CloseRunning, "Closing Amanuensis…"))
    ));
    assert!(matches!(plan.next(Err("no".to_owned())), Next::Failed(_)));
    assert!(matches!(plan.next(Ok(())), Next::Done));
}

#[test]
fn scripts_quote_their_paths() {
    assert_eq!(
        shortcut_script("C:\\a'b.lnk", "C:\\x.exe", "C:\\"),
        "$s = (New-Object -ComObject WScript.Shell).CreateShortcut('C:\\a''b.lnk'); $s.TargetPath = 'C:\\x.exe'; $s.WorkingDirectory = 'C:\\'; $s.Description = 'Amanuensis'; $s.Save()"
    );
    assert_eq!(
        folder_script(-7),
        "$f = (New-Object -ComObject Shell.Application).BrowseForFolder(-7, 'Select folder', 0x0051); if ($f) { Write-Output $f.Self.Path }"
    );
    assert_eq!(pick_folder(true, " C:\\x \n"), Some("C:\\x".to_owned()));
    assert_eq!(pick_folder(true, " \n"), None);
    assert_eq!(pick_folder(false, "C:\\x"), None);
    assert_eq!(powershell_result(true, None, ""), Ok(()));
    assert_eq!(
        powershell_result(false, None, " bad\n"),
        Err("powershell failed (-1): bad".to_owned())
    );
}

#[test]
fn shortcuts_are_made_and_removed() {
    assert_eq!(set_start_menu_shortcut("l", true, Removal::Failed, true, ""), Ok(()));
    assert_eq!(
        set_start_menu_shortcut("l", true, Removal::Removed, false, ""),
        Err("shortcut did not appear at l".to_owned())
    );
    assert_eq!(set_start_menu_shortcut("l", false, Removal::Missing, false, ""), Ok(()));
    assert_eq!(
        set_start_menu_shortcut("l", false, Removal::Failed, false, "denied"),
        Err("removing l: denied".to_owned())
    );
}

#[test]
fn the_registry_describes_the_installation() {
    let values = uninstall_registry_values("C:\\A\\a.exe", "C:\\A");
    assert_eq!(values.len(), 7);
    assert_eq!(values[1], ("DisplayVersion", RegData::Text(APP_VERSION.to_owned())));
    assert_eq!(values[3], ("InstallLocation", RegData::Text("C:\\A".to_owned())));
    assert_eq!(
        values[4],
        (
            "UninstallString",
            RegData::Text("\"C:\\A\\a.exe\" --uninstall".to_owned())
        )
    );
    assert_eq!(values[6], ("NoRepair", RegData::Number(1)));
    assert!(autostart_enabled(Some("")));
    assert!(!autostart_enabled(None));
    assert_eq!(set_autostart("e", true), Some("\"e\"".to_owned()));
    assert_eq!(set_autostart("e", false), None);
}

#[test]
fn registry_calls_are_told_by_their_status() {
    assert!(matches!(reg_opened("k", 0, false), Opened::Write));
    assert!(matches!(reg_opened("k", 2, false), Opened::Create));
    match reg_opened("k", 2, true) {
        Opened::Failed(text) => assert_eq!(text, "opening k: win32 error 2"),
        _ => panic!("opened"),
    }
    assert_eq!(reg_set("k", "v", 0), Ok(()));
    assert_eq!(reg_set("k", "v", 5), Err("setting k\\v: win32 error 5".to_owned()));
    assert_eq!(reg_delete_value("k", "v", 2, 9), Ok(()));
    assert_eq!(reg_delete_value("k", "v", 0, 2), Ok(()));
    assert_eq!(
        reg_delete_value("k", "v", 5, 0),
        Err("opening k: win32 error 5".to_owned())
    );
    assert_eq!(
        reg_delete_value("k", "v", 0, 5),
        Err("deleting k\\v: win32 error 5".to_owned())
    );
    assert_eq!(reg_delete_tree("k", 2), Ok(()));
    assert_eq!(reg_delete_tree("k", 5), Err("deleting key k: win32 error 5".to_owned()));
    assert_eq!(reg_created("k", 0), Ok(()));
    assert_eq!(reg_created("k", 5), Err("creating k: win32 error 5".to_owned()));
}

#[test]
fn keys_are_made_from_the_root_on() {
    assert_eq!(create_key_chain("A\\B\\C"), vec!["A", "A\\B", "A\\B\\C"]);
    assert_eq!(create_key_chain("A"), vec!["A"]);
    assert_eq!(create_key_chain("\\A"), vec!["", "A"]);
}

#[test]
fn stored_texts_are_read_back() {
    for text in ["", "C:\\Apps", "naïve 😀"] {
        assert_eq!(read_sz(&sz_bytes(text)), Some(text.to_owned()));
    }
    assert_eq!(read_sz(&[65, 0, 66, 0, 0, 0, 0, 0, 7]), Some("AB".to_owned()));
    assert_eq!(read_sz(&[0x00, 0xd8]), None);
    assert_eq!(sz_size(0, 1, 4), Some(4));
    assert_eq!(sz_size(234, 1, 4), Some(4));
    assert_eq!(sz_size(0, 4, 4), None);
    assert_eq!(sz_size(0, 1, 0), None);
    assert_eq!(sz_size(5, 1, 4), None);
}

#[test]
fn only_a_running_app_is_closed() {
    let mut title = wide("amanuensis-window");
    assert!(is_app_window(&title));
    title.push(0);
    assert!(is_app_window(&title));
    assert!(!is_app_window(&wide("Amanuensis Setup")));
    assert!(!is_app_window(&window_title_utf16()));
    assert!(may_terminate(4, 5, true, false));
    assert!(!may_terminate(5, 5, true, false));
    assert!(!may_terminate(0, 5, true, false));
    assert!(!may_terminate(4, 5, false, false));
    assert!(!may_terminate(4, 5, true, true));
    assert!(is_this_installer(Some("C:\\A.EXE"), Some("c:\\a.exe")));
    assert!(!is_this_installer(None, Some("c:\\a.exe")));
    assert!(still_closing(10, 11, true));
    assert!(!still_closing(10, 11, false));
    assert!(!still_closing(0, 5_000_000_000, true));
}

#[test]
fn copying_is_tried_while_the_file_is_in_use() {
    assert!(matches!(copy_self_to_dir(0, Copied::Done, "t", ""), CopyStep::Done));
    assert!(matches!(
        copy_self_to_dir(0, Copied::Code(32), "t", "busy"),
        CopyStep::Retry { attempt: 1 }
    ));
    match copy_self_to_dir(7, Copied::Denied, "t", "busy") {
        CopyStep::Failed(text) => assert_eq!(text, "t still locked after 8 attempts: busy"),
        _ => panic!("went on"),
    }
    match copy_self_to_dir(0, Copied::Code(5), "t", "gone") {
        CopyStep::Failed(text) => assert_eq!(text, "copying to t: gone"),
        _ => panic!("went on"),
    }
}

#[test]
fn settings_are_kept_on_request() {
    assert_eq!(data_dir(true, Some("C:\\R")), None);
    assert_eq!(data_dir(false, None), None);
    assert_eq!(data_dir(false, Some("C:\\R")), Some("C:\\R\\amanuensis".to_owned()));
    assert_eq!(delete_install_data(Removal::Missing, "d", ""), Ok(()));
    assert_eq!(
        delete_install_data(Removal::Failed, "d", "no"),
        Err("removing d: no".to_owned())
    );
}

#[test]
fn an_installation_is_known_by_marker_or_registry() {
    let dir = || "C:\\A".to_owned();
    assert_eq!(query_installed(dir(), None, false, Some("1".to_owned())), None);
    let marked = query_installed(dir(), Some("2".to_owned()), true, Some("1".to_owned())).unwrap();
    assert_eq!(marked.version, "2");
    let registered = query_installed(dir(), None, true, Some("1".to_owned())).unwrap();
    assert_eq!(registered.version, "1");
    assert_eq!(query_installed(dir(), None, true, None).unwrap().version, "");
    assert_eq!(install_location(Some("r".to_owned()), true, dir()), "r");
    assert_eq!(install_location(Some("r".to_owned()), false, dir()), "C:\\A");
    assert_eq!(installed_exe("C:\\A"), "C:\\A\\amanuensis.exe");
    assert!(uninstall_requested(&["x".to_owned(), "--uninstall".to_owned()]));
    assert!(!uninstall_requested(&["x".to_owned()]));
}

fn machine() -> Machine {
    Machine {
        default_dir: "C:\\D".to_owned(),
        location: "C:\\L".to_owned(),
        has_shortcut: false,
        autostarts: true,
    }
}

#[test]
fn the_installer_goes_from_choosing_to_success() {
    let mut app = InstallerApp::for_mode(LaunchMode::Install, machine());
    assert_eq!(app.dir, "C:\\D");
    assert!(app.start_menu && !app.autostart);
    match app.render() {
        InstallerPage::Intro(page) => {
            assert_eq!(page.button, "Install");
            assert!(page.browsable && page.versions.is_none());
        }
        _ => panic!("wrong page"),
    }
    assert!(app.request_close());
    app.handle_event(WorkerEvent::FolderPicked(Some("C:\\E".to_owned())), 0);
    assert_eq!(app.options().dir, "C:\\E");
    assert!(!app.start_pipeline(false));
    assert_eq!(app.error.as_deref(), Some("installer window not found"));
    assert!(app.start_pipeline(true));
    assert_eq!(app.stage, Stage::Progress);
    assert!(!app.request_close());
    app.handle_event(WorkerEvent::StepStarted { message: "one".to_owned() }, 0);
    app.handle_event(WorkerEvent::StepStarted { message: "two".to_owned() }, 0);
    assert_eq!(app.completed, vec!["one"]);
    app.handle_event(WorkerEvent::Finished(Ok(())), 10);
    assert_eq!(app.completed, vec!["one", "two"]);
    assert_eq!(app.active.as_deref(), Some("Launching Amanuensis…"));
    assert!(!app.poll_quit(1_200_000_009));
    assert!(app.poll_quit(1_200_000_010));
    assert!(!app.poll_quit(2_000_000_000));
    match app.render() {
        InstallerPage::Progress(page) => {
            assert_eq!((page.done, page.steps), (6, 6));
            assert!(!page.buttons);
        }
        _ => panic!("wrong page"),
    }
}

#[test]
fn the_installer_shows_failures_and_versions() {
    let info = InstalledInfo { dir: "C:\\O".to_owned(), version: "0.9".to_owned() };
    let mut app = InstallerApp::for_mode(LaunchMode::Update(info), machine());
    assert!(!app.start_menu && app.autostart);
    match app.render() {
        InstallerPage::Intro(page) => {
            assert_eq!(page.button, "Update");
            assert_eq!(page.versions, Some(version_arrow("0.9", APP_VERSION)));
            assert!(!page.browsable);
        }
        _ => panic!("wrong page"),
    }
    app.toggle_start_menu();
    app.toggle_autostart();
    assert!(app.start_menu && !app.autostart);
    app.start_pipeline(true);
    app.handle_event(WorkerEvent::Finished(Err("boom".to_owned())), 0);
    match app.render() {
        InstallerPage::Progress(page) => {
            assert_eq!(page.error.as_deref(), Some("Something went wrong: boom"));
            assert!(page.buttons);
            assert_eq!(page.done, 0);
        }
        _ => panic!("wrong page"),
    }
    assert!(app.retry_clicked(true));
    assert!(app.error.is_none());
    let mut gone = InstallerApp::for_mode(LaunchMode::Uninstall, machine());
    gone.toggle_keep_data();
    match gone.render() {
        InstallerPage::Confirm(page) => {
            assert_eq!(page.place, "Installed at C:\\L");
            assert!(!page.keep_data);
        }
        _ => panic!("wrong page"),
    }
}

#[test]
fn the_window_is_moved_by_its_strip() {
    let at = |x: i32, y: i32| ((y as u16 as u64) << 16) | (x as u16 as u64);
    assert!(hit_in_drag_strip(at(10, 5), 0, 0, 100));
    assert!(hit_in_drag_strip(at(10, 44), 0, 0, 100));
    assert!(!hit_in_drag_strip(at(10, 45), 0, 0, 100));
    assert!(!hit_in_drag_strip(at(100, 5), 0, 0, 100));
    assert!(hit_in_drag_strip(at(-4, -9), -10, -10, 0));
}
