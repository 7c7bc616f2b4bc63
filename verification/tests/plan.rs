use shortcuts::model::{IconRef, PlanError, Shortcut};
use shortcuts::plan::{
    link_in, link_name, needs_working_dir, resolve_target, send_to_link, send_to_shortcut,
    start_menu_folder, start_menu_link, start_menu_shortcut, target_from, LINK_EXTENSION,
    SEND_TO_LINK, SHORTCUTS_DIR,
};
use std::path::MAIN_SEPARATOR;

/// A path that is absolute where the tests run.
fn absolute_exe() -> String {
    if MAIN_SEPARATOR == '\\' {
        String::from("C:\\tools\\app.exe")
    } else {
        String::from("/tools/app.exe")
    }
}

#[test]
fn fixed_names() {
    assert_eq!(SHORTCUTS_DIR, "Shortcuts");
    assert_eq!(LINK_EXTENSION, "lnk");
    assert_eq!(SEND_TO_LINK, "Start (create shortcut).lnk");
}

#[test]
fn shortcuts_folder_lies_under_programs() {
    assert_eq!(start_menu_folder("menu/Programs"), format!("menu/Programs{}Shortcuts", MAIN_SEPARATOR));
}

#[test]
fn shortcuts_folder_adds_no_second_separator() {
    assert_eq!(start_menu_folder("menu/Programs/"), "menu/Programs/Shortcuts");
}

#[test]
fn link_name_replaces_the_extension() {
    assert_eq!(link_name("app.exe"), "app.lnk");
}

#[test]
fn link_name_adds_a_missing_extension() {
    assert_eq!(link_name("tool"), "tool.lnk");
}

#[test]
fn link_name_replaces_the_last_extension_only() {
    assert_eq!(link_name("archive.tar.gz"), "archive.tar.lnk");
}

#[test]
fn link_name_keeps_a_leading_dot() {
    assert_eq!(link_name(".profile"), ".profile.lnk");
}

#[test]
fn link_is_named_after_the_executable() {
    assert_eq!(start_menu_link("menu/", "bin/app.exe"), Ok(String::from("menu/app.lnk")));
    assert_eq!(
        start_menu_link("menu", "app.exe"),
        Ok(format!("menu{}app.lnk", MAIN_SEPARATOR))
    );
}

#[test]
fn link_ignores_a_trailing_separator() {
    assert_eq!(start_menu_link("menu/", "bin/app.exe/"), Ok(String::from("menu/app.lnk")));
}

#[test]
fn path_without_file_name_gets_no_link() {
    assert_eq!(start_menu_link("menu/", ".."), Err(PlanError::NoFileName));
    assert_eq!(start_menu_link("menu/", "bin/.."), Err(PlanError::NoFileName));
    assert_eq!(start_menu_link("menu/", "/"), Err(PlanError::NoFileName));
    assert_eq!(start_menu_link("menu/", ""), Err(PlanError::NoFileName));
}

#[test]
fn link_from_a_known_file_name() {
    assert_eq!(link_in("menu/", Some(String::from("app.exe"))), Ok(String::from("menu/app.lnk")));
    assert_eq!(link_in("menu/", None), Err(PlanError::NoFileName));
}

#[test]
fn relative_executable_needs_the_working_dir() {
    assert!(needs_working_dir("bin/app.exe"));
    assert!(needs_working_dir("app.exe"));
    assert!(needs_working_dir(""));
}

#[test]
fn absolute_executable_needs_no_working_dir() {
    assert!(!needs_working_dir(&absolute_exe()));
}

#[test]
fn absolute_target_is_kept() {
    assert_eq!(resolve_target(absolute_exe(), None), Ok(absolute_exe()));
    assert_eq!(resolve_target(absolute_exe(), Some("work")), Ok(absolute_exe()));
}

#[test]
fn relative_target_is_resolved_against_the_working_dir() {
    assert_eq!(
        resolve_target(String::from("bin/app.exe"), Some("work/")),
        Ok(String::from("work/bin/app.exe"))
    );
    assert_eq!(
        resolve_target(String::from("app.exe"), Some("work")),
        Ok(format!("work{}app.exe", MAIN_SEPARATOR))
    );
}

#[test]
fn relative_target_fails_without_the_working_dir() {
    assert_eq!(resolve_target(String::from("bin/app.exe"), None), Err(PlanError::NoWorkingDir));
}

#[test]
fn target_follows_what_the_caller_knows() {
    assert_eq!(target_from(String::from("app.exe"), true, None), Ok(String::from("app.exe")));
    assert_eq!(
        target_from(String::from("app.exe"), true, Some("work/")),
        Ok(String::from("app.exe"))
    );
    assert_eq!(
        target_from(String::from("app.exe"), false, Some("work/")),
        Ok(String::from("work/app.exe"))
    );
    assert_eq!(target_from(String::from("app.exe"), false, None), Err(PlanError::NoWorkingDir));
}

#[test]
fn start_menu_shortcut_for_a_relative_executable() {
    assert_eq!(
        start_menu_shortcut("menu/Shortcuts/", String::from("bin/app.exe"), Some("work/")),
        Ok(Shortcut {
            target: String::from("work/bin/app.exe"),
            link: String::from("menu/Shortcuts/app.lnk"),
            icon: None,
        })
    );
}

#[test]
fn start_menu_shortcut_for_an_absolute_executable() {
    assert_eq!(
        start_menu_shortcut("menu/Shortcuts/", absolute_exe(), None),
        Ok(Shortcut {
            target: absolute_exe(),
            link: String::from("menu/Shortcuts/app.lnk"),
            icon: None,
        })
    );
}

#[test]
fn start_menu_shortcut_needs_a_file_name() {
    assert_eq!(
        start_menu_shortcut("menu/Shortcuts/", String::from("bin/.."), Some("work/")),
        Err(PlanError::NoFileName)
    );
}

#[test]
fn start_menu_shortcut_needs_the_working_dir_for_a_relative_executable() {
    assert_eq!(
        start_menu_shortcut("menu/Shortcuts/", String::from("bin/app.exe"), None),
        Err(PlanError::NoWorkingDir)
    );
}

#[test]
fn missing_file_name_is_reported_before_missing_working_dir() {
    assert_eq!(
        start_menu_shortcut("menu/Shortcuts/", String::from(".."), None),
        Err(PlanError::NoFileName)
    );
}

#[test]
fn send_to_link_has_a_fixed_name() {
    assert_eq!(send_to_link("SendTo/"), "SendTo/Start (create shortcut).lnk");
    assert_eq!(
        send_to_link("SendTo"),
        format!("SendTo{}Start (create shortcut).lnk", MAIN_SEPARATOR)
    );
}

#[test]
fn send_to_shortcut_points_at_the_program_and_shows_the_icon() {
    let buffer: [u16; 4] = [0x61, 0x2e, 0x64, 0];
    let icon = IconRef::from_buffer(&buffer, 29);
    let planned = send_to_shortcut("SendTo/", String::from("bin/start.exe"), icon.clone());
    assert_eq!(planned.target, "bin/start.exe");
    assert_eq!(planned.link, "SendTo/Start (create shortcut).lnk");
    assert_eq!(planned.icon, Some(icon));
}

#[test]
fn send_to_shortcut_keeps_a_relative_program_path() {
    let icon = IconRef::from_buffer(&[0x61, 0], 0);
    let planned = send_to_shortcut("SendTo/", String::from("start.exe"), icon);
    assert_eq!(planned.target, "start.exe");
}
