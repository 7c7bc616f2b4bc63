use shortcuts::command::{dispatch, Command};
use shortcuts::model::FolderId;

#[test]
fn no_argument_installs_into_send_to() {
    assert_eq!(dispatch(false, None), Command::InstallSendTo);
}

#[test]
fn an_argument_names_the_executable() {
    assert_eq!(
        dispatch(false, Some(String::from("tools/app.exe"))),
        Command::CreateStartMenu { exe: String::from("tools/app.exe") }
    );
}

#[test]
fn an_empty_argument_is_still_an_executable() {
    assert_eq!(dispatch(false, Some(String::new())), Command::CreateStartMenu { exe: String::new() });
}

#[test]
fn send_to_install_goes_under_send_to() {
    assert_eq!(Command::InstallSendTo.folder(), Some(FolderId::SendTo));
}

#[test]
fn start_menu_shortcut_goes_under_programs() {
    let command = dispatch(false, Some(String::from("app.exe")));
    assert_eq!(command.folder(), Some(FolderId::Programs));
}

#[test]
fn only_the_send_to_shortcut_shows_the_link_icon() {
    assert!(Command::InstallSendTo.shows_link_icon());
    assert!(!dispatch(false, Some(String::from("app.exe"))).shows_link_icon());
}

#[test]
fn uninstall_goes_before_the_argument() {
    assert_eq!(dispatch(true, None), Command::Uninstall);
    assert_eq!(dispatch(true, Some(String::from("app.exe"))), Command::Uninstall);
}

#[test]
fn uninstall_needs_no_folder_and_no_icon() {
    assert_eq!(Command::Uninstall.folder(), None);
    assert!(!Command::Uninstall.shows_link_icon());
}
