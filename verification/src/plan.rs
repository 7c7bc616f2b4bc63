//! Where a shortcut goes and what it points at.
//!
//! A Start Menu shortcut lies in the folder `Shortcuts` under the user's
//! "Programs" folder, is named after the executable with `lnk` for its
//! extension, and points at the executable: an absolute path is kept, a
//! relative one is resolved against the working directory. The "Send to" shortcut has
//! a fixed name, points at the running program and shows the stock "link"
//! icon.

use vstd::prelude::*;
use crate::model::{IconRef, PlanError, Shortcut, ShortcutView};
use crate::paths::{
    file_name, is_absolute, join, path_file_name, path_is_absolute, path_joined,
    path_with_extension, separator_free, with_extension,
};

verus! {

/// The folder under "Programs" that holds the shortcuts.
pub const SHORTCUTS_DIR: &'static str = "Shortcuts";

/// The extension of a link file.
pub const LINK_EXTENSION: &'static str = "lnk";

/// The name of the link file in the "Send to" folder.
pub const SEND_TO_LINK: &'static str = "Start (create shortcut).lnk";

/// The text of an optional string.
pub open spec fn text_view(text: Option<&str>) -> Option<Seq<char>> {
    match text {
        Some(text) => Some(text@),
        None => None,
    }
}

/// The text of an optional owned string.
pub open spec fn string_view(text: Option<String>) -> Option<Seq<char>> {
    match text {
        Some(text) => Some(text@),
        None => None,
    }
}

/// The text of a path that was planned, or why none was.
pub open spec fn path_result(result: Result<String, PlanError>) -> Result<Seq<char>, PlanError> {
    match result {
        Ok(path) => Ok(path@),
        Err(error) => Err(error),
    }
}

/// The shortcut that was planned, or why none was.
pub open spec fn shortcut_result(result: Result<Shortcut, PlanError>) -> Result<
    ShortcutView,
    PlanError,
> {
    match result {
        Ok(shortcut) => Ok(shortcut@),
        Err(error) => Err(error),
    }
}

/// The link file in `folder` for an executable whose path has the file name
/// `file_name`: that name with the link extension in place of its own. A path
/// without a file name gets no link.
pub open spec fn spec_link_in(folder: Seq<char>, file_name: Option<Seq<char>>) -> Result<
    Seq<char>,
    PlanError,
> {
    match file_name {
        None => Err(PlanError::NoFileName),
        Some(name) => Ok(path_joined(folder, path_with_extension(name, LINK_EXTENSION@))),
    }
}

/// The target for the executable `exe`: the path itself where it is absolute,
/// else the path resolved against the working directory, which must then be
/// known.
pub open spec fn spec_target(exe: Seq<char>, absolute: bool, working_dir: Option<Seq<char>>)
    -> Result<Seq<char>, PlanError> {
    if absolute {
        Ok(exe)
    } else {
        match working_dir {
            Some(dir) => Ok(path_joined(dir, exe)),
            None => Err(PlanError::NoWorkingDir),
        }
    }
}

/// The Start Menu shortcut for `exe` in `folder`. The file name is looked at
/// first: a path without one fails so even where the working directory is
/// missing too.
pub open spec fn spec_start_menu_shortcut(
    folder: Seq<char>,
    exe: Seq<char>,
    file_name: Option<Seq<char>>,
    absolute: bool,
    working_dir: Option<Seq<char>>,
) -> Result<ShortcutView, PlanError> {
    match spec_link_in(folder, file_name) {
        Err(error) => Err(error),
        Ok(link) => match spec_target(exe, absolute, working_dir) {
            Err(error) => Err(error),
            Ok(target) => Ok(ShortcutView { target, link, icon: None }),
        },
    }
}

/// A Start Menu shortcut is planned unless the executable's path has no file
/// name, or is relative while the working directory is unknown. The first of
/// the two is the one reported. What is planned has no icon of its own.
pub proof fn start_menu_plan_outcomes(
    folder: Seq<char>,
    exe: Seq<char>,
    file_name: Option<Seq<char>>,
    absolute: bool,
    working_dir: Option<Seq<char>>,
)
    ensures
        ({
            let planned = spec_start_menu_shortcut(folder, exe, file_name, absolute, working_dir);
            &&& planned == Err::<ShortcutView, PlanError>(PlanError::NoFileName)
                <==> file_name is None
            &&& planned == Err::<ShortcutView, PlanError>(PlanError::NoWorkingDir)
                <==> file_name is Some && !absolute && working_dir is None
            &&& planned is Ok <==> file_name is Some && (absolute || working_dir is Some)
            &&& planned matches Ok(shortcut) ==> shortcut.icon is None
            &&& planned matches Ok(shortcut) ==> absolute ==> shortcut.target == exe
        }),
{
}

/// The folder that holds the Start Menu shortcuts, under the "Programs"
/// folder at `programs`.
pub fn start_menu_folder(programs: &str) -> (folder: String)
    ensures
        folder@ == path_joined(programs@, SHORTCUTS_DIR@),
{
    join(programs, SHORTCUTS_DIR)
}

/// The name of the link file for an executable named `file_name`.
pub fn link_name(file_name: &str) -> (name: String)
    ensures
        name@ == path_with_extension(file_name@, LINK_EXTENSION@),
{
    proof {
        reveal_strlit("lnk");
        assert(separator_free(LINK_EXTENSION@));
    }
    with_extension(file_name, LINK_EXTENSION)
}

/// The path of the link file in `folder` for an executable whose path has the
/// file name `file_name`, if it has one.
pub fn link_in(folder: &str, file_name: Option<String>) -> (link: Result<String, PlanError>)
    ensures
        path_result(link) == spec_link_in(folder@, string_view(file_name)),
{
    match file_name {
        None => Err(PlanError::NoFileName),
        Some(name) => {
            let renamed = link_name(name.as_str());
            Ok(join(folder, renamed.as_str()))
        },
    }
}

/// The path of the link file in `folder` for the executable at `exe`.
pub fn start_menu_link(folder: &str, exe: &str) -> (link: Result<String, PlanError>)
    ensures
        path_result(link) == spec_link_in(folder@, path_file_name(exe@)),
{
    link_in(folder, file_name(exe))
}

/// Whether the target for `exe` can only be planned with the working
/// directory at hand: whether `exe` is relative.
pub fn needs_working_dir(exe: &str) -> (needed: bool)
    ensures
        needed == !path_is_absolute(exe@),
{
    !is_absolute(exe)
}

/// The target for `exe`, of which the caller knows whether it is absolute.
pub fn target_from(exe: String, absolute: bool, working_dir: Option<&str>) -> (target: Result<
    String,
    PlanError,
>)
    ensures
        path_result(target) == spec_target(exe@, absolute, text_view(working_dir)),
{
    if absolute {
        Ok(exe)
    } else {
        match working_dir {
            Some(dir) => Ok(join(dir, exe.as_str())),
            None => Err(PlanError::NoWorkingDir),
        }
    }
}

/// The path that a shortcut to `exe` points at: `exe` itself where it is
/// absolute, else `exe` adjoined to the working directory.
pub fn resolve_target(exe: String, working_dir: Option<&str>) -> (target: Result<
    String,
    PlanError,
>)
    ensures
        path_result(target) == spec_target(
            exe@,
            path_is_absolute(exe@),
            text_view(working_dir),
        ),
{
    let absolute = is_absolute(exe.as_str());
    target_from(exe, absolute, working_dir)
}

/// Plans the Start Menu shortcut for the executable at `exe`: a link in
/// `folder`, named after the executable, that points at the executable,
/// resolved against the working directory where its path is relative, and
/// shows the executable's own icon.
pub fn start_menu_shortcut(folder: &str, exe: String, working_dir: Option<&str>) -> (planned:
    Result<Shortcut, PlanError>)
    ensures
        shortcut_result(planned) == spec_start_menu_shortcut(
            folder@,
            exe@,
            path_file_name(exe@),
            path_is_absolute(exe@),
            text_view(working_dir),
        ),
{
    match start_menu_link(folder, exe.as_str()) {
        Err(error) => Err(error),
        Ok(link) => match resolve_target(exe, working_dir) {
            Err(error) => Err(error),
            Ok(target) => Ok(Shortcut { target, link, icon: None }),
        },
    }
}

/// The path of the link file in the "Send to" folder at `send_to`.
pub fn send_to_link(send_to: &str) -> (link: String)
    ensures
        link@ == path_joined(send_to@, SEND_TO_LINK@),
{
    join(send_to, SEND_TO_LINK)
}

/// Plans the "Send to" shortcut: a link of fixed name in the folder at
/// `send_to` that points at `program`, the running program as the system
/// reports it, and shows `icon`.
pub fn send_to_shortcut(send_to: &str, program: String, icon: IconRef) -> (planned: Shortcut)
    ensures
        planned@ == (ShortcutView {
            target: program@,
            link: path_joined(send_to@, SEND_TO_LINK@),
            icon: Some(icon@),
        }),
{
    let link = send_to_link(send_to);
    Shortcut { target: program, link, icon: Some(icon) }
}

} // verus!
