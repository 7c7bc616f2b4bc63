//! From the command line to what is asked for.

use vstd::prelude::*;
use crate::model::FolderId;

verus! {

/// What the command line asks for.
#[derive(Clone, Debug, PartialEq, Eq)]
pub enum Command {
    /// Put a shortcut to the running program into Explorer's "Send to" menu.
    InstallSendTo,
    /// Put a shortcut to `exe` into the Start Menu.
    CreateStartMenu { exe: String },
    /// Take the installed shortcut away again. Nothing is done for it yet: no
    /// folder is looked up and no shortcut is planned.
    Uninstall,
}

/// What a [`Command`] stands for.
pub enum CommandView {
    InstallSendTo,
    CreateStartMenu { exe: Seq<char> },
    Uninstall,
}

impl View for Command {
    type V = CommandView;

    open spec fn view(&self) -> CommandView {
        match *self {
            Command::InstallSendTo => CommandView::InstallSendTo,
            Command::CreateStartMenu { exe } => CommandView::CreateStartMenu { exe: exe@ },
            Command::Uninstall => CommandView::Uninstall,
        }
    }
}

impl CommandView {
    /// The known folder that the shortcut goes under, where there is a
    /// shortcut.
    pub open spec fn folder(self) -> Option<FolderId> {
        match self {
            CommandView::InstallSendTo => Some(FolderId::SendTo),
            CommandView::CreateStartMenu { .. } => Some(FolderId::Programs),
            CommandView::Uninstall => None,
        }
    }

    /// Whether the shortcut shows the shell's stock "link" icon instead of
    /// its target's own.
    pub open spec fn shows_link_icon(self) -> bool {
        self is InstallSendTo
    }
}

/// The command that a command line stands for: `uninstall` says whether
/// uninstalling was asked for, `exe` is the optional argument. Uninstalling
/// goes before everything else.
pub open spec fn spec_dispatch(uninstall: bool, exe: Option<Seq<char>>) -> CommandView {
    if uninstall {
        CommandView::Uninstall
    } else {
        match exe {
            None => CommandView::InstallSendTo,
            Some(exe) => CommandView::CreateStartMenu { exe },
        }
    }
}

/// Every command but uninstalling needs its known folder, and only the
/// shortcut in the "Send to" folder shows the stock "link" icon.
pub proof fn dispatch_outcomes(uninstall: bool, exe: Option<Seq<char>>)
    ensures
        spec_dispatch(uninstall, exe).folder() is None <==> uninstall,
        spec_dispatch(uninstall, exe).shows_link_icon() <==> spec_dispatch(
            uninstall,
            exe,
        ).folder() == Some(FolderId::SendTo),
        spec_dispatch(uninstall, exe) matches CommandView::CreateStartMenu { exe: named }
            ==> exe == Some(named),
{
}

/// Reads the command line. Where uninstalling is asked for, that is the
/// command, whatever else was given. Otherwise, without an argument the
/// program installs itself into "Send to", and with one the argument names
/// the executable that gets a Start Menu shortcut.
pub fn dispatch(uninstall: bool, exe: Option<String>) -> (command: Command)
    ensures
        command@ == spec_dispatch(
            uninstall,
            match exe {
                Some(exe) => Some(exe@),
                None => None,
            },
        ),
{
    if uninstall {
        Command::Uninstall
    } else {
        match exe {
            None => Command::InstallSendTo,
            Some(exe) => Command::CreateStartMenu { exe },
        }
    }
}

impl Command {
    /// The known folder to resolve for this command, if it needs one.
    pub fn folder(&self) -> (id: Option<FolderId>)
        ensures
            id == self@.folder(),
    {
        match self {
            Command::InstallSendTo => Some(FolderId::SendTo),
            Command::CreateStartMenu { .. } => Some(FolderId::Programs),
            Command::Uninstall => None,
        }
    }

    /// Whether the shortcut for this command shows the stock "link" icon, so
    /// that the caller has to look that icon up.
    pub fn shows_link_icon(&self) -> (shows: bool)
        ensures
            shows == self@.shows_link_icon(),
    {
        match self {
            Command::InstallSendTo => true,
            Command::CreateStartMenu { .. } => false,
            Command::Uninstall => false,
        }
    }
}

} // verus!
