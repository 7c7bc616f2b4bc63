//! The values a plan is made of: the known folders, a reference to an icon,
//! and the description of one shortcut.

use vstd::prelude::*;
use crate::wide::{terminated, terminated_text_reads_back, text, text_of, zero_free};

verus! {

/// A folder of the shell that the planner asks for by name.
#[derive(Clone, Copy, Debug, PartialEq, Eq, Structural)]
pub enum FolderId {
    /// The user's Start Menu "Programs" folder.
    Programs,
    /// The folder behind Explorer's "Send to" menu.
    SendTo,
}

/// Why no shortcut can be planned.
#[derive(Clone, Copy, Debug, PartialEq, Eq, Structural)]
pub enum PlanError {
    /// The executable's path names no file: it is empty, or ends in the root
    /// or in `..`.
    NoFileName,
    /// The executable's path is relative and no working directory was given
    /// to resolve it against.
    NoWorkingDir,
}

/// An icon inside a file: the file's path as UTF-16 units, and the icon's
/// index in that file. The path holds no zero unit.
#[derive(Debug, PartialEq, Eq)]
pub struct IconRef {
    path: Vec<u16>,
    index: i32,
}

/// What an [`IconRef`] stands for.
pub struct IconRefView {
    pub path: Seq<u16>,
    pub index: int,
}

impl View for IconRef {
    type V = IconRefView;

    closed spec fn view(&self) -> IconRefView {
        IconRefView { path: self.path@, index: self.index as int }
    }
}

impl Clone for IconRef {
    fn clone(&self) -> (copy: IconRef)
        ensures
            copy@ == self@,
    {
        proof {
            use_type_invariant(self);
        }
        let path = self.path.clone();
        assert(path@ =~= self.path@);
        IconRef { path, index: self.index }
    }
}

impl IconRef {
    #[verifier::type_invariant]
    spec fn path_is_zero_free(&self) -> bool {
        zero_free(self.path@)
    }

    /// The icon at `index` in the file whose path is the text in `buffer`.
    pub fn from_buffer(buffer: &[u16], index: i32) -> (icon: IconRef)
        ensures
            icon@ == (IconRefView { path: text_of(buffer@), index: index as int }),
    {
        IconRef { path: text(buffer), index }
    }

    /// The path of the file that holds the icon.
    pub fn path(&self) -> (path: &Vec<u16>)
        ensures
            path@ == self@.path,
            zero_free(path@),
    {
        proof {
            use_type_invariant(self);
        }
        &self.path
    }

    /// The path with a zero at its end, as the shell takes it: read as text,
    /// the buffer gives the path back.
    pub fn terminated_path(&self) -> (buffer: Vec<u16>)
        ensures
            buffer@ == self@.path.push(0),
            text_of(buffer@) == self@.path,
    {
        proof {
            use_type_invariant(self);
            terminated_text_reads_back(self.path@, Seq::empty());
            assert(self.path@.push(0) + Seq::<u16>::empty() =~= self.path@.push(0));
        }
        terminated(&self.path)
    }

    /// The icon's index in its file.
    pub fn index(&self) -> (index: i32)
        ensures
            index as int == self@.index,
    {
        self.index
    }
}

/// One shortcut to write: the link file, what it points at, and the icon it
/// shows. Without an icon the shell shows the target's own.
#[derive(Clone, Debug, PartialEq, Eq)]
pub struct Shortcut {
    pub target: String,
    pub link: String,
    pub icon: Option<IconRef>,
}

/// What a [`Shortcut`] stands for.
pub struct ShortcutView {
    pub target: Seq<char>,
    pub link: Seq<char>,
    pub icon: Option<IconRefView>,
}

impl View for Shortcut {
    type V = ShortcutView;

    open spec fn view(&self) -> ShortcutView {
        ShortcutView {
            target: self.target@,
            link: self.link@,
            icon: match self.icon {
                Some(icon) => Some(icon@),
                None => None,
            },
        }
    }
}

} // verus!
