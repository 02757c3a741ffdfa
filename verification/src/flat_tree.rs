//! The flat tree: an ordered sequence of lines, each with its depth and the
//! branch columns open on its left, and the state of the view on it.

use vstd::prelude::*;
use crate::dates::LocalTime;
use crate::file_sizes::Size;

verus! {

/// What a line stands for.
#[derive(Clone, Debug, PartialEq, Eq)]
pub enum LineType {
    File,
    Dir,
    /// A link to a directory, with the name of its target.
    SymLinkToDir(String),
    /// A link to a file, with the name of its target.
    SymLinkToFile(String),
    /// A line that stands for entries left out of the tree.
    Pruning,
}

/// The mathematical value of a [`LineType`].
pub enum LineTypeView {
    File,
    Dir,
    SymLinkToDir(Seq<char>),
    SymLinkToFile(Seq<char>),
    Pruning,
}

impl View for LineType {
    type V = LineTypeView;

    open spec fn view(&self) -> LineTypeView {
        match self {
            LineType::File => LineTypeView::File,
            LineType::Dir => LineTypeView::Dir,
            LineType::SymLinkToDir(target) => LineTypeView::SymLinkToDir(target@),
            LineType::SymLinkToFile(target) => LineTypeView::SymLinkToFile(target@),
            LineType::Pruning => LineTypeView::Pruning,
        }
    }
}

/// The permission bits of an entry and the names of its owner and group.
#[derive(Clone, Debug, PartialEq, Eq)]
pub struct Permissions {
    pub mode: u32,
    pub user: String,
    pub group: String,
}

/// The mathematical value of a [`Permissions`].
pub struct PermissionsView {
    pub mode: u32,
    pub user: Seq<char>,
    pub group: Seq<char>,
}

impl View for Permissions {
    type V = PermissionsView;

    open spec fn view(&self) -> PermissionsView {
        PermissionsView { mode: self.mode, user: self.user@, group: self.group@ }
    }
}

/// One line of the flat tree.
#[derive(Clone, Debug, PartialEq, Eq)]
pub struct TreeLine {
    /// For each depth above the line's own, whether a branch is drawn there.
    pub left_branchs: Vec<bool>,
    /// The depth of the line: 0 for the root.
    pub depth: u16,
    /// The name shown for the line.
    pub name: String,
    /// The full path of the entry.
    pub path: String,
    pub line_type: LineType,
    /// Whether the entry could not be resolved, as a link whose target is gone.
    pub has_error: bool,
    /// The number of children of a directory that the tree does not hold.
    pub unlisted: usize,
    /// The size of the entry with all it contains, where it was computed.
    pub size: Option<Size>,
    /// The permissions of the entry, where they could be read.
    pub permissions: Option<Permissions>,
    /// The time of the last change, where it could be read.
    pub modified: Option<LocalTime>,
    /// The positions, counted in characters, of the characters of `name` that
    /// the search pattern matched.
    pub name_match: Vec<usize>,
}

/// The mathematical value of a [`TreeLine`].
pub struct TreeLineView {
    pub left_branchs: Seq<bool>,
    pub depth: nat,
    pub name: Seq<char>,
    pub path: Seq<char>,
    pub line_type: LineTypeView,
    pub has_error: bool,
    pub unlisted: nat,
    pub size: Option<nat>,
    pub permissions: Option<PermissionsView>,
    pub modified: Option<LocalTime>,
    /// The positions of the characters of `name` that the pattern matched.
    pub name_match: Set<int>,
}

/// The set of the positions that a list of positions holds.
pub open spec fn positions(list: Seq<usize>) -> Set<int> {
    Set::new(|p: int| exists|k: int| 0 <= k < list.len() && list[k] == p)
}

impl View for TreeLine {
    type V = TreeLineView;

    open spec fn view(&self) -> TreeLineView {
        TreeLineView {
            left_branchs: self.left_branchs@,
            depth: self.depth as nat,
            name: self.name@,
            path: self.path@,
            line_type: self.line_type@,
            has_error: self.has_error,
            unlisted: self.unlisted as nat,
            size: match self.size {
                Some(s) => Some(s@),
                None => None,
            },
            permissions: match self.permissions {
                Some(p) => Some(p@),
                None => None,
            },
            modified: self.modified,
            name_match: positions(self.name_match@),
        }
    }
}

impl TreeLineView {
    /// The line has a branch bit for each depth above its own.
    pub open spec fn wf(self) -> bool {
        self.left_branchs.len() >= self.depth
    }

    /// The line is a directory or a link to one.
    pub open spec fn is_dir(self) -> bool {
        self.line_type is Dir || self.line_type is SymLinkToDir
    }

    /// The line can be selected: it stands for an entry, not for omitted ones.
    pub open spec fn is_selectable(self) -> bool {
        !(self.line_type is Pruning)
    }

    /// The entry may be executed by someone.
    pub open spec fn is_exe(self) -> bool {
        match self.permissions {
            Some(p) => p.mode & 0o111 != 0,
            None => false,
        }
    }

    /// The line draws a branch at depth `depth`.
    pub open spec fn claims(self, depth: int) -> bool {
        0 <= depth < self.depth && depth < self.left_branchs.len() && self.left_branchs[depth]
    }
}

impl TreeLine {
    /// The line is a directory or a link to one.
    pub fn is_dir(&self) -> (b: bool)
        ensures
            b == self@.is_dir(),
    {
        match &self.line_type {
            LineType::Dir => true,
            LineType::SymLinkToDir(_) => true,
            _ => false,
        }
    }

    /// The line can be selected.
    pub fn is_selectable(&self) -> (b: bool)
        ensures
            b == self@.is_selectable(),
    {
        match &self.line_type {
            LineType::Pruning => false,
            _ => true,
        }
    }

    /// The entry may be executed by someone.
    pub fn is_exe(&self) -> (b: bool)
        ensures
            b == self@.is_exe(),
    {
        match &self.permissions {
            Some(p) => p.mode & 0o111 != 0,
            None => false,
        }
    }

    /// Whether the pattern matched the character of the name at `position`.
    pub fn is_matched(&self, position: usize) -> (b: bool)
        ensures
            b == self@.name_match.contains(position as int),
    {
        let mut k: usize = 0;
        while k < self.name_match.len()
            invariant
                k <= self.name_match.len(),
                forall|j: int| 0 <= j < k ==> self.name_match[j] != position,
            decreases self.name_match.len() - k,
        {
            if self.name_match[k] == position {
                return true;
            }
            k += 1;
        }
        false
    }
}

/// A choice that may be left to the program.
#[derive(Clone, Copy, Debug, PartialEq, Eq, Structural)]
pub enum OptionBool {
    Auto,
    No,
    Yes,
}

/// What the tree shows, and how.
#[derive(Clone, Debug, PartialEq, Eq)]
pub struct TreeOptions {
    pub show_hidden: bool,
    pub only_folders: bool,
    pub show_sizes: bool,
    pub show_dates: bool,
    pub show_permissions: bool,
    pub respect_git_ignore: OptionBool,
    /// The search pattern in use, if there is one.
    pub pattern: Option<String>,
}

/// The mathematical value of a [`TreeOptions`].
pub struct TreeOptionsView {
    pub show_hidden: bool,
    pub only_folders: bool,
    pub show_sizes: bool,
    pub show_dates: bool,
    pub show_permissions: bool,
    pub respect_git_ignore: OptionBool,
    pub pattern: Option<Seq<char>>,
}

impl View for TreeOptions {
    type V = TreeOptionsView;

    open spec fn view(&self) -> TreeOptionsView {
        TreeOptionsView {
            show_hidden: self.show_hidden,
            only_folders: self.only_folders,
            show_sizes: self.show_sizes,
            show_dates: self.show_dates,
            show_permissions: self.show_permissions,
            respect_git_ignore: self.respect_git_ignore,
            pattern: match self.pattern {
                Some(p) => Some(p@),
                None => None,
            },
        }
    }
}

impl TreeOptions {
    /// The options in force when nothing was asked for: nothing hidden is
    /// shown, no column is added, and the program decides about ignore rules.
    pub fn new() -> (options: TreeOptions)
        ensures
            options@ == (TreeOptionsView {
                show_hidden: false,
                only_folders: false,
                show_sizes: false,
                show_dates: false,
                show_permissions: false,
                respect_git_ignore: OptionBool::Auto,
                pattern: None,
            }),
    {
        TreeOptions {
            show_hidden: false,
            only_folders: false,
            show_sizes: false,
            show_dates: false,
            show_permissions: false,
            respect_git_ignore: OptionBool::Auto,
            pattern: None,
        }
    }
}

/// A flat tree and the state of the view on it.
#[derive(Clone, Debug, PartialEq, Eq)]
pub struct Tree {
    /// The lines, the root first, in the order in which they are shown.
    pub lines: Vec<TreeLine>,
    /// The index of the selected line.
    pub selection: usize,
    pub options: TreeOptions,
    /// The number of lines scrolled out above the window, the root not counted.
    /// A negative scroll scrolls nothing.
    pub scroll: i32,
}

/// The mathematical value of a [`Tree`].
pub struct TreeView {
    pub lines: Seq<TreeLineView>,
    pub selection: nat,
    pub options: TreeOptionsView,
    pub scroll: int,
}

/// The values of a sequence of lines.
pub open spec fn lines_view(lines: Seq<TreeLine>) -> Seq<TreeLineView> {
    lines.map_values(|line: TreeLine| line@)
}

impl View for Tree {
    type V = TreeView;

    open spec fn view(&self) -> TreeView {
        TreeView {
            lines: lines_view(self.lines@),
            selection: self.selection as nat,
            options: self.options@,
            scroll: self.scroll as int,
        }
    }
}

impl TreeView {
    /// Every line has its branch bits.
    pub open spec fn wf(self) -> bool {
        forall|i: int| 0 <= i < self.lines.len() ==> (#[trigger] self.lines[i]).wf()
    }

    /// The number of lines scrolled out above the window: the scroll, and none
    /// where the scroll is negative.
    pub open spec fn scrolled(self) -> int {
        if self.scroll > 0 {
            self.scroll
        } else {
            0
        }
    }

    /// Line `line_index` exists and draws a branch at depth `depth`.
    pub open spec fn has_branch(self, line_index: int, depth: int) -> bool {
        0 <= line_index < self.lines.len() && self.lines[line_index].claims(depth)
    }

    /// The size of the whole tree: that of its root, zero where it is not known.
    pub open spec fn total_size(self) -> nat {
        if self.lines.len() > 0 {
            match self.lines[0].size {
                Some(s) => s,
                None => 0,
            }
        } else {
            0
        }
    }
}

impl Tree {
    /// The tree can be rendered: see [`TreeView::wf`].
    pub open spec fn wf(&self) -> bool {
        self@.wf()
    }

    /// The number of lines scrolled out above the window: the scroll, and none
    /// where the scroll is negative.
    pub fn scrolled(&self) -> (lines: i32)
        ensures
            lines == self@.scrolled(),
    {
        if self.scroll > 0 {
            self.scroll
        } else {
            0
        }
    }

    /// Whether line `line_index` exists and draws a branch at depth `depth`.
    pub fn has_branch(&self, line_index: usize, depth: usize) -> (b: bool)
        ensures
            b == self@.has_branch(line_index as int, depth as int),
    {
        if line_index >= self.lines.len() {
            return false;
        }
        let line = &self.lines[line_index];
        depth < line.depth as usize && depth < line.left_branchs.len() && line.left_branchs[depth]
    }

    /// The size of the whole tree: that of its root, zero where it is not known.
    pub fn total_size(&self) -> (size: Size)
        ensures
            size@ == self@.total_size(),
    {
        if self.lines.len() > 0 {
            match self.lines[0].size {
                Some(s) => s,
                None => Size(0),
            }
        } else {
            Size(0)
        }
    }
}

} // verus!
