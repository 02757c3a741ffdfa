//! From what was given on the command line to the arguments the application
//! starts with.

use vstd::prelude::*;
use vstd::string::StrSliceExecFns;
use std::path::PathBuf;
use crate::flat_tree::{OptionBool, TreeOptions, TreeOptionsView};
use crate::text::{optional_text, same_text};

verus! {

/// A path of the file system. Its value is carried, never looked into.
#[verifier::external_type_specification]
#[verifier::external_body]
pub struct ExPathBuf(PathBuf);

/// The parsed program launch arguments.
pub struct AppLaunchArgs {
    /// What should be the initial root.
    pub root: PathBuf,
    /// Where to write the produced path, if asked for.
    pub file_export_path: Option<String>,
    /// Where to write the produced command, if asked for.
    pub cmd_export_path: Option<String>,
    /// The initial tree options.
    pub tree_options: TreeOptions,
    /// The commands passed as argument, still unparsed.
    pub commands: Option<String>,
    /// Whether installation is asked for.
    pub install: bool,
    /// A height to replace that of the screen.
    pub height: Option<u16>,
    /// Whether to remove all styles, colors included.
    pub no_style: bool,
}

/// What the command line holds, as it was given.
pub struct LaunchFlags {
    pub sizes: bool,
    pub only_folders: bool,
    pub hidden: bool,
    pub dates: bool,
    pub permissions: bool,
    pub install: bool,
    pub no_style: bool,
    /// The answer to whether ignore rules are respected: `auto`, `yes` or `no`.
    pub gitignore: Option<String>,
    pub file_export_path: Option<String>,
    pub cmd_export_path: Option<String>,
    pub commands: Option<String>,
    /// The height asked for, as it was written.
    pub height: Option<String>,
}

/// What becomes of the path given as the root of the tree.
#[derive(Clone, Copy, Debug, PartialEq, Eq, Structural)]
pub enum RootChoice {
    /// The path is a directory: it is the root.
    Given,
    /// The path is no directory: its parent is the root.
    Parent,
    /// Nothing is at the path.
    FileNotFound,
    /// The path is no directory and has no parent.
    NotADirectory,
}

/// A value of the command line that is none of those accepted.
#[derive(Clone, Debug, PartialEq, Eq)]
pub struct ArgParseError {
    /// The value given.
    pub bad: String,
    /// The values accepted.
    pub valid: String,
}

/// The choice that `text` names, if it names one.
pub open spec fn option_bool_of(text: Seq<char>) -> Option<OptionBool> {
    if text == "auto"@ {
        Some(OptionBool::Auto)
    } else if text == "yes"@ {
        Some(OptionBool::Yes)
    } else if text == "no"@ {
        Some(OptionBool::No)
    } else {
        None
    }
}

/// Whether ignore rules are respected, by what the command line holds: as it
/// says where it says so; else not when sizes are shown, since then every file
/// counts; else as the program decides.
pub open spec fn respect_git_ignore_of(sizes: bool, gitignore: Option<Seq<char>>) -> Option<
    OptionBool,
> {
    match gitignore {
        Some(text) => option_bool_of(text),
        None => Some(
            if sizes {
                OptionBool::No
            } else {
                OptionBool::Auto
            },
        ),
    }
}

/// The value of a decimal digit; a negative number for another character.
pub open spec fn digit_value(c: char) -> int {
    if c == '0' {
        0
    } else if c == '1' {
        1
    } else if c == '2' {
        2
    } else if c == '3' {
        3
    } else if c == '4' {
        4
    } else if c == '5' {
        5
    } else if c == '6' {
        6
    } else if c == '7' {
        7
    } else if c == '8' {
        8
    } else if c == '9' {
        9
    } else {
        -1
    }
}

/// Every character of `text` is a decimal digit.
pub open spec fn all_digits(text: Seq<char>) -> bool {
    forall|i: int| 0 <= i < text.len() ==> digit_value(#[trigger] text[i]) >= 0
}

/// The number that the digits of `text` write in decimal.
pub open spec fn decimal_value(text: Seq<char>) -> int
    decreases text.len(),
{
    if text.len() == 0 {
        0
    } else {
        decimal_value(text.drop_last()) * 10 + digit_value(text.last())
    }
}

/// `text` without the plus sign that it may start with.
pub open spec fn unsigned_part(text: Seq<char>) -> Seq<char> {
    if text.len() > 0 && text[0] == '+' {
        text.subrange(1, text.len() as int)
    } else {
        text
    }
}

/// The height that `text` writes: a number of at most 65535, in decimal digits
/// alone or after a plus sign. Any other text gives none.
pub open spec fn height_of(text: Seq<char>) -> Option<u16> {
    let digits = unsigned_part(text);
    if digits.len() > 0 && all_digits(digits) && decimal_value(digits) <= u16::MAX {
        Some(decimal_value(digits) as u16)
    } else {
        None
    }
}

/// The height asked for on the command line, if one was and it can be read.
pub open spec fn height_asked(text: Option<Seq<char>>) -> Option<u16> {
    match text {
        Some(t) => height_of(t),
        None => None,
    }
}

/// The digits of a number never write less than the first of them do.
pub proof fn lemma_prefix_value(text: Seq<char>, n: int)
    requires
        all_digits(text),
        0 <= n <= text.len(),
    ensures
        0 <= decimal_value(text.subrange(0, n)) <= decimal_value(text),
    decreases text.len(),
{
    if n == text.len() {
        assert(text.subrange(0, n) == text);
        if text.len() > 0 {
            lemma_prefix_value(text.drop_last(), n - 1);
        }
    } else {
        lemma_prefix_value(text.drop_last(), n);
        assert(text.drop_last().subrange(0, n) == text.subrange(0, n));
        lemma_prefix_value(text.drop_last(), text.len() - 1);
    }
}

fn digit_of(c: char) -> (d: Option<u32>)
    ensures
        match d {
            Some(v) => v == digit_value(c) && v <= 9,
            None => digit_value(c) < 0,
        },
{
    match c {
        '0' => Some(0),
        '1' => Some(1),
        '2' => Some(2),
        '3' => Some(3),
        '4' => Some(4),
        '5' => Some(5),
        '6' => Some(6),
        '7' => Some(7),
        '8' => Some(8),
        '9' => Some(9),
        _ => None,
    }
}

/// The height that `text` writes, if it writes one.
pub fn parse_height(text: &str) -> (height: Option<u16>)
    ensures
        height == height_of(text@),
{
    let len: usize = text.unicode_len();
    let start: usize = if len > 0 && text.get_char(0) == '+' {
        1
    } else {
        0
    };
    if start == len {
        return None;
    }
    let ghost digits = unsigned_part(text@);
    let mut value: u32 = 0;
    let mut i: usize = start;
    while i < len
        invariant
            start <= i <= len,
            len == text@.len(),
            start < len,
            digits == text@.subrange(start as int, len as int),
            digits == unsigned_part(text@),
            all_digits(digits.subrange(0, i - start)),
            value == decimal_value(digits.subrange(0, i - start)),
            value <= u16::MAX,
        decreases len - i,
    {
        let ghost read = digits.subrange(0, i + 1 - start);
        assert(read.drop_last() == digits.subrange(0, i - start));
        assert(read.last() == text@[i as int]);
        match digit_of(text.get_char(i)) {
            None => {
                return None;
            },
            Some(d) => {
                let next: u32 = value * 10 + d;
                if next > 65535 {
                    proof {
                        if all_digits(digits) {
                            lemma_prefix_value(digits, i + 1 - start);
                        }
                    }
                    return None;
                }
                value = next;
            },
        }
        i += 1;
    }
    assert(digits.subrange(0, len - start) == digits);
    Some(value as u16)
}

/// Whether the user agreed: any answer but `n` and `N` agrees.
pub open spec fn agrees(answer: Seq<char>) -> bool {
    !(answer == "n"@ || answer == "N"@)
}

impl OptionBool {
    /// The choice that `text` names: `auto`, `yes` or `no`. Any other text is
    /// refused, with the three that are accepted.
    pub fn parse(text: &str) -> (choice: Result<OptionBool, ArgParseError>)
        ensures
            match option_bool_of(text@) {
                Some(value) => choice == Ok::<OptionBool, ArgParseError>(value),
                None => choice matches Err(e) && e.bad@ == text@ && e.valid@ == "auto, yes, no"@,
            },
    {
        if same_text(text, "auto") {
            Ok(OptionBool::Auto)
        } else if same_text(text, "yes") {
            Ok(OptionBool::Yes)
        } else if same_text(text, "no") {
            Ok(OptionBool::No)
        } else {
            Err(ArgParseError { bad: text.to_owned(), valid: "auto, yes, no".to_owned() })
        }
    }
}

/// The launch arguments for the root `root` and what the command line holds.
///
/// The options of the tree are the flags of the same name; hidden files are
/// shown only if asked for. The launch is refused when the answer about ignore
/// rules is none of those accepted.
pub fn launch_args(root: PathBuf, flags: LaunchFlags) -> (args: Result<
    AppLaunchArgs,
    ArgParseError,
>)
    ensures
        match respect_git_ignore_of(flags.sizes, optional_text(flags.gitignore)) {
            Some(respect) => args matches Ok(a) && a.root == root && a.tree_options@ == (
            TreeOptionsView {
                show_hidden: flags.hidden,
                only_folders: flags.only_folders,
                show_sizes: flags.sizes,
                show_dates: flags.dates,
                show_permissions: flags.permissions,
                respect_git_ignore: respect,
                pattern: None,
            }) && optional_text(a.file_export_path) == optional_text(flags.file_export_path)
                && optional_text(a.cmd_export_path) == optional_text(flags.cmd_export_path)
                && optional_text(a.commands) == optional_text(flags.commands) && a.install
                == flags.install && a.height == height_asked(optional_text(flags.height))
                && a.no_style == flags.no_style,
            None => args matches Err(e) && Some(e.bad@) == optional_text(flags.gitignore)
                && e.valid@ == "auto, yes, no"@,
        },
{
    let mut tree_options = TreeOptions::new();
    tree_options.show_sizes = flags.sizes;
    if tree_options.show_sizes {
        tree_options.show_hidden = true;
        tree_options.respect_git_ignore = OptionBool::No;
    }
    tree_options.only_folders = flags.only_folders;
    tree_options.show_hidden = flags.hidden;
    tree_options.show_dates = flags.dates;
    tree_options.show_permissions = flags.permissions;
    match &flags.gitignore {
        Some(respect_ignore) => {
            match OptionBool::parse(respect_ignore.as_str()) {
                Ok(respect) => {
                    tree_options.respect_git_ignore = respect;
                },
                Err(e) => {
                    return Err(e);
                },
            }
        },
        None => {},
    }
    let height = match &flags.height {
        Some(text) => parse_height(text.as_str()),
        None => None,
    };
    Ok(
        AppLaunchArgs {
            root,
            file_export_path: flags.file_export_path,
            cmd_export_path: flags.cmd_export_path,
            tree_options,
            commands: flags.commands,
            install: flags.install,
            height,
            no_style: flags.no_style,
        },
    )
}

/// What becomes of the path given as the root, by what the file system says of
/// it: whether something is there, whether it is a directory, and whether the
/// path has a parent.
///
/// A path that leads nowhere is refused. A directory is taken as it is. In
/// place of a file its parent is taken, and a file without a parent is
/// refused.
pub fn choose_root(exists: bool, is_dir: bool, has_parent: bool) -> (choice: RootChoice)
    ensures
        !exists ==> choice == RootChoice::FileNotFound,
        exists && is_dir ==> choice == RootChoice::Given,
        exists && !is_dir && has_parent ==> choice == RootChoice::Parent,
        exists && !is_dir && !has_parent ==> choice == RootChoice::NotADirectory,
{
    if !exists {
        RootChoice::FileNotFound
    } else if is_dir {
        RootChoice::Given
    } else if has_parent {
        RootChoice::Parent
    } else {
        RootChoice::NotADirectory
    }
}

/// Whether `answer` gives the authorization asked for: it does unless it is
/// `n` or `N`.
pub fn authorization(answer: &str) -> (authorized: bool)
    ensures
        authorized == agrees(answer@),
{
    !(same_text(answer, "n") || same_text(answer, "N"))
}

} // verus!
