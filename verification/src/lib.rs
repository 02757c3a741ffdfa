//! A flat model of a directory tree and the compositor that turns a window of
//! it into terminal drawing operations.
//!
//! The tree is an ordered sequence of lines, each annotated with its depth and
//! with the branch columns that stay open on its left. Rendering is a function
//! of a tree snapshot, a skin, a viewport and a mode: it never touches the file
//! system and never writes to a terminal. It appends [`DrawOp`]s to a buffer,
//! which the caller plays on the sink of its choice.

pub mod area;
pub mod branches;
pub mod cli;
pub mod dates;
pub mod displayable_tree;
pub mod draw;
pub mod file_sizes;
pub mod flat_tree;
pub mod layout;
pub mod permissions;
pub mod skin;
pub mod text;
pub mod theorems;

pub use area::Area;
pub use branches::Branch;
pub use cli::{AppLaunchArgs, ArgParseError, LaunchFlags, RootChoice};
pub use dates::LocalTime;
pub use displayable_tree::{user_group_max_lengths, DisplayableTree};
pub use draw::DrawOp;
pub use file_sizes::{Ratio, Size};
pub use flat_tree::{LineType, OptionBool, Permissions, Tree, TreeLine, TreeOptions};
pub use skin::{Color, Skin, Style};
