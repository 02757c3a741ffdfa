//! What is drawn: the operations of each cell, each row and the whole frame,
//! as functions of the values of the tree, the skin and the viewport.

use vstd::prelude::*;
use crate::area::{scrollable, scrollbar_span, Area};
use crate::dates::date_shown;
use crate::branches::{branches_of, glyph, Branch};
use crate::draw::{background_ops, printed, DrawOpView};
use crate::file_sizes::{filled_cells, share, size_text};
use crate::flat_tree::{LineTypeView, PermissionsView, TreeLineView, TreeView};
use crate::permissions::mode_text;
use crate::skin::{on_row, Skin, Style};
use crate::text::{padded_left, padded_right, repeated};

verus! {

/// The width of the notation of a size.
pub const SIZE_WIDTH: usize = 5;

/// The number of cells of the bar that shows the share of a size in the total.
pub const BAR_WIDTH: u8 = 10;

/// The value of a tree ready to be drawn: the tree, the skin, the viewport, and
/// whether it is drawn in the application or for export.
pub struct DisplayableTreeView {
    pub tree: TreeView,
    pub skin: Skin,
    pub area: Area,
    pub in_app: bool,
}

/// The style of the name of a line, by what the line stands for.
pub open spec fn name_style(skin: Skin, line: TreeLineView) -> Style {
    match line.line_type {
        LineTypeView::Dir => skin.directory,
        LineTypeView::File => if line.is_exe() {
            skin.exe
        } else {
            skin.file
        },
        LineTypeView::SymLinkToFile(_) => skin.link,
        LineTypeView::SymLinkToDir(_) => skin.link,
        LineTypeView::Pruning => skin.pruning,
    }
}

/// A bar of `width` cells of which the first `cells` are filled.
pub open spec fn bar_text(cells: nat, width: nat) -> Seq<char> {
    repeated('█', cells) + repeated(' ', (width - cells) as nat)
}

/// The text of the size column for a line of size `size` in a tree of size
/// `total`: the notation of the size, right-aligned in five characters, a
/// space, the bar of ten cells filled by the share of the size in the total,
/// and a space.
pub open spec fn size_text_cell(size: nat, total: nat) -> Seq<char> {
    let part = share(size, total);
    padded_left(size_text(size), SIZE_WIDTH as nat) + seq![' '] + bar_text(
        filled_cells(part.0, part.1, BAR_WIDTH as nat),
        BAR_WIDTH as nat,
    ) + seq![' ']
}

/// What stands in the size column for a line without a size.
pub open spec fn size_placeholder() -> Seq<char> {
    "──────────────── "@
}

/// What stands in the permissions column for a line that has none to show.
pub open spec fn permissions_placeholder() -> Seq<char> {
    "──────────────"@
}

/// What stands in the date column for a line without a date.
pub open spec fn date_placeholder() -> Seq<char> {
    "──────────────── "@
}

/// The size column of a line: its size and bar in the style of its name, or
/// the placeholder in the style of the tree.
pub open spec fn size_cell(skin: Skin, line: TreeLineView, total: nat, selected: bool) -> Seq<
    DrawOpView,
> {
    match line.size {
        Some(size) => seq![
            printed(on_row(skin, name_style(skin, line), selected), size_text_cell(size, total)),
        ],
        None => seq![printed(on_row(skin, skin.tree, selected), size_placeholder())],
    }
}

/// The length of the name of the owner of a line; zero without permissions.
pub open spec fn user_len(line: TreeLineView) -> nat {
    match line.permissions {
        Some(p) => p.user.len(),
        None => 0,
    }
}

/// The length of the name of the group of a line; zero without permissions.
pub open spec fn group_len(line: TreeLineView) -> nat {
    match line.permissions {
        Some(p) => p.group.len(),
        None => 0,
    }
}

/// The longest owner name among the first `n` lines, the root included.
pub open spec fn longest_user(lines: Seq<TreeLineView>, n: nat) -> nat
    decreases n,
{
    if n == 0 {
        0
    } else {
        let before = longest_user(lines, (n - 1) as nat);
        let here = user_len(lines[n - 1]);
        if here > before {
            here
        } else {
            before
        }
    }
}

/// The longest group name among the first `n` lines, the root included.
pub open spec fn longest_group(lines: Seq<TreeLineView>, n: nat) -> nat
    decreases n,
{
    if n == 0 {
        0
    } else {
        let before = longest_group(lines, (n - 1) as nat);
        let here = group_len(lines[n - 1]);
        if here > before {
            here
        } else {
            before
        }
    }
}

/// The widths of the owner and group columns: the longest name of each kind
/// over all the lines of the tree, the root included, whatever the window
/// shows; zero where permissions are not shown.
pub open spec fn name_widths(tree: TreeView) -> (nat, nat) {
    if tree.options.show_permissions {
        (longest_user(tree.lines, tree.lines.len()), longest_group(tree.lines, tree.lines.len()))
    } else {
        (0, 0)
    }
}

/// The text of the permissions column: the nine letters of the mode, then the
/// owner and the group, each after a space and padded to the width of its
/// column, and a space.
pub open spec fn permissions_text(p: PermissionsView, widths: (nat, nat)) -> Seq<char> {
    mode_text(p.mode) + seq![' '] + padded_right(p.user, widths.0) + seq![' '] + padded_right(
        p.group,
        widths.1,
    ) + seq![' ']
}

/// The permissions column of a line: its permissions, or the placeholder for a
/// line that cannot be selected or whose permissions are not known.
pub open spec fn permissions_cell(
    skin: Skin,
    line: TreeLineView,
    widths: (nat, nat),
    selected: bool,
) -> Seq<DrawOpView> {
    match line.permissions {
        Some(p) if line.is_selectable() => seq![
            printed(on_row(skin, skin.permissions, selected), permissions_text(p, widths)),
        ],
        _ => seq![printed(on_row(skin, skin.tree, selected), permissions_placeholder())],
    }
}

/// The date column of a line: its date, or the placeholder.
pub open spec fn date_cell(skin: Skin, date: Option<Seq<char>>, selected: bool) -> Seq<
    DrawOpView,
> {
    match date {
        Some(text) => seq![printed(on_row(skin, skin.dates, selected), text)],
        None => seq![printed(on_row(skin, skin.tree, selected), date_placeholder())],
    }
}

/// The end of the run that starts at `start`: the first position from `from`
/// on, or `len`, at which being matched changes.
pub open spec fn run_end(len: int, matched: Set<int>, start: int, from: int) -> int
    decreases len - from,
{
    if from >= len {
        len
    } else if matched.contains(from) != matched.contains(start) {
        from
    } else {
        run_end(len, matched, start, from + 1)
    }
}

/// The name from position `start` on, cut into its longest runs of characters
/// that are all matched or all unmatched: the matched runs in `highlight`, the
/// others in `normal`.
pub open spec fn spans(
    name: Seq<char>,
    matched: Set<int>,
    normal: Style,
    highlight: Style,
    start: int,
) -> Seq<DrawOpView>
    decreases name.len() - start,
{
    let end = run_end(name.len() as int, matched, start, start + 1);
    if 0 <= start < end <= name.len() {
        seq![
            printed(
                if matched.contains(start) {
                    highlight
                } else {
                    normal
                },
                name.subrange(start, end),
            ),
        ] + spans(name, matched, normal, highlight, end)
    } else {
        Seq::empty()
    }
}

/// What follows the name: the mark of a directory that has more children than
/// the tree holds; for a link, an arrow and the target, in the style of an
/// error where the link could not be resolved, else in that of a directory or
/// of a file.
pub open spec fn name_suffix(skin: Skin, line: TreeLineView, selected: bool) -> Seq<DrawOpView> {
    let style = on_row(skin, name_style(skin, line), selected);
    let target_style = on_row(
        skin,
        if line.has_error {
            skin.file_error
        } else if line.is_dir() {
            skin.directory
        } else {
            skin.file
        },
        selected,
    );
    match line.line_type {
        LineTypeView::Dir => if line.unlisted > 0 {
            seq![printed(style, " …"@)]
        } else {
            Seq::empty()
        },
        LineTypeView::SymLinkToFile(target) => seq![
            printed(style, " -> "@),
            printed(target_style, target),
        ],
        LineTypeView::SymLinkToDir(target) => seq![
            printed(style, " -> "@),
            printed(target_style, target),
        ],
        _ => Seq::empty(),
    }
}

/// The name column of line `index`: for the root, its whole path, never
/// highlighted; for another line, its name with the matched characters
/// highlighted; then the suffix.
pub open spec fn name_cell(skin: Skin, line: TreeLineView, index: int, selected: bool) -> Seq<
    DrawOpView,
> {
    let style = on_row(skin, name_style(skin, line), selected);
    (if index == 0 {
        seq![printed(style, line.path)]
    } else {
        spans(line.name, line.name_match, style, on_row(skin, skin.char_match, selected), 0)
    }) + name_suffix(skin, line, selected)
}

/// The branches on the left of line `index`, one operation for each.
pub open spec fn branch_cells(skin: Skin, tree: TreeView, index: int, selected: bool) -> Seq<
    DrawOpView,
> {
    branches_of(tree, index).map_values(
        |branch: Branch| printed(on_row(skin, skin.tree, selected), glyph(branch)),
    )
}

/// The line shown on row `y` of the window: the root on the first row, and
/// under it the lines that follow those scrolled out.
pub open spec fn line_on_row(tree: TreeView, y: int) -> int {
    if y > 0 {
        y + tree.scrolled()
    } else {
        y
    }
}

/// Whether the line `index` is drawn as selected: only in the application, and
/// only the selected line.
pub open spec fn is_selected(dt: DisplayableTreeView, index: int) -> bool {
    dt.in_app && 0 <= index < dt.tree.lines.len() && index == dt.tree.selection
}

/// The branches of line `index`: none for the root.
pub open spec fn branch_column(dt: DisplayableTreeView, index: int) -> Seq<DrawOpView> {
    if index > 0 {
        branch_cells(dt.skin, dt.tree, index, is_selected(dt, index))
    } else {
        Seq::empty()
    }
}

/// The size column of line `index`: only where sizes are shown, and never for
/// the root.
pub open spec fn size_column(dt: DisplayableTreeView, index: int) -> Seq<DrawOpView> {
    if dt.tree.options.show_sizes && index > 0 {
        size_cell(dt.skin, dt.tree.lines[index], dt.tree.total_size(), is_selected(dt, index))
    } else {
        Seq::empty()
    }
}

/// The permissions column of line `index`: only where permissions are shown,
/// and never for the root.
pub open spec fn permissions_column(dt: DisplayableTreeView, index: int) -> Seq<DrawOpView> {
    if dt.tree.options.show_permissions && index > 0 {
        permissions_cell(
            dt.skin,
            dt.tree.lines[index],
            name_widths(dt.tree),
            is_selected(dt, index),
        )
    } else {
        Seq::empty()
    }
}

/// The date column of line `index`: only where dates are shown, and never for
/// the root.
pub open spec fn date_column(dt: DisplayableTreeView, index: int) -> Seq<DrawOpView> {
    if dt.tree.options.show_dates && index > 0 {
        date_cell(dt.skin, date_shown(dt.tree.lines[index].modified), is_selected(dt, index))
    } else {
        Seq::empty()
    }
}

/// The columns of line `index`, from left to right: the branches, then the
/// size, the permissions and the date where the options ask for them, then
/// the name. The root has its name only.
pub open spec fn line_ops(dt: DisplayableTreeView, index: int) -> Seq<DrawOpView> {
    branch_column(dt, index) + size_column(dt, index) + permissions_column(dt, index)
        + date_column(dt, index) + name_cell(
        dt.skin,
        dt.tree.lines[index],
        index,
        is_selected(dt, index),
    )
}

/// The rows of the thumb of the scrollbar, where one is drawn: in the
/// application, when the tree has more lines than the viewport has rows. A
/// scrollbar whose span cannot be computed is not drawn.
pub open spec fn shown_span(dt: DisplayableTreeView) -> Option<(int, int)> {
    let scroll = dt.tree.scrolled();
    let content_height = dt.tree.lines.len() as int;
    let height = dt.area.height as int;
    if dt.in_app && scrollable(scroll, content_height, height) {
        scrollbar_span(scroll, content_height, height)
    } else {
        None
    }
}

/// The cell of the scrollbar on row `y`: in the column right of the viewport,
/// the thumb on the rows of the span, the track on the others.
pub open spec fn scrollbar_cell(skin: Skin, x: u16, span: Option<(int, int)>, y: int) -> Seq<
    DrawOpView,
> {
    match span {
        Some((top, bottom)) => seq![
            DrawOpView::MoveTo { x, y: y as u16 },
            printed(
                if top <= y <= bottom {
                    skin.scrollbar_thumb
                } else {
                    skin.scrollbar_track
                },
                "▐"@,
            ),
        ],
        None => Seq::empty(),
    }
}

/// The end of row `y`: the background of the selection on a selected row, the
/// default one on another; in the application, the rest of the row cleared
/// with it, the background reset, and the cell of the scrollbar; then the end
/// of the row.
pub open spec fn row_end_ops(dt: DisplayableTreeView, y: int, selected: bool) -> Seq<DrawOpView> {
    background_ops(
        if selected {
            dt.skin.selected_line
        } else {
            dt.skin.default
        },
    ) + (if dt.in_app {
        seq![DrawOpView::ClearUntilNewLine, DrawOpView::ResetBackground] + scrollbar_cell(
            dt.skin,
            dt.area.width,
            shown_span(dt),
            y,
        )
    } else {
        Seq::empty()
    }) + seq![DrawOpView::NewLine]
}

/// The move of the cursor to the start of row `y`: in the application only.
pub open spec fn cursor_ops(dt: DisplayableTreeView, y: int) -> Seq<DrawOpView> {
    if dt.in_app {
        seq![DrawOpView::MoveTo { x: 0, y: y as u16 }]
    } else {
        Seq::empty()
    }
}

/// The columns of the line shown on row `y`, if there is one.
pub open spec fn shown_line_ops(dt: DisplayableTreeView, y: int) -> Seq<DrawOpView> {
    let index = line_on_row(dt.tree, y);
    if index < dt.tree.lines.len() {
        line_ops(dt, index)
    } else {
        Seq::empty()
    }
}

/// Row `y` of the window: in the application the cursor is first put at the
/// start of the row; then come the columns of the line shown there, if there
/// is one; then the end of the row.
pub open spec fn row_ops(dt: DisplayableTreeView, y: int) -> Seq<DrawOpView> {
    cursor_ops(dt, y) + shown_line_ops(dt, y) + row_end_ops(
        dt,
        y,
        is_selected(dt, line_on_row(dt.tree, y)),
    )
}

/// The first `rows` rows of the window, from the top.
pub open spec fn frame_ops(dt: DisplayableTreeView, rows: nat) -> Seq<DrawOpView>
    decreases rows,
{
    if rows == 0 {
        Seq::empty()
    } else {
        frame_ops(dt, (rows - 1) as nat) + row_ops(dt, rows - 1)
    }
}

/// Appending three sequences one after the other appends their concatenation.
pub proof fn lemma_append_three<T>(s: Seq<T>, a: Seq<T>, b: Seq<T>, c: Seq<T>)
    ensures
        ((s + a) + b) + c == s + ((a + b) + c),
{
}

/// Appending five sequences one after the other appends their concatenation.
pub proof fn lemma_append_five<T>(
    s: Seq<T>,
    a: Seq<T>,
    b: Seq<T>,
    c: Seq<T>,
    d: Seq<T>,
    e: Seq<T>,
)
    ensures
        ((((s + a) + b) + c) + d) + e == s + ((((a + b) + c) + d) + e),
{
}

} // verus!
