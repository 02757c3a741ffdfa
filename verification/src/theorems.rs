//! What holds of every frame: the width of each column, the shape of the root
//! row and of a selected row, and how the branches reflect the nesting of the
//! lines.

use vstd::prelude::*;
use crate::branches::{
    branch_at, branches_follow_depths, branches_of, depths_of, glyph, has_later_sibling,
    leads_to_child, lemma_glyph_width, reaches_child, Branch,
};
use crate::area::{lemma_span_bounds, scrollable};
use crate::dates::{civil_of, date_shown, lemma_written_width, LocalTime, DATE_WIDTH};
use crate::draw::{printed, DrawOpView};
use crate::file_sizes::{filled_cells, lemma_five_chars, share, size_text};
use crate::flat_tree::{PermissionsView, TreeLineView, TreeView};
use crate::layout::{
    bar_text, branch_cells, cursor_ops, date_cell, date_placeholder, frame_ops, group_len,
    is_selected, line_on_row, line_ops, longest_group, longest_user, name_style, name_suffix,
    name_widths, permissions_text, row_end_ops, row_ops, run_end, scrollbar_cell, shown_line_ops,
    shown_span, size_placeholder, size_text_cell, spans, user_len, DisplayableTreeView, BAR_WIDTH,
    SIZE_WIDTH,
};
use crate::skin::{on_row, Color, Skin, Style};
use crate::text::lemma_padded_len;

verus! {

/// A line has one branch for each depth above its own, each drawn by one
/// operation that prints a glyph of three characters in the style of the tree.
pub proof fn lemma_one_branch_per_depth(skin: Skin, tree: TreeView, index: int, selected: bool)
    ensures
        branches_of(tree, index).len() == tree.lines[index].depth,
        branch_cells(skin, tree, index, selected).len() == tree.lines[index].depth,
        forall|depth: int|
            0 <= depth < tree.lines[index].depth ==> #[trigger] branch_cells(
                skin,
                tree,
                index,
                selected,
            )[depth] == printed(
                on_row(skin, skin.tree, selected),
                glyph(branch_at(tree, index, depth)),
            ) && glyph(branch_at(tree, index, depth)).len() == 3,
{
    assert forall|depth: int| 0 <= depth < tree.lines[index].depth implies glyph(
        branch_at(tree, index, depth),
    ).len() == 3 by {
        lemma_glyph_width(branch_at(tree, index, depth));
    }
}

/// The bar has its width, whatever part of it is filled.
pub proof fn lemma_bar_width(cells: nat, width: nat)
    requires
        cells <= width,
    ensures
        bar_text(cells, width).len() == width,
        forall|i: int| 0 <= i < cells ==> bar_text(cells, width)[i] == '█',
        forall|i: int| cells <= i < width ==> bar_text(cells, width)[i] == ' ',
{
}

/// The size column is seventeen characters wide, for a line with a size and
/// for one without: the placeholder keeps the columns to its right in place.
pub proof fn lemma_size_column_width(size: nat, total: nat)
    requires
        size <= u64::MAX,
    ensures
        size_text_cell(size, total).len() == SIZE_WIDTH + BAR_WIDTH + 2,
        size_placeholder().len() == SIZE_WIDTH + BAR_WIDTH + 2,
{
    reveal_strlit("──────────────── ");
    lemma_five_chars(size);
    lemma_padded_len(size_text(size), SIZE_WIDTH as nat);
    let part = share(size, total);
    lemma_bar_width(filled_cells(part.0, part.1, BAR_WIDTH as nat), BAR_WIDTH as nat);
}

/// None of the first `n` lines, the root included, has an owner or a group
/// with a longer name than the longest.
pub proof fn lemma_longest_bounds(lines: Seq<TreeLineView>, n: nat, i: int)
    requires
        0 <= i < n,
    ensures
        user_len(lines[i]) <= longest_user(lines, n),
        group_len(lines[i]) <= longest_group(lines, n),
    decreases n,
{
    if i < n - 1 {
        lemma_longest_bounds(lines, (n - 1) as nat, i);
    }
}

/// The longest name is that of some line, or there is no name.
pub proof fn lemma_longest_attained(lines: Seq<TreeLineView>, n: nat)
    ensures
        longest_user(lines, n) == 0 || exists|i: int|
            0 <= i < n && #[trigger] user_len(lines[i]) == longest_user(lines, n),
        longest_group(lines, n) == 0 || exists|i: int|
            0 <= i < n && #[trigger] group_len(lines[i]) == longest_group(lines, n),
    decreases n,
{
    if n > 0 {
        lemma_longest_attained(lines, (n - 1) as nat);
    }
}

/// The permissions of every line take the same width: that of the mode and of
/// the longest owner and group names of the whole tree, the root included,
/// with the spaces between. It depends on no window and on no scroll.
pub proof fn lemma_permissions_width(tree: TreeView, index: int, p: PermissionsView)
    requires
        tree.options.show_permissions,
        0 <= index < tree.lines.len(),
        tree.lines[index].permissions == Some(p),
    ensures
        permissions_text(p, name_widths(tree)).len() == 9 + 1 + name_widths(tree).0 + 1
            + name_widths(tree).1 + 1,
{
    lemma_longest_bounds(tree.lines, tree.lines.len(), index);
    let widths = name_widths(tree);
    lemma_padded_len(p.user, widths.0);
    lemma_padded_len(p.group, widths.1);
}

/// The root row holds the whole path of the root in the style of its name,
/// and what follows a name: no branch, no other column, no highlighting.
pub proof fn lemma_root_row(dt: DisplayableTreeView)
    ensures
        line_ops(dt, 0) == seq![
            printed(
                on_row(dt.skin, name_style(dt.skin, dt.tree.lines[0]), is_selected(dt, 0)),
                dt.tree.lines[0].path,
            ),
        ] + name_suffix(dt.skin, dt.tree.lines[0], is_selected(dt, 0)),
        line_on_row(dt.tree, 0) == 0,
{
}

/// The text in the date column of a line changed at `modified`: its date, or
/// the placeholder.
pub open spec fn date_column_text(modified: Option<LocalTime>) -> Seq<char> {
    match date_shown(modified) {
        Some(text) => text,
        None => date_placeholder(),
    }
}

/// The date column is seventeen characters wide for every line: a date is as
/// wide as the placeholder of a line whose time could not be read or cannot be
/// written, so the names stay in place.
pub proof fn lemma_date_column_width(skin: Skin, modified: Option<LocalTime>, selected: bool)
    ensures
        date_column_text(modified).len() == DATE_WIDTH,
        date_placeholder().len() == DATE_WIDTH,
        date_cell(skin, date_shown(modified), selected) == seq![
            printed(
                on_row(
                    skin,
                    if date_shown(modified) is Some {
                        skin.dates
                    } else {
                        skin.tree
                    },
                    selected,
                ),
                date_column_text(modified),
            ),
        ],
{
    reveal_strlit("──────────────── ");
    if let Some(time) = modified {
        lemma_written_width(civil_of(time.secs + time.offset));
    }
}

/// `op` prints a text on the background `color`.
pub open spec fn prints_on(op: DrawOpView, color: Color) -> bool {
    op matches DrawOpView::Print { style, .. } && style.bg == Some(color)
}

/// Every operation of `ops` prints a text on the background `color`.
pub open spec fn all_print_on(ops: Seq<DrawOpView>, color: Color) -> bool {
    forall|i: int| 0 <= i < ops.len() ==> prints_on(#[trigger] ops[i], color)
}

/// Every run of a name is printed in one of the two styles given.
pub proof fn lemma_spans_styles(
    name: Seq<char>,
    matched: Set<int>,
    normal: Style,
    highlight: Style,
    start: int,
)
    ensures
        forall|i: int|
            0 <= i < spans(name, matched, normal, highlight, start).len() ==> (#[trigger] spans(
                name,
                matched,
                normal,
                highlight,
                start,
            )[i] matches DrawOpView::Print { style, .. } && (style == normal || style
                == highlight)),
    decreases name.len() - start,
{
    let end = run_end(name.len() as int, matched, start, start + 1);
    if 0 <= start < end <= name.len() {
        lemma_spans_styles(name, matched, normal, highlight, end);
    }
}

/// On the selected row of the application, where the skin gives the selection
/// a background, every column of the line is printed on that background, and
/// the row ends with that background set and the rest of the row cleared with
/// it, before the background is reset: the selection covers the whole width of
/// the row, however short the line.
pub proof fn lemma_selected_row(dt: DisplayableTreeView, y: int, color: Color)
    requires
        is_selected(dt, line_on_row(dt.tree, y)),
        dt.skin.selected_line.bg == Some(color),
    ensures
        all_print_on(shown_line_ops(dt, y), color),
        row_end_ops(dt, y, true).len() >= 4,
        row_end_ops(dt, y, true)[0] == (DrawOpView::SetBackground { color }),
        row_end_ops(dt, y, true)[1] == DrawOpView::ClearUntilNewLine,
        row_end_ops(dt, y, true)[2] == DrawOpView::ResetBackground,
        row_end_ops(dt, y, true).last() == DrawOpView::NewLine,
{
    let line = dt.tree.lines[line_on_row(dt.tree, y)];
    lemma_spans_styles(
        line.name,
        line.name_match,
        on_row(dt.skin, name_style(dt.skin, line), true),
        on_row(dt.skin, dt.skin.char_match, true),
        0,
    );
}

/// Every column of a line is printed: a line moves no cursor and ends no row.
pub proof fn lemma_line_is_printed(dt: DisplayableTreeView, index: int)
    ensures
        forall|i: int|
            0 <= i < line_ops(dt, index).len() ==> #[trigger] line_ops(dt, index)[i] is Print,
{
    let line = dt.tree.lines[index];
    let selected = is_selected(dt, index);
    lemma_spans_styles(
        line.name,
        line.name_match,
        on_row(dt.skin, name_style(dt.skin, line), selected),
        on_row(dt.skin, dt.skin.char_match, selected),
        0,
    );
}

/// The number of rows that `ops` end.
pub open spec fn rows_ended(ops: Seq<DrawOpView>) -> nat
    decreases ops.len(),
{
    if ops.len() == 0 {
        0
    } else {
        rows_ended(ops.drop_last()) + if ops.last() is NewLine {
            1nat
        } else {
            0nat
        }
    }
}

/// Operations put one after the other end the rows that each of them ends.
pub proof fn lemma_rows_ended_add(a: Seq<DrawOpView>, b: Seq<DrawOpView>)
    ensures
        rows_ended(a + b) == rows_ended(a) + rows_ended(b),
    decreases b.len(),
{
    if b.len() == 0 {
        assert(a + b == a);
    } else {
        lemma_rows_ended_add(a, b.drop_last());
        assert((a + b).drop_last() == a + b.drop_last());
    }
}

/// Operations of which none ends a row end no row.
pub proof fn lemma_no_row_ended(ops: Seq<DrawOpView>)
    requires
        forall|i: int| 0 <= i < ops.len() ==> !(#[trigger] ops[i] is NewLine),
    ensures
        rows_ended(ops) == 0,
    decreases ops.len(),
{
    if ops.len() > 0 {
        lemma_no_row_ended(ops.drop_last());
    }
}

/// Every row of the window ends once, at its end; a row under the tree holds
/// nothing but the move of the cursor and the end of the row.
pub proof fn lemma_row_ends_once(dt: DisplayableTreeView, y: int)
    ensures
        rows_ended(row_ops(dt, y)) == 1,
        row_ops(dt, y).last() == DrawOpView::NewLine,
        line_on_row(dt.tree, y) >= dt.tree.lines.len() ==> row_ops(dt, y) == cursor_ops(dt, y)
            + row_end_ops(dt, y, false),
{
    let index = line_on_row(dt.tree, y);
    let cursor = cursor_ops(dt, y);
    let line = shown_line_ops(dt, y);
    let end = row_end_ops(dt, y, is_selected(dt, index));
    lemma_line_is_printed(dt, index);
    lemma_no_row_ended(cursor);
    lemma_no_row_ended(line);
    assert(rows_ended(end) == 1) by {
        lemma_no_row_ended(end.drop_last());
    }
    lemma_rows_ended_add(cursor, line);
    lemma_rows_ended_add(cursor + line, end);
}

/// `op` is one of a plain stream: a text, a background, or the end of a row.
pub open spec fn is_plain(op: DrawOpView) -> bool {
    op is Print || op is SetBackground || op is NewLine
}

/// In the application every row starts by putting the cursor at its start. In
/// an export no row moves the cursor, clears anything or resets the
/// background: the export is a plain stream of texts, backgrounds and ends of
/// rows.
pub proof fn lemma_row_by_mode(dt: DisplayableTreeView, y: int)
    ensures
        dt.in_app ==> row_ops(dt, y)[0] == (DrawOpView::MoveTo { x: 0, y: y as u16 }),
        !dt.in_app ==> forall|i: int|
            0 <= i < row_ops(dt, y).len() ==> is_plain(#[trigger] row_ops(dt, y)[i]),
{
    lemma_line_is_printed(dt, line_on_row(dt.tree, y));
}

/// A frame of `rows` rows ends `rows` rows: the export of a tree has as many
/// rows as the tree has lines, and the application draws every row of its
/// viewport.
pub proof fn lemma_frame_rows(dt: DisplayableTreeView, rows: nat)
    ensures
        rows_ended(frame_ops(dt, rows)) == rows,
    decreases rows,
{
    if rows > 0 {
        lemma_frame_rows(dt, (rows - 1) as nat);
        lemma_row_ends_once(dt, rows - 1);
        lemma_rows_ended_add(frame_ops(dt, (rows - 1) as nat), row_ops(dt, rows - 1));
    }
}

/// In a tree whose branch bits follow its depths, the column next to the name
/// of a line holds a continuation where the line has a later sibling, and a
/// turn where it is the last child of its parent.
pub proof fn lemma_last_branch(tree: TreeView, row: int)
    requires
        branches_follow_depths(tree),
        0 <= row < tree.lines.len(),
        tree.lines[row].depth >= 1,
    ensures
        branch_at(tree, row, tree.lines[row].depth - 1) == if has_later_sibling(
            depths_of(tree),
            row,
        ) {
            Branch::Continue
        } else {
            Branch::Turn
        },
{
    let depth = tree.lines[row].depth - 1;
    assert(reaches_child(depths_of(tree), row, depth, row));
    lemma_branch_below(tree, row, depth);
}

/// In a tree whose branch bits follow its depths, a column further left holds
/// a passing branch where the entry of that depth above the line still has a
/// child after the line, and nothing where it has none.
pub proof fn lemma_passing_branch(tree: TreeView, row: int, depth: int)
    requires
        branches_follow_depths(tree),
        0 <= row < tree.lines.len(),
        0 <= depth < tree.lines[row].depth - 1,
    ensures
        branch_at(tree, row, depth) == if leads_to_child(depths_of(tree), row + 1, depth) {
            Branch::PassThrough
        } else {
            Branch::Blank
        },
{
    let depths = depths_of(tree);
    lemma_branch_below(tree, row, depth);
    if leads_to_child(depths, row + 1, depth) {
        let child = choose|child: int| #[trigger] reaches_child(depths, row + 1, depth, child);
        assert(reaches_child(depths, row, depth, child));
    }
}

/// In a tree whose branch bits follow its depths, the next line draws a branch
/// at a depth exactly where the entry of that depth still has a child after
/// this line: looking at the next line answers for all the lines that follow.
pub proof fn lemma_branch_below(tree: TreeView, row: int, depth: int)
    requires
        branches_follow_depths(tree),
        0 <= row < tree.lines.len(),
        0 <= depth,
    ensures
        tree.has_branch(row + 1, depth) == leads_to_child(depths_of(tree), row + 1, depth),
{
    let depths = depths_of(tree);
    if leads_to_child(depths, row + 1, depth) {
        let child = choose|child: int| #[trigger] reaches_child(depths, row + 1, depth, child);
        assert(depths[row + 1] >= depth + 1);
    }
}

/// Outside the application, and where the tree fits in the viewport, no row
/// has a cell of the scrollbar. In the application, where the tree does not
/// fit and the span can be computed, every row has one.
pub proof fn lemma_no_scrollbar(dt: DisplayableTreeView, y: int)
    requires
        !dt.in_app || dt.tree.lines.len() <= dt.area.height,
    ensures
        shown_span(dt) is None,
        scrollbar_cell(dt.skin, dt.area.width, shown_span(dt), y) == Seq::<DrawOpView>::empty(),
{
}

/// In the application, where the tree does not fit in the viewport and the
/// span of the scrollbar can be computed, every row has a cell of the
/// scrollbar, and the thumb is not empty.
pub proof fn lemma_scrollbar_shown(dt: DisplayableTreeView, y: int)
    requires
        dt.in_app,
        dt.tree.lines.len() > dt.area.height,
        scrollable(dt.tree.scrolled(), dt.tree.lines.len() as int, dt.area.height as int),
    ensures
        shown_span(dt) matches Some((top, bottom)) && top < bottom,
        scrollbar_cell(dt.skin, dt.area.width, shown_span(dt), y).len() == 2,
{
    lemma_span_bounds(dt.tree.scrolled(), dt.tree.lines.len() as int, dt.area.height as int);
}

} // verus!
