//! Drawing a tree: in the application, with the selection, the scrollbar and
//! the clearing of what the rows held before; or for export, as plain rows.

use vstd::prelude::*;
use vstd::string::StrSliceExecFns;
use crate::area::{Area, MAX_SCROLLBAR_HEIGHT};
use crate::branches::Branch;
use crate::dates::{date_shown, date_text, LocalTime};
use crate::draw::{emit, ops_view, print, print_str, printed, set_background, DrawOp};
use crate::file_sizes::Size;
use crate::flat_tree::{LineType, Tree, TreeLine};
use crate::layout::{
    branch_cells, branch_column, cursor_ops, date_cell, date_column, frame_ops, lemma_append_five,
    lemma_append_three, line_ops, longest_group, longest_user, name_cell, name_style, name_suffix,
    name_widths, permissions_cell, permissions_column, permissions_text, row_end_ops, row_ops,
    run_end, shown_line_ops, shown_span, size_cell, size_column, size_text_cell, spans,
    DisplayableTreeView, BAR_WIDTH, SIZE_WIDTH,
};
use crate::permissions::push_mode;
use crate::skin::{on_row, Skin, Style};
use crate::text::{char_count, push_padded_left, push_padded_right, push_repeated};

verus! {

/// A tree ready to be drawn, either on the screen of the application or in a
/// file or a string for export.
///
/// In the application the selection is drawn, a scrollbar may be, and the rows
/// under the tree are cleared.
pub struct DisplayableTree<'s, 't> {
    pub tree: &'t Tree,
    pub skin: &'s Skin,
    pub area: Area,
    /// Whether the selection and the scrollbar are shown.
    pub in_app: bool,
}

impl<'s, 't> View for DisplayableTree<'s, 't> {
    type V = DisplayableTreeView;

    open spec fn view(&self) -> DisplayableTreeView {
        DisplayableTreeView {
            tree: self.tree@,
            skin: *self.skin,
            area: self.area,
            in_app: self.in_app,
        }
    }
}

impl DisplayableTreeView {
    /// The tree can be drawn: its lines have their branch bits.
    pub open spec fn wf(self) -> bool {
        self.tree.wf()
    }
}

impl<'s, 't> DisplayableTree<'s, 't> {
    /// The tree as it is drawn for export: `width` columns wide, and as many
    /// rows as the tree has lines. The height is a 16-bit number: of a longer
    /// tree it keeps the low 16 bits of the number of lines.
    pub fn out_of_app(tree: &'t Tree, skin: &'s Skin, width: u16) -> (dt: DisplayableTree<'s, 't>)
        ensures
            dt@ == (DisplayableTreeView {
                tree: tree@,
                skin: *skin,
                area: Area { left: 0, top: 0, width, height: (tree.lines.len() % 65536) as u16 },
                in_app: false,
            }),
            tree.lines.len() <= u16::MAX ==> dt.area.height == tree.lines.len(),
    {
        DisplayableTree {
            tree,
            skin,
            area: Area { left: 0, top: 0, width, height: (tree.lines.len() % 65536) as u16 },
            in_app: false,
        }
    }

    /// The style of the name of `line`.
    pub fn name_style(&self, line: &TreeLine) -> (style: Style)
        ensures
            style == name_style(*self.skin, line@),
    {
        match &line.line_type {
            LineType::Dir => self.skin.directory,
            LineType::File => {
                if line.is_exe() {
                    self.skin.exe
                } else {
                    self.skin.file
                }
            },
            LineType::SymLinkToFile(_) => self.skin.link,
            LineType::SymLinkToDir(_) => self.skin.link,
            LineType::Pruning => self.skin.pruning,
        }
    }

    /// Appends the branches on the left of line `line_index` to `f`.
    pub fn write_branches(&self, f: &mut Vec<DrawOp>, line_index: usize, selected: bool)
        requires
            self.tree.wf(),
            line_index < self.tree.lines.len(),
        ensures
            ops_view(final(f)@) == ops_view(old(f)@) + branch_cells(
                *self.skin,
                self.tree@,
                line_index as int,
                selected,
            ),
    {
        let line = &self.tree.lines[line_index];
        let style = self.skin.on_row(self.skin.tree, selected);
        let ghost cells = branch_cells(*self.skin, self.tree@, line_index as int, selected);
        let mut depth: usize = 0;
        while depth < line.depth as usize
            invariant
                depth <= line.depth,
                self.tree.wf(),
                line_index < self.tree.lines.len(),
                line == &self.tree.lines[line_index as int],
                style == on_row(*self.skin, self.skin.tree, selected),
                cells == branch_cells(*self.skin, self.tree@, line_index as int, selected),
                cells.len() == line.depth,
                ops_view(f@) == ops_view(old(f)@) + cells.subrange(0, depth as int),
            decreases line.depth - depth,
        {
            let branch: Branch = self.tree.branch_at(line_index, depth);
            print_str(f, style, branch.glyph());
            depth += 1;
        }
    }

    /// Appends the size column of `line` to `f`: its size and the bar of its
    /// share in `total_size`, or the placeholder.
    pub fn write_line_size(
        &self,
        f: &mut Vec<DrawOp>,
        line: &TreeLine,
        total_size: Size,
        selected: bool,
    )
        ensures
            ops_view(final(f)@) == ops_view(old(f)@) + size_cell(
                *self.skin,
                line@,
                total_size@,
                selected,
            ),
    {
        match line.size {
            Some(size) => {
                let cells: u8 = size.part_of(total_size).cells(BAR_WIDTH);
                let notation = size.to_text();
                let mut text = String::new();
                push_padded_left(&mut text, &notation, SIZE_WIDTH);
                text.push(' ');
                push_repeated(&mut text, '█', cells as usize);
                push_repeated(&mut text, ' ', (BAR_WIDTH - cells) as usize);
                text.push(' ');
                assert(text@ == size_text_cell(size@, total_size@));
                let style = self.skin.on_row(self.name_style(line), selected);
                print(f, style, text);
            },
            None => {
                let style = self.skin.on_row(self.skin.tree, selected);
                print_str(f, style, "──────────────── ");
            },
        }
    }

    /// Appends the permissions column of `line` to `f`: its mode, owner and
    /// group, the names padded to `widths`, or the placeholder.
    pub fn write_line_permissions(
        &self,
        f: &mut Vec<DrawOp>,
        line: &TreeLine,
        widths: (usize, usize),
        selected: bool,
    )
        ensures
            ops_view(final(f)@) == ops_view(old(f)@) + permissions_cell(
                *self.skin,
                line@,
                (widths.0 as nat, widths.1 as nat),
                selected,
            ),
    {
        let selectable: bool = line.is_selectable();
        match &line.permissions {
            Some(p) if selectable => {
                let mut text = String::new();
                push_mode(&mut text, p.mode);
                text.push(' ');
                push_padded_right(&mut text, &p.user, widths.0);
                text.push(' ');
                push_padded_right(&mut text, &p.group, widths.1);
                text.push(' ');
                assert(text@ == permissions_text(p@, (widths.0 as nat, widths.1 as nat)));
                let style = self.skin.on_row(self.skin.permissions, selected);
                print(f, style, text);
            },
            _ => {
                let style = self.skin.on_row(self.skin.tree, selected);
                print_str(f, style, "──────────────");
            },
        }
    }

    /// Appends the date column of a line changed at `modified` to `f`: the
    /// local date and time, or the placeholder.
    pub fn write_date(&self, f: &mut Vec<DrawOp>, modified: Option<LocalTime>, selected: bool)
        ensures
            ops_view(final(f)@) == ops_view(old(f)@) + date_cell(
                *self.skin,
                date_shown(modified),
                selected,
            ),
    {
        match date_text(modified) {
            Some(text) => {
                let style = self.skin.on_row(self.skin.dates, selected);
                print(f, style, text);
            },
            None => {
                let style = self.skin.on_row(self.skin.tree, selected);
                print_str(f, style, "──────────────── ");
            },
        }
    }

    /// The end of the run of the name of `line` that starts at `start`.
    fn run_end(line: &TreeLine, len: usize, start: usize) -> (end: usize)
        requires
            start < len,
        ensures
            end == run_end(len as int, line@.name_match, start as int, start + 1),
            start < end <= len,
    {
        let matched: bool = line.is_matched(start);
        let mut end: usize = start + 1;
        while end < len
            invariant
                start < end <= len,
                matched == line@.name_match.contains(start as int),
                run_end(len as int, line@.name_match, start as int, end as int) == run_end(
                    len as int,
                    line@.name_match,
                    start as int,
                    start + 1,
                ),
            decreases len - end,
        {
            if line.is_matched(end) != matched {
                return end;
            }
            end += 1;
        }
        end
    }

    /// Appends the name of `line` to `f`, cut into runs of matched and of
    /// unmatched characters, in `highlight` and in `normal`.
    fn write_spans(&self, f: &mut Vec<DrawOp>, line: &TreeLine, normal: Style, highlight: Style)
        ensures
            ops_view(final(f)@) == ops_view(old(f)@) + spans(
                line@.name,
                line@.name_match,
                normal,
                highlight,
                0,
            ),
    {
        let name = line.name.as_str();
        let len: usize = name.unicode_len();
        let ghost all = spans(line@.name, line@.name_match, normal, highlight, 0);
        let mut start: usize = 0;
        while start < len
            invariant
                start <= len,
                len == name@.len(),
                name@ == line@.name,
                all == spans(line@.name, line@.name_match, normal, highlight, 0),
                ops_view(f@) + spans(line@.name, line@.name_match, normal, highlight, start as int)
                    == ops_view(old(f)@) + all,
            decreases len - start,
        {
            let end: usize = Self::run_end(line, len, start);
            let style = if line.is_matched(start) {
                highlight
            } else {
                normal
            };
            print_str(f, style, name.substring_char(start, end));
            start = end;
        }
    }

    /// Appends what follows the name of `line` to `f`.
    fn write_name_suffix(&self, f: &mut Vec<DrawOp>, line: &TreeLine, selected: bool)
        ensures
            ops_view(final(f)@) == ops_view(old(f)@) + name_suffix(*self.skin, line@, selected),
    {
        let style = self.skin.on_row(self.name_style(line), selected);
        match &line.line_type {
            LineType::Dir => {
                if line.unlisted > 0 {
                    print_str(f, style, " …");
                }
            },
            LineType::SymLinkToFile(target) => {
                self.write_link_target(f, line, target, style, selected);
            },
            LineType::SymLinkToDir(target) => {
                self.write_link_target(f, line, target, style, selected);
            },
            _ => {},
        }
    }

    /// Appends the arrow and the target of the link `line` to `f`.
    fn write_link_target(
        &self,
        f: &mut Vec<DrawOp>,
        line: &TreeLine,
        target: &String,
        style: Style,
        selected: bool,
    )
        ensures
            ops_view(final(f)@) == ops_view(old(f)@).push(
                printed(style, " -> "@),
            ).push(
                printed(
                    on_row(
                        *self.skin,
                        if line.has_error {
                            self.skin.file_error
                        } else if line@.is_dir() {
                            self.skin.directory
                        } else {
                            self.skin.file
                        },
                        selected,
                    ),
                    target@,
                ),
            ),
    {
        print_str(f, style, " -> ");
        let target_style = if line.has_error {
            self.skin.file_error
        } else if line.is_dir() {
            self.skin.directory
        } else {
            self.skin.file
        };
        print(f, self.skin.on_row(target_style, selected), target.clone());
    }

    /// Appends the name column of `line`, the line of index `idx`, to `f`: the
    /// whole path for the root, the name with its matched characters
    /// highlighted for another line, and what follows the name.
    pub fn write_line_name(&self, f: &mut Vec<DrawOp>, line: &TreeLine, idx: usize, selected: bool)
        ensures
            ops_view(final(f)@) == ops_view(old(f)@) + name_cell(
                *self.skin,
                line@,
                idx as int,
                selected,
            ),
    {
        let style = self.skin.on_row(self.name_style(line), selected);
        if idx == 0 {
            print(f, style, line.path.clone());
        } else {
            let char_match_style = self.skin.on_row(self.skin.char_match, selected);
            self.write_spans(f, line, style, char_match_style);
        }
        self.write_name_suffix(f, line, selected);
    }

    /// Appends the columns of line `line_index` to `f`, the names of owner and
    /// group padded to `widths`.
    pub fn write_line(&self, f: &mut Vec<DrawOp>, line_index: usize, widths: (usize, usize))
        requires
            self.tree.wf(),
            line_index < self.tree.lines.len(),
            (widths.0 as nat, widths.1 as nat) == name_widths(self.tree@),
        ensures
            ops_view(final(f)@) == ops_view(old(f)@) + line_ops(self@, line_index as int),
    {
        let tree = self.tree;
        let line = &tree.lines[line_index];
        let selected: bool = self.in_app && line_index == tree.selection;
        let ghost index = line_index as int;
        let ghost start = ops_view(f@);
        if line_index > 0 {
            self.write_branches(f, line_index, selected);
        }
        if tree.options.show_sizes && line_index > 0 {
            self.write_line_size(f, line, tree.total_size(), selected);
        }
        if tree.options.show_permissions && line_index > 0 {
            self.write_line_permissions(f, line, widths, selected);
        }
        if tree.options.show_dates && line_index > 0 {
            self.write_date(f, line.modified, selected);
        }
        self.write_line_name(f, line, line_index, selected);
        proof {
            lemma_append_five(
                start,
                branch_column(self@, index),
                size_column(self@, index),
                permissions_column(self@, index),
                date_column(self@, index),
                name_cell(*self.skin, line@, index, selected),
            );
        }
    }

    /// Appends the end of row `y` to `f`.
    pub fn write_row_end(
        &self,
        f: &mut Vec<DrawOp>,
        y: u16,
        selected: bool,
        scrollbar: Option<(u16, u16)>,
    )
        requires
            match shown_span(self@) {
                Some((top, bottom)) => scrollbar == Some((top as u16, bottom as u16)) && 0 <= top
                    < bottom <= u16::MAX,
                None => scrollbar is None,
            },
        ensures
            ops_view(final(f)@) == ops_view(old(f)@) + row_end_ops(self@, y as int, selected),
    {
        if selected {
            set_background(f, self.skin.selected_line);
        } else {
            set_background(f, self.skin.default);
        }
        if self.in_app {
            emit(f, DrawOp::ClearUntilNewLine);
            emit(f, DrawOp::ResetBackground);
            if let Some((sctop, scbottom)) = scrollbar {
                emit(f, DrawOp::MoveTo { x: self.area.width, y });
                let style = if sctop <= y && y <= scbottom {
                    self.skin.scrollbar_thumb
                } else {
                    self.skin.scrollbar_track
                };
                print_str(f, style, "▐");
            }
        }
        emit(f, DrawOp::NewLine);
    }

    /// Appends row `y` of the window to `f`.
    pub fn write_row(
        &self,
        f: &mut Vec<DrawOp>,
        y: u16,
        widths: (usize, usize),
        scrollbar: Option<(u16, u16)>,
    )
        requires
            self@.wf(),
            (widths.0 as nat, widths.1 as nat) == name_widths(self.tree@),
            match shown_span(self@) {
                Some((top, bottom)) => scrollbar == Some((top as u16, bottom as u16)) && 0 <= top
                    < bottom <= u16::MAX,
                None => scrollbar is None,
            },
        ensures
            ops_view(final(f)@) == ops_view(old(f)@) + row_ops(self@, y as int),
    {
        let tree = self.tree;
        let ghost start = ops_view(f@);
        if self.in_app {
            emit(f, DrawOp::MoveTo { x: 0, y });
        }
        let mut line_index: usize = y as usize;
        if line_index > 0 {
            line_index += tree.scrolled() as usize;
        }
        let mut selected: bool = false;
        if line_index < tree.lines.len() {
            selected = self.in_app && line_index == tree.selection;
            self.write_line(f, line_index, widths);
        }
        self.write_row_end(f, y, selected, scrollbar);
        proof {
            lemma_append_three(
                start,
                cursor_ops(self@, y as int),
                shown_line_ops(self@, y as int),
                row_end_ops(self@, y as int, selected),
            );
        }
    }

    /// The rows of the thumb of the scrollbar, where one is drawn: in the
    /// application, when the tree has more lines than the viewport has rows and
    /// the span can be computed.
    pub fn scrollbar(&self) -> (span: Option<(u16, u16)>)
        ensures
            match shown_span(self@) {
                Some((top, bottom)) => span == Some((top as u16, bottom as u16)) && 0 <= top
                    < bottom <= u16::MAX,
                None => span is None,
            },
    {
        let len: usize = self.tree.lines.len();
        let height: u16 = self.area.height;
        if !self.in_app || len <= height as usize {
            return None;
        }
        let scroll: i32 = self.tree.scrolled();
        if height > MAX_SCROLLBAR_HEIGHT || len > i32::MAX as usize || scroll as usize > len {
            return None;
        }
        assert(len * height <= i32::MAX * 32767) by (nonlinear_arith)
            requires
                0 <= len <= i32::MAX,
                0 <= height <= 32767,
        ;
        if (len as u64) * (height as u64) > i32::MAX as u64 {
            return None;
        }
        self.area.scrollbar(scroll, len as i32)
    }

    /// Appends the whole window to `f`.
    ///
    /// In the application every row of the viewport is drawn, those under the
    /// tree as blank rows. For export the viewport has as many rows as the tree
    /// has lines.
    pub fn write_on(&self, f: &mut Vec<DrawOp>)
        requires
            self@.wf(),
        ensures
            ops_view(final(f)@) == ops_view(old(f)@) + frame_ops(self@, self.area.height as nat),
    {
        let widths = user_group_max_lengths(self.tree);
        let scrollbar = self.scrollbar();
        let mut y: u16 = 0;
        while y < self.area.height
            invariant
                y <= self.area.height,
                self@.wf(),
                (widths.0 as nat, widths.1 as nat) == name_widths(self.tree@),
                match shown_span(self@) {
                    Some((top, bottom)) => scrollbar == Some((top as u16, bottom as u16)) && 0
                        <= top < bottom <= u16::MAX,
                    None => scrollbar is None,
                },
                ops_view(f@) == ops_view(old(f)@) + frame_ops(self@, y as nat),
            decreases self.area.height - y,
        {
            self.write_row(f, y, widths, scrollbar);
            y += 1;
        }
    }
}

/// The widths of the owner and group columns of `tree`: the length of the
/// longest name of each kind over all its lines, the root included, whatever
/// the window shows; zero where permissions are not shown.
pub fn user_group_max_lengths(tree: &Tree) -> (widths: (usize, usize))
    ensures
        (widths.0 as nat, widths.1 as nat) == name_widths(tree@),
{
    let mut max_user_len: usize = 0;
    let mut max_group_len: usize = 0;
    if tree.options.show_permissions {
        let mut i: usize = 0;
        while i < tree.lines.len()
            invariant
                i <= tree.lines.len(),
                max_user_len == longest_user(tree@.lines, i as nat),
                max_group_len == longest_group(tree@.lines, i as nat),
            decreases tree.lines.len() - i,
        {
            match &tree.lines[i].permissions {
                Some(p) => {
                    let user_len: usize = char_count(&p.user);
                    if user_len > max_user_len {
                        max_user_len = user_len;
                    }
                    let group_len: usize = char_count(&p.group);
                    if group_len > max_group_len {
                        max_group_len = group_len;
                    }
                },
                None => {},
            }
            i += 1;
        }
    }
    (max_user_len, max_group_len)
}

} // verus!
