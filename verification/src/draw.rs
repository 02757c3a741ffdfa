//! The drawing operations that rendering produces, in the order in which a
//! terminal is to carry them out.

use vstd::prelude::*;
use crate::skin::{Color, Style};

verus! {

/// One thing to do on the terminal.
#[derive(Clone, Debug, PartialEq, Eq)]
pub enum DrawOp {
    /// Move the cursor to column `x` of row `y`.
    MoveTo { x: u16, y: u16 },
    /// Print `text` with the colors of `style`.
    Print { style: Style, text: String },
    /// Make `color` the background of what follows.
    SetBackground { color: Color },
    /// Clear the row from the cursor to its end, with the current background.
    ClearUntilNewLine,
    /// Go back to the terminal's own background.
    ResetBackground,
    /// End the row.
    NewLine,
}

/// The mathematical value of a [`DrawOp`].
pub enum DrawOpView {
    MoveTo { x: u16, y: u16 },
    Print { style: Style, text: Seq<char> },
    SetBackground { color: Color },
    ClearUntilNewLine,
    ResetBackground,
    NewLine,
}

impl View for DrawOp {
    type V = DrawOpView;

    open spec fn view(&self) -> DrawOpView {
        match self {
            DrawOp::MoveTo { x, y } => DrawOpView::MoveTo { x: *x, y: *y },
            DrawOp::Print { style, text } => DrawOpView::Print { style: *style, text: text@ },
            DrawOp::SetBackground { color } => DrawOpView::SetBackground { color: *color },
            DrawOp::ClearUntilNewLine => DrawOpView::ClearUntilNewLine,
            DrawOp::ResetBackground => DrawOpView::ResetBackground,
            DrawOp::NewLine => DrawOpView::NewLine,
        }
    }
}

/// The values of a sequence of operations.
pub open spec fn ops_view(ops: Seq<DrawOp>) -> Seq<DrawOpView> {
    ops.map_values(|op: DrawOp| op@)
}

/// The operation that prints `text` in `style`.
pub open spec fn printed(style: Style, text: Seq<char>) -> DrawOpView {
    DrawOpView::Print { style, text }
}

/// The operation that sets the background of `style`, where it has one.
pub open spec fn background_ops(style: Style) -> Seq<DrawOpView> {
    match style.bg {
        Some(color) => seq![DrawOpView::SetBackground { color }],
        None => Seq::empty(),
    }
}

/// Appends `op` to `f`.
pub fn emit(f: &mut Vec<DrawOp>, op: DrawOp)
    ensures
        ops_view(final(f)@) == ops_view(old(f)@).push(op@),
{
    f.push(op);
}

/// Appends the printing of `text` in `style` to `f`.
pub fn print(f: &mut Vec<DrawOp>, style: Style, text: String)
    ensures
        ops_view(final(f)@) == ops_view(old(f)@).push(printed(style, text@)),
{
    emit(f, DrawOp::Print { style, text });
}

/// Appends the printing of `text` in `style` to `f`.
pub fn print_str(f: &mut Vec<DrawOp>, style: Style, text: &str)
    ensures
        ops_view(final(f)@) == ops_view(old(f)@).push(printed(style, text@)),
{
    print(f, style, text.to_owned());
}

/// Appends to `f` the setting of the background of `style`, where it has one.
pub fn set_background(f: &mut Vec<DrawOp>, style: Style)
    ensures
        ops_view(final(f)@) == ops_view(old(f)@) + background_ops(style),
{
    match style.bg {
        Some(color) => {
            emit(f, DrawOp::SetBackground { color });
        },
        None => {},
    }
}

} // verus!
