//! The branches drawn on the left of a line: for each depth above the line's
//! own, one glyph of three characters.

use vstd::prelude::*;
use crate::flat_tree::{Tree, TreeLineView, TreeView};

verus! {

/// What is drawn in one column on the left of a line.
#[derive(Clone, Copy, Debug, PartialEq, Eq, Structural)]
pub enum Branch {
    /// Nothing: no branch passes here.
    Blank,
    /// The branch ends on this line, its last child.
    Turn,
    /// The branch reaches this line and goes on to a later child.
    Continue,
    /// The branch passes this line on its way to a later one.
    PassThrough,
}

/// The glyph of a branch.
pub open spec fn glyph(branch: Branch) -> Seq<char> {
    match branch {
        Branch::Blank => "   "@,
        Branch::Turn => "└──"@,
        Branch::Continue => "├──"@,
        Branch::PassThrough => "│  "@,
    }
}

/// What is drawn on line `row` in the column of depth `depth`.
///
/// Nothing where the line has no branch there. Where it has one, the column
/// next to the name holds a turn or a continuation, according to whether the
/// branch is still open on the next line; a column further left holds the
/// passing branch while it is open on the next line, and nothing once it is
/// closed.
pub open spec fn branch_at(tree: TreeView, row: int, depth: int) -> Branch {
    let line = tree.lines[row];
    let last_level = depth == line.depth - 1;
    if !line.left_branchs[depth] {
        Branch::Blank
    } else if tree.has_branch(row + 1, depth) {
        if last_level {
            Branch::Continue
        } else {
            Branch::PassThrough
        }
    } else if last_level {
        Branch::Turn
    } else {
        Branch::Blank
    }
}

/// The branches of line `row`, from the column of the root to that next to
/// the name: one for each depth above the line's own.
pub open spec fn branches_of(tree: TreeView, row: int) -> Seq<Branch> {
    Seq::new(tree.lines[row].depth, |depth: int| branch_at(tree, row, depth))
}

/// Line `child`, at or after line `row`, has depth `depth + 1`, and no line
/// from `row` to it is less deep.
pub open spec fn reaches_child(depths: Seq<nat>, row: int, depth: int, child: int) -> bool {
    &&& 0 <= row <= child < depths.len()
    &&& depths[child] == depth + 1
    &&& forall|k: int| row <= k <= child ==> #[trigger] depths[k] >= depth + 1
}

/// From line `row` on, a line of depth `depth + 1` comes before any line of
/// depth `depth` or less: the entry of depth `depth` above line `row` still
/// has a child at or after that line.
pub open spec fn leads_to_child(depths: Seq<nat>, row: int, depth: int) -> bool {
    exists|child: int| #[trigger] reaches_child(depths, row, depth, child)
}

/// After line `row` a line of the same depth comes before any line less deep:
/// the line is not the last child of its parent.
pub open spec fn has_later_sibling(depths: Seq<nat>, row: int) -> bool {
    leads_to_child(depths, row + 1, depths[row] - 1)
}

/// The depths are those of the lines of a tree, laid out one after the other:
/// the first line is the root, the only line of depth 0, and no line is more
/// than one level deeper than the line before it.
pub open spec fn nested(depths: Seq<nat>) -> bool {
    &&& depths.len() > 0 ==> depths[0] == 0
    &&& forall|i: int| 0 < i < depths.len() ==> 1 <= #[trigger] depths[i] <= depths[i - 1] + 1
}

/// Line `parent` is the parent of line `row`: the last line before it that is
/// one level less deep.
pub open spec fn is_parent(depths: Seq<nat>, parent: int, row: int) -> bool {
    &&& 0 <= parent < row < depths.len()
    &&& depths[parent] + 1 == depths[row]
    &&& forall|k: int| parent < k < row ==> #[trigger] depths[k] >= depths[row]
}

/// Among nested depths, a line at or before `from` is the parent of line
/// `row`, when no line from `from` to `row` is less deep than a parent is.
proof fn lemma_parent_before(depths: Seq<nat>, row: int, from: int)
    requires
        nested(depths),
        0 <= from < row < depths.len(),
        depths[from] + 1 >= depths[row],
        forall|k: int| from < k < row ==> #[trigger] depths[k] >= depths[row],
    ensures
        exists|parent: int| #[trigger] is_parent(depths, parent, row),
    decreases from,
{
    if depths[from] + 1 == depths[row] {
        assert(is_parent(depths, from, row));
    } else {
        lemma_parent_before(depths, row, from - 1);
    }
}

/// Among nested depths, every line but the root has a parent.
pub proof fn lemma_parent_exists(depths: Seq<nat>, row: int)
    requires
        nested(depths),
        0 < row < depths.len(),
    ensures
        exists|parent: int| #[trigger] is_parent(depths, parent, row),
{
    lemma_parent_before(depths, row, row - 1);
}

/// The depths of the lines of a tree.
pub open spec fn depths_of(tree: TreeView) -> Seq<nat> {
    tree.lines.map_values(|line: TreeLineView| line.depth)
}

/// The branch bits of the tree are those that its depths call for: a line has
/// a branch at a depth above its own exactly where the entry of that depth
/// above it still has a child at or after the line.
pub open spec fn branches_follow_depths(tree: TreeView) -> bool {
    &&& tree.wf()
    &&& forall|row: int, depth: int|
        0 <= row < tree.lines.len() && 0 <= depth < tree.lines[row].depth
            ==> #[trigger] tree.lines[row].left_branchs[depth] == leads_to_child(
            depths_of(tree),
            row,
            depth,
        )
}

/// The depths that a list of depths holds.
pub open spec fn depth_values(depths: Seq<u16>) -> Seq<nat> {
    depths.map_values(|depth: u16| depth as nat)
}

/// Whether, in a tree whose lines have the depths `depths`, the entry of depth
/// `depth` above line `row` still has a child at or after that line.
pub fn still_open(depths: &Vec<u16>, row: usize, depth: u16) -> (open: bool)
    requires
        row < depths.len(),
    ensures
        open == leads_to_child(depth_values(depths@), row as int, depth as int),
{
    let ghost values = depth_values(depths@);
    let mut j: usize = row;
    while j < depths.len()
        invariant
            row <= j <= depths.len(),
            values == depth_values(depths@),
            forall|k: int| row <= k < j ==> #[trigger] values[k] > depth + 1,
        decreases depths.len() - j,
    {
        if depths[j] <= depth {
            assert forall|child: int| !reaches_child(values, row as int, depth as int, child) by {
                if reaches_child(values, row as int, depth as int, child) {
                    if child >= j {
                        assert(values[j as int] >= depth + 1);
                    } else {
                        assert(values[child] > depth + 1);
                    }
                }
            }
            return false;
        }
        if depths[j] - 1 == depth {
            assert(reaches_child(values, row as int, depth as int, j as int));
            return true;
        }
        j += 1;
    }
    assert forall|child: int| !reaches_child(values, row as int, depth as int, child) by {
        if reaches_child(values, row as int, depth as int, child) {
            assert(values[child] > depth + 1);
        }
    }
    false
}

/// The branch bits of line `row` of a tree whose lines have the depths
/// `depths`: one for each depth above the line's own, set where the entry of
/// that depth still has a child at or after the line.
pub fn branch_bits(depths: &Vec<u16>, row: usize) -> (bits: Vec<bool>)
    requires
        row < depths.len(),
    ensures
        bits.len() == depths[row as int],
        forall|depth: int|
            0 <= depth < bits.len() ==> #[trigger] bits[depth] == leads_to_child(
                depth_values(depths@),
                row as int,
                depth,
            ),
{
    let line_depth: u16 = depths[row];
    let mut bits: Vec<bool> = Vec::new();
    let mut depth: u16 = 0;
    while depth < line_depth
        invariant
            depth <= line_depth,
            row < depths.len(),
            bits.len() == depth,
            forall|d: int|
                0 <= d < depth ==> #[trigger] bits[d] == leads_to_child(
                    depth_values(depths@),
                    row as int,
                    d,
                ),
        decreases line_depth - depth,
    {
        bits.push(still_open(depths, row, depth));
        depth += 1;
    }
    bits
}

impl Branch {
    /// The three characters that draw the branch.
    pub fn glyph(self) -> (text: &'static str)
        ensures
            text@ == glyph(self),
            text@.len() == 3,
    {
        proof {
            reveal_strlit("   ");
            reveal_strlit("└──");
            reveal_strlit("├──");
            reveal_strlit("│  ");
        }
        match self {
            Branch::Blank => "   ",
            Branch::Turn => "└──",
            Branch::Continue => "├──",
            Branch::PassThrough => "│  ",
        }
    }
}

/// Every glyph is three characters wide.
pub proof fn lemma_glyph_width(branch: Branch)
    ensures
        glyph(branch).len() == 3,
{
    reveal_strlit("   ");
    reveal_strlit("└──");
    reveal_strlit("├──");
    reveal_strlit("│  ");
}

impl Tree {
    /// The depths of the lines of the tree.
    pub fn depths(&self) -> (depths: Vec<u16>)
        ensures
            depths.len() == self.lines.len(),
            depth_values(depths@) == depths_of(self@),
    {
        let mut depths: Vec<u16> = Vec::new();
        let mut row: usize = 0;
        while row < self.lines.len()
            invariant
                row <= self.lines.len(),
                depths.len() == row,
                forall|k: int| 0 <= k < row ==> #[trigger] depths[k] == self.lines[k].depth,
            decreases self.lines.len() - row,
        {
            depths.push(self.lines[row].depth);
            row += 1;
        }
        depths
    }

    /// Whether the lines of the tree nest as those of a tree do.
    pub fn is_nested(&self) -> (is_nested: bool)
        ensures
            is_nested == nested(depths_of(self@)),
    {
        let ghost depths = depths_of(self@);
        if self.lines.len() > 0 && self.lines[0].depth != 0 {
            return false;
        }
        let mut row: usize = 1;
        while row < self.lines.len()
            invariant
                1 <= row,
                depths == depths_of(self@),
                self.lines.len() > 0 ==> depths[0] == 0,
                forall|i: int|
                    0 < i < row && i < depths.len() ==> 1 <= #[trigger] depths[i] <= depths[i
                        - 1] + 1,
            decreases self.lines.len() - row,
        {
            let depth: u16 = self.lines[row].depth;
            let above: u16 = self.lines[row - 1].depth;
            if depth < 1 || depth - 1 > above {
                assert(!(1 <= depths[row as int] <= depths[row - 1] + 1));
                return false;
            }
            row += 1;
        }
        true
    }

    /// Whether the branch bits of the tree are those that its depths call for.
    pub fn branches_follow_depths(&self) -> (follow: bool)
        ensures
            follow == branches_follow_depths(self@),
    {
        let depths = self.depths();
        let mut row: usize = 0;
        while row < self.lines.len()
            invariant
                row <= self.lines.len(),
                depths.len() == self.lines.len(),
                depth_values(depths@) == depths_of(self@),
                forall|r: int| 0 <= r < row ==> (#[trigger] self@.lines[r]).wf(),
                forall|r: int, d: int|
                    0 <= r < row && 0 <= d < self@.lines[r].depth
                        ==> #[trigger] self@.lines[r].left_branchs[d] == leads_to_child(
                        depths_of(self@),
                        r,
                        d,
                    ),
            decreases self.lines.len() - row,
        {
            let line = &self.lines[row];
            if line.left_branchs.len() < line.depth as usize {
                return false;
            }
            let mut depth: u16 = 0;
            while depth < line.depth
                invariant
                    depth <= line.depth,
                    row < self.lines.len(),
                    line == &self.lines[row as int],
                    line@ == self@.lines[row as int],
                    line.left_branchs.len() >= line.depth,
                    depths.len() == self.lines.len(),
                    depth_values(depths@) == depths_of(self@),
                    forall|d: int|
                        0 <= d < depth ==> #[trigger] self@.lines[row as int].left_branchs[d]
                            == leads_to_child(depths_of(self@), row as int, d),
                decreases line.depth - depth,
            {
                if line.left_branchs[depth as usize] != still_open(&depths, row, depth) {
                    return false;
                }
                depth += 1;
            }
            row += 1;
        }
        true
    }

    /// What is drawn on line `line_index` in the column of depth `depth`.
    pub fn branch_at(&self, line_index: usize, depth: usize) -> (branch: Branch)
        requires
            self.wf(),
            line_index < self.lines.len(),
            depth < self.lines[line_index as int].depth,
        ensures
            branch == branch_at(self@, line_index as int, depth as int),
    {
        let line = &self.lines[line_index];
        let last_level: bool = depth + 1 == line.depth as usize;
        if !line.left_branchs[depth] {
            Branch::Blank
        } else if self.has_branch(line_index + 1, depth) {
            if last_level {
                Branch::Continue
            } else {
                Branch::PassThrough
            }
        } else if last_level {
            Branch::Turn
        } else {
            Branch::Blank
        }
    }
}

} // verus!
