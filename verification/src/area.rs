//! The part of the screen that a tree is drawn in, and the span of the
//! scrollbar that goes with it.

use vstd::prelude::*;

verus! {

/// A rectangular part of the screen.
#[derive(Clone, Copy, Debug, PartialEq, Eq, Structural)]
pub struct Area {
    pub left: u16,
    pub top: u16,
    pub width: u16,
    pub height: u16,
}

/// The largest height for which the span of a scrollbar is computed: the last
/// row of a thumb may lie as far under its top as the area is high, and is a
/// 16-bit number.
pub const MAX_SCROLLBAR_HEIGHT: u16 = 32767;

/// `a / b` rounded towards zero, and one more where the division is not exact.
/// For `a >= 0` this is the quotient rounded up.
pub open spec fn div_up(a: int, b: int) -> int {
    if a >= 0 {
        a / b + if a % b != 0 {
            1int
        } else {
            0int
        }
    } else {
        -((-a) / b) + if (-a) % b != 0 {
            1int
        } else {
            0int
        }
    }
}

/// The first row of the thumb: the share `scroll / content_height` of the
/// `height` rows, rounded up.
pub open spec fn thumb_top(scroll: int, content_height: int, height: int) -> int {
    div_up(scroll * height, content_height)
}

/// The number of rows left under the thumb: the share of the `height` rows
/// that stands for the content hidden below the window.
pub open spec fn thumb_tail(scroll: int, content_height: int, height: int) -> int {
    div_up((content_height - scroll - height) * height, content_height)
}

/// The rows, first and last, of the thumb of a scrollbar of `height` rows, for
/// a content of `content_height` lines of which `scroll` are scrolled out above.
/// There is none where the content fits in the height. The thumb ends where the
/// tail begins, and is never empty: it ends at least one row under its top.
pub open spec fn scrollbar_span(scroll: int, content_height: int, height: int) -> Option<
    (int, int),
> {
    if content_height <= height {
        None
    } else {
        let top = thumb_top(scroll, content_height, height);
        let tail = thumb_tail(scroll, content_height, height);
        Some(
            (
                top,
                if height > top + tail {
                    height - tail
                } else {
                    top + 1
                },
            ),
        )
    }
}

/// The span of a scrollbar can be computed in the integers it is computed in:
/// where the content does not fit, no more lines are scrolled out than it has,
/// its height and the product of its height and of the height of the area are
/// 32-bit numbers, and the area is no higher than `MAX_SCROLLBAR_HEIGHT`.
pub open spec fn scrollable(scroll: int, content_height: int, height: int) -> bool {
    content_height > height ==> {
        &&& 0 <= scroll <= content_height <= i32::MAX
        &&& content_height * height <= i32::MAX
        &&& height <= MAX_SCROLLBAR_HEIGHT
    }
}

impl Area {
    /// The rows, first and last, of the thumb of the scrollbar of this area.
    pub fn scrollbar(&self, scroll: i32, content_height: i32) -> (span: Option<(u16, u16)>)
        requires
            scrollable(scroll as int, content_height as int, self.height as int),
        ensures
            match scrollbar_span(scroll as int, content_height as int, self.height as int) {
                Some((top, bottom)) => span == Some((top as u16, bottom as u16)) && 0 <= top
                    < bottom <= u16::MAX,
                None => span is None,
            },
            span is None <==> content_height <= self.height,
    {
        proof {
            lemma_span_bounds(scroll as int, content_height as int, self.height as int);
        }
        area_scrollbar(self.left, self.top, self.width, self.height, scroll, content_height)
    }
}

/// Calls `termimad::Area::scrollbar` on an area with the given fields. The
/// contract restates its source: nothing where the content fits in the height;
/// else the two quotients of `scrollbar_span`, computed in `i32` with Rust's
/// division and cast to `u16`. Under `scrollable` no product leaves `i32` and
/// no row leaves `u16`.
#[verifier::external_body]
fn area_scrollbar(
    left: u16,
    top: u16,
    width: u16,
    height: u16,
    scroll: i32,
    content_height: i32,
) -> (span: Option<(u16, u16)>)
    requires
        scrollable(scroll as int, content_height as int, height as int),
    ensures
        match scrollbar_span(scroll as int, content_height as int, height as int) {
            Some((first, last)) => span == Some((first as u16, last as u16)),
            None => span is None,
        },
{
    termimad::Area { left, top, width, height }.scrollbar(scroll, content_height)
}

/// Where the content does not fit, the thumb starts inside the height or just
/// under it, and ends at least one row lower: it is never empty.
pub proof fn lemma_span_bounds(scroll: int, content_height: int, height: int)
    requires
        0 <= height,
        scrollable(scroll, content_height, height),
    ensures
        scrollbar_span(scroll, content_height, height) is None <==> content_height <= height,
        scrollbar_span(scroll, content_height, height) matches Some((top, bottom)) ==> 0 <= top
            <= height && top < bottom <= 2 * height + 1,
{
    if content_height > height {
        let top = thumb_top(scroll, content_height, height);
        let tail = thumb_tail(scroll, content_height, height);
        assert(0 <= scroll * height <= content_height * height) by (nonlinear_arith)
            requires
                0 <= scroll <= content_height,
                0 <= height,
        ;
        lemma_div_up_bounds(scroll * height, content_height, height);
        let hidden = content_height - scroll - height;
        if hidden >= 0 {
            assert(0 <= hidden * height <= content_height * height) by (nonlinear_arith)
                requires
                    0 <= hidden <= content_height,
                    0 <= height,
            ;
            lemma_div_up_bounds(hidden * height, content_height, height);
        } else {
            assert(0 <= -(hidden * height) <= content_height * height) by (nonlinear_arith)
                requires
                    -height <= hidden < 0,
                    0 <= height < content_height,
            ;
            lemma_div_up_bounds(-(hidden * height), content_height, height);
        }
    }
}

/// For `0 <= a <= b * h`, `a / b` rounded down and rounded up both lie in `0..=h`.
pub proof fn lemma_div_up_bounds(a: int, b: int, h: int)
    requires
        0 < b,
        0 <= h,
        0 <= a <= b * h,
    ensures
        0 <= a / b <= h,
        0 <= div_up(a, b) <= h,
        -h <= div_up(-a, b) <= 1,
{
    assert(0 <= a / b <= h && (a % b != 0 ==> a / b < h)) by (nonlinear_arith)
        requires
            0 < b,
            0 <= h,
            0 <= a <= b * h,
    ;
}

} // verus!
