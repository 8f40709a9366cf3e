use vstd::prelude::*;

use crate::geometry::Constraint;
use crate::geometry::Rect;
use crate::surface::Surface;
use crate::widget::Widget;
use ratatui::layout::Constraint as RtConstraint;
use ratatui::layout::Layout as RtLayout;
use ratatui::layout::Rect as RtRect;

verus! {

/// The extent that ratatui's layout solver gives the first of two segments
/// when an extent of `total` cells is split under the constraints
/// `[c, Fill(1)]`. The solve is deterministic and depends only on the
/// constraint and the extent, not on the axis or the area's position.
pub uninterp spec fn solved_first_extent(c: Constraint, total: u16) -> u16;

/// `v` held to the range of available cells: negative amounts give nothing,
/// amounts beyond `total` give everything.
pub open spec fn clamped(v: int, total: u16) -> u16 {
    if v < 0 {
        0
    } else if v <= total {
        v as u16
    } else {
        total
    }
}

/// The extent of the first region of a split, never more than what is
/// available: a `Length` is honoured up to `total`; a `Percentage` or `Ratio`
/// that comes to a whole number of cells is honoured exactly; any other
/// constraint receives whatever the layout solver gives it.
pub open spec fn first_extent(c: Constraint, total: u16) -> u16 {
    match c {
        Constraint::Length(n) => clamped(n as int, total),
        Constraint::Percentage(p) => if p <= 100 && (p as int * total as int) % 100 == 0 {
            clamped(p as int * total as int / 100, total)
        } else {
            clamped(solved_first_extent(c, total) as int, total)
        },
        Constraint::Ratio(num, den) => if 0 < den && num <= den && (num as int * total as int) % (
        den as int) == 0 {
            clamped(num as int * total as int / (den as int), total)
        } else {
            clamped(solved_first_extent(c, total) as int, total)
        },
        Constraint::Fill(_) => clamped(solved_first_extent(c, total) as int, total),
    }
}

/// The first (top) region of a vertical split of `area`.
pub open spec fn vsplit_first(area: Rect, c: Constraint) -> Rect {
    Rect { x: area.x, y: area.y, width: area.width, height: first_extent(c, area.height) }
}

/// The second (bottom) region of a vertical split of `area`: whatever extent
/// the first region does not take.
pub open spec fn vsplit_second(area: Rect, c: Constraint) -> Rect {
    Rect {
        x: area.x,
        y: (area.y + first_extent(c, area.height)) as u16,
        width: area.width,
        height: (area.height - first_extent(c, area.height)) as u16,
    }
}

/// The first (left) region of a horizontal split of `area`.
pub open spec fn hsplit_first(area: Rect, c: Constraint) -> Rect {
    Rect { x: area.x, y: area.y, width: first_extent(c, area.width), height: area.height }
}

/// The second (right) region of a horizontal split of `area`.
pub open spec fn hsplit_second(area: Rect, c: Constraint) -> Rect {
    Rect {
        x: (area.x + first_extent(c, area.width)) as u16,
        y: area.y,
        width: (area.width - first_extent(c, area.width)) as u16,
        height: area.height,
    }
}

/// Relies on ratatui's `Layout::split`, reached through `Layout::vertical`
/// with the constraints `[c, Fill(1)]`: the two segments keep the area's
/// columns and tile its rows from the top, and the first segment's height is
/// what `first_extent` states - a `Length` honoured up to the available
/// extent, a `Percentage` or `Ratio` of the extent honoured exactly whenever
/// it comes to a whole number of cells.
#[verifier::external_body]
fn split_vertical(area: Rect, c: Constraint) -> (r: (Rect, Rect))
    requires
        area.proper(),
    ensures
        r.0.x == area.x && r.0.y == area.y && r.0.width == area.width,
        r.0.height == solved_first_extent(c, area.height),
        r.0.height == first_extent(c, area.height),
        r.1.x == area.x && r.1.width == area.width,
        r.1.y == area.y + r.0.height,
        r.1.height == area.height - r.0.height,
{
    let rc = match c {
        Constraint::Length(n) => RtConstraint::Length(n),
        Constraint::Percentage(p) => RtConstraint::Percentage(p),
        Constraint::Ratio(num, den) => RtConstraint::Ratio(num, den),
        Constraint::Fill(w) => RtConstraint::Fill(w),
    };
    let rt = RtRect { x: area.x, y: area.y, width: area.width, height: area.height };
    let [a, b] = RtLayout::vertical([rc, RtConstraint::Fill(1)]).areas::<2>(rt);
    (
        Rect { x: a.x, y: a.y, width: a.width, height: a.height },
        Rect { x: b.x, y: b.y, width: b.width, height: b.height },
    )
}

/// Relies on ratatui's `Layout::split`, reached through `Layout::horizontal`
/// with the constraints `[c, Fill(1)]`: the two segments keep the area's rows
/// and tile its columns from the left; the first segment's width is what
/// `first_extent` states, the same function of the constraint and the
/// available extent as in the vertical case, since the solve does not depend
/// on the axis.
#[verifier::external_body]
fn split_horizontal(area: Rect, c: Constraint) -> (r: (Rect, Rect))
    requires
        area.proper(),
    ensures
        r.0.x == area.x && r.0.y == area.y && r.0.height == area.height,
        r.0.width == solved_first_extent(c, area.width),
        r.0.width == first_extent(c, area.width),
        r.1.y == area.y && r.1.height == area.height,
        r.1.x == area.x + r.0.width,
        r.1.width == area.width - r.0.width,
{
    let rc = match c {
        Constraint::Length(n) => RtConstraint::Length(n),
        Constraint::Percentage(p) => RtConstraint::Percentage(p),
        Constraint::Ratio(num, den) => RtConstraint::Ratio(num, den),
        Constraint::Fill(w) => RtConstraint::Fill(w),
    };
    let rt = RtRect { x: area.x, y: area.y, width: area.width, height: area.height };
    let [a, b] = RtLayout::horizontal([rc, RtConstraint::Fill(1)]).areas::<2>(rt);
    (
        Rect { x: a.x, y: a.y, width: a.width, height: a.height },
        Rect { x: b.x, y: b.y, width: b.width, height: b.height },
    )
}

/// A pair of rows: the constraint fixes the height of the top row, and the
/// bottom row takes the remaining height.
pub struct Rows<TopContent: Widget, BottomContent: Widget>(
    pub TopContent,
    pub BottomContent,
    pub Constraint,
);

impl<TopContent: Widget, BottomContent: Widget> Widget for Rows<TopContent, BottomContent> {
    open spec fn rendered(self, area: Rect, g: Seq<Seq<char>>) -> Seq<Seq<char>> {
        self.1.rendered(vsplit_second(area, self.2), self.0.rendered(vsplit_first(area, self.2), g))
    }

    proof fn rendered_frame(self, area: Rect, g: Seq<Seq<char>>) {
        let first = vsplit_first(area, self.2);
        let second = vsplit_second(area, self.2);
        let g1 = self.0.rendered(first, g);
        let g2 = self.1.rendered(second, g1);
        self.0.rendered_frame(first, g);
        self.1.rendered_frame(second, g1);
        assert forall|y: int| 0 <= y < g.len() implies (#[trigger] g2[y]).len() == g[y].len() by {
            assert(g1[y].len() == g[y].len());
        }
        assert forall|y: int, x: int|
            0 <= y < g.len() && 0 <= x < g[y].len() && !area.contains(x, y)
                implies #[trigger] g2[y][x] == g[y][x] by {
            assert(!first.contains(x, y));
            assert(!second.contains(x, y));
            assert(g1[y][x] == g[y][x]);
        }
    }

    fn render(self, area: Rect, buf: &mut Surface) {
        let (first, second) = split_vertical(area, self.2);
        proof {
            assert(first == vsplit_first(area, self.2));
            assert(second == vsplit_second(area, self.2));
        }
        self.0.render(first, buf);
        self.1.render(second, buf);
    }
}

/// A pair of columns: the constraint fixes the width of the left column, and
/// the right column takes the remaining width.
pub struct Columns<LeftContent: Widget, RightContent: Widget>(
    pub LeftContent,
    pub RightContent,
    pub Constraint,
);

impl<LeftContent: Widget, RightContent: Widget> Widget for Columns<LeftContent, RightContent> {
    open spec fn rendered(self, area: Rect, g: Seq<Seq<char>>) -> Seq<Seq<char>> {
        self.1.rendered(hsplit_second(area, self.2), self.0.rendered(hsplit_first(area, self.2), g))
    }

    proof fn rendered_frame(self, area: Rect, g: Seq<Seq<char>>) {
        let first = hsplit_first(area, self.2);
        let second = hsplit_second(area, self.2);
        let g1 = self.0.rendered(first, g);
        let g2 = self.1.rendered(second, g1);
        self.0.rendered_frame(first, g);
        self.1.rendered_frame(second, g1);
        assert forall|y: int| 0 <= y < g.len() implies (#[trigger] g2[y]).len() == g[y].len() by {
            assert(g1[y].len() == g[y].len());
        }
        assert forall|y: int, x: int|
            0 <= y < g.len() && 0 <= x < g[y].len() && !area.contains(x, y)
                implies #[trigger] g2[y][x] == g[y][x] by {
            assert(!first.contains(x, y));
            assert(!second.contains(x, y));
            assert(g1[y][x] == g[y][x]);
        }
    }

    fn render(self, area: Rect, buf: &mut Surface) {
        let (first, second) = split_horizontal(area, self.2);
        proof {
            assert(first == hsplit_first(area, self.2));
            assert(second == hsplit_second(area, self.2));
        }
        self.0.render(first, buf);
        self.1.render(second, buf);
    }
}

/// The two regions of a vertical split are disjoint, lie within the split
/// area, and together cover it exactly.
pub proof fn lemma_vsplit_partition(area: Rect, c: Constraint)
    requires
        area.proper(),
    ensures
        vsplit_first(area, c).disjoint(vsplit_second(area, c)),
        vsplit_first(area, c).within(area),
        vsplit_second(area, c).within(area),
        forall|x: int, y: int| #[trigger]
            area.contains(x, y) ==> vsplit_first(area, c).contains(x, y) || vsplit_second(
                area,
                c,
            ).contains(x, y),
{
}

/// The two regions of a horizontal split are disjoint, lie within the split
/// area, and together cover it exactly.
pub proof fn lemma_hsplit_partition(area: Rect, c: Constraint)
    requires
        area.proper(),
    ensures
        hsplit_first(area, c).disjoint(hsplit_second(area, c)),
        hsplit_first(area, c).within(area),
        hsplit_second(area, c).within(area),
        forall|x: int, y: int| #[trigger]
            area.contains(x, y) ==> hsplit_first(area, c).contains(x, y) || hsplit_second(
                area,
                c,
            ).contains(x, y),
{
}

/// The heights of the two regions of a vertical split always sum to the
/// area's height: the second region's share is exactly the complement of the
/// first region's.
pub proof fn lemma_vsplit_extents_sum(area: Rect, c: Constraint)
    ensures
        vsplit_first(area, c).height + vsplit_second(area, c).height == area.height,
{
}

/// The widths of the two regions of a horizontal split always sum to the
/// area's width: the second region's share is exactly the complement of the
/// first region's.
pub proof fn lemma_hsplit_extents_sum(area: Rect, c: Constraint)
    ensures
        hsplit_first(area, c).width + hsplit_second(area, c).width == area.width,
{
}

} // verus!
