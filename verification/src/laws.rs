use vstd::prelude::*;

use crate::cells::EmptyWidget;
use crate::geometry::Constraint;
use crate::geometry::Rect;
use crate::split::Columns;
use crate::split::Rows;
use crate::split::hsplit_first;
use crate::split::hsplit_second;
use crate::split::vsplit_first;
use crate::split::vsplit_second;
use crate::widget::Widget;

verus! {

/// Nesting composes: rendering `Rows(a, Columns(b, c, c2), c1)` draws `b` and
/// `c` inside the second row's region exactly as first drawing `a` into the
/// first region and then drawing `Columns(b, c, c2)` directly into the second
/// region, computed on its own, would.
pub proof fn lemma_nested_split_rendered<A: Widget, B: Widget, C: Widget>(
    a: A,
    b: B,
    c: C,
    c1: Constraint,
    c2: Constraint,
    area: Rect,
    g: Seq<Seq<char>>,
)
    ensures
        (Rows(a, Columns(b, c, c2), c1)).rendered(area, g) == (Columns(b, c, c2)).rendered(
            vsplit_second(area, c1),
            a.rendered(vsplit_first(area, c1), g),
        ),
{
}

/// An empty widget in the top region of a row split leaves every cell of that
/// region exactly as it stands in the initial grid.
pub proof fn lemma_empty_top_region_unchanged<B: Widget>(
    b: B,
    c: Constraint,
    area: Rect,
    g: Seq<Seq<char>>,
)
    requires
        area.proper(),
    ensures
        forall|x: int, y: int|
            #[trigger] vsplit_first(area, c).contains(x, y) && 0 <= y < g.len() && 0 <= x
                < g[y].len() ==> (Rows(EmptyWidget, b, c)).rendered(area, g)[y][x] == g[y][x],
{
    let first = vsplit_first(area, c);
    let second = vsplit_second(area, c);
    b.rendered_frame(second, g);
    assert forall|x: int, y: int|
        #[trigger] first.contains(x, y) && 0 <= y < g.len() && 0 <= x < g[y].len()
            implies (Rows(EmptyWidget, b, c)).rendered(area, g)[y][x] == g[y][x] by {
        assert(!second.contains(x, y));
    }
}

/// An empty widget in the bottom region of a row split leaves every cell of
/// that region exactly as it stands in the initial grid.
pub proof fn lemma_empty_bottom_region_unchanged<A: Widget>(
    a: A,
    c: Constraint,
    area: Rect,
    g: Seq<Seq<char>>,
)
    requires
        area.proper(),
    ensures
        forall|x: int, y: int|
            #[trigger] vsplit_second(area, c).contains(x, y) && 0 <= y < g.len() && 0 <= x
                < g[y].len() ==> (Rows(a, EmptyWidget, c)).rendered(area, g)[y][x] == g[y][x],
{
    let first = vsplit_first(area, c);
    let second = vsplit_second(area, c);
    a.rendered_frame(first, g);
    assert forall|x: int, y: int|
        #[trigger] second.contains(x, y) && 0 <= y < g.len() && 0 <= x < g[y].len()
            implies (Rows(a, EmptyWidget, c)).rendered(area, g)[y][x] == g[y][x] by {
        assert(!first.contains(x, y));
    }
}

/// An empty widget in the left region of a column split leaves every cell of
/// that region exactly as it stands in the initial grid.
pub proof fn lemma_empty_left_region_unchanged<B: Widget>(
    b: B,
    c: Constraint,
    area: Rect,
    g: Seq<Seq<char>>,
)
    requires
        area.proper(),
    ensures
        forall|x: int, y: int|
            #[trigger] hsplit_first(area, c).contains(x, y) && 0 <= y < g.len() && 0 <= x
                < g[y].len() ==> (Columns(EmptyWidget, b, c)).rendered(area, g)[y][x] == g[y][x],
{
    let first = hsplit_first(area, c);
    let second = hsplit_second(area, c);
    b.rendered_frame(second, g);
    assert forall|x: int, y: int|
        #[trigger] first.contains(x, y) && 0 <= y < g.len() && 0 <= x < g[y].len()
            implies (Columns(EmptyWidget, b, c)).rendered(area, g)[y][x] == g[y][x] by {
        assert(!second.contains(x, y));
    }
}

/// An empty widget in the right region of a column split leaves every cell of
/// that region exactly as it stands in the initial grid.
pub proof fn lemma_empty_right_region_unchanged<A: Widget>(
    a: A,
    c: Constraint,
    area: Rect,
    g: Seq<Seq<char>>,
)
    requires
        area.proper(),
    ensures
        forall|x: int, y: int|
            #[trigger] hsplit_second(area, c).contains(x, y) && 0 <= y < g.len() && 0 <= x
                < g[y].len() ==> (Columns(a, EmptyWidget, c)).rendered(area, g)[y][x] == g[y][x],
{
    let first = hsplit_first(area, c);
    let second = hsplit_second(area, c);
    a.rendered_frame(first, g);
    assert forall|x: int, y: int|
        #[trigger] second.contains(x, y) && 0 <= y < g.len() && 0 <= x < g[y].len()
            implies (Columns(a, EmptyWidget, c)).rendered(area, g)[y][x] == g[y][x] by {
        assert(!first.contains(x, y));
    }
}

} // verus!
