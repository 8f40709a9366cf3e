use vstd::prelude::*;

use crate::geometry::Rect;
use crate::surface::Surface;

verus! {

/// `r` has the same shape as `g` and agrees with `g` on every cell outside
/// `area`: whoever produced `r` from `g` wrote only inside `area`.
pub open spec fn frame_preserved(g: Seq<Seq<char>>, r: Seq<Seq<char>>, area: Rect) -> bool {
    &&& r.len() == g.len()
    &&& forall|y: int| 0 <= y < g.len() ==> (#[trigger] r[y]).len() == g[y].len()
    &&& forall|y: int, x: int|
        0 <= y < g.len() && 0 <= x < g[y].len() && !area.contains(x, y)
            ==> #[trigger] r[y][x] == g[y][x]
}

/// The grid `g` with the cell at (x, y) replaced by `p(x, y)` wherever `p`
/// paints something, and left as it was wherever `p` paints nothing.
pub open spec fn overlay(g: Seq<Seq<char>>, p: spec_fn(int, int) -> Option<char>) -> Seq<
    Seq<char>,
> {
    Seq::new(
        g.len(),
        |y: int|
            Seq::new(
                g[y].len(),
                |x: int|
                    match p(x, y) {
                        Some(c) => c,
                        None => g[y][x],
                    },
            ),
    )
}

/// A unit of layout: anything that can draw itself into a given rectangle of
/// the output surface. A split is itself a widget, so layouts nest freely.
pub trait Widget: Sized {
    /// The grid that drawing this widget into `area` of the grid `g` leaves
    /// behind.
    spec fn rendered(self, area: Rect, g: Seq<Seq<char>>) -> Seq<Seq<char>>;

    /// A widget writes only inside the rectangle it is given.
    proof fn rendered_frame(self, area: Rect, g: Seq<Seq<char>>)
        requires
            area.proper(),
        ensures
            frame_preserved(g, self.rendered(area, g), area),
    ;

    /// Draw this widget into `area` of the surface; every other cell keeps
    /// its contents.
    fn render(self, area: Rect, buf: &mut Surface)
        requires
            old(buf).wf(),
            area.in_bounds(old(buf).spec_width() as int, old(buf).spec_height() as int),
        ensures
            final(buf).wf(),
            final(buf).spec_width() == old(buf).spec_width(),
            final(buf).spec_height() == old(buf).spec_height(),
            final(buf)@ == self.rendered(area, old(buf)@),
    ;
}

} // verus!
