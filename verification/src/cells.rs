use vstd::prelude::*;

use crate::geometry::Rect;
use crate::surface::Surface;
use crate::surface::grid_wf;
use crate::widget::Widget;
use crate::widget::overlay;

verus! {

/// A widget that draws nothing: every cell of its region keeps its contents.
/// Useful for leaving one region of a split visually blank.
#[derive(Clone)]
pub struct EmptyWidget;

impl Widget for EmptyWidget {
    open spec fn rendered(self, area: Rect, g: Seq<Seq<char>>) -> Seq<Seq<char>> {
        g
    }

    proof fn rendered_frame(self, area: Rect, g: Seq<Seq<char>>) {
    }

    fn render(self, area: Rect, buf: &mut Surface) {
    }
}

/// A widget that prints one line of text at the origin of its region,
/// clipped to the region's width.
#[derive(Clone)]
pub struct TextBlock {
    pub text: String,
}

impl TextBlock {
    pub fn new(text: &str) -> (t: TextBlock)
        ensures
            t.text@ == text@,
    {
        TextBlock { text: String::from_str(text) }
    }

    /// The character this block paints at the absolute position (x, y) when
    /// drawn into `area`, if any: the text runs along the region's top row,
    /// cut off at the region's right edge.
    pub open spec fn paint(self, area: Rect, x: int, y: int) -> Option<char> {
        let n = if self.text@.len() as int <= area.width as int {
            self.text@.len() as int
        } else {
            area.width as int
        };
        if area.height > 0 && y == area.y && area.x <= x < area.x + n {
            Some(self.text@[x - area.x])
        } else {
            None
        }
    }
}

impl Widget for TextBlock {
    open spec fn rendered(self, area: Rect, g: Seq<Seq<char>>) -> Seq<Seq<char>> {
        overlay(g, |x: int, y: int| self.paint(area, x, y))
    }

    proof fn rendered_frame(self, area: Rect, g: Seq<Seq<char>>) {
        let r = self.rendered(area, g);
        assert forall|y: int| 0 <= y < g.len() implies (#[trigger] r[y]).len() == g[y].len() by {}
        assert forall|y: int, x: int|
            0 <= y < g.len() && 0 <= x < g[y].len() && !area.contains(x, y)
                implies #[trigger] r[y][x] == g[y][x] by {
            assert(self.paint(area, x, y) is None);
        }
    }

    fn render(self, area: Rect, buf: &mut Surface) {
        let ghost g0 = buf@;
        let ghost w0 = buf.spec_width();
        let ghost h0 = buf.spec_height();
        let len = self.text.as_str().unicode_len();
        let n: usize = if len < area.width as usize {
            len
        } else {
            area.width as usize
        };
        if area.height > 0 {
            let mut i: usize = 0;
            while i < n
                invariant
                    buf.wf(),
                    buf.spec_width() == w0,
                    buf.spec_height() == h0,
                    grid_wf(g0, w0 as int, h0 as int),
                    area.in_bounds(w0 as int, h0 as int),
                    area.height > 0,
                    len == self.text@.len(),
                    n <= len,
                    n <= area.width,
                    i <= n,
                    forall|y: int, x: int|
                        0 <= y < h0 && 0 <= x < w0 ==> #[trigger] buf@[y][x] == (if y
                            == area.y && area.x <= x < area.x + i {
                            self.text@[x - area.x]
                        } else {
                            g0[y][x]
                        }),
                decreases n - i,
            {
                let ch = self.text.as_str().get_char(i);
                buf.set(area.x + i as u16, area.y, ch);
                i = i + 1;
            }
        }
        proof {
            assert(buf@ =~~= self.rendered(area, g0));
        }
    }
}

/// A widget that draws a border of rounded box-drawing glyphs along the edges
/// of its region and leaves the interior untouched.
#[derive(Clone, Copy)]
pub struct BorderedBox;

impl BorderedBox {
    /// The border glyph painted at the absolute position (x, y) when the box
    /// is drawn into `area`, if any: rounded corners, horizontal bars along
    /// the top and bottom edges, vertical bars along the sides.
    pub open spec fn border_paint(area: Rect, x: int, y: int) -> Option<char> {
        if area.width == 0 || area.height == 0 {
            None
        } else {
            let left = area.x as int;
            let right = area.x + area.width - 1;
            let top = area.y as int;
            let bottom = area.y + area.height - 1;
            if !(left <= x <= right && top <= y <= bottom) {
                None
            } else if x == left && y == top {
                Some('╭')
            } else if x == right && y == top {
                Some('╮')
            } else if x == left && y == bottom {
                Some('╰')
            } else if x == right && y == bottom {
                Some('╯')
            } else if y == top || y == bottom {
                Some('─')
            } else if x == left || x == right {
                Some('│')
            } else {
                None
            }
        }
    }

    /// The cell left at (x, y) after the border is drawn over the grid `g`.
    spec fn border_target(area: Rect, g: Seq<Seq<char>>, x: int, y: int) -> char {
        match Self::border_paint(area, x, y) {
            Some(c) => c,
            None => g[y][x],
        }
    }

    fn border_char(area: Rect, x: u16, y: u16) -> (r: Option<char>)
        requires
            area.proper(),
        ensures
            r == Self::border_paint(area, x as int, y as int),
    {
        if area.width == 0 || area.height == 0 {
            return None;
        }
        let right = area.x + area.width - 1;
        let bottom = area.y + area.height - 1;
        if !(area.x <= x && x <= right && area.y <= y && y <= bottom) {
            None
        } else if x == area.x && y == area.y {
            Some('╭')
        } else if x == right && y == area.y {
            Some('╮')
        } else if x == area.x && y == bottom {
            Some('╰')
        } else if x == right && y == bottom {
            Some('╯')
        } else if y == area.y || y == bottom {
            Some('─')
        } else if x == area.x || x == right {
            Some('│')
        } else {
            None
        }
    }
}

impl Widget for BorderedBox {
    open spec fn rendered(self, area: Rect, g: Seq<Seq<char>>) -> Seq<Seq<char>> {
        overlay(g, |x: int, y: int| Self::border_paint(area, x, y))
    }

    proof fn rendered_frame(self, area: Rect, g: Seq<Seq<char>>) {
        let r = self.rendered(area, g);
        assert forall|y: int| 0 <= y < g.len() implies (#[trigger] r[y]).len() == g[y].len() by {}
        assert forall|y: int, x: int|
            0 <= y < g.len() && 0 <= x < g[y].len() && !area.contains(x, y)
                implies #[trigger] r[y][x] == g[y][x] by {
            assert(Self::border_paint(area, x, y) is None);
        }
    }

    fn render(self, area: Rect, buf: &mut Surface) {
        let ghost g0 = buf@;
        let ghost w0 = buf.spec_width();
        let ghost h0 = buf.spec_height();
        let mut dy: u16 = 0;
        while dy < area.height
            invariant
                buf.wf(),
                buf.spec_width() == w0,
                buf.spec_height() == h0,
                grid_wf(g0, w0 as int, h0 as int),
                area.in_bounds(w0 as int, h0 as int),
                dy <= area.height,
                forall|py: int, px: int|
                    0 <= py < h0 && 0 <= px < w0 ==> #[trigger] buf@[py][px] == (if py
                        < area.y + dy {
                        Self::border_target(area, g0, px, py)
                    } else {
                        g0[py][px]
                    }),
            decreases area.height - dy,
        {
            let mut dx: u16 = 0;
            while dx < area.width
                invariant
                    buf.wf(),
                    buf.spec_width() == w0,
                    buf.spec_height() == h0,
                    grid_wf(g0, w0 as int, h0 as int),
                    area.in_bounds(w0 as int, h0 as int),
                    dy < area.height,
                    dx <= area.width,
                    forall|py: int, px: int|
                        0 <= py < h0 && 0 <= px < w0 ==> #[trigger] buf@[py][px] == (if py
                            < area.y + dy || (py == area.y + dy && px < area.x + dx) {
                            Self::border_target(area, g0, px, py)
                        } else {
                            g0[py][px]
                        }),
                decreases area.width - dx,
            {
                match Self::border_char(area, area.x + dx, area.y + dy) {
                    Some(c) => {
                        buf.set(area.x + dx, area.y + dy, c);
                    },
                    None => {
                        proof {
                            assert(Self::border_target(
                                area,
                                g0,
                                area.x + dx as int,
                                area.y + dy as int,
                            ) == g0[area.y + dy as int][area.x + dx as int]);
                        }
                    },
                }
                dx = dx + 1;
            }
            dy = dy + 1;
        }
        proof {
            assert forall|py: int, px: int|
                0 <= py < h0 && 0 <= px < w0 && !(py < area.y + area.height)
                    implies Self::border_paint(area, px, py) is None by {}
            assert(buf@ =~~= self.rendered(area, g0));
        }
    }
}

} // verus!
