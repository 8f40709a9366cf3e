use vstd::prelude::*;

verus! {

/// A grid of characters is well formed for the given dimensions when it has
/// one row per line and every row has one entry per column.
pub open spec fn grid_wf(g: Seq<Seq<char>>, width: int, height: int) -> bool {
    &&& g.len() == height
    &&& forall|y: int| 0 <= y < height ==> (#[trigger] g[y]).len() == width
}

/// The mutable character grid that rendering writes into, addressed by
/// column `x` and row `y`. Its view is the sequence of its rows.
pub struct Surface {
    width: u16,
    height: u16,
    rows: Vec<Vec<char>>,
}

impl View for Surface {
    type V = Seq<Seq<char>>;

    closed spec fn view(&self) -> Seq<Seq<char>> {
        self.rows@.map_values(|row: Vec<char>| row@)
    }
}

impl Surface {
    pub closed spec fn spec_width(self) -> u16 {
        self.width
    }

    pub closed spec fn spec_height(self) -> u16 {
        self.height
    }

    /// The stored rows match the stated dimensions.
    pub open spec fn wf(self) -> bool {
        grid_wf(self@, self.spec_width() as int, self.spec_height() as int)
    }

    /// A fresh surface of the given dimensions, every cell a space.
    pub fn new(width: u16, height: u16) -> (s: Surface)
        ensures
            s.wf(),
            s.spec_width() == width,
            s.spec_height() == height,
            forall|y: int, x: int|
                0 <= y < height && 0 <= x < width ==> s@[y][x] == ' ',
    {
        let mut rows: Vec<Vec<char>> = Vec::new();
        let mut y: u16 = 0;
        while y < height
            invariant
                y <= height,
                rows@.len() == y,
                forall|j: int| 0 <= j < y ==> (#[trigger] rows@[j])@.len() == width,
                forall|j: int, i: int|
                    0 <= j < y && 0 <= i < width ==> rows@[j]@[i] == ' ',
            decreases height - y,
        {
            let mut row: Vec<char> = Vec::new();
            let mut x: u16 = 0;
            while x < width
                invariant
                    x <= width,
                    row@.len() == x,
                    forall|i: int| 0 <= i < x ==> row@[i] == ' ',
                decreases width - x,
            {
                row.push(' ');
                x = x + 1;
            }
            rows.push(row);
            y = y + 1;
        }
        let s = Surface { width, height, rows };
        assert forall|j: int| 0 <= j < height implies (#[trigger] s@[j]).len()
            == width by {
            assert(s@[j] == s.rows@[j]@);
        }
        assert forall|j: int, i: int|
            0 <= j < height && 0 <= i < width implies #[trigger] s@[j][i]
            == ' ' by {
            assert(s@[j] == s.rows@[j]@);
        }
        s
    }

    pub fn width(&self) -> (w: u16)
        ensures
            w == self.spec_width(),
    {
        self.width
    }

    pub fn height(&self) -> (h: u16)
        ensures
            h == self.spec_height(),
    {
        self.height
    }

    /// The character stored at column `x` of row `y`.
    pub fn get(&self, x: u16, y: u16) -> (c: char)
        requires
            self.wf(),
            x < self.spec_width(),
            y < self.spec_height(),
        ensures
            c == self@[y as int][x as int],
    {
        proof {
            assert(self.rows@.len() == self@.len());
            assert(self@[y as int] == self.rows@[y as int]@);
        }
        let c = self.rows[y as usize][x as usize];
        c
    }

    /// Store `c` at column `x` of row `y`, leaving every other cell as it was.
    pub fn set(&mut self, x: u16, y: u16, c: char)
        requires
            old(self).wf(),
            x < old(self).spec_width(),
            y < old(self).spec_height(),
        ensures
            final(self).wf(),
            final(self).spec_width() == old(self).spec_width(),
            final(self).spec_height() == old(self).spec_height(),
            final(self)@ == old(self)@.update(
                y as int,
                old(self)@[y as int].update(x as int, c),
            ),
    {
        proof {
            assert(old(self)@[y as int] == old(self).rows@[y as int]@);
        }
        self.rows[y as usize][x as usize] = c;
        assert(self@ =~= old(self)@.update(
            y as int,
            old(self)@[y as int].update(x as int, c),
        ));
    }
}

} // verus!
