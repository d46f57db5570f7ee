//! The persistent map of the maze: a glyph grid that grows around the
//! player, visit counts, and the Tremaux choice of the next move.

use vstd::prelude::*;

use crate::direction::{
    absolute_to_relative_direction, cardinal_index, col_step, relative_between, row_step,
    CardinalDirection, RelativeDirection,
};
use crate::glyph::{
    copy_grid, glyph, glyph_is, glyph_string, glyphs_of, has_shape, lemma_grid_shape, row_glyphs,
    unknown, Glyphs,
};

verus! {

/// Largest number of rows or columns a map may reach.
pub const MAX_SIDE: usize = 0x1000_0000;

/// The explored maze around one player.
pub struct MazeMap {
    pub player_position: (isize, isize),
    pub grid: Vec<Vec<String>>,
    pub visits: Vec<Vec<u32>>,
    pub current_cardinal_direction: CardinalDirection,
}

/// The value of a matrix of visit counts.
pub open spec fn counts_of(v: &Vec<Vec<u32>>) -> Seq<Seq<u32>> {
    Seq::new(v@.len(), |i: int| v@[i]@)
}

/// `c` has `rows` rows of `cols` counts.
pub open spec fn counts_shape(c: Seq<Seq<u32>>, rows: int, cols: int) -> bool {
    c.len() == rows && forall|i: int| 0 <= i < rows ==> (#[trigger] c[i]).len() == cols
}

/// The position two cells away from `p` towards `d`: the next cell the
/// player reaches when moving that way.
pub open spec fn target_of(p: (int, int), d: CardinalDirection) -> (int, int) {
    (p.0 + 2 * row_step(d), p.1 + 2 * col_step(d))
}

/// Whether, after a move from `p` towards `d`, the 7x7 view around the new
/// position reaches past the side of a `rows` by `cols` grid it moved towards.
pub open spec fn needs_room(p: (int, int), rows: int, cols: int, d: CardinalDirection) -> bool {
    let t = target_of(p, d);
    match d {
        CardinalDirection::North => t.0 - 3 < 0,
        CardinalDirection::South => t.0 + 3 >= rows,
        CardinalDirection::East => t.1 + 3 >= cols,
        CardinalDirection::West => t.1 - 3 < 0,
    }
}

/// `g` framed by `top`, `bottom`, `left` and `right` rows and columns of
/// unknown glyphs.
pub open spec fn pad_glyphs(
    g: Glyphs,
    rows: int,
    cols: int,
    top: int,
    bottom: int,
    left: int,
    right: int,
) -> Glyphs {
    Seq::new(
        (rows + top + bottom) as nat,
        |i: int|
            Seq::new(
                (cols + left + right) as nat,
                |j: int|
                    if top <= i < top + rows && left <= j < left + cols {
                        g[i - top][j - left]
                    } else {
                        unknown()
                    },
            ),
    )
}

/// `c` framed by rows and columns of zero counts.
pub open spec fn pad_counts(
    c: Seq<Seq<u32>>,
    rows: int,
    cols: int,
    top: int,
    bottom: int,
    left: int,
    right: int,
) -> Seq<Seq<u32>> {
    Seq::new(
        (rows + top + bottom) as nat,
        |i: int|
            Seq::new(
                (cols + left + right) as nat,
                |j: int|
                    if top <= i < top + rows && left <= j < left + cols {
                        c[i - top][j - left]
                    } else {
                        0u32
                    },
            ),
    )
}

/// `g` with the 7x7 `view` laid over it from `(r0, c0)`: each cell of the
/// view replaces the stored one unless it is unknown.
pub open spec fn overlay(g: Glyphs, view: Glyphs, r0: int, c0: int) -> Glyphs {
    Seq::new(
        g.len(),
        |i: int|
            Seq::new(
                g[i].len(),
                |j: int|
                    if r0 <= i < r0 + 7 && c0 <= j < c0 + 7 && view[i - r0][j - c0] != unknown() {
                        view[i - r0][j - c0]
                    } else {
                        g[i][j]
                    },
            ),
    )
}

/// A wall glyph.
pub open spec fn is_wall(s: Seq<char>) -> bool {
    s == glyph('-') || s == glyph('|')
}

/// A glyph that cannot be stood on: a node or a wall.
pub open spec fn is_closed(s: Seq<char>) -> bool {
    s == glyph('\u{2022}') || is_wall(s)
}

/// Every cell of `view` is unknown.
pub open spec fn all_unknown(view: Glyphs) -> bool {
    forall|i: int, j: int| 0 <= i < 7 && 0 <= j < 7 ==> #[trigger] view[i][j] == unknown()
}

/// Framing by nothing leaves a grid and its counts as they were.
proof fn lemma_pad_nothing(g: Glyphs, c: Seq<Seq<u32>>, rows: int, cols: int)
    requires
        has_shape(g, rows, cols),
        counts_shape(c, rows, cols),
        rows >= 0,
        cols >= 0,
    ensures
        pad_glyphs(g, rows, cols, 0, 0, 0, 0) == g,
        pad_counts(c, rows, cols, 0, 0, 0, 0) == c,
{
    assert(pad_glyphs(g, rows, cols, 0, 0, 0, 0) =~~= g);
    assert(pad_counts(c, rows, cols, 0, 0, 0, 0) =~~= c);
}

impl MazeMap {
    /// Number of rows.
    pub open spec fn rows(&self) -> int {
        self.grid@.len() as int
    }

    /// Number of columns.
    pub open spec fn cols(&self) -> int {
        if self.grid@.len() > 0 {
            self.grid@[0]@.len() as int
        } else {
            0
        }
    }

    /// The player's position as integers.
    pub open spec fn pos(&self) -> (int, int) {
        (self.player_position.0 as int, self.player_position.1 as int)
    }

    /// Grid and visit counts are rectangles of the same size, within bounds.
    pub open spec fn well_shaped(&self) -> bool {
        &&& 0 < self.rows() < MAX_SIDE
        &&& 0 < self.cols() < MAX_SIDE
        &&& has_shape(glyphs_of(&self.grid), self.rows(), self.cols())
        &&& counts_shape(counts_of(&self.visits), self.rows(), self.cols())
    }

    /// The position is a cell of the grid.
    pub open spec fn on_grid(&self) -> bool {
        0 <= self.pos().0 < self.rows() && 0 <= self.pos().1 < self.cols()
    }

    /// The 7x7 view around the player lies inside the grid.
    pub open spec fn view_fits(&self) -> bool {
        3 <= self.pos().0 && self.pos().0 + 3 < self.rows() && 3 <= self.pos().1 && self.pos().1 + 3
            < self.cols()
    }

    /// The map invariant: well shaped, odd sides, and room for a view
    /// around the player.
    pub open spec fn wf(&self) -> bool {
        &&& self.well_shaped()
        &&& self.view_fits()
        &&& self.rows() % 2 == 1
        &&& self.cols() % 2 == 1
    }

    /// Whether a move towards `d` calls for more room on that side.
    pub open spec fn needs_room_towards(&self, d: CardinalDirection) -> bool {
        needs_room(self.pos(), self.rows(), self.cols(), d)
    }

    /// Rows added above when making room for a move towards `d`: two when
    /// the view around the cell reached would pass the top of the grid.
    pub open spec fn pad_top(&self, d: CardinalDirection) -> int {
        if target_of(self.pos(), d).0 - 3 < 0 {
            2
        } else {
            0
        }
    }

    /// Rows added below when making room for a move towards `d`.
    pub open spec fn pad_bottom(&self, d: CardinalDirection) -> int {
        if target_of(self.pos(), d).0 + 3 >= self.rows() {
            2
        } else {
            0
        }
    }

    /// Columns added on the left when making room for a move towards `d`.
    pub open spec fn pad_left(&self, d: CardinalDirection) -> int {
        if target_of(self.pos(), d).1 - 3 < 0 {
            2
        } else {
            0
        }
    }

    /// Columns added on the right when making room for a move towards `d`.
    pub open spec fn pad_right(&self, d: CardinalDirection) -> int {
        if target_of(self.pos(), d).1 + 3 >= self.cols() {
            2
        } else {
            0
        }
    }

    /// The grid after making room for a move towards `d`.
    pub open spec fn expanded_glyphs(&self, d: CardinalDirection) -> Glyphs {
        pad_glyphs(
            glyphs_of(&self.grid),
            self.rows(),
            self.cols(),
            self.pad_top(d),
            self.pad_bottom(d),
            self.pad_left(d),
            self.pad_right(d),
        )
    }

    /// The visit counts after making room for a move towards `d`.
    pub open spec fn expanded_counts(&self, d: CardinalDirection) -> Seq<Seq<u32>> {
        pad_counts(
            counts_of(&self.visits),
            self.rows(),
            self.cols(),
            self.pad_top(d),
            self.pad_bottom(d),
            self.pad_left(d),
            self.pad_right(d),
        )
    }

    /// The player's position after making room for a move towards `d`.
    pub open spec fn expanded_position(&self, d: CardinalDirection) -> (int, int) {
        (self.pos().0 + self.pad_top(d), self.pos().1 + self.pad_left(d))
    }

    /// The player's position after moving towards `d`.
    pub open spec fn merged_position(&self, d: CardinalDirection) -> (int, int) {
        target_of(self.expanded_position(d), d)
    }

    /// The grid after moving towards `d` and laying `view` over it.
    pub open spec fn merged_glyphs(&self, view: Glyphs, d: CardinalDirection) -> Glyphs {
        overlay(
            self.expanded_glyphs(d),
            view,
            self.merged_position(d).0 - 3,
            self.merged_position(d).1 - 3,
        )
    }

    /// The glyph at `(r, c)`.
    pub open spec fn glyph_at(&self, r: int, c: int) -> Seq<char> {
        glyphs_of(&self.grid)[r][c]
    }

    /// The visit count at `(r, c)`.
    pub open spec fn count_at(&self, r: int, c: int) -> u32 {
        counts_of(&self.visits)[r][c]
    }

    /// The player may move towards `d`: the cell two steps away is on the
    /// grid, no wall stands between, and that cell is not a node or wall.
    pub open spec fn can_move(&self, d: CardinalDirection) -> bool {
        let t = target_of(self.pos(), d);
        let w = (self.pos().0 + row_step(d), self.pos().1 + col_step(d));
        &&& 0 <= t.0 < self.rows()
        &&& 0 <= t.1 < self.cols()
        &&& !is_wall(self.glyph_at(w.0, w.1))
        &&& !is_closed(self.glyph_at(t.0, t.1))
    }

    /// Visits of the cell two steps towards `d`.
    pub open spec fn visits_towards(&self, d: CardinalDirection) -> u32 {
        let t = target_of(self.pos(), d);
        self.count_at(t.0, t.1)
    }

    /// Tremaux's rule: `d` is open and has the fewest visits, ties going to
    /// the first of North, East, South, West.
    pub open spec fn preferred(&self, d: CardinalDirection) -> bool {
        &&& self.can_move(d)
        &&& forall|e: CardinalDirection| #[trigger]
            self.can_move(e) ==> self.visits_towards(d) < self.visits_towards(e) || (
            self.visits_towards(d) == self.visits_towards(e) && cardinal_index(d) <= cardinal_index(
                e,
            ))
    }

    /// Starts a map from a first view: the player stands at its centre and
    /// nothing has been visited.
    pub fn new(initial_grid: &Vec<Vec<String>>, current_cardinal_direction: CardinalDirection) -> (r:
        MazeMap)
        requires
            0 < initial_grid@.len() < MAX_SIDE,
            0 < initial_grid@[0]@.len() < MAX_SIDE,
            has_shape(
                glyphs_of(initial_grid),
                initial_grid@.len() as int,
                initial_grid@[0]@.len() as int,
            ),
        ensures
            glyphs_of(&r.grid) == glyphs_of(initial_grid),
            r.pos() == (initial_grid@.len() as int / 2, initial_grid@[0]@.len() as int / 2),
            r.well_shaped(),
            forall|i: int, j: int|
                0 <= i < r.rows() && 0 <= j < r.cols() ==> #[trigger] r.count_at(i, j) == 0,
            r.current_cardinal_direction == current_cardinal_direction,
    {
        let grid: Vec<Vec<String>> = copy_grid(initial_grid);
        let rows: usize = grid.len();
        proof {
            lemma_grid_shape(&grid, rows as int, initial_grid@[0]@.len() as int);
        }
        let cols: usize = grid[0].len();
        let mut visits: Vec<Vec<u32>> = Vec::new();
        let mut i: usize = 0;
        while i < rows
            invariant
                i <= rows,
                visits@.len() == i,
                forall|a: int| 0 <= a < i ==> (#[trigger] visits@[a])@.len() == cols,
                forall|a: int, j: int| 0 <= a < i && 0 <= j < cols ==> #[trigger] visits@[a]@[j] == 0,
            decreases rows - i,
        {
            let mut row: Vec<u32> = Vec::new();
            let mut j: usize = 0;
            while j < cols
                invariant
                    j <= cols,
                    row@.len() == j,
                    forall|b: int| 0 <= b < j ==> #[trigger] row@[b] == 0,
                decreases cols - j,
            {
                row.push(0);
                j += 1;
            }
            visits.push(row);
            i += 1;
        }
        let r = MazeMap {
            player_position: ((rows / 2) as isize, (cols / 2) as isize),
            grid,
            visits,
            current_cardinal_direction,
        };
        assert(counts_shape(counts_of(&r.visits), r.rows(), r.cols()));
        r
    }

    /// Whether a move towards `next_cardinal_direction` would bring the 7x7
    /// view past the side of the grid the player moves towards.
    pub fn should_expand_grid(&self, next_cardinal_direction: CardinalDirection) -> (r: bool)
        requires
            self.grid@.len() < MAX_SIDE,
            self.grid@.len() > 0 ==> self.grid@[0]@.len() < MAX_SIDE,
            -(MAX_SIDE as int) < self.pos().0 < MAX_SIDE,
            -(MAX_SIDE as int) < self.pos().1 < MAX_SIDE,
        ensures
            r == self.needs_room_towards(next_cardinal_direction),
    {
        let rows: isize = self.grid.len() as isize;
        let cols: isize = if rows == 0 {
            0
        } else {
            self.grid[0].len() as isize
        };
        let (row, col) = self.player_position;
        match next_cardinal_direction {
            CardinalDirection::North => row - 2 - 3 < 0,
            CardinalDirection::South => row + 2 + 3 >= rows,
            CardinalDirection::East => col + 2 + 3 >= cols,
            CardinalDirection::West => col - 2 - 3 < 0,
        }
    }

    /// The grid and visit counts framed by `top`, `bottom`, `left` and
    /// `right` rows and columns of unknown glyphs and zero counts.
    fn padded_copy(&self, top: usize, bottom: usize, left: usize, right: usize) -> (r: (
        Vec<Vec<String>>,
        Vec<Vec<u32>>,
    ))
        requires
            self.well_shaped(),
            top <= 2 && bottom <= 2 && left <= 2 && right <= 2,
        ensures
            glyphs_of(&r.0) == pad_glyphs(
                glyphs_of(&self.grid),
                self.rows(),
                self.cols(),
                top as int,
                bottom as int,
                left as int,
                right as int,
            ),
            counts_of(&r.1) == pad_counts(
                counts_of(&self.visits),
                self.rows(),
                self.cols(),
                top as int,
                bottom as int,
                left as int,
                right as int,
            ),
            has_shape(glyphs_of(&r.0), self.rows() + top + bottom, self.cols() + left + right),
            counts_shape(counts_of(&r.1), self.rows() + top + bottom, self.cols() + left + right),
            r.0@.len() > 0 && r.0@[0]@.len() == self.cols() + left + right,
    {
        let rows: usize = self.grid.len();
        proof {
            lemma_grid_shape(&self.grid, self.rows(), self.cols());
        }
        let cols: usize = self.grid[0].len();
        let ghost g = glyphs_of(&self.grid);
        let ghost c = counts_of(&self.visits);
        let new_rows: usize = rows + top + bottom;
        let new_cols: usize = cols + left + right;
        let mut grid: Vec<Vec<String>> = Vec::new();
        let mut visits: Vec<Vec<u32>> = Vec::new();
        let mut i: usize = 0;
        while i < new_rows
            invariant
                rows == g.len(),
                g == glyphs_of(&self.grid),
                c == counts_of(&self.visits),
                has_shape(g, rows as int, cols as int),
                counts_shape(c, rows as int, cols as int),
                new_rows == rows + top + bottom,
                new_cols == cols + left + right,
                top <= 2 && bottom <= 2 && left <= 2 && right <= 2,
                i <= new_rows,
                grid@.len() == i,
                visits@.len() == i,
                forall|a: int|
                    0 <= a < i ==> #[trigger] row_glyphs(&grid@[a]) == pad_glyphs(
                        g,
                        rows as int,
                        cols as int,
                        top as int,
                        bottom as int,
                        left as int,
                        right as int,
                    )[a],
                forall|a: int|
                    0 <= a < i ==> (#[trigger] visits@[a])@ == pad_counts(
                        c,
                        rows as int,
                        cols as int,
                        top as int,
                        bottom as int,
                        left as int,
                        right as int,
                    )[a],
            decreases new_rows - i,
        {
            let mut row: Vec<String> = Vec::new();
            let mut counts: Vec<u32> = Vec::new();
            let inside_rows: bool = top <= i && i < top + rows;
            let mut j: usize = 0;
            while j < new_cols
                invariant
                    rows == g.len(),
                    g == glyphs_of(&self.grid),
                    c == counts_of(&self.visits),
                    has_shape(g, rows as int, cols as int),
                    counts_shape(c, rows as int, cols as int),
                    new_rows == rows + top + bottom,
                    new_cols == cols + left + right,
                    i < new_rows,
                    inside_rows == (top <= i < top + rows),
                    j <= new_cols,
                    row@.len() == j,
                    counts@.len() == j,
                    forall|b: int|
                        0 <= b < j ==> (#[trigger] row@[b])@ == if inside_rows && left <= b < left
                            + cols {
                            g[i - top][b - left]
                        } else {
                            unknown()
                        },
                    forall|b: int|
                        0 <= b < j ==> #[trigger] counts@[b] == if inside_rows && left <= b < left
                            + cols {
                            c[i - top][b - left]
                        } else {
                            0u32
                        },
                decreases new_cols - j,
            {
                if inside_rows && left <= j && j < left + cols {
                    proof {
                        lemma_grid_shape(&self.grid, rows as int, cols as int);
                        assert(c[(i - top) as int].len() == cols);
                    }
                    row.push(self.grid[i - top][j - left].clone());
                    counts.push(self.visits[i - top][j - left]);
                } else {
                    row.push(glyph_string('#'));
                    counts.push(0);
                }
                j += 1;
            }
            assert(row_glyphs(&row) =~= pad_glyphs(
                g,
                rows as int,
                cols as int,
                top as int,
                bottom as int,
                left as int,
                right as int,
            )[i as int]);
            assert(counts@ =~= pad_counts(
                c,
                rows as int,
                cols as int,
                top as int,
                bottom as int,
                left as int,
                right as int,
            )[i as int]);
            grid.push(row);
            visits.push(counts);
            i += 1;
        }
        assert(glyphs_of(&grid) =~= pad_glyphs(
            g,
            rows as int,
            cols as int,
            top as int,
            bottom as int,
            left as int,
            right as int,
        ));
        assert(counts_of(&visits) =~= pad_counts(
            c,
            rows as int,
            cols as int,
            top as int,
            bottom as int,
            left as int,
            right as int,
        ));
        proof {
            assert(glyphs_of(&grid)[0].len() == grid@[0]@.len());
        }
        (grid, visits)
    }

    /// Makes room for the next move towards `current_cardinal_direction`:
    /// on each side of the grid that the view around the cell reached would
    /// pass, two rows or columns of unknown glyphs (and zero visits) are
    /// added, and the position follows its cell.
    pub fn expand_grid_if_needed(&mut self)
        requires
            old(self).well_shaped(),
            old(self).rows() + 2 < MAX_SIDE,
            old(self).cols() + 2 < MAX_SIDE,
            -(MAX_SIDE as int) < old(self).pos().0 < MAX_SIDE,
            -(MAX_SIDE as int) < old(self).pos().1 < MAX_SIDE,
        ensures
            glyphs_of(&final(self).grid) == old(self).expanded_glyphs(
                old(self).current_cardinal_direction,
            ),
            counts_of(&final(self).visits) == old(self).expanded_counts(
                old(self).current_cardinal_direction,
            ),
            final(self).pos() == old(self).expanded_position(old(self).current_cardinal_direction),
            final(self).current_cardinal_direction == old(self).current_cardinal_direction,
            final(self).well_shaped(),
    {
        let d: CardinalDirection = self.current_cardinal_direction;
        let rows: usize = self.grid.len();
        proof {
            lemma_grid_shape(&self.grid, self.rows(), self.cols());
        }
        let cols: usize = self.grid[0].len();
        let ghost g = glyphs_of(&self.grid);
        let ghost c = counts_of(&self.visits);
        let (dr, dc): (isize, isize) = match d {
            CardinalDirection::North => (-2, 0),
            CardinalDirection::South => (2, 0),
            CardinalDirection::East => (0, 2),
            CardinalDirection::West => (0, -2),
        };
        let next_row: isize = self.player_position.0 + dr;
        let next_col: isize = self.player_position.1 + dc;
        let top: usize = if next_row - 3 < 0 { 2 } else { 0 };
        let bottom: usize = if next_row + 3 >= rows as isize { 2 } else { 0 };
        let left: usize = if next_col - 3 < 0 { 2 } else { 0 };
        let right: usize = if next_col + 3 >= cols as isize { 2 } else { 0 };
        assert(top == self.pad_top(d) && bottom == self.pad_bottom(d));
        assert(left == self.pad_left(d) && right == self.pad_right(d));
        if top == 0 && bottom == 0 && left == 0 && right == 0 {
            proof {
                lemma_pad_nothing(g, c, rows as int, cols as int);
            }
            return;
        }
        let (grid, visits) = self.padded_copy(top, bottom, left, right);
        self.grid = grid;
        self.visits = visits;
        self.player_position = (
            self.player_position.0 + top as isize,
            self.player_position.1 + left as isize,
        );
    }

    /// The cell to keep when a view is laid over the grid: the view's,
    /// unless the view does not know it.
    pub fn select_string_to_save<'a>(grid_string: &'a String, radar_view_string: &'a String) -> (r:
        &'a String)
        ensures
            r@ == if radar_view_string@ == unknown() {
                grid_string@
            } else {
                radar_view_string@
            },
    {
        if glyph_is(radar_view_string, '#') {
            grid_string
        } else {
            radar_view_string
        }
    }

    /// Lays the 7x7 `new_view` over the grid, centred on the player.
    pub fn merge_radar_view_to_map_grid(&mut self, new_view: &Vec<Vec<String>>)
        requires
            old(self).well_shaped(),
            old(self).view_fits(),
            has_shape(glyphs_of(new_view), 7, 7),
        ensures
            glyphs_of(&final(self).grid) == overlay(
                glyphs_of(&old(self).grid),
                glyphs_of(new_view),
                old(self).pos().0 - 3,
                old(self).pos().1 - 3,
            ),
            final(self).visits == old(self).visits,
            final(self).player_position == old(self).player_position,
            final(self).current_cardinal_direction == old(self).current_cardinal_direction,
            final(self).well_shaped(),
    {
        let ghost g0 = glyphs_of(&self.grid);
        let ghost v = glyphs_of(new_view);
        let ghost rows = self.rows();
        let ghost cols = self.cols();
        let r0: usize = (self.player_position.0 - 3) as usize;
        let c0: usize = (self.player_position.1 - 3) as usize;
        let mut i: usize = 0;
        while i < 7
            invariant
                rows == old(self).rows(),
                cols == old(self).cols(),
                0 < rows < MAX_SIDE,
                0 < cols < MAX_SIDE,
                r0 + 7 <= rows,
                c0 + 7 <= cols,
                r0 == old(self).pos().0 - 3,
                c0 == old(self).pos().1 - 3,
                g0 == glyphs_of(&old(self).grid),
                v == glyphs_of(new_view),
                has_shape(v, 7, 7),
                has_shape(g0, rows, cols),
                has_shape(glyphs_of(&self.grid), rows, cols),
                self.visits == old(self).visits,
                self.player_position == old(self).player_position,
                self.current_cardinal_direction == old(self).current_cardinal_direction,
                i <= 7,
                forall|a: int, b: int|
                    0 <= a < rows && 0 <= b < cols ==> #[trigger] glyphs_of(&self.grid)[a][b] == if r0
                        <= a < r0 + i && c0 <= b < c0 + 7 {
                        overlay(g0, v, r0 as int, c0 as int)[a][b]
                    } else {
                        g0[a][b]
                    },
            decreases 7 - i,
        {
            let mut j: usize = 0;
            while j < 7
                invariant
                    rows == old(self).rows(),
                    cols == old(self).cols(),
                    0 < rows < MAX_SIDE,
                    0 < cols < MAX_SIDE,
                    r0 + 7 <= rows,
                    c0 + 7 <= cols,
                    g0 == glyphs_of(&old(self).grid),
                    v == glyphs_of(new_view),
                    has_shape(v, 7, 7),
                    has_shape(g0, rows, cols),
                    has_shape(glyphs_of(&self.grid), rows, cols),
                    self.visits == old(self).visits,
                    self.player_position == old(self).player_position,
                    self.current_cardinal_direction == old(self).current_cardinal_direction,
                    i < 7,
                    j <= 7,
                    forall|a: int, b: int|
                        0 <= a < rows && 0 <= b < cols ==> #[trigger] glyphs_of(&self.grid)[a][b]
                            == if (r0 <= a < r0 + i && c0 <= b < c0 + 7) || (a == r0 + i && c0 <= b
                            < c0 + j) {
                            overlay(g0, v, r0 as int, c0 as int)[a][b]
                        } else {
                            g0[a][b]
                        },
                decreases 7 - j,
            {
                proof {
                    lemma_grid_shape(&self.grid, rows, cols);
                    lemma_grid_shape(new_view, 7, 7);
                }
                let chosen: String = MazeMap::select_string_to_save(
                    &self.grid[r0 + i][c0 + j],
                    &new_view[i][j],
                ).clone();
                crate::glyph::set_glyph(&mut self.grid, r0 + i, c0 + j, chosen);
                j += 1;
            }
            i += 1;
        }
        assert(glyphs_of(&self.grid) =~~= overlay(g0, v, r0 as int, c0 as int));
        proof {
            assert(self.grid@[0]@.len() == cols) by {
                assert(glyphs_of(&self.grid)[0].len() == cols);
            }
        }
    }

    /// Records the move the player made towards `move_direction` and the
    /// radar view `new_view` received there: makes room on that side when
    /// needed, moves the player two cells, and lays the view over the grid
    /// around the new position.
    pub fn merge_radar_view(&mut self, new_view: &Vec<Vec<String>>, move_direction: CardinalDirection)
        requires
            old(self).wf(),
            old(self).rows() + 2 < MAX_SIDE,
            old(self).cols() + 2 < MAX_SIDE,
            has_shape(glyphs_of(new_view), 7, 7),
        ensures
            glyphs_of(&final(self).grid) == old(self).merged_glyphs(glyphs_of(new_view), move_direction),
            counts_of(&final(self).visits) == old(self).expanded_counts(move_direction),
            final(self).pos() == old(self).merged_position(move_direction),
            final(self).current_cardinal_direction == move_direction,
            final(self).wf(),
    {
        let ghost before = *self;
        self.current_cardinal_direction = move_direction;
        self.expand_grid_if_needed();
        let (dr, dc): (isize, isize) = match move_direction {
            CardinalDirection::North => (-2, 0),
            CardinalDirection::South => (2, 0),
            CardinalDirection::East => (0, 2),
            CardinalDirection::West => (0, -2),
        };
        self.player_position = (self.player_position.0 + dr, self.player_position.1 + dc);
        assert(self.pos() == before.merged_position(move_direction));
        proof {
            lemma_room_only_ahead(before, move_direction);
            assert(self.rows() == before.rows() + before.pad_top(move_direction) + before.pad_bottom(
                move_direction,
            ));
            assert(self.cols() == before.cols() + before.pad_left(move_direction) + before.pad_right(
                move_direction,
            )) by {
                assert(glyphs_of(&self.grid)[0].len() == self.grid@[0]@.len());
            }
            match move_direction {
                CardinalDirection::North => {},
                CardinalDirection::South => {},
                CardinalDirection::East => {},
                CardinalDirection::West => {},
            }
            assert(self.view_fits());
        }
        let ghost mid = *self;
        self.merge_radar_view_to_map_grid(new_view);
        proof {
            assert(glyphs_of(&self.grid).len() == glyphs_of(&mid.grid).len());
            assert(glyphs_of(&self.grid)[0].len() == glyphs_of(&mid.grid)[0].len());
            assert(self.cols() == mid.cols());
        }
    }

    /// The visits of the cell two steps towards `d`, if the player may move there.
    fn open_count(&self, d: CardinalDirection) -> (r: Option<u32>)
        requires
            self.well_shaped(),
            self.on_grid(),
        ensures
            r.is_some() == self.can_move(d),
            r.is_some() ==> r.unwrap() == self.visits_towards(d),
    {
        let rows: usize = self.grid.len();
        proof {
            lemma_grid_shape(&self.grid, self.rows(), self.cols());
        }
        let cols: usize = self.grid[0].len();
        let (row, col) = self.player_position;
        let (dr, dc): (isize, isize) = match d {
            CardinalDirection::North => (-1, 0),
            CardinalDirection::South => (1, 0),
            CardinalDirection::East => (0, 1),
            CardinalDirection::West => (0, -1),
        };
        let tr: isize = row + 2 * dr;
        let tc: isize = col + 2 * dc;
        if tr < 0 || tc < 0 || tr >= rows as isize || tc >= cols as isize {
            return None;
        }
        let wr: usize = (row + dr) as usize;
        let wc: usize = (col + dc) as usize;
        let tr: usize = tr as usize;
        let tc: usize = tc as usize;
        if glyph_is(&self.grid[wr][wc], '-') || glyph_is(&self.grid[wr][wc], '|') {
            return None;
        }
        let cell: &String = &self.grid[tr][tc];
        if glyph_is(cell, '\u{2022}') || glyph_is(cell, '-') || glyph_is(cell, '|') {
            return None;
        }
        proof {
            assert(counts_of(&self.visits)[tr as int].len() == cols);
        }
        Some(self.visits[tr][tc])
    }

    /// Tremaux's step: among North, East, South and West, the directions
    /// whose cell two steps away is on the grid, is not a node or wall, and
    /// has no wall in between, picks the one with the fewest visits (ties go
    /// to the first in that order); counts a visit there, moves the player,
    /// and turns it that way. Returns the move relative to the former
    /// heading and the new heading, or `None` when no direction is open.
    /// A count already at `u32::MAX` stays there.
    pub fn next_move_tremaux(&mut self) -> (r: Option<(RelativeDirection, CardinalDirection)>)
        requires
            old(self).well_shaped(),
            old(self).on_grid(),
        ensures
            r.is_none() <==> forall|d: CardinalDirection| !old(self).can_move(d),
            r.is_none() ==> *final(self) == *old(self),
            match r {
                Some((rel, d)) => {
                    let t = target_of(old(self).pos(), d);
                    let n = old(self).count_at(t.0, t.1);
                    &&& old(self).preferred(d)
                    &&& rel == relative_between(old(self).current_cardinal_direction, d)
                    &&& final(self).pos() == t
                    &&& final(self).current_cardinal_direction == d
                    &&& final(self).grid == old(self).grid
                    &&& counts_of(&final(self).visits) == counts_of(&old(self).visits).update(
                        t.0,
                        counts_of(&old(self).visits)[t.0].update(
                            t.1,
                            if n < u32::MAX {
                                (n + 1) as u32
                            } else {
                                n
                            },
                        ),
                    )
                    &&& final(self).well_shaped()
                    &&& final(self).on_grid()
                },
                None => true,
            },
    {
        let mut best: Option<(CardinalDirection, u32)> = None;
        let mut k: usize = 0;
        while k < 4
            invariant
                self.well_shaped(),
                self.on_grid(),
                k <= 4,
                best.is_none() ==> forall|e: CardinalDirection|
                    cardinal_index(e) < k ==> !(#[trigger] self.can_move(e)),
                match best {
                    Some((d, v)) => {
                        &&& self.can_move(d)
                        &&& cardinal_index(d) < k
                        &&& v == self.visits_towards(d)
                        &&& forall|e: CardinalDirection|
                            cardinal_index(e) < k && #[trigger] self.can_move(e) ==> v
                                < self.visits_towards(e) || (v == self.visits_towards(e)
                                && cardinal_index(d) <= cardinal_index(e))
                    },
                    None => true,
                },
            decreases 4 - k,
        {
            let d: CardinalDirection = if k == 0 {
                CardinalDirection::North
            } else if k == 1 {
                CardinalDirection::East
            } else if k == 2 {
                CardinalDirection::South
            } else {
                CardinalDirection::West
            };
            assert(cardinal_index(d) == k);
            match self.open_count(d) {
                Some(v) => {
                    match best {
                        Some((_, bv)) => {
                            if v < bv {
                                best = Some((d, v));
                            }
                        },
                        None => {
                            best = Some((d, v));
                        },
                    }
                },
                None => {},
            }
            proof {
                assert forall|e: CardinalDirection| cardinal_index(e) == k implies e == d by {}
            }
            k += 1;
        }
        match best {
            None => {
                assert forall|e: CardinalDirection| !self.can_move(e) by {
                    assert(cardinal_index(e) < 4);
                }
                None
            },
            Some((d, _)) => {
                assert forall|e: CardinalDirection| #[trigger] self.can_move(e) implies self.visits_towards(d)
                    < self.visits_towards(e) || (self.visits_towards(d) == self.visits_towards(e)
                    && cardinal_index(d) <= cardinal_index(e)) by {
                    assert(cardinal_index(e) < 4);
                }
                let ghost before = *self;
                let (dr, dc): (isize, isize) = match d {
                    CardinalDirection::North => (-2, 0),
                    CardinalDirection::South => (2, 0),
                    CardinalDirection::East => (0, 2),
                    CardinalDirection::West => (0, -2),
                };
                let tr: isize = self.player_position.0 + dr;
                let tc: isize = self.player_position.1 + dc;
                proof {
                    assert(counts_of(&self.visits)[tr as int].len() == self.cols());
                }
                let n: u32 = self.visits[tr as usize][tc as usize];
                let bumped: u32 = if n < u32::MAX {
                    n + 1
                } else {
                    n
                };
                let ghost c0 = counts_of(&self.visits);
                self.visits[tr as usize][tc as usize] = bumped;
                assert(counts_of(&self.visits) =~= c0.update(tr as int, c0[tr as int].update(tc as int, bumped)));
                self.player_position = (tr, tc);
                let relative: RelativeDirection = absolute_to_relative_direction(
                    &self.current_cardinal_direction,
                    &d,
                );
                self.current_cardinal_direction = d;
                proof {
                    assert(counts_shape(counts_of(&self.visits), self.rows(), self.cols()));
                }
                Some((relative, d))
            },
        }
    }
}

/// Laying a view that knows nothing over a grid leaves the grid as it was.
pub proof fn lemma_unknown_view_keeps_grid(g: Glyphs, view: Glyphs, r0: int, c0: int)
    requires
        has_shape(view, 7, 7),
        all_unknown(view),
    ensures
        overlay(g, view, r0, c0) == g,
{
    assert(overlay(g, view, r0, c0) =~~= g);
}

/// Merging a radar view that knows nothing leaves the grid and the visit
/// counts as they were, when the move needs no more room.
pub proof fn lemma_merge_unknown_view(m: MazeMap, view: Glyphs, d: CardinalDirection)
    requires
        m.wf(),
        has_shape(view, 7, 7),
        all_unknown(view),
        !m.needs_room_towards(d),
    ensures
        m.merged_glyphs(view, d) == glyphs_of(&m.grid),
        m.expanded_counts(d) == counts_of(&m.visits),
{
    let g = glyphs_of(&m.grid);
    assert(m.expanded_glyphs(d) =~~= g);
    assert(m.expanded_counts(d) =~~= counts_of(&m.visits));
    lemma_unknown_view_keeps_grid(g, view, m.merged_position(d).0 - 3, m.merged_position(d).1 - 3);
}

/// After a merge the grid still has an odd number of rows and columns, and
/// the player's position keeps its parity: a position at even row and
/// column stays at even row and column.
pub proof fn lemma_merge_keeps_shape(m: MazeMap, view: Glyphs, d: CardinalDirection)
    requires
        m.wf(),
    ensures
        m.expanded_glyphs(d).len() % 2 == 1,
        m.expanded_glyphs(d).len() > 0 && m.expanded_glyphs(d)[0].len() % 2 == 1,
        m.merged_glyphs(view, d).len() == m.expanded_glyphs(d).len(),
        m.merged_glyphs(view, d)[0].len() == m.expanded_glyphs(d)[0].len(),
        m.merged_position(d).0 % 2 == m.pos().0 % 2,
        m.merged_position(d).1 % 2 == m.pos().1 % 2,
        m.pos().0 % 2 == 0 && m.pos().1 % 2 == 0 ==> m.merged_position(d).0 % 2 == 0
            && m.merged_position(d).1 % 2 == 0,
{
}

/// When two open directions have the same number of visits, the later of
/// them in the order North, East, South, West is never the one chosen.
pub proof fn lemma_tie_goes_to_first(m: MazeMap, d: CardinalDirection, e: CardinalDirection)
    requires
        m.can_move(d),
        m.can_move(e),
        m.visits_towards(d) == m.visits_towards(e),
        cardinal_index(d) < cardinal_index(e),
    ensures
        !m.preferred(e),
{
}


/// On a well-formed map, a move can only bring the view past the side it
/// moves towards: checking that side is checking every side.
pub proof fn lemma_room_only_ahead(m: MazeMap, d: CardinalDirection)
    requires
        m.wf(),
    ensures
        target_of(m.pos(), d).0 - 3 < 0 ==> d == CardinalDirection::North,
        target_of(m.pos(), d).0 + 3 >= m.rows() ==> d == CardinalDirection::South,
        target_of(m.pos(), d).1 - 3 < 0 ==> d == CardinalDirection::West,
        target_of(m.pos(), d).1 + 3 >= m.cols() ==> d == CardinalDirection::East,
{
}

} // verus!
