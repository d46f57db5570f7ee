//! A plain cell maze explored with Tremaux's rule, cells being walls or not.

use vstd::prelude::*;

use crate::direction::{relative_index, RelativeDirection};
use crate::map::{counts_of, counts_shape, MAX_SIDE};

verus! {

/// A maze of cells (`Some(true)` a wall, `Some(false)` open, `None`
/// unknown), visit counts and the explorer's position `(x, y)`.
pub struct MazeState {
    pub cells: Vec<Vec<Option<bool>>>,
    pub visits: Vec<Vec<u32>>,
    pub position: (usize, usize),
    pub orientation: RelativeDirection,
}

/// The value of a matrix of cells.
pub open spec fn cells_of(c: &Vec<Vec<Option<bool>>>) -> Seq<Seq<Option<bool>>> {
    Seq::new(c@.len(), |i: int| c@[i]@)
}

/// Unit step `(dx, dy)` of a move; `y` grows downwards.
pub open spec fn maze_step(r: RelativeDirection) -> (int, int) {
    match r {
        RelativeDirection::Front => (0, -1),
        RelativeDirection::Right => (1, 0),
        RelativeDirection::Back => (0, 1),
        RelativeDirection::Left => (-1, 0),
    }
}

impl MazeState {
    /// Number of rows.
    pub open spec fn height(&self) -> int {
        self.cells@.len() as int
    }

    /// Number of columns.
    pub open spec fn width(&self) -> int {
        if self.cells@.len() > 0 {
            self.cells@[0]@.len() as int
        } else {
            0
        }
    }

    /// Cells and counts are rectangles of the same size, within bounds.
    pub open spec fn well_shaped(&self) -> bool {
        &&& 0 < self.height() < MAX_SIDE
        &&& 0 < self.width() < MAX_SIDE
        &&& forall|i: int| 0 <= i < self.height() ==> (#[trigger] cells_of(&self.cells)[i]).len() == self.width()
        &&& counts_shape(counts_of(&self.visits), self.height(), self.width())
        &&& self.position.0 < MAX_SIDE
        &&& self.position.1 < MAX_SIDE
    }

    /// The cell reached from the position by a step `r`.
    pub open spec fn neighbour(&self, r: RelativeDirection) -> (int, int) {
        (self.position.0 as int + maze_step(r).0, self.position.1 as int + maze_step(r).1)
    }

    /// The explorer may step `r`: the cell is in the maze, not a wall, and
    /// its count can still grow.
    pub open spec fn may_step(&self, r: RelativeDirection) -> bool {
        let n = self.neighbour(r);
        &&& 0 <= n.0 < self.width()
        &&& 0 <= n.1 < self.height()
        &&& cells_of(&self.cells)[n.1][n.0] != Some(true)
        &&& counts_of(&self.visits)[n.1][n.0] < u32::MAX
    }

    /// Visits of the cell reached by a step `r`.
    pub open spec fn visits_after(&self, r: RelativeDirection) -> u32 {
        let n = self.neighbour(r);
        counts_of(&self.visits)[n.1][n.0]
    }

    /// `r` is open with the fewest visits, ties going to the first of
    /// Front, Right, Back, Left.
    pub open spec fn best_step(&self, r: RelativeDirection) -> bool {
        &&& self.may_step(r)
        &&& forall|e: RelativeDirection| #[trigger]
            self.may_step(e) ==> self.visits_after(r) < self.visits_after(e) || (
            self.visits_after(r) == self.visits_after(e) && relative_index(r) <= relative_index(e))
    }

    /// Steps to the least visited open neighbour (ties to the first of
    /// Front, Right, Back, Left), counting a visit there; `None` when no
    /// neighbour is open.
    pub fn next_move_tremaux(&mut self) -> (r: Option<RelativeDirection>)
        requires
            old(self).well_shaped(),
        ensures
            r.is_none() <==> forall|e: RelativeDirection| !old(self).may_step(e),
            r.is_none() ==> *final(self) == *old(self),
            match r {
                Some(d) => {
                    let n = old(self).neighbour(d);
                    &&& old(self).best_step(d)
                    &&& final(self).position == (n.0 as usize, n.1 as usize)
                    &&& counts_of(&final(self).visits) == counts_of(&old(self).visits).update(
                        n.1,
                        counts_of(&old(self).visits)[n.1].update(n.0, (old(self).visits_after(d) + 1) as u32),
                    )
                    &&& final(self).cells == old(self).cells
                    &&& final(self).orientation == old(self).orientation
                    &&& final(self).well_shaped()
                },
                None => true,
            },
    {
        let width: usize = self.cells[0].len();
        let height: usize = self.cells.len();
        let (x, y) = self.position;
        let mut best: Option<(RelativeDirection, u32)> = None;
        let mut k: usize = 0;
        while k < 4
            invariant
                self.well_shaped(),
                width == self.width(),
                height == self.height(),
                (x, y) == self.position,
                k <= 4,
                best.is_none() ==> forall|e: RelativeDirection|
                    relative_index(e) < k ==> !(#[trigger] self.may_step(e)),
                match best {
                    Some((d, v)) => {
                        &&& self.may_step(d)
                        &&& relative_index(d) < k
                        &&& v == self.visits_after(d)
                        &&& forall|e: RelativeDirection|
                            relative_index(e) < k && #[trigger] self.may_step(e) ==> v
                                < self.visits_after(e) || (v == self.visits_after(e)
                                && relative_index(d) <= relative_index(e))
                    },
                    None => true,
                },
            decreases 4 - k,
        {
            let (d, dx, dy): (RelativeDirection, isize, isize) = if k == 0 {
                (RelativeDirection::Front, 0, -1)
            } else if k == 1 {
                (RelativeDirection::Right, 1, 0)
            } else if k == 2 {
                (RelativeDirection::Back, 0, 1)
            } else {
                (RelativeDirection::Left, -1, 0)
            };
            assert(relative_index(d) == k);
            let nx: isize = x as isize + dx;
            let ny: isize = y as isize + dy;
            if 0 <= nx && 0 <= ny && nx < width as isize && ny < height as isize {
                let nxu: usize = nx as usize;
                let nyu: usize = ny as usize;
                proof {
                    assert(cells_of(&self.cells)[ny as int].len() == width);
                    assert(counts_of(&self.visits)[ny as int].len() == width);
                }
                if self.cells[nyu][nxu] != Some(true) {
                    let v: u32 = self.visits[nyu][nxu];
                    let better: bool = match best {
                        Some((_, bv)) => v < bv,
                        None => v < u32::MAX,
                    };
                    if better {
                        best = Some((d, v));
                    }
                }
            }
            proof {
                assert forall|e: RelativeDirection| relative_index(e) == k implies e == d by {}
            }
            k += 1;
        }
        match best {
            None => {
                assert forall|e: RelativeDirection| !self.may_step(e) by {
                    assert(relative_index(e) < 4);
                }
                None
            },
            Some((d, v)) => {
                assert forall|e: RelativeDirection| #[trigger] self.may_step(e) implies self.visits_after(d)
                    < self.visits_after(e) || (self.visits_after(d) == self.visits_after(e)
                    && relative_index(d) <= relative_index(e)) by {
                    assert(relative_index(e) < 4);
                }
                let (dx, dy): (isize, isize) = match d {
                    RelativeDirection::Front => (0, -1),
                    RelativeDirection::Right => (1, 0),
                    RelativeDirection::Back => (0, 1),
                    RelativeDirection::Left => (-1, 0),
                };
                let nx: usize = (x as isize + dx) as usize;
                let ny: usize = (y as isize + dy) as usize;
                proof {
                    assert(counts_of(&self.visits)[ny as int].len() == width);
                }
                let ghost c0 = counts_of(&self.visits);
                self.visits[ny][nx] = v + 1;
                assert(counts_of(&self.visits) =~= c0.update(ny as int, c0[ny as int].update(nx as int, (v + 1) as u32)));
                self.position = (nx, ny);
                proof {
                    assert(counts_shape(counts_of(&self.visits), self.height(), self.width()));
                }
                Some(d)
            },
        }
    }
}

/// The explorer's next move by Tremaux's rule; see `MazeState::next_move_tremaux`.
pub fn choose_next_move(maze: &mut MazeState) -> (r: Option<RelativeDirection>)
    requires
        old(maze).well_shaped(),
    ensures
        r.is_none() <==> forall|e: RelativeDirection| !old(maze).may_step(e),
        r.is_none() ==> *final(maze) == *old(maze),
        match r {
            Some(d) => {
                let n = old(maze).neighbour(d);
                &&& old(maze).best_step(d)
                &&& final(maze).position == (n.0 as usize, n.1 as usize)
                &&& counts_of(&final(maze).visits) == counts_of(&old(maze).visits).update(
                    n.1,
                    counts_of(&old(maze).visits)[n.1].update(n.0, (old(maze).visits_after(d) + 1) as u32),
                )
                &&& final(maze).cells == old(maze).cells
                &&& final(maze).orientation == old(maze).orientation
                &&& final(maze).well_shaped()
            },
            None => true,
        },
{
    maze.next_move_tremaux()
}

} // verus!
