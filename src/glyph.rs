//! Glyph grids: each cell of a grid is a one-character string.

use vstd::prelude::*;

verus! {

/// The glyph of a grid as characters: `g[row][col]` is a cell's text.
pub type Glyphs = Seq<Seq<Seq<char>>>;

/// The mathematical value of a grid.
pub open spec fn glyphs_of(grid: &Vec<Vec<String>>) -> Glyphs {
    Seq::new(grid@.len(), |i: int| row_glyphs(&grid@[i]))
}

/// The mathematical value of one row of a grid.
pub open spec fn row_glyphs(row: &Vec<String>) -> Seq<Seq<char>> {
    Seq::new(row@.len(), |j: int| row@[j]@)
}

/// The one-character text `c`.
pub open spec fn glyph(c: char) -> Seq<char> {
    seq![c]
}

/// Text of the unknown glyph, for places nobody has seen.
pub open spec fn unknown() -> Seq<char> {
    glyph('#')
}

/// Every row of `g` has `cols` cells.
pub open spec fn is_rectangular(g: Glyphs, cols: int) -> bool {
    forall|i: int| 0 <= i < g.len() ==> #[trigger] g[i].len() == cols
}

/// `g` has `rows` rows of `cols` cells each.
pub open spec fn has_shape(g: Glyphs, rows: int, cols: int) -> bool {
    g.len() == rows && is_rectangular(g, cols)
}

/// What a grid's shape says of its vectors.
pub proof fn lemma_grid_shape(grid: &Vec<Vec<String>>, rows: int, cols: int)
    requires
        has_shape(glyphs_of(grid), rows, cols),
    ensures
        grid@.len() == rows,
        forall|i: int| 0 <= i < rows ==> (#[trigger] grid@[i])@.len() == cols,
        forall|i: int, j: int|
            0 <= i < rows && 0 <= j < cols ==> glyphs_of(grid)[i][j] == (#[trigger] grid@[i]@[j])@,
{
    assert forall|i: int| 0 <= i < rows implies (#[trigger] grid@[i])@.len() == cols by {
        assert(glyphs_of(grid)[i].len() == cols);
    }
}

/// Wall glyphs change orientation under a quarter turn.
pub open spec fn swap_wall(s: Seq<char>) -> Seq<char> {
    if s == glyph('-') {
        glyph('|')
    } else if s == glyph('|') {
        glyph('-')
    } else {
        s
    }
}

/// `g` turned a quarter clockwise: the cell at `(a, b)` of the result comes
/// from `(rows - 1 - b, a)` of `g`, with wall glyphs swapped.
pub open spec fn rotate_cw(g: Glyphs) -> Glyphs {
    if g.len() == 0 {
        Seq::empty()
    } else {
        let rows = g.len();
        let cols = g[0].len();
        Seq::new(cols, |a: int| Seq::new(rows, |b: int| swap_wall(g[rows - 1 - b][a])))
    }
}

/// `g` turned `k` quarter turns clockwise.
pub open spec fn rotate_times(g: Glyphs, k: nat) -> Glyphs
    decreases k,
{
    if k == 0 {
        g
    } else {
        rotate_cw(rotate_times(g, (k - 1) as nat))
    }
}

proof fn lemma_swap_wall_twice(s: Seq<char>)
    ensures
        swap_wall(swap_wall(s)) == s,
{
    assert(glyph('-') != glyph('|')) by {
        assert(glyph('-')[0] != glyph('|')[0]);
    }
}

/// A quarter turn of a `rows` by `cols` grid is `cols` by `rows`.
pub proof fn lemma_rotate_shape(g: Glyphs, rows: int, cols: int)
    requires
        has_shape(g, rows, cols),
        rows > 0,
    ensures
        has_shape(rotate_cw(g), cols, rows),
{
}

/// Four quarter turns give back the grid they started from, for any
/// rectangular grid whose rows are not empty.
pub proof fn lemma_rotate_four_times_identity(g: Glyphs)
    requires
        g.len() > 0 ==> g[0].len() > 0 && is_rectangular(g, g[0].len() as int),
    ensures
        rotate_times(g, 4) == g,
{
    reveal_with_fuel(rotate_times, 5);
    if g.len() > 0 {
        let rows = g.len() as int;
        let cols = g[0].len() as int;
        let r1 = rotate_cw(g);
        lemma_rotate_shape(g, rows, cols);
        let r2 = rotate_cw(r1);
        lemma_rotate_shape(r1, cols, rows);
        let r3 = rotate_cw(r2);
        lemma_rotate_shape(r2, rows, cols);
        let r4 = rotate_cw(r3);
        lemma_rotate_shape(r3, cols, rows);
        assert forall|i: int, j: int| 0 <= i < rows && 0 <= j < cols implies r4[i][j] == g[i][j] by {
            lemma_swap_wall_twice(g[i][j]);
            lemma_swap_wall_twice(swap_wall(swap_wall(g[i][j])));
        }
        assert forall|i: int| 0 <= i < rows implies r4[i] =~= g[i] by {}
        assert(r4 =~= g);
    }
}

/// The characters that grids use as glyphs.
pub open spec fn is_glyph_char(c: char) -> bool {
    c == '#' || c == '\u{2022}' || c == '-' || c == '|' || c == ' ' || c == 'H' || c == 'G'
        || c == 'A' || c == 'E' || c == 'M'
}

/// A fresh one-character string holding the glyph `c`.
pub fn glyph_string(c: char) -> (s: String)
    requires
        is_glyph_char(c),
    ensures
        s@ == glyph(c),
{
    if c == '#' {
        proof { reveal_strlit("#"); }
        String::from_str("#")
    } else if c == '\u{2022}' {
        proof { reveal_strlit("\u{2022}"); }
        String::from_str("\u{2022}")
    } else if c == '-' {
        proof { reveal_strlit("-"); }
        String::from_str("-")
    } else if c == '|' {
        proof { reveal_strlit("|"); }
        String::from_str("|")
    } else if c == ' ' {
        proof { reveal_strlit(" "); }
        String::from_str(" ")
    } else if c == 'H' {
        proof { reveal_strlit("H"); }
        String::from_str("H")
    } else if c == 'G' {
        proof { reveal_strlit("G"); }
        String::from_str("G")
    } else if c == 'A' {
        proof { reveal_strlit("A"); }
        String::from_str("A")
    } else if c == 'E' {
        proof { reveal_strlit("E"); }
        String::from_str("E")
    } else {
        proof { reveal_strlit("M"); }
        String::from_str("M")
    }
}

/// Whether the text `s` is exactly the glyph `c`.
pub fn glyph_is(s: &String, c: char) -> (r: bool)
    ensures
        r == (s@ == glyph(c)),
{
    let t: &str = s.as_str();
    let n: usize = t.unicode_len();
    if n == 1 {
        let d: char = t.get_char(0);
        proof {
            if d == c {
                assert(s@ =~= glyph(c));
            }
        }
        d == c
    } else {
        false
    }
}

/// Replaces the cell at `(i, j)` of a grid.
pub fn set_glyph(grid: &mut Vec<Vec<String>>, i: usize, j: usize, s: String)
    requires
        i < old(grid)@.len(),
        j < old(grid)@[i as int]@.len(),
    ensures
        glyphs_of(final(grid)) == glyphs_of(old(grid)).update(
            i as int,
            glyphs_of(old(grid))[i as int].update(j as int, s@),
        ),
{
    let ghost before = glyphs_of(grid);
    let ghost old_grid = grid@;
    grid[i][j] = s;
    assert(grid@.len() == old_grid.len());
    assert(grid@[i as int]@ == old_grid[i as int]@.update(j as int, s));
    assert(forall|k: int| 0 <= k < old_grid.len() && k != i ==> grid@[k] == old_grid[k]);
    assert(row_glyphs(&grid@[i as int]) =~= before[i as int].update(j as int, s@));
    assert(glyphs_of(grid) =~= before.update(i as int, before[i as int].update(j as int, s@)));
}

/// A copy of a grid, cell by cell.
pub fn copy_grid(grid: &Vec<Vec<String>>) -> (r: Vec<Vec<String>>)
    ensures
        glyphs_of(&r) == glyphs_of(grid),
{
    let mut r: Vec<Vec<String>> = Vec::new();
    let mut i: usize = 0;
    while i < grid.len()
        invariant
            i <= grid@.len(),
            r@.len() == i,
            forall|k: int| 0 <= k < i ==> #[trigger] row_glyphs(&r@[k]) == row_glyphs(&grid@[k]),
        decreases grid@.len() - i,
    {
        let mut row: Vec<String> = Vec::new();
        let mut j: usize = 0;
        while j < grid[i].len()
            invariant
                i < grid@.len(),
                j <= grid@[i as int]@.len(),
                row@.len() == j,
                forall|k: int| 0 <= k < j ==> #[trigger] row@[k]@ == grid@[i as int]@[k]@,
            decreases grid@[i as int]@.len() - j,
        {
            let cell: String = grid[i][j].clone();
            assert(cell == grid@[i as int]@[j as int]);
            row.push(cell);
            j += 1;
        }
        assert(row_glyphs(&row) =~= row_glyphs(&grid@[i as int]));
        r.push(row);
        i += 1;
    }
    assert(glyphs_of(&r) =~= glyphs_of(grid));
    r
}

/// The glyph that a cell shows after a quarter turn.
pub fn swapped_wall(s: &String) -> (r: String)
    ensures
        r@ == swap_wall(s@),
{
    if glyph_is(s, '-') {
        glyph_string('|')
    } else if glyph_is(s, '|') {
        glyph_string('-')
    } else {
        s.clone()
    }
}

/// One glyph string per character of `s`: a grid row written as text.
pub fn string_to_strings(s: &str) -> (r: Vec<String>)
    ensures
        r@.len() == s@.len(),
        forall|i: int| 0 <= i < s@.len() ==> (#[trigger] r@[i])@ == glyph(s@[i]),
{
    let n: usize = s.unicode_len();
    let mut r: Vec<String> = Vec::new();
    let mut i: usize = 0;
    while i < n
        invariant
            n == s@.len(),
            i <= n,
            r@.len() == i,
            forall|k: int| 0 <= k < i ==> (#[trigger] r@[k])@ == glyph(s@[k]),
        decreases n - i,
    {
        let part: &str = s.substring_char(i, i + 1);
        assert(part@ =~= glyph(s@[i as int]));
        r.push(String::from_str(part));
        i += 1;
    }
    r
}

} // verus!
