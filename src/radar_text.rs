//! The radar's matrices written out as text, one bracketed row per line.

use vstd::prelude::*;

use crate::glyph::{glyphs_of, row_glyphs, Glyphs};
use crate::radar::{items_matrix, walls_matrix, RadarView};
use crate::radar_codes::{Entity, RadarItem};

verus! {

/// The entries of a row separated by a comma and a space.
pub open spec fn listed(row: Seq<Seq<char>>) -> Seq<char>
    decreases row.len(),
{
    if row.len() == 0 {
        Seq::empty()
    } else if row.len() == 1 {
        row[0]
    } else {
        listed(row.drop_last()) + ", "@ + row.last()
    }
}

/// Each row in brackets, on a line of its own.
pub open spec fn bracket_lines(m: Glyphs) -> Seq<char>
    decreases m.len(),
{
    if m.len() == 0 {
        Seq::empty()
    } else {
        bracket_lines(m.drop_last()) + "["@ + listed(m.last()) + "]\n"@
    }
}

/// The text of a wall code.
pub open spec fn wall_text(w: Option<bool>) -> Seq<char> {
    match w {
        None => "None"@,
        Some(true) => "Some(true)"@,
        Some(false) => "Some(false)"@,
    }
}

/// The text of a flag.
pub open spec fn flag_text(b: bool) -> Seq<char> {
    if b {
        "true"@
    } else {
        "false"@
    }
}

/// The text of an entity, if any.
pub open spec fn entity_text(e: Option<Entity>) -> Seq<char> {
    match e {
        None => "None"@,
        Some(Entity::Ally) => "Some(Ally)"@,
        Some(Entity::Enemy) => "Some(Enemy)"@,
        Some(Entity::Monster) => "Some(Monster)"@,
    }
}

/// The text of a cell's contents.
pub open spec fn item_text(c: Option<RadarItem>) -> Seq<char> {
    match c {
        None => "None"@,
        Some(item) => "Some(RadarItem { is_hint: "@ + flag_text(item.is_hint) + ", is_goal: "@
            + flag_text(item.is_goal) + ", entity: "@ + entity_text(item.entity) + " })"@,
    }
}

/// A glyph in double quotes.
pub open spec fn quoted(s: Seq<char>) -> Seq<char> {
    "\""@ + s + "\""@
}

/// Lines of bracketed rows for a matrix of texts.
fn render_rows(cells: &Vec<Vec<String>>) -> (r: String)
    ensures
        r@ == bracket_lines(glyphs_of(cells)),
{
    let ghost g = glyphs_of(cells);
    let mut text: String = String::new();
    let mut i: usize = 0;
    while i < cells.len()
        invariant
            g == glyphs_of(cells),
            i <= g.len(),
            text@ == bracket_lines(g.take(i as int)),
        decreases g.len() - i,
    {
        let row: &Vec<String> = &cells[i];
        let ghost rg = row_glyphs(row);
        let ghost before = text@;
        text.append("[");
        let mut j: usize = 0;
        while j < row.len()
            invariant
                rg == row_glyphs(row),
                j <= rg.len(),
                text@ == before + "["@ + listed(rg.take(j as int)),
            decreases rg.len() - j,
        {
            if j > 0 {
                text.append(", ");
            }
            text.append(row[j].as_str());
            proof {
                let t = rg.take(j + 1);
                assert(t.drop_last() =~= rg.take(j as int));
                if j == 0 {
                    assert(rg.take(0) =~= Seq::<Seq<char>>::empty());
                }
                assert(text@ =~= before + "["@ + listed(t));
            }
            j += 1;
        }
        text.append("]\n");
        proof {
            assert(rg.take(rg.len() as int) =~= rg);
            assert(g.take(i + 1).drop_last() =~= g.take(i as int));
            assert(g.take(i + 1).last() == rg);
            assert(text@ =~= bracket_lines(g.take(i + 1)));
        }
        i += 1;
    }
    assert(g.take(g.len() as int) =~= g);
    text
}

fn wall_string(w: Option<bool>) -> (r: String)
    ensures
        r@ == wall_text(w),
{
    match w {
        None => String::from_str("None"),
        Some(true) => String::from_str("Some(true)"),
        Some(false) => String::from_str("Some(false)"),
    }
}

fn flag_string(b: bool) -> (r: String)
    ensures
        r@ == flag_text(b),
{
    if b {
        String::from_str("true")
    } else {
        String::from_str("false")
    }
}

fn item_string(c: Option<RadarItem>) -> (r: String)
    ensures
        r@ == item_text(c),
{
    match c {
        None => String::from_str("None"),
        Some(item) => {
            let mut s: String = String::from_str("Some(RadarItem { is_hint: ");
            s.append(flag_string(item.is_hint).as_str());
            s.append(", is_goal: ");
            s.append(flag_string(item.is_goal).as_str());
            s.append(", entity: ");
            let e: &str = match item.entity {
                None => "None",
                Some(Entity::Ally) => "Some(Ally)",
                Some(Entity::Enemy) => "Some(Enemy)",
                Some(Entity::Monster) => "Some(Monster)",
            };
            s.append(e);
            s.append(" })");
            s
        },
    }
}

/// The texts of a matrix of wall codes.
pub open spec fn wall_texts(m: Seq<Seq<Option<bool>>>) -> Glyphs {
    Seq::new(m.len(), |i: int| Seq::new(m[i].len(), |j: int| wall_text(m[i][j])))
}

/// The texts of a matrix of cell contents.
pub open spec fn item_texts(m: Seq<Seq<Option<RadarItem>>>) -> Glyphs {
    Seq::new(m.len(), |i: int| Seq::new(m[i].len(), |j: int| item_text(m[i][j])))
}

/// The glyphs of a grid, each in quotes.
pub open spec fn quoted_glyphs(g: Glyphs) -> Glyphs {
    Seq::new(g.len(), |i: int| Seq::new(g[i].len(), |j: int| quoted(g[i][j])))
}

fn wall_strings(m: &Vec<Vec<Option<bool>>>) -> (r: Vec<Vec<String>>)
    ensures
        glyphs_of(&r) == wall_texts(walls_matrix(m)),
{
    let mut r: Vec<Vec<String>> = Vec::new();
    let mut i: usize = 0;
    while i < m.len()
        invariant
            i <= m@.len(),
            r@.len() == i,
            forall|k: int| 0 <= k < i ==> #[trigger] row_glyphs(&r@[k]) == wall_texts(walls_matrix(m))[k],
        decreases m@.len() - i,
    {
        let mut row: Vec<String> = Vec::new();
        let mut j: usize = 0;
        while j < m[i].len()
            invariant
                i < m@.len(),
                j <= m@[i as int]@.len(),
                row@.len() == j,
                forall|k: int| 0 <= k < j ==> (#[trigger] row@[k])@ == wall_text(m@[i as int]@[k]),
            decreases m@[i as int]@.len() - j,
        {
            row.push(wall_string(m[i][j]));
            j += 1;
        }
        assert(row_glyphs(&row) =~= wall_texts(walls_matrix(m))[i as int]);
        r.push(row);
        i += 1;
    }
    assert(glyphs_of(&r) =~= wall_texts(walls_matrix(m)));
    r
}

fn item_strings(m: &Vec<Vec<Option<RadarItem>>>) -> (r: Vec<Vec<String>>)
    ensures
        glyphs_of(&r) == item_texts(items_matrix(m)),
{
    let mut r: Vec<Vec<String>> = Vec::new();
    let mut i: usize = 0;
    while i < m.len()
        invariant
            i <= m@.len(),
            r@.len() == i,
            forall|k: int| 0 <= k < i ==> #[trigger] row_glyphs(&r@[k]) == item_texts(items_matrix(m))[k],
        decreases m@.len() - i,
    {
        let mut row: Vec<String> = Vec::new();
        let mut j: usize = 0;
        while j < m[i].len()
            invariant
                i < m@.len(),
                j <= m@[i as int]@.len(),
                row@.len() == j,
                forall|k: int| 0 <= k < j ==> (#[trigger] row@[k])@ == item_text(m@[i as int]@[k]),
            decreases m@[i as int]@.len() - j,
        {
            row.push(item_string(m[i][j]));
            j += 1;
        }
        assert(row_glyphs(&row) =~= item_texts(items_matrix(m))[i as int]);
        r.push(row);
        i += 1;
    }
    assert(glyphs_of(&r) =~= item_texts(items_matrix(m)));
    r
}

fn quoted_strings(grid: &Vec<Vec<String>>) -> (r: Vec<Vec<String>>)
    ensures
        glyphs_of(&r) == quoted_glyphs(glyphs_of(grid)),
{
    let mut r: Vec<Vec<String>> = Vec::new();
    let mut i: usize = 0;
    while i < grid.len()
        invariant
            i <= grid@.len(),
            r@.len() == i,
            forall|k: int| 0 <= k < i ==> #[trigger] row_glyphs(&r@[k]) == quoted_glyphs(glyphs_of(grid))[k],
        decreases grid@.len() - i,
    {
        let mut row: Vec<String> = Vec::new();
        let mut j: usize = 0;
        while j < grid[i].len()
            invariant
                i < grid@.len(),
                j <= grid@[i as int]@.len(),
                row@.len() == j,
                forall|k: int| 0 <= k < j ==> (#[trigger] row@[k])@ == quoted(grid@[i as int]@[k]@),
            decreases grid@[i as int]@.len() - j,
        {
            let mut cell: String = String::from_str("\"");
            cell.append(grid[i][j].as_str());
            cell.append("\"");
            row.push(cell);
            j += 1;
        }
        assert(row_glyphs(&row) =~= quoted_glyphs(glyphs_of(grid))[i as int]);
        r.push(row);
        i += 1;
    }
    assert(glyphs_of(&r) =~= quoted_glyphs(glyphs_of(grid)));
    r
}

impl RadarView {
    /// The horizontal wall codes as text, one bracketed row per line.
    pub fn print_horizontal_walls(&self) -> (r: String)
        ensures
            r@ == bracket_lines(wall_texts(walls_matrix(&self.horizontal_walls))),
    {
        render_rows(&wall_strings(&self.horizontal_walls))
    }

    /// The vertical wall codes as text, one bracketed row per line.
    pub fn print_vertical_walls(&self) -> (r: String)
        ensures
            r@ == bracket_lines(wall_texts(walls_matrix(&self.vertical_walls))),
    {
        render_rows(&wall_strings(&self.vertical_walls))
    }

    /// The cell contents as text, one bracketed row per line.
    pub fn print_cells_items(&self) -> (r: String)
        ensures
            r@ == bracket_lines(item_texts(items_matrix(&self.radar_items))),
    {
        render_rows(&item_strings(&self.radar_items))
    }

    /// The glyph grid as text: each row bracketed, glyphs in quotes.
    pub fn print_walls(&self) -> (r: String)
        ensures
            r@ == bracket_lines(quoted_glyphs(glyphs_of(&self.grid))),
    {
        render_rows(&quoted_strings(&self.grid))
    }
}

} // verus!
