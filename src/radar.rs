//! The radar: an 11-byte snapshot of the 7x7 surroundings of a player,
//! decoded into an oriented glyph grid.

use vstd::prelude::*;

use crate::base64::{base64_decode, decode_base64, DecodeError};
use crate::direction::CardinalDirection;
use crate::glyph::{
    glyph, glyph_is, glyph_string, glyphs_of, has_shape, is_rectangular, lemma_grid_shape, lemma_rotate_shape,
    rotate_cw, rotate_times, row_glyphs, set_glyph, swapped_wall, unknown, Glyphs,
};
use crate::radar_codes::{
    bits_of, cell_of_bits, cell_word, walls_of_bits, wall_word, Entity, RadarItem,
};

verus! {

/// A decoded radar snapshot and the stages of its decoding.
pub struct RadarView {
    pub encoded_view: String,
    pub decoded_view: Vec<u8>,
    pub horizontal_walls: Vec<Vec<Option<bool>>>,
    pub vertical_walls: Vec<Vec<Option<bool>>>,
    pub radar_items: Vec<Vec<Option<RadarItem>>>,
    pub grid: Vec<Vec<String>>,
    pub cardinal_direction: CardinalDirection,
}

/// The bytes of an encoded radar, which must decode to exactly 11 bytes.
pub open spec fn radar_bytes(s: Seq<char>) -> Result<Seq<u8>, DecodeError> {
    match base64_decode(s) {
        Ok(b) => if b.len() == 11 {
            Ok(b)
        } else {
            Err(DecodeError::InvalidLength)
        },
        Err(e) => Err(e),
    }
}

/// The twelve wall codes of three wall bytes.
pub open spec fn wall_codes(b: Seq<u8>) -> Seq<Option<bool>> {
    walls_of_bits(bits_of(wall_word(b), 24))
}

/// Horizontal walls of radar bytes, 4 rows of 3.
pub open spec fn horizontal_of(bytes: Seq<u8>) -> Seq<Seq<Option<bool>>> {
    Seq::new(4, |i: int| Seq::new(3, |j: int| wall_codes(bytes.subrange(0, 3))[3 * i + j]))
}

/// Vertical walls of radar bytes, 3 rows of 4.
pub open spec fn vertical_of(bytes: Seq<u8>) -> Seq<Seq<Option<bool>>> {
    Seq::new(3, |i: int| Seq::new(4, |j: int| wall_codes(bytes.subrange(3, 6))[4 * i + j]))
}

/// Cell contents of radar bytes, 3 rows of 3.
pub open spec fn items_of(bytes: Seq<u8>) -> Seq<Seq<Option<RadarItem>>> {
    Seq::new(
        3,
        |i: int|
            Seq::new(
                3,
                |j: int|
                    cell_of_bits(
                        bits_of(cell_word(bytes.subrange(6, 11)), 40).subrange(
                            4 * (3 * i + j),
                            4 * (3 * i + j) + 4,
                        ),
                    ),
            ),
    )
}

/// The glyph of a cell's contents: goal, then hint, then entity, else blank.
pub open spec fn item_glyph(c: Option<RadarItem>) -> Seq<char> {
    match c {
        None => glyph(' '),
        Some(item) => if item.is_goal {
            glyph('G')
        } else if item.is_hint {
            glyph('H')
        } else {
            match item.entity {
                Some(Entity::Ally) => glyph('A'),
                Some(Entity::Enemy) => glyph('E'),
                Some(Entity::Monster) => glyph('M'),
                None => glyph(' '),
            }
        },
    }
}

/// The glyph of a wall slot: `wall` where there is a wall, blank otherwise.
pub open spec fn wall_glyph(w: Option<bool>, wall: char) -> Seq<char> {
    if w == Some(true) {
        glyph(wall)
    } else {
        glyph(' ')
    }
}

/// The unsealed 7x7 grid: nodes at (even, even), horizontal walls at
/// (even, odd), vertical walls at (odd, even), cell contents at (odd, odd).
#[verifier::opaque]
pub open spec fn base_grid(
    h: Seq<Seq<Option<bool>>>,
    v: Seq<Seq<Option<bool>>>,
    items: Seq<Seq<Option<RadarItem>>>,
) -> Glyphs {
    Seq::new(
        7,
        |r: int|
            Seq::new(
                7,
                |c: int|
                    if r % 2 == 0 && c % 2 == 0 {
                        glyph('\u{2022}')
                    } else if r % 2 == 0 {
                        wall_glyph(h[r / 2][c / 2], '-')
                    } else if c % 2 == 0 {
                        wall_glyph(v[r / 2][c / 2], '|')
                    } else {
                        item_glyph(items[r / 2][c / 2])
                    },
            ),
    )
}

/// The cell at `(r, c)` of `g` is the glyph `ch`.
pub open spec fn shows(g: Glyphs, r: int, c: int, ch: char) -> bool {
    g[r][c] == glyph(ch)
}

/// `g` with the rectangle of rows `r0..=r1` and columns `c0..=c1` unknown.
pub open spec fn fill_rect(g: Glyphs, r0: int, r1: int, c0: int, c1: int) -> Glyphs {
    Seq::new(
        g.len(),
        |r: int|
            Seq::new(
                g[r].len(),
                |c: int|
                    if r0 <= r <= r1 && c0 <= c <= c1 {
                        unknown()
                    } else {
                        g[r][c]
                    },
            ),
    )
}

/// `g`, with a rectangle made unknown when the cell `(r, c)` shows `ch`.
pub open spec fn fill_when(
    g: Glyphs,
    r: int,
    c: int,
    ch: char,
    r0: int,
    r1: int,
    c0: int,
    c1: int,
) -> Glyphs {
    if shows(g, r, c, ch) {
        fill_rect(g, r0, r1, c0, c1)
    } else {
        g
    }
}

/// First stage of sealing: the band above the centre and its corners.
spec fn seal_top(g: Glyphs) -> Glyphs {
    if shows(g, 2, 3, '-') {
        fill_when(fill_when(fill_rect(g, 0, 1, 2, 4), 2, 1, '-', 0, 1, 0, 1), 2, 5, '-', 0, 1, 5, 6)
    } else {
        g
    }
}

/// Second stage of sealing: the band left of the centre and its corners.
spec fn seal_left(g: Glyphs) -> Glyphs {
    if shows(g, 3, 2, '|') {
        fill_when(fill_when(fill_rect(g, 2, 4, 0, 1), 1, 2, '|', 0, 1, 0, 1), 5, 2, '|', 5, 6, 0, 1)
    } else {
        g
    }
}

/// Third stage of sealing: the band below the centre and its corners.
spec fn seal_bottom(g: Glyphs) -> Glyphs {
    if shows(g, 4, 3, '-') {
        fill_when(fill_when(fill_rect(g, 5, 6, 2, 4), 4, 1, '-', 5, 6, 0, 1), 4, 5, '-', 5, 6, 5, 6)
    } else {
        g
    }
}

/// Fourth stage of sealing: the band right of the centre and its corners.
spec fn seal_right(g: Glyphs) -> Glyphs {
    if shows(g, 3, 4, '|') {
        fill_when(fill_when(fill_rect(g, 2, 4, 5, 6), 1, 4, '|', 0, 1, 5, 6), 5, 4, '|', 5, 6, 5, 6)
    } else {
        g
    }
}

/// A corner made unknown when either pair of walls stands.
spec fn seal_corner(
    g: Glyphs,
    first: (int, int, char),
    second: (int, int, char),
    third: (int, int, char),
    fourth: (int, int, char),
    r0: int,
    c0: int,
) -> Glyphs {
    if (shows(g, first.0, first.1, first.2) && shows(g, second.0, second.1, second.2)) || (shows(
        g,
        third.0,
        third.1,
        third.2,
    ) && shows(g, fourth.0, fourth.1, fourth.2)) {
        fill_rect(g, r0, r0 + 1, c0, c0 + 1)
    } else {
        g
    }
}

/// The bands, in the order the grid is sealed.
spec fn seal_edges(g: Glyphs) -> Glyphs {
    seal_right(seal_bottom(seal_left(seal_top(g))))
}

/// The corners, once the bands are sealed.
spec fn seal_tl(g: Glyphs) -> Glyphs {
    seal_corner(g, (1, 2, '|'), (2, 1, '-'), (2, 3, '-'), (3, 2, '|'), 0, 0)
}

spec fn seal_tr(g: Glyphs) -> Glyphs {
    seal_corner(g, (2, 5, '-'), (1, 4, '|'), (2, 3, '-'), (3, 4, '|'), 0, 5)
}

spec fn seal_bl(g: Glyphs) -> Glyphs {
    seal_corner(g, (4, 1, '-'), (5, 2, '|'), (3, 2, '|'), (4, 3, '-'), 5, 0)
}

spec fn seal_br(g: Glyphs) -> Glyphs {
    seal_corner(g, (4, 5, '-'), (5, 4, '|'), (3, 4, '|'), (4, 3, '-'), 5, 5)
}

spec fn seal_corners(g: Glyphs) -> Glyphs {
    seal_br(seal_bl(seal_tr(seal_tl(g))))
}

/// The corner next to a node is closed off when two of the four walls that
/// meet at that node close it: the two on one straight line (`line_a`,
/// `line_b`), the two on the corner's side (`outer_a`, `outer_b`), or the two
/// on the centre's side (`inner_a`, `inner_b`). Each wall is given by whether
/// it stands.
pub open spec fn corner_closed(inner_a: bool, outer_a: bool, inner_b: bool, outer_b: bool) -> bool {
    (inner_a && outer_a) || (inner_b && outer_b) || (outer_a && outer_b) || (inner_a && inner_b)
}

/// Whether the server hides the cell `(r, c)` of the 7x7 view `g`: the band
/// behind a wall next to the centre cell, and each corner closed off by the
/// walls that meet at its inner node.
pub open spec fn hidden(g: Glyphs, r: int, c: int) -> bool {
    let top = shows(g, 2, 3, '-');
    let left = shows(g, 3, 2, '|');
    let bottom = shows(g, 4, 3, '-');
    let right = shows(g, 3, 4, '|');
    let upper = 0 <= r <= 1;
    let lower = 5 <= r <= 6;
    let west = 0 <= c <= 1;
    let east = 5 <= c <= 6;
    let middle_rows = 2 <= r <= 4;
    let middle_cols = 2 <= c <= 4;
    ||| upper && middle_cols && top
    ||| lower && middle_cols && bottom
    ||| middle_rows && west && left
    ||| middle_rows && east && right
    ||| upper && west && corner_closed(top, shows(g, 2, 1, '-'), left, shows(g, 1, 2, '|'))
    ||| upper && east && corner_closed(top, shows(g, 2, 5, '-'), right, shows(g, 1, 4, '|'))
    ||| lower && west && corner_closed(bottom, shows(g, 4, 1, '-'), left, shows(g, 5, 2, '|'))
    ||| lower && east && corner_closed(bottom, shows(g, 4, 5, '-'), right, shows(g, 5, 4, '|'))
}

/// The view with every hidden cell unknown.
pub open spec fn sealed(g: Glyphs) -> Glyphs {
    Seq::new(
        g.len(),
        |r: int|
            Seq::new(
                g[r].len(),
                |c: int|
                    if hidden(g, r, c) {
                        unknown()
                    } else {
                        g[r][c]
                    },
            ),
    )
}

proof fn lemma_wall_glyphs_differ()
    ensures
        unknown() != glyph('-'),
        unknown() != glyph('|'),
        glyph('-') != glyph('|'),
{
    assert(unknown()[0] != glyph('-')[0]);
    assert(unknown()[0] != glyph('|')[0]);
    assert(glyph('-')[0] != glyph('|')[0]);
}

spec fn in_box(r: int, c: int, r0: int, r1: int, c0: int, c1: int) -> bool {
    r0 <= r <= r1 && c0 <= c <= c1
}

/// Cells hidden by the first stage, in terms of the view before sealing.
spec fn hid_top(g: Glyphs, r: int, c: int) -> bool {
    shows(g, 2, 3, '-') && (in_box(r, c, 0, 1, 2, 4) || (in_box(r, c, 0, 1, 0, 1) && shows(g, 2, 1, '-'))
        || (in_box(r, c, 0, 1, 5, 6) && shows(g, 2, 5, '-')))
}

spec fn hid_left(g: Glyphs, r: int, c: int) -> bool {
    shows(g, 3, 2, '|') && (in_box(r, c, 2, 4, 0, 1) || (in_box(r, c, 0, 1, 0, 1) && shows(g, 1, 2, '|')
        && !shows(g, 2, 3, '-')) || (in_box(r, c, 5, 6, 0, 1) && shows(g, 5, 2, '|')))
}

spec fn hid_bottom(g: Glyphs, r: int, c: int) -> bool {
    shows(g, 4, 3, '-') && (in_box(r, c, 5, 6, 2, 4) || (in_box(r, c, 5, 6, 0, 1) && shows(g, 4, 1, '-')
        && !shows(g, 3, 2, '|')) || (in_box(r, c, 5, 6, 5, 6) && shows(g, 4, 5, '-')))
}

spec fn hid_right(g: Glyphs, r: int, c: int) -> bool {
    shows(g, 3, 4, '|') && (in_box(r, c, 2, 4, 5, 6) || (in_box(r, c, 0, 1, 5, 6) && shows(g, 1, 4, '|')
        && !shows(g, 2, 3, '-')) || (in_box(r, c, 5, 6, 5, 6) && shows(g, 5, 4, '|') && !shows(g, 4, 3, '-')))
}

spec fn hid_edges(g: Glyphs, r: int, c: int) -> bool {
    hid_top(g, r, c) || hid_left(g, r, c) || hid_bottom(g, r, c) || hid_right(g, r, c)
}

spec fn hid_corners(g: Glyphs, r: int, c: int) -> bool {
    let top = shows(g, 2, 3, '-');
    let left = shows(g, 3, 2, '|');
    let bottom = shows(g, 4, 3, '-');
    let right = shows(g, 3, 4, '|');
    ||| in_box(r, c, 0, 1, 0, 1) && ((shows(g, 1, 2, '|') && !top && shows(g, 2, 1, '-') && !left) || (top
        && left))
    ||| in_box(r, c, 0, 1, 5, 6) && ((shows(g, 2, 5, '-') && !right && shows(g, 1, 4, '|') && !top) || (top
        && right))
    ||| in_box(r, c, 5, 6, 0, 1) && ((shows(g, 4, 1, '-') && !left && shows(g, 5, 2, '|') && !bottom) || (
    left && bottom))
    ||| in_box(r, c, 5, 6, 5, 6) && ((shows(g, 4, 5, '-') && !right && shows(g, 5, 4, '|') && !bottom) || (
    right && bottom))
}

/// `s` is `g` with the cells that `hid` names made unknown.
spec fn hides(s: Glyphs, g: Glyphs, hid: spec_fn(int, int) -> bool) -> bool {
    &&& has_shape(s, 7, 7)
    &&& forall|r: int, c: int|
        0 <= r < 7 && 0 <= c < 7 ==> #[trigger] s[r][c] == if hid(r, c) {
            unknown()
        } else {
            g[r][c]
        }
}

proof fn lemma_seal_top(g: Glyphs)
    requires
        has_shape(g, 7, 7),
    ensures
        hides(seal_top(g), g, |r: int, c: int| hid_top(g, r, c)),
{
    lemma_wall_glyphs_differ();
}

proof fn lemma_seal_left(g: Glyphs)
    requires
        has_shape(g, 7, 7),
    ensures
        hides(seal_left(seal_top(g)), g, |r: int, c: int| hid_top(g, r, c) || hid_left(g, r, c)),
{
    lemma_wall_glyphs_differ();
    lemma_seal_top(g);
    let s = seal_top(g);
    assert(shows(s, 3, 2, '|') == shows(g, 3, 2, '|'));
    assert(shows(s, 1, 2, '|') == (shows(g, 1, 2, '|') && !shows(g, 2, 3, '-')));
    assert(shows(s, 5, 2, '|') == shows(g, 5, 2, '|'));
}

proof fn lemma_seal_bottom(g: Glyphs)
    requires
        has_shape(g, 7, 7),
    ensures
        hides(
            seal_bottom(seal_left(seal_top(g))),
            g,
            |r: int, c: int| hid_top(g, r, c) || hid_left(g, r, c) || hid_bottom(g, r, c),
        ),
{
    lemma_wall_glyphs_differ();
    lemma_seal_left(g);
    let s = seal_left(seal_top(g));
    assert(shows(s, 4, 3, '-') == shows(g, 4, 3, '-'));
    assert(shows(s, 4, 1, '-') == (shows(g, 4, 1, '-') && !shows(g, 3, 2, '|')));
    assert(shows(s, 4, 5, '-') == shows(g, 4, 5, '-'));
}

proof fn lemma_seal_edges(g: Glyphs)
    requires
        has_shape(g, 7, 7),
    ensures
        hides(seal_edges(g), g, |r: int, c: int| hid_edges(g, r, c)),
{
    lemma_wall_glyphs_differ();
    lemma_seal_bottom(g);
    let s = seal_bottom(seal_left(seal_top(g)));
    assert(shows(s, 3, 4, '|') == shows(g, 3, 4, '|'));
    assert(shows(s, 1, 4, '|') == (shows(g, 1, 4, '|') && !shows(g, 2, 3, '-')));
    assert(shows(s, 5, 4, '|') == (shows(g, 5, 4, '|') && !shows(g, 4, 3, '-')));
}

proof fn lemma_seal_corners(g: Glyphs)
    requires
        has_shape(g, 7, 7),
    ensures
        hides(
            seal_corners(seal_edges(g)),
            g,
            |r: int, c: int| hid_edges(g, r, c) || hid_corners(g, r, c),
        ),
{
    lemma_wall_glyphs_differ();
    lemma_seal_edges(g);
    let e = seal_edges(g);
    assert(shows(e, 1, 2, '|') == (shows(g, 1, 2, '|') && !shows(g, 2, 3, '-')));
    assert(shows(e, 2, 1, '-') == (shows(g, 2, 1, '-') && !shows(g, 3, 2, '|')));
    assert(shows(e, 2, 5, '-') == (shows(g, 2, 5, '-') && !shows(g, 3, 4, '|')));
    assert(shows(e, 1, 4, '|') == (shows(g, 1, 4, '|') && !shows(g, 2, 3, '-')));
    assert(shows(e, 4, 1, '-') == (shows(g, 4, 1, '-') && !shows(g, 3, 2, '|')));
    assert(shows(e, 5, 2, '|') == (shows(g, 5, 2, '|') && !shows(g, 4, 3, '-')));
    assert(shows(e, 4, 5, '-') == (shows(g, 4, 5, '-') && !shows(g, 3, 4, '|')));
    assert(shows(e, 5, 4, '|') == (shows(g, 5, 4, '|') && !shows(g, 4, 3, '-')));
    assert(shows(e, 2, 3, '-') == shows(g, 2, 3, '-'));
    assert(shows(e, 3, 2, '|') == shows(g, 3, 2, '|'));
    assert(shows(e, 4, 3, '-') == shows(g, 4, 3, '-'));
    assert(shows(e, 3, 4, '|') == shows(g, 3, 4, '|'));
    let t1 = seal_tl(e);
    let t2 = seal_tr(t1);
    let t3 = seal_bl(t2);
    assert(hides(t1, g, |r: int, c: int| hid_edges(g, r, c) || (in_box(r, c, 0, 1, 0, 1) && hid_corners(g, r, c))));
    assert(hides(t2, g, |r: int, c: int| hid_edges(g, r, c) || (r <= 1 && hid_corners(g, r, c))));
    assert(hides(t3, g, |r: int, c: int| hid_edges(g, r, c) || ((r <= 1 || c <= 1) && hid_corners(g, r, c))));
}

/// Sealing band by band, then corner by corner, hides exactly the cells
/// that `hidden` names.
proof fn lemma_sealing_is_hiding(g: Glyphs)
    requires
        has_shape(g, 7, 7),
    ensures
        seal_corners(seal_edges(g)) == sealed(g),
{
    lemma_seal_corners(g);
    let s = seal_corners(seal_edges(g));
    assert forall|r: int, c: int| 0 <= r < 7 && 0 <= c < 7 implies (hid_edges(g, r, c) || hid_corners(
        g,
        r,
        c,
    )) == hidden(g, r, c) by {}
    assert(s =~~= sealed(g));
}

/// Quarter turns clockwise that bring a view taken facing `d` to North up.
pub open spec fn view_turns(d: CardinalDirection) -> nat {
    match d {
        CardinalDirection::North => 0,
        CardinalDirection::East => 3,
        CardinalDirection::South => 2,
        CardinalDirection::West => 1,
    }
}

/// The glyph grid of 11 radar bytes seen facing `d`.
pub open spec fn radar_grid(bytes: Seq<u8>, d: CardinalDirection) -> Glyphs {
    rotate_times(
        sealed(base_grid(horizontal_of(bytes), vertical_of(bytes), items_of(bytes))),
        view_turns(d),
    )
}

/// The glyph grid decoded from an encoded radar seen facing `d`.
pub open spec fn decoded_radar_grid(s: Seq<char>, d: CardinalDirection) -> Result<Glyphs, DecodeError> {
    match radar_bytes(s) {
        Ok(b) => Ok(radar_grid(b, d)),
        Err(e) => Err(e),
    }
}

/// The value of a matrix of wall codes.
pub open spec fn walls_matrix(m: &Vec<Vec<Option<bool>>>) -> Seq<Seq<Option<bool>>> {
    Seq::new(m@.len(), |i: int| m@[i]@)
}

/// The value of a matrix of cell contents.
pub open spec fn items_matrix(m: &Vec<Vec<Option<RadarItem>>>) -> Seq<Seq<Option<RadarItem>>> {
    Seq::new(m@.len(), |i: int| m@[i]@)
}

/// A matrix with `rows` rows of `cols` entries.
pub open spec fn matrix_shape<T>(m: Seq<Seq<T>>, rows: int, cols: int) -> bool {
    m.len() == rows && forall|i: int| 0 <= i < rows ==> (#[trigger] m[i]).len() == cols
}

/// Makes the rectangle of rows `r0..=r1` and columns `c0..=c1` unknown.
fn fill_unknown(grid: &mut Vec<Vec<String>>, r0: usize, r1: usize, c0: usize, c1: usize)
    requires
        has_shape(glyphs_of(old(grid)), 7, 7),
        r0 <= r1 < 7,
        c0 <= c1 < 7,
    ensures
        glyphs_of(final(grid)) == fill_rect(glyphs_of(old(grid)), r0 as int, r1 as int, c0 as int, c1 as int),
{
    let ghost g0 = glyphs_of(grid);
    let mut r: usize = r0;
    while r <= r1
        invariant
            r0 <= r <= r1 + 1,
            r1 < 7,
            c0 <= c1 < 7,
            has_shape(g0, 7, 7),
            has_shape(glyphs_of(grid), 7, 7),
            forall|i: int, j: int|
                0 <= i < 7 && 0 <= j < 7 ==> #[trigger] glyphs_of(grid)[i][j] == if r0 <= i < r
                    && c0 <= j <= c1 {
                    unknown()
                } else {
                    g0[i][j]
                },
        decreases r1 + 1 - r,
    {
        let mut c: usize = c0;
        while c <= c1
            invariant
                r0 <= r <= r1,
                c0 <= c <= c1 + 1,
                r1 < 7,
                c1 < 7,
                has_shape(g0, 7, 7),
                has_shape(glyphs_of(grid), 7, 7),
                forall|i: int, j: int|
                    0 <= i < 7 && 0 <= j < 7 ==> #[trigger] glyphs_of(grid)[i][j] == if (r0 <= i
                        < r && c0 <= j <= c1) || (i == r && c0 <= j < c) {
                        unknown()
                    } else {
                        g0[i][j]
                    },
            decreases c1 + 1 - c,
        {
            proof {
                lemma_grid_shape(grid, 7, 7);
            }
            set_glyph(grid, r, c, glyph_string('#'));
            c += 1;
        }
        r += 1;
    }
    assert(glyphs_of(grid) =~~= fill_rect(g0, r0 as int, r1 as int, c0 as int, c1 as int));
}

/// Makes a rectangle unknown when the cell `(r, c)` shows `ch`.
fn fill_unknown_when(
    grid: &mut Vec<Vec<String>>,
    r: usize,
    c: usize,
    ch: char,
    r0: usize,
    r1: usize,
    c0: usize,
    c1: usize,
)
    requires
        has_shape(glyphs_of(old(grid)), 7, 7),
        r < 7,
        c < 7,
        r0 <= r1 < 7,
        c0 <= c1 < 7,
    ensures
        glyphs_of(final(grid)) == fill_when(
            glyphs_of(old(grid)),
            r as int,
            c as int,
            ch,
            r0 as int,
            r1 as int,
            c0 as int,
            c1 as int,
        ),
        has_shape(glyphs_of(final(grid)), 7, 7),
{
    if grid_shows(grid, r, c, ch) {
        fill_unknown(grid, r0, r1, c0, c1);
    }
}

/// Whether the cell `(r, c)` of a grid shows `ch`.
fn grid_shows(grid: &Vec<Vec<String>>, r: usize, c: usize, ch: char) -> (b: bool)
    requires
        has_shape(glyphs_of(grid), 7, 7),
        r < 7,
        c < 7,
    ensures
        b == shows(glyphs_of(grid), r as int, c as int, ch),
{
    proof {
        lemma_grid_shape(grid, 7, 7);
    }
    glyph_is(&grid[r][c], ch)
}

/// Seals the bands behind walls next to the centre, as `seal_edges` says.
fn seal_grid_edges(grid: &mut Vec<Vec<String>>)
    requires
        has_shape(glyphs_of(old(grid)), 7, 7),
    ensures
        glyphs_of(final(grid)) == seal_edges(glyphs_of(old(grid))),
        has_shape(glyphs_of(final(grid)), 7, 7),
{
    if grid_shows(grid, 2, 3, '-') {
        fill_unknown(grid, 0, 1, 2, 4);
        fill_unknown_when(grid, 2, 1, '-', 0, 1, 0, 1);
        fill_unknown_when(grid, 2, 5, '-', 0, 1, 5, 6);
    }
    if grid_shows(grid, 3, 2, '|') {
        fill_unknown(grid, 2, 4, 0, 1);
        fill_unknown_when(grid, 1, 2, '|', 0, 1, 0, 1);
        fill_unknown_when(grid, 5, 2, '|', 5, 6, 0, 1);
    }
    if grid_shows(grid, 4, 3, '-') {
        fill_unknown(grid, 5, 6, 2, 4);
        fill_unknown_when(grid, 4, 1, '-', 5, 6, 0, 1);
        fill_unknown_when(grid, 4, 5, '-', 5, 6, 5, 6);
    }
    if grid_shows(grid, 3, 4, '|') {
        fill_unknown(grid, 2, 4, 5, 6);
        fill_unknown_when(grid, 1, 4, '|', 0, 1, 5, 6);
        fill_unknown_when(grid, 5, 4, '|', 5, 6, 5, 6);
    }
}

/// Seals the corners closed off by two walls, as `seal_corners` says.
fn seal_grid_corners(grid: &mut Vec<Vec<String>>)
    requires
        has_shape(glyphs_of(old(grid)), 7, 7),
    ensures
        glyphs_of(final(grid)) == seal_corners(glyphs_of(old(grid))),
        has_shape(glyphs_of(final(grid)), 7, 7),
{
    if (grid_shows(grid, 1, 2, '|') && grid_shows(grid, 2, 1, '-')) || (grid_shows(grid, 2, 3, '-')
        && grid_shows(grid, 3, 2, '|')) {
        fill_unknown(grid, 0, 1, 0, 1);
    }
    if (grid_shows(grid, 2, 5, '-') && grid_shows(grid, 1, 4, '|')) || (grid_shows(grid, 2, 3, '-')
        && grid_shows(grid, 3, 4, '|')) {
        fill_unknown(grid, 0, 1, 5, 6);
    }
    if (grid_shows(grid, 4, 1, '-') && grid_shows(grid, 5, 2, '|')) || (grid_shows(grid, 3, 2, '|')
        && grid_shows(grid, 4, 3, '-')) {
        fill_unknown(grid, 5, 6, 0, 1);
    }
    if (grid_shows(grid, 4, 5, '-') && grid_shows(grid, 5, 4, '|')) || (grid_shows(grid, 3, 4, '|')
        && grid_shows(grid, 4, 3, '-')) {
        fill_unknown(grid, 5, 6, 5, 6);
    }
}

impl RadarView {
    /// Builds the 7x7 glyph grid from the wall and cell matrices: nodes,
    /// walls and cell contents, then the bands and corners that walls around
    /// the centre seal off, which the server does not reveal.
    pub fn merge_walls(&mut self)
        requires
            matrix_shape(walls_matrix(&old(self).horizontal_walls), 4, 3),
            matrix_shape(walls_matrix(&old(self).vertical_walls), 3, 4),
            matrix_shape(items_matrix(&old(self).radar_items), 3, 3),
        ensures
            glyphs_of(&final(self).grid) == sealed(
                base_grid(
                    walls_matrix(&old(self).horizontal_walls),
                    walls_matrix(&old(self).vertical_walls),
                    items_matrix(&old(self).radar_items),
                ),
            ),
            has_shape(glyphs_of(&final(self).grid), 7, 7),
            final(self).encoded_view == old(self).encoded_view,
            final(self).decoded_view == old(self).decoded_view,
            final(self).horizontal_walls == old(self).horizontal_walls,
            final(self).vertical_walls == old(self).vertical_walls,
            final(self).radar_items == old(self).radar_items,
            final(self).cardinal_direction == old(self).cardinal_direction,
    {
        reveal(base_grid);
        let ghost h = walls_matrix(&self.horizontal_walls);
        let ghost v = walls_matrix(&self.vertical_walls);
        let ghost items = items_matrix(&self.radar_items);
        let mut grid: Vec<Vec<String>> = Vec::new();
        let mut r: usize = 0;
        while r < 7
            invariant
                r <= 7,
                h == walls_matrix(&self.horizontal_walls),
                v == walls_matrix(&self.vertical_walls),
                items == items_matrix(&self.radar_items),
                matrix_shape(h, 4, 3),
                matrix_shape(v, 3, 4),
                matrix_shape(items, 3, 3),
                grid@.len() == r,
                forall|i: int| 0 <= i < r ==> #[trigger] row_glyphs(&grid@[i]) == base_grid(h, v, items)[i],
                base_grid(h, v, items).len() == 7,
                forall|i: int| 0 <= i < 7 ==> (#[trigger] base_grid(h, v, items)[i]).len() == 7,
            decreases 7 - r,
        {
            let mut row: Vec<String> = Vec::new();
            let mut c: usize = 0;
            while c < 7
                invariant
                    r < 7,
                    c <= 7,
                    h == walls_matrix(&self.horizontal_walls),
                    v == walls_matrix(&self.vertical_walls),
                    items == items_matrix(&self.radar_items),
                    matrix_shape(h, 4, 3),
                    matrix_shape(v, 3, 4),
                    matrix_shape(items, 3, 3),
                    row@.len() == c,
                    forall|j: int| 0 <= j < c ==> #[trigger] row@[j]@ == base_grid(h, v, items)[r as int][j],
                decreases 7 - c,
            {
                proof {
                    reveal(base_grid);
                    assert(h[(r / 2) as int].len() == 3);
                    if r % 2 == 1 {
                        assert(v[(r / 2) as int].len() == 4);
                        assert(items[(r / 2) as int].len() == 3);
                    }
                }
                let cell: String = if r % 2 == 0 && c % 2 == 0 {
                    glyph_string('\u{2022}')
                } else if r % 2 == 0 {
                    if self.horizontal_walls[r / 2][c / 2] == Some(true) {
                        glyph_string('-')
                    } else {
                        glyph_string(' ')
                    }
                } else if c % 2 == 0 {
                    if self.vertical_walls[r / 2][c / 2] == Some(true) {
                        glyph_string('|')
                    } else {
                        glyph_string(' ')
                    }
                } else {
                    item_glyph_string(self.radar_items[r / 2][c / 2])
                };
                row.push(cell);
                c += 1;
            }
            assert(row_glyphs(&row) =~= base_grid(h, v, items)[r as int]);
            grid.push(row);
            r += 1;
        }
        assert(glyphs_of(&grid) =~= base_grid(h, v, items)) by {
            reveal(base_grid);
        }
        let ghost base = glyphs_of(&grid);
        seal_grid_edges(&mut grid);
        seal_grid_corners(&mut grid);
        proof {
            lemma_sealing_is_hiding(base);
        }
        self.grid = grid;
    }

    /// Decodes a radar: its bytes, wall and cell matrices, and the glyph grid
    /// turned to read North up for a view taken facing `cardinal_direction`.
    /// Fails when the text is not in the alphabet or does not decode to
    /// exactly 11 bytes.
    pub fn new(encoded_view: String, cardinal_direction: CardinalDirection) -> (r: Result<
        RadarView,
        DecodeError,
    >)
        ensures
            match r {
                Ok(view) => {
                    &&& radar_bytes(encoded_view@) == Ok::<Seq<u8>, DecodeError>(view.decoded_view@)
                    &&& view.encoded_view == encoded_view
                    &&& view.cardinal_direction == cardinal_direction
                    &&& walls_matrix(&view.horizontal_walls) == horizontal_of(view.decoded_view@)
                    &&& walls_matrix(&view.vertical_walls) == vertical_of(view.decoded_view@)
                    &&& items_matrix(&view.radar_items) == items_of(view.decoded_view@)
                    &&& glyphs_of(&view.grid) == radar_grid(view.decoded_view@, cardinal_direction)
                    &&& has_shape(glyphs_of(&view.grid), 7, 7)
                },
                Err(e) => radar_bytes(encoded_view@) == Err::<Seq<u8>, DecodeError>(e),
            },
    {
        let mut radar_view: RadarView = RadarView {
            encoded_view,
            decoded_view: Vec::new(),
            horizontal_walls: Vec::new(),
            vertical_walls: Vec::new(),
            radar_items: Vec::new(),
            grid: Vec::new(),
            cardinal_direction,
        };
        match radar_view.decode_view() {
            Ok(()) => {},
            Err(e) => {
                return Err(e);
            },
        }
        radar_view.extract_data();
        radar_view.merge_walls();
        proof {
            lemma_grid_shape(&radar_view.grid, 7, 7);
        }
        radar_view.rotate_radar_view();
        Ok(radar_view)
    }

    /// Decodes `encoded_view` into `decoded_view`, which must come to 11 bytes.
    pub fn decode_view(&mut self) -> (r: Result<(), DecodeError>)
        ensures
            match r {
                Ok(()) => radar_bytes(old(self).encoded_view@) == Ok::<Seq<u8>, DecodeError>(
                    final(self).decoded_view@,
                ),
                Err(e) => radar_bytes(old(self).encoded_view@) == Err::<Seq<u8>, DecodeError>(e),
            },
            r.is_err() ==> final(self).decoded_view == old(self).decoded_view,
            final(self).encoded_view == old(self).encoded_view,
            final(self).horizontal_walls == old(self).horizontal_walls,
            final(self).vertical_walls == old(self).vertical_walls,
            final(self).radar_items == old(self).radar_items,
            final(self).grid == old(self).grid,
            final(self).cardinal_direction == old(self).cardinal_direction,
    {
        match decode_base64(self.encoded_view.as_str()) {
            Ok(decoded) => {
                if decoded.len() != 11 {
                    return Err(DecodeError::InvalidLength);
                }
                self.decoded_view = decoded;
                Ok(())
            },
            Err(e) => Err(e),
        }
    }

    /// Splits the 11 decoded bytes into wall and cell matrices.
    fn extract_data(&mut self)
        requires
            old(self).decoded_view@.len() == 11,
        ensures
            walls_matrix(&final(self).horizontal_walls) == horizontal_of(old(self).decoded_view@),
            walls_matrix(&final(self).vertical_walls) == vertical_of(old(self).decoded_view@),
            items_matrix(&final(self).radar_items) == items_of(old(self).decoded_view@),
            matrix_shape(walls_matrix(&final(self).horizontal_walls), 4, 3),
            matrix_shape(walls_matrix(&final(self).vertical_walls), 3, 4),
            matrix_shape(items_matrix(&final(self).radar_items), 3, 3),
            final(self).encoded_view == old(self).encoded_view,
            final(self).decoded_view == old(self).decoded_view,
            final(self).grid == old(self).grid,
            final(self).cardinal_direction == old(self).cardinal_direction,
    {
        let d: &Vec<u8> = &self.decoded_view;
        let h_bytes: Vec<u8> = vec![d[0], d[1], d[2]];
        let v_bytes: Vec<u8> = vec![d[3], d[4], d[5]];
        let c_bytes: Vec<u8> = vec![d[6], d[7], d[8], d[9], d[10]];
        assert(h_bytes@ =~= d@.subrange(0, 3));
        assert(v_bytes@ =~= d@.subrange(3, 6));
        assert(c_bytes@ =~= d@.subrange(6, 11));
        let h_bits: String = RadarView::convert_walls_bytes_to_string(h_bytes.as_slice());
        let h_codes: Vec<Option<bool>> = RadarView::extract_walls_data_from_bits_string(h_bits.as_str());
        let v_bits: String = RadarView::convert_walls_bytes_to_string(v_bytes.as_slice());
        let v_codes: Vec<Option<bool>> = RadarView::extract_walls_data_from_bits_string(v_bits.as_str());
        let cell_bits: Vec<String> = RadarView::extract_cells_data(c_bytes.as_slice());
        let mut items: Vec<Option<RadarItem>> = Vec::new();
        let mut k: usize = 0;
        while k < cell_bits.len()
            invariant
                cell_bits@.len() == 9,
                k <= 9,
                items@.len() == k,
                forall|j: int|
                    0 <= j < 9 ==> (#[trigger] cell_bits@[j])@ == bits_of(cell_word(c_bytes@), 40).subrange(
                        4 * j,
                        4 * j + 4,
                    ),
                forall|j: int|
                    0 <= j < k ==> #[trigger] items@[j] == cell_of_bits(
                        bits_of(cell_word(c_bytes@), 40).subrange(4 * j, 4 * j + 4),
                    ),
            decreases 9 - k,
        {
            items.push(RadarView::get_radar_item_from_bits(cell_bits[k].as_str()));
            k += 1;
        }
        self.horizontal_walls = RadarView::convert_horizontal_walls_to_matrix(h_codes);
        self.vertical_walls = RadarView::convert_vertical_walls_to_matrix(v_codes);
        self.radar_items = RadarView::convert_cells_items_to_matrix(items);
        assert(walls_matrix(&self.horizontal_walls) =~~= horizontal_of(d@));
        assert(walls_matrix(&self.vertical_walls) =~~= vertical_of(d@));
        assert(items_matrix(&self.radar_items) =~~= items_of(d@));
    }

    /// Twelve wall codes as 4 rows of 3; a row stays unknown when the codes
    /// run out before it is complete.
    fn convert_horizontal_walls_to_matrix(boolean_options: Vec<Option<bool>>) -> (r: Vec<
        Vec<Option<bool>>,
    >)
        requires
            boolean_options@.len() < 15,
        ensures
            matrix_shape(walls_matrix(&r), 4, 3),
            forall|i: int, j: int|
                0 <= i < 4 && 0 <= j < 3 ==> #[trigger] walls_matrix(&r)[i][j] == if 3 * i + 3
                    <= boolean_options@.len() {
                    boolean_options@[3 * i + j]
                } else {
                    None
                },
    {
        RadarView::chunk_rows(&boolean_options, 4, 3)
    }

    /// Twelve wall codes as 3 rows of 4; a row stays unknown when the codes
    /// run out before it is complete.
    fn convert_vertical_walls_to_matrix(boolean_options: Vec<Option<bool>>) -> (r: Vec<
        Vec<Option<bool>>,
    >)
        requires
            boolean_options@.len() < 16,
        ensures
            matrix_shape(walls_matrix(&r), 3, 4),
            forall|i: int, j: int|
                0 <= i < 3 && 0 <= j < 4 ==> #[trigger] walls_matrix(&r)[i][j] == if 4 * i + 4
                    <= boolean_options@.len() {
                    boolean_options@[4 * i + j]
                } else {
                    None
                },
    {
        RadarView::chunk_rows(&boolean_options, 3, 4)
    }

    /// `rows` rows of `cols` codes; incomplete rows are unknown.
    fn chunk_rows(codes: &Vec<Option<bool>>, rows: usize, cols: usize) -> (r: Vec<
        Vec<Option<bool>>,
    >)
        requires
            rows <= 4,
            cols <= 4,
            codes@.len() < rows * cols + cols,
        ensures
            matrix_shape(walls_matrix(&r), rows as int, cols as int),
            forall|i: int, j: int|
                0 <= i < rows && 0 <= j < cols ==> #[trigger] walls_matrix(&r)[i][j] == if cols * i
                    + cols <= codes@.len() {
                    codes@[cols * i + j]
                } else {
                    None
                },
    {
        let mut r: Vec<Vec<Option<bool>>> = Vec::new();
        let mut i: usize = 0;
        while i < rows
            invariant
                rows <= 4,
                cols <= 4,
                i <= rows,
                r@.len() == i,
                forall|a: int| 0 <= a < i ==> (#[trigger] r@[a])@.len() == cols,
                forall|a: int, j: int|
                    0 <= a < i && 0 <= j < cols ==> #[trigger] r@[a]@[j] == if cols * a + cols
                        <= codes@.len() {
                        codes@[cols * a + j]
                    } else {
                        None
                    },
            decreases rows - i,
        {
            let mut row: Vec<Option<bool>> = Vec::new();
            assert(cols * i <= 16) by (nonlinear_arith)
                requires
                    cols <= 4,
                    i < 4,
            ;
            let full: bool = cols * i + cols <= codes.len();
            let mut j: usize = 0;
            while j < cols
                invariant
                    rows <= 4,
                    cols <= 4,
                    i < rows,
                    j <= cols,
                    full == (cols * i + cols <= codes@.len()),
                    cols * i <= 16,
                    row@.len() == j,
                    forall|b: int|
                        0 <= b < j ==> #[trigger] row@[b] == if full {
                            codes@[cols * i + b]
                        } else {
                            None
                        },
                decreases cols - j,
            {
                if full {
                    row.push(codes[cols * i + j]);
                } else {
                    row.push(None);
                }
                j += 1;
            }
            r.push(row);
            i += 1;
        }
        r
    }

    /// Cell contents in rows of three.
    fn convert_cells_items_to_matrix(cells_items: Vec<Option<RadarItem>>) -> (r: Vec<
        Vec<Option<RadarItem>>,
    >)
        requires
            cells_items@.len() == 9,
        ensures
            matrix_shape(items_matrix(&r), 3, 3),
            forall|i: int, j: int|
                0 <= i < 3 && 0 <= j < 3 ==> #[trigger] items_matrix(&r)[i][j] == cells_items@[3 * i
                    + j],
    {
        let mut r: Vec<Vec<Option<RadarItem>>> = Vec::new();
        let mut i: usize = 0;
        while i < 3
            invariant
                cells_items@.len() == 9,
                i <= 3,
                r@.len() == i,
                forall|a: int| 0 <= a < i ==> (#[trigger] r@[a])@.len() == 3,
                forall|a: int, j: int|
                    0 <= a < i && 0 <= j < 3 ==> #[trigger] r@[a]@[j] == cells_items@[3 * a + j],
            decreases 3 - i,
        {
            let row: Vec<Option<RadarItem>> = vec![
                cells_items[3 * i],
                cells_items[3 * i + 1],
                cells_items[3 * i + 2],
            ];
            r.push(row);
            i += 1;
        }
        r
    }

    /// The grid as text: one line per row, cells separated by a space.
    pub fn print_grid(&self) -> (r: String)
        ensures
            r@ == grid_text(glyphs_of(&self.grid)),
    {
        let ghost g = glyphs_of(&self.grid);
        let mut text: String = String::new();
        proof {
            reveal_strlit(" ");
            reveal_strlit("\n");
        }
        let mut i: usize = 0;
        while i < self.grid.len()
            invariant
                g == glyphs_of(&self.grid),
                i <= g.len(),
                text@ == grid_text(g.take(i as int)),
                " "@ == seq![' '],
                "\n"@ == seq!['\n'],
            decreases g.len() - i,
        {
            let row: &Vec<String> = &self.grid[i];
            let ghost rg = row_glyphs(row);
            let ghost before = text@;
            let mut j: usize = 0;
            while j < row.len()
                invariant
                    rg == row_glyphs(row),
                    j <= rg.len(),
                    text@ == before + spaced(rg.take(j as int)),
                    " "@ == seq![' '],
                decreases rg.len() - j,
            {
                if j > 0 {
                    text.append(" ");
                }
                text.append(row[j].as_str());
                proof {
                    let t = rg.take(j + 1);
                    assert(t.drop_last() =~= rg.take(j as int));
                    if j == 0 {
                        assert(rg.take(0) =~= Seq::<Seq<char>>::empty());
                        assert(text@ =~= before + spaced(t));
                    } else {
                        assert(text@ =~= before + spaced(t));
                    }
                }
                j += 1;
            }
            text.append("\n");
            proof {
                assert(rg.take(rg.len() as int) =~= rg);
                assert(g.take(i + 1).drop_last() =~= g.take(i as int));
                assert(g.take(i + 1).last() == rg);
                assert(text@ =~= grid_text(g.take(i + 1)));
            }
            i += 1;
        }
        assert(g.take(g.len() as int) =~= g);
        text
    }

    /// The encoded radar as text.
    pub fn print_encoded_view(&self) -> (r: String)
        ensures
            r@ == "Encoded view: "@ + self.encoded_view@,
    {
        let mut text: String = String::from_str("Encoded view: ");
        text.append(self.encoded_view.as_str());
        text
    }

    /// The decoded bytes as text, eight binary digits per line.
    pub fn print_decoded_view(&self) -> (r: String)
        ensures
            r@ == bytes_text(self.decoded_view@),
    {
        let ghost b = self.decoded_view@;
        let mut text: String = String::new();
        proof {
            reveal_strlit("\n");
        }
        let mut i: usize = 0;
        while i < self.decoded_view.len()
            invariant
                b == self.decoded_view@,
                i <= b.len(),
                text@ == bytes_text(b.take(i as int)),
                "\n"@ == seq!['\n'],
            decreases b.len() - i,
        {
            let bits: String = crate::radar_codes::binary_string(self.decoded_view[i] as u64, 8);
            text.append(bits.as_str());
            text.append("\n");
            proof {
                assert(b.take(i + 1).drop_last() =~= b.take(i as int));
                assert(text@ =~= bytes_text(b.take(i + 1)));
            }
            i += 1;
        }
        assert(b.take(b.len() as int) =~= b);
        text
    }

    /// Turns a grid a quarter clockwise; wall glyphs change orientation.
    pub fn rotate_90_clockwise(matrix: &Vec<Vec<String>>) -> (r: Vec<Vec<String>>)
        requires
            matrix@.len() > 0 ==> is_rectangular(glyphs_of(matrix), matrix@[0]@.len() as int),
        ensures
            glyphs_of(&r) == rotate_cw(glyphs_of(matrix)),
    {
        let rows: usize = matrix.len();
        if rows == 0 {
            let r: Vec<Vec<String>> = Vec::new();
            assert(glyphs_of(&r) =~= rotate_cw(glyphs_of(matrix)));
            return r;
        }
        let cols: usize = matrix[0].len();
        let ghost g = glyphs_of(matrix);
        let mut rotated: Vec<Vec<String>> = Vec::new();
        let mut a: usize = 0;
        while a < cols
            invariant
                rows == matrix@.len(),
                rows > 0,
                cols == matrix@[0]@.len(),
                g == glyphs_of(matrix),
                is_rectangular(g, cols as int),
                a <= cols,
                rotated@.len() == a,
                forall|i: int| 0 <= i < a ==> #[trigger] row_glyphs(&rotated@[i]) == rotate_cw(g)[i],
            decreases cols - a,
        {
            let mut row: Vec<String> = Vec::new();
            let mut b: usize = 0;
            while b < rows
                invariant
                    rows == matrix@.len(),
                    rows > 0,
                    cols == matrix@[0]@.len(),
                    g == glyphs_of(matrix),
                    is_rectangular(g, cols as int),
                    a < cols,
                    b <= rows,
                    row@.len() == b,
                    forall|j: int| 0 <= j < b ==> #[trigger] row@[j]@ == rotate_cw(g)[a as int][j],
                decreases rows - b,
            {
                assert(g[(rows - 1 - b) as int].len() == cols);
                row.push(swapped_wall(&matrix[rows - 1 - b][a]));
                b += 1;
            }
            assert(row_glyphs(&row) =~= rotate_cw(g)[a as int]);
            rotated.push(row);
            a += 1;
        }
        assert(glyphs_of(&rotated) =~= rotate_cw(g));
        rotated
    }

    /// Turns the grid so that a view taken facing `cardinal_direction`
    /// reads North up.
    pub fn rotate_radar_view(&mut self)
        requires
            old(self).grid@.len() > 0 ==> old(self).grid@[0]@.len() > 0 && is_rectangular(
                glyphs_of(&old(self).grid),
                old(self).grid@[0]@.len() as int,
            ),
        ensures
            glyphs_of(&final(self).grid) == rotate_times(
                glyphs_of(&old(self).grid),
                view_turns(old(self).cardinal_direction),
            ),
            forall|n: int|
                n > 0 && #[trigger] has_shape(glyphs_of(&old(self).grid), n, n) ==> has_shape(
                    glyphs_of(&final(self).grid),
                    n,
                    n,
                ),
            final(self).encoded_view == old(self).encoded_view,
            final(self).decoded_view == old(self).decoded_view,
            final(self).horizontal_walls == old(self).horizontal_walls,
            final(self).vertical_walls == old(self).vertical_walls,
            final(self).radar_items == old(self).radar_items,
            final(self).cardinal_direction == old(self).cardinal_direction,
    {
        let ghost g = glyphs_of(&self.grid);
        proof {
            reveal_with_fuel(rotate_times, 4);
            if g.len() > 0 {
                lemma_rotate_shape(g, g.len() as int, g[0].len() as int);
                lemma_rotate_shape(rotate_cw(g), g[0].len() as int, g.len() as int);
                lemma_rotate_shape(rotate_cw(rotate_cw(g)), g.len() as int, g[0].len() as int);
            }
        }
        match self.cardinal_direction {
            CardinalDirection::North => {},
            CardinalDirection::East => {
                let once: Vec<Vec<String>> = RadarView::rotate_90_clockwise(&self.grid);
                let twice: Vec<Vec<String>> = RadarView::rotate_90_clockwise(&once);
                proof {
                    if twice@.len() > 0 {
                        assert(glyphs_of(&twice)[0].len() == twice@[0]@.len());
                    }
                }
                self.grid = RadarView::rotate_90_clockwise(&twice);
            },
            CardinalDirection::South => {
                let once: Vec<Vec<String>> = RadarView::rotate_90_clockwise(&self.grid);
                self.grid = RadarView::rotate_90_clockwise(&once);
            },
            CardinalDirection::West => {
                self.grid = RadarView::rotate_90_clockwise(&self.grid);
            },
        }
    }
}

/// The cells of a row separated by single spaces.
pub open spec fn spaced(row: Seq<Seq<char>>) -> Seq<char>
    decreases row.len(),
{
    if row.len() == 0 {
        Seq::empty()
    } else if row.len() == 1 {
        row[0]
    } else {
        spaced(row.drop_last()) + seq![' '] + row.last()
    }
}

/// A grid as text: each row spaced out, on a line of its own.
pub open spec fn grid_text(g: Glyphs) -> Seq<char>
    decreases g.len(),
{
    if g.len() == 0 {
        Seq::empty()
    } else {
        grid_text(g.drop_last()) + spaced(g.last()) + seq!['\n']
    }
}

/// Bytes as text: eight binary digits per byte, one byte per line.
pub open spec fn bytes_text(b: Seq<u8>) -> Seq<char>
    decreases b.len(),
{
    if b.len() == 0 {
        Seq::empty()
    } else {
        bytes_text(b.drop_last()) + bits_of(b.last() as nat, 8) + seq!['\n']
    }
}

/// The glyph string of a cell's contents.
fn item_glyph_string(c: Option<RadarItem>) -> (s: String)
    ensures
        s@ == item_glyph(c),
{
    match c {
        None => glyph_string(' '),
        Some(item) => if item.is_goal {
            glyph_string('G')
        } else if item.is_hint {
            glyph_string('H')
        } else {
            match item.entity {
                Some(Entity::Ally) => glyph_string('A'),
                Some(Entity::Enemy) => glyph_string('E'),
                Some(Entity::Monster) => glyph_string('M'),
                None => glyph_string(' '),
            }
        },
    }
}

} // verus!
