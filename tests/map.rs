use maze_client::direction::{CardinalDirection, RelativeDirection};
use maze_client::glyph::string_to_strings;
use maze_client::map::MazeMap;
use maze_client::maze::{choose_next_move, MazeState};

fn lattice_15() -> Vec<Vec<String>> {
    vec![
        string_to_strings("•-•-•-•-•-•-•-•"),
        string_to_strings("|1|2|3|4|5|6|7|"),
        string_to_strings("•-•-•-•-•-•-•-•"),
        string_to_strings("|1|2|3|4|5|6|7|"),
        string_to_strings("•-•-•-•-•-•-•-•"),
        string_to_strings("|1|2|3|4|5|6|7|"),
        string_to_strings("•-•-•-•-•-•-•-•"),
        string_to_strings("|1|2|3|4|5|6|7|"),
        string_to_strings("•-•-•-•-•-•-•-•"),
        string_to_strings("|1|2|3|4|5|6|7|"),
        string_to_strings("•-•-•-•-•-•-•-•"),
        string_to_strings("|1|2|3|4|5|6|7|"),
        string_to_strings("•-•-•-•-•-•-•-•"),
        string_to_strings("|1|2|3|4|5|6|7|"),
        string_to_strings("•-•-•-•-•-•-•-•"),
    ]
}

#[test]
fn test_should_expand_grid() {
    let grid_1: Vec<Vec<String>> = vec![
        string_to_strings("•-•-•-•"),
        string_to_strings("|1|2|3|"),
        string_to_strings("•-•-•-•"),
        string_to_strings("|4|5|6|"),
        string_to_strings("•-•-•-•"),
        string_to_strings("|7|8|9|"),
        string_to_strings("•-•-•-•"),
    ];
    let mut map_1: MazeMap = MazeMap::new(&grid_1, CardinalDirection::North);
    map_1.player_position = (3, 3);
    assert_eq!(map_1.should_expand_grid(CardinalDirection::North), true);
    assert_eq!(map_1.should_expand_grid(CardinalDirection::East), true);
    assert_eq!(map_1.should_expand_grid(CardinalDirection::South), true);
    assert_eq!(map_1.should_expand_grid(CardinalDirection::West), true);

    let grid_2: Vec<Vec<String>> = lattice_15();
    let mut map_2: MazeMap = MazeMap::new(&grid_2, CardinalDirection::North);
    map_2.player_position = (7, 7);
    assert_eq!(map_2.should_expand_grid(CardinalDirection::North), false);
    assert_eq!(map_2.should_expand_grid(CardinalDirection::East), false);
    assert_eq!(map_2.should_expand_grid(CardinalDirection::South), false);
    assert_eq!(map_2.should_expand_grid(CardinalDirection::West), false);
    map_2.player_position = (1, 1);
    assert_eq!(map_2.should_expand_grid(CardinalDirection::North), true);
    assert_eq!(map_2.should_expand_grid(CardinalDirection::East), false);
    assert_eq!(map_2.should_expand_grid(CardinalDirection::South), false);
    assert_eq!(map_2.should_expand_grid(CardinalDirection::West), true);
    map_2.player_position = (1, 13);
    assert_eq!(map_2.should_expand_grid(CardinalDirection::North), true);
    assert_eq!(map_2.should_expand_grid(CardinalDirection::East), true);
    assert_eq!(map_2.should_expand_grid(CardinalDirection::South), false);
    assert_eq!(map_2.should_expand_grid(CardinalDirection::West), false);
    map_2.player_position = (13, 1);
    assert_eq!(map_2.should_expand_grid(CardinalDirection::North), false);
    assert_eq!(map_2.should_expand_grid(CardinalDirection::East), false);
    assert_eq!(map_2.should_expand_grid(CardinalDirection::South), true);
    assert_eq!(map_2.should_expand_grid(CardinalDirection::West), true);
    map_2.player_position = (13, 13);
    assert_eq!(map_2.should_expand_grid(CardinalDirection::North), false);
    assert_eq!(map_2.should_expand_grid(CardinalDirection::East), true);
    assert_eq!(map_2.should_expand_grid(CardinalDirection::South), true);
    assert_eq!(map_2.should_expand_grid(CardinalDirection::West), false);
    map_2.player_position = (3, 3);
    assert_eq!(map_2.should_expand_grid(CardinalDirection::North), true);
    assert_eq!(map_2.should_expand_grid(CardinalDirection::East), false);
    assert_eq!(map_2.should_expand_grid(CardinalDirection::South), false);
    assert_eq!(map_2.should_expand_grid(CardinalDirection::West), true);
    map_2.player_position = (3, 11);
    assert_eq!(map_2.should_expand_grid(CardinalDirection::North), true);
    assert_eq!(map_2.should_expand_grid(CardinalDirection::East), true);
    assert_eq!(map_2.should_expand_grid(CardinalDirection::South), false);
    assert_eq!(map_2.should_expand_grid(CardinalDirection::West), false);
    map_2.player_position = (11, 3);
    assert_eq!(map_2.should_expand_grid(CardinalDirection::North), false);
    assert_eq!(map_2.should_expand_grid(CardinalDirection::East), false);
    assert_eq!(map_2.should_expand_grid(CardinalDirection::South), true);
    assert_eq!(map_2.should_expand_grid(CardinalDirection::West), true);
    map_2.player_position = (11, 11);
    assert_eq!(map_2.should_expand_grid(CardinalDirection::North), false);
    assert_eq!(map_2.should_expand_grid(CardinalDirection::East), true);
    assert_eq!(map_2.should_expand_grid(CardinalDirection::South), true);
    assert_eq!(map_2.should_expand_grid(CardinalDirection::West), false);
}

#[test]
fn test_expand_grid_if_needed() {
    let grid_1: Vec<Vec<String>> = lattice_15();

    // the added rows and columns hold the unknown glyph only
    let north_grid: Vec<Vec<String>> = vec![
        string_to_strings("###############"),
        string_to_strings("###############"),
        string_to_strings("•-•-•-•-•-•-•-•"),
        string_to_strings("|1|2|3|4|5|6|7|"),
        string_to_strings("•-•-•-•-•-•-•-•"),
        string_to_strings("|1|2|3|4|5|6|7|"),
        string_to_strings("•-•-•-•-•-•-•-•"),
        string_to_strings("|1|2|3|4|5|6|7|"),
        string_to_strings("•-•-•-•-•-•-•-•"),
        string_to_strings("|1|2|3|4|5|6|7|"),
        string_to_strings("•-•-•-•-•-•-•-•"),
        string_to_strings("|1|2|3|4|5|6|7|"),
        string_to_strings("•-•-•-•-•-•-•-•"),
        string_to_strings("|1|2|3|4|5|6|7|"),
        string_to_strings("•-•-•-•-•-•-•-•"),
        string_to_strings("|1|2|3|4|5|6|7|"),
        string_to_strings("•-•-•-•-•-•-•-•"),
    ];
    // from (12, 12) the cell reached lies within three cells of both the
    // bottom and the right side, so both get two more rows or columns
    let east_grid: Vec<Vec<String>> = vec![
        string_to_strings("•-•-•-•-•-•-•-•##"),
        string_to_strings("|1|2|3|4|5|6|7|##"),
        string_to_strings("•-•-•-•-•-•-•-•##"),
        string_to_strings("|1|2|3|4|5|6|7|##"),
        string_to_strings("•-•-•-•-•-•-•-•##"),
        string_to_strings("|1|2|3|4|5|6|7|##"),
        string_to_strings("•-•-•-•-•-•-•-•##"),
        string_to_strings("|1|2|3|4|5|6|7|##"),
        string_to_strings("•-•-•-•-•-•-•-•##"),
        string_to_strings("|1|2|3|4|5|6|7|##"),
        string_to_strings("•-•-•-•-•-•-•-•##"),
        string_to_strings("|1|2|3|4|5|6|7|##"),
        string_to_strings("•-•-•-•-•-•-•-•##"),
        string_to_strings("|1|2|3|4|5|6|7|##"),
        string_to_strings("•-•-•-•-•-•-•-•##"),
        string_to_strings("#################"),
        string_to_strings("#################"),
    ];
    let south_grid: Vec<Vec<String>> = east_grid.clone();
    let west_grid: Vec<Vec<String>> = vec![
        string_to_strings("##•-•-•-•-•-•-•-•"),
        string_to_strings("##|1|2|3|4|5|6|7|"),
        string_to_strings("##•-•-•-•-•-•-•-•"),
        string_to_strings("##|1|2|3|4|5|6|7|"),
        string_to_strings("##•-•-•-•-•-•-•-•"),
        string_to_strings("##|1|2|3|4|5|6|7|"),
        string_to_strings("##•-•-•-•-•-•-•-•"),
        string_to_strings("##|1|2|3|4|5|6|7|"),
        string_to_strings("##•-•-•-•-•-•-•-•"),
        string_to_strings("##|1|2|3|4|5|6|7|"),
        string_to_strings("##•-•-•-•-•-•-•-•"),
        string_to_strings("##|1|2|3|4|5|6|7|"),
        string_to_strings("##•-•-•-•-•-•-•-•"),
        string_to_strings("##|1|2|3|4|5|6|7|"),
        string_to_strings("##•-•-•-•-•-•-•-•"),
    ];
    let mut map_1: MazeMap = MazeMap::new(&grid_1, CardinalDirection::North);
    let mut map_2: MazeMap = MazeMap::new(&grid_1, CardinalDirection::East);
    let mut map_3: MazeMap = MazeMap::new(&grid_1, CardinalDirection::South);
    let mut map_4: MazeMap = MazeMap::new(&grid_1, CardinalDirection::West);

    map_1.player_position = (3, 3);
    map_2.player_position = (12, 12);
    map_3.player_position = (12, 12);
    map_4.player_position = (3, 3);

    assert_eq!(map_1.grid.len(), 15);
    assert_eq!(map_2.grid.len(), 15);
    assert_eq!(map_3.grid.len(), 15);
    assert_eq!(map_4.grid.len(), 15);

    assert_eq!(map_1.grid[0].len(), 15);
    assert_eq!(map_2.grid[0].len(), 15);
    assert_eq!(map_3.grid[0].len(), 15);
    assert_eq!(map_4.grid[0].len(), 15);

    map_1.expand_grid_if_needed();
    map_2.expand_grid_if_needed();
    map_3.expand_grid_if_needed();
    map_4.expand_grid_if_needed();

    assert_eq!(map_1.grid.len(), 17);
    assert_eq!(map_2.grid.len(), 17);
    assert_eq!(map_3.grid.len(), 17);
    assert_eq!(map_4.grid.len(), 15);

    assert_eq!(map_1.grid[0].len(), 15);
    assert_eq!(map_2.grid[0].len(), 17);
    assert_eq!(map_3.grid[0].len(), 17);
    assert_eq!(map_4.grid[0].len(), 17);

    assert_eq!(map_1.grid, north_grid);
    assert_eq!(map_2.grid, east_grid);
    assert_eq!(map_3.grid, south_grid);
    assert_eq!(map_4.grid, west_grid);
}

fn grid_of(rows: &[&str]) -> Vec<Vec<String>> {
    rows.iter().map(|r| string_to_strings(r)).collect()
}

fn size_of(map: &MazeMap) -> (usize, usize) {
    let rows: usize = map.grid.len();
    let cols: usize = if 0 < rows { map.grid[0].len() } else { 0 };
    (rows, cols)
}

#[test]
fn test_merge_radar_views_with_directions_1() {
    // Spawns.
    let radar_1: Vec<Vec<String>> = grid_of(&[
        "#######",
        "#######",
        "•-•-•-•",
        "       ",
        "•-• •-•",
        "##|  A ",
        "##•-•-•",
    ]);
    let mut map: MazeMap = MazeMap::new(&radar_1, CardinalDirection::North);
    assert_eq!(map.player_position, (3, 3));
    assert_eq!(radar_1, map.grid);
    assert_eq!(size_of(&map), (7, 7));

    // Moves West.
    let radar_2: Vec<Vec<String>> = grid_of(&[
        "#######",
        "#######",
        "•-•-•-•",
        "       ",
        "• •-• •",
        "| ###  ",
        "• ###-•",
    ]);
    // unknown cells of the view keep what the map held, known ones replace it
    let expected_grid_2: Vec<Vec<String>> = grid_of(&[
        "#########",
        "#########",
        "•-•-•-•-•",
        "         ",
        "• •-• •-•",
        "| ##|  A ",
        "• ##•-•-•",
    ]);
    map.merge_radar_view(&radar_2, CardinalDirection::West);
    assert_eq!(map.player_position, (3, 3));
    assert_eq!(map.grid, expected_grid_2);
    assert_eq!(size_of(&map), (7, 9));

    // Moves East.
    let radar_3: Vec<Vec<String>> = grid_of(&[
        "##### •",
        "##### |",
        "•-•-• •",
        "      |",
        "• •-• •",
        "|  A   ",
        "•-•-•-•",
    ]);
    map.merge_radar_view(&radar_3, CardinalDirection::East);
    assert_eq!(map.player_position, (3, 5));
    assert_eq!(size_of(&map), (7, 9));

    // Moves East.
    let radar_4: Vec<Vec<String>> = grid_of(&[
        "##• •##",
        "##| |##",
        "•-• •##",
        "    |##",
        "•-• •##",
        " A   ##",
        "•-•-•-•",
    ]);
    map.merge_radar_view(&radar_4, CardinalDirection::East);
    assert_eq!(map.player_position, (3, 7));
    assert_eq!(size_of(&map), (7, 11));

    // Moves South.
    let radar_5: Vec<Vec<String>> = grid_of(&[
        "•-• •##",
        "    |##",
        "•-• •-•",
        " A     ",
        "•-•-•-•",
        "#######",
        "#######",
    ]);
    map.merge_radar_view(&radar_5, CardinalDirection::South);
    assert_eq!(map.player_position, (5, 7));
    assert_eq!(size_of(&map), (9, 11));

    // Moves North.
    let radar_6: Vec<Vec<String>> = grid_of(&[
        "##• •##",
        "##| |##",
        "•-• •##",
        "    |##",
        "•-• •##",
        " A   ##",
        "•-•-•-•",
    ]);
    map.merge_radar_view(&radar_6, CardinalDirection::North);
    assert_eq!(map.player_position, (3, 7));
    assert_eq!(size_of(&map), (9, 11));

    // Moves North.
    let radar_7: Vec<Vec<String>> = grid_of(&[
        "•-• •-•",
        "|    A|",
        "##• •##",
        "##| |##",
        "•-• •##",
        "    |##",
        "•-• •##",
    ]);
    map.merge_radar_view(&radar_7, CardinalDirection::North);
    assert_eq!(map.player_position, (3, 7));
    assert_eq!(size_of(&map), (11, 11));

    // Moves South.
    let radar_8: Vec<Vec<String>> = grid_of(&[
        "##• •##",
        "##| |##",
        "•-• •##",
        "    |##",
        "•-• •##",
        " A   ##",
        "•-•-•-•",
    ]);
    map.merge_radar_view(&radar_8, CardinalDirection::South);
    assert_eq!(map.player_position, (5, 7));
    assert_eq!(size_of(&map), (11, 11));
    let expected_final_grid: Vec<Vec<String>> = grid_of(&[
        "####•-• •-•",
        "####|    A|",
        "######• •##",
        "######| |##",
        "•-•-•-• •##",
        "        |##",
        "• • •-• •-•",
        "| |  A     ",
        "• •-•-•-•-•",
        "###########",
        "###########",
    ]);
    assert_eq!(map.grid, expected_final_grid);
}

#[test]
fn test_tremaux_algorithm() {
    let grid: Vec<Vec<String>> = grid_of(&["•-•-•", "| | |", "•-•-•", "| | |", "•-•-•"]);
    let mut map: MazeMap = MazeMap::new(&grid, CardinalDirection::North);
    map.player_position = (2, 2);
    map.current_cardinal_direction = CardinalDirection::North;

    assert_eq!(map.next_move_tremaux(), Option::None);

    map.grid[2][4] = String::from(" ");
    map.visits[2][4] = 0;

    // the wall glyph at (2, 3) still stands between the player and (2, 4)
    assert_eq!(map.next_move_tremaux(), Option::None);
    assert_eq!(map.player_position, (2, 2));

    map.grid[2][3] = String::from(" ");
    match map.next_move_tremaux() {
        Some((relative_direction, chosen_cardinal_direction)) => {
            assert_eq!(relative_direction, RelativeDirection::Right);
            assert_eq!(chosen_cardinal_direction, CardinalDirection::East);
            assert_eq!(map.player_position, (2, 4));
        }
        None => panic!("Expected a move."),
    }
}

#[test]
fn tremaux_prefers_fewest_visits_then_first_direction() {
    let grid: Vec<Vec<String>> = grid_of(&[
        "• • •",
        "     ",
        "• • •",
        "     ",
        "• • •",
    ]);
    let mut map: MazeMap = MazeMap::new(&grid, CardinalDirection::South);
    map.player_position = (1, 1);
    // north and west leave the grid; east and south are open and unvisited
    assert_eq!(
        map.next_move_tremaux(),
        Some((RelativeDirection::Left, CardinalDirection::East))
    );
    assert_eq!(map.player_position, (1, 3));
    assert_eq!(map.visits[1][3], 1);
    assert_eq!(map.current_cardinal_direction, CardinalDirection::East);
    // from (1, 3): south (3, 3) unvisited, west (1, 1) unvisited: south comes first
    assert_eq!(
        map.next_move_tremaux(),
        Some((RelativeDirection::Right, CardinalDirection::South))
    );
    assert_eq!(map.player_position, (3, 3));
    // from (3, 3): north (1, 3) has one visit, west (3, 1) none
    assert_eq!(
        map.next_move_tremaux(),
        Some((RelativeDirection::Right, CardinalDirection::West))
    );
    assert_eq!(map.player_position, (3, 1));
}

#[test]
fn merging_an_unknown_view_changes_nothing() {
    let radar: Vec<Vec<String>> = grid_of(&[
        "•-•-•-•-•",
        "|       |",
        "• •-• • •",
        "|   |   |",
        "• • • •-•",
        "|       |",
        "• •-•-• •",
        "|       |",
        "•-•-•-•-•",
    ]);
    let mut map: MazeMap = MazeMap::new(&radar, CardinalDirection::North);
    map.player_position = (3, 3);
    let unknown_view: Vec<Vec<String>> = grid_of(&["#######"; 7]);
    map.merge_radar_view(&unknown_view, CardinalDirection::South);
    assert_eq!(map.player_position, (5, 3));
    assert_eq!(map.grid, radar);
    assert_eq!(map.visits, vec![vec![0u32; 9]; 9]);
    assert_eq!(map.grid.len() % 2, 1);
    assert_eq!(map.grid[0].len() % 2, 1);
}

#[test]
fn maze_state_tremaux() {
    let mut maze: MazeState = MazeState {
        cells: vec![
            vec![Some(true), Some(false), Some(true)],
            vec![Some(false), Some(false), None],
            vec![Some(true), Some(true), Some(true)],
        ],
        visits: vec![vec![0; 3]; 3],
        position: (1, 1),
        orientation: RelativeDirection::Front,
    };
    // front (1, 0) is open and comes first among the unvisited
    assert_eq!(maze.next_move_tremaux(), Some(RelativeDirection::Front));
    assert_eq!(maze.position, (1, 0));
    assert_eq!(maze.visits[0][1], 1);
    // from (1, 0) only back (1, 1) is open
    assert_eq!(choose_next_move(&mut maze), Some(RelativeDirection::Back));
    assert_eq!(maze.position, (1, 1));
    // now front has one visit; right (2, 1) and left (0, 1) have none
    assert_eq!(maze.next_move_tremaux(), Some(RelativeDirection::Right));
    assert_eq!(maze.position, (2, 1));
    let mut walled: MazeState = MazeState {
        cells: vec![vec![Some(true), Some(true)], vec![Some(false), Some(true)]],
        visits: vec![vec![0; 2]; 2],
        position: (0, 1),
        orientation: RelativeDirection::Front,
    };
    assert_eq!(walled.next_move_tremaux(), None);
    assert_eq!(walled.position, (0, 1));
}

#[test]
fn expansion_pads_every_side_within_reach() {
    let grid: Vec<Vec<String>> = grid_of(&["• • •", "     ", "• • •", "     ", "• • •"]);
    let mut map: MazeMap = MazeMap::new(&grid, CardinalDirection::North);
    assert_eq!(map.player_position, (2, 2));
    map.visits[2][2] = 5;
    map.expand_grid_if_needed();
    assert_eq!(map.grid.len(), 7);
    assert_eq!(map.grid[0].len(), 9);
    assert_eq!(map.player_position, (4, 4));
    assert_eq!(map.visits[4][4], 5);
    assert_eq!(map.grid[0], string_to_strings("#########"));
    assert_eq!(map.grid[2], string_to_strings("##• • •##"));
    assert_eq!(map.grid[6], string_to_strings("##• • •##"));
}
