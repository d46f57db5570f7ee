use maze_client::base64::{decode_base64, DecodeError};
use maze_client::direction::CardinalDirection;
use maze_client::glyph::string_to_strings;
use maze_client::radar::RadarView;
use maze_client::radar_codes::{Entity, RadarItem};

fn numbered_grid() -> Vec<Vec<String>> {
    vec![
        string_to_strings("•-•-•-•"),
        string_to_strings("|1|2|3|"),
        string_to_strings("•-•-•-•"),
        string_to_strings("|4|5|6|"),
        string_to_strings("•-•-•-•"),
        string_to_strings("|7|8|9|"),
        string_to_strings("•-•-•-•"),
    ]
}

fn bare_view(grid: Vec<Vec<String>>, cardinal_direction: CardinalDirection) -> RadarView {
    RadarView {
        encoded_view: String::from(""),
        decoded_view: vec![],
        horizontal_walls: vec![],
        vertical_walls: vec![],
        radar_items: vec![],
        grid,
        cardinal_direction,
    }
}

#[test]
fn test_new() {
    let radar_view_1: RadarView =
        RadarView::new(String::from("ieysGjGO8papd/a"), CardinalDirection::North).unwrap();
    let expected_1: Vec<Vec<String>> = vec![
        string_to_strings("##• •##"),
        string_to_strings("##| |##"),
        string_to_strings("•-• •##"),
        string_to_strings("|   |##"),
        string_to_strings("• •-•##"),
        string_to_strings("| #####"),
        string_to_strings("•-#####"),
    ];
    assert_eq!(radar_view_1.grid, expected_1);

    let radar_view_2: RadarView =
        RadarView::new(String::from("zAeaMsua//8aaaa"), CardinalDirection::North).unwrap();
    // every (even, even) position outside a sealed corner holds a node glyph
    let expected_2: Vec<Vec<String>> = vec![
        string_to_strings("#######"),
        string_to_strings("#######"),
        string_to_strings("##•-•-•"),
        string_to_strings("##|    "),
        string_to_strings("##• • •"),
        string_to_strings("|   |  "),
        string_to_strings("•-• • •"),
    ];
    assert_eq!(radar_view_2.grid, expected_2);

    let radar_view_3: RadarView =
        RadarView::new(String::from("kevQAjIvaaapapa"), CardinalDirection::North).unwrap();
    let expected_3: Vec<Vec<String>> = vec![
        string_to_strings("• •-•-•"),
        string_to_strings("|      "),
        string_to_strings("•-• •##"),
        string_to_strings("|   |##"),
        string_to_strings("• • •##"),
        string_to_strings("  | |##"),
        string_to_strings("•-•-•##"),
    ];
    assert_eq!(radar_view_3.grid, expected_3);
}

#[test]
fn test_build_matrix() {
    let radar_view: RadarView =
        RadarView::new(String::from("geguwcHwaa8papa"), CardinalDirection::North).unwrap();
    assert_eq!(radar_view.grid.len(), 7);
    for row in &radar_view.grid {
        assert_eq!(row.len(), 7);
    }
}

#[test]
fn test_extract_cell_bits() {
    let cell_data: [u8; 5] = [0xF0, 0xF0, 0x0F, 0x0F, 0xF0];
    let extracted_bits: Vec<String> = RadarView::extract_cells_data(&cell_data);

    assert_eq!(
        extracted_bits,
        vec![
            String::from("1111"),
            String::from("0000"),
            String::from("1111"),
            String::from("0000"),
            String::from("0000"),
            String::from("1111"),
            String::from("0000"),
            String::from("1111"),
            String::from("1111")
        ]
    );
}

#[test]
fn test_walls_to_string() {
    let horizontal_walls_bytes: [u8; 3] = [0b00100000, 0b01000110, 0b00010010];
    let vertical_walls_bytes: [u8; 3] = [0b10000000, 0b10011000, 0b00101000];

    let concatened_horizontal_walls_bits: String =
        RadarView::convert_walls_bytes_to_string(&horizontal_walls_bytes);
    let concatened_vertical_walls_bits: String =
        RadarView::convert_walls_bytes_to_string(&vertical_walls_bytes);

    assert_eq!(concatened_horizontal_walls_bits, "000100100100011000100000");
    assert_eq!(concatened_vertical_walls_bits, "001010001001100010000000");

    let horizontal_extracted_walls: Vec<Option<bool>> =
        RadarView::extract_walls_data_from_bits_string(&concatened_horizontal_walls_bits);
    let vertical_extracted_walls: Vec<Option<bool>> =
        RadarView::extract_walls_data_from_bits_string(&concatened_vertical_walls_bits);

    let expected_horizontal_walls: Vec<Option<bool>> = vec![
        None,
        Some(false),
        None,
        Some(true),
        Some(false),
        None,
        Some(false),
        Some(true),
        None,
        Some(true),
        None,
        None,
    ];
    let expected_vertical_walls: Vec<Option<bool>> = vec![
        None,
        Some(true),
        Some(true),
        None,
        Some(true),
        Some(false),
        Some(true),
        None,
        Some(true),
        None,
        None,
        None,
    ];

    assert_eq!(horizontal_extracted_walls, expected_horizontal_walls);
    assert_eq!(vertical_extracted_walls, expected_vertical_walls);
}

#[test]
fn test_rotate_90_clockwise() {
    let radar_view: RadarView = bare_view(numbered_grid(), CardinalDirection::North);
    let expected: Vec<Vec<String>> = vec![
        string_to_strings("•-•-•-•"),
        string_to_strings("|7|4|1|"),
        string_to_strings("•-•-•-•"),
        string_to_strings("|8|5|2|"),
        string_to_strings("•-•-•-•"),
        string_to_strings("|9|6|3|"),
        string_to_strings("•-•-•-•"),
    ];
    assert_eq!(RadarView::rotate_90_clockwise(&radar_view.grid.clone()), expected);
}

#[test]
fn test_rotate_radar_view() {
    let mut radar_view_north_oriented: RadarView =
        bare_view(numbered_grid(), CardinalDirection::North);
    radar_view_north_oriented.rotate_radar_view();

    let mut radar_view_east_oriented: RadarView = bare_view(
        vec![
            string_to_strings("•-•-•-•"),
            string_to_strings("|7|4|1|"),
            string_to_strings("•-•-•-•"),
            string_to_strings("|8|5|2|"),
            string_to_strings("•-•-•-•"),
            string_to_strings("|9|6|3|"),
            string_to_strings("•-•-•-•"),
        ],
        CardinalDirection::East,
    );
    radar_view_east_oriented.rotate_radar_view();

    let mut radar_view_south_oriented: RadarView = bare_view(
        vec![
            string_to_strings("•-•-•-•"),
            string_to_strings("|9|8|7|"),
            string_to_strings("•-•-•-•"),
            string_to_strings("|6|5|4|"),
            string_to_strings("•-•-•-•"),
            string_to_strings("|3|2|1|"),
            string_to_strings("•-•-•-•"),
        ],
        CardinalDirection::South,
    );
    radar_view_south_oriented.rotate_radar_view();

    let mut radar_view_west_oriented: RadarView = bare_view(
        vec![
            string_to_strings("•-•-•-•"),
            string_to_strings("|3|6|9|"),
            string_to_strings("•-•-•-•"),
            string_to_strings("|2|5|8|"),
            string_to_strings("•-•-•-•"),
            string_to_strings("|1|4|7|"),
            string_to_strings("•-•-•-•"),
        ],
        CardinalDirection::West,
    );
    radar_view_west_oriented.rotate_radar_view();

    let expected_grid: Vec<Vec<String>> = numbered_grid();
    assert_eq!(radar_view_north_oriented.grid, expected_grid);
    assert_eq!(radar_view_east_oriented.grid, expected_grid);
    assert_eq!(radar_view_south_oriented.grid, expected_grid);
    assert_eq!(radar_view_west_oriented.grid, expected_grid);
}

#[test]
fn rotating_four_times_gives_the_grid_back() {
    let grid: Vec<Vec<String>> = vec![
        string_to_strings("•-• •"),
        string_to_strings("|A  |"),
        string_to_strings("• •-•"),
    ];
    let mut turned: Vec<Vec<String>> = grid.clone();
    for _ in 0..4 {
        turned = RadarView::rotate_90_clockwise(&turned);
    }
    assert_eq!(turned, grid);
    let once: Vec<Vec<String>> = RadarView::rotate_90_clockwise(&grid);
    assert_eq!(once.len(), 5);
    assert_eq!(once[0], string_to_strings("•-•"));
}

#[test]
fn golden_radar_at_other_headings() {
    let north: RadarView =
        RadarView::new(String::from("ieysGjGO8papd/a"), CardinalDirection::North).unwrap();
    let west: RadarView =
        RadarView::new(String::from("ieysGjGO8papd/a"), CardinalDirection::West).unwrap();
    assert_eq!(west.grid, RadarView::rotate_90_clockwise(&north.grid));
    assert_eq!(west.decoded_view, north.decoded_view);
}

#[test]
fn radar_rejects_bad_input() {
    assert!(matches!(
        RadarView::new(String::from("ieys!jGO8papd/a"), CardinalDirection::North),
        Err(DecodeError::InvalidCharacter)
    ));
    assert!(matches!(
        RadarView::new(String::from("ieysGjGO"), CardinalDirection::North),
        Err(DecodeError::InvalidLength)
    ));
    assert!(matches!(
        RadarView::new(String::from("ieysG"), CardinalDirection::North),
        Err(DecodeError::InvalidLength)
    ));
}

#[test]
fn radar_matrices_of_golden_fixture() {
    let view: RadarView =
        RadarView::new(String::from("ieysGjGO8papd/a"), CardinalDirection::North).unwrap();
    assert_eq!(view.horizontal_walls[0], vec![None, Some(false), None]);
    assert_eq!(view.vertical_walls[0], vec![None, Some(true), Some(true), None]);
    assert_eq!(view.radar_items[0][0], None);
    assert_eq!(
        view.radar_items[0][1],
        Some(RadarItem { is_hint: false, is_goal: false, entity: None })
    );
}

#[test]
fn cell_code_table() {
    assert_eq!(RadarView::get_radar_item_from_bits("1111"), None);
    assert_eq!(
        RadarView::get_radar_item_from_bits("0000"),
        Some(RadarItem { is_hint: false, is_goal: false, entity: None })
    );
    assert_eq!(
        RadarView::get_radar_item_from_bits("0100"),
        Some(RadarItem { is_hint: true, is_goal: false, entity: None })
    );
    assert_eq!(
        RadarView::get_radar_item_from_bits("1000"),
        Some(RadarItem { is_hint: false, is_goal: true, entity: None })
    );
    assert_eq!(
        RadarView::get_radar_item_from_bits("1100"),
        Some(RadarItem { is_hint: true, is_goal: true, entity: None })
    );
    assert_eq!(
        RadarView::get_radar_item_from_bits("0001"),
        Some(RadarItem { is_hint: false, is_goal: false, entity: Some(Entity::Ally) })
    );
    assert_eq!(
        RadarView::get_radar_item_from_bits("0010"),
        Some(RadarItem { is_hint: false, is_goal: false, entity: Some(Entity::Enemy) })
    );
    assert_eq!(
        RadarView::get_radar_item_from_bits("0011"),
        Some(RadarItem { is_hint: false, is_goal: false, entity: Some(Entity::Monster) })
    );
    assert_eq!(
        RadarView::get_radar_item_from_bits("0101"),
        Some(RadarItem { is_hint: true, is_goal: false, entity: Some(Entity::Ally) })
    );
    assert_eq!(RadarView::get_radar_item_from_bits("01x0"), None);
    assert_eq!(RadarView::get_radar_item_from_bits("010"), None);
}

#[test]
fn wall_code_table() {
    assert_eq!(
        RadarView::extract_walls_data_from_bits_string("00011011"),
        vec![None, Some(false), Some(true), None]
    );
    assert_eq!(RadarView::extract_walls_data_from_bits_string("011"), vec![Some(false), None]);
    assert_eq!(RadarView::convert_walls_bytes_to_string(&[1, 2]), "");
    assert!(RadarView::extract_cells_data(&[1, 2, 3]).is_empty());
}

#[test]
fn test_base64_decode_valid() {
    let encoded: &str = "ieysGjGO8papd/a";
    let decoded: Vec<u8> = decode_base64(encoded).expect("Failed to decode Base64.");
    let expected = vec![
        0b00100000, 0b01000110, 0b00010010, 0b10000000, 0b10011000, 0b00101000, 0b11110000,
        0b11110000, 0b00001111, 0b00001111, 0b11110000,
    ];
    assert_eq!(decoded, expected);
}

#[test]
fn test_base64_invalid_chars() {
    let encoded1: &str = "abc!";
    let encoded2: &str = "abc*";
    assert!(decode_base64(encoded1).is_err());
    assert!(decode_base64(encoded2).is_err());
}

#[test]
fn base64_lengths_and_tails() {
    assert_eq!(decode_base64("abcde"), Err(DecodeError::InvalidLength));
    assert_eq!(decode_base64(""), Ok(vec![]));
    assert_eq!(decode_base64("ba"), Ok(vec![4]));
    assert_eq!(decode_base64("/+"), Ok(vec![255]));
    assert_eq!(decode_base64("abc!"), Err(DecodeError::InvalidCharacter));
}

#[test]
fn radar_as_text() {
    let view: RadarView =
        RadarView::new(String::from("ieysGjGO8papd/a"), CardinalDirection::North).unwrap();
    let text: String = view.print_grid();
    let lines: Vec<&str> = text.lines().collect();
    assert_eq!(lines.len(), 7);
    assert_eq!(lines[0], "# # •   • # #");
    assert_eq!(lines[6], "• - # # # # #");
    assert_eq!(view.print_encoded_view(), "Encoded view: ieysGjGO8papd/a");
    let bytes: String = view.print_decoded_view();
    assert!(bytes.starts_with("00100000\n01000110\n"));
    assert_eq!(bytes.lines().count(), 11);
}

#[test]
fn radar_matrices_as_text() {
    let view: RadarView =
        RadarView::new(String::from("ieysGjGO8papd/a"), CardinalDirection::North).unwrap();
    let expected = |rows: Vec<String>| -> String { rows.into_iter().map(|r| r + "\n").collect() };
    assert_eq!(
        view.print_horizontal_walls(),
        expected(view.horizontal_walls.iter().map(|r| format!("{:?}", r)).collect())
    );
    assert_eq!(
        view.print_vertical_walls(),
        expected(view.vertical_walls.iter().map(|r| format!("{:?}", r)).collect())
    );
    assert_eq!(
        view.print_cells_items(),
        expected(view.radar_items.iter().map(|r| format!("{:?}", r)).collect())
    );
    assert_eq!(
        view.print_walls(),
        expected(view.grid.iter().map(|r| format!("{:?}", r)).collect())
    );
    assert!(view.print_horizontal_walls().starts_with("[None, Some(false), None]\n"));
}
