use jump_chain::{
    level_layout, place_platforms, platform_center_offset, random_direction, JumpDirection,
    Platform, PLATFORM_COUNT_X, PLATFORM_COUNT_Y,
};
use std::collections::HashSet;

fn all_four() -> Vec<JumpDirection> {
    vec![JumpDirection::PosX, JumpDirection::NegX, JumpDirection::PosZ, JumpDirection::NegZ]
}

#[test]
fn level_has_five_by_five_platforms() {
    assert_eq!(PLATFORM_COUNT_X, 5);
    assert_eq!(PLATFORM_COUNT_Y, 5);
    let platforms = level_layout(PLATFORM_COUNT_X, PLATFORM_COUNT_Y);
    assert_eq!(platforms.len(), 25);
}

#[test]
fn layout_lists_cells_column_by_column() {
    let platforms = level_layout(5, 5);
    for (k, p) in platforms.iter().enumerate() {
        assert_eq!(p.column as usize, k / 5);
        assert_eq!(p.row as usize, k % 5);
        assert!(all_four().contains(&p.direction));
    }
}

#[test]
fn layout_puts_one_platform_on_every_cell() {
    let platforms = level_layout(4, 3);
    assert_eq!(platforms.len(), 12);
    let cells: HashSet<(u32, u32)> = platforms.iter().map(|p| (p.column, p.row)).collect();
    assert_eq!(cells.len(), 12);
    for column in 0..4 {
        for row in 0..3 {
            assert!(cells.contains(&(column, row)));
        }
    }
}

#[test]
fn empty_grid_has_no_platforms() {
    assert!(level_layout(0, 5).is_empty());
    assert!(level_layout(5, 0).is_empty());
}

#[test]
fn placed_platforms_keep_given_arrows_in_order() {
    let directions = vec![
        JumpDirection::NegZ,
        JumpDirection::PosX,
        JumpDirection::NegX,
        JumpDirection::PosZ,
        JumpDirection::PosZ,
        JumpDirection::NegX,
    ];
    let platforms = place_platforms(2, 3, &directions);
    let expected = vec![
        Platform { column: 0, row: 0, direction: JumpDirection::NegZ },
        Platform { column: 0, row: 1, direction: JumpDirection::PosX },
        Platform { column: 0, row: 2, direction: JumpDirection::NegX },
        Platform { column: 1, row: 0, direction: JumpDirection::PosZ },
        Platform { column: 1, row: 1, direction: JumpDirection::PosZ },
        Platform { column: 1, row: 2, direction: JumpDirection::NegX },
    ];
    assert_eq!(platforms, expected);
}

#[test]
fn random_direction_draws_each_of_the_four() {
    let mut rng = rand::thread_rng();
    let mut seen: Vec<JumpDirection> = Vec::new();
    for _ in 0..400 {
        let d = random_direction(&mut rng);
        assert!(all_four().contains(&d));
        if !seen.contains(&d) {
            seen.push(d);
        }
    }
    assert_eq!(seen.len(), 4);
}

#[test]
fn random_layouts_are_not_all_alike() {
    let first = level_layout(5, 5);
    let differs = (0..20).any(|_| level_layout(5, 5) != first);
    assert!(differs);
}

#[test]
fn center_offsets_of_five_lines() {
    let offsets: Vec<i64> = (0..5).map(|i| platform_center_offset(i, 5)).collect();
    assert_eq!(offsets, vec![-4, -2, 0, 2, 4]);
}

#[test]
fn center_offsets_of_four_lines() {
    let offsets: Vec<i64> = (0..4).map(|i| platform_center_offset(i, 4)).collect();
    assert_eq!(offsets, vec![-3, -1, 1, 3]);
}

#[test]
fn grid_is_centred_on_origin() {
    for count in 1..9u32 {
        for index in 0..count {
            assert_eq!(
                platform_center_offset(index, count),
                -platform_center_offset(count - 1 - index, count)
            );
        }
    }
}

#[test]
fn neighbours_are_one_pitch_apart() {
    for index in 0..6u32 {
        assert_eq!(platform_center_offset(index + 1, 7) - platform_center_offset(index, 7), 2);
    }
}

#[test]
fn middle_platform_is_at_origin() {
    assert_eq!(platform_center_offset(2, 5), 0);
    assert_eq!(platform_center_offset(0, 1), 0);
}

#[test]
fn center_offset_at_extremes() {
    assert_eq!(platform_center_offset(u32::MAX - 1, u32::MAX), i64::from(u32::MAX) - 1);
    assert_eq!(platform_center_offset(0, u32::MAX), 1 - i64::from(u32::MAX));
}
