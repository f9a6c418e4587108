use game_types::display::{determine_cell_type, CellClass};
use game_types::avoidance::{avoidance_step, plan_detour, AvoidanceOutcome};
use game_types::geometry::{CellIndex2d, Direction, IndexRect};
use game_types::grid::Grid2D;
use game_types::grid_data::{obstacle_pattern_cell, GridCellData, GridRelatedData, Occupation, BORDER_RANGE, WHITE};
use game_types::pathfinding::Pathfinder;

fn construct_default_grid() -> Grid2D {
    Grid2D::new(25, 25)
}

fn occupy(grid: &Grid2D, data: &mut GridRelatedData, cells: &[(u32, u32)]) {
    for &(x, y) in cells {
        data.set_occupation_at(grid, CellIndex2d::new(x, y), Occupation::Occupied);
    }
}

#[test]
fn test_obstacles_identification() {
    let grid: Grid2D = construct_default_grid();
    let mut grid_related_data = GridRelatedData::new(&grid);
    grid_related_data.fill_with_random_obstacle_pattern(&grid);

    let mut it = grid.iter_coordinates();
    while let Some(central_index) = it.next() {
        if grid_related_data.get_data_at(&grid, &central_index).occupation_state != Occupation::Occupied {
            continue;
        }

        let segment_rect = grid.calculate_area_clamped_from_center(&central_index, CellIndex2d::new(8, 8));

        let mut area = grid.iter_coordinates_in_area(segment_rect);
        while let Some(cell_in_segment) = area.next() {
            let detraction_factor = central_index.inverse_chebyshev_distance(&cell_in_segment);
            grid_related_data.set_increased_detraction_factor(&grid, &cell_in_segment, detraction_factor);
        }
    }
}

#[test]
fn random_pattern_leaves_border_free() {
    let grid = construct_default_grid();
    let mut data = GridRelatedData::new(&grid);
    data.fill_with_random_obstacle_pattern(&grid);
    let mut it = grid.iter_coordinates();
    while let Some(c) = it.next() {
        let cell = data.get_data_at(&grid, &c);
        assert_eq!(cell.color, WHITE);
        assert_eq!(cell.detraction_factor, 0);
        let border = c.x < BORDER_RANGE || c.y < BORDER_RANGE || c.x + BORDER_RANGE >= 25 || c.y + BORDER_RANGE >= 25;
        if border {
            assert_eq!(cell.occupation_state, Occupation::Free);
        }
    }
}

#[test]
fn obstacle_pattern_cell_rules() {
    let grid = construct_default_grid();
    assert_eq!(obstacle_pattern_cell(CellIndex2d::new(2, 12), &grid, false).occupation_state, Occupation::Free);
    assert_eq!(obstacle_pattern_cell(CellIndex2d::new(20, 12), &grid, false).occupation_state, Occupation::Free);
    assert_eq!(obstacle_pattern_cell(CellIndex2d::new(12, 12), &grid, false).occupation_state, Occupation::Occupied);
    assert_eq!(obstacle_pattern_cell(CellIndex2d::new(12, 12), &grid, true).occupation_state, Occupation::Free);
}

#[test]
fn detraction_set_and_accumulate() {
    let grid = construct_default_grid();
    let mut data = GridRelatedData::new(&grid);
    let c = CellIndex2d::new(3, 3);
    data.set_increased_detraction_factor(&grid, &c, 50);
    data.set_increased_detraction_factor(&grid, &c, 20);
    assert_eq!(data.get_data_at(&grid, &c).detraction_factor, 50);
    data.set_detraction_factor(&grid, &c, 20);
    assert_eq!(data.get_data_at(&grid, &c).detraction_factor, 20);
    assert_eq!(data.get_data_at(&grid, &CellIndex2d::new(3, 4)).detraction_factor, 0);
}

#[test]
fn new_data_is_blank_and_writes_are_local() {
    let grid = Grid2D::new(7, 4);
    let mut data = GridRelatedData::new(&grid);
    assert_eq!(data.get_data_at(&grid, &CellIndex2d::new(6, 3)), GridCellData::blank());
    data.set_color_at(&grid, CellIndex2d::new(6, 3), 0x11223344);
    assert_eq!(data.get_data_at(&grid, &CellIndex2d::new(6, 3)).color, 0x11223344);
    assert_eq!(data.get_data_at(&grid, &CellIndex2d::new(5, 3)).color, WHITE);
    data.set_color_for_area(&grid, IndexRect::new(1, 1, 2, 2), 7);
    assert_eq!(data.get_data_at(&grid, &CellIndex2d::new(2, 2)).color, 7);
    assert_eq!(data.get_data_at(&grid, &CellIndex2d::new(3, 2)).color, WHITE);
}

#[test]
fn obstacle_detection_in_area() {
    let grid = construct_default_grid();
    let mut data = GridRelatedData::new(&grid);
    assert!(!data.has_obstacle_in(&grid, grid.indexes_rect));
    occupy(&grid, &mut data, &[(10, 4)]);
    assert!(data.has_obstacle_in(&grid, IndexRect::new(8, 4, 12, 4)));
    assert!(!data.has_obstacle_in(&grid, IndexRect::new(8, 5, 12, 9)));
}

#[test]
fn directional_scan_on_a_row() {
    // Row y = 0 of the window (x = 0..4): Free, Free, Occupied, Free, Free.
    let grid = construct_default_grid();
    let mut data = GridRelatedData::new(&grid);
    occupy(&grid, &mut data, &[(12, 10)]);
    let map = data.create_pathfinding_map_on(&grid, IndexRect::new(10, 10, 14, 10));
    let obstacle = map.find_closest_cell_in_direction_local(CellIndex2d::new(0, 0), Direction::East, Occupation::Occupied);
    assert_eq!(obstacle, Some(CellIndex2d::new(2, 0)));
    let obstacle = map.find_closest_cell_in_direction_local(CellIndex2d::new(1, 0), Direction::East, Occupation::Occupied);
    assert_eq!(obstacle, Some(CellIndex2d::new(2, 0)));
    let free = map.find_closest_cell_in_direction_local(CellIndex2d::new(2, 0), Direction::East, Occupation::Free);
    assert_eq!(free, Some(CellIndex2d::new(3, 0)));
    let none = map.find_closest_cell_in_direction_local(CellIndex2d::new(3, 0), Direction::East, Occupation::Occupied);
    assert_eq!(none, None);
    let back = map.find_closest_cell_in_direction_local(CellIndex2d::new(4, 0), Direction::West, Occupation::Occupied);
    assert_eq!(back, Some(CellIndex2d::new(2, 0)));
}

#[test]
fn destination_around_obstacle() {
    let grid = construct_default_grid();
    let mut data = GridRelatedData::new(&grid);
    occupy(&grid, &mut data, &[(12, 10), (13, 10)]);
    let map = data.create_pathfinding_map_on(&grid, IndexRect::new(10, 8, 16, 12));
    let p = map.find_destination_in_direction(CellIndex2d::new(10, 10), Direction::East).unwrap();
    assert_eq!(p, Pathfinder::new(CellIndex2d::new(0, 2), CellIndex2d::new(4, 2)));
    let g = map.convert_to_global(p);
    assert_eq!(g, Pathfinder::new(CellIndex2d::new(10, 10), CellIndex2d::new(14, 10)));
    assert_eq!(map.find_destination_in_direction(CellIndex2d::new(10, 9), Direction::East), None);
}

#[test]
fn shortest_path_in_open_window_is_manhattan() {
    let grid = construct_default_grid();
    let data = GridRelatedData::new(&grid);
    let map = data.create_pathfinding_map_on(&grid, IndexRect::new(6, 6, 15, 15));
    for (s, e) in [((0, 0), (9, 9)), ((3, 7), (8, 1)), ((4, 4), (4, 4)), ((0, 9), (9, 0))] {
        let start = CellIndex2d::new(s.0, s.1);
        let end = CellIndex2d::new(e.0, e.1);
        let (path, cost) = map.find_path_points(Pathfinder::new(start, end)).unwrap();
        assert_eq!(path.len() as u64, start.distance(&end) + 1);
        assert_eq!(cost as u64, start.distance(&end));
        assert_eq!(path[0], start);
        assert_eq!(*path.last().unwrap(), end);
    }
}

#[test]
fn wall_blocks_path() {
    let grid = construct_default_grid();
    let mut data = GridRelatedData::new(&grid);
    for y in 6..=15 {
        occupy(&grid, &mut data, &[(10, y)]);
    }
    let map = data.create_pathfinding_map_on(&grid, IndexRect::new(6, 6, 15, 15));
    let pathfinder = Pathfinder::new(CellIndex2d::new(1, 5), CellIndex2d::new(8, 5));
    assert!(map.find_path_points(pathfinder).is_none());
    assert!(map.find_weighted_path_points(pathfinder).is_none());
    assert!(map.calculate_path_coordinates_global(pathfinder).is_none());
}

#[test]
fn weighted_path_avoids_dense_cells() {
    let grid = construct_default_grid();
    let mut data = GridRelatedData::new(&grid);
    // A costly strip on row 10 between x = 11 and x = 13.
    for x in 11..=13 {
        data.set_detraction_factor(&grid, &CellIndex2d::new(x, 10), 500);
    }
    let map = data.create_pathfinding_map_on(&grid, IndexRect::new(10, 9, 14, 11));
    let pathfinder = Pathfinder::new(CellIndex2d::new(0, 1), CellIndex2d::new(4, 1));
    let (plain, plain_cost) = map.find_path_points(pathfinder).unwrap();
    assert_eq!(plain.len(), 5);
    assert_eq!(plain_cost, 4);
    let (weighted, weighted_cost) = map.find_weighted_path_points(pathfinder).unwrap();
    assert_eq!(weighted_cost, 600);
    assert!(weighted.iter().all(|c| !(c.y == 1 && c.x >= 1 && c.x <= 3)));
    let global = map.calculate_weighted_path_coordinates_global(pathfinder).unwrap();
    assert_eq!(global[0], CellIndex2d::new(10, 10));
    assert_eq!(*global.last().unwrap(), CellIndex2d::new(14, 10));
}

#[test]
fn successors_are_free_axis_neighbours() {
    let grid = construct_default_grid();
    let mut data = GridRelatedData::new(&grid);
    occupy(&grid, &mut data, &[(11, 10)]);
    data.set_detraction_factor(&grid, &CellIndex2d::new(10, 11), 30);
    let map = data.create_pathfinding_map_on(&grid, IndexRect::new(10, 10, 12, 12));
    let s = map.calculate_successors(&CellIndex2d::new(0, 0));
    assert_eq!(s, vec![(CellIndex2d::new(0, 1), 1)]);
    let w = map.successors(&CellIndex2d::new(0, 0), true);
    assert_eq!(w, vec![(CellIndex2d::new(0, 1), 130)]);
    assert_eq!(map.successors(&CellIndex2d::new(1, 1), false).len(), 3);
    assert!(map.is_valid_index(&CellIndex2d::new(2, 2)));
    assert!(!map.is_valid_index(&CellIndex2d::new(3, 2)));
    assert_eq!(map.cell_at(&CellIndex2d::new(1, 0)).occupation_state, Occupation::Occupied);
    assert_eq!(map.heuristic(&CellIndex2d::new(0, 0), &CellIndex2d::new(2, 1), true), 300);
}

#[test]
fn avoidance_clear_and_detour() {
    let grid = construct_default_grid();
    let mut data = GridRelatedData::new(&grid);
    let mover = CellIndex2d::new(12, 12);
    let none = Pathfinder::new(CellIndex2d::new(0, 0), CellIndex2d::new(0, 0));
    assert!(matches!(avoidance_step(&grid, &data, mover, Direction::West, none), AvoidanceOutcome::Clear));

    occupy(&grid, &mut data, &[(10, 12)]);
    match avoidance_step(&grid, &data, mover, Direction::West, none) {
        AvoidanceOutcome::Detour(p, path) => {
            // Window (8, 8)..(16, 16); mover at local (4, 4); obstacle at (2, 4).
            assert_eq!(p, Pathfinder::new(CellIndex2d::new(4, 4), CellIndex2d::new(1, 4)));
            assert_eq!(path[0], mover);
            assert_eq!(*path.last().unwrap(), CellIndex2d::new(9, 12));
            assert_eq!(path.len(), 6);
            match avoidance_step(&grid, &data, mover, Direction::West, p) {
                AvoidanceOutcome::SameDetour => {}
                _ => panic!("the same detour was planned twice"),
            }
        }
        _ => panic!("expected a detour"),
    }
}

#[test]
fn avoidance_without_exit_or_path() {
    let grid = construct_default_grid();
    let mut data = GridRelatedData::new(&grid);
    let none = Pathfinder::new(CellIndex2d::new(0, 0), CellIndex2d::new(0, 0));
    // Everything west of the mover inside the window is occupied.
    for x in 8..=11 {
        occupy(&grid, &mut data, &[(x, 12)]);
    }
    let map = data.create_pathfinding_map_on(&grid, IndexRect::new(8, 8, 16, 16));
    assert!(matches!(plan_detour(&map, CellIndex2d::new(12, 12), Direction::West, none), AvoidanceOutcome::NoDetour));

    // The free cell beyond the obstacle is walled in.
    let mut data = GridRelatedData::new(&grid);
    occupy(&grid, &mut data, &[(10, 12), (9, 11), (9, 13), (8, 12)]);
    let map = data.create_pathfinding_map_on(&grid, IndexRect::new(8, 8, 16, 16));
    match plan_detour(&map, CellIndex2d::new(12, 12), Direction::West, none) {
        AvoidanceOutcome::NoPath(p) => assert_eq!(p.end, CellIndex2d::new(1, 4)),
        _ => panic!("expected no path"),
    }
}

#[test]
fn obstacle_influence_raises_detraction() {
    let grid = construct_default_grid();
    let mut data = GridRelatedData::new(&grid);
    let obstacle = CellIndex2d::new(10, 10);
    // A free cell spreads nothing.
    data.apply_obstacle_influence(&grid, obstacle, CellIndex2d::new(8, 8));
    assert_eq!(data.get_data_at(&grid, &CellIndex2d::new(11, 10)).detraction_factor, 0);

    occupy(&grid, &mut data, &[(10, 10)]);
    data.set_detraction_factor(&grid, &CellIndex2d::new(12, 12), 70);
    data.apply_obstacle_influence(&grid, obstacle, CellIndex2d::new(8, 8));
    assert_eq!(data.get_data_at(&grid, &CellIndex2d::new(10, 10)).detraction_factor, 0);
    assert_eq!(data.get_data_at(&grid, &CellIndex2d::new(11, 10)).detraction_factor, 100);
    assert_eq!(data.get_data_at(&grid, &CellIndex2d::new(13, 8)).detraction_factor, 33);
    assert_eq!(data.get_data_at(&grid, &CellIndex2d::new(14, 14)).detraction_factor, 25);
    assert_eq!(data.get_data_at(&grid, &CellIndex2d::new(12, 12)).detraction_factor, 70);
    assert_eq!(data.get_data_at(&grid, &CellIndex2d::new(15, 10)).detraction_factor, 0);
}

#[test]
fn cell_classes_for_display() {
    let key = Pathfinder::new(CellIndex2d::new(1, 1), CellIndex2d::new(3, 1));
    let path = vec![CellIndex2d::new(1, 1), CellIndex2d::new(2, 1), CellIndex2d::new(3, 1)];
    let blank = GridCellData::blank();
    let wall = GridCellData { occupation_state: Occupation::Occupied, ..blank };
    let dense = GridCellData { detraction_factor: 5, ..blank };
    assert_eq!(determine_cell_type(CellIndex2d::new(1, 1), &key, &wall, &path), CellClass::Start);
    assert_eq!(determine_cell_type(CellIndex2d::new(3, 1), &key, &blank, &path), CellClass::End);
    assert_eq!(determine_cell_type(CellIndex2d::new(2, 1), &key, &wall, &path), CellClass::Path);
    assert_eq!(determine_cell_type(CellIndex2d::new(5, 5), &key, &wall, &path), CellClass::Obstacle);
    assert_eq!(determine_cell_type(CellIndex2d::new(5, 5), &key, &dense, &path), CellClass::Penalized);
    assert_eq!(determine_cell_type(CellIndex2d::new(5, 5), &key, &blank, &path), CellClass::Empty);
}

#[test]
fn successors_in_compass_order_once_each() {
    let grid = construct_default_grid();
    let mut data = GridRelatedData::new(&grid);
    data.set_detraction_factor(&grid, &CellIndex2d::new(12, 11), 7);
    let map = data.create_pathfinding_map_on(&grid, IndexRect::new(10, 10, 12, 12));
    let centre = CellIndex2d::new(1, 1);
    assert_eq!(
        map.calculate_successors(&centre),
        vec![
            (CellIndex2d::new(1, 2), 1),
            (CellIndex2d::new(2, 1), 1),
            (CellIndex2d::new(1, 0), 1),
            (CellIndex2d::new(0, 1), 1)
        ]
    );
    assert_eq!(
        map.successors(&centre, true),
        vec![
            (CellIndex2d::new(1, 2), 100),
            (CellIndex2d::new(2, 1), 107),
            (CellIndex2d::new(1, 0), 100),
            (CellIndex2d::new(0, 1), 100)
        ]
    );
}

#[test]
fn wall_blocks_path_both_ways_and_as_a_row() {
    let grid = construct_default_grid();
    let mut data = GridRelatedData::new(&grid);
    for y in 6..=15 {
        occupy(&grid, &mut data, &[(10, y)]);
    }
    let map = data.create_pathfinding_map_on(&grid, IndexRect::new(6, 6, 15, 15));
    let mirrored = Pathfinder::new(CellIndex2d::new(8, 2), CellIndex2d::new(1, 7));
    assert!(map.calculate_path_coordinates_global(mirrored).is_none());
    assert!(map.calculate_weighted_path_coordinates_global(mirrored).is_none());

    let mut data = GridRelatedData::new(&grid);
    for x in 6..=15 {
        occupy(&grid, &mut data, &[(x, 9)]);
    }
    let map = data.create_pathfinding_map_on(&grid, IndexRect::new(6, 6, 15, 15));
    let across_row = Pathfinder::new(CellIndex2d::new(4, 8), CellIndex2d::new(5, 0));
    assert!(map.calculate_path_coordinates_global(across_row).is_none());
    let same_side = Pathfinder::new(CellIndex2d::new(0, 0), CellIndex2d::new(9, 2));
    assert!(map.calculate_path_coordinates_global(same_side).is_some());
}

#[test]
fn window_write_round_trips_with_window_read() {
    let grid = Grid2D::new(6, 5);
    let mut data = GridRelatedData::new(&grid);
    let area = IndexRect::new(1, 2, 3, 3);
    let mut records = Vec::new();
    for k in 0..6u32 {
        records.push(GridCellData { detraction_factor: k + 1, ..GridCellData::blank() });
    }
    data.set_segment_of(&grid, area, &records);
    assert_eq!(data.get_segment_view_of(&grid, area), records);
    assert_eq!(data.get_data_at(&grid, &CellIndex2d::new(1, 2)).detraction_factor, 1);
    assert_eq!(data.get_data_at(&grid, &CellIndex2d::new(3, 2)).detraction_factor, 3);
    assert_eq!(data.get_data_at(&grid, &CellIndex2d::new(1, 3)).detraction_factor, 4);
    assert_eq!(data.get_data_at(&grid, &CellIndex2d::new(0, 2)), GridCellData::blank());
    assert_eq!(data.get_data_at(&grid, &CellIndex2d::new(1, 4)), GridCellData::blank());
}
