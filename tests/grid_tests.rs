use game_types::geometry::{CellIndex2d, Direction, IndexOffset, IndexRect};
use game_types::spiral::SpiralIter;
use game_types::grid::{
    are_intersecting_exclusive, are_intersecting_inclusive, calculate_1d_from_2d_index, calculate_1d_index,
    calculate_2d_from_1d_index, calculate_2d_index, global_to_local, normalize_rect, split_grid_in_compass_directions, Grid2D,
};
use game_types::iterators::{
    calculate_indexes_in_circle_from_index, calculate_indexes_in_range, explosion_cells, CoordinateIterator,
};
use game_types::segment::{CoordinateType, GridSegment};

fn construct_default_grid() -> Grid2D {
    Grid2D::new(25, 25)
}

fn drain(mut it: CoordinateIterator) -> Vec<CellIndex2d> {
    let mut out = Vec::new();
    while let Some(c) = it.next() {
        out.push(c);
    }
    out
}

#[test]
fn functions_tests_test_grid_iteration() {
    let grid_parameters = construct_default_grid();

    let mut expected_output: Vec<CellIndex2d> = Vec::new();
    for row in 0..grid_parameters.row_number {
        for col in 0..grid_parameters.column_number {
            expected_output.push(CellIndex2d::new(col, row));
        }
    }

    let actual_output: Vec<CellIndex2d> = drain(grid_parameters.iter_coordinates());

    assert_eq!(expected_output, actual_output, "The order of coordinate iteration is incorrect");
}

#[test]
fn functions_tests_test_grid_indexing() {
    let grid_parameters = construct_default_grid();

    let cell_index_2d = CellIndex2d::new(grid_parameters.max_column_index, grid_parameters.max_row_index);
    let cell_index_1d = calculate_1d_from_2d_index(&grid_parameters, cell_index_2d);
    let cell_index_2d_restored = calculate_2d_from_1d_index(&grid_parameters, cell_index_1d);

    assert_eq!(cell_index_2d, cell_index_2d_restored);
}

#[test]
fn flatten_round_trip_over_whole_grid() {
    let grid = construct_default_grid();
    let mut it = grid.iter_coordinates();
    while let Some(cell) = it.next() {
        let flat = grid.calc_cell_index_1d_at(cell);
        assert_eq!(grid.calc_cell_index_2d_at(flat), cell);
    }
}

#[test]
fn flatten_formulas() {
    assert_eq!(calculate_1d_index(CellIndex2d::new(3, 2), 25), 53);
    assert_eq!(calculate_2d_index(53, 25), CellIndex2d::new(3, 2));
    assert_eq!(calculate_2d_index(24, 25), CellIndex2d::new(24, 0));
    assert_eq!(calculate_2d_index(25, 25), CellIndex2d::new(0, 1));
}

#[test]
fn test_split_grid() {
    let grid = construct_default_grid();
    let rect = grid.indexes_rect;

    let segments = split_grid_in_compass_directions(&rect);
    assert_eq!(segments.len(), 8);
    for (i, rect1) in segments.iter().enumerate() {
        for (j, rect2) in segments.iter().enumerate() {
            if i != j && are_intersecting_exclusive(*rect1, *rect2) {
                panic!("Rects {:?} and {:?} - are intersecting", rect1, rect2);
            }
        }
    }

    let capacity = 50;
    let mut segments_collection: Vec<Vec<IndexRect>> = Vec::with_capacity(capacity);
    for _ in 0..capacity {
        let grid = construct_default_grid();
        let rect = grid.indexes_rect;
        segments_collection.push(split_grid_in_compass_directions(&rect));
    }
    for i in 1..segments_collection.len() {
        for j in 1..segments_collection.len() {
            assert_eq!(segments_collection[i], segments_collection[j]);
        }
    }
}

#[test]
fn compass_segments_cover_every_cell_once() {
    let grid = construct_default_grid();
    let segments = split_grid_in_compass_directions(&grid.indexes_rect);
    let mut it = grid.iter_coordinates();
    while let Some(cell) = it.next() {
        let holders = segments.iter().filter(|r| r.contains(cell)).count();
        assert_eq!(holders, 1, "cell {:?}", cell);
    }
}

#[test]
fn compass_segments_of_default_grid() {
    let grid = construct_default_grid();
    assert_eq!(grid.segment_in(Direction::North), IndexRect::new(9, 17, 16, 24));
    assert_eq!(grid.segment_in(Direction::NorthEast), IndexRect::new(17, 17, 24, 24));
    assert_eq!(grid.segment_in(Direction::East), IndexRect::new(13, 9, 24, 16));
    assert_eq!(grid.segment_in(Direction::SouthEast), IndexRect::new(17, 0, 24, 8));
    assert_eq!(grid.segment_in(Direction::South), IndexRect::new(9, 0, 16, 8));
    assert_eq!(grid.segment_in(Direction::SouthWest), IndexRect::new(0, 0, 8, 8));
    assert_eq!(grid.segment_in(Direction::West), IndexRect::new(0, 9, 12, 16));
    assert_eq!(grid.segment_in(Direction::NorthWest), IndexRect::new(0, 17, 8, 24));
}

#[test]
fn rectangle_intersection_tests() {
    let a = IndexRect::new(0, 0, 12, 12);
    let b = IndexRect::new(13, 13, 22, 22);
    let c = IndexRect::new(5, 5, 22, 22);
    let d = IndexRect::new(12, 0, 20, 12);
    assert!(!are_intersecting_exclusive(a, b));
    assert!(are_intersecting_exclusive(a, c));
    assert!(are_intersecting_exclusive(a, d));
    assert!(!are_intersecting_inclusive(a, d));
    assert!(are_intersecting_inclusive(a, c));
}

#[test]
fn test_global_to_local_index() {
    let grid = construct_default_grid();
    let child = IndexRect::from_corners(CellIndex2d::new(6, 6), CellIndex2d::new(9, 9));
    let segment = GridSegment::new(grid.indexes_rect, child);
    assert_eq!(segment.get_offset(), CellIndex2d::new(6, 6));
    assert_eq!(segment.global_to_local_index(CellIndex2d::new(8, 8)), CellIndex2d::new(2, 2));
    assert_eq!(segment.global_to_local_index(CellIndex2d::new(7, 7)), CellIndex2d::new(1, 1));
    assert_eq!(segment.global_to_local_index(CellIndex2d::new(6, 6)), CellIndex2d::new(0, 0));
}

#[test]
fn test_local_to_global_index() {
    let grid = construct_default_grid();
    let child = IndexRect::from_corners(CellIndex2d::new(6, 6), CellIndex2d::new(9, 9));
    let segment = GridSegment::new(grid.indexes_rect, child);
    assert_eq!(segment.local_to_global_index(CellIndex2d::new(2, 2)), CellIndex2d::new(8, 8));
    assert_eq!(segment.local_to_global_index(CellIndex2d::new(1, 1)), CellIndex2d::new(7, 7));
    assert_eq!(segment.local_to_global_index(CellIndex2d::new(0, 0)), CellIndex2d::new(6, 6));
}

#[test]
fn frame_round_trip_over_window() {
    let grid = construct_default_grid();
    for side in [3u32, 4u32] {
        let child = IndexRect::new(6, 6, 6 + side - 1, 6 + side - 1);
        let segment = grid.form_segment_for(child);
        assert_eq!(segment.bounds, IndexRect::new(0, 0, side - 1, side - 1));
        for y in 0..side {
            for x in 0..side {
                let local = CellIndex2d::new(x, y);
                let global = segment.local_to_global_index(local);
                assert!(segment.contains(local, CoordinateType::Local));
                assert!(segment.contains_local(local));
                assert!(segment.contains(global, CoordinateType::Global));
                assert!(segment.contains(local, CoordinateType::Normalized));
                assert_eq!(segment.global_to_local_index(global), local);
            }
        }
        assert!(!segment.contains_local(CellIndex2d::new(side, 0)));
        assert!(!segment.contains_local(CellIndex2d::new(6, 6)));
        assert!(!segment.contains_normalized(CellIndex2d::new(side, 0)));
    }
}

#[test]
fn segment_line_and_flat_index() {
    let grid = construct_default_grid();
    let segment = grid.form_segment_for(IndexRect::new(6, 6, 9, 9));
    assert_eq!(
        segment.calculate_line_of_cells_in_direction(CellIndex2d::new(9, 7), Direction::West, 4),
        IndexRect::new(0, 1, 3, 1)
    );
    assert_eq!(segment.convert_1d_to_2d(5), CellIndex2d::new(1, 1));
}

#[test]
fn area_helpers_clamp_to_grid() {
    let grid = construct_default_grid();
    assert_eq!(
        grid.calculate_area_clamped_from_center(&CellIndex2d::new(1, 23), CellIndex2d::new(8, 8)),
        IndexRect::new(0, 19, 5, 24)
    );
    assert_eq!(
        grid.calculate_square_area_wrapped_from(CellIndex2d::new(12, 12), CellIndex2d::new(8, 8)),
        IndexRect::new(8, 8, 16, 16)
    );
    assert_eq!(grid.calculate_line_from(CellIndex2d::new(22, 5), Direction::East, 10), IndexRect::new(22, 5, 24, 5));
    assert_eq!(
        grid.calculate_line_infront_from(CellIndex2d::new(5, 5), Direction::West, 2),
        IndexRect::new(3, 5, 4, 5)
    );
    assert_eq!(
        grid.calculate_area_from(CellIndex2d::new(0, 0), Direction::NorthEast, 15),
        IndexRect::new(0, 0, 24, 24)
    );
    assert_eq!(
        grid.clamp_rect_to_grid_bounds(IndexRect::new(20, 3, 40, 30)),
        IndexRect::new(20, 3, 24, 24)
    );
    assert_eq!(
        grid.calculate_cell_index_in_direction_from(CellIndex2d::new(3, 3), Direction::SouthWest, 5),
        CellIndex2d::new(0, 0)
    );
    assert_eq!(grid.form_grid_bound_cell_index(30, 7), CellIndex2d::new(24, 7));
    assert_eq!(grid.get_central_cell(), CellIndex2d::new(12, 12));
    assert!(grid.is_cell_index_in_grid_bounds(CellIndex2d::new(24, 24)));
    assert!(!grid.is_cell_index_in_grid_bounds(CellIndex2d::new(25, 0)));
}

#[test]
fn indexes_limits_in_range() {
    let grid = construct_default_grid();
    let (lo, hi) = grid.calculate_indexes_limits_in_rang(CellIndex2d::new(2, 20), 4);
    assert_eq!(lo, CellIndex2d::new(0, 16));
    assert_eq!(hi, CellIndex2d::new(6, 24));
}

#[test]
fn coordinate_iteration_in_area_and_range() {
    let grid = construct_default_grid();
    let cells = drain(grid.iter_coordinates_in_area(IndexRect::new(3, 4, 4, 5)));
    assert_eq!(
        cells,
        vec![CellIndex2d::new(3, 4), CellIndex2d::new(4, 4), CellIndex2d::new(3, 5), CellIndex2d::new(4, 5)]
    );
    let cells = drain(grid.iter_coordinates_range(CellIndex2d::new(1, 1), CellIndex2d::new(3, 2)));
    assert_eq!(cells, vec![CellIndex2d::new(1, 1), CellIndex2d::new(2, 1)]);
    let mut it = CoordinateIterator::new(0, 2, 0, 2);
    assert_eq!(it.len(), 4);
    assert_eq!(it.next_back(), Some(CellIndex2d::new(1, 1)));
    assert_eq!(it.next(), Some(CellIndex2d::new(0, 0)));
    assert_eq!(it.len(), 2);
    assert_eq!(drain(CoordinateIterator::new(3, 3, 0, 5)), vec![]);
}

#[test]
fn test_calculate_indexes_in_circle_from_index() {
    let grid_parameters = construct_default_grid();
    let mut it = grid_parameters.iter_coordinates();
    while let Some(cell_index) = it.next() {
        let cells_in_range = calculate_indexes_in_circle_from_index(&grid_parameters, cell_index, 5u32);
        assert!(cells_in_range.contains(&cell_index));
    }
}

#[test]
fn circle_selection_exact() {
    let grid = construct_default_grid();
    let square = calculate_indexes_in_range(&grid, CellIndex2d::new(10, 10), 1);
    assert_eq!(square.len(), 9);
    let circle = calculate_indexes_in_circle_from_index(&grid, CellIndex2d::new(10, 10), 1);
    assert_eq!(
        circle,
        vec![
            CellIndex2d::new(10, 9),
            CellIndex2d::new(9, 10),
            CellIndex2d::new(10, 10),
            CellIndex2d::new(11, 10),
            CellIndex2d::new(10, 11)
        ]
    );
}

#[test]
fn cell_index_distances() {
    let a = CellIndex2d::new(2, 7);
    let b = CellIndex2d::new(5, 3);
    assert_eq!(a.distance(&b), 7);
    assert_eq!(a.chebyshev_distance(&b), 4);
    assert_eq!(a.inverse_chebyshev_distance(&b), 25);
    assert_eq!(a.inverse_chebyshev_distance(&a), 0);
    assert_eq!(CellIndex2d::new(3, 4).normalize(), CellIndex2d::new(0, 0));
    assert_eq!(CellIndex2d::new(10, 0).normalize(), CellIndex2d::new(1, 0));
    assert_eq!(CellIndex2d::new(u32::MAX, u32::MAX).normalize(), CellIndex2d::new(0, 0));
}

#[test]
fn directions_and_offsets() {
    let c = CellIndex2d::new(5, 5);
    assert_eq!(c.offset_by(Direction::NorthWest.as_vector()), CellIndex2d::new(4, 6));
    assert_eq!(c.offset_back_by(Direction::NorthWest.as_vector()), CellIndex2d::new(6, 4));
    let mut d = Direction::North;
    for i in 0..8 {
        assert_eq!(d.ordinal(), i);
        d = d.next_clockwise();
    }
    assert_eq!(d, Direction::North);
}

#[test]
fn explosion_cells_skip_centre() {
    let grid = construct_default_grid();
    let cells = explosion_cells(&grid, CellIndex2d::new(0, 0), 1);
    assert_eq!(cells, vec![CellIndex2d::new(1, 0), CellIndex2d::new(0, 1), CellIndex2d::new(1, 1)]);
    let cells = explosion_cells(&grid, CellIndex2d::new(12, 12), 4);
    assert_eq!(cells.len(), 80);
    assert!(!cells.contains(&CellIndex2d::new(12, 12)));
}

#[test]
fn segment_from_line_and_normalized_rect() {
    let grid = construct_default_grid();
    let seg = grid.form_segment_from(CellIndex2d::new(10, 5), Direction::West, 4);
    assert_eq!(seg.child_grid, IndexRect::new(7, 5, 10, 5));
    assert_eq!(seg.get_offset(), CellIndex2d::new(7, 5));
    assert_eq!(normalize_rect(IndexRect::new(7, 5, 10, 9)), IndexRect::new(0, 0, 3, 4));
}

#[test]
fn test_spiral_iter() {
    let parent_grid = IndexRect::new(0, 0, 25, 25);
    let bounds = IndexRect::new(10, 10, 15, 15);

    let mut spiral_iter = SpiralIter::new(parent_grid, bounds);
    let mut visited = Vec::new();
    while let Some(cell_in_distance) = spiral_iter.next() {
        visited.push((cell_in_distance.cell_index, cell_in_distance.distance_from_center));
    }
    assert_eq!(
        visited,
        vec![(CellIndex2d::new(3, 2), 1), (CellIndex2d::new(3, 3), 2), (CellIndex2d::new(3, 4), 3)]
    );
    assert_eq!(spiral_iter.next(), None);
}

#[test]
fn test_grid_line_iteration() {
    let grid = construct_default_grid();
    let starting_point = CellIndex2d::new(5, 5);
    let rect = grid.calculate_area_from(CellIndex2d::new(0, 0), Direction::NorthEast, 10);
    assert_eq!(rect, IndexRect::new(0, 0, 20, 20));

    let mut iterator = CoordinateIterator::iter_area_in_line_from(starting_point, Direction::East.as_vector(), rect);
    let mut cells = Vec::new();
    while let Some(cell_index) = iterator.next() {
        cells.push(cell_index);
    }
    assert_eq!(cells.len(), 15);
    assert_eq!(cells[0], starting_point);
    assert_eq!(*cells.last().unwrap(), CellIndex2d::new(19, 5));

    let mut iterator = CoordinateIterator::iter_area_in_line_from(starting_point, Direction::SouthWest.as_vector(), rect);
    let mut cells = Vec::new();
    while let Some(cell_index) = iterator.next() {
        cells.push(cell_index);
    }
    assert_eq!(cells, (0..5).rev().map(|i| CellIndex2d::new(i + 1, i + 1)).collect::<Vec<_>>());
}

#[test]
fn test_grid_area_iteration() {
    let grid = construct_default_grid();
    let rect = grid.calculate_area_from(CellIndex2d::new(0, 0), Direction::NorthEast, 1);
    assert_eq!(rect, IndexRect::new(0, 0, 2, 2));
    let mut iterator =
        CoordinateIterator::iter_area_fully_from(CellIndex2d::new(0, 0), Direction::NorthEast.as_vector(), rect);
    let mut cells = Vec::new();
    while let Some(cell_index) = iterator.next() {
        cells.push(cell_index);
    }
    assert_eq!(
        cells,
        vec![
            CellIndex2d::new(0, 1),
            CellIndex2d::new(0, 2),
            CellIndex2d::new(1, 0),
            CellIndex2d::new(1, 1),
            CellIndex2d::new(1, 2),
            CellIndex2d::new(2, 0),
            CellIndex2d::new(2, 1),
            CellIndex2d::new(2, 2)
        ]
    );
    let mut still = CoordinateIterator::iter_area_fully_from(CellIndex2d::new(1, 1), IndexOffset::new(0, 0), rect);
    assert_eq!(still.next(), None);
}

#[test]
fn global_to_local_of_rectangle() {
    assert_eq!(global_to_local(CellIndex2d::new(8, 9), IndexRect::new(6, 6, 9, 9)), CellIndex2d::new(2, 3));
}

#[test]
fn contains_local_uses_window_frame() {
    let grid = Grid2D::new(10, 10);
    let segment = GridSegment::new(grid.indexes_rect, IndexRect::new(6, 6, 9, 9));
    assert!(segment.contains_local(CellIndex2d::new(0, 0)));
    assert!(segment.contains_local(CellIndex2d::new(3, 3)));
    assert!(!segment.contains_local(CellIndex2d::new(4, 0)));
    assert!(segment.contains_global(CellIndex2d::new(0, 0)));
    assert!(!segment.contains_global(CellIndex2d::new(10, 0)));
}
