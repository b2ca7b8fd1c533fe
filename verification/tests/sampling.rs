use headjack::utils::sampling::{
    bounding_cube_from_coords, bounding_cube_from_shape_3d, cell_corners, downsample_block,
    downsample_shape, max_cell_index, position_2d, slice_cube_3d_coords, Block, CellCorner,
    Coord, Cube, SliceAxis,
};

fn point(x: i64, y: i64, z: i64) -> Coord<i64> {
    Coord { x, y, z, w: 1 }
}

#[test]
fn axis_index_round_trip() {
    assert_eq!(SliceAxis::from_index(0), SliceAxis::X);
    assert_eq!(SliceAxis::from_index(1), SliceAxis::Y);
    assert_eq!(SliceAxis::from_index(2), SliceAxis::Z);
    for i in 0..3usize {
        assert_eq!(SliceAxis::from_index(i).index(), i);
    }
}

#[test]
fn axis_labels() {
    assert_eq!(SliceAxis::X.label(), "X");
    assert_eq!(SliceAxis::Y.label(), "Y");
    assert_eq!(SliceAxis::Z.label(), "Z");
}

#[test]
fn axis_in_plane_pairs() {
    assert_eq!((SliceAxis::X.column_index(), SliceAxis::X.row_index()), (2, 1));
    assert_eq!((SliceAxis::Y.column_index(), SliceAxis::Y.row_index()), (2, 0));
    assert_eq!((SliceAxis::Z.column_index(), SliceAxis::Z.row_index()), (1, 0));
}

#[test]
fn position_2d_splits_a_triple() {
    assert_eq!(position_2d(&[10, 20, 30], SliceAxis::X), (10, 30, 20));
    assert_eq!(position_2d(&[10, 20, 30], SliceAxis::Y), (20, 30, 10));
    assert_eq!(position_2d(&[10, 20, 30], SliceAxis::Z), (30, 20, 10));
    assert_eq!(position_2d(&["IS", "PA", "LR"], SliceAxis::X), ("IS", "LR", "PA"));
    assert_eq!(position_2d(&[0.5f64, 1.5, 2.5], SliceAxis::Z), (2.5, 1.5, 0.5));
}

#[test]
fn cube_new_sets_extents() {
    let c = Cube::new(-2, 0, 3, 5, 0, 10);
    assert_eq!((c.x0, c.y0, c.z0, c.x1, c.y1, c.z1), (-2, 0, 3, 5, 0, 10));
    assert_eq!(c.size(), (7, 0, 7));
    assert_eq!(c.min(), point(-2, 0, 3));
    assert_eq!(c.max(), point(5, 0, 10));
}

#[test]
fn cube_center_in_homogeneous_coordinates() {
    let c = Cube::new(0, 0, 0, 3, 4, 5);
    assert_eq!(c.center(), Coord { x: 3, y: 4, z: 5, w: 2 });
    let odd = Cube::new(-5, 1, 1, -2, 1, 2);
    assert_eq!(odd.center(), Coord { x: -7, y: 2, z: 3, w: 2 });
    let wide = Cube::new(i64::MAX, i64::MIN, 0, i64::MAX, i64::MIN, 0);
    assert_eq!(wide.center().x, 2 * (i64::MAX as i128));
    assert_eq!(wide.center().y, 2 * (i64::MIN as i128));
}

#[test]
fn grid_sample_of_a_display_pixel() {
    // Sample `x * W + y` is what the display reads at column `x`, row `y`.
    let along_width = [10, 11, 12];
    let along_height = [20, 21];
    for axis in [SliceAxis::X, SliceAxis::Y, SliceAxis::Z] {
        let grid = slice_cube_3d_coords(axis, 7, 1, &along_width, &along_height);
        for x in 0..2usize {
            for y in 0..3usize {
                let p = grid[x * 3 + y];
                let (depth, column, row) = position_2d(&[p.x, p.y, p.z], axis);
                assert_eq!((depth, column, row), (7, along_height[x], along_width[y]));
            }
        }
    }
}

#[test]
fn cube_extent_of_the_widest_box() {
    let c = Cube::new(i64::MIN, -1, 0, i64::MAX, 1, 0);
    assert_eq!(c.xd, u64::MAX);
    assert_eq!(c.yd, 2);
    assert_eq!(c.zd, 0);
}

#[test]
fn cube_from_shape() {
    let c = bounding_cube_from_shape_3d(&[4, 5, 6]);
    assert_eq!(c, Cube::new(0, 0, 0, 3, 4, 5));
    let single = bounding_cube_from_shape_3d(&[1, 1, 1]);
    assert_eq!(single, Cube::new(0, 0, 0, 0, 0, 0));
    let longer = bounding_cube_from_shape_3d(&[2, 3, 4, 99]);
    assert_eq!(longer, Cube::new(0, 0, 0, 1, 2, 3));
}

#[test]
fn cube_corners_in_fixed_order() {
    let c = Cube::new(0, 10, 20, 1, 11, 21);
    let corners = c.corner_coords();
    assert_eq!(
        corners,
        vec![
            point(0, 10, 20),
            point(1, 11, 21),
            point(1, 10, 20),
            point(0, 11, 21),
            point(0, 10, 21),
            point(1, 11, 20),
            point(1, 10, 21),
            point(0, 11, 20),
        ]
    );
}

#[test]
fn bounding_cube_holds_every_point_and_is_tight() {
    let points = vec![
        point(3, -1, 7),
        point(-4, 2, 7),
        point(0, 0, 9),
        point(2, 5, 8),
        point(1, 1, 1),
    ];
    let c = bounding_cube_from_coords(&points);
    assert_eq!(c, Cube::new(-4, -1, 1, 3, 5, 9));
    for p in &points {
        assert!(c.x0 <= p.x && p.x <= c.x1);
        assert!(c.y0 <= p.y && p.y <= c.y1);
        assert!(c.z0 <= p.z && p.z <= c.z1);
    }
    assert!(points.iter().any(|p| p.x == c.x0));
    assert!(points.iter().any(|p| p.x == c.x1));
    assert!(points.iter().any(|p| p.y == c.y0));
    assert!(points.iter().any(|p| p.y == c.y1));
    assert!(points.iter().any(|p| p.z == c.z0));
    assert!(points.iter().any(|p| p.z == c.z1));
}

#[test]
fn bounding_cube_looks_at_all_points_not_the_first_three() {
    let points = vec![point(0, 0, 0), point(1, 1, 1), point(1, 0, 0), point(-9, 12, 30)];
    let c = bounding_cube_from_coords(&points);
    assert_eq!(c, Cube::new(-9, 0, 0, 1, 12, 30));
}

#[test]
fn bounding_cube_ignores_the_weight() {
    let points = vec![Coord { x: 1, y: 2, z: 3, w: 1000 }, Coord { x: 2, y: 3, z: 4, w: -1000 }];
    assert_eq!(bounding_cube_from_coords(&points), Cube::new(1, 2, 3, 2, 3, 4));
}

#[test]
fn bounding_cube_of_one_point() {
    let c = bounding_cube_from_coords(&[point(5, 6, 7)]);
    assert_eq!(c, Cube::new(5, 6, 7, 5, 6, 7));
    assert_eq!(c.size(), (0, 0, 0));
}

#[test]
fn bounding_cube_of_corners_is_the_cube() {
    let c = Cube::new(-3, 4, 0, 8, 4, 2);
    assert_eq!(bounding_cube_from_coords(&c.corner_coords()), c);
}

#[test]
fn grid_for_each_axis() {
    let along_width = [0.0f64, 1.0];
    let along_height = [10.0f64, 20.0, 30.0];
    let x = slice_cube_3d_coords(SliceAxis::X, 5.0, 1.0, &along_width, &along_height);
    assert_eq!(x.len(), 6);
    assert_eq!(x[0], Coord { x: 5.0, y: 0.0, z: 10.0, w: 1.0 });
    assert_eq!(x[1], Coord { x: 5.0, y: 1.0, z: 10.0, w: 1.0 });
    assert_eq!(x[2], Coord { x: 5.0, y: 0.0, z: 20.0, w: 1.0 });
    assert_eq!(x[5], Coord { x: 5.0, y: 1.0, z: 30.0, w: 1.0 });
    let y = slice_cube_3d_coords(SliceAxis::Y, 5.0, 1.0, &along_width, &along_height);
    assert_eq!(y[3], Coord { x: 1.0, y: 5.0, z: 20.0, w: 1.0 });
    let z = slice_cube_3d_coords(SliceAxis::Z, 5.0, 1.0, &along_width, &along_height);
    assert_eq!(z[4], Coord { x: 0.0, y: 30.0, z: 5.0, w: 1.0 });
}

#[test]
fn grid_point_by_column_and_row() {
    let along_width: Vec<i32> = (0..7).collect();
    let along_height: Vec<i32> = (100..105).collect();
    let grid = slice_cube_3d_coords(SliceAxis::Z, -1, 1, &along_width, &along_height);
    assert_eq!(grid.len(), 35);
    for (i, p) in grid.iter().enumerate() {
        assert_eq!(*p, Coord { x: along_width[i % 7], y: along_height[i / 7], z: -1, w: 1 });
    }
}

#[test]
fn grid_without_columns_or_rows_is_empty() {
    let none: [u8; 0] = [];
    assert!(slice_cube_3d_coords(SliceAxis::X, 0u8, 1, &none, &[1, 2, 3]).is_empty());
    assert!(slice_cube_3d_coords(SliceAxis::X, 0u8, 1, &[1, 2, 3], &none).is_empty());
}

#[test]
fn grid_axes_match_the_display() {
    let axes = [SliceAxis::X, SliceAxis::Y, SliceAxis::Z];
    for axis in axes {
        let p = axis.place(7, 8, 9, 1);
        let triple = [p.x, p.y, p.z];
        let (depth, column, row) = position_2d(&triple, axis);
        assert_eq!(depth, 7);
        assert_eq!(row, 8);
        assert_eq!(column, 9);
    }
}

#[test]
fn plane_bounds_by_axis() {
    let lower = (1, 2, 3);
    let upper = (10, 20, 30);
    assert_eq!(SliceAxis::X.plane_bounds(lower, upper), (2, 3, 20, 30));
    assert_eq!(SliceAxis::Y.plane_bounds(lower, upper), (1, 3, 10, 30));
    assert_eq!(SliceAxis::Z.plane_bounds(lower, upper), (1, 2, 10, 20));
}

#[test]
fn downsample_shape_drops_the_remainder() {
    assert_eq!(downsample_shape(8, 8, 2), (4, 4));
    assert_eq!(downsample_shape(9, 7, 2), (4, 3));
    assert_eq!(downsample_shape(3, 3, 4), (0, 0));
    assert_eq!(downsample_shape(5, 6, 1), (5, 6));
}

#[test]
fn downsample_blocks_tile_the_image() {
    let (rows, cols, factor) = (9usize, 7usize, 3usize);
    let (new_rows, new_cols) = downsample_shape(rows, cols, factor);
    assert_eq!((new_rows, new_cols), (3, 2));
    assert_eq!(
        downsample_block(rows, cols, factor, 2, 1),
        Block { start_row: 6, end_row: 9, start_col: 3, end_col: 6 }
    );
    let mut seen = vec![0u32; rows * cols];
    for i in 0..new_rows {
        for j in 0..new_cols {
            let b = downsample_block(rows, cols, factor, i, j);
            for r in b.start_row..b.end_row {
                for c in b.start_col..b.end_col {
                    seen[r * cols + c] += 1;
                }
            }
        }
    }
    for r in 0..rows {
        for c in 0..cols {
            let expected = if r < new_rows * factor && c < new_cols * factor { 1 } else { 0 };
            assert_eq!(seen[r * cols + c], expected);
        }
    }
}

#[test]
fn interpolation_cell_stays_inside() {
    assert_eq!(max_cell_index(2), 0);
    assert_eq!(max_cell_index(4), 2);
    let corners = cell_corners((2, 2, 2), (0, 0, 0));
    let indices: Vec<(usize, usize, usize)> = corners.iter().map(|c| c.index).collect();
    assert_eq!(
        indices,
        vec![
            (0, 0, 0),
            (1, 0, 0),
            (0, 1, 0),
            (1, 1, 0),
            (0, 0, 1),
            (1, 0, 1),
            (0, 1, 1),
            (1, 1, 1),
        ]
    );
    for c in &corners {
        assert_eq!(c.far, (c.index.0 == 1, c.index.1 == 1, c.index.2 == 1));
    }
    let far = cell_corners((4, 5, 6), (2, 3, 4));
    assert_eq!(far[7], CellCorner { index: (3, 4, 5), far: (true, true, true) });
    assert_eq!(far[2], CellCorner { index: (2, 4, 4), far: (false, true, false) });
    assert!(far.iter().all(|c| c.index.0 < 4 && c.index.1 < 5 && c.index.2 < 6));
}

#[test]
fn interpolation_weights_add_up() {
    // The weights of the eight voxels at offsets of a half are an eighth
    // each, and at an offset of zero the near voxel has all the weight.
    let corners = cell_corners((2, 2, 2), (0, 0, 0));
    let weight = |c: &CellCorner, d: (f64, f64, f64)| {
        let side = |far: bool, d: f64| if far { d } else { 1.0 - d };
        side(c.far.0, d.0) * side(c.far.1, d.1) * side(c.far.2, d.2)
    };
    let values = [0.0, 4.0, 2.0, 6.0, 1.0, 5.0, 3.0, 7.0];
    let at = |d: (f64, f64, f64)| -> f64 {
        corners.iter().zip(values.iter()).map(|(c, v)| weight(c, d) * v).sum()
    };
    assert_eq!(at((0.0, 0.0, 0.0)), 0.0);
    assert_eq!(at((0.5, 0.5, 0.5)), 3.5);
    assert_eq!(at((1.0, 0.0, 0.0)), 4.0);
    let total: f64 = corners.iter().map(|c| weight(c, (0.25, 0.5, 0.75))).sum();
    assert_eq!(total, 1.0);
}
