use headjack::tui::{Cell, PlacedCell, Rect};
use headjack::utils::colors::{ColorMap, ColorMode, HjColor, TermColor};
use headjack::utils::sampling::{bounding_cube_from_shape_3d, SliceAxis};
use headjack::widgets::slice_widget::{
    coord_name, fit_relative, image_area, ras_labels, sampling_plan, supersampling_factor,
    Crosshair, CrosshairGlyphs, DoubleYImage, DoubleYImageRenderer, RenderedSlice, SamplingPlan,
    HALF_BLOCK, MAX_SUPERSAMPLING,
};

const GLYPHS: CrosshairGlyphs = CrosshairGlyphs { cross: '+', vertical: '|', horizontal: '-' };

fn crosshair(axis: SliceAxis, cursor_x: usize, cursor_y: usize) -> Crosshair {
    Crosshair { axis, cursor_x, cursor_y, glyphs: GLYPHS }
}

fn grey(v: u8) -> HjColor {
    HjColor { r: v, g: v, b: v }
}

#[test]
fn fit_square_source_into_tall_destination() {
    assert_eq!(fit_relative(3, 3, 4, 8), (4, 4));
    assert_eq!(fit_relative(1, 1, 80, 48), (48, 48));
}

#[test]
fn fit_wide_and_tall_sources() {
    assert_eq!(fit_relative(200, 100, 80, 48), (80, 40));
    assert_eq!(fit_relative(100, 200, 80, 48), (24, 48));
    assert_eq!(fit_relative(3, 2, 10, 10), (10, 6));
    assert_eq!(fit_relative(2, 3, 10, 10), (6, 10));
    assert_eq!(fit_relative(7, 3, 10, 10), (10, 4));
}

#[test]
fn fit_same_aspect_gives_the_destination() {
    assert_eq!(fit_relative(160, 90, 320, 180), (320, 180));
    assert_eq!(fit_relative(320, 180, 160, 90), (160, 90));
    assert_eq!(fit_relative(1, 3, 5, 15), (5, 15));
    assert_eq!(fit_relative(7, 7, 1, 1), (1, 1));
    assert_eq!(fit_relative(u32::MAX, u32::MAX, u32::MAX, u32::MAX), (u32::MAX, u32::MAX));
}

#[test]
fn fit_never_exceeds_the_destination() {
    for src_x in 0..12u32 {
        for src_y in 0..12u32 {
            for dest_x in 0..9u32 {
                for dest_y in 0..9u32 {
                    let (w, h) = fit_relative(src_x, src_y, dest_x, dest_y);
                    assert!(w <= dest_x && h <= dest_y);
                    if src_x > 0 && src_y > 0 {
                        assert!(w == dest_x || h == dest_y);
                    }
                }
            }
        }
    }
}

#[test]
fn fit_source_without_extent() {
    assert_eq!(fit_relative(0, 0, 10, 10), (0, 0));
    assert_eq!(fit_relative(5, 0, 10, 10), (10, 0));
    assert_eq!(fit_relative(0, 5, 10, 10), (0, 10));
    assert_eq!(fit_relative(5, 5, 0, 10), (0, 0));
    assert_eq!(fit_relative(5, 5, 10, 0), (0, 0));
}

#[test]
fn supersampling_rounds_up_and_stays_in_range() {
    assert_eq!(supersampling_factor(255, 40), 7);
    assert_eq!(supersampling_factor(240, 40), 6);
    assert_eq!(supersampling_factor(241, 40), 7);
    assert_eq!(supersampling_factor(3, 4), 1);
    assert_eq!(supersampling_factor(4, 4), 1);
    assert_eq!(supersampling_factor(5, 4), 2);
    assert_eq!(supersampling_factor(0, 4), 1);
    assert_eq!(supersampling_factor(64, 4), 16);
    assert_eq!(supersampling_factor(65, 4), 16);
    assert_eq!(supersampling_factor(100_000, 4), 16);
    assert_eq!(supersampling_factor(u64::MAX, 1), 16);
    assert_eq!(supersampling_factor(7, 0), 16);
    assert_eq!(supersampling_factor(0, 0), 1);
    assert_eq!(MAX_SUPERSAMPLING, 16);
}

#[test]
fn plan_for_a_small_volume() {
    let bounds = bounding_cube_from_shape_3d(&[4, 4, 4]);
    let plan = sampling_plan(3, 3, Rect::new(0, 0, 4, 4), &bounds);
    assert_eq!(
        plan,
        SamplingPlan { sampling_width: 4, sampling_height: 4, ssaa_factor: 1, resolution: (4, 4) }
    );
}

#[test]
fn plan_supersamples_a_large_volume() {
    let bounds = bounding_cube_from_shape_3d(&[256, 200, 100]);
    let plan = sampling_plan(200, 100, Rect::new(2, 1, 80, 24), &bounds);
    assert_eq!(plan.sampling_width, 80);
    assert_eq!(plan.sampling_height, 40);
    // 255 voxels over 40 samples
    assert_eq!(plan.ssaa_factor, 7);
    assert_eq!(plan.resolution, (280, 560));
    assert_eq!(plan.resolution.0 / plan.ssaa_factor, plan.sampling_height);
    assert_eq!(plan.resolution.1 / plan.ssaa_factor, plan.sampling_width);
}

#[test]
fn plan_for_an_area_without_cells() {
    let bounds = bounding_cube_from_shape_3d(&[10, 10, 10]);
    let plan = sampling_plan(5, 5, Rect::new(0, 0, 0, 0), &bounds);
    assert_eq!(
        plan,
        SamplingPlan { sampling_width: 0, sampling_height: 0, ssaa_factor: 16, resolution: (0, 0) }
    );
}

#[test]
fn image_is_centred_in_its_area() {
    let text_area = Rect::new(1, 1, 10, 6);
    assert_eq!(image_area(text_area, 4, 4), Rect { x: 4, y: 3, width: 4, height: 2 });
    assert_eq!(image_area(text_area, 10, 12), Rect { x: 1, y: 1, width: 10, height: 6 });
    assert_eq!(image_area(text_area, 9, 11), Rect { x: 1, y: 1, width: 9, height: 5 });
    assert_eq!(image_area(text_area, 0, 0), Rect { x: 6, y: 4, width: 0, height: 0 });
    let far = Rect::new(65_000, 65_000, 535, 535);
    assert_eq!(image_area(far, 535, 1070), far);
}

#[test]
fn rect_new_stays_on_the_terminal() {
    assert_eq!(Rect::new(1, 2, 3, 4), Rect { x: 1, y: 2, width: 3, height: 4 });
    assert_eq!(
        Rect::new(65_530, 65_535, 10, 10),
        Rect { x: 65_530, y: 65_535, width: 5, height: 0 }
    );
}

#[test]
fn orientation_labels() {
    assert_eq!(ras_labels(0), ('I', 'S'));
    assert_eq!(ras_labels(1), ('P', 'A'));
    assert_eq!(ras_labels(2), ('L', 'R'));
    assert_eq!(coord_name(0), "Superior");
    assert_eq!(coord_name(1), "Anterior");
    assert_eq!(coord_name(2), "Right");
}

fn overlay_rows(axis: SliceAxis, width: usize, height: usize, cx: usize, cy: usize) -> Vec<String> {
    let c = crosshair(axis, cx, cy);
    let mut rows = Vec::new();
    for y in (0..height).rev() {
        let mut row = String::new();
        for x in 0..width {
            row.push(c.overlay(width, height, x, y).unwrap_or('.'));
        }
        rows.push(row);
    }
    rows
}

#[test]
fn crosshair_of_a_centred_cursor_on_four_by_four() {
    // Sample rows are listed from the top one down; the cursor's rows 2 and
    // 3 share the upper terminal row.
    assert_eq!(overlay_rows(SliceAxis::X, 4, 4, 2, 2), vec!["L-+R", "L-+R", "..|.", "..P."]);
    assert_eq!(overlay_rows(SliceAxis::Y, 4, 4, 2, 2), vec!["L-+R", "L-+R", "..|.", "..I."]);
    assert_eq!(overlay_rows(SliceAxis::Z, 4, 4, 2, 2), vec!["P-+A", "P-+A", "..|.", "..I."]);
}

#[test]
fn crosshair_shows_all_four_labels_where_the_arms_are_long_enough() {
    assert_eq!(
        overlay_rows(SliceAxis::X, 5, 6, 2, 2),
        vec!["..A..", "..A..", "L-+-R", "L-+-R", "..|..", "..P.."]
    );
    assert_eq!(
        overlay_rows(SliceAxis::Z, 5, 6, 2, 3),
        vec!["..S..", "..S..", "P-+-A", "P-+-A", "..|..", "..I.."]
    );
}

#[test]
fn crosshair_row_does_not_depend_on_parity() {
    for cursor_y in (0..8usize).step_by(2) {
        let even = crosshair(SliceAxis::Y, 1, cursor_y);
        let odd = crosshair(SliceAxis::Y, 1, cursor_y + 1);
        for y in 0..8usize {
            for x in 0..4usize {
                assert_eq!(even.overlay(4, 8, x, y), odd.overlay(4, 8, x, y));
                let on_lines = x == 1 || y / 2 == cursor_y / 2;
                assert_eq!(even.overlay(4, 8, x, y).is_some(), on_lines);
            }
        }
    }
}

#[test]
fn crosshair_at_the_edges() {
    assert_eq!(overlay_rows(SliceAxis::X, 3, 4, 0, 0), vec!["A..", "A..", "+-R", "+-R"]);
    assert_eq!(overlay_rows(SliceAxis::X, 3, 4, 2, 3), vec!["L-+", "L-+", "..|", "..P"]);
    assert_eq!(overlay_rows(SliceAxis::X, 3, 4, 7, 9), vec!["...", "...", "...", "..."]);
    assert_eq!(overlay_rows(SliceAxis::X, 1, 2, 0, 0), vec!["+", "+"]);
}

fn small_slice(mode: ColorMode, c: Crosshair) -> RenderedSlice {
    // Two columns of four samples.
    let pixels = vec![
        vec![grey(10), grey(20), grey(30), grey(40)],
        vec![grey(110), grey(120), grey(130), grey(140)],
    ];
    let pairs = vec![vec![grey(15), grey(35)], vec![grey(115), grey(135)]];
    RenderedSlice::new(ColorMap::Inferno, mode, 4, pixels, pairs, c).unwrap()
}

#[test]
fn rendered_slice_answers_for_its_samples() {
    let slice = small_slice(ColorMode::TrueColor, crosshair(SliceAxis::X, 1, 2));
    assert_eq!(slice.size(), (2, 4));
    assert_eq!(slice.get(0, 0), TermColor::Rgb(10, 10, 10));
    assert_eq!(slice.get(1, 3), TermColor::Rgb(140, 140, 140));
    assert_eq!(slice.get_double(0, 0), TermColor::Rgb(15, 15, 15));
    assert_eq!(slice.get_double(1, 2), TermColor::Rgb(135, 135, 135));
    assert_eq!(slice.get_max_contrast(0, 0), TermColor::White);
    assert_eq!(slice.get_max_contrast(1, 2), TermColor::Black);
    assert_eq!(slice.get_double_max_contrast(1, 0), TermColor::White);
    assert_eq!(slice.get_double_max_contrast(1, 2), TermColor::Black);
    assert_eq!(slice.has_overlay(1, 2), Some('+'));
    assert_eq!(slice.has_overlay(0, 2), Some('L'));
    assert_eq!(slice.has_overlay(1, 0), Some('P'));
    assert_eq!(slice.has_overlay(0, 0), None);
}

#[test]
fn rendered_slice_in_palette_mode() {
    let slice = small_slice(ColorMode::Ansi256, crosshair(SliceAxis::X, 1, 2));
    let expected = ansi_colours::ansi256_from_rgb((10u8, 10u8, 10u8));
    assert_eq!(slice.get(0, 0), TermColor::Indexed(expected));
    assert_eq!(slice.get_max_contrast(0, 0), TermColor::White);
}

#[test]
fn rendered_slice_needs_columns_of_one_height() {
    let c = crosshair(SliceAxis::X, 0, 0);
    let ok = RenderedSlice::new(
        ColorMap::Greys,
        ColorMode::TrueColor,
        3,
        vec![vec![grey(1), grey(2), grey(3)]],
        vec![vec![grey(1)]],
        c,
    );
    assert!(ok.is_some());
    let short_column = RenderedSlice::new(
        ColorMap::Greys,
        ColorMode::TrueColor,
        3,
        vec![vec![grey(1), grey(2)]],
        vec![vec![grey(1)]],
        c,
    );
    assert!(short_column.is_none());
    let missing_pairs = RenderedSlice::new(
        ColorMap::Greys,
        ColorMode::TrueColor,
        2,
        vec![vec![grey(1), grey(2)]],
        vec![vec![]],
        c,
    );
    assert!(missing_pairs.is_none());
    let fewer_pair_columns = RenderedSlice::new(
        ColorMap::Greys,
        ColorMode::TrueColor,
        2,
        vec![vec![grey(1), grey(2)]],
        vec![],
        c,
    );
    assert!(fewer_pair_columns.is_none());
    let empty = RenderedSlice::new(ColorMap::Greys, ColorMode::TrueColor, 0, vec![], vec![], c);
    assert!(empty.is_some());
}

#[test]
fn renderer_packs_two_samples_into_a_cell() {
    let slice = small_slice(ColorMode::TrueColor, crosshair(SliceAxis::X, 1, 2));
    let renderer = DoubleYImageRenderer::new(&slice);
    let area = Rect::new(5, 7, 2, 2);
    let cells = renderer.render(area);
    assert_eq!(cells.len(), 4);
    // The bottom row of the area comes first.
    assert_eq!(
        cells[0],
        PlacedCell {
            x: 5,
            y: 8,
            cell: Cell {
                symbol: HALF_BLOCK,
                fg: TermColor::Rgb(10, 10, 10),
                bg: TermColor::Rgb(20, 20, 20),
            },
        }
    );
    assert_eq!(
        cells[1],
        PlacedCell {
            x: 6,
            y: 8,
            cell: Cell { symbol: 'P', fg: TermColor::White, bg: TermColor::Rgb(115, 115, 115) },
        }
    );
    assert_eq!(
        cells[2],
        PlacedCell {
            x: 5,
            y: 7,
            cell: Cell { symbol: 'L', fg: TermColor::White, bg: TermColor::Rgb(35, 35, 35) },
        }
    );
    assert_eq!(
        cells[3],
        PlacedCell {
            x: 6,
            y: 7,
            cell: Cell { symbol: '+', fg: TermColor::Black, bg: TermColor::Rgb(135, 135, 135) },
        }
    );
    assert_eq!(renderer.cell_at(area, 1, 1), cells[3]);
    assert_eq!(HALF_BLOCK, '\u{2584}');
}

#[test]
fn renderer_draws_a_part_of_a_larger_image() {
    let slice = small_slice(ColorMode::TrueColor, crosshair(SliceAxis::X, 9, 9));
    let renderer = DoubleYImageRenderer::new(&slice);
    let cells = renderer.render(Rect::new(0, 0, 1, 1));
    assert_eq!(cells.len(), 1);
    assert_eq!((cells[0].x, cells[0].y), (0, 0));
    assert_eq!(cells[0].cell.symbol, HALF_BLOCK);
    assert!(renderer.render(Rect::new(3, 3, 0, 2)).is_empty());
    assert!(renderer.render(Rect::new(3, 3, 2, 0)).is_empty());
}

#[test]
fn end_to_end_four_by_four() {
    // A volume of 4 x 4 x 4 voxels, scaled in world space without rotation,
    // shown in an area of 4 by 4 cells, that is 4 by 8 samples.
    let bounds = bounding_cube_from_shape_3d(&[4, 4, 4]);
    let text_area = Rect::new(0, 0, 4, 4);
    let expected_ends = [(('L', 'R'), ('P', 'A')), (('L', 'R'), ('I', 'S')), (('P', 'A'), ('I', 'S'))];
    for (index, ends) in expected_ends.iter().enumerate() {
        let axis = SliceAxis::from_index(index);
        let plan = sampling_plan(6, 6, text_area, &bounds);
        assert_eq!((plan.sampling_width, plan.sampling_height), (4, 4));
        assert_eq!(plan.ssaa_factor, 1);
        let area = image_area(text_area, plan.sampling_width, plan.sampling_height);
        assert_eq!(area, Rect { x: 0, y: 1, width: 4, height: 2 });
        // The cursor at the centre depth falls on sample (2, 2).
        let c = crosshair(axis, 2, 2);
        let pixels = vec![vec![grey(0); 4]; 4];
        let pairs = vec![vec![grey(0); 2]; 4];
        let slice =
            RenderedSlice::new(ColorMap::Inferno, ColorMode::TrueColor, 4, pixels, pairs, c)
                .unwrap();
        let cells = DoubleYImageRenderer::new(&slice).render(area);
        let symbols: Vec<char> = cells.iter().map(|c| c.cell.symbol).collect();
        let (column_ends, row_ends) = *ends;
        assert_eq!(
            symbols,
            vec![
                HALF_BLOCK,
                HALF_BLOCK,
                row_ends.0,
                HALF_BLOCK,
                column_ends.0,
                '-',
                '+',
                column_ends.1,
            ]
        );
        // The crosshair's centre is drawn in the upper row of the image.
        assert_eq!((cells[6].x, cells[6].y), (2, 1));
        // The upper end of the vertical arm falls on the centre's row, which
        // carries the cross instead of the label.
        assert!(!symbols.contains(&row_ends.1));
    }
}
