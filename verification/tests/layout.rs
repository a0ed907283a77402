use keyboard_core::geometry::compute_geometry;
use keyboard_core::geometry::GridGeometry;
use keyboard_core::keys::Key;

fn text(label: &str) -> Key {
    Key::Text(label.to_string())
}

/// `available * num / den` — the one division a renderer performs.
fn px(available: f64, num: u64, den: u64) -> f64 {
    available * num as f64 / den as f64
}

fn row_emitted_total(geometry: &GridGeometry, row: usize, key_count: usize) -> u64 {
    let rg = &geometry.rows[row];
    assert_eq!(rg.key_nums.len(), key_count);
    let keys: u64 = rg.key_nums.iter().sum();
    let gaps = (key_count as u64 - 1) * rg.gap_num;
    rg.lead_num + keys + gaps + rg.trail_num
}

#[test]
fn scenario_single_row_exact_pixels() {
    // One row [Text("a"), Text("b"), Backspace], available width 300:
    // widest row units = 1 + 1 + 1.5 + 4 * (1/6) = 25/6 ~ 4.1667.
    let grid = vec![vec![text("a"), text("b"), Key::Backspace]];
    let g = compute_geometry(&grid);

    assert_eq!(g.widest_sixths, 25);
    let rg = &g.rows[0];
    assert_eq!(rg.den, 50);
    assert_eq!(rg.key_nums, vec![12, 12, 18]);
    assert_eq!(rg.gap_num, 2);
    assert_eq!(rg.lead_num, 2);
    assert_eq!(rg.trail_num, 2);

    let w = 300.0;
    // button width = 300 / (25/6) = 72.
    assert_eq!(px(w, rg.key_nums[0], rg.den), 72.0);
    assert_eq!(px(w, rg.key_nums[1], rg.den), 72.0);
    assert_eq!(px(w, rg.key_nums[2], rg.den), 108.0);
    let h_space = px(w, rg.gap_num, rg.den);
    assert_eq!(h_space, 12.0);
    // 4 spacing gaps (two edges, two inner) + three keys fill the width.
    let total = 4.0 * h_space + 72.0 + 72.0 + 108.0;
    assert_eq!(total, 300.0);
}

#[test]
fn width_conservation_every_row() {
    let grid = vec![
        vec![text("q"), text("w"), text("e"), text("r"), text("t")],
        vec![Key::ShiftToggle, text("z"), text("x"), Key::Backspace],
        vec![Key::SymbolToggle, Key::Space, text(".")],
        vec![Key::Space, Key::Space, text("a")],
    ];
    let g = compute_geometry(&grid);
    for (i, row) in grid.iter().enumerate() {
        let total = row_emitted_total(&g, i, row.len());
        assert_eq!(total, g.rows[i].den, "row {} must fill the width exactly", i);
        assert!(g.rows[i].den >= 1);
    }
}

#[test]
fn stretch_closes_deficit_exactly() {
    // Widest row: 4 text keys -> 4*6 + 5 = 29 sixths.
    // Space row: [Text, Space, Text] -> 12 + 4 = 16 sixths, deficit 13.
    let grid = vec![
        vec![text("a"), text("b"), text("c"), text("d")],
        vec![text("x"), Key::Space, text("y")],
    ];
    let g = compute_geometry(&grid);
    assert_eq!(g.widest_sixths, 29);

    let rg = &g.rows[1];
    assert_eq!(rg.den, 29); // one space key: den = 1 * widest
    assert_eq!(rg.key_nums, vec![6, 13, 6]);
    assert_eq!(rg.gap_num, 1);
    assert_eq!(rg.lead_num, 1);
    assert_eq!(rg.trail_num, 1);
    // The stretched row's relative span equals the widest row's span.
    let row_units = 16u64;
    assert_eq!(row_units + rg.key_nums[1], g.widest_sixths);
    // In pixels the space key closes the deficit: 13/29 of the width.
    let w = 290.0;
    assert_eq!(px(w, rg.key_nums[1], rg.den), 130.0);
}

#[test]
fn two_spaces_share_the_deficit() {
    // Widest row: 6 text keys -> 36 + 7 = 43 sixths.
    // Space row: [Space, Text, Space] -> 6 + 4 = 10 sixths, deficit 33.
    let grid = vec![
        vec![text("a"), text("b"), text("c"), text("d"), text("e"), text("f")],
        vec![Key::Space, text("g"), Key::Space],
    ];
    let g = compute_geometry(&grid);
    assert_eq!(g.widest_sixths, 43);
    let rg = &g.rows[1];
    assert_eq!(rg.den, 2 * 43);
    assert_eq!(rg.key_nums, vec![33, 12, 33]);
    // Each space takes half the deficit: 33/86 of the width each,
    // together 33/43 — the whole deficit.
    let w = 86.0;
    let each = px(w, rg.key_nums[0], rg.den);
    assert_eq!(each, 33.0);
    assert_eq!(2.0 * each, 66.0);
}

#[test]
fn centering_pads_both_sides_equally() {
    // Widest row: 5 text keys -> 30 + 6 = 36 sixths.
    // Short row without a space: [Text, Text] -> 12 + 3 = 15 sixths.
    let grid = vec![
        vec![text("a"), text("b"), text("c"), text("d"), text("e")],
        vec![text("x"), text("y")],
    ];
    let g = compute_geometry(&grid);
    assert_eq!(g.widest_sixths, 36);
    let rg = &g.rows[1];
    assert_eq!(rg.den, 72);
    assert_eq!(rg.lead_num, rg.trail_num);
    assert_eq!(rg.lead_num, 23); // (36 - 15) + 2 sixth-halves
    // Numerically: width 360 -> button 60, gap 10, row occupies
    // 2*60 + 10 = 130 plus two basic edge gaps; the rest splits evenly.
    let w = 360.0;
    let lead = px(w, rg.lead_num, rg.den);
    let trail = px(w, rg.trail_num, rg.den);
    assert_eq!(lead, 115.0);
    assert_eq!(trail, 115.0);
    let keys: f64 = rg.key_nums.iter().map(|&n| px(w, n, rg.den)).sum();
    let inner = px(w, rg.gap_num, rg.den);
    assert_eq!(lead + keys + inner + trail, 360.0);
}

#[test]
fn grid_takes_one_third_of_height() {
    let grid = vec![
        vec![text("a"), text("b")],
        vec![text("c")],
        vec![Key::Space],
    ];
    let g = compute_geometry(&grid);
    assert_eq!(g.visible_rows, 3);
    assert_eq!(g.v_den, 3 * (7 * 3 - 1));
    assert_eq!(g.row_height_num, 6);
    assert_eq!(g.row_gap_num, 1);
    // 3 rows + 2 inter-row gaps consume exactly one third.
    assert_eq!(3 * (3 * g.row_height_num + 2 * g.row_gap_num), g.v_den);
    let h = 600.0;
    let row_h = h * g.row_height_num as f64 / g.v_den as f64;
    let gap_h = h * g.row_gap_num as f64 / g.v_den as f64;
    assert_eq!(row_h, 60.0);
    assert_eq!(gap_h, 10.0);
    assert_eq!(3.0 * row_h + 2.0 * gap_h, 200.0);
    assert_eq!(3.0 * (3.0 * row_h + 2.0 * gap_h), h);
}

#[test]
fn empty_rows_are_skipped_entirely() {
    let grid = vec![
        vec![],
        vec![text("a")],
        vec![],
    ];
    let g = compute_geometry(&grid);
    assert_eq!(g.rows.len(), 3);
    assert_eq!(g.visible_rows, 1);
    assert!(g.rows[0].key_nums.is_empty());
    assert!(g.rows[2].key_nums.is_empty());
    // Only the one non-empty row counts for the vertical split.
    assert_eq!(g.v_den, 3 * (7 - 1));
    assert_eq!(3 * (1 * g.row_height_num + 0 * g.row_gap_num), g.v_den);
}

#[test]
fn degenerate_grids_take_no_space() {
    let empty: Vec<Vec<Key>> = vec![];
    let g = compute_geometry(&empty);
    assert_eq!(g.rows.len(), 0);
    assert_eq!(g.visible_rows, 0);
    assert_eq!(g.widest_sixths, 0);
    assert_eq!(g.row_height_num, 0);
    assert_eq!(g.row_gap_num, 0);
    assert_eq!(g.v_den, 1);

    let all_empty: Vec<Vec<Key>> = vec![vec![], vec![]];
    let g = compute_geometry(&all_empty);
    assert_eq!(g.visible_rows, 0);
    assert_eq!(g.widest_sixths, 0);
    assert_eq!(g.row_height_num, 0);
}

#[test]
fn gap_width_is_uniform_across_rows() {
    // Whatever a row's denominator, a gap is one sixth of a key width:
    // gap_num/den is the same fraction in every non-empty row.
    let grid = vec![
        vec![text("a"), text("b"), text("c"), text("d")],
        vec![text("x"), Key::Space, text("y")],
        vec![text("p"), text("q")],
    ];
    let g = compute_geometry(&grid);
    let w = 1044.0; // 36 * 29: exact for both denominators
    let gap0 = px(w, g.rows[0].gap_num, g.rows[0].den);
    let gap1 = px(w, g.rows[1].gap_num, g.rows[1].den);
    let gap2 = px(w, g.rows[2].gap_num, g.rows[2].den);
    assert_eq!(gap0, gap1);
    assert_eq!(gap1, gap2);
    // And a text key is six gaps wide in every row.
    let key0 = px(w, g.rows[0].key_nums[0], g.rows[0].den);
    let key1 = px(w, g.rows[1].key_nums[0], g.rows[1].den);
    assert_eq!(key0, key1);
    assert_eq!(key0, 6.0 * gap0);
}

#[test]
fn lone_space_row_has_no_deficit() {
    let grid = vec![vec![Key::Space]];
    let g = compute_geometry(&grid);
    // units = 0 + 2 = 2 sixths; it is the widest row, deficit 0.
    assert_eq!(g.widest_sixths, 2);
    let rg = &g.rows[0];
    assert_eq!(rg.den, 2);
    assert_eq!(rg.key_nums, vec![0]);
    assert_eq!(rg.lead_num + rg.key_nums[0] + rg.trail_num, rg.den);
}
