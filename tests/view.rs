use feed_view::{body_region, build_table, DisplayItem, Region};

#[test]
fn table_has_header_and_one_row_per_item() {
    let items = vec![
        DisplayItem { title: "first post".to_string() },
        DisplayItem { title: "second".to_string() },
        DisplayItem { title: "".to_string() },
    ];
    let t = build_table(&items);
    assert_eq!(t.header, "Title");
    assert_eq!(t.block_title, "[ Reddit feed ]");
    assert_eq!(t.rows, vec!["first post".to_string(), "second".to_string(), "".to_string()]);
}

#[test]
fn empty_feed_gives_empty_table() {
    let t = build_table(&Vec::new());
    assert!(t.rows.is_empty());
    assert_eq!(t.header, "Title");
}

#[test]
fn body_region_leaves_one_cell_margin() {
    let r = body_region(Region { x: 0, y: 0, width: 80, height: 24 });
    assert_eq!(r, Region { x: 1, y: 1, width: 78, height: 22 });
}

#[test]
fn body_region_of_offset_area() {
    let r = body_region(Region { x: 5, y: 2, width: 20, height: 10 });
    assert_eq!(r, Region { x: 6, y: 3, width: 18, height: 8 });
}

#[test]
fn body_region_of_area_too_small_for_margin() {
    let r = body_region(Region { x: 3, y: 4, width: 1, height: 10 });
    assert_eq!(r, Region { x: 0, y: 0, width: 0, height: 0 });
}

#[test]
fn body_region_bottom_cut_at_last_row() {
    let r = body_region(Region { x: 0, y: 65000, width: 10, height: 1000 });
    assert_eq!(r, Region { x: 1, y: 65001, width: 8, height: 534 });
}

#[test]
fn body_region_right_edge_at_limit() {
    let r = body_region(Region { x: 2, y: 0, width: 65533, height: 10 });
    assert_eq!(r, Region { x: 3, y: 1, width: 65531, height: 8 });
}
