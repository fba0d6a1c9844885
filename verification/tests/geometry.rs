use particle_filter::geometry::Point;

// Coordinates are fixed-point: 1_000_000 units stand for one map unit, so
// 1.5 map units are written 1_500_000.

#[test]
fn translate_returns_exact_sum() {
    let p = Point { x: 1_000_000, y: 2_000_000 };
    let moved = p.translate(500_000, -500_000);
    assert_eq!(moved, Point { x: 1_500_000, y: 1_500_000 });
}

#[test]
fn translate_in_place_agrees_with_translate() {
    let cases: Vec<(i64, i64, i64, i64)> = vec![
        (0, 0, 0, 0),
        (1_000_000, 2_000_000, 500_000, -500_000),
        (-7, 13, 42, -99),
        (i64::MAX - 5, i64::MIN + 5, 5, -5),
    ];
    for (x, y, dx, dy) in cases {
        let p = Point { x, y };
        let by_value = p.translate(dx, dy);
        let mut in_place = p;
        in_place.translate_in_place(dx, dy);
        assert_eq!(by_value, in_place);
        assert_eq!(by_value.x, x + dx);
        assert_eq!(by_value.y, y + dy);
    }
}
