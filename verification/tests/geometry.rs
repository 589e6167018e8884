use wingui::geometry::Rect;

#[test]
fn overlapping_rectangles_intersect() {
    let a = Rect::new(0, 0, 100, 20);
    let b = Rect::new(0, 0, 50, 50);
    assert!(a.intersects(&b));
    assert!(b.intersects(&a));
}

#[test]
fn far_rectangles_do_not_intersect() {
    let a = Rect::new(0, 0, 100, 20);
    let b = Rect::new(200, 200, 300, 300);
    assert!(!a.intersects(&b));
    assert!(!b.intersects(&a));
}

#[test]
fn aligned_on_one_axis_only_is_not_enough() {
    let a = Rect::new(0, 0, 100, 20);
    let below = Rect::new(0, 200, 50, 300);
    let beside = Rect::new(200, 0, 300, 10);
    assert!(!a.intersects(&below));
    assert!(!below.intersects(&a));
    assert!(!a.intersects(&beside));
    assert!(!beside.intersects(&a));
}

#[test]
fn containment_is_intersection_in_both_orders() {
    let outer = Rect::new(-10, -10, 500, 500);
    let inner = Rect::new(5, 5, 6, 6);
    assert!(outer.intersects(&inner));
    assert!(inner.intersects(&outer));
    assert!(inner.intersects(&inner));
}

#[test]
fn touching_edges_share_a_point() {
    let a = Rect::new(0, 0, 10, 10);
    assert!(a.intersects(&Rect::new(10, 10, 20, 20)));
    assert!(a.intersects(&Rect::new(10, 0, 20, 10)));
    assert!(!a.intersects(&Rect::new(11, 0, 20, 10)));
    assert!(!a.intersects(&Rect::new(0, 11, 10, 20)));
    assert!(!a.intersects(&Rect::new(-20, 0, -1, 10)));
    assert!(!a.intersects(&Rect::new(0, -20, 10, -1)));
}

#[test]
fn intersection_is_symmetric_on_a_grid() {
    let coords = [-3, 0, 2, 5];
    let mut rects: Vec<Rect> = Vec::new();
    for &l in coords.iter() {
        for &t in coords.iter() {
            for &w in [0, 2, 4].iter() {
                rects.push(Rect::new(l, t, l + w, t + w));
            }
        }
    }
    for a in rects.iter() {
        for b in rects.iter() {
            assert_eq!(a.intersects(b), b.intersects(a));
            let mut shared = false;
            for x in -4..12 {
                for y in -4..12 {
                    let in_a = a.left <= x && x <= a.right && a.top <= y && y <= a.bottom;
                    let in_b = b.left <= x && x <= b.right && b.top <= y && y <= b.bottom;
                    shared = shared || (in_a && in_b);
                }
            }
            assert_eq!(a.intersects(b), shared);
        }
    }
}

#[test]
fn extreme_coordinates_do_not_overflow() {
    let all = Rect::new(i32::MIN, i32::MIN, i32::MAX, i32::MAX);
    let corner = Rect::new(i32::MAX, i32::MAX, i32::MAX, i32::MAX);
    assert!(all.intersects(&corner));
    assert!(corner.intersects(&all));
    assert!(!corner.intersects(&Rect::new(i32::MIN, i32::MIN, i32::MIN, i32::MIN)));
}
