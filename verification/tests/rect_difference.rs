use noodle::rect::Rect;

fn rect(l: i32, t: i32, r: i32, b: i32) -> Rect {
    Rect::new(l, t, r, b)
}

#[test]
fn disjoint() {
    let d = rect(0, 0, 2, 2);
    let r = rect(2, 2, 4, 4);
    let v = r.subtract(d);
    assert_eq!(v.len(), 1);
    assert_eq!(v[0], rect(2, 2, 4, 4));
}

#[test]
fn enlarged() {
    let d = rect(1, 1, 2, 2);
    let r = rect(0, 0, 3, 3);
    let v = r.subtract(d);
    assert_eq!(v.len(), 4);
    assert_eq!(v[0], rect(0, 0, 3, 1));
    assert_eq!(v[1], rect(0, 1, 1, 2));
    assert_eq!(v[2], rect(2, 1, 3, 2));
    assert_eq!(v[3], rect(0, 2, 3, 3));
}

#[test]
fn covered() {
    let d = rect(0, 0, 3, 3);
    let r = rect(1, 1, 2, 2);
    let v = r.subtract(d);
    assert_eq!(v.len(), 0);
}

#[test]
fn corners() {
    let d = rect(0, 0, 2, 2);
    let r = rect(1, 1, 3, 3);
    let v = r.subtract(d);
    assert_eq!(v.len(), 2);
    assert_eq!(v[0], rect(2, 1, 3, 2));
    assert_eq!(v[1], rect(1, 2, 3, 3));

    let d = rect(1, 0, 3, 2);
    let r = rect(0, 1, 2, 3);
    let v = r.subtract(d);
    assert_eq!(v.len(), 2);
    assert_eq!(v[0], rect(0, 1, 1, 2));
    assert_eq!(v[1], rect(0, 2, 2, 3));

    let d = rect(0, 1, 2, 3);
    let r = rect(1, 0, 3, 2);
    let v = r.subtract(d);
    assert_eq!(v.len(), 2);
    assert_eq!(v[0], rect(1, 0, 3, 1));
    assert_eq!(v[1], rect(2, 1, 3, 2));

    let d = rect(1, 1, 3, 3);
    let r = rect(0, 0, 2, 2);
    let v = r.subtract(d);
    assert_eq!(v.len(), 2);
    assert_eq!(v[0], rect(0, 0, 2, 1));
    assert_eq!(v[1], rect(0, 1, 1, 2));
}

#[test]
fn sides() {
    let d = rect(0, 0, 2, 2);
    let r = rect(1, 0, 3, 2);
    let v = r.subtract(d);
    assert_eq!(v.len(), 1);
    assert_eq!(v[0], rect(2, 0, 3, 2));

    let d = rect(0, 0, 2, 2);
    let r = rect(-1, 0, 1, 2);
    let v = r.subtract(d);
    assert_eq!(v.len(), 1);
    assert_eq!(v[0], rect(-1, 0, 0, 2));

    let d = rect(0, 0, 2, 2);
    let r = rect(0, 1, 2, 3);
    let v = r.subtract(d);
    assert_eq!(v.len(), 1);
    assert_eq!(v[0], rect(0, 2, 2, 3));

    let d = rect(0, 0, 2, 2);
    let r = rect(0, -1, 2, 1);
    let v = r.subtract(d);
    assert_eq!(v.len(), 1);
    assert_eq!(v[0], rect(0, -1, 2, 0));
}

#[test]
fn middle() {
    let d = rect(1, 0, 2, 2);
    let r = rect(0, 0, 3, 2);
    let v = r.subtract(d);
    assert_eq!(v.len(), 2);
    assert_eq!(v[0], rect(0, 0, 1, 2));
    assert_eq!(v[1], rect(2, 0, 3, 2));

    let d = rect(0, 1, 2, 2);
    let r = rect(0, 0, 2, 3);
    let v = r.subtract(d);
    assert_eq!(v.len(), 2);
    assert_eq!(v[0], rect(0, 0, 2, 1));
    assert_eq!(v[1], rect(0, 2, 2, 3));
}

#[test]
fn three_sided_overlap() {
    // The subtrahend touches the minuend's top edge and cuts into the other
    // three sides: a left strip, a right strip and a bottom strip remain.
    let d = rect(1, 0, 3, 3);
    let r = rect(0, 0, 4, 4);
    let v = r.subtract(d);
    assert_eq!(v.len(), 3);
    assert_eq!(v[0], rect(0, 0, 1, 3));
    assert_eq!(v[1], rect(3, 0, 4, 3));
    assert_eq!(v[2], rect(0, 3, 4, 4));
}

#[test]
fn empty_minuend() {
    // An empty minuend disjoint from the subtrahend comes back unchanged and
    // still contains no point.
    let v = rect(5, 5, 5, 5).subtract(rect(0, 0, 2, 2));
    assert_eq!(v.len(), 1);
    assert!(v[0].is_empty());
}

#[test]
fn difference_pieces_avoid_subtrahend() {
    // Re-intersecting any piece of the difference with the subtrahend is
    // empty, and the pieces' joint area is the minuend's minus the overlap.
    let a = rect(0, 0, 6, 5);
    let b = rect(2, 1, 8, 4);
    let v = a.subtract(b);
    let mut area: i64 = 0;
    for piece in &v {
        assert!(piece.intersect(b).is_empty());
        area += (piece.width() as i64) * (piece.height() as i64);
    }
    assert_eq!(area, 6 * 5 - 4 * 3);
}
