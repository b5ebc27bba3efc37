use waitcore::geom::Dims;
use waitcore::geom::Pos;
use waitcore::geom::Rect;

#[test]
fn constructors_and_accessors() {
    let p = Pos::new(3, 4);
    assert_eq!((p.x, p.y), (3, 4));
    let d = Dims::new(10, 20);
    assert_eq!((d.width(), d.height()), (10, 20));
    let r = Rect::new(1, 2, 30, 40);
    assert_eq!((r.x(), r.y(), r.w(), r.h()), (1, 2, 30, 40));
    assert_eq!(Rect::new_pd(p, d), Rect::new(3, 4, 10, 20));
    assert_eq!((r.left(), r.top(), r.right(), r.bottom()), (1, 2, 31, 42));
    assert_eq!(r.pos(), Pos::new(1, 2));
    assert_eq!(r.dims(), Dims::new(30, 40));
    assert_eq!(r.tl(), Pos::new(1, 2));
    assert_eq!(r.br(), Pos::new(31, 42));
    assert_eq!(r.br_inner(), Pos::new(30, 41));
    assert_eq!(Pos::default(), Pos::new(0, 0));
    assert_eq!(Dims::default(), Dims::new(0, 0));
}

#[test]
fn within_checks_every_edge() {
    assert!(Rect::new(0, 0, 640, 480).within(640, 480));
    assert!(Rect::new(10, 10, 630, 470).within(640, 480));
    assert!(!Rect::new(10, 10, 631, 470).within(640, 480));
    assert!(!Rect::new(640, 0, 1, 1).within(640, 480));
}

#[test]
fn contains_is_exclusive_of_the_far_edges() {
    let r = Rect::new(10, 10, 5, 5);
    assert!(r.contains(&Pos::new(10, 10)));
    assert!(r.contains(&Pos::new(14, 14)));
    assert!(!r.contains(&Pos::new(15, 10)));
    assert!(!r.contains(&Pos::new(10, 15)));
    assert!(!r.contains(&Pos::new(9, 10)));
}

#[test]
fn contains_rect_handles_zero_sized_rects() {
    let outer = Rect::new(0, 0, 100, 100);
    assert!(outer.contains_rect(&Rect::new(10, 10, 20, 20)));
    assert!(outer.contains_rect(&Rect::new(0, 0, 100, 100)));
    assert!(!outer.contains_rect(&Rect::new(90, 90, 20, 20)));
    // A rectangle without area only needs its corner inside.
    assert!(outer.contains_rect(&Rect::new(50, 50, 0, 7)));
    assert!(!outer.contains_rect(&Rect::new(100, 50, 0, 7)));
}

#[test]
fn intersect_is_exact() {
    let a = Rect::new(0, 0, 10, 10);
    let b = Rect::new(5, 5, 10, 10);
    assert_eq!(a.intersect(&b), Some(Rect::new(5, 5, 5, 5)));
    assert_eq!(b.intersect(&a), Some(Rect::new(5, 5, 5, 5)));
    // Rectangles that only share an edge have no interior overlap.
    assert_eq!(a.intersect(&Rect::new(10, 0, 5, 5)), None);
    assert_eq!(a.intersect(&Rect::new(20, 20, 5, 5)), None);
}

#[test]
fn union_is_the_smallest_covering_rect() {
    let a = Rect::new(0, 0, 10, 10);
    let b = Rect::new(20, 5, 10, 10);
    assert_eq!(a.union(&b), Rect::new(0, 0, 30, 15));
    assert_eq!(b.union(&a), Rect::new(0, 0, 30, 15));
}

#[test]
fn list_intersect_walks_pairs_until_exhausted() {
    let list1 = [Rect::new(0, 0, 4, 4), Rect::new(10, 10, 4, 4)];
    let list2 = [Rect::new(2, 2, 4, 4), Rect::new(100, 100, 1, 1)];
    let mut it = Rect::list_intersect(&list1, &list2);
    assert_eq!(it.next(), Some(Rect::new(2, 2, 2, 2)));
    assert_eq!(it.next(), None);
}

#[test]
fn list_intersect_visits_every_pair() {
    // The second rectangle of the first list overlaps the *first* of the
    // second list: later rows still start at the beginning of the second
    // list.
    let list1 = [Rect::new(0, 0, 1, 1), Rect::new(5, 5, 2, 2)];
    let list2 = [Rect::new(5, 5, 1, 1), Rect::new(0, 0, 2, 2)];
    let mut it = Rect::list_intersect(&list1, &list2);
    assert_eq!(it.next(), Some(Rect::new(0, 0, 1, 1)));
    assert_eq!(it.next(), Some(Rect::new(5, 5, 1, 1)));
    assert_eq!(it.next(), None);
}

#[test]
fn list_intersect_stays_exhausted() {
    let list1 = [Rect::new(0, 0, 4, 4)];
    let list2 = [Rect::new(100, 100, 1, 1)];
    let mut it = Rect::list_intersect(&list1, &list2);
    assert_eq!(it.next(), None);
    assert_eq!(it.next(), None);
}

#[test]
fn list_intersect_with_empty_second_list_finds_nothing() {
    let list1 = [Rect::new(0, 0, 4, 4)];
    let list2: [Rect; 0] = [];
    let mut it = Rect::list_intersect(&list1, &list2);
    assert_eq!(it.next(), None);
}
