use hooksaurus_admin::pagination::Pagination;

#[test]
fn default_window() {
    let p = Pagination::default();
    assert_eq!((p.page, p.per_page), (0, 30));
    assert_eq!(Pagination::resolve(None, None), p);
}

#[test]
fn nonpositive_per_page_gives_default() {
    assert_eq!(Pagination::resolve(Some(4), Some(0)), Pagination { page: 0, per_page: 30 });
    assert_eq!(Pagination::resolve(Some(4), Some(-3)), Pagination { page: 0, per_page: 30 });
    assert_eq!(Pagination::resolve(None, Some(i64::MIN)), Pagination { page: 0, per_page: 30 });
}

#[test]
fn negative_page_gives_default() {
    assert_eq!(Pagination::resolve(Some(-1), Some(5)), Pagination { page: 0, per_page: 30 });
}

#[test]
fn missing_values_take_their_defaults() {
    assert_eq!(Pagination::resolve(Some(3), None), Pagination { page: 3, per_page: 30 });
    assert_eq!(Pagination::resolve(None, Some(7)), Pagination { page: 0, per_page: 7 });
}

#[test]
fn window_arithmetic() {
    let p = Pagination::resolve(Some(3), Some(25));
    assert_eq!(p.limit(), 25);
    assert_eq!(p.offset(), 75);
    assert_eq!(p.next_page(), 4);
}

#[test]
fn offset_clamps_instead_of_wrapping() {
    let p = Pagination { page: usize::MAX, per_page: 2 };
    assert_eq!(p.offset(), i64::MAX);
    assert_eq!(p.next_page(), usize::MAX);
    let q = Pagination { page: 1 << 40, per_page: 1 << 40 };
    assert_eq!(q.offset(), i64::MAX);
}

#[test]
fn limit_out_of_store_range_falls_back() {
    let p = Pagination { page: 0, per_page: usize::MAX };
    assert_eq!(p.limit(), 30);
    assert_eq!(p.offset(), 0);
}
