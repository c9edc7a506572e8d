use cms_core::error::StatusCode;
use cms_core::pagination::{default_limit, default_offset, default_page_num, page_window, PageLimit};
use cms_core::store::Database;

fn filled(n: usize) -> Database {
    let mut db = Database::new();
    for k in 0..n {
        let t = format!("title {}", k);
        db.add_post(&t, "excerpt", "content").unwrap();
    }
    db
}

fn ids(db: &Database, offset: i32, limit: PageLimit) -> Vec<i32> {
    db.get_posts(offset, limit).unwrap().iter().map(|p| p.post_id).collect()
}

#[test]
fn defaults_match_query_defaults() {
    assert_eq!(default_page_num(), 0);
    assert_eq!(default_offset(), 0);
    assert_eq!(default_limit(), 10);
}

#[test]
fn first_page_of_ten_covers_ids_zero_to_nine() {
    let w = page_window(0, PageLimit::Bounded(10)).unwrap();
    assert_eq!(w.start, 0);
    assert_eq!(w.end, Some(10));
    for id in 0..10 {
        assert!(w.contains(id));
    }
    assert!(!w.contains(10));
    assert!(!w.contains(-1));
    let db = filled(12);
    assert_eq!(ids(&db, 0, PageLimit::Bounded(10)), (1..10).collect::<Vec<i32>>());
}

#[test]
fn later_pages_are_id_ranges() {
    let db = filled(25);
    assert_eq!(ids(&db, 1, PageLimit::Bounded(10)), (10..20).collect::<Vec<i32>>());
    assert_eq!(ids(&db, 2, PageLimit::Bounded(10)), (20..26).collect::<Vec<i32>>());
    assert_eq!(ids(&db, 3, PageLimit::Bounded(10)), Vec::<i32>::new());
    assert_eq!(ids(&db, 5, PageLimit::Bounded(0)), Vec::<i32>::new());
}

#[test]
fn window_follows_ids_not_row_count_after_deletion() {
    let mut db = filled(12);
    db.delete_post(3).unwrap();
    assert_eq!(ids(&db, 0, PageLimit::Bounded(10)), vec![1, 2, 4, 5, 6, 7, 8, 9]);
}

#[test]
fn large_page_numbers_do_not_overflow() {
    let w = page_window(i32::MAX, PageLimit::Bounded(i32::MAX)).unwrap();
    assert_eq!(w.start, (i32::MAX as i64) * (i32::MAX as i64));
    let db = filled(3);
    assert_eq!(ids(&db, i32::MAX, PageLimit::Bounded(i32::MAX)), Vec::<i32>::new());
}

#[test]
fn negative_offset_or_limit_is_rejected() {
    let db = filled(3);
    for (offset, limit) in [(-1, PageLimit::Bounded(10)), (0, PageLimit::Bounded(-1)), (-5, PageLimit::Unbounded)] {
        let e = db.get_posts(offset, limit).unwrap_err();
        assert_eq!(e.status_code, StatusCode::BadRequest);
        assert_eq!(e.err_msg, "page number cannot be negative");
    }
    assert_eq!(ids(&db, 0, PageLimit::Unbounded), vec![1, 2, 3]);
}

#[test]
fn unbounded_first_page_lists_everything() {
    let db = filled(15);
    assert_eq!(ids(&db, 0, PageLimit::Unbounded), (1..16).collect::<Vec<i32>>());
    assert_eq!(ids(&db, 1, PageLimit::Unbounded), Vec::<i32>::new());
}

#[test]
fn empty_fields_are_rejected_without_insert() {
    let mut db = Database::new();
    let cases = [
        ("", "e", "c", "cannot have empty post title"),
        ("t", "", "c", "cannot have empty post excerpt"),
        ("t", "e", "", "cannot have empty post content"),
        ("", "", "", "cannot have empty post title"),
    ];
    for (t, e, c, msg) in cases {
        let err = db.add_post(t, e, c).unwrap_err();
        assert_eq!(err.status_code, StatusCode::BadRequest);
        assert_eq!(err.err_msg, msg);
    }
    assert!(ids(&db, 0, PageLimit::Unbounded).is_empty());
    assert_eq!(db.add_post("t", "e", "c").unwrap(), 1);
}

#[test]
fn ids_increase_and_are_never_reused() {
    let mut db = Database::new();
    let a = db.add_post("a", "a", "a").unwrap();
    let b = db.add_post("b", "b", "b").unwrap();
    assert!(b > a);
    db.delete_post(b).unwrap();
    let c = db.add_post("c", "c", "c").unwrap();
    assert!(c > b);
    assert_eq!((a, b, c), (1, 2, 3));
}

#[test]
fn get_after_create_returns_same_fields() {
    let mut db = filled(2);
    let id = db.add_post("Hello", "A short one", "# Body\n\ntext").unwrap();
    let p = db.get_post(id).unwrap();
    assert_eq!(p.post_id, id);
    assert_eq!(p.title, "Hello");
    assert_eq!(p.excerpt, "A short one");
    assert_eq!(p.content, "# Body\n\ntext");
}

#[test]
fn delete_then_get_is_not_found() {
    let mut db = filled(3);
    let d = db.delete_post(2).unwrap();
    assert_eq!(d.post_id, 2);
    let e = db.get_post(2).unwrap_err();
    assert_eq!(e.status_code, StatusCode::BadRequest);
    assert_eq!(e.err_msg, "could not find post id in database");
    assert_eq!(ids(&db, 0, PageLimit::Unbounded), vec![1, 3]);
}

#[test]
fn deleting_missing_id_changes_nothing() {
    let mut db = filled(3);
    let e = db.delete_post(42).unwrap_err();
    assert_eq!(e.status_code, StatusCode::BadRequest);
    assert_eq!(e.err_msg, "could not find post id in database");
    assert_eq!(ids(&db, 0, PageLimit::Unbounded), vec![1, 2, 3]);
    assert_eq!(db.add_post("t", "e", "c").unwrap(), 4);
}

#[test]
fn end_to_end_create_list_delete() {
    let mut db = Database::new();
    let id = db.add_post("T", "E", "C").unwrap();
    assert_eq!(id, 1);
    let page = db.get_posts(0, PageLimit::Bounded(10)).unwrap();
    assert_eq!(page.len(), 1);
    assert_eq!(page[0].post_id, 1);
    assert_eq!(page[0].title, "T");
    assert_eq!(page[0].excerpt, "E");
    assert_eq!(page[0].content, "C");
    assert_eq!(db.delete_post(1).unwrap().post_id, 1);
    assert!(db.get_posts(0, PageLimit::Bounded(10)).unwrap().is_empty());
    let e = db.get_post(1).unwrap_err();
    assert_eq!(e.status_code, StatusCode::BadRequest);
}
