use chat_sync::pager::{Page, DEFAULT_PAGE_SIZE};

#[test]
fn default_page() {
    let p = Page::default();
    assert_eq!(p, Page { total: 0, index: 1, size: DEFAULT_PAGE_SIZE });
    assert_eq!(DEFAULT_PAGE_SIZE, 18);
    assert_eq!(p.page_total(), 1);
    assert_eq!(p.page_start(), 1);
    assert_eq!(p.page_end(), 1);
    assert!(p.is_start());
    assert!(p.is_end());
}

#[test]
fn page_window() {
    let mut p = Page { total: 1000, index: 12, size: 10 };
    assert_eq!(p.page_total(), 100);
    assert_eq!(p.page_start(), 9);
    assert_eq!(p.page_end(), 16);
    p.to(8);
    assert_eq!((p.page_start(), p.page_end()), (1, 8));
    p.to_end();
    assert_eq!(p.index, 100);
    assert_eq!((p.page_start(), p.page_end()), (97, 100));
    assert!(p.is_end());
}

#[test]
fn window_capped_by_total() {
    let p = Page { total: 100, index: 9, size: 18 };
    assert_eq!(p.page_total(), 6);
    assert_eq!(p.page_start(), 9);
    assert_eq!(p.page_end(), 6);
}

#[test]
fn moves_chain() {
    let mut p = Page::default();
    p.change_total(40).change_size(10).next().next();
    assert_eq!(p, Page { total: 40, index: 3, size: 10 });
    p.pre();
    assert_eq!(p.index, 2);
    assert!(p.is_active(2));
    assert!(!p.is_active(3));
    p.to_start();
    assert!(p.is_start());
    assert_eq!(p.page_total(), 4);
}
