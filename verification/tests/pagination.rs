use smmaster::errors::AppError;
use smmaster::pagination::{has_next, total_pages, validate_page_params};

#[test]
fn page_size_below_range_is_rejected() {
    assert_eq!(validate_page_params(1, 9), Err(AppError::InvalidArgument));
}

#[test]
fn page_size_above_range_is_rejected() {
    assert_eq!(validate_page_params(1, 101), Err(AppError::InvalidArgument));
}

#[test]
fn page_size_bounds_are_accepted() {
    assert_eq!(validate_page_params(1, 10), Ok(()));
    assert_eq!(validate_page_params(1, 100), Ok(()));
}

#[test]
fn page_zero_is_rejected() {
    assert_eq!(validate_page_params(0, 10), Err(AppError::InvalidArgument));
}

#[test]
fn total_pages_is_zero_for_empty() {
    assert_eq!(total_pages(0, 10), 0);
    assert_eq!(total_pages(0, 100), 0);
}

#[test]
fn total_pages_is_the_ceiling() {
    assert_eq!(total_pages(1, 10), 1);
    assert_eq!(total_pages(10, 10), 1);
    assert_eq!(total_pages(11, 10), 2);
    assert_eq!(total_pages(100, 10), 10);
    assert_eq!(total_pages(101, 10), 11);
    assert_eq!(total_pages(99, 100), 1);
    assert_eq!(total_pages(250, 100), 3);
}

#[test]
fn has_next_compares_total_pages_with_page() {
    assert!(has_next(2, 1));
    assert!(!has_next(1, 1));
    assert!(!has_next(0, 1));
    assert!(has_next(11, 10));
}
