use random_access_storage::bounds::{check_offset, check_range};
use random_access_storage::RandomAccessError;

#[test]
fn range_within_limit_passes() {
    assert!(check_range(0, 0, 0).is_ok());
    assert!(check_range(0, 5, 5).is_ok());
    assert!(check_range(5, 0, 5).is_ok());
    assert!(check_range(2, 3, 5).is_ok());
    assert!(check_range(0, u64::MAX, u64::MAX).is_ok());
    assert!(check_range(u64::MAX, 0, u64::MAX).is_ok());
}

#[test]
fn range_beyond_limit_is_refused() {
    assert!(matches!(
        check_range(2, 4, 5),
        Err(RandomAccessError::OutOfBounds { offset: 2, end: Some(6), length: 5 })
    ));
    assert!(matches!(
        check_range(6, 0, 5),
        Err(RandomAccessError::OutOfBounds { offset: 6, end: Some(6), length: 5 })
    ));
    assert!(matches!(
        check_range(0, 1, 0),
        Err(RandomAccessError::OutOfBounds { offset: 0, end: Some(1), length: 0 })
    ));
}

#[test]
fn range_end_saturates() {
    assert!(matches!(
        check_range(u64::MAX, 1, u64::MAX),
        Err(RandomAccessError::OutOfBounds {
            offset: u64::MAX,
            end: Some(u64::MAX),
            length: u64::MAX
        })
    ));
    assert!(matches!(
        check_range(u64::MAX - 1, 5, 10),
        Err(RandomAccessError::OutOfBounds { offset, end: Some(u64::MAX), length: 10 })
            if offset == u64::MAX - 1
    ));
    assert!(matches!(
        check_range(u64::MAX - 1, 1, 10),
        Err(RandomAccessError::OutOfBounds { end: Some(u64::MAX), .. })
    ));
}

#[test]
fn offset_within_limit_passes() {
    assert!(check_offset(0, 0).is_ok());
    assert!(check_offset(5, 5).is_ok());
    assert!(check_offset(4, 5).is_ok());
    assert!(check_offset(u64::MAX, u64::MAX).is_ok());
}

#[test]
fn offset_beyond_limit_is_refused() {
    assert!(matches!(
        check_offset(6, 5),
        Err(RandomAccessError::OutOfBounds { offset: 6, end: None, length: 5 })
    ));
    assert!(matches!(
        check_offset(1, 0),
        Err(RandomAccessError::OutOfBounds { offset: 1, end: None, length: 0 })
    ));
}
