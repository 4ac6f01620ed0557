use pwmp_server::dupfilter::{DuplicateFilter, ID_CACHE_SIZE};
use pwmp_server::error::Error;

#[test]
fn repeated_id_is_a_duplicate() {
    let mut filter = DuplicateFilter::new();
    assert_eq!(filter.check(17), Ok(()));
    assert_eq!(filter.check(18), Ok(()));
    assert_eq!(filter.check(17), Err(Error::DuplicateMessage));
    assert!(filter.contains(18));
    assert!(!filter.contains(19));
}

#[test]
fn thirty_third_id_evicts_the_first() {
    let mut filter = DuplicateFilter::new();
    for id in 1..=ID_CACHE_SIZE as u64 {
        assert_eq!(filter.check(id), Ok(()));
    }
    assert!(filter.contains(1));
    assert_eq!(filter.check(ID_CACHE_SIZE as u64 + 1), Ok(()));
    assert!(!filter.contains(1));
    assert!(filter.contains(2));
    assert!(filter.contains(ID_CACHE_SIZE as u64 + 1));
    assert_eq!(filter.check(1), Ok(()));
    assert_eq!(filter.check(3), Err(Error::DuplicateMessage));
}
