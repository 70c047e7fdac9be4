use wiredtiger_rs::version::{
    WIREDTIGER_VERSION_MAJOR, WIREDTIGER_VERSION_MINOR, WIREDTIGER_VERSION_PATCH,
};

#[test]
fn lib_version_check() {
    // If this test fails, you probably need to bump the crate version too.
    assert_eq!(
        [
            WIREDTIGER_VERSION_MAJOR,
            WIREDTIGER_VERSION_MINOR,
            WIREDTIGER_VERSION_PATCH
        ],
        [10, 0, 0]
    );
}

#[test]
fn raw_version_check() {
    // If this test fails, you probably need to bump the crate version too.
    assert_eq!(
        [
            WIREDTIGER_VERSION_MAJOR,
            WIREDTIGER_VERSION_MINOR,
            WIREDTIGER_VERSION_PATCH
        ],
        [10, 0, 0]
    );
}
