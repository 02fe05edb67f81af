use fluidlite::Version;

#[test]
fn library_version() {
    let reported = Version::from_raw(1, 2, 0);

    let version = [reported.major as i32, reported.minor as i32, reported.micro as i32];

    assert_eq!(&version, &[1, 2, 0]);
}

#[test]
fn version() {
    let ver = Version::from_raw(1, 2, 0);

    assert_eq!(ver, Version::new(1, 2, 0));
    assert_eq!(ver.to_string(), "1.2.0");
}

#[test]
fn version_text_of_zero() {
    assert_eq!(Version::new(0, 0, 0).to_string(), "0.0.0");
}

#[test]
fn version_text_of_many_digits() {
    assert_eq!(Version::new(10, 209, 4294967295).to_string(), "10.209.4294967295");
    assert_eq!(Version::new(9, 99, 100).to_string(), "9.99.100");
}

#[test]
fn version_from_raw_wraps_negative_numbers() {
    assert_eq!(Version::from_raw(-1, 0, 7), Version::new(4294967295, 0, 7));
}

#[test]
fn versions_are_ordered_by_major_minor_micro() {
    assert!(Version::new(1, 2, 0) < Version::new(1, 2, 1));
    assert!(Version::new(1, 9, 9) < Version::new(2, 0, 0));
    assert!(Version::new(1, 2, 0) >= Version::new(1, 1, 9));
}
