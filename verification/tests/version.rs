use updater::version::{bytes_precede, is_newer};

#[test]
fn later_tag_is_newer() {
    assert!(is_newer("v2.0.0", "v1.0.0"));
    assert!(is_newer("v1.2.4", "v1.2.3"));
    assert!(is_newer("v1.10.0", "v1.1.0"));
}

#[test]
fn earlier_tag_is_not_newer() {
    assert!(!is_newer("v1.0.0", "v2.0.0"));
    assert!(!is_newer("v1.2.3", "v1.2.4"));
}

#[test]
fn equal_tag_is_not_newer() {
    assert!(!is_newer("v1.0.0", "v1.0.0"));
    assert!(!is_newer("", ""));
}

#[test]
fn comparison_is_lexical_not_numeric() {
    assert!(!is_newer("v10.0.0", "v2.0.0"));
    assert!(is_newer("v2.0.0", "v10.0.0"));
    assert!(is_newer("v9", "v10"));
}

#[test]
fn longer_tag_with_same_start_is_newer() {
    assert!(is_newer("v1.0.1", "v1.0"));
    assert!(!is_newer("v1.0", "v1.0.1"));
    assert!(is_newer("v", ""));
    assert!(!is_newer("", "v"));
}

#[test]
fn comparison_goes_by_bytes() {
    assert!(is_newer("é", "z"));
    assert!(!is_newer("z", "é"));
    assert!(is_newer("a", "Z"));
}

#[test]
fn is_newer_agrees_with_std_order() {
    let tags = ["", "v", "v1", "v1.0.0", "v1.0.1", "v10.0.0", "v2.0.0", "V2", "é", "z", "1.0", "0.9"];
    for a in tags.iter() {
        for b in tags.iter() {
            assert_eq!(is_newer(a, b), a > b);
        }
    }
}

#[test]
fn bytes_precede_orders_bytes() {
    assert!(bytes_precede(&[], &[0]));
    assert!(!bytes_precede(&[], &[]));
    assert!(!bytes_precede(&[0], &[]));
    assert!(bytes_precede(&[1, 2, 3], &[1, 2, 4]));
    assert!(!bytes_precede(&[1, 2, 4], &[1, 2, 3]));
    assert!(bytes_precede(&[1, 2], &[1, 2, 0]));
    assert!(bytes_precede(&[1, 255], &[2]));
    assert!(!bytes_precede(&[7, 7], &[7, 7]));
}

#[test]
fn of_two_different_byte_strings_one_precedes() {
    let all: [&[u8]; 5] = [&[], &[0], &[0, 0], &[1], &[0, 255]];
    for a in all.iter() {
        for b in all.iter() {
            let ab = bytes_precede(a, b);
            let ba = bytes_precede(b, a);
            assert!(!(ab && ba));
            assert_eq!(ab || ba, a != b);
        }
    }
}
