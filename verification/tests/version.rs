use core::mem::size_of;
use std::collections::HashSet;

use squire::Version;

#[test]
fn lib_test_new() {
    let version = Version::new(3, 50, 4).unwrap();
    assert_eq!(version.major(), 3);
    assert_eq!(version.minor(), 50);
    assert_eq!(version.patch(), 4);
}

#[test]
fn test_new_validates_widths() {
    assert!(Version::new(256, 0, 0).is_err());
    assert!(Version::new(0, 4096, 0).is_err());
    assert!(Version::new(0, 0, 4096).is_err());
    assert!(Version::new(255, 4095, 4095).is_ok());
}

#[test]
fn test_new_rejects_zero() {
    assert!(Version::new(0, 0, 0).is_err());
    assert!(Version::new(0, 0, 1).is_ok());
}

#[test]
fn test_size() {
    assert_eq!(size_of::<Version>(), size_of::<u32>());
    assert_eq!(size_of::<Version>(), size_of::<Option<Version>>());
}

#[test]
fn test_from_number() {
    let version = Version::from_number(3_050_004).unwrap();
    assert_eq!(version, Version::new(3, 50, 4).unwrap());

    let version = Version::from_number(3_046_000).unwrap();
    assert_eq!(version, Version::new(3, 46, 0).unwrap());

    let version = Version::from_number(3_000_001).unwrap();
    assert_eq!(version, Version::new(3, 0, 1).unwrap());
}

#[test]
fn test_to_number() {
    assert_eq!(Version::new(3, 50, 4).unwrap().to_number(), 3_050_004);
    assert_eq!(Version::new(3, 46, 0).unwrap().to_number(), 3_046_000);
    assert_eq!(Version::new(3, 0, 1).unwrap().to_number(), 3_000_001);
}

#[test]
fn test_roundtrip() {
    let version = Version::new(3, 50, 4).unwrap();
    assert_eq!(Version::from_number(version.to_number()).unwrap(), version);

    let num = 3_046_000;
    assert_eq!(Version::from_number(num).unwrap().to_number(), num);
}

#[test]
fn test_from_str() {
    assert_eq!(
        "3.50.4".parse::<Version>().unwrap(),
        Version::new(3, 50, 4).unwrap()
    );
    assert_eq!(
        "3.46.0".parse::<Version>().unwrap(),
        Version::new(3, 46, 0).unwrap()
    );
    assert_eq!(
        "0.0.1".parse::<Version>().unwrap(),
        Version::new(0, 0, 1).unwrap()
    );
    assert_eq!(
        "3.50".parse::<Version>().unwrap(),
        Version::new(3, 50, 0).unwrap()
    );
    assert_eq!(
        "3.46".parse::<Version>().unwrap(),
        Version::new(3, 46, 0).unwrap()
    );
}

#[test]
fn test_from_str_errors() {
    assert!("3.50.4.1".parse::<Version>().is_err());
    assert!("3".parse::<Version>().is_err());
    assert!("".parse::<Version>().is_err());
    assert!("a.b.c".parse::<Version>().is_err());
    assert!("3.+49.2".parse::<Version>().is_err());
    assert!(".3.50.4".parse::<Version>().is_err());
    assert!("0.0.0".parse::<Version>().is_err());
    assert!("256.0.0".parse::<Version>().is_err());
}

#[test]
fn test_declare() {
    assert_eq!(Version::declare("3.50.4"), Version::new(3, 50, 4).unwrap());
    assert_eq!(Version::declare("3.50"), Version::new(3, 50, 0).unwrap());
}

#[test]
fn lib_test_display() {
    assert_eq!(Version::new(3, 50, 4).unwrap().to_string(), "3.50.4");
    assert_eq!(Version::new(3, 46, 0).unwrap().to_string(), "3.46.0");
    assert_eq!(Version::new(0, 0, 1).unwrap().to_string(), "0.0.1");
}

#[test]
fn test_try_from_tuple() {
    let version: Version = (3, 50, 4).try_into().unwrap();
    assert_eq!(version, Version::new(3, 50, 4).unwrap());

    assert!(Version::try_from((0, 0, 0)).is_err());
    assert!(Version::try_from((256, 0, 0)).is_err());
}

#[test]
fn test_try_from_array() {
    let version: Version = [3, 50, 4].try_into().unwrap();
    assert_eq!(version, Version::new(3, 50, 4).unwrap());
}

#[test]
fn test_ordering() {
    assert!(Version::new(3, 50, 4).unwrap() < Version::new(3, 51, 0).unwrap());
    assert!(Version::new(3, 50, 4).unwrap() < Version::new(4, 0, 0).unwrap());
    assert!(Version::new(3, 50, 3).unwrap() < Version::new(3, 50, 4).unwrap());
    assert!(Version::new(3, 50, 4).unwrap() == Version::new(3, 50, 4).unwrap());
    assert!(Version::new(3, 51, 0).unwrap() > Version::new(3, 50, 4).unwrap());
}

#[test]
fn documented_examples() {
    let version = Version::parse("3.49.2").unwrap();
    assert_eq!(version.minor(), 49);
    assert!(version < Version::new(3, 51, 0).unwrap());
    assert_eq!(Version::from_number(3_049_002).unwrap(), version);

    let version: Version = "3.50.4".parse().unwrap();
    assert!(version < Version::new(3, 51, 0).unwrap());
    assert_eq!(version, Version::from_number(3_050_004).unwrap());
    let from_tuple: Version = (3, 50, 4).try_into().unwrap();
    assert_eq!(version, from_tuple);
    assert!(Version::new(3, 49, 2).unwrap() == "3.49.2".parse().unwrap());
    assert!(Version::new(0, 0, 0).is_err());
}

#[test]
fn components_and_conversions() {
    let version = Version::release(3, 45).unwrap();
    assert_eq!(version.components(), (3, 45, 0));
    let tuple: (u32, u32, u32) = Version::new(3, 50, 4).unwrap().into();
    assert_eq!(tuple, (3, 50, 4));
    let array: [u32; 3] = Version::new(3, 50, 4).unwrap().into();
    assert_eq!(array, [3, 50, 4]);
    assert!(Version::from_number(256_000_000).is_err());
    assert!(Version::from_number(-1).is_err());
    assert!(Version::from_number(0).is_err());
    assert_eq!(
        Version::parse(&Version::new(255, 4095, 4095).unwrap().to_string())
            .unwrap()
            .components(),
        (255, 4095, 4095)
    );
}

#[test]
fn versions_sort_hash_and_debug() {
    let mut versions = vec![
        Version::new(3, 51, 0).unwrap(),
        Version::new(3, 9, 2).unwrap(),
        Version::new(3, 50, 4).unwrap(),
    ];
    versions.sort();
    assert_eq!(
        versions,
        vec![
            Version::new(3, 9, 2).unwrap(),
            Version::new(3, 50, 4).unwrap(),
            Version::new(3, 51, 0).unwrap(),
        ]
    );
    assert_eq!(versions.iter().max(), Some(&Version::new(3, 51, 0).unwrap()));
    let set: HashSet<Version> = [
        Version::new(3, 50, 4).unwrap(),
        Version::parse("3.50.4").unwrap(),
        Version::release(3, 50).unwrap(),
    ]
    .into_iter()
    .collect();
    assert_eq!(set.len(), 2);
    let packed = (3u32 << 24) | (50 << 12) | 4;
    assert_eq!(format!("{:?}", Version::new(3, 50, 4).unwrap()), format!("Version({packed})"));
}

#[test]
fn number_bounds_and_errors() {
    assert_eq!(Version::from_number(1).unwrap().components(), (0, 0, 1));
    assert_eq!(Version::from_number(255_999_999).unwrap().components(), (255, 999, 999));
    assert_eq!(Version::from_number(256_000_000).unwrap_err(), squire::version::Error);
    assert_eq!(Version::from_number(i32::MIN).unwrap_err(), squire::version::Error);
    assert_eq!(Version::release(300, 1).unwrap_err(), squire::version::Error);
    assert_eq!(Version::parse("3.x").unwrap_err(), squire::version::Error);
    assert_eq!(Version::release(3, 45).unwrap(), Version::new(3, 45, 0).unwrap());
}
