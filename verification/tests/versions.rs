//! Versions: their text and their precedence.

use auto_update::version::Version;

#[test]
fn text_of_a_version_parses_back() {
    for text in [
        "0.0.0",
        "1.2.3",
        "1.9.0-rezed.4",
        "1.0.0-alpha-1.0a+build.007.-",
        "18446744073709551615.0.1+x",
    ] {
        let version = Version::parse(text).unwrap();
        assert_eq!(version.to_string(), text);
        assert_eq!(Version::parse(&version.to_string()).unwrap(), version);
    }
}

#[test]
fn malformed_texts_are_refused() {
    for text in [
        "",
        "1",
        "1.2",
        "1.2.3.4",
        "v1.2.3",
        "01.2.3",
        "1.2.3-",
        "1.2.3-01",
        "1.2.3+",
        "1.2.3-a..b",
        "1.2.3 ",
        "1.2.18446744073709551616",
    ] {
        assert!(Version::parse(text).is_err(), "{text:?}");
    }
    assert_eq!(
        Version::parse("").unwrap_err(),
        "empty string, expected a semver version"
    );
    assert_eq!(
        Version::parse("a.b.c").unwrap_err(),
        "unexpected character 'a' while parsing major version number"
    );
}

#[test]
fn precedence_goes_by_numbers_then_by_prerelease() {
    let ordered = [
        "1.0.0-alpha",
        "1.0.0-alpha.1",
        "1.0.0-alpha.beta",
        "1.0.0-beta",
        "1.0.0-beta.2",
        "1.0.0-beta.11",
        "1.0.0-rc.1",
        "1.0.0",
        "1.0.1",
        "1.2.0",
        "2.0.0",
    ];
    for (i, left) in ordered.iter().enumerate() {
        for (j, right) in ordered.iter().enumerate() {
            let left = Version::parse(left).unwrap();
            let right = Version::parse(right).unwrap();
            assert_eq!(right.newer_than(&left), i < j);
        }
    }
}

#[test]
fn build_metadata_has_no_precedence_but_tells_versions_apart() {
    let plain = Version::parse("1.0.0").unwrap();
    let built = Version::parse("1.0.0+b").unwrap();
    assert!(!plain.newer_than(&built));
    assert!(!built.newer_than(&plain));
    assert_ne!(plain, built);
    assert_eq!(plain, built.without_build());
    assert_eq!(built.build(), "b");
}

#[test]
fn release_drops_prerelease_and_build_metadata() {
    let version = Version::parse("1.9.0-rezed.4+nightly.abc").unwrap();
    assert_eq!(version.release(), Version::new(1, 9, 0));
    assert_eq!(version.release().to_string(), "1.9.0");
    assert_eq!(version.without_build().to_string(), "1.9.0-rezed.4");
    assert_eq!(version.clone(), version);
}
