use reponere::structured_version::VersionOrder;
use reponere::version::{Operator, VersionRequirement};

#[test]
fn test_parse_requirement() {
    let req = VersionRequirement::parse_requirement(">1.2.3");
    assert_eq!(matches!(req.op, Operator::Gt), true);
    assert_eq!(req.version, "1.2.3");

    let req = VersionRequirement::parse_requirement(">=2.0.0");
    assert_eq!(matches!(req.op, Operator::Ge), true);
    assert_eq!(req.version, "2.0.0");

    let req = VersionRequirement::parse_requirement("<3.0.0");
    assert_eq!(matches!(req.op, Operator::Lt), true);
    assert_eq!(req.version, "3.0.0");

    let req = VersionRequirement::parse_requirement("<=4.5.6");
    assert_eq!(matches!(req.op, Operator::Le), true);
    assert_eq!(req.version, "4.5.6");

    let req = VersionRequirement::parse_requirement("==1.0.0");
    assert_eq!(matches!(req.op, Operator::Eq), true);
    assert_eq!(req.version, "1.0.0");

    let req = VersionRequirement::parse_requirement("7.8.9"); // no operator
    assert_eq!(matches!(req.op, Operator::Eq), true);
    assert_eq!(req.version, "7.8.9");
}

#[test]
fn test_matches() {
    let req = VersionRequirement::parse_requirement("==1.2.3");
    assert!(req.matches("1.2.3"));
    assert!(!req.matches("1.2.4"));

    let req = VersionRequirement::parse_requirement(">1.2.3");
    assert!(req.matches("1.2.4"));
    assert!(!req.matches("1.2.3"));

    let req = VersionRequirement::parse_requirement(">=1.2.3");
    assert!(req.matches("1.2.3"));
    assert!(req.matches("1.2.4"));
    assert!(!req.matches("1.2.2"));

    let req = VersionRequirement::parse_requirement("<2.0.0");
    assert!(req.matches("1.9.9"));
    assert!(!req.matches("2.0.0"));

    let req = VersionRequirement::parse_requirement("<=2.0.0");
    assert!(req.matches("2.0.0"));
    assert!(req.matches("1.9.9"));
    assert!(!req.matches("2.0.1"));

    // No operator defaults to ==
    let req = VersionRequirement::parse_requirement("3.3.3");
    assert!(req.matches("3.3.3"));
    assert!(!req.matches("3.3.4"));
}

#[test]
fn test_invalid_version_strings() {
    let req = VersionRequirement::parse_requirement(">=1.0.0");
    assert!(!req.matches("not-a-version"));
}

#[test]
fn at_least_accepts_equal_and_rejects_older() {
    let req = VersionRequirement::parse_requirement(">=1.2.3");
    assert!(req.matches("1.2.3"));
    assert!(!req.matches("1.2.2"));
}

#[test]
fn bare_version_behaves_like_equality() {
    let bare = VersionRequirement::parse_requirement("1.2.3");
    let written = VersionRequirement::parse_requirement("==1.2.3");
    assert_eq!(bare.op, written.op);
    assert_eq!(bare.version, written.version);
    for candidate in ["1.2.3", "1.2.4", "1.2", "0.9", "not-a-version", ""] {
        assert_eq!(bare.matches(candidate), written.matches(candidate));
    }
}

#[test]
fn longer_operator_wins_over_its_first_character() {
    let req = VersionRequirement::parse_requirement(">=1");
    assert_eq!(req.op, Operator::Ge);
    assert_eq!(req.version, "1");
    let req = VersionRequirement::parse_requirement("<=1");
    assert_eq!(req.op, Operator::Le);
    assert_eq!(req.version, "1");
}

#[test]
fn operator_without_version_and_empty_text() {
    let req = VersionRequirement::parse_requirement(">");
    assert_eq!(req.op, Operator::Gt);
    assert_eq!(req.version, "");
    let req = VersionRequirement::parse_requirement("");
    assert_eq!(req.op, Operator::Eq);
    assert_eq!(req.version, "");
    let req = VersionRequirement::parse_requirement("=");
    assert_eq!(req.op, Operator::Eq);
    assert_eq!(req.version, "=");
    let req = VersionRequirement::parse_requirement("=1.0");
    assert_eq!(req.op, Operator::Eq);
    assert_eq!(req.version, "=1.0");
}

#[test]
fn operator_after_equality_stays_in_the_version() {
    let req = VersionRequirement::parse_requirement("==>1.0");
    assert_eq!(req.op, Operator::Eq);
    assert_eq!(req.version, ">1.0");
}

#[test]
fn requirement_with_unparsable_version_matches_nothing() {
    for text in [">=abc", "<=abc", ">abc", "<abc", "==abc", "abc"] {
        let req = VersionRequirement::parse_requirement(text);
        assert!(!req.matches("1.0.0"));
        assert!(!req.matches("abc"));
    }
}

#[test]
fn versions_are_compared_by_parts_not_by_characters() {
    let req = VersionRequirement::parse_requirement(">1.9");
    assert!(req.matches("1.10"));
    let req = VersionRequirement::parse_requirement("<1.10");
    assert!(req.matches("1.9"));
    assert!(!req.matches("1.10"));
}

#[test]
fn the_candidate_stands_on_the_left_of_the_operator() {
    let req = VersionRequirement::parse_requirement(">2.0.0");
    assert!(req.matches("3.0.0"));
    assert!(!req.matches("1.0.0"));
    let req = VersionRequirement::parse_requirement("<2.0.0");
    assert!(req.matches("1.0.0"));
    assert!(!req.matches("3.0.0"));
}

#[test]
fn operators_accept_the_orders_they_name() {
    let all = [VersionOrder::Less, VersionOrder::Equal, VersionOrder::Greater];
    let table = [
        (Operator::Gt, [false, false, true]),
        (Operator::Ge, [false, true, true]),
        (Operator::Lt, [true, false, false]),
        (Operator::Le, [true, true, false]),
        (Operator::Eq, [false, true, false]),
    ];
    for (op, expected) in table {
        for (order, want) in all.iter().zip(expected) {
            assert_eq!(op.accepts(*order), want);
        }
    }
}

#[test]
fn matches_agrees_with_comparing_the_parsed_versions() {
    let versions = [
        "1.2.3", "1.2.4", "1.2", "1.10", "1.9", "2.0.0", "0", "1.0.0-rc1", "1.0.0", "v2", "",
        "not-a-version", "1.2.alpha", "3.28.1-1", "99999999999999999999",
    ];
    for required in versions {
        for candidate in versions {
            let parsed = (
                version_compare::Version::from(candidate),
                version_compare::Version::from(required),
            );
            let table = [
                (">", parsed.0.is_some() && parsed.1.is_some() && parsed.0 > parsed.1),
                (">=", parsed.0.is_some() && parsed.1.is_some() && parsed.0 >= parsed.1),
                ("<", parsed.0.is_some() && parsed.1.is_some() && parsed.0 < parsed.1),
                ("<=", parsed.0.is_some() && parsed.1.is_some() && parsed.0 <= parsed.1),
                ("==", parsed.0.is_some() && parsed.1.is_some() && parsed.0 == parsed.1),
            ];
            for (operator, expected) in table {
                let req = VersionRequirement::parse_requirement(&format!("{operator}{required}"));
                assert_eq!(req.matches(candidate), expected, "{candidate} {operator} {required}");
            }
        }
    }
}

#[test]
fn matches_does_not_panic_on_odd_text() {
    let odd = ["", " ", ".", "-", "1\u{663}a", "1a\u{663}", "\u{663}", "0000000000000000000001", "1..2", "\u{1f600}"];
    for required in odd {
        for candidate in odd {
            let req = VersionRequirement::parse_requirement(required);
            let _ = req.matches(candidate);
        }
    }
}

#[test]
fn a_structured_version_equals_itself() {
    for version in ["1.2.3", "1", "0", "3.28.1-1", "1.0.0-rc1", "v2.1", "1.2.alpha", "", "=1"] {
        assert!(version_compare::Version::from(version).is_some());
        let req = VersionRequirement { op: Operator::Eq, version: version.to_string() };
        assert!(req.matches(version));
        let req = VersionRequirement { op: Operator::Ge, version: version.to_string() };
        assert!(req.matches(version));
        let req = VersionRequirement { op: Operator::Gt, version: version.to_string() };
        assert!(!req.matches(version));
    }
}

#[test]
fn the_five_requirements_on_one_version_hang_together() {
    let versions = ["1.2.3", "1.2.4", "1.2", "1.10", "1.9", "2.0.0", "0", "1.0.0-rc1", "3.28.1-1"];
    for version in versions {
        for candidate in versions {
            let ask = |operator: &str| {
                VersionRequirement::parse_requirement(&format!("{operator}{version}"))
                    .matches(candidate)
            };
            let (gt, ge, lt, le, eq) = (ask(">"), ask(">="), ask("<"), ask("<="), ask("=="));
            assert_eq!(ge, gt || eq);
            assert_eq!(le, lt || eq);
            assert_eq!(lt, !ge);
            assert_eq!(gt, !le);
            assert_eq!([lt, eq, gt].iter().filter(|met| **met).count(), 1);
            assert_eq!(eq, ask(""));
        }
    }
}

#[test]
fn a_version_that_begins_with_the_equals_sign_changes_the_operator() {
    let req = VersionRequirement::parse_requirement(">=1");
    assert_eq!(req.op, Operator::Ge);
    assert_eq!(req.version, "1");
    let req = VersionRequirement::parse_requirement("<=1");
    assert_eq!(req.op, Operator::Le);
    assert_eq!(req.version, "1");
}
