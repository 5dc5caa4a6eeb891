use daneel::the_box::laws::{Law, LawCheckResult, LAWS};

#[test]
fn laws_are_in_priority_order() {
    assert!(Law::Zeroth.takes_precedence_over(&Law::First));
    assert!(Law::First.takes_precedence_over(&Law::Second));
    assert!(Law::Second.takes_precedence_over(&Law::Third));
}

#[test]
fn law_ordering() {
    assert!(Law::Zeroth < Law::First);
    assert!(Law::First < Law::Second);
    assert!(Law::Second < Law::Third);
}

#[test]
fn zeroth_has_highest_priority() {
    assert_eq!(Law::Zeroth.priority(), 0);
    for law in [Law::First, Law::Second, Law::Third] {
        assert!(Law::Zeroth.takes_precedence_over(&law));
    }
}

#[test]
fn laws_text_is_not_empty() {
    for law in Law::all() {
        assert!(!law.text().is_empty());
    }
}

#[test]
fn laws_array_matches_enum() {
    assert_eq!(LAWS[0], Law::Zeroth.text());
    assert_eq!(LAWS[1], Law::First.text());
    assert_eq!(LAWS[2], Law::Second.text());
    assert_eq!(LAWS[3], Law::Third.text());
}

#[test]
fn law_check_result_permitted() {
    let result = LawCheckResult::Permitted;
    assert!(result.is_permitted());
    assert!(!result.is_blocked());
}

#[test]
fn law_check_result_blocked() {
    let result = LawCheckResult::Blocked {
        law: Law::First,
        reason: "Would harm human".to_string(),
    };
    assert!(!result.is_permitted());
    assert!(result.is_blocked());
}

#[test]
fn precedence_is_strict_and_follows_priority() {
    let all = Law::all();
    for a in all {
        assert!(!a.takes_precedence_over(&a));
        for b in all {
            assert_eq!(a.takes_precedence_over(&b), a.priority() < b.priority());
        }
    }
    assert_eq!(Law::Third.priority(), 3);
}
