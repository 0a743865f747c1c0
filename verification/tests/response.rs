use steam_connect::response::is_valid;

#[test]
fn a_line_is_valid_true_confirms() {
    assert!(is_valid("is_valid:true"));
    assert!(is_valid("is_valid:true\n"));
    assert!(is_valid("ns:http://specs.openid.net/auth/2.0\nis_valid:true\n"));
    assert!(is_valid("\n\nis_valid:true"));
    assert!(is_valid("is_valid:true\nns:http://specs.openid.net/auth/2.0"));
}

#[test]
fn a_line_is_valid_false_confirms_nothing() {
    assert!(!is_valid("is_valid:false"));
    assert!(!is_valid("ns:http://specs.openid.net/auth/2.0\nis_valid:false\n"));
}

#[test]
fn an_answer_without_the_key_confirms_nothing() {
    assert!(!is_valid(""));
    assert!(!is_valid("\n"));
    assert!(!is_valid("ns:http://specs.openid.net/auth/2.0\n"));
    assert!(!is_valid("true"));
    assert!(!is_valid("is_valid"));
    assert!(!is_valid("is_valid=true"));
    assert!(!is_valid("<html>is_valid:true</html>"));
}

#[test]
fn the_value_is_compared_exactly() {
    assert!(!is_valid("is_valid:True"));
    assert!(!is_valid("is_valid:TRUE"));
    assert!(!is_valid("is_valid: true"));
    assert!(!is_valid("is_valid:true "));
    assert!(!is_valid("is_valid:true\r\n"));
    assert!(!is_valid("is_valid:truely"));
    assert!(!is_valid("is_valid:"));
    assert!(!is_valid("is_valid:true:"));
    assert!(!is_valid("is_valid::true"));
}

#[test]
fn the_key_is_compared_exactly() {
    assert!(!is_valid("Is_valid:true"));
    assert!(!is_valid(" is_valid:true"));
    assert!(!is_valid("is_valid :true"));
    assert!(!is_valid("xis_valid:true"));
    assert!(!is_valid("openid.is_valid:true"));
    assert!(!is_valid(":is_valid:true"));
}

#[test]
fn a_line_splits_at_its_first_colon() {
    assert!(!is_valid("is_valid:true:true"));
    assert!(!is_valid("a:is_valid:true"));
    assert!(is_valid("a:b:c\nis_valid:true"));
}

#[test]
fn one_confirming_line_is_enough() {
    assert!(is_valid("is_valid:false\nis_valid:true"));
    assert!(is_valid("is_valid:true\nis_valid:false"));
}

#[test]
fn lines_end_at_line_feeds_only() {
    assert!(!is_valid("is_valid:true\ris_valid:false"));
    assert!(!is_valid("is_valid:\ntrue"));
    assert!(!is_valid("is_valid\n:true"));
    assert!(is_valid("\u{e9}:\u{20ac}\nis_valid:true\n\u{1f600}"));
}
