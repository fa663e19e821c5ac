use parakeet_ptt::env_parse::parse_bool_override;

#[test]
fn accepts_common_true_spellings() {
    for input in ["1", "true", "yes", "on", "TRUE", "Yes", " on "] {
        assert_eq!(
            parse_bool_override(input),
            Some(true),
            "expected Some(true) for {input:?}"
        );
    }
}

#[test]
fn accepts_common_false_spellings() {
    for input in ["0", "false", "no", "off", "FALSE", "No", " off "] {
        assert_eq!(
            parse_bool_override(input),
            Some(false),
            "expected Some(false) for {input:?}"
        );
    }
}

#[test]
fn rejects_invalid_input() {
    for input in ["", "maybe", "2", "yep", "nope", "enabled"] {
        assert_eq!(
            parse_bool_override(input),
            None,
            "expected None for {input:?}"
        );
    }
}
