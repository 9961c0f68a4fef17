use link_crawler::kind::{kind_from_lowered, match_kind, MatchKind};
use link_crawler::report::{found_line, sink_line};

#[test]
fn url_is_resolved_in_any_case() {
    assert_eq!(match_kind("url".to_string()).unwrap(), MatchKind::Url);
    assert_eq!(match_kind("URL".to_string()).unwrap(), MatchKind::Url);
    assert_eq!(match_kind("Url".to_string()).unwrap(), MatchKind::Url);
    assert_eq!(match_kind("uRl".to_string()).unwrap(), MatchKind::Url);
}

#[test]
fn email_is_resolved_in_any_case() {
    assert_eq!(match_kind("email".to_string()).unwrap(), MatchKind::Email);
    assert_eq!(match_kind("EMAIL".to_string()).unwrap(), MatchKind::Email);
    assert_eq!(match_kind("eMaIl".to_string()).unwrap(), MatchKind::Email);
}

#[test]
fn other_text_is_rejected_and_named() {
    let err = match_kind("Phone".to_string()).unwrap_err();
    assert_eq!(err.input, "Phone");
    assert_eq!(
        err.message(),
        "`Phone` is not a valid kind.\nValid kinds are: Email and Url."
    );
}

#[test]
fn near_misses_are_rejected() {
    for text in ["", " url", "url ", "urls", "e-mail", "emails", "mail", "ur", "url\n"] {
        let err = match_kind(text.to_string()).unwrap_err();
        assert_eq!(err.input, text);
    }
}

#[test]
fn error_keeps_the_case_of_the_input() {
    let err = match_kind("EMails".to_string()).unwrap_err();
    assert_eq!(err.input, "EMails");
    assert_eq!(
        err.message(),
        "`EMails` is not a valid kind.\nValid kinds are: Email and Url."
    );
}

#[test]
fn lowered_text_is_matched_exactly() {
    assert_eq!(kind_from_lowered("url", "URL".to_string()).unwrap(), MatchKind::Url);
    assert_eq!(kind_from_lowered("email", "Email".to_string()).unwrap(), MatchKind::Email);
    let err = kind_from_lowered("URL", "URL".to_string()).unwrap_err();
    assert_eq!(err.input, "URL");
    let err = kind_from_lowered("", "x".to_string()).unwrap_err();
    assert_eq!(err.input, "x");
}

#[test]
fn console_lines_name_the_kind() {
    assert_eq!(found_line(MatchKind::Url, "http://a.test"), "Found url: http://a.test");
    assert_eq!(found_line(MatchKind::Email, "user@test.com"), "Found email: user@test.com");
    assert_eq!(found_line(MatchKind::Url, ""), "Found url: ");
}

#[test]
fn output_lines_end_in_a_newline() {
    assert_eq!(sink_line("http://a.test"), "http://a.test\n");
    assert_eq!(sink_line("user@test.com"), "user@test.com\n");
    assert_eq!(sink_line(""), "\n");
}
