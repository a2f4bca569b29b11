use backend::domain::TargetUrl;

#[test]
fn url_is_empty() {
    assert!(TargetUrl::parse("".to_string()).is_err());
}

#[test]
fn url_is_not_a_url() {
    assert!(TargetUrl::parse("not a url".to_string()).is_err());
}

#[test]
fn url_wrong_scheme() {
    assert!(TargetUrl::parse("ftp://example.com".to_string()).is_err());
}

#[test]
fn url_is_valid() {
    let url = TargetUrl::parse("https://example.com/page".to_string()).unwrap();
    assert_eq!(url.as_ref(), "https://example.com/page");
}

#[test]
fn url_error_messages() {
    assert_eq!(TargetUrl::parse("  ".to_string()).unwrap_err(), "target_url can't be empty");
    assert_eq!(TargetUrl::parse(" not a url ".to_string()).unwrap_err(), "not a url is not a valid url");
    assert_eq!(
        TargetUrl::parse("ftp://example.com".to_string()).unwrap_err(),
        "'ftp://example.com' must use http/https but got 'ftp'"
    );
}

#[test]
fn url_scheme_is_read_in_lowercase() {
    let url = TargetUrl::parse(" HTTP://Example.com ".to_string()).unwrap();
    assert_eq!(url.as_ref(), "HTTP://Example.com");
    assert_eq!(
        TargetUrl::parse("MAILTO:someone@example.com".to_string()).unwrap_err(),
        "'MAILTO:someone@example.com' must use http/https but got 'mailto'"
    );
}

#[test]
fn url_decision_on_parser_answers() {
    assert_eq!(
        TargetUrl::check_scheme("http://a.b".to_string(), Some("http".to_string())),
        Ok("http://a.b".to_string())
    );
    assert_eq!(
        TargetUrl::check_scheme("x".to_string(), None),
        Err("x is not a valid url".to_string())
    );
    assert_eq!(
        TargetUrl::check_scheme("ws://a".to_string(), Some("ws".to_string())),
        Err("'ws://a' must use http/https but got 'ws'".to_string())
    );
    assert!(TargetUrl::check_scheme("https://a".to_string(), Some("https".to_string())).is_ok());
    assert!(TargetUrl::check_scheme("httpx://a".to_string(), Some("httpx".to_string())).is_err());
}

#[test]
fn url_reparses_to_itself() {
    let url = TargetUrl::parse("\thttps://example.com/a?b=c\n".to_string()).unwrap();
    let again = TargetUrl::parse(url.clone().as_ref().to_string()).unwrap();
    assert_eq!(again.as_ref(), url.as_ref());
}
