use pi_interactive::share::{
    gist_description, parse_gist_url_and_id, parse_share_is_public, share_gist_description,
};

#[test]
fn parse_gist_url_valid() {
    let output = "Created gist https://gist.github.com/user/abc123def456";
    let result = parse_gist_url_and_id(output);
    assert_eq!(
        result,
        Some((
            "https://gist.github.com/user/abc123def456".to_string(),
            "abc123def456".to_string()
        ))
    );
}

#[test]
fn parse_gist_url_no_gist() {
    assert!(parse_gist_url_and_id("no url here").is_none());
}

#[test]
fn parse_gist_url_wrong_host() {
    assert!(parse_gist_url_and_id("https://github.com/user/repo").is_none());
}

#[test]
fn parse_gist_url_with_quotes_and_trailing_punctuation() {
    let output = "Created gist: 'https://gist.github.com/testuser/abc123def456', done.";
    let result = parse_gist_url_and_id(output);
    assert_eq!(
        result,
        Some((
            "https://gist.github.com/testuser/abc123def456".to_string(),
            "abc123def456".to_string()
        ))
    );
}

#[test]
fn the_first_gist_with_an_id_is_taken() {
    let output = "https://gist.github.com/\n(https://gist.github.com/a/1) https://gist.github.com/2";
    assert_eq!(
        parse_gist_url_and_id(output),
        Some(("https://gist.github.com/a/1".to_string(), "1".to_string()))
    );
}

#[test]
fn share_parse_public_flag() {
    assert!(parse_share_is_public("public"));
    assert!(parse_share_is_public("PUBLIC"));
    assert!(parse_share_is_public("  Public  "));
    assert!(!parse_share_is_public(""));
    assert!(!parse_share_is_public("private"));
    assert!(!parse_share_is_public("something else"));
}

#[test]
fn share_gist_description_with_session_name() {
    let desc = share_gist_description(Some("my-project-debug"));
    assert_eq!(desc, "Pi session: my-project-debug");
}

#[test]
fn share_gist_description_without_session_name() {
    let desc = share_gist_description(None);
    assert!(desc.starts_with("Pi session 20"));
    assert!(desc.contains('T'));
    assert!(desc.ends_with('Z'));
}

#[test]
fn descriptions_with_a_given_time() {
    assert_eq!(
        gist_description(None, "2026-01-02T03:04:05Z"),
        "Pi session 2026-01-02T03:04:05Z"
    );
    assert_eq!(gist_description(Some("n"), "unused"), "Pi session: n");
    assert_eq!(share_gist_description(None).len(), "Pi session 2026-01-02T03:04:05Z".len());
}

#[test]
fn stamp_has_the_shape_of_a_time() {
    let description = share_gist_description(None);
    let stamp = &description["Pi session ".len()..];
    for (i, c) in stamp.chars().enumerate() {
        match i {
            4 | 7 => assert_eq!(c, '-'),
            10 => assert_eq!(c, 'T'),
            13 | 16 => assert_eq!(c, ':'),
            19 => assert_eq!(c, 'Z'),
            _ => assert!(c.is_ascii_digit()),
        }
    }
}
