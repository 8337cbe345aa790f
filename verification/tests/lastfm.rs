use tempo::lastfm::{signature, str_less};

fn pairs(items: &[(&str, &str)]) -> Vec<(String, String)> {
    items.iter().map(|(k, v)| (k.to_string(), v.to_string())).collect()
}

#[test]
fn signature_orders_parameters_and_appends_the_secret() {
    let sig = signature(pairs(&[("b", "2"), ("a", "1")]), "s");
    assert_eq!(sig, "1d0396bcbc2c54e569e7af9cf9c4685e");
}

#[test]
fn signature_leaves_out_format() {
    let with = signature(pairs(&[("b", "2"), ("format", "json"), ("a", "1")]), "s");
    let without = signature(pairs(&[("b", "2"), ("a", "1")]), "s");
    assert_eq!(with, without);
}

#[test]
fn signature_of_a_session_request() {
    let sig = signature(
        pairs(&[("method", "auth.getSession"), ("token", "T"), ("api_key", "K")]),
        "secret",
    );
    assert_eq!(sig, "37d55b7ad890b24ee678f74fac66d197");
}

#[test]
fn signature_of_no_parameters_hashes_the_secret() {
    assert_eq!(signature(vec![], "secret"), "5ebe2294ecd0e0f08eab7690d2a6ee69");
}

#[test]
fn names_compare_by_characters() {
    assert!(str_less("a", "b"));
    assert!(str_less("ab", "abc"));
    assert!(!str_less("abc", "ab"));
    assert!(!str_less("same", "same"));
    assert!(str_less("", "x"));
}

#[test]
fn scrobble_body_is_signed() {
    let body = tempo::lastfm::scrobble_body("A & B", "Song", -5, 0xABCDEF, "key", "sess", "sec");
    let names: Vec<&str> = body.iter().map(|(k, _)| k.as_str()).collect();
    assert_eq!(names, vec!["artist", "track", "timestamp", "mbid", "method", "format", "api_key", "sk", "api_sig"]);
    assert_eq!(body[2].1, "-5");
    assert_eq!(body[3].1, "00000000-0000-0000-0000-000000abcdef");
    assert_eq!(body[5].1, "json");
    assert_eq!(body[8].1, "cdea634e7fd025d08c62a520f9f3e76d");
}

#[test]
fn numbers_are_written_in_decimal() {
    assert_eq!(tempo::text::decimal_string(0), "0");
    assert_eq!(tempo::text::decimal_string(1700000000), "1700000000");
    assert_eq!(tempo::text::decimal_string(i64::MIN), "-9223372036854775808");
}

#[test]
fn session_request_is_signed_without_format() {
    let params = tempo::lastfm::session_request_params("K", "T", "secret");
    assert_eq!(params.len(), 6);
    assert_eq!(params[0], ("format".to_string(), "json".to_string()));
    assert_eq!(params[5], ("api_sig".to_string(), "37d55b7ad890b24ee678f74fac66d197".to_string()));
}

#[test]
fn scrobble_form_is_url_encoded() {
    let form = tempo::lastfm::scrobble_form("A & B", "Song", -5, 0xABCDEF, "key", "sess", "sec");
    assert_eq!(
        form,
        "artist=A+%26+B&track=Song&timestamp=-5&mbid=00000000-0000-0000-0000-000000abcdef&method=track.scrobble\
         &format=json&api_key=key&sk=sess&api_sig=cdea634e7fd025d08c62a520f9f3e76d"
    );
}
