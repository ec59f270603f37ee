use wiki::get_search_url;
use wiki::query::{ENDPOINT, MAX_TITLE_BYTES, TOO_LONG};
use wiki::Error;

fn pairs_of(title: &str) -> Vec<(String, String)> {
    let url = get_search_url(title).unwrap();
    url.query_pairs().into_owned().collect()
}

fn pair(name: &str, value: &str) -> (String, String) {
    (String::from(name), String::from(value))
}

#[test]
fn search_url_is_the_endpoint_with_five_parameters() {
    let url = get_search_url("Rust").unwrap();
    assert_eq!(
        url.as_str(),
        "https://en.wikipedia.org/w/api.php?action=query&format=json&formatversion=2&prop=extracts&titles=Rust"
    );
}

#[test]
fn search_url_starts_with_the_endpoint() {
    let url = get_search_url("anything").unwrap();
    assert_eq!(ENDPOINT, "https://en.wikipedia.org/w/api.php");
    assert_eq!(url.scheme(), "https");
    assert_eq!(url.host_str(), Some("en.wikipedia.org"));
    assert_eq!(url.path(), "/w/api.php");
    assert_eq!(url.fragment(), None);
}

#[test]
fn search_url_holds_the_parameters_in_order() {
    assert_eq!(
        pairs_of("Rust"),
        vec![
            pair("action", "query"),
            pair("format", "json"),
            pair("formatversion", "2"),
            pair("prop", "extracts"),
            pair("titles", "Rust"),
        ]
    );
}

#[test]
fn search_url_encodes_spaces_and_reserved_characters() {
    let url = get_search_url("Rust (programming language)").unwrap();
    assert_eq!(
        url.query(),
        Some("action=query&format=json&formatversion=2&prop=extracts&titles=Rust+%28programming+language%29")
    );
    let url = get_search_url("a&b=c#d?e/f+g%20").unwrap();
    assert_eq!(
        url.query(),
        Some("action=query&format=json&formatversion=2&prop=extracts&titles=a%26b%3Dc%23d%3Fe%2Ff%2Bg%2520")
    );
}

#[test]
fn search_url_encodes_text_outside_ascii() {
    let url = get_search_url("\u{c9}t\u{e9}").unwrap();
    assert_eq!(
        url.query(),
        Some("action=query&format=json&formatversion=2&prop=extracts&titles=%C3%89t%C3%A9")
    );
}

#[test]
fn title_comes_back_from_the_url_as_it_went_in() {
    let titles = [
        "Rust",
        "Rust (programming language)",
        "a&b=c",
        "titles=x&action=delete",
        "100% + 1",
        "%41",
        " leading and trailing ",
        "tab\there\nnewline",
        "\u{c9}t\u{e9} \u{4e2d}\u{6587} \u{1f980}",
        "#fragment?query",
        "~*-._",
    ];
    for title in titles.iter() {
        let pairs = pairs_of(title);
        assert_eq!(pairs.len(), 5);
        assert_eq!(pairs[4], pair("titles", title));
    }
}

#[test]
fn search_url_is_built_for_an_empty_title_too() {
    let url = get_search_url("").unwrap();
    assert_eq!(
        url.as_str(),
        "https://en.wikipedia.org/w/api.php?action=query&format=json&formatversion=2&prop=extracts&titles="
    );
    assert_eq!(pairs_of("")[4], pair("titles", ""));
}

#[test]
fn search_url_is_built_anew_each_time() {
    let first = get_search_url("One").unwrap();
    let second = get_search_url("Two").unwrap();
    assert_eq!(get_search_url("One").unwrap(), first);
    assert_ne!(first, second);
    assert_eq!(second.query_pairs().count(), 5);
}

#[test]
fn title_past_the_limit_gives_no_url() {
    let title = "a".repeat(MAX_TITLE_BYTES + 1);
    assert_eq!(get_search_url(&title), Err(Error::Url(String::from(TOO_LONG))));
}

#[test]
fn limits_leave_room_within_four_gigabytes() {
    assert_eq!(MAX_TITLE_BYTES, 1 << 30);
    assert_eq!(wiki::query::MAX_ENDPOINT_BYTES, 1 << 28);
    let most = wiki::query::MAX_ENDPOINT_BYTES as u64 + 3 * MAX_TITLE_BYTES as u64 + 200;
    assert!(most <= u32::MAX as u64);
}
