use urll::service::fetch::{
    check_url, collect_links, is_http_link, normalized, page_from_body, scrape, FetchError,
};
use urll::text::{join, order_of, starts_with, trim, Order};

fn strings(items: &[&str]) -> Vec<String> {
    items.iter().map(|s| s.to_string()).collect()
}

#[test]
fn page_links_are_resolved_filtered_sorted_and_unique() {
    let body = r#"<html><head><title> Plain title </title></head><body>
        <a href="/z">z</a>
        <a href="c.png">c</a>
        <a href="https://other.test/b">b</a>
        <a href="mailto:someone@example.net">mail</a>
        <a>no target</a>
        <a href="/z">z again</a>
        <a href="//eve.test/b">eve</a>
    </body></html>"#;
    let page = page_from_body("https://example.net/a/b.html", body).expect("a page");
    assert_eq!(
        page.page_urls,
        strings(&[
            "https://eve.test/b",
            "https://example.net/a/c.png",
            "https://example.net/z",
            "https://other.test/b",
        ])
    );
    assert_eq!(page.details.url, "https://example.net/a/b.html");
    assert_eq!(page.details.title, Some("Plain title".to_string()));
    assert_eq!(page.details.description, None);
}

#[test]
fn preview_title_and_description_win_and_are_trimmed() {
    let body = r#"<html><head>
        <title>Plain</title>
        <meta property="og:title" content="  Preview title ">
        <meta property="og:description" content=" A description.  ">
        <meta property="og:description" content="second">
    </head><body></body></html>"#;
    let page = page_from_body("http://example.net/", body).expect("a page");
    assert_eq!(page.details.title, Some("Preview title".to_string()));
    assert_eq!(page.details.description, Some("A description.".to_string()));
    assert!(page.page_urls.is_empty());
}

#[test]
fn first_preview_title_without_content_falls_back_to_title() {
    let body = r#"<html><head>
        <meta property="og:title">
        <meta property="og:title" content="later">
        <title>Fallback</title>
    </head></html>"#;
    let page = page_from_body("http://example.net/", body).expect("a page");
    assert_eq!(page.details.title, Some("Fallback".to_string()));
}

#[test]
fn page_without_title_has_none() {
    let page = page_from_body("http://example.net/", "<p>nothing</p>").expect("a page");
    assert_eq!(page.details.title, None);
    assert_eq!(page.details.description, None);
}

#[test]
fn malformed_page_url_is_refused() {
    let error = page_from_body("not a url", "<a href='/x'>x</a>").expect_err("no page");
    assert!(matches!(error, FetchError::InvalidUrl(_)));
    assert_eq!(error.message(), "relative URL without a base");
    assert!(matches!(check_url("not a url"), Err(FetchError::InvalidUrl(_))));
    assert!(check_url("https://example.net").is_ok());
}

#[test]
fn unresolvable_link_fails_the_page() {
    let body = r#"<a href="/fine">fine</a><a href="https://[bad">bad</a>"#;
    let error = page_from_body("https://example.net/", body).expect_err("no page");
    assert!(matches!(error, FetchError::InvalidLink(_)));
    assert!(!error.message().is_empty());
}

#[test]
fn invalid_selector_has_its_own_message() {
    assert_eq!(FetchError::InvalidSelector.message(), "invalid selector");
}

#[test]
fn scrape_gathers_values_in_document_order() {
    let body = r#"<title>T</title><a href="b">1</a><a>2</a><a href="a">3</a>"#;
    let parts = scrape(body).expect("selectors are taken");
    assert_eq!(parts.hrefs, vec![Some("b".to_string()), None, Some("a".to_string())]);
    assert_eq!(parts.titles, strings(&["T"]));
    assert!(parts.og_titles.is_empty());
    assert!(parts.og_descriptions.is_empty());
}

#[test]
fn collect_links_skips_absent_values_and_other_schemes() {
    let hrefs = vec![
        Some("x".to_string()),
        None,
        Some("ftp://files.test/f".to_string()),
        Some("x".to_string()),
        Some("http://plain.test".to_string()),
    ];
    let links = collect_links("https://example.net/dir/", &hrefs).expect("links");
    assert_eq!(links, strings(&["http://plain.test/", "https://example.net/dir/x"]));
}

#[test]
fn collect_links_fails_on_a_base_that_is_no_url() {
    let hrefs = vec![Some("x".to_string())];
    let error = collect_links("nowhere", &hrefs).expect_err("no links");
    assert!(matches!(error, FetchError::InvalidLink(_)));
    let none: Vec<Option<String>> = vec![None];
    assert_eq!(collect_links("nowhere", &none).expect("nothing to resolve"), strings(&[]));
}

#[test]
fn normalized_sorts_by_bytes_and_drops_repetitions() {
    let links = strings(&["b", "a", "B", "b", "ab", "", "a", "é", "z"]);
    let expected = {
        let mut v = links.clone();
        v.sort();
        v.dedup();
        v
    };
    assert_eq!(normalized(&links), expected);
    assert_eq!(normalized(&links), strings(&["", "B", "a", "ab", "b", "z", "é"]));
    assert_eq!(normalized(&strings(&[])), strings(&[]));
}

#[test]
fn is_http_link_looks_at_the_beginning() {
    assert!(is_http_link("http://a.test"));
    assert!(is_http_link("https://a.test"));
    assert!(is_http_link("https://"));
    assert!(!is_http_link("https:/a.test"));
    assert!(!is_http_link("ftp://a.test"));
    assert!(!is_http_link("mailto:http://a.test"));
    assert!(!is_http_link(""));
}

#[test]
fn order_of_agrees_with_the_standard_order_of_strings() {
    let samples = ["", "a", "ab", "b", "B", "é", "e\u{301}", "\u{10348}", "zz", "a\u{0}"];
    for a in samples {
        for b in samples {
            let expected = match a.cmp(b) {
                std::cmp::Ordering::Less => Order::Before,
                std::cmp::Ordering::Equal => Order::Same,
                std::cmp::Ordering::Greater => Order::After,
            };
            assert_eq!(order_of(a, b), expected, "{:?} against {:?}", a, b);
        }
    }
}

#[test]
fn starts_with_counts_characters() {
    assert!(starts_with("héllo", "hé"));
    assert!(starts_with("héllo", ""));
    assert!(starts_with("", ""));
    assert!(!starts_with("h", "hé"));
    assert!(!starts_with("hello", "hé"));
}

#[test]
fn trim_removes_white_space_at_both_ends_only() {
    assert_eq!(trim("  a b \t\n"), "a b");
    assert_eq!(trim("\u{a0}\u{3000}x\u{2003}"), "x");
    assert_eq!(trim("   "), "");
    assert_eq!(trim(""), "");
    assert_eq!(trim("x"), "x");
    for sample in ["  padded  ", "\u{85}é\u{1680}", "in ner", "\u{200b}zero width\u{200b}"] {
        assert_eq!(trim(sample), sample.trim());
    }
}

#[test]
fn join_puts_the_separator_between_items() {
    assert_eq!(join(&strings(&["a", "b", "c"]), "\n"), "a\nb\nc");
    assert_eq!(join(&strings(&["a"]), "\n"), "a");
    assert_eq!(join(&strings(&[]), "\n"), "");
    assert_eq!(join(&strings(&["", ""]), ", "), ", ");
}
