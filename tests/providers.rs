use sauce_search::{
    check_with_replies, content_type_is_image, head_request, is_float_text, normalize_link, str_contains, ApiEntry,
    Error, Item, Method, SauceNao, Similarity, Source, Step, Yandex, BASE_URL, SEARCH_URL,
};

const IMAGE_URL: &str = "https://example.org/cat.png";

fn entry(similarity: &str, ext_urls: Option<Vec<&str>>) -> ApiEntry {
    ApiEntry {
        similarity: similarity.to_string(),
        ext_urls: ext_urls.map(|v| v.into_iter().map(|s| s.to_string()).collect()),
    }
}

fn keyed() -> SauceNao {
    let mut s = SauceNao::new();
    s.set_api_key("abc".to_string());
    s
}

const STUB_PAGE: &str = "<html><body><ul class=\"CbirSites-Items\">\
<li><div class=\"CbirSites-ItemInfo\"><a href=\"//example.com/x\">x</a></div></li>\
<li><div class=\"CbirSites-ItemInfo\"><span>no link</span></div></li>\
</ul></body></html>";

#[test]
fn non_image_content_type_stops_every_provider() {
    let sauce = keyed();
    let yandex = Yandex::create(()).unwrap();
    for ct in [Some("text/html".to_string()), Some("application/json".to_string()), None] {
        assert_eq!(sauce.after_head(IMAGE_URL, ct.clone()), Step::Fail(Error::LinkIsNotImage));
        assert_eq!(yandex.after_head(IMAGE_URL, ct), Step::Fail(Error::LinkIsNotImage));
    }
}

#[test]
fn image_content_type_leads_to_search_request() {
    let sauce = keyed();
    match sauce.after_head(IMAGE_URL, Some("image/png".to_string())) {
        Step::Fetch(req) => {
            assert_eq!(req.method, Method::Get);
            assert!(req.url.starts_with("https://saucenao.com/search.php?url="));
        }
        other => panic!("unexpected step {:?}", other),
    }
    match Yandex.after_head(IMAGE_URL, Some("image/jpeg".to_string())) {
        Step::Fetch(req) => assert_eq!(req.url, SEARCH_URL),
        other => panic!("unexpected step {:?}", other),
    }
}

#[test]
fn missing_key_fails_without_request() {
    let sauce = SauceNao::new();
    assert_eq!(sauce.begin(IMAGE_URL), Step::Fail(Error::MissingConfiguration));
    assert_eq!(sauce.build_url(IMAGE_URL), Err(Error::MissingConfiguration));
    let created = SauceNao::create(None).unwrap();
    assert_eq!(created.begin(IMAGE_URL), Step::Fail(Error::MissingConfiguration));
    assert!(SauceNao::default().get_api_key().is_none());
}

#[test]
fn keyed_provider_begins_with_metadata_fetch() {
    let sauce = SauceNao::create(Some("abc".to_string())).unwrap();
    assert_eq!(sauce.get_api_key(), &Some("abc".to_string()));
    assert_eq!(sauce.begin(IMAGE_URL), Step::Fetch(head_request(IMAGE_URL)));
    match Yandex.begin(IMAGE_URL) {
        Step::Fetch(req) => {
            assert_eq!(req.method, Method::Head);
            assert_eq!(req.url, IMAGE_URL);
            assert!(req.query.is_empty() && req.headers.is_empty());
            assert_eq!(req.timeout_secs, None);
        }
        other => panic!("unexpected step {:?}", other),
    }
}

#[test]
fn build_url_fills_template() {
    let sauce = keyed();
    assert_eq!(
        sauce.build_url("https://x.com/a b.png").unwrap(),
        "https://saucenao.com/search.php?url=https%3A%2F%2Fx.com%2Fa%20b.png&api_key=abc"
    );
    assert!(BASE_URL.contains("{url}"));
}

#[test]
fn search_request_pins_parameters() {
    let req = keyed().search_request("https://x.com/a.png").unwrap();
    assert_eq!(
        req.url,
        "https://saucenao.com/search.php?url=https%3A%2F%2Fx.com%2Fa.png&api_key=abc\
&db=999&output_type=2&testmode=1&numres=16"
    );
    assert_eq!(req.headers, vec![("accept-encoding".to_string(), "utf-8".to_string())]);
    assert_eq!(req.timeout_secs, Some(10));
    assert!(SauceNao::new().search_request("x").is_err());
}

#[test]
fn entries_without_links_are_dropped() {
    let entries = vec![entry("92.4", Some(vec!["https://a"])), entry("50.0", None)];
    let out = SauceNao::read_entries(IMAGE_URL, entries).unwrap();
    assert_eq!(out.original_url, IMAGE_URL);
    assert_eq!(
        out.items,
        vec![Item { link: "https://a".to_string(), similarity: Similarity::Reported("92.4".to_string()) }]
    );
    match &out.items[0].similarity {
        Similarity::Reported(s) => assert_eq!(s.parse::<f32>().unwrap(), 92.4f32),
        other => panic!("unexpected similarity {:?}", other),
    }
}

#[test]
fn entry_with_empty_link_list_is_dropped() {
    let entries = vec![entry("10", Some(vec![])), entry("20", Some(vec!["//b.org/p", "https://c"]))];
    let out = keyed().finish(IMAGE_URL, entries).unwrap();
    assert_eq!(out.items.len(), 1);
    assert_eq!(out.items[0].link, "https://b.org/p");
}

#[test]
fn unparseable_similarity_fails_whole_search() {
    let entries = vec![entry("92.4", Some(vec!["https://a"])), entry("N/A", Some(vec!["https://b"]))];
    assert_eq!(SauceNao::read_entries(IMAGE_URL, entries), Err(Error::Decode));
}

#[test]
fn unparseable_similarity_without_link_is_ignored() {
    let entries = vec![entry("N/A", None)];
    let out = SauceNao::read_entries(IMAGE_URL, entries).unwrap();
    assert!(out.items.is_empty());
}

#[test]
fn empty_reply_gives_empty_output() {
    let out = SauceNao::read_entries(IMAGE_URL, Vec::new()).unwrap();
    assert_eq!(out.original_url, IMAGE_URL);
    assert!(out.items.is_empty());
}

#[test]
fn scraped_page_gives_normalised_links() {
    let out = Yandex.finish(IMAGE_URL, STUB_PAGE.to_string()).unwrap();
    assert_eq!(out.original_url, IMAGE_URL);
    assert_eq!(
        out.items,
        vec![Item { link: "https://example.com/x".to_string(), similarity: Similarity::NotReported }]
    );
}

#[test]
fn page_without_results_gives_no_items() {
    let out = Yandex::read_page(IMAGE_URL, "<html><body><p>nothing</p></body></html>").unwrap();
    assert!(out.items.is_empty());
}

#[test]
fn links_become_items_in_order() {
    let links = vec![Some("//example.com/x".to_string()), None, Some("https://y.org".to_string())];
    let out = Yandex::output_from_links(IMAGE_URL, links);
    assert_eq!(out.items.len(), 2);
    assert_eq!(out.items[0].link, "https://example.com/x");
    assert_eq!(out.items[1].link, "https://y.org");
    assert_eq!(out.items[1].similarity, Similarity::NotReported);
    assert_eq!(Yandex::item_from_link(None), None);
}

#[test]
fn original_url_is_kept_verbatim() {
    let odd = "HTTPS://Example.org/a%20b?x=1#frag";
    let out = SauceNao::read_entries(odd, vec![entry("1", Some(vec!["https://a"]))]).unwrap();
    assert_eq!(out.original_url, odd);
    let out = Yandex::read_page(odd, STUB_PAGE).unwrap();
    assert_eq!(out.original_url, odd);
}

#[test]
fn same_reply_gives_same_output() {
    let make = || vec![entry("92.4", Some(vec!["https://a"])), entry("7", Some(vec!["//b"]))];
    let a = SauceNao::read_entries(IMAGE_URL, make()).unwrap();
    let b = SauceNao::read_entries(IMAGE_URL, make()).unwrap();
    assert_eq!(a, b);
    let c = Yandex::read_page(IMAGE_URL, STUB_PAGE).unwrap();
    let d = Yandex::read_page(IMAGE_URL, STUB_PAGE).unwrap();
    assert_eq!(c, d);
}

#[test]
fn float_text_follows_float_grammar() {
    for s in ["92.4", "0", "-1.0", "+3", ".5", "5.", "1e5", "2.5E-3", "inf", "-Infinity", "NaN"] {
        assert!(is_float_text(s), "{}", s);
        assert!(s.parse::<f32>().is_ok(), "{}", s);
    }
    for s in ["N/A", "", ".", "-", "1e", "e5", "1.2.3", " 1", "1 ", "infinit", "nana"] {
        assert!(!is_float_text(s), "{}", s);
        assert!(s.parse::<f32>().is_err(), "{}", s);
    }
}

#[test]
fn text_helpers() {
    assert!(str_contains("image/png", "image"));
    assert!(str_contains("abc", ""));
    assert!(!str_contains("text/html", "image"));
    assert!(!str_contains("ima", "image"));
    assert_eq!(normalize_link("//a.b/c".to_string()), "https://a.b/c");
    assert_eq!(normalize_link("/a".to_string()), "/a");
    assert_eq!(normalize_link("http://a".to_string()), "http://a");
    assert!(content_type_is_image(&Some("image/webp".to_string())));
    assert!(!content_type_is_image(&Some("text/plain".to_string())));
    assert!(!content_type_is_image(&None));
}

#[test]
fn whole_search_on_non_image_issues_only_metadata_fetch() {
    let html = Some("text/html".to_string());
    let (issued, result) = check_with_replies(&keyed(), IMAGE_URL, html.clone(), Vec::new());
    assert_eq!(issued, vec![head_request(IMAGE_URL)]);
    assert_eq!(result, Err(Error::LinkIsNotImage));
    let (issued, result) = check_with_replies(&Yandex, IMAGE_URL, None, STUB_PAGE.to_string());
    assert_eq!(issued.len(), 1);
    assert_eq!(issued[0].method, Method::Head);
    assert_eq!(result, Err(Error::LinkIsNotImage));
}

#[test]
fn whole_search_without_key_issues_nothing() {
    let png = Some("image/png".to_string());
    let entries = vec![entry("92.4", Some(vec!["https://a"]))];
    let (issued, result) = check_with_replies(&SauceNao::new(), IMAGE_URL, png, entries);
    assert!(issued.is_empty());
    assert_eq!(result, Err(Error::MissingConfiguration));
}

#[test]
fn whole_search_on_image_gives_items() {
    let png = Some("image/png".to_string());
    let entries = vec![entry("92.4", Some(vec!["https://a"])), entry("80", None)];
    let (issued, result) = check_with_replies(&keyed(), IMAGE_URL, png.clone(), entries);
    assert_eq!(issued.len(), 2);
    assert_eq!(issued[1].method, Method::Get);
    let out = result.unwrap();
    assert_eq!(out.original_url, IMAGE_URL);
    assert_eq!(out.items.len(), 1);
    let (issued, result) = check_with_replies(&Yandex, IMAGE_URL, png, STUB_PAGE.to_string());
    assert_eq!(issued[1].query[0], ("url".to_string(), IMAGE_URL.to_string()));
    assert_eq!(result.unwrap().items[0].link, "https://example.com/x");
}

#[test]
fn whole_search_twice_gives_same_outcome() {
    let png = Some("image/gif".to_string());
    let make = || vec![entry("92.4", Some(vec!["https://a"])), entry("N/A", None)];
    let first = check_with_replies(&keyed(), IMAGE_URL, png.clone(), make());
    let second = check_with_replies(&keyed(), IMAGE_URL, png.clone(), make());
    assert_eq!(first, second);
    let first = check_with_replies(&Yandex, IMAGE_URL, png.clone(), STUB_PAGE.to_string());
    let second = check_with_replies(&Yandex, IMAGE_URL, png, STUB_PAGE.to_string());
    assert_eq!(first, second);
}

#[test]
fn readiness_decides_first_request() {
    let (issued, _) = check_with_replies(&Yandex::create(()).unwrap(), IMAGE_URL, None, String::new());
    assert_eq!(issued, vec![head_request(IMAGE_URL)]);
    assert_eq!(Yandex::first_step(IMAGE_URL), Step::Fetch(head_request(IMAGE_URL)));
    let (issued, result) = check_with_replies(&SauceNao::new(), IMAGE_URL, None, Vec::new());
    assert!(issued.is_empty());
    assert_eq!(result, Err(Error::MissingConfiguration));
}
