use pixiv_api::bookmark::{last_bookmark_page, BookMarkArgs, Catagory, Work};
use pixiv_api::cookies::{add_cookie, CookieAction, CookieFailure};
use pixiv_api::envelope::{envelope_body, Root};
use pixiv_api::error::{decode_result, transport_result, ErrType};
use pixiv_api::headers::{api_header_build, download_header_build, DEFAULT_URL};
use pixiv_api::ids::{parse_id, JsonId};
use pixiv_api::illust::{page_download_urls, Illusts};
use pixiv_api::session::SessionConfig;
use pixiv_api::text::{decimal_string, prefix_before_text, replace_text};
use pixiv_api::urls::{ugoira_url_parse, Urls, ILLUST_TYPE_ILLUST, ILLUST_TYPE_MANGA, ILLUST_TYPE_UGOIRA};

fn root_from_text(text: &str) -> Result<Root, serde_json::Error> {
    let v: serde_json::Value = serde_json::from_str(text)?;
    Ok(Root {
        error: v["error"].as_bool().unwrap(),
        message: v["message"].as_str().unwrap().to_string(),
        body: v["body"].clone(),
    })
}

fn header_pairs(h: &[(String, String)]) -> Vec<(&str, &str)> {
    h.iter().map(|(n, v)| (n.as_str(), v.as_str())).collect()
}

fn urls_with_original(original: &str) -> Urls {
    Urls {
        mini: None,
        thumb: Some("t".to_string()),
        thumb_mini: None,
        small: "s".to_string(),
        regular: "r".to_string(),
        original: original.to_string(),
    }
}

#[test]
fn id_from_string_is_verbatim() {
    assert_eq!(parse_id(&JsonId::Text("0123abc".to_string())), "0123abc");
}

#[test]
fn id_from_integer_is_decimal() {
    assert_eq!(parse_id(&JsonId::Integer(98765432)), "98765432");
    assert_eq!(parse_id(&JsonId::Integer(0)), "0");
    assert_eq!(parse_id(&JsonId::Integer(-42)), "-42");
    assert_eq!(parse_id(&JsonId::Integer(u64::MAX as i128)), "18446744073709551615");
    assert_eq!(parse_id(&JsonId::Integer(i128::MIN)), i128::MIN.to_string());
}

#[test]
fn id_of_other_json_is_empty() {
    assert_eq!(parse_id(&JsonId::Other), "");
}

#[test]
fn id_string_and_number_agree() {
    let a = parse_id(&JsonId::Text("12345".to_string()));
    let b = parse_id(&JsonId::Integer(12345));
    assert_eq!(a, b);
}

#[test]
fn work_getters_normalise() {
    let w = Work {
        id: JsonId::Integer(777),
        title: "t".to_string(),
        description: String::new(),
        illust_type: 0,
        tags: vec![],
        user_id: JsonId::Text("42".to_string()),
        user_name: "u".to_string(),
        width: 1,
        height: 1,
        page_count: 1,
        bookmark_data: None,
        create_date: String::new(),
        update_date: String::new(),
        is_unlisted: false,
        is_masked: false,
        ai_type: 0,
    };
    assert_eq!(w.id(), "777");
    assert_eq!(w.user_id(), "42");
}

#[test]
fn envelope_round_trip_yields_body() {
    let body = serde_json::from_str::<serde_json::Value>(r#"{"a":[1,2,{"b":null}],"c":"x"}"#).unwrap();
    let text = format!(r#"{{"error":false,"message":"","body":{}}}"#, body);
    let r = envelope_body(root_from_text(&text));
    assert_eq!(r.unwrap(), body);
}

#[test]
fn envelope_error_yields_api_message() {
    for body in ["{}", "[1,2,3]", "null", r#"{"x":1}"#] {
        let text = format!(r#"{{"error":true,"message":"nope","body":{}}}"#, body);
        match envelope_body(root_from_text(&text)) {
            Err(ErrType::Api(m)) => assert_eq!(m, "nope"),
            other => panic!("unexpected {:?}", other),
        }
    }
}

#[test]
fn envelope_bad_json_is_parser_error() {
    let r = envelope_body(root_from_text("{not json"));
    assert!(matches!(r, Err(ErrType::Parser(_))));
}

#[test]
fn typed_decode_failure_is_parser_error() {
    let r: Result<Vec<Illusts>, ErrType> =
        decode_result(serde_json::from_str::<i64>("\"x\"").map(|_| Vec::new()));
    assert!(matches!(r, Err(ErrType::Parser(_))));
    let ok: Result<i64, ErrType> = decode_result(serde_json::from_str::<i64>("5"));
    assert_eq!(ok.unwrap(), 5);
}

#[test]
fn transport_success_passes_text() {
    let r: Result<String, ErrType> = transport_result(Ok("body".to_string()));
    assert_eq!(r.unwrap(), "body");
}

#[test]
fn error_kind_names() {
    assert_eq!(ErrType::Api("m".to_string()).kind_name(), "API Error");
    assert_eq!(ErrType::Call("m".to_string()).kind_name(), "Call Error");
}

#[test]
fn ugoira_url_with_marker() {
    let r = ugoira_url_parse(&"https://i.pximg.net/img-original/img/2023/01/01/00/00/00/12345_ugoira0.jpg".to_string());
    assert_eq!(r, "https://i.pximg.net/img-zip-ugoira/img/2023/01/01/00/00/00/12345_ugoira1920x1080.zip");
}

#[test]
fn ugoira_url_without_marker() {
    let r = ugoira_url_parse(&"https://i.pximg.net/img-original/abc.jpg".to_string());
    assert_eq!(r, "https://i.pximg.net/img-zip-ugoira/abc.jpg_ugoira1920x1080.zip");
}

#[test]
fn replace_ugoira_url_rewrites_original_only() {
    let mut u = urls_with_original("https://x/img-original/9_ugoira0.jpg");
    u.replace_ugoira_url();
    assert_eq!(u.original, "https://x/img-zip-ugoira/9_ugoira1920x1080.zip");
    assert_eq!(u.small, "s");
    assert_eq!(u.thumb, Some("t".to_string()));
}

#[test]
fn download_url_depends_on_type() {
    let u = urls_with_original("https://x/img-original/9_p0.png");
    assert_eq!(u.resolve_download_url(ILLUST_TYPE_ILLUST), "https://x/img-original/9_p0.png");
    assert_eq!(u.resolve_download_url(ILLUST_TYPE_MANGA), "https://x/img-original/9_p0.png");
    assert_eq!(u.resolve_download_url(ILLUST_TYPE_UGOIRA), "https://x/img-zip-ugoira/9_p0.png_ugoira1920x1080.zip");
}

#[test]
fn page_urls_keep_order() {
    let pages = vec![
        Illusts { urls: urls_with_original("https://x/img-original/1_ugoira0.jpg"), width: 1, height: 1 },
        Illusts { urls: urls_with_original("https://x/img-original/2_ugoira0.jpg"), width: 1, height: 1 },
    ];
    assert_eq!(
        page_download_urls(&pages, ILLUST_TYPE_UGOIRA),
        vec!["https://x/img-zip-ugoira/1_ugoira1920x1080.zip".to_string(), "https://x/img-zip-ugoira/2_ugoira1920x1080.zip".to_string()]
    );
    assert_eq!(
        page_download_urls(&pages, ILLUST_TYPE_MANGA),
        vec!["https://x/img-original/1_ugoira0.jpg".to_string(), "https://x/img-original/2_ugoira0.jpg".to_string()]
    );
}

#[test]
fn text_helpers() {
    assert_eq!(replace_text("aXbXXc", "X", "yy"), "ayybyyyyc");
    assert_eq!(replace_text("aaa", "aa", "b"), "ba");
    assert_eq!(prefix_before_text("one_two_three", "_t"), "one");
    assert_eq!(prefix_before_text("none", "_t"), "none");
    assert_eq!(decimal_string(1000), "1000");
    assert_eq!(decimal_string(-7), "-7");
}

#[test]
fn bookmark_pagination_offsets() {
    let tag = String::new();
    let a1 = BookMarkArgs::for_page(&Catagory::Public, &tag, 1).unwrap();
    assert_eq!(a1.offset, 0);
    assert_eq!(a1.limit, 48);
    assert_eq!(a1.rest, "show");
    let a3 = BookMarkArgs::for_page(&Catagory::Private, &"cat".to_string(), 3).unwrap();
    assert_eq!(a3.offset, 96);
    assert_eq!(a3.rest, "hide");
    assert_eq!(a3.tag, "cat");
}

#[test]
fn bookmark_page_below_one_is_refused() {
    let tag = String::new();
    assert!(matches!(BookMarkArgs::for_page(&Catagory::Public, &tag, 0), Err(ErrType::Call(_))));
    assert!(matches!(BookMarkArgs::for_page(&Catagory::Public, &tag, -5), Err(ErrType::Call(_))));
    let cfg = SessionConfig::new(Some("42".to_string()));
    assert!(matches!(cfg.bookmark_request(&Catagory::Public, &tag, 0), Err(ErrType::Call(_))));
}

#[test]
fn bookmark_args_default() {
    let d = BookMarkArgs::default();
    assert_eq!((d.offset, d.limit, d.rest.as_str(), d.tag.as_str()), (0, 48, "show", ""));
}

#[test]
fn last_page_rounds_up() {
    assert_eq!(last_bookmark_page(0), 0);
    assert_eq!(last_bookmark_page(1), 1);
    assert_eq!(last_bookmark_page(48), 1);
    assert_eq!(last_bookmark_page(49), 2);
}

#[test]
fn bookmark_request_urls() {
    let cfg = SessionConfig::new(Some("42".to_string()));
    let (req, args) = cfg.bookmark_request(&Catagory::Public, &String::new(), 3).unwrap();
    assert_eq!(req.url, "https://www.pixiv.net/ajax/user/42/illusts/bookmarks");
    assert_eq!(args.offset, 96);
    let h = header_pairs(&req.headers);
    assert!(h.contains(&("referer", "https://www.pixiv.net/users/42/bookmarks/artworks?p=3")));
    assert!(h.contains(&("x-user-id", "42")));
}

#[test]
fn bookmark_request_needs_user() {
    let cfg = SessionConfig::new(None);
    assert!(matches!(cfg.bookmark_request(&Catagory::Public, &String::new(), 1), Err(ErrType::Call(_))));
}

#[test]
fn illust_requests() {
    let mut cfg = SessionConfig::new(None);
    let req = cfg.illust_request(&"100".to_string()).unwrap();
    assert_eq!(req.url, "https://www.pixiv.net/ajax/illust/100");
    assert!(header_pairs(&req.headers).contains(&("referer", "https://www.pixiv.net/artworks/100")));
    let pages = cfg.illust_page_request(&"100".to_string()).unwrap();
    assert_eq!(pages.url, "https://www.pixiv.net/ajax/illust/100/pages");
    cfg.require_user_for_illust = true;
    assert!(matches!(cfg.illust_request(&"100".to_string()), Err(ErrType::Call(_))));
    cfg.user_info.user_id = Some("7".to_string());
    assert!(cfg.illust_request(&"100".to_string()).is_ok());
}

#[test]
fn api_headers_without_user() {
    let h = api_header_build(&"https://www.pixiv.net/artworks/1".to_string(), &None);
    assert_eq!(
        header_pairs(&h),
        vec![
            ("authority", "www.pixiv.net"),
            ("accept", "application/json"),
            ("accept-language", "en-US,en;q=0.5"),
            ("referer", "https://www.pixiv.net/artworks/1"),
        ]
    );
}

#[test]
fn api_headers_with_user() {
    let h = api_header_build(&"r".to_string(), &Some("12345".to_string()));
    let pairs = header_pairs(&h);
    assert_eq!(pairs.len(), 5);
    assert_eq!(pairs[4], ("x-user-id", "12345"));
}

#[test]
fn download_headers_use_site_root() {
    let h = download_header_build();
    assert_eq!(
        header_pairs(&h),
        vec![("accept", "*/*"), ("accept-language", "en-US,en;q=0.5"), ("referer", DEFAULT_URL)]
    );
}

#[test]
fn two_cookies_both_kept() {
    let jar = std::sync::Arc::new(reqwest_cookie_store::CookieStoreMutex::default());
    let url = reqwest::Url::parse("https://www.pixiv.net/").unwrap();
    let (a1, c1) = add_cookie(&mut jar.lock().unwrap(), "PHPSESSID=abc; Path=/", &url).unwrap();
    let (a2, c2) = add_cookie(&mut jar.lock().unwrap(), "device_token=def; Path=/", &url).unwrap();
    assert_eq!((a1, a2), (CookieAction::Inserted, CookieAction::Inserted));
    assert_eq!((c1.domain.as_str(), c1.path.as_str(), c1.name.as_str(), c1.value.as_str()), ("www.pixiv.net", "/", "PHPSESSID", "abc"));
    assert_eq!((c2.name.as_str(), c2.value.as_str()), ("device_token", "def"));
    let store = jar.lock().unwrap();
    assert_eq!(store.get("www.pixiv.net", "/", "PHPSESSID").unwrap().value(), "abc");
    assert_eq!(store.get("www.pixiv.net", "/", "device_token").unwrap().value(), "def");
}

#[test]
fn malformed_cookie_is_refused() {
    let mut jar = cookie_store::CookieStore::default();
    let url = reqwest::Url::parse("https://www.pixiv.net/").unwrap();
    let r = add_cookie(&mut jar, "=novalue", &url);
    assert!(matches!(r, Err(CookieFailure::Parse(_))));
    assert_eq!(jar.iter_any().count(), 0);
}

#[test]
fn foreign_domain_cookie_is_refused() {
    let mut jar = cookie_store::CookieStore::default();
    let url = reqwest::Url::parse("https://www.pixiv.net/").unwrap();
    let r = add_cookie(&mut jar, "a=b; Domain=example.com", &url);
    assert!(matches!(r, Err(CookieFailure::Rejected(_))));
    assert_eq!(jar.iter_any().count(), 0);
}

#[test]
fn same_key_cookie_is_replaced() {
    let mut jar = cookie_store::CookieStore::default();
    let url = reqwest::Url::parse("https://www.pixiv.net/").unwrap();
    add_cookie(&mut jar, "a=1; Path=/", &url).unwrap();
    add_cookie(&mut jar, "b=2; Path=/", &url).unwrap();
    let (action, stored) = add_cookie(&mut jar, "a=3; Path=/", &url).unwrap();
    assert_eq!(action, CookieAction::Updated);
    assert_eq!(stored.value, "3");
    assert_eq!(jar.iter_any().count(), 2);
    assert_eq!(jar.get("www.pixiv.net", "/", "a").unwrap().value(), "3");
    assert_eq!(jar.get("www.pixiv.net", "/", "b").unwrap().value(), "2");
}

#[test]
fn blank_or_missing_cookie_names_fail_to_parse() {
    let mut jar = cookie_store::CookieStore::default();
    let url = reqwest::Url::parse("https://www.pixiv.net/").unwrap();
    for bad in ["", "novalue", " =v", "\t = v; Path=/", "a; b=c"] {
        assert!(matches!(add_cookie(&mut jar, bad, &url), Err(CookieFailure::Parse(_))), "{:?}", bad);
    }
    assert_eq!(jar.iter_any().count(), 0);
    assert!(add_cookie(&mut jar, " x =v", &url).is_ok());
}

#[test]
fn header_text_with_control_character_is_refused() {
    let mut cfg = SessionConfig::new(Some("42".to_string()));
    assert!(matches!(cfg.illust_request(&"1\n2".to_string()), Err(ErrType::Call(_))));
    assert!(matches!(cfg.illust_page_request(&"1\u{7f}".to_string()), Err(ErrType::Call(_))));
    assert!(cfg.illust_request(&"1\t\u{e9}".to_string()).is_ok());
    cfg.user_info.user_id = Some("4\r2".to_string());
    assert!(matches!(cfg.illust_page_request(&"1".to_string()), Err(ErrType::Call(_))));
    assert!(matches!(cfg.bookmark_request(&Catagory::Public, &String::new(), 1), Err(ErrType::Call(_))));
}
