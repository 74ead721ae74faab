use wallsearch::category::Category;
use wallsearch::error::WallError;
use wallsearch::reply::read_reply;
use wallsearch::text::parse_decimal;

#[test]
fn reply_with_numeric_page_size() {
    let body = r#"{"data":[{"path":"http://x/1.png","id":"a"},{"path":"http://x/2.jpg"}],
        "meta":{"total":57,"per_page":24,"last_page":3,"current_page":2}}"#;
    let p = read_reply(body, 2).unwrap();
    assert_eq!(p.items, vec!["http://x/1.png".to_string(), "http://x/2.jpg".to_string()]);
    assert_eq!((p.total, p.per_page, p.current_page, p.last_page), (57, 24, 2, 3));
}

#[test]
fn reply_with_text_page_size() {
    let body = r#"{"meta":{"last_page":1,"per_page":"24","total":0},"data":[]}"#;
    let p = read_reply(body, 1).unwrap();
    assert!(p.items.is_empty());
    assert_eq!(p.per_page, 24);
}

#[test]
fn malformed_replies_are_parse_errors() {
    assert_eq!(read_reply("not json", 1), Err(WallError::Parse));
    assert_eq!(read_reply(r#"{"error":"Unauthorized"}"#, 1), Err(WallError::Parse));
    assert_eq!(read_reply(r#"{"data":[{"id":1}],"meta":{"total":1,"per_page":1,"last_page":1}}"#, 1), Err(WallError::Parse));
    assert_eq!(read_reply(r#"{"data":[],"meta":{"total":0,"per_page":"x","last_page":1}}"#, 1), Err(WallError::Parse));
    assert_eq!(read_reply(r#"{"data":[],"meta":{"total":0,"per_page":1}}"#, 1), Err(WallError::Parse));
    assert_eq!(read_reply(r#"{"data":[],"meta":{"total":1.5,"per_page":1,"last_page":1}}"#, 1), Err(WallError::Parse));
}

#[test]
fn decimal_texts() {
    assert_eq!(parse_decimal("24"), Some(24));
    assert_eq!(parse_decimal("0"), Some(0));
    assert_eq!(parse_decimal("9223372036854775807"), Some(i64::MAX));
    assert_eq!(parse_decimal("9223372036854775808"), None);
    assert_eq!(parse_decimal(""), None);
    assert_eq!(parse_decimal("2a"), None);
    assert_eq!(parse_decimal("-1"), None);
}

#[test]
fn category_names() {
    assert_eq!(Category::from_name("anime"), Category::Anime);
    assert_eq!(Category::from_name("a"), Category::Anime);
    assert_eq!(Category::from_name("o"), Category::Other);
    assert_eq!(Category::from_name("oa"), Category::OtherAnime);
    assert_eq!(Category::from_name("nsfw"), Category::AnimeNsfw);
    assert_eq!(Category::from_name("n"), Category::AnimeNsfw);
    assert_eq!(Category::from_name("whatever"), Category::Other);
    assert_eq!(Category::OtherAnime.directory(), "anime_art");
    assert_eq!(Category::AnimeNsfw.label(), "Anime (nsfw)");
    assert_eq!(Category::OtherAnime.fixed_endpoint(), Some("https://pic.re/image?compress=false"));
    assert_eq!(Category::Anime.fixed_endpoint(), None);
}

#[test]
fn search_urls() {
    assert_eq!(
        Category::AnimeNsfw.search_url("cats", 12, "KEY"),
        "https://wallhaven.cc/api/v1/search?sorting=random&resolutions=1920x1080&categories=010&purity=011&q=cats&page=12&apikey=KEY"
    );
    assert_eq!(
        Category::Other.search_url("", 1, "k"),
        "https://wallhaven.cc/api/v1/search?sorting=random&resolutions=1920x1080&categories=100&purity=100&q=&page=1&apikey=k"
    );
}
