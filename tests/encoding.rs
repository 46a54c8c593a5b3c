use wordpress::comsep::{join_with_commas, ComSep};
use wordpress::path::{graft_path, join_path, UrlParts};
use wordpress::text::{decimal_text, flag_text, same_text};

#[test]
fn single_integer_is_its_own_text() {
    assert_eq!(7usize.to_cs_string(), "7");
    assert_eq!(1234usize.to_cs_string(), "1234");
}

#[test]
fn single_text_is_itself() {
    assert_eq!("hello-world".to_cs_string(), "hello-world");
    let n: usize = 77;
    assert_eq!((&n).to_cs_string(), "77");
}

#[test]
fn integers_are_joined_in_order() {
    assert_eq!(vec![3usize, 1, 2].to_cs_string(), "3,1,2");
    assert_eq!(vec![1usize, 2, 3].to_cs_string(), "1,2,3");
}

#[test]
fn texts_are_joined_in_order() {
    assert_eq!(vec!["b", "a", "c"].to_cs_string(), "b,a,c");
}

#[test]
fn empty_collection_encodes_empty() {
    assert_eq!(Vec::<usize>::new().to_cs_string(), "");
    assert_eq!(Vec::<&str>::new().to_cs_string(), "");
}

#[test]
fn encoding_splits_back() {
    let values = vec![10usize, 0, 987654321, 42];
    let encoded = values.clone().to_cs_string();
    let parts: Vec<String> = encoded.split(',').map(|s| s.to_string()).collect();
    let expected: Vec<String> = values.iter().map(|v| v.to_string()).collect();
    assert_eq!(parts, expected);

    let slugs = vec!["first-post", "second", "x"];
    let encoded = slugs.clone().to_cs_string();
    let parts: Vec<&str> = encoded.split(',').collect();
    assert_eq!(parts, slugs);
}

#[test]
fn join_with_commas_of_owned_texts() {
    let parts = vec![String::from("a"), String::new(), String::from("bc")];
    assert_eq!(join_with_commas(&parts), "a,,bc");
    assert_eq!(join_with_commas(&vec![]), "");
}

#[test]
fn decimal_text_matches_display() {
    for n in [0usize, 5, 9, 10, 99, 100, 101, 65535, usize::MAX] {
        assert_eq!(decimal_text(n), n.to_string());
    }
}

#[test]
fn flag_text_values() {
    assert_eq!(flag_text(true), "true");
    assert_eq!(flag_text(false), "false");
}

#[test]
fn same_text_compares_characters() {
    assert!(same_text("", ""));
    assert!(same_text("héllo", "héllo"));
    assert!(!same_text("hello", "hellO"));
    assert!(!same_text("hello", "hell"));
    assert!(!same_text("", "a"));
}

#[test]
fn path_join_puts_one_slash() {
    assert_eq!(join_path("a/", "b"), "a/b");
    assert_eq!(join_path("a", "/b"), "a/b");
    assert_eq!(join_path("a", "b"), "a/b");
    assert_eq!(join_path("", "b"), "/b");
}

#[test]
fn path_join_drops_second_slash_when_both_sides_bring_one() {
    assert_eq!(join_path("a/", "/b"), "a/b");
    assert_eq!(join_path("/a/", "/b"), "/a/b");
    assert_eq!(join_path("a/", "/"), "a/");
}

#[test]
fn graft_onto_root() {
    let base = url::Url::parse("https://example.com").unwrap();
    let r = graft_path(&base, "wp-json/wp/v2/posts");
    assert_eq!(r.as_str(), "https://example.com/wp-json/wp/v2/posts");
}

#[test]
fn graft_onto_subdirectory() {
    let base = url::Url::parse("https://example.com/blog").unwrap();
    let r = graft_path(&base, "wp-json/wp/v2/tags");
    assert_eq!(r.as_str(), "https://example.com/blog/wp-json/wp/v2/tags");
    let base = url::Url::parse("https://example.com/blog/").unwrap();
    let r = graft_path(&base, "wp-json/wp/v2/tags");
    assert_eq!(r.as_str(), "https://example.com/blog/wp-json/wp/v2/tags");
    let base = url::Url::parse("https://example.com/blog").unwrap();
    let r = graft_path(&base, "/wp-json/wp/v2/tags");
    assert_eq!(r.as_str(), "https://example.com/blog/wp-json/wp/v2/tags");
}

#[test]
fn graft_with_slash_on_both_sides() {
    let base = url::Url::parse("http://h/a/").unwrap();
    let r = graft_path(&base, "/b");
    assert_eq!(r.as_str(), "http://h/a/b");
}

#[test]
fn graft_keeps_port_query_and_fragment() {
    let base = url::Url::parse("http://localhost:8080/site?lang=en#top").unwrap();
    let r = graft_path(&base, "wp-json");
    assert_eq!(r.as_str(), "http://localhost:8080/site/wp-json?lang=en#top");
    assert_eq!(base.as_str(), "http://localhost:8080/site?lang=en#top");

    let base = url::Url::parse("https://user:pw@example.org:8443/x/?q=1#f").unwrap();
    let r = graft_path(&base, "/y");
    assert_eq!(r.path(), "/x/y");
    assert_eq!(UrlParts::of(&r), UrlParts::of(&base));
}

#[test]
fn url_parts_read_each_component() {
    let u = url::Url::parse("https://user:pw@example.org:8443/x/?q=1#f").unwrap();
    let p = UrlParts::of(&u);
    assert_eq!(p.scheme, "https");
    assert_eq!(p.username, "user");
    assert_eq!(p.password.as_deref(), Some("pw"));
    assert_eq!(p.host.as_deref(), Some("example.org"));
    assert_eq!(p.port, Some(8443));
    assert_eq!(p.query.as_deref(), Some("q=1"));
    assert_eq!(p.fragment.as_deref(), Some("f"));

    let bare = UrlParts::of(&url::Url::parse("http://h/").unwrap());
    assert_eq!(bare.username, "");
    assert_eq!(bare.password, None);
    assert_eq!(bare.port, None);
    assert_eq!(bare.query, None);
    assert_eq!(bare.fragment, None);
}

#[test]
fn arrays_are_joined_in_order() {
    assert_eq!([5usize, 40, 300].to_cs_string(), "5,40,300");
    assert_eq!(["x", "y"].to_cs_string(), "x,y");
    let empty: [usize; 0] = [];
    assert_eq!(empty.to_cs_string(), "");
}
