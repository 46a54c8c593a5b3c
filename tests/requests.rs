use chrono::NaiveDate;
use url::Url;
use wordpress::api::{
    resolve_error_shape, resolve_success, RequestError, Resolution, WordpressError,
    WordpressErrorData,
};
use wordpress::data::{Category, Post, Tag};
use wordpress::Wordpress;

fn site() -> Wordpress {
    Wordpress::new(Url::parse("https://example.com/blog/").unwrap()).unwrap()
}

fn ids_key() -> String {
    format!("{}{}", "inc", "lude")
}

fn pairs(ps: &Vec<(String, String)>) -> Vec<(&str, &str)> {
    ps.iter().map(|(k, v)| (k.as_str(), v.as_str())).collect()
}

#[test]
fn new_keeps_location() {
    let w = site();
    assert_eq!(w.location().as_str(), "https://example.com/blog/");
}

#[test]
fn collection_targets() {
    let w = site();
    assert_eq!(w.list_posts().target.as_str(), "https://example.com/blog/wp-json/wp/v2/posts");
    assert_eq!(w.list_tags().target.as_str(), "https://example.com/blog/wp-json/wp/v2/tags");
    assert_eq!(
        w.list_categories().target.as_str(),
        "https://example.com/blog/wp-json/wp/v2/categories"
    );
    assert!(w.list_posts().query.as_pairs().is_empty());
}

#[test]
fn include_ids_encodes_with_commas() {
    let r = site().list_posts().include_ids([1usize, 2, 3]);
    let key = ids_key();
    assert_eq!(pairs(r.query.as_pairs()), vec![(key.as_str(), "1,2,3")]);
    assert_eq!(r.query.effective(&key).map(|s| s.as_str()), Some("1,2,3"));
}

#[test]
fn include_ids_from_vec() {
    let r = site().list_categories().include_ids(vec![1usize, 2, 3]);
    let key = ids_key();
    assert_eq!(pairs(r.query.as_pairs()), vec![(key.as_str(), "1,2,3")]);
}

#[test]
fn include_single_id() {
    let id: usize = 4;
    let r = site().list_tags().include_ids(&id);
    let key = ids_key();
    assert_eq!(pairs(r.query.as_pairs()), vec![(key.as_str(), "4")]);
}

#[test]
fn repeated_page_keeps_both_and_last_wins() {
    let r = site().list_posts().page(1).page(2);
    assert_eq!(pairs(r.query.as_pairs()), vec![("page", "1"), ("page", "2")]);
    assert_eq!(r.query.effective("page").map(|s| s.as_str()), Some("2"));
    assert_eq!(r.query.effective("per_page"), None);
}

#[test]
fn post_arguments_in_call_order() {
    let when = NaiveDate::from_ymd_opt(2020, 1, 2).unwrap().and_hms_opt(3, 4, 5).unwrap();
    let r = site()
        .list_posts()
        .per_page(10)
        .search("rust")
        .after(when)
        .sticky(true)
        .slug(["a", "b"])
        .categories(vec![7usize, 8])
        .tags_exclude(9usize)
        .offset(0);
    assert_eq!(
        pairs(r.query.as_pairs()),
        vec![
            ("per_page", "10"),
            ("search", "rust"),
            ("after", "2020-01-02T03:04:05Z"),
            ("sticky", "true"),
            ("slug", "a,b"),
            ("categories", "7,8"),
            ("tags_exclude", "9"),
            ("offset", "0"),
        ]
    );
}

#[test]
fn before_with_fraction_of_second() {
    let when = NaiveDate::from_ymd_opt(2021, 12, 31)
        .unwrap()
        .and_hms_milli_opt(23, 59, 58, 250)
        .unwrap();
    let r = site().list_posts().before(when);
    assert_eq!(pairs(r.query.as_pairs()), vec![("before", "2021-12-31T23:59:58.250Z")]);
}

#[test]
fn taxonomy_arguments() {
    let r = site()
        .list_categories()
        .hide_empty(false)
        .post(12)
        .exclude(vec![1usize, 2])
        .search(String::from("news"))
        .slug("misc");
    assert_eq!(
        pairs(r.query.as_pairs()),
        vec![
            ("hide_empty", "false"),
            ("post", "12"),
            ("exclude", "1,2"),
            ("search", "news"),
            ("slug", "misc"),
        ]
    );
    let t = site().list_tags().page(3).per_page(100);
    assert_eq!(pairs(t.query.as_pairs()), vec![("page", "3"), ("per_page", "100")]);
}

#[test]
fn success_shape_resolves_without_error_check() {
    let posts: Vec<Post> = Vec::new();
    match resolve_success(Some(posts)) {
        Resolution::Resolved(Ok(v)) => assert!(v.is_empty()),
        _ => panic!("expected the success value"),
    }
    let tags: Vec<Tag> = Vec::new();
    assert!(matches!(resolve_success(Some(tags)), Resolution::Resolved(Ok(_))));
}

#[test]
fn error_shape_resolves_to_server_error() {
    let e = WordpressError {
        code: String::from("rest_post_invalid_id"),
        message: String::from("Invalid post ID."),
        data: WordpressErrorData { status: 404 },
    };
    assert!(matches!(resolve_success::<Vec<Post>>(None), Resolution::CheckErrorShape));
    match resolve_error_shape::<Vec<Post>>(Some(e)) {
        Err(RequestError::WordpressError { source }) => {
            assert_eq!(source.code, "rest_post_invalid_id");
            assert_eq!(source.message, "Invalid post ID.");
            assert_eq!(source.data.status, 404);
            assert_eq!(source.to_string(), "Invalid post ID.");
        }
        _ => panic!("expected a server-reported error"),
    }
}

#[test]
fn neither_shape_is_unparsable() {
    assert!(matches!(resolve_success::<Vec<Category>>(None), Resolution::CheckErrorShape));
    assert!(matches!(
        resolve_error_shape::<Vec<Category>>(None),
        Err(RequestError::UnparsabeJsonError)
    ));
}
