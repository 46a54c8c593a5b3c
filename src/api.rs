use vstd::prelude::*;

use chrono::NaiveDateTime;
use reqwest::Client;
use url::Url;

use crate::comsep::{comma_join, ComSep};
use crate::path::{graft_path, joined_path, url_path, url_with_path};
use crate::query::QueryArgs;
use crate::text::{bool_text, decimal, decimal_text, flag_text};
use crate::time::{utc_rfc3339_of, utc_rfc3339_text};

verus! {

#[verifier::external_type_specification]
#[verifier::external_body]
pub struct ExClient(Client);

#[verifier::external_type_specification]
#[verifier::external_body]
pub struct ExReqwestError(reqwest::Error);

/// Relies on reqwest's derived `Clone` for `Client`: the copy shares the
/// same connection pool and configuration.
pub assume_specification[ <Client as Clone>::clone ](c: &Client) -> (r: Client);

/// Relies on reqwest's `ClientBuilder`: a client that sends `agent` as its
/// `User-Agent`, or the error that `build` reports.
#[verifier::external_body]
fn client_with_agent(agent: &str) -> (r: Result<Client, reqwest::Error>) {
    Client::builder().user_agent(agent).build()
}

/// The `User-Agent` that every request of this library carries.
pub const USER_AGENT: &'static str = "wordpress/0.1.0";

/// The path of the categories collection, relative to an install's root.
pub const CATEGORIES_PATH: &'static str = "wp-json/wp/v2/categories";

/// The path of the posts collection, relative to an install's root.
pub const POSTS_PATH: &'static str = "wp-json/wp/v2/posts";

/// The path of the tags collection, relative to an install's root.
pub const TAGS_PATH: &'static str = "wp-json/wp/v2/tags";

/// The key of the argument that lists the ids of the items to return.
pub open spec fn ids_key() -> Seq<char> {
    seq!['i', 'n', 'c', 'l', 'u', 'd', 'e']
}

fn ids_key_text() -> (r: String)
    ensures
        r@ == ids_key(),
{
    proof {
        reveal_strlit("inc");
        reveal_strlit("lude");
    }
    let mut r = String::from_str("inc");
    r.append("lude");
    assert(r@ =~= ids_key());
    r
}

/// The URL of the collection at `rel` under the install at `location`.
pub open spec fn collection_url(location: Url, rel: Seq<char>) -> Url {
    url_with_path(location, joined_path(url_path(location), rel))
}

/// An interface to a WordPress install.
pub struct Wordpress {
    client: Client,
    location: Url,
}

impl Wordpress {
    /// The base URL of the install.
    pub closed spec fn spec_location(&self) -> Url {
        self.location
    }

    /// Creates an interface to the install at `location`; fails only where
    /// the HTTP client cannot be built.
    pub fn new(location: Url) -> (r: Result<Wordpress, RequestError>)
        ensures
            match r {
                Ok(w) => w.spec_location() == location,
                Err(e) => e is HttpError,
            },
    {
        match client_with_agent(USER_AGENT) {
            Ok(client) => Ok(Wordpress { client, location }),
            Err(source) => Err(RequestError::HttpError { source }),
        }
    }

    /// The base URL of the install.
    pub fn location(&self) -> (r: &Url)
        ensures
            *r == self.spec_location(),
    {
        &self.location
    }

    /// Retrieve a list of category objects.
    pub fn list_categories(&self) -> (r: ListCategoriesRequest)
        ensures
            r.target == collection_url(self.spec_location(), CATEGORIES_PATH@),
            r.query@ == Seq::<(Seq<char>, Seq<char>)>::empty(),
    {
        let target = graft_path(&self.location, CATEGORIES_PATH);
        ListCategoriesRequest { client: self.client.clone(), target, query: QueryArgs::new() }
    }

    /// Retrieve a list of post objects.
    pub fn list_posts(&self) -> (r: ListPostsRequest)
        ensures
            r.target == collection_url(self.spec_location(), POSTS_PATH@),
            r.query@ == Seq::<(Seq<char>, Seq<char>)>::empty(),
    {
        let target = graft_path(&self.location, POSTS_PATH);
        ListPostsRequest { client: self.client.clone(), target, query: QueryArgs::new() }
    }

    /// Retrieve a list of tag objects.
    pub fn list_tags(&self) -> (r: ListTagsRequest)
        ensures
            r.target == collection_url(self.spec_location(), TAGS_PATH@),
            r.query@ == Seq::<(Seq<char>, Seq<char>)>::empty(),
    {
        let target = graft_path(&self.location, TAGS_PATH);
        ListTagsRequest { client: self.client.clone(), target, query: QueryArgs::new() }
    }
}

/// Error potentially returned by WordPress instead of the expected content.
#[derive(Clone, Debug, PartialEq, Eq)]
pub struct WordpressError {
    pub code: String,
    pub message: String,
    pub data: WordpressErrorData,
}

impl WordpressError {
    /// The message for people that the server sent.
    pub fn to_string(&self) -> (r: String)
        ensures
            r@ == self.message@,
    {
        self.message.clone()
    }
}

/// The `data` object of an error response.
#[derive(Clone, Debug, PartialEq, Eq)]
pub struct WordpressErrorData {
    pub status: usize,
}

/// Potential errors when executing a generated request.
#[derive(Debug)]
pub enum RequestError {
    /// Failed to retrieve a response from the server.
    HttpError { source: reqwest::Error },
    /// Response did not contain valid JSON data.
    JsonError { source: reqwest::Error },
    /// Received an error response from the server.
    WordpressError { source: WordpressError },
    /// Received valid JSON representing neither the requested data nor a valid error.
    UnparsabeJsonError,
}

/// What to do with a response body once it was read as the expected
/// success shape.
pub enum Resolution<T> {
    /// The outcome is known.
    Resolved(Result<T, RequestError>),
    /// The body is not of the success shape: read it as an error record.
    CheckErrorShape,
}

/// First step of resolving a response: `parsed` is the body read as the
/// expected success shape, if it has that shape. A success-shaped body is
/// the result, and the error shape is then never looked at.
pub fn resolve_success<T>(parsed: Option<T>) -> (r: Resolution<T>)
    ensures
        match parsed {
            Some(v) => r == Resolution::<T>::Resolved(Ok(v)),
            None => r is CheckErrorShape,
        },
{
    match parsed {
        Some(v) => Resolution::Resolved(Ok(v)),
        None => Resolution::CheckErrorShape,
    }
}

/// Second step of resolving a response whose body is not of the success
/// shape: `parsed` is the body read as an error record, if it has that
/// shape. A body of neither shape is unparsable.
pub fn resolve_error_shape<T>(parsed: Option<WordpressError>) -> (r: Result<T, RequestError>)
    ensures
        match parsed {
            Some(e) => r == Err::<T, RequestError>(RequestError::WordpressError { source: e }),
            None => r == Err::<T, RequestError>(RequestError::UnparsabeJsonError),
        },
{
    match parsed {
        Some(e) => Err(RequestError::WordpressError { source: e }),
        None => Err(RequestError::UnparsabeJsonError),
    }
}

/// A request for a list of category objects.
///
/// Each setter appends one `key=value` pair to the query; setting a key
/// again appends another pair rather than replacing the first.
pub struct ListCategoriesRequest {
    pub client: Client,
    pub target: Url,
    pub query: QueryArgs,
}

impl ListCategoriesRequest {
    /// Sets the `page` argument: the page of the collection to return.
    pub fn page(self, page: usize) -> (r: ListCategoriesRequest)
        ensures
            r.client == self.client,
            r.target == self.target,
            r.query@ == self.query@.push(("page"@, decimal(page as nat))),
    {
        ListCategoriesRequest {
            client: self.client,
            target: self.target,
            query: self.query.with("page", decimal_text(page)),
        }
    }

    /// Sets the `per_page` argument: the largest number of items to return.
    pub fn per_page(self, per_page: usize) -> (r: ListCategoriesRequest)
        ensures
            r.client == self.client,
            r.target == self.target,
            r.query@ == self.query@.push(("per_page"@, decimal(per_page as nat))),
    {
        ListCategoriesRequest {
            client: self.client,
            target: self.target,
            query: self.query.with("per_page", decimal_text(per_page)),
        }
    }

    /// Sets the `search` argument: a text that the items must match.
    pub fn search(self, search: String) -> (r: ListCategoriesRequest)
        ensures
            r.client == self.client,
            r.target == self.target,
            r.query@ == self.query@.push(("search"@, search@)),
    {
        ListCategoriesRequest {
            client: self.client,
            target: self.target,
            query: self.query.with("search", search),
        }
    }

    /// Sets the `exclude` argument: the ids of items to leave out.
    pub fn exclude<C: ComSep<usize>>(self, exclude: C) -> (r: ListCategoriesRequest)
        ensures
            r.client == self.client,
            r.target == self.target,
            r.query@ == self.query@.push(("exclude"@, comma_join(exclude.cs_parts()))),
    {
        ListCategoriesRequest {
            client: self.client,
            target: self.target,
            query: self.query.with("exclude", exclude.to_cs_string()),
        }
    }

    /// Sets the argument that lists the ids of the items to return.
    pub fn include_ids<C: ComSep<usize>>(self, ids: C) -> (r: ListCategoriesRequest)
        ensures
            r.client == self.client,
            r.target == self.target,
            r.query@ == self.query@.push((ids_key(), comma_join(ids.cs_parts()))),
    {
        let key = ids_key_text();
        ListCategoriesRequest {
            client: self.client,
            target: self.target,
            query: self.query.with(key.as_str(), ids.to_cs_string()),
        }
    }

    /// Sets the `offset` argument: how many items to skip.
    pub fn offset(self, offset: usize) -> (r: ListCategoriesRequest)
        ensures
            r.client == self.client,
            r.target == self.target,
            r.query@ == self.query@.push(("offset"@, decimal(offset as nat))),
    {
        ListCategoriesRequest {
            client: self.client,
            target: self.target,
            query: self.query.with("offset", decimal_text(offset)),
        }
    }

    /// Sets the `hide_empty` argument: whether items that no post uses are left out.
    pub fn hide_empty(self, hide_empty: bool) -> (r: ListCategoriesRequest)
        ensures
            r.client == self.client,
            r.target == self.target,
            r.query@ == self.query@.push(("hide_empty"@, bool_text(hide_empty))),
    {
        ListCategoriesRequest {
            client: self.client,
            target: self.target,
            query: self.query.with("hide_empty", flag_text(hide_empty)),
        }
    }

    /// Sets the `post` argument: the post whose terms are returned.
    pub fn post(self, post: usize) -> (r: ListCategoriesRequest)
        ensures
            r.client == self.client,
            r.target == self.target,
            r.query@ == self.query@.push(("post"@, decimal(post as nat))),
    {
        ListCategoriesRequest {
            client: self.client,
            target: self.target,
            query: self.query.with("post", decimal_text(post)),
        }
    }

    /// Sets the `slug` argument: the slugs of the items to return.
    pub fn slug<'a, C: ComSep<&'a str>>(self, slug: C) -> (r: ListCategoriesRequest)
        ensures
            r.client == self.client,
            r.target == self.target,
            r.query@ == self.query@.push(("slug"@, comma_join(slug.cs_parts()))),
    {
        ListCategoriesRequest {
            client: self.client,
            target: self.target,
            query: self.query.with("slug", slug.to_cs_string()),
        }
    }
}

/// A request for a list of post objects.
///
/// Each setter appends one `key=value` pair to the query; setting a key
/// again appends another pair rather than replacing the first.
pub struct ListPostsRequest {
    pub client: Client,
    pub target: Url,
    pub query: QueryArgs,
}

impl ListPostsRequest {
    /// Sets the `page` argument: the page of the collection to return.
    pub fn page(self, page: usize) -> (r: ListPostsRequest)
        ensures
            r.client == self.client,
            r.target == self.target,
            r.query@ == self.query@.push(("page"@, decimal(page as nat))),
    {
        ListPostsRequest {
            client: self.client,
            target: self.target,
            query: self.query.with("page", decimal_text(page)),
        }
    }

    /// Sets the `per_page` argument: the largest number of items to return.
    pub fn per_page(self, per_page: usize) -> (r: ListPostsRequest)
        ensures
            r.client == self.client,
            r.target == self.target,
            r.query@ == self.query@.push(("per_page"@, decimal(per_page as nat))),
    {
        ListPostsRequest {
            client: self.client,
            target: self.target,
            query: self.query.with("per_page", decimal_text(per_page)),
        }
    }

    /// Sets the `search` argument: a text that the items must match.
    pub fn search(self, search: &str) -> (r: ListPostsRequest)
        ensures
            r.client == self.client,
            r.target == self.target,
            r.query@ == self.query@.push(("search"@, search@)),
    {
        ListPostsRequest {
            client: self.client,
            target: self.target,
            query: self.query.with("search", String::from_str(search)),
        }
    }

    /// Sets the `after` argument: that only items published after this UTC time are returned.
    pub fn after(self, after: NaiveDateTime) -> (r: ListPostsRequest)
        ensures
            r.client == self.client,
            r.target == self.target,
            r.query@ == self.query@.push(("after"@, utc_rfc3339_of(after))),
    {
        ListPostsRequest {
            client: self.client,
            target: self.target,
            query: self.query.with("after", utc_rfc3339_text(&after)),
        }
    }

    /// Sets the `author` argument: the authors whose items are returned.
    pub fn author<C: ComSep<usize>>(self, author: C) -> (r: ListPostsRequest)
        ensures
            r.client == self.client,
            r.target == self.target,
            r.query@ == self.query@.push(("author"@, comma_join(author.cs_parts()))),
    {
        ListPostsRequest {
            client: self.client,
            target: self.target,
            query: self.query.with("author", author.to_cs_string()),
        }
    }

    /// Sets the `author_exclude` argument: the authors whose items are left out.
    pub fn author_exclude<C: ComSep<usize>>(self, author_exclude: C) -> (r: ListPostsRequest)
        ensures
            r.client == self.client,
            r.target == self.target,
            r.query@ == self.query@.push(("author_exclude"@, comma_join(author_exclude.cs_parts()))),
    {
        ListPostsRequest {
            client: self.client,
            target: self.target,
            query: self.query.with("author_exclude", author_exclude.to_cs_string()),
        }
    }

    /// Sets the `before` argument: that only items published before this UTC time are returned.
    pub fn before(self, before: NaiveDateTime) -> (r: ListPostsRequest)
        ensures
            r.client == self.client,
            r.target == self.target,
            r.query@ == self.query@.push(("before"@, utc_rfc3339_of(before))),
    {
        ListPostsRequest {
            client: self.client,
            target: self.target,
            query: self.query.with("before", utc_rfc3339_text(&before)),
        }
    }

    /// Sets the `exclude` argument: the ids of items to leave out.
    pub fn exclude<C: ComSep<usize>>(self, exclude: C) -> (r: ListPostsRequest)
        ensures
            r.client == self.client,
            r.target == self.target,
            r.query@ == self.query@.push(("exclude"@, comma_join(exclude.cs_parts()))),
    {
        ListPostsRequest {
            client: self.client,
            target: self.target,
            query: self.query.with("exclude", exclude.to_cs_string()),
        }
    }

    /// Sets the argument that lists the ids of the items to return.
    pub fn include_ids<C: ComSep<usize>>(self, ids: C) -> (r: ListPostsRequest)
        ensures
            r.client == self.client,
            r.target == self.target,
            r.query@ == self.query@.push((ids_key(), comma_join(ids.cs_parts()))),
    {
        let key = ids_key_text();
        ListPostsRequest {
            client: self.client,
            target: self.target,
            query: self.query.with(key.as_str(), ids.to_cs_string()),
        }
    }

    /// Sets the `offset` argument: how many items to skip.
    pub fn offset(self, offset: usize) -> (r: ListPostsRequest)
        ensures
            r.client == self.client,
            r.target == self.target,
            r.query@ == self.query@.push(("offset"@, decimal(offset as nat))),
    {
        ListPostsRequest {
            client: self.client,
            target: self.target,
            query: self.query.with("offset", decimal_text(offset)),
        }
    }

    /// Sets the `slug` argument: the slugs of the items to return.
    pub fn slug<'a, C: ComSep<&'a str>>(self, slug: C) -> (r: ListPostsRequest)
        ensures
            r.client == self.client,
            r.target == self.target,
            r.query@ == self.query@.push(("slug"@, comma_join(slug.cs_parts()))),
    {
        ListPostsRequest {
            client: self.client,
            target: self.target,
            query: self.query.with("slug", slug.to_cs_string()),
        }
    }

    /// Sets the `categories` argument: the categories whose posts are returned.
    pub fn categories<C: ComSep<usize>>(self, categories: C) -> (r: ListPostsRequest)
        ensures
            r.client == self.client,
            r.target == self.target,
            r.query@ == self.query@.push(("categories"@, comma_join(categories.cs_parts()))),
    {
        ListPostsRequest {
            client: self.client,
            target: self.target,
            query: self.query.with("categories", categories.to_cs_string()),
        }
    }

    /// Sets the `categories_exclude` argument: the categories whose posts are left out.
    pub fn categories_exclude<C: ComSep<usize>>(self, categories_exclude: C) -> (r: ListPostsRequest)
        ensures
            r.client == self.client,
            r.target == self.target,
            r.query@ == self.query@.push(("categories_exclude"@, comma_join(categories_exclude.cs_parts()))),
    {
        ListPostsRequest {
            client: self.client,
            target: self.target,
            query: self.query.with("categories_exclude", categories_exclude.to_cs_string()),
        }
    }

    /// Sets the `tags` argument: the tags whose posts are returned.
    pub fn tags<C: ComSep<usize>>(self, tags: C) -> (r: ListPostsRequest)
        ensures
            r.client == self.client,
            r.target == self.target,
            r.query@ == self.query@.push(("tags"@, comma_join(tags.cs_parts()))),
    {
        ListPostsRequest {
            client: self.client,
            target: self.target,
            query: self.query.with("tags", tags.to_cs_string()),
        }
    }

    /// Sets the `tags_exclude` argument: the tags whose posts are left out.
    pub fn tags_exclude<C: ComSep<usize>>(self, tags_exclude: C) -> (r: ListPostsRequest)
        ensures
            r.client == self.client,
            r.target == self.target,
            r.query@ == self.query@.push(("tags_exclude"@, comma_join(tags_exclude.cs_parts()))),
    {
        ListPostsRequest {
            client: self.client,
            target: self.target,
            query: self.query.with("tags_exclude", tags_exclude.to_cs_string()),
        }
    }

    /// Sets the `sticky` argument: whether only sticky posts, or only others, are returned.
    pub fn sticky(self, sticky: bool) -> (r: ListPostsRequest)
        ensures
            r.client == self.client,
            r.target == self.target,
            r.query@ == self.query@.push(("sticky"@, bool_text(sticky))),
    {
        ListPostsRequest {
            client: self.client,
            target: self.target,
            query: self.query.with("sticky", flag_text(sticky)),
        }
    }
}

/// A request for a list of tag objects.
///
/// Each setter appends one `key=value` pair to the query; setting a key
/// again appends another pair rather than replacing the first.
pub struct ListTagsRequest {
    pub client: Client,
    pub target: Url,
    pub query: QueryArgs,
}

impl ListTagsRequest {
    /// Sets the `page` argument: the page of the collection to return.
    pub fn page(self, page: usize) -> (r: ListTagsRequest)
        ensures
            r.client == self.client,
            r.target == self.target,
            r.query@ == self.query@.push(("page"@, decimal(page as nat))),
    {
        ListTagsRequest {
            client: self.client,
            target: self.target,
            query: self.query.with("page", decimal_text(page)),
        }
    }

    /// Sets the `per_page` argument: the largest number of items to return.
    pub fn per_page(self, per_page: usize) -> (r: ListTagsRequest)
        ensures
            r.client == self.client,
            r.target == self.target,
            r.query@ == self.query@.push(("per_page"@, decimal(per_page as nat))),
    {
        ListTagsRequest {
            client: self.client,
            target: self.target,
            query: self.query.with("per_page", decimal_text(per_page)),
        }
    }

    /// Sets the `search` argument: a text that the items must match.
    pub fn search(self, search: String) -> (r: ListTagsRequest)
        ensures
            r.client == self.client,
            r.target == self.target,
            r.query@ == self.query@.push(("search"@, search@)),
    {
        ListTagsRequest {
            client: self.client,
            target: self.target,
            query: self.query.with("search", search),
        }
    }

    /// Sets the `exclude` argument: the ids of items to leave out.
    pub fn exclude<C: ComSep<usize>>(self, exclude: C) -> (r: ListTagsRequest)
        ensures
            r.client == self.client,
            r.target == self.target,
            r.query@ == self.query@.push(("exclude"@, comma_join(exclude.cs_parts()))),
    {
        ListTagsRequest {
            client: self.client,
            target: self.target,
            query: self.query.with("exclude", exclude.to_cs_string()),
        }
    }

    /// Sets the argument that lists the ids of the items to return.
    pub fn include_ids<C: ComSep<usize>>(self, ids: C) -> (r: ListTagsRequest)
        ensures
            r.client == self.client,
            r.target == self.target,
            r.query@ == self.query@.push((ids_key(), comma_join(ids.cs_parts()))),
    {
        let key = ids_key_text();
        ListTagsRequest {
            client: self.client,
            target: self.target,
            query: self.query.with(key.as_str(), ids.to_cs_string()),
        }
    }

    /// Sets the `offset` argument: how many items to skip.
    pub fn offset(self, offset: usize) -> (r: ListTagsRequest)
        ensures
            r.client == self.client,
            r.target == self.target,
            r.query@ == self.query@.push(("offset"@, decimal(offset as nat))),
    {
        ListTagsRequest {
            client: self.client,
            target: self.target,
            query: self.query.with("offset", decimal_text(offset)),
        }
    }

    /// Sets the `hide_empty` argument: whether items that no post uses are left out.
    pub fn hide_empty(self, hide_empty: bool) -> (r: ListTagsRequest)
        ensures
            r.client == self.client,
            r.target == self.target,
            r.query@ == self.query@.push(("hide_empty"@, bool_text(hide_empty))),
    {
        ListTagsRequest {
            client: self.client,
            target: self.target,
            query: self.query.with("hide_empty", flag_text(hide_empty)),
        }
    }

    /// Sets the `post` argument: the post whose terms are returned.
    pub fn post(self, post: usize) -> (r: ListTagsRequest)
        ensures
            r.client == self.client,
            r.target == self.target,
            r.query@ == self.query@.push(("post"@, decimal(post as nat))),
    {
        ListTagsRequest {
            client: self.client,
            target: self.target,
            query: self.query.with("post", decimal_text(post)),
        }
    }

    /// Sets the `slug` argument: the slugs of the items to return.
    pub fn slug<'a, C: ComSep<&'a str>>(self, slug: C) -> (r: ListTagsRequest)
        ensures
            r.client == self.client,
            r.target == self.target,
            r.query@ == self.query@.push(("slug"@, comma_join(slug.cs_parts()))),
    {
        ListTagsRequest {
            client: self.client,
            target: self.target,
            query: self.query.with("slug", slug.to_cs_string()),
        }
    }
}

} // verus!
