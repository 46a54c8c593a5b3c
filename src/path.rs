use vstd::prelude::*;

use url::Url;

verus! {

#[verifier::external_type_specification]
#[verifier::external_body]
pub struct ExUrl(Url);

/// The path component of a URL, as `Url::path` gives it.
pub uninterp spec fn url_path(u: Url) -> Seq<char>;

/// The URL `u` once `Url::set_path` has given it the path `p`.
pub uninterp spec fn url_with_path(u: Url, p: Seq<char>) -> Url;

/// The scheme of a URL, as `Url::scheme` gives it.
pub uninterp spec fn url_scheme(u: Url) -> Seq<char>;

/// The user name of a URL, as `Url::username` gives it.
pub uninterp spec fn url_username(u: Url) -> Seq<char>;

/// The password of a URL, as `Url::password` gives it.
pub uninterp spec fn url_password(u: Url) -> Option<Seq<char>>;

/// The host of a URL, as `Url::host_str` gives it.
pub uninterp spec fn url_host(u: Url) -> Option<Seq<char>>;

/// The port of a URL, as `Url::port` gives it.
pub uninterp spec fn url_port(u: Url) -> Option<u16>;

/// The query of a URL, as `Url::query` gives it.
pub uninterp spec fn url_query(u: Url) -> Option<Seq<char>>;

/// The fragment of a URL, as `Url::fragment` gives it.
pub uninterp spec fn url_fragment(u: Url) -> Option<Seq<char>>;

/// Whether `a` and `b` agree in everything but their paths.
pub open spec fn same_but_path(a: Url, b: Url) -> bool {
    &&& url_scheme(a) == url_scheme(b)
    &&& url_username(a) == url_username(b)
    &&& url_password(a) == url_password(b)
    &&& url_host(a) == url_host(b)
    &&& url_port(a) == url_port(b)
    &&& url_query(a) == url_query(b)
    &&& url_fragment(a) == url_fragment(b)
}

/// The views of an optional text.
pub open spec fn opt_view(o: Option<String>) -> Option<Seq<char>> {
    match o {
        Some(t) => Some(t@),
        None => None,
    }
}

/// Relies on `Url::scheme`: it reads the scheme of the URL.
#[verifier::external_body]
fn scheme_of(u: &Url) -> (r: String)
    ensures
        r@ == url_scheme(*u),
{
    u.scheme().to_string()
}

/// Relies on `Url::username`: it reads the user name of the URL.
#[verifier::external_body]
fn username_of(u: &Url) -> (r: String)
    ensures
        r@ == url_username(*u),
{
    u.username().to_string()
}

/// Relies on `Url::password`: it reads the password of the URL, if any.
#[verifier::external_body]
fn password_of(u: &Url) -> (r: Option<String>)
    ensures
        opt_view(r) == url_password(*u),
{
    u.password().map(|t| t.to_string())
}

/// Relies on `Url::host_str`: it reads the host of the URL, if any.
#[verifier::external_body]
fn host_of(u: &Url) -> (r: Option<String>)
    ensures
        opt_view(r) == url_host(*u),
{
    u.host_str().map(|t| t.to_string())
}

/// Relies on `Url::port`: it reads the explicit port of the URL, if any.
#[verifier::external_body]
fn port_of(u: &Url) -> (r: Option<u16>)
    ensures
        r == url_port(*u),
{
    u.port()
}

/// Relies on `Url::query`: it reads the query of the URL, if any.
#[verifier::external_body]
fn query_of(u: &Url) -> (r: Option<String>)
    ensures
        opt_view(r) == url_query(*u),
{
    u.query().map(|t| t.to_string())
}

/// Relies on `Url::fragment`: it reads the fragment of the URL, if any.
#[verifier::external_body]
fn fragment_of(u: &Url) -> (r: Option<String>)
    ensures
        opt_view(r) == url_fragment(*u),
{
    u.fragment().map(|t| t.to_string())
}

/// The components of a URL other than its path.
#[derive(Clone, Debug, PartialEq, Eq)]
pub struct UrlParts {
    pub scheme: String,
    pub username: String,
    pub password: Option<String>,
    pub host: Option<String>,
    pub port: Option<u16>,
    pub query: Option<String>,
    pub fragment: Option<String>,
}

impl UrlParts {
    /// Whether these are the components of `u`.
    pub open spec fn of_url(self, u: Url) -> bool {
        &&& self.scheme@ == url_scheme(u)
        &&& self.username@ == url_username(u)
        &&& opt_view(self.password) == url_password(u)
        &&& opt_view(self.host) == url_host(u)
        &&& self.port == url_port(u)
        &&& opt_view(self.query) == url_query(u)
        &&& opt_view(self.fragment) == url_fragment(u)
    }

    /// Reads the components of `u` other than its path.
    pub fn of(u: &Url) -> (r: UrlParts)
        ensures
            r.of_url(*u),
    {
        UrlParts {
            scheme: scheme_of(u),
            username: username_of(u),
            password: password_of(u),
            host: host_of(u),
            port: port_of(u),
            query: query_of(u),
            fragment: fragment_of(u),
        }
    }
}

/// Relies on url's derived `Clone` for `Url`: the copy is the same URL.
pub assume_specification[ <Url as Clone>::clone ](u: &Url) -> (r: Url)
    ensures
        r == *u,
;

/// Relies on `Url::path`: it reads the path component of the URL.
#[verifier::external_body]
fn path_of(u: &Url) -> (r: String)
    ensures
        r@ == url_path(*u),
{
    u.path().to_string()
}

/// Relies on `Url::set_path`: it replaces the path and keeps the scheme,
/// host, port, query and fragment.
#[verifier::external_body]
fn set_path(u: &mut Url, p: &str)
    ensures
        *final(u) == url_with_path(*old(u), p@),
        url_scheme(*final(u)) == url_scheme(*old(u)),
        url_username(*final(u)) == url_username(*old(u)),
        url_password(*final(u)) == url_password(*old(u)),
        url_host(*final(u)) == url_host(*old(u)),
        url_port(*final(u)) == url_port(*old(u)),
        url_query(*final(u)) == url_query(*old(u)),
        url_fragment(*final(u)) == url_fragment(*old(u)),
{
    u.set_path(p)
}

/// `base` followed by `rel` with exactly one slash where they meet: one is
/// put in when neither brings it, and the leading slash of `rel` is
/// dropped when both do.
pub open spec fn joined_path(base: Seq<char>, rel: Seq<char>) -> Seq<char> {
    let base_slash = base.len() > 0 && base.last() == '/';
    let rel_slash = rel.len() > 0 && rel[0] == '/';
    if base_slash && rel_slash {
        base + rel.drop_first()
    } else if base_slash || rel_slash {
        base + rel
    } else {
        base + seq!['/'] + rel
    }
}

/// Joins a relative path onto a base path.
pub fn join_path(base: &str, rel: &str) -> (r: String)
    ensures
        r@ == joined_path(base@, rel@),
{
    let ends = base.unicode_len() > 0 && base.get_char(base.unicode_len() - 1) == '/';
    let starts = rel.unicode_len() > 0 && rel.get_char(0) == '/';
    let mut r = String::from_str(base);
    if ends && starts {
        r.append(rel.substring_char(1, rel.unicode_len()));
        assert(rel@.subrange(1, rel@.len() as int) == rel@.drop_first());
    } else {
        if !(ends || starts) {
            proof {
                reveal_strlit("/");
                assert("/"@ =~= seq!['/']);
            }
            r.append("/");
        }
        r.append(rel);
    }
    r
}

/// The URL `url` with `path` joined onto its path; everything else about the
/// URL is kept.
pub fn graft_path(url: &Url, path: &str) -> (r: Url)
    ensures
        r == url_with_path(*url, joined_path(url_path(*url), path@)),
        same_but_path(r, *url),
{
    let base = path_of(url);
    let joined = join_path(base.as_str(), path);
    let mut r = url.clone();
    set_path(&mut r, joined.as_str());
    r
}

/// The components read from a URL are those of any URL that differs from it
/// only in its path, such as the result of `graft_path`.
pub proof fn parts_survive_new_path(p: UrlParts, a: Url, b: Url)
    requires
        p.of_url(a),
        same_but_path(a, b),
    ensures
        p.of_url(b),
{
}

/// A slash between two path pieces is written once, whichever side brings
/// it: a base with a trailing slash, a relative path with a leading slash,
/// both, or neither, all give `base/rel`.
pub proof fn one_separator(base: Seq<char>, rel: Seq<char>)
    requires
        base.len() == 0 || base.last() != '/',
        rel.len() == 0 || rel[0] != '/',
    ensures
        joined_path(base.push('/'), rel) == base + seq!['/'] + rel,
        joined_path(base, seq!['/'] + rel) == base + seq!['/'] + rel,
        joined_path(base.push('/'), seq!['/'] + rel) == base + seq!['/'] + rel,
        joined_path(base, rel) == base + seq!['/'] + rel,
{
    assert(base.push('/') == base + seq!['/']);
    assert((seq!['/'] + rel)[0] == '/');
    assert((seq!['/'] + rel).drop_first() == rel);
    assert(base + (seq!['/'] + rel) == base + seq!['/'] + rel);
}

} // verus!
