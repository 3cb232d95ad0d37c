//! Where each page lives in the embedded view, and the script that sends the
//! view there.
use vstd::prelude::*;
use crate::navigation::Page;

verus! {

/// The longest current URL, in characters, that navigation accepts.
pub const MAX_URL_CHARS: usize = 0x0800_0000;

/// Whether the URL parser accepts `s` as an absolute URL.
pub uninterp spec fn url_parses(s: Seq<char>) -> bool;

/// The serialization of the URL parsed from `s` once its path is set to `path`.
pub uninterp spec fn url_with_path(s: Seq<char>, path: Seq<char>) -> Seq<char>;

/// Relies on `url::Url::parse`, which fails exactly on what is not an
/// absolute URL, and on `url::Url::set_path`, whose serialization is handed
/// back through `From<Url> for String`. `set_path` panics only when the
/// serialization outgrows `u32`, which the bounds on the inputs rule out.
#[verifier::external_body]
fn replace_url_path(current: &str, path: &str) -> (r: Option<String>)
    requires
        current@.len() <= MAX_URL_CHARS,
        path@.len() <= 64,
    ensures
        r is Some <==> url_parses(current@),
        r matches Some(u) ==> u@ == url_with_path(current@, path@),
{
    match url::Url::parse(current) {
        Ok(mut u) => {
            u.set_path(path);
            Some(String::from(u))
        },
        Err(_) => None,
    }
}

/// The path of each page in the embedded view.
pub open spec fn page_path(page: Page) -> Seq<char> {
    match page {
        Page::Main => "/"@,
        Page::Settings => "/settings"@,
    }
}

/// The path of `page`.
pub fn path_of(page: Page) -> (r: String)
    ensures
        r@ == page_path(page),
{
    match page {
        Page::Main => String::from_str("/"),
        Page::Settings => String::from_str("/settings"),
    }
}

/// The URL of `page`, on the origin of the view's current URL; `None` when
/// the current URL does not parse.
pub fn page_url(current: &str, page: Page) -> (r: Option<String>)
    requires
        current@.len() <= MAX_URL_CHARS,
    ensures
        r is Some <==> url_parses(current@),
        r matches Some(u) ==> u@ == url_with_path(current@, page_path(page)),
{
    let path = path_of(page);
    proof {
        reveal_strlit("/");
        reveal_strlit("/settings");
    }
    replace_url_path(current, path.as_str())
}

/// The script that makes the view load `url`.
pub open spec fn location_script(url: Seq<char>) -> Seq<char> {
    "window.location.href = '"@ + url + "';"@
}

/// The script that sends the view to `page`; `None` when the current URL
/// does not parse, in which case the navigation is abandoned.
pub fn navigation_script(current: &str, page: Page) -> (r: Option<String>)
    requires
        current@.len() <= MAX_URL_CHARS,
    ensures
        r is Some <==> url_parses(current@),
        r matches Some(t) ==> t@ == location_script(url_with_path(current@, page_path(page))),
{
    match page_url(current, page) {
        Some(u) => {
            let mut t = String::from_str("window.location.href = '");
            t.append(u.as_str());
            t.append("';");
            Some(t)
        },
        None => None,
    }
}

} // verus!
