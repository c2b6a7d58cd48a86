use crate::error::DemoUpError;
use vstd::prelude::*;
use vstd::string::*;

verus! {

/// The path of the URL that `uri` parses to; `None` where it does not parse.
pub uninterp spec fn parsed_url_path(uri: Seq<char>) -> Option<Seq<char>>;

/// Relies on `reqwest::Url::parse` (the `url` crate's parser) and on
/// `Url::path`, which gives the parsed URL's path: the outcome depends on
/// `uri` alone.
#[verifier::external_body]
fn url_path(uri: &str) -> (r: Option<String>)
    ensures
        r.deep_view() == parsed_url_path(uri@),
{
    reqwest::Url::parse(uri).ok().map(|url| url.path().to_string())
}

/// The characters after the last `/`; all of them where there is none.
pub open spec fn trailing_segment(s: Seq<char>) -> Seq<char>
    decreases s.len(),
{
    if s.len() == 0 || s.last() == '/' {
        Seq::empty()
    } else {
        trailing_segment(s.drop_last()).push(s.last())
    }
}

/// The last of the `/`-separated segments of a URL path; a path that does not
/// start with `/` (a URL that cannot be a base) has no segments.
pub open spec fn last_path_segment(path: Seq<char>) -> Option<Seq<char>> {
    if path.len() > 0 && path[0] == '/' {
        Some(trailing_segment(path))
    } else {
        None
    }
}

/// The name to store a download under: the given name where there is one,
/// else the last segment of the URL's path (empty where it has none).
pub open spec fn file_name_for(path: Seq<char>, file_name: Seq<char>) -> Seq<char> {
    if file_name.len() > 0 {
        file_name
    } else {
        match last_path_segment(path) {
            Some(segment) => segment,
            None => Seq::empty(),
        }
    }
}

/// The name to store a download under, from the path of its parsed URL: the
/// given `filename` where it is not empty, else the path's last segment.
pub fn filename_from_path(path: &str, filename: &str) -> (r: String)
    ensures
        r@ == file_name_for(path@, filename@),
{
    if !filename.is_empty() {
        return String::from_str(filename);
    }
    let n = path.unicode_len();
    if n == 0 || path.get_char(0) != '/' {
        return String::new();
    }
    let mut start = n;
    proof {
        assert(path@.take(n as int) =~= path@);
        assert(path@.subrange(n as int, n as int) =~= Seq::<char>::empty());
    }
    while start > 0 && path.get_char(start - 1) != '/'
        invariant
            start <= n,
            n == path@.len(),
            trailing_segment(path@) == trailing_segment(path@.take(start as int)) + path@.subrange(
                start as int,
                n as int,
            ),
        decreases start,
    {
        proof {
            let prefix = path@.take(start as int);
            assert(prefix.drop_last() =~= path@.take(start - 1));
            assert(trailing_segment(prefix) == trailing_segment(path@.take(start - 1)).push(
                path@[start - 1],
            ));
            assert(trailing_segment(path@.take(start - 1)).push(path@[start - 1]) + path@.subrange(
                start as int,
                n as int,
            ) =~= trailing_segment(path@.take(start - 1)) + path@.subrange(start - 1, n as int));
        }
        start = start - 1;
    }
    proof {
        assert(trailing_segment(path@.take(start as int)) =~= Seq::<char>::empty());
        assert(path@.take(n as int) =~= path@);
    }
    String::from_str(path.substring_char(start, n))
}

/// The name to store a download from `uri` under: `filename` where it is not
/// empty, else the last segment of the URL's path.
pub fn get_filename(uri: &str, filename: &str) -> (r: Result<String, DemoUpError>)
    ensures
        match parsed_url_path(uri@) {
            Some(path) => r is Ok && r->Ok_0@ == file_name_for(path, filename@),
            None => r == Err::<String, DemoUpError>(DemoUpError::InvalidUrl),
        },
{
    match url_path(uri) {
        Some(path) => Ok(filename_from_path(path.as_str(), filename)),
        None => Err(DemoUpError::InvalidUrl),
    }
}

} // verus!
