use vstd::prelude::*;
use vstd::string::{StrSliceExecFns, StringExecFns};

verus! {

/// The slash-separated path segments of a parseable URL, or `None` where the
/// URL cannot be a base and so has no segmented path.
pub uninterp spec fn url_path_segments_of(url: Seq<char>) -> Option<Seq<Seq<char>>>;

pub open spec fn opt_segments_view(o: Option<Vec<String>>) -> Option<Seq<Seq<char>>> {
    match o {
        Some(v) => Some(v.deep_view()),
        None => None,
    }
}

/// Relies on url::Url::parse and url::Url::path_segments: parses the URL and
/// splits its path into slash-separated segments, of which there is always at
/// least one; a URL that cannot be a base has no such path, and a URL the
/// parser refuses is an error carrying the parser's description.
#[verifier::external_body]
fn parse_path_segments(url: &str) -> (r: Result<Option<Vec<String>>, String>)
    ensures
        r matches Ok(o) ==> opt_segments_view(o) == url_path_segments_of(url@),
        r matches Ok(o) ==> (o matches Some(v) ==> v@.len() >= 1),
{
    match url::Url::parse(url) {
        Ok(u) => Ok(u.path_segments().map(|segs| segs.map(|s| s.to_string()).collect())),
        Err(e) => Err(e.to_string()),
    }
}

/// The index of the rightmost '.' that separates an extension: a dot in
/// first position separates nothing, so 0 means there is none.
pub open spec fn last_dot(s: Seq<char>, upto: int) -> int
    decreases upto,
{
    if upto <= 1 {
        0
    } else if s[upto - 1] == '.' {
        upto - 1
    } else {
        last_dot(s, upto - 1)
    }
}

/// A file name with its last extension removed: what is left of the
/// rightmost dot, except that a lone leading dot marks no extension and the
/// parent-directory name stays itself.
pub open spec fn stem_of(s: Seq<char>) -> Seq<char> {
    if s == ".."@ {
        s
    } else {
        let d = last_dot(s, s.len() as int);
        if d == 0 {
            s
        } else {
            s.subrange(0, d)
        }
    }
}

/// Remove the last extension of a name, as a path's final component loses
/// one when its extension is set to nothing.
pub fn strip_last_extension(name: &String) -> (r: String)
    ensures
        r@ == stem_of(name@),
{
    let n = name.as_str().unicode_len();
    if n == 2 && name.as_str().get_char(0) == '.' && name.as_str().get_char(1) == '.' {
        proof {
            reveal_strlit("..");
            assert(name@ =~= ".."@);
        }
        return name.clone();
    }
    proof {
        reveal_strlit("..");
        assert(name@ != ".."@) by {
            if name@ == ".."@ {
                assert(name@.len() == 2);
                assert(name@[0] == '.' && name@[1] == '.');
            }
        }
    }
    let mut upto: usize = n;
    while upto > 1 && !(name.as_str().get_char(upto - 1) == '.')
        invariant
            upto <= n,
            n == name@.len(),
            last_dot(name@, n as int) == last_dot(name@, upto as int),
        decreases upto,
    {
        upto = upto - 1;
    }
    if upto <= 1 {
        name.clone()
    } else {
        let cut = upto - 1;
        name.as_str().substring_char(0, cut).to_owned()
    }
}

/// The directory a clone lands in: the directory the caller named, or else
/// the last path segment of the URL with its extension removed. A URL
/// without a segmented path, like one that cannot be a base, yields an
/// error, as does one the parser refuses.
pub fn clone_destination(url: &str, directory: &Option<String>) -> (r: Result<String, String>)
    ensures
        directory matches Some(d) ==> (r matches Ok(p) && p@ == d@),
        directory is None ==> (r matches Ok(p) ==> (url_path_segments_of(url@) matches Some(
            segs,
        ) && segs.len() >= 1 && p@ == stem_of(segs.last()))),
        directory is None && url_path_segments_of(url@) is None ==> r is Err,
{
    match directory {
        Some(d) => Ok(d.clone()),
        None => {
            match parse_path_segments(url) {
                Err(e) => Err(e),
                Ok(None) => Err(
                    String::from_str("URL has no path. Can't extract target directory"),
                ),
                Ok(Some(segments)) => {
                    let last = &segments[segments.len() - 1];
                    proof {
                        assert(segments.deep_view().last() == segments@[segments@.len() - 1]@);
                    }
                    Ok(strip_last_extension(last))
                },
            }
        },
    }
}

} // verus!
