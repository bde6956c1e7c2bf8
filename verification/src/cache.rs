//! Caching of fetched catalog documents: how a URL turns into the name
//! of its cache file.  The cache directory itself, and the reading,
//! fetching and writing of cache files, live with the driver.

use vstd::prelude::*;

use crate::strutil::spec_join;
use crate::strutil::spec_split;
use crate::strutil::spec_trim_end_matches;
use crate::strutil::spec_trim_start_matches;
use crate::strutil::spec_trim_ws_end;
use crate::strutil::join;
use crate::strutil::split_char;
use crate::strutil::trim_end_matches;
use crate::strutil::trim_start_matches;
use crate::strutil::trim_ws_end;

verus! {

/// What a URL's cache file is called: the scheme and any trailing
/// whitespace and slashes removed, and every remaining slash replaced
/// by a double underscore — double, so that URLs whose names use single
/// underscores cannot collide.
pub open spec fn spec_cache_file_name(url: Seq<char>) -> Seq<char> {
    spec_join(
        spec_split(
            spec_trim_end_matches(
                spec_trim_ws_end(spec_trim_start_matches(url, "https://"@)),
                "/"@,
            ),
            '/',
        ),
        "__"@,
    )
}

/// The cache file name of a catalog URL, to be joined below the cache
/// directory by the caller.
pub fn normalize_cache_url(url: &str) -> (r: String)
    ensures
        r@ == spec_cache_file_name(url@),
{
    let bare = trim_start_matches(url, "https://");
    let bare = trim_ws_end(bare);
    let bare = trim_end_matches(bare, "/");
    let parts = split_char(bare, '/');
    let r = join(&parts, "__");
    proof {
        assert(parts@.map(|i: int, p: String| p@) =~~= spec_split(bare@, '/'));
    }
    r
}

} // verus!
