//! Which packaged asset a request path names.

use vstd::prelude::*;

verus! {

/// The asset named by a request path: the entry page for the root, else the
/// path without its leading character.
pub open spec fn asset_path(path: Seq<char>) -> Seq<char> {
    if path.len() == 0 || path == "/"@ {
        "index.html"@
    } else {
        path.drop_first()
    }
}

/// The packaged web interface.
pub struct StaticFileService;

impl StaticFileService {
    /// The asset that `path` names; unknown assets fall back to the entry
    /// page when served.
    pub fn file_path(path: &str) -> (r: &str)
        ensures
            r@ == asset_path(path@),
    {
        proof {
            reveal_strlit("/");
        }
        let n = path.unicode_len();
        if n == 0 || (n == 1 && path.get_char(0) == '/') {
            assert(n == 1 ==> path@ =~= "/"@);
            "index.html"
        } else {
            assert(path@ != "/"@);
            path.substring_char(1, n)
        }
    }

    /// The entry page, served for the root and for unknown assets.
    pub fn entry_page() -> (r: &'static str)
        ensures
            r@ == "index.html"@,
    {
        "index.html"
    }
}

} // verus!
