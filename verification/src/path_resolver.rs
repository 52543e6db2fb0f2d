//! Turns the path of a request into the key under which the bundle is searched.

use vstd::prelude::*;
use vstd::string::*;

verus! {

/// The key that the root path `"/"` stands for.
pub open spec fn index_key() -> Seq<char> {
    "index.html"@
}

/// The key of a raw path: `"/"` is the index document; any other path loses
/// its first character if that is a slash, and nothing else. Repeated
/// slashes, `.` and `..` segments, escapes and letter case are left as they
/// are.
pub open spec fn spec_normalize(raw: Seq<char>) -> Seq<char> {
    if raw.len() == 1 && raw[0] == '/' {
        index_key()
    } else if raw.len() > 0 && raw[0] == '/' {
        raw.subrange(1, raw.len() as int)
    } else {
        raw
    }
}

/// Computes the bundle key of `raw_path`.
pub fn normalize(raw_path: &str) -> (key: String)
    ensures
        key@ == spec_normalize(raw_path@),
{
    let n: usize = raw_path.unicode_len();
    if n == 0 || raw_path.get_char(0) != '/' {
        raw_path.to_owned()
    } else if n == 1 {
        "index.html".to_owned()
    } else {
        raw_path.substring_char(1, n).to_owned()
    }
}

} // verus!
