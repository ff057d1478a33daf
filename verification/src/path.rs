//! File system paths as strings, joined the way `PathBuf::join` joins them on Unix.

use vstd::prelude::*;

use crate::text::chars_of;

verus! {

/// `base` joined with `part`: an absolute `part` (starting with `/`) replaces `base`;
/// otherwise `part` is appended, after a `/` unless `base` is empty or already ends
/// with one.
pub open spec fn join_path(base: Seq<char>, part: Seq<char>) -> Seq<char> {
    if part.len() > 0 && part[0] == '/' {
        part
    } else if base.len() == 0 {
        part
    } else if base.last() == '/' {
        base + part
    } else {
        base + seq!['/'] + part
    }
}

/// Joins `part` onto `base`.
pub fn join(base: &str, part: &str) -> (r: String)
    ensures
        r@ == join_path(base@, part@),
{
    let p = chars_of(part);
    if p.len() > 0 && p[0] == '/' {
        return String::from_str(part);
    }
    let b = chars_of(base);
    if b.len() == 0 {
        return String::from_str(part);
    }
    let mut r = String::from_str(base);
    if b[b.len() - 1] != '/' {
        r.append("/");
        proof {
            reveal_strlit("/");
        }
    }
    r.append(part);
    r
}

} // verus!
