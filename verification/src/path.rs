use vstd::prelude::*;
use vstd::string::*;

verus! {

/// The path that joining `name` onto `base` gives on Unix: an absolute `name`
/// replaces `base`; otherwise `name` follows `base`, with one `/` between them
/// unless `base` is empty or already ends in `/`.
pub open spec fn join_spec(base: Seq<char>, name: Seq<char>) -> Seq<char> {
    if name.len() > 0 && name[0] == '/' {
        name
    } else if base.len() == 0 || base.last() == '/' {
        base + name
    } else {
        base + seq!['/'] + name
    }
}

/// Joins `name` onto the path `base`, as a Unix path buffer's `join` does.
pub fn join_path(base: &str, name: &str) -> (joined: String)
    ensures
        joined@ == join_spec(base@, name@),
{
    let name_len = name.unicode_len();
    if name_len > 0 && name.get_char(0) == '/' {
        return name.to_owned();
    }
    let base_len = base.unicode_len();
    let mut joined = base.to_owned();
    if base_len > 0 && base.get_char(base_len - 1) != '/' {
        proof {
            reveal_strlit("/");
        }
        joined.append("/");
    }
    joined.append(name);
    joined
}

} // verus!
