use vstd::prelude::*;
use vstd::string::*;

verus! {

/// The path that joining `name` onto the directory `base` gives: an absolute
/// `name` replaces `base`, an empty `base` yields `name`, and otherwise a single
/// separator stands between the two.
pub open spec fn joined_path(base: Seq<char>, name: Seq<char>) -> Seq<char> {
    if name.len() > 0 && name[0] == '/' {
        name
    } else if base.len() == 0 {
        name
    } else if base[base.len() - 1] == '/' {
        base + name
    } else {
        base + seq!['/'] + name
    }
}

/// Joins `name` onto the directory `base`.
pub fn join_path(base: &str, name: &str) -> (r: String)
    ensures
        r@ == joined_path(base@, name@),
{
    let name_len = name.unicode_len();
    let base_len = base.unicode_len();
    if name_len > 0 && name.get_char(0) == '/' {
        return String::from_str(name);
    }
    if base_len == 0 {
        return String::from_str(name);
    }
    let mut r = String::from_str(base);
    if base.get_char(base_len - 1) != '/' {
        r.append("/");
        proof {
            reveal_strlit("/");
        }
    }
    r.append(name);
    assert(r@ =~= joined_path(base@, name@));
    r
}

/// The name of the temporary sibling that a file is streamed into before it
/// is renamed to `dest`.
pub open spec fn partial_path(dest: Seq<char>) -> Seq<char> {
    dest + ".downloading"@
}

/// Returns the temporary sibling path of `dest`.
pub fn downloading_path(dest: &str) -> (r: String)
    ensures
        r@ == partial_path(dest@),
{
    let mut r = String::from_str(dest);
    r.append(".downloading");
    r
}

} // verus!
