use vstd::prelude::*;
use vstd::string::{StrSliceExecFns, StringExecFns};

verus! {

/// Prefix of the URI handed to the platform launcher to open a vault.
pub const OPEN_URI_PREFIX: &'static str = "obsidian://open?path=";

/// `dir` joined with `name` by a `/` separator, as a Unix path join does:
/// an absolute `name` replaces `dir`, and no separator is doubled.
pub open spec fn path_join(dir: Seq<char>, name: Seq<char>) -> Seq<char> {
    if name.len() > 0 && name[0] == '/' {
        name
    } else if dir.len() == 0 || dir.last() == '/' {
        dir + name
    } else {
        dir + seq!['/'] + name
    }
}

/// What one character of a path becomes in the launch URI.
pub open spec fn encode_char(c: char) -> Seq<char> {
    if c == ' ' {
        seq!['%', '2', '0']
    } else {
        seq![c]
    }
}

/// `s` with every space written as `%20` and every other character kept.
pub open spec fn encode_spaces(s: Seq<char>) -> Seq<char>
    decreases s.len(),
{
    if s.len() == 0 {
        Seq::empty()
    } else {
        encode_spaces(s.drop_last()) + encode_char(s.last())
    }
}

/// Joins `name` onto the directory path `dir`.
pub fn join_path(dir: &String, name: &str) -> (r: String)
    ensures
        r@ == path_join(dir@, name@),
{
    let name_len = name.unicode_len();
    if name_len > 0 && name.get_char(0) == '/' {
        return String::from_str(name);
    }
    let dir_len = dir.as_str().unicode_len();
    let mut r = dir.clone();
    if dir_len > 0 && dir.as_str().get_char(dir_len - 1) != '/' {
        proof {
            reveal_strlit("/");
        }
        r.append("/");
    }
    r.append(name);
    proof {
        if dir@.len() > 0 {
            assert(dir@.last() == dir@[dir_len - 1]);
        }
    }
    r
}

/// The URI that opens the vault at `path`: the prefix, then the path with
/// each space written as `%20`. No other character is escaped.
pub fn open_uri(path: &String) -> (r: String)
    ensures
        r@ == OPEN_URI_PREFIX@ + encode_spaces(path@),
{
    let mut r = String::from_str(OPEN_URI_PREFIX);
    let s = path.as_str();
    let n = s.unicode_len();
    let mut i: usize = 0;
    while i < n
        invariant
            n == s@.len(),
            s@ == path@,
            i <= n,
            r@ == OPEN_URI_PREFIX@ + encode_spaces(s@.subrange(0, i as int)),
        decreases n - i,
    {
        let c = s.get_char(i);
        let piece = s.substring_char(i, i + 1);
        proof {
            reveal_strlit("%20");
            assert(s@.subrange(0, i + 1).drop_last() =~= s@.subrange(0, i as int));
            assert(piece@ =~= seq![c]);
        }
        if c == ' ' {
            r.append("%20");
        } else {
            r.append(piece);
        }
        proof {
            assert(r@ =~= OPEN_URI_PREFIX@ + encode_spaces(s@.subrange(0, i + 1)));
        }
        i = i + 1;
    }
    proof {
        assert(s@.subrange(0, n as int) =~= s@);
    }
    r
}

} // verus!
