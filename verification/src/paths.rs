//! File paths as text.

use vstd::prelude::*;
use vstd::string::*;

use crate::text;

verus! {

/// `name` inside `dir`: a slash stands between them unless `dir` is empty or
/// already ends in one.
pub open spec fn joined(dir: Seq<char>, name: Seq<char>) -> Seq<char> {
    if dir.len() == 0 || dir.last() == '/' {
        dir + name
    } else {
        dir + "/"@ + name
    }
}

/// `name` inside `dir`, for a relative `name`.
pub fn join(dir: &str, name: &str) -> (r: String)
    requires
        name@.len() > 0,
        name@[0] != '/',
    ensures
        r@ == joined(dir@, name@),
{
    let n: usize = dir.unicode_len();
    if n == 0 || dir.get_char(n - 1) == '/' {
        dir.to_owned().concat(name)
    } else {
        dir.to_owned().concat("/").concat(name)
    }
}

/// A joined path is the directory, one slash and the name: none is added where
/// there is one already, or no directory.
pub proof fn one_slash_stands_between(dir: &str, name: &str, r: String)
    requires
        call_ensures(join, (dir, name), r),
    ensures
        dir@.len() == 0 ==> r@ == name@,
        dir@.len() > 0 && dir@.last() == '/' ==> r@ == dir@ + name@,
        dir@.len() > 0 && dir@.last() != '/' ==> r@ == dir@.push('/') + name@,
{
    reveal_strlit("/");
    assert("/"@ =~= seq!['/']);
    assert(dir@ + seq!['/'] =~= dir@.push('/'));
    assert(dir@.len() == 0 ==> dir@ + name@ =~= name@);
}

} // verus!
