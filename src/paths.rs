use vstd::prelude::*;
use vstd::string::StrSliceExecFns;
use vstd::string::StringExecFns;

verus! {

/// Path separator.
pub const SEPARATOR: char = '/';

/// What is written between a directory path and a child name: nothing after
/// an empty path or one that already ends in a separator, else a separator.
pub open spec fn join_prefix(dir: Seq<char>) -> Seq<char> {
    if dir.len() == 0 || dir.last() == SEPARATOR {
        dir
    } else {
        dir.push(SEPARATOR)
    }
}

/// The path of the child `name` of the directory `dir`.
pub open spec fn join_spec(dir: Seq<char>, name: Seq<char>) -> Seq<char> {
    join_prefix(dir) + name
}

/// Two children of one directory have the same path only if they have the
/// same name.
pub proof fn lemma_join_injective(dir: Seq<char>, a: Seq<char>, b: Seq<char>)
    ensures
        join_spec(dir, a) == join_spec(dir, b) <==> a == b,
{
    let p = join_prefix(dir);
    if join_spec(dir, a) == join_spec(dir, b) {
        assert(a =~= join_spec(dir, a).subrange(p.len() as int, join_spec(dir, a).len() as int));
        assert(b =~= join_spec(dir, b).subrange(p.len() as int, join_spec(dir, b).len() as int));
    }
}

/// The path of the child `name` of the directory `dir`, for a `name` that is a
/// single relative component.
pub fn join_path(dir: &str, name: &str) -> (r: String)
    ensures
        r@ == join_spec(dir@, name@),
{
    let n = dir.unicode_len();
    let mut r = String::from_str(dir);
    if n > 0 && dir.get_char(n - 1) != SEPARATOR {
        r.append("/");
        proof {
            reveal_strlit("/");
        }
    }
    r.append(name);
    r
}

/// `name` is a single normal path component: not empty, without a
/// separator, and neither `.` nor `..`.
pub open spec fn plain_name(name: Seq<char>) -> bool {
    &&& name.len() > 0
    &&& !name.contains(SEPARATOR)
    &&& name != seq!['.']
    &&& name != seq!['.', '.']
}

/// `r` is the file name `name` wherever `path` is a directory joined with
/// the plain name `name`.
pub open spec fn names_joined_child(path: Seq<char>, r: Option<String>) -> bool {
    forall|dir: Seq<char>, name: Seq<char>|
        plain_name(name) && path == #[trigger] join_spec(dir, name) ==> (r matches Some(n)
            && n@ == name)
}

/// The final component of `path`, as std's `Path::file_name` gives it.
pub uninterp spec fn file_name_of(path: Seq<char>) -> Option<Seq<char>>;

/// Relies on std's `Path::file_name`: the final component of the path, or
/// `None` where the path has none (it ends in `..`, or is a root or empty).
/// On a Unix target, a path that ends in a normal component after a `/` (or
/// consists of it) has that component as its file name.
#[verifier::external_body]
pub(crate) fn path_file_name(path: &str) -> (r: Option<String>)
    ensures
        r is Some <==> file_name_of(path@) is Some,
        r matches Some(n) ==> n@ == file_name_of(path@)->0,
        names_joined_child(path@, r),
{
    match std::path::Path::new(path).file_name() {
        Some(n) => Some(n.to_string_lossy().into_owned()),
        None => None,
    }
}

} // verus!
