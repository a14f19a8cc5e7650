//! Paths as text: joining a file name to a directory, and making the result
//! absolute against a working directory.

use vstd::prelude::*;
use vstd::string::StringExecFns;
use path_absolutize::Absolutize;
use crate::text::ends_with;

verus! {

/// `std::io::Error`, the reason why a path could not be made absolute.
#[verifier::external_type_specification]
#[verifier::external_body]
pub struct ExIoError(std::io::Error);

/// The text of `name` in directory `dir`: the two joined by one `/`, which
/// is left out where `dir` is empty or already ends with one.
pub open spec fn joined(dir: Seq<char>, name: Seq<char>) -> Seq<char> {
    if dir.len() == 0 || dir.last() == '/' {
        dir + name
    } else {
        dir + seq!['/'] + name
    }
}

/// A path with every `\\` read as `/`, so that one text stands for it
/// whichever of the two the platform writes between names.
pub open spec fn slashed(path: Seq<char>) -> Seq<char> {
    Seq::new(path.len(), |i: int| if path[i] == '\\' { '/' } else { path[i] })
}

/// Whether a name that is `.` or `..` starts at index `i` of the path.
pub open spec fn dots_at(path: Seq<char>, i: int) -> bool {
    &&& 0 <= i < path.len()
    &&& i == 0 || path[i - 1] == '/'
    &&& path[i] == '.'
    &&& {
        ||| i + 1 == path.len()
        ||| path[i + 1] == '/'
        ||| path[i + 1] == '.' && (i + 2 == path.len() || path[i + 2] == '/')
    }
}

/// A path made of names with one `/` between them, and perhaps one in
/// front: it is not empty, does not end in `/`, holds no `//`, no `\\` and
/// no `:`, and none of its names is `.` or `..`.
pub open spec fn is_plain_path(path: Seq<char>) -> bool {
    &&& path.len() > 0
    &&& path.last() != '/'
    &&& forall|i: int| 0 <= i < path.len() ==> #[trigger] path[i] != '\\' && path[i] != ':'
    &&& forall|i: int| 0 < i < path.len() ==> !(#[trigger] path[i] == '/' && path[i - 1] == '/')
    &&& forall|i: int| !dots_at(path, i)
}

/// A path that ends in a name: it is not empty and its last character is
/// none of `/`, `\\` and `.`, so what stands behind the last separator is a
/// name and neither `.` nor `..`.
pub open spec fn ends_in_name(path: Seq<char>) -> bool {
    path.len() > 0 && path.last() != '/' && path.last() != '\\' && path.last() != '.'
}

/// What `path_absolutize` makes of `path` for a process that works in
/// `working_dir`: the absolute path as text.
pub uninterp spec fn absolute_path(path: Seq<char>, working_dir: Seq<char>) -> Seq<char>;

/// Joins `name` to `dir`.
pub fn join(dir: &str, name: &str) -> (path: String)
    ensures
        path@ == joined(dir@, name@),
{
    let mut path = String::from_str(dir);
    let needs_separator = !dir.is_empty() && !ends_with(dir, "/");
    proof {
        reveal_strlit("/");
        if dir@.len() > 0 {
            assert("/"@.is_suffix_of(dir@) <==> dir@.last() == '/') by {
                let tail = dir@.subrange(dir@.len() - 1, dir@.len() as int);
                assert(tail.len() == 1 && tail[0] == dir@.last());
                assert("/"@ =~= seq!['/']);
                if dir@.last() == '/' {
                    assert(tail =~= seq!['/']);
                }
            }
        }
    }
    if needs_separator {
        path.append("/");
        assert(path@ == dir@ + seq!['/']) by {
            assert("/"@ =~= seq!['/']);
        }
    }
    path.append(name);
    path
}

/// Calls `path_absolutize::Absolutize::absolutize_from` on the path that
/// `path` spells, with `working_dir` as the directory that a relative path
/// starts from, and hands the result back as text: `Ok(None)` where the
/// absolute path is no Unicode text, `Err` where the crate reports an
/// error.
///
/// The crate runs into a panic where nothing is left of the path once `.`
/// and `..` are resolved, which a relative or empty working directory
/// allows. The precondition leaves that out: a path that ends in a name
/// keeps that name.
///
/// On such a path the crate always answers, and with Unicode text, since it
/// puts the answer together from the two texts. The result is a function
/// of the two: the contract names it `absolute_path`. Beside the name it
/// claims one thing that the crate does on every platform: it keeps the
/// names of a plain path, so the path, with `/` between its names, is the
/// end of the absolute path.
#[verifier::external_body]
pub(crate) fn absolutize_from(path: &str, working_dir: &str) -> (absolute: Result<
    Option<String>,
    std::io::Error,
>)
    requires
        ends_in_name(path@),
    ensures
        match absolute {
            Ok(Some(text)) => text@ == absolute_path(path@, working_dir@),
            _ => false,
        },
        absolute matches Ok(Some(text)) ==> (is_plain_path(path@) ==> path@.is_suffix_of(
            slashed(text@),
        )),
{
    let absolute = std::path::Path::new(path).absolutize_from(working_dir)?;
    Ok(absolute.into_owned().into_os_string().into_string().ok())
}

} // verus!
