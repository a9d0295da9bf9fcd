use vstd::prelude::*;
use crate::algorithm::Algorithm;
use vstd::string::StringExecFns;

verus! {

/// What `std::path::Path::extension` gives for a path.
pub uninterp spec fn extension_of(path: Seq<char>) -> Option<Seq<char>>;

/// What `std::path::Path::file_name` gives for a path.
pub uninterp spec fn file_name_of(path: Seq<char>) -> Option<Seq<char>>;

/// What `std::path::Path::with_file_name` gives for a path and a new name.
pub uninterp spec fn with_file_name_of(path: Seq<char>, name: Seq<char>) -> Seq<char>;

pub open spec fn opt_view(o: Option<String>) -> Option<Seq<char>> {
    match o {
        Some(s) => Some(s@),
        None => None,
    }
}

/// Relies on `std::path::Path::extension`: the extension of a path's final
/// component. The path is UTF-8, so the conversion back to a string is exact.
#[verifier::external_body]
pub(crate) fn path_extension(path: &str) -> (r: Option<String>)
    ensures
        opt_view(r) == extension_of(path@),
{
    match std::path::Path::new(path).extension() {
        Some(e) => Some(e.to_string_lossy().into_owned()),
        None => None,
    }
}

/// Relies on `std::path::Path::file_name`: the final component of a path,
/// if there is one. The path is UTF-8, so the conversion back is exact.
#[verifier::external_body]
fn path_file_name(path: &str) -> (r: Option<String>)
    ensures
        opt_view(r) == file_name_of(path@),
{
    match std::path::Path::new(path).file_name() {
        Some(n) => Some(n.to_string_lossy().into_owned()),
        None => None,
    }
}

/// Relies on `std::path::Path::with_file_name`: the path with its final
/// component replaced. Both inputs are UTF-8, so the result is too.
#[verifier::external_body]
fn path_with_file_name(path: &str, name: &str) -> (r: String)
    ensures
        r@ == with_file_name_of(path@, name@),
{
    std::path::Path::new(path).with_file_name(name).to_string_lossy().into_owned()
}

/// The path of the output that `alg` writes for the file at `path`: a sibling
/// whose name is the file's name followed by the algorithm's suffix. There is
/// none when the path has no final file name.
pub open spec fn destination_of(path: Seq<char>, alg: Algorithm) -> Option<Seq<char>> {
    match file_name_of(path) {
        Some(name) => Some(with_file_name_of(path, name + alg.suffix())),
        None => None,
    }
}

/// The name of the output that `alg` writes for a file named `file_name`.
pub fn sibling_name(file_name: &str, alg: Algorithm) -> (r: String)
    ensures
        r@ == file_name@ + alg.suffix(),
{
    let mut name = file_name.to_owned();
    name.append(alg.extension());
    name
}

/// The path of the output that `alg` writes for the file at `path`, or
/// `None` when the path has no file name (such an item is skipped).
pub fn destination_path(path: &str, alg: Algorithm) -> (r: Option<String>)
    ensures
        opt_view(r) == destination_of(path@, alg),
{
    match path_file_name(path) {
        Some(name) => {
            let new_name = sibling_name(name.as_str(), alg);
            Some(path_with_file_name(path, new_name.as_str()))
        },
        None => None,
    }
}

} // verus!
