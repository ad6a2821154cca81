//! Model file paths: their stem and extension, and the typed data directories.
use vstd::prelude::*;

use crate::kind::DataFileType;

verus! {

/// The stem that `std::path::Path::file_stem` gives for `path`, read as UTF-8.
pub uninterp spec fn path_stem(path: Seq<char>) -> Option<Seq<char>>;

/// The extension that `std::path::Path::extension` gives for `path`, read as UTF-8.
pub uninterp spec fn path_extension(path: Seq<char>) -> Option<Seq<char>>;

/// Relies on `std::path::Path::file_stem` (and `OsStr::to_str`): the file
/// name without its final extension, where the path has a file name.
#[verifier::external_body]
fn file_stem_of(path: &str) -> (r: Option<String>)
    ensures
        r matches Some(s) ==> path_stem(path@) == Some(s@),
        r is None ==> path_stem(path@) is None,
{
    std::path::Path::new(path).file_stem().and_then(|s| s.to_str()).map(|s| s.to_string())
}

/// Relies on `std::path::Path::extension` (and `OsStr::to_str`): what follows
/// the final `.` of the file name, where there is one.
#[verifier::external_body]
pub(crate) fn extension_of(path: &str) -> (r: Option<String>)
    ensures
        r matches Some(s) ==> path_extension(path@) == Some(s@),
        r is None ==> path_extension(path@) is None,
{
    std::path::Path::new(path).extension().and_then(|s| s.to_str()).map(|s| s.to_string())
}

/// A path with the extension and stem read from it.
#[derive(Debug)]
pub struct FileInfo {
    pub path: String,
    pub extension: String,
    pub stem: String,
}

/// Whether `path` has both an extension and a stem.
pub open spec fn has_file_info(path: Seq<char>) -> bool {
    path_extension(path) is Some && path_stem(path) is Some
}

/// Reads the extension and stem of `path`; `None` where it lacks either.
pub fn get_file_info(path: &str) -> (r: Option<FileInfo>)
    ensures
        r is Some <==> has_file_info(path@),
        r matches Some(info) ==> {
            &&& info.path@ == path@
            &&& path_extension(path@) == Some(info.extension@)
            &&& path_stem(path@) == Some(info.stem@)
        },
{
    let extension = match extension_of(path) {
        Some(e) => e,
        None => {
            return None;
        },
    };
    let stem = match file_stem_of(path) {
        Some(s) => s,
        None => {
            return None;
        },
    };
    Some(FileInfo { path: String::from_str(path), extension, stem })
}

/// `dir` joined with the relative name `name`, as `Path::join` does it.
pub open spec fn join_spec(dir: Seq<char>, name: Seq<char>) -> Seq<char> {
    if dir.len() == 0 {
        name
    } else if dir.last() == '/' {
        dir + name
    } else {
        dir + seq!['/'] + name
    }
}

/// The subdirectory of `data_file_dir` that holds the models of `data_type`.
pub fn get_typed_data_dir(data_file_dir: &str, data_type: DataFileType) -> (r: String)
    ensures
        r@ == join_spec(data_file_dir@, data_type.dir_view()),
{
    let len = data_file_dir.unicode_len();
    let name = data_type.as_dir();
    if len == 0 {
        String::from_str(name)
    } else if data_file_dir.get_char(len - 1) == '/' {
        String::from_str(data_file_dir).concat(name)
    } else {
        let with_sep = String::from_str(data_file_dir).concat("/");
        proof {
            reveal_strlit("/");
        }
        with_sep.concat(name)
    }
}

} // verus!
