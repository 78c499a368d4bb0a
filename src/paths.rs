use vstd::prelude::*;

verus! {

/// The extension of a path's file name, in the target's path syntax.
pub uninterp spec fn path_extension(p: Seq<char>) -> Option<Seq<char>>;

/// The file name of a path without its extension, in the target's path syntax.
pub uninterp spec fn path_file_stem(p: Seq<char>) -> Option<Seq<char>>;

/// A path with its file name replaced, in the target's path syntax.
pub uninterp spec fn path_with_file_name(p: Seq<char>, name: Seq<char>) -> Seq<char>;

/// Relies on `std::path::Path::extension`: the text after the last `.` of the
/// file name, if the name has one that does not begin it.
#[verifier::external_body]
pub(crate) fn extension_of(p: &str) -> (r: Option<String>)
    ensures
        match r {
            Some(e) => path_extension(p@) == Some(e@),
            None => path_extension(p@) is None,
        },
{
    std::path::Path::new(p).extension().map(|e| e.to_string_lossy().into_owned())
}

/// Relies on `std::path::Path::file_stem`: the file name without its extension.
#[verifier::external_body]
pub(crate) fn file_stem_of(p: &str) -> (r: Option<String>)
    ensures
        match r {
            Some(s) => path_file_stem(p@) == Some(s@),
            None => path_file_stem(p@) is None,
        },
{
    std::path::Path::new(p).file_stem().map(|s| s.to_string_lossy().into_owned())
}

/// Relies on `std::path::Path::with_file_name`: the sibling path named `name`.
#[verifier::external_body]
pub(crate) fn with_file_name(p: &str, name: &str) -> (r: String)
    ensures
        r@ == path_with_file_name(p@, name@),
{
    std::path::Path::new(p).with_file_name(name).to_string_lossy().into_owned()
}

} // verus!
