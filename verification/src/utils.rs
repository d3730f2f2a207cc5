//! Helpers for file names.

use crate::strings::characters;
use vstd::prelude::*;

verus! {

/// The characters that cannot stand in the name of a file.
pub open spec fn is_forbidden(c: char) -> bool {
    c == '/' || c == '\\' || c == '<' || c == '>' || c == ':' || c == '"' || c == '|' || c == '?'
        || c == '*'
}

/// `c`, or an underscore in its place where it cannot stand in the name
/// of a file.
pub open spec fn sanitized_char(c: char) -> char {
    if is_forbidden(c) {
        '_'
    } else {
        c
    }
}

/// Tells whether `extension` stands in `filename` right after a dot and
/// holds no dot itself.
pub open spec fn follows_dot(filename: Seq<char>, extension: Seq<char>) -> bool {
    &&& !extension.contains('.')
    &&& exists|i: int|
        0 < i && i + extension.len() <= filename.len() && filename[i - 1] == '.'
            && #[trigger] filename.subrange(i, i + extension.len()) == extension
}

/// Tells whether the last dot of `name` stands at `i`.
pub open spec fn is_last_dot(name: Seq<char>, i: int) -> bool {
    &&& 0 <= i < name.len()
    &&& name[i] == '.'
    &&& forall|j: int| i < j < name.len() ==> name[j] != '.'
}

/// Tells whether `name` is the name of a file and no path: it holds
/// nothing that separates the parts of a path on any platform (`/`, `\`,
/// `:`) and is not `..`, the directory above.
pub open spec fn is_plain_name(name: Seq<char>) -> bool {
    &&& !name.contains('/')
    &&& !name.contains('\\')
    &&& !name.contains(':')
    &&& name != seq!['.', '.']
}

/// Tells whether `extension` is the extension of the file's name `name`:
/// what follows the last dot, unless the name has no dot but the one it
/// starts with.
pub open spec fn is_extension_of_name(name: Seq<char>, extension: Option<Seq<char>>) -> bool {
    match extension {
        Some(extension) => exists|i: int|
            0 < i && #[trigger] is_last_dot(name, i) && extension == name.skip(i + 1),
        None => forall|i: int| #[trigger] is_last_dot(name, i) ==> i == 0,
    }
}

/// Asks `std::path::Path::extension` for the extension of the file that
/// `filename` names. The extension is the part of the file's name after
/// its last dot; a name without a dot, or with none but the one it starts
/// with, has none, and neither has a path that names no file. Of a plain
/// name this says everything. Where the file's name starts within a path
/// is the platform's business, so of a path only what holds on each of
/// them is claimed.
#[verifier::external_body]
fn path_extension<'a>(filename: &'a str) -> (r: Option<&'a str>)
    ensures
        r matches Some(extension) ==> follows_dot(filename@, extension@),
        !filename@.contains('.') ==> r is None,
        is_plain_name(filename@) ==> is_extension_of_name(filename@, characters(r)),
{
    std::path::Path::new(filename).extension()?.to_str()
}

/// The extension of the file that `filename` names: the part of the
/// file's name after its last dot. `None` where the name has no dot, or
/// only the one it starts with, or where the path names no file.
pub fn get_file_extension(filename: &str) -> (r: Option<&str>)
    ensures
        r matches Some(extension) ==> follows_dot(filename@, extension@),
        !filename@.contains('.') ==> r is None,
        is_plain_name(filename@) ==> is_extension_of_name(filename@, characters(r)),
{
    path_extension(filename)
}

/// `name` with an underscore in place of each character that cannot stand
/// in the name of a file: `/ \ < > : " | ? *`.
pub fn sanitize_filename(name: &str) -> (clean: String)
    ensures
        clean@ == name@.map_values(|c: char| sanitized_char(c)),
        clean@.len() == name@.len(),
        forall|i: int| 0 <= i < clean@.len() ==> !is_forbidden(#[trigger] clean@[i]),
{
    let mut clean = String::new();
    for c in it: name.chars()
        invariant
            it.seq() == name@,
            clean@ == name@.take(it.index() as int).map_values(|c: char| sanitized_char(c)),
    {
        let kept = match c {
            '/' | '\\' | '<' | '>' | ':' | '"' | '|' | '?' | '*' => '_',
            c => c,
        };
        clean.push(kept);
        proof {
            assert(name@.take(it.index() + 1).map_values(|c: char| sanitized_char(c))
                =~= name@.take(it.index() as int).map_values(|c: char| sanitized_char(c)).push(
                sanitized_char(c),
            ));
        }
    }
    proof {
        assert(name@.take(name@.len() as int) =~= name@);
    }
    clean
}

} // verus!
