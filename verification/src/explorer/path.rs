//! Paths as text: the final component of a path and the extension of a file
//! name. `std::path` does the parsing; this module says what comes back.

use vstd::prelude::*;

verus! {

/// The final component of `path` as `std::path::Path::file_name` finds it,
/// under the path syntax of the platform the crate is built for; `None`
/// where the path has none (the root, the empty path, a path that ends in
/// `..`).
pub uninterp spec fn file_name_of(path: Seq<char>) -> Option<Seq<char>>;

/// The text of an optional string.
pub open spec fn text_of(value: Option<String>) -> Option<Seq<char>> {
    match value {
        Some(text) => Some(text@),
        None => None,
    }
}

/// Where the last `.` of `name` stands, or `-1` if it has none.
pub open spec fn last_dot(name: Seq<char>) -> int
    decreases name.len(),
{
    if name.len() == 0 {
        -1
    } else if name.last() == '.' {
        name.len() - 1
    } else {
        last_dot(name.drop_last())
    }
}

/// The extension of a file name, without its dot: what follows the last
/// `.`, unless the name has no `.` or its only `.` is its first character.
pub open spec fn extension_of(name: Seq<char>) -> Option<Seq<char>> {
    let dot = last_dot(name);
    if dot <= 0 {
        None
    } else {
        Some(name.skip(dot + 1))
    }
}

/// The extension of the final component of `path`, if it has both.
pub open spec fn path_extension_of(path: Seq<char>) -> Option<Seq<char>> {
    match file_name_of(path) {
        Some(name) => extension_of(name),
        None => None,
    }
}

/// Calls `std::path::Path::file_name` on `path`. Trusted: the result is the
/// final component that std finds, as text, and `None` where std finds none.
#[verifier::external_body]
pub(crate) fn file_name(path: &str) -> (name: Option<String>)
    ensures
        text_of(name) == file_name_of(path@),
{
    std::path::Path::new(path).file_name().map(|name| name.to_string_lossy().into_owned())
}

/// Calls `std::path::Path::extension` on `path`. Trusted: as std documents
/// it, the result is `None` where the path has no file name, where the file
/// name has no `.`, and where its only `.` is its first character; else it
/// is the part of the file name behind its last `.`.
#[verifier::external_body]
pub(crate) fn extension(path: &str) -> (ext: Option<String>)
    ensures
        text_of(ext) == path_extension_of(path@),
{
    std::path::Path::new(path).extension().map(|ext| ext.to_string_lossy().into_owned())
}

/// `last_dot` points at a `.` with none behind it, or is `-1` where the
/// name has none.
pub proof fn lemma_last_dot(name: Seq<char>)
    ensures
        -1 <= last_dot(name) < name.len(),
        last_dot(name) >= 0 ==> name[last_dot(name)] == '.',
        forall|i: int| last_dot(name) < i < name.len() ==> name[i] != '.',
    decreases name.len(),
{
    if name.len() > 0 && name.last() != '.' {
        let front = name.drop_last();
        lemma_last_dot(front);
        assert forall|i: int| last_dot(name) < i < name.len() implies name[i] != '.' by {
            if i < front.len() {
                assert(front[i] == name[i]);
            }
        }
        if last_dot(name) >= 0 {
            assert(front[last_dot(front)] == name[last_dot(name)]);
        }
    }
}

/// A name made of a stem that is not empty, a `.` and a tail without `.`
/// has that tail as its extension.
pub proof fn lemma_extension_of_dotted(stem: Seq<char>, ext: Seq<char>)
    requires
        stem.len() > 0,
        !ext.contains('.'),
    ensures
        extension_of(stem + seq!['.'] + ext) == Some(ext),
{
    let name = stem + seq!['.'] + ext;
    let at = stem.len() as int;
    lemma_last_dot(name);
    assert(name[at] == '.');
    if last_dot(name) > at {
        let i = last_dot(name);
        assert(name[i] == ext[i - at - 1]);
        assert(ext.contains(ext[i - at - 1]));
    }
    assert(last_dot(name) == at);
    assert(name.skip(at + 1) =~= ext);
}

/// A name with an extension is a stem that is not empty, a `.` and that
/// extension, and the extension holds no `.`.
pub proof fn lemma_extension_splits(name: Seq<char>, ext: Seq<char>)
    requires
        extension_of(name) == Some(ext),
    ensures
        !ext.contains('.'),
        exists|stem: Seq<char>| stem.len() > 0 && name == #[trigger] (stem + seq!['.'] + ext),
{
    let dot = last_dot(name);
    lemma_last_dot(name);
    let stem = name.take(dot);
    assert(name =~= stem + seq!['.'] + ext);
    if ext.contains('.') {
        let i = choose|i: int| 0 <= i < ext.len() && ext[i] == '.';
        assert(name[dot + 1 + i] == ext[i]);
    }
}

} // verus!
