//! Names that are safe to give to files and directories.

use vstd::prelude::*;
use vstd::string::StringExecFns;
use crate::text::chars_of;

verus! {

/// Whether a file system may refuse `c` inside a name:
/// one of `/ : * ? " < > |`.
pub open spec fn is_forbidden(c: char) -> bool {
    c == '/' || c == ':' || c == '*' || c == '?' || c == '"' || c == '<' || c == '>' || c == '|'
}

/// Whether a file system may refuse `c` inside a name.
pub fn forbidden(c: char) -> (yes: bool)
    ensures
        yes == is_forbidden(c),
{
    c == '/' || c == ':' || c == '*' || c == '?' || c == '"' || c == '<' || c == '>' || c == '|'
}

/// The character that stands for `c` in a name.
pub open spec fn safe_char(c: char) -> char {
    if is_forbidden(c) {
        '_'
    } else {
        c
    }
}

/// `name` with every forbidden character replaced by `_`.
pub open spec fn sanitized(name: Seq<char>) -> Seq<char> {
    Seq::new(name.len(), |i: int| safe_char(name[i]))
}

/// Whether `name` holds no forbidden character.
pub open spec fn is_safe(name: Seq<char>) -> bool {
    forall|i: int| 0 <= i < name.len() ==> !is_forbidden(#[trigger] name[i])
}

/// Sanitizing a name that was sanitized changes nothing.
pub proof fn sanitized_twice(name: Seq<char>)
    ensures
        sanitized(sanitized(name)) == sanitized(name),
{
    assert(sanitized(sanitized(name)) =~= sanitized(name));
}

/// A sanitized name holds no forbidden character, and a name that holds
/// none is its own sanitized form.
pub proof fn sanitized_is_safe(name: Seq<char>)
    ensures
        is_safe(sanitized(name)),
        is_safe(name) ==> sanitized(name) == name,
{
    if is_safe(name) {
        assert(sanitized(name) =~= name);
    }
}

/// Makes a title or a chapter name fit for the file system: every one of
/// `/ : * ? " < > |` becomes `_`, every other character stays.
pub fn sanitize(name: &str) -> (safe: String)
    ensures
        safe@ == sanitized(name@),
        is_safe(safe@),
        safe@.len() == name@.len(),
{
    let chars = chars_of(name);
    let mut safe = String::new();
    let mut i: usize = 0;
    while i < chars.len()
        invariant
            i <= chars.len(),
            chars@ == name@,
            safe@ == sanitized(name@).take(i as int),
        decreases chars.len() - i,
    {
        let c = chars[i];
        if forbidden(c) {
            safe.push('_');
        } else {
            safe.push(c);
        }
        assert(safe@ =~= sanitized(name@).take(i + 1));
        i = i + 1;
    }
    assert(safe@ =~= sanitized(name@));
    safe
}

/// The name of a chapter's archive: the sanitized chapter name and `.zip`.
pub open spec fn archive_name_spec(chapter: Seq<char>) -> Seq<char> {
    sanitized(chapter) + ".zip"@
}

/// The name of the archive of the chapter called `chapter`. The directory in
/// which a chapter is staged bears the sanitized name alone.
pub fn archive_name(chapter: &str) -> (name: String)
    ensures
        name@ == archive_name_spec(chapter@),
{
    sanitize(chapter).concat(".zip")
}

} // verus!
