//! Under which name a received file is stored.

use vstd::prelude::*;

use crate::text::concat4;

verus! {

/// The index of the last occurrence of a character, `-1` if it does not occur.
pub open spec fn last_index(text: Seq<char>, c: char) -> int
    decreases text.len(),
{
    if text.len() == 0 {
        -1
    } else if text.last() == c {
        text.len() - 1
    } else {
        last_index(text.drop_last(), c)
    }
}

/// The path without slashes and without `.` components at its end.
pub open spec fn trimmed(path: Seq<char>) -> Seq<char>
    decreases path.len(),
{
    if path.len() > 0 && path.last() == '/' {
        trimmed(path.drop_last())
    } else if path.len() > 1 && path.last() == '.' && path[path.len() - 2] == '/' {
        trimmed(path.drop_last())
    } else {
        path
    }
}

/// The last component of a path: what stands behind its last slash.
pub open spec fn last_component(path: Seq<char>) -> Seq<char> {
    trimmed(path).skip(last_index(trimmed(path), '/') + 1)
}

/// A path with a backslash in front. Some platforms take a slash behind it for a plain character.
pub open spec fn backslash_in_front(path: Seq<char>) -> bool {
    path.len() > 0 && path[0] == '\\'
}

/// A path whose last component every platform finds behind the last slash. Some platforms separate
/// components by backslashes too, read a colon in second place as the end of a drive, or read two
/// separators in front as the start of a server's name. So neither a backslash nor such a colon
/// stands in the last component, and no backslash and no two separators in front.
pub open spec fn portable(path: Seq<char>) -> bool {
    &&& last_index(last_component(path), '\\') < 0
    &&& path.len() >= 2 && path[1] == ':' ==> last_index(trimmed(path), '/') >= 2
    &&& !backslash_in_front(path)
    &&& !(path.len() >= 2 && path[0] == '/' && (path[1] == '/' || path[1] == '\\'))
}

/// No slash occurs in a part of a path.
pub open spec fn slashless(part: Option<Seq<char>>) -> bool {
    part matches Some(text) ==> last_index(text, '/') < 0
}

/// The file name of a path: its last component, if that is a name and not the directory itself or
/// its parent.
pub open spec fn file_name(path: Seq<char>) -> Option<Seq<char>> {
    let name = last_component(path);
    if name.len() == 0 || name == seq!['.'] || name == seq!['.', '.'] {
        None
    } else {
        Some(name)
    }
}

/// The file name up to its last dot; all of it if it has no dot, or only one in front.
pub open spec fn stem(path: Seq<char>) -> Option<Seq<char>> {
    match file_name(path) {
        Some(name) => Some(
            if last_index(name, '.') <= 0 {
                name
            } else {
                name.take(last_index(name, '.'))
            },
        ),
        None => None,
    }
}

/// The file name behind its last dot; none if it has no dot, or only one in front.
pub open spec fn extension(path: Seq<char>) -> Option<Seq<char>> {
    match file_name(path) {
        Some(name) => if last_index(name, '.') <= 0 {
            None
        } else {
            Some(name.skip(last_index(name, '.') + 1))
        },
        None => None,
    }
}

/// The model of a part of a path.
pub open spec fn part_view(part: Option<String>) -> Option<Seq<char>> {
    match part {
        Some(text) => Some(text@),
        None => None,
    }
}

/// `std::path::Path::file_stem`. A slash separates components on every platform, unless the path
/// has a backslash in front. What else does depends on the platform, so of a path that is not
/// portable no more is said.
#[verifier::external_body]
fn path_stem(path: &str) -> (part: Option<String>)
    ensures
        portable(path@) ==> part_view(part) == stem(path@),
        !backslash_in_front(path@) ==> slashless(part_view(part)),
{
    std::path::Path::new(path).file_stem().map(|part| part.to_string_lossy().into_owned())
}

/// `std::path::Path::extension`. A slash separates components on every platform, unless the path
/// has a backslash in front. What else does depends on the platform, so of a path that is not
/// portable no more is said.
#[verifier::external_body]
fn path_extension(path: &str) -> (part: Option<String>)
    ensures
        portable(path@) ==> part_view(part) == extension(path@),
        !backslash_in_front(path@) ==> slashless(part_view(part)),
{
    std::path::Path::new(path).extension().map(|part| part.to_string_lossy().into_owned())
}

/// The name under which a file with such a stem and extension is stored. A part that is missing
/// is empty.
pub open spec fn stored_name(stem: Option<Seq<char>>, extension: Option<Seq<char>>) -> Seq<char> {
    "received_"@ + stem.unwrap_or(Seq::empty()) + "."@ + extension.unwrap_or(Seq::empty())
}

/// The name under which a file with such a stem and extension is stored.
pub fn name_from_parts(stem: Option<String>, extension: Option<String>) -> (name: String)
    ensures
        name@ == stored_name(part_view(stem), part_view(extension)),
{
    let stem: String = match stem {
        Some(text) => text,
        None => String::new(),
    };
    let extension: String = match extension {
        Some(text) => text,
        None => String::new(),
    };
    concat4("received_", stem.as_str(), ".", extension.as_str())
}

/// A file that came under the path may be stored under the name. For a portable path that is one
/// name. For any other it has the form that [`stored_name`] gives, and no slash unless the path has
/// a backslash in front; the platform decides the rest.
pub open spec fn stored_as(path: Seq<char>, name: Seq<char>) -> bool {
    &&& portable(path) ==> name == stored_name(stem(path), extension(path))
    &&& !backslash_in_front(path) ==> last_index(name, '/') < 0
    &&& exists|s: Option<Seq<char>>, e: Option<Seq<char>>| name == #[trigger] stored_name(s, e)
}

/// The name under which a received file is stored.
pub fn received_file_name(original_filename: &str) -> (name: String)
    ensures
        stored_as(original_filename@, name@),
{
    let stem: Option<String> = path_stem(original_filename);
    let extension: Option<String> = path_extension(original_filename);
    let ghost (s, e) = (part_view(stem), part_view(extension));
    proof {
        if slashless(s) && slashless(e) {
            lemma_stored_name(s, e);
        }
    }
    let name: String = name_from_parts(stem, extension);
    assert(name@ == stored_name(s, e));
    name
}

proof fn lemma_last_index(text: Seq<char>, c: char)
    ensures
        -1 <= last_index(text, c) < text.len(),
        last_index(text, c) >= 0 ==> text[last_index(text, c)] == c,
        forall|i: int| last_index(text, c) < i < text.len() ==> #[trigger] text[i] != c,
    decreases text.len(),
{
    if text.len() > 0 && text.last() != c {
        lemma_last_index(text.drop_last(), c);
        assert forall|i: int| last_index(text, c) < i < text.len() implies #[trigger] text[i]
            != c by {
            if i < text.len() - 1 {
                assert(text[i] == text.drop_last()[i]);
            }
        }
    }
}

proof fn lemma_stored_name(stem: Option<Seq<char>>, extension: Option<Seq<char>>)
    requires
        slashless(stem),
        slashless(extension),
    ensures
        last_index(stored_name(stem, extension), '/') < 0,
{
    reveal_strlit("received_");
    reveal_strlit(".");
    let s = stem.unwrap_or(Seq::empty());
    let e = extension.unwrap_or(Seq::empty());
    lemma_last_index(s, '/');
    lemma_last_index(e, '/');
    let front = "received_"@ + s + "."@;
    let stored = stored_name(stem, extension);
    assert forall|i: int| 0 <= i < stored.len() implies #[trigger] stored[i] != '/' by {
        if i < 9 {
            assert(stored[i] == "received_"@[i]);
        } else if i < 9 + s.len() {
            assert(stored[i] == s[i - 9]);
        } else if i < front.len() {
            assert(stored[i] == "."@[0]);
        } else {
            assert(stored[i] == e[i - front.len()]);
        }
    }
    lemma_last_index(stored, '/');
}

/// The name that a path's stem and extension give has no slash, whatever directories the path
/// names.
pub proof fn law_stored_name_has_no_slash(path: Seq<char>)
    ensures
        last_index(stored_name(stem(path), extension(path)), '/') < 0,
{
    let name = last_component(path);
    let base = trimmed(path);
    lemma_last_index(base, '/');
    assert forall|i: int| 0 <= i < name.len() implies #[trigger] name[i] != '/' by {
        assert(name[i] == base[i + last_index(base, '/') + 1]);
    }
    lemma_last_index(name, '.');
    if let Some(s) = stem(path) {
        lemma_last_index(s, '/');
    }
    if let Some(e) = extension(path) {
        lemma_last_index(e, '/');
    }
    lemma_stored_name(stem(path), extension(path));
}

/// A plain file name with an extension is stored under the same name behind the prefix.
pub proof fn law_plain_name_is_kept(name: Seq<char>)
    requires
        last_index(name, '/') < 0,
        0 < last_index(name, '.'),
        name != seq!['.', '.'],
    ensures
        stored_name(stem(name), extension(name)) == "received_"@ + name,
{
    let dot = last_index(name, '.');
    assert(file_name(name) == Some(name)) by {
        lemma_last_index(name, '/');
        lemma_last_index(name, '.');
        assert(trimmed(name) == name);
        assert(name.skip(0) == name);
        assert(name.len() > 1);
        assert(name != seq!['.']);
    }
    assert(stem(name) == Some(name.take(dot)));
    assert(extension(name) == Some(name.skip(dot + 1)));
    lemma_around_dot(name, dot);
}

proof fn lemma_around_dot(name: Seq<char>, dot: int)
    requires
        dot == last_index(name, '.'),
        dot >= 0,
    ensures
        "received_"@ + name.take(dot) + "."@ + name.skip(dot + 1) == "received_"@ + name,
{
    lemma_last_index(name, '.');
    reveal_strlit(".");
    assert("received_"@ + name.take(dot) + "."@ + name.skip(dot + 1) =~= "received_"@ + name);
}

/// The stem and the extension stand behind the prefix, with a dot between them; a part that is
/// missing leaves its place empty.
pub proof fn law_parts_stand_behind_the_prefix(stem: Seq<char>, extension: Seq<char>)
    ensures
        stored_name(Some(stem), Some(extension)) == "received_"@ + stem + "."@ + extension,
        stored_name(Some(stem), None) == "received_"@ + stem + "."@,
        stored_name(None, None) == "received_."@,
{
    reveal_strlit("received_");
    reveal_strlit(".");
    reveal_strlit("received_.");
    assert(stored_name(Some(stem), None) =~= "received_"@ + stem + "."@);
    assert(stored_name(None, None) =~= "received_."@);
}

/// The stem and the extension make up the file name, with the last dot between them. Without a dot
/// behind its first character, the stem is the whole file name.
pub proof fn law_stem_and_extension_make_up_the_file_name(path: Seq<char>)
    ensures
        file_name(path) is None ==> stem(path) is None && extension(path) is None,
        file_name(path) matches Some(name) ==> (stem(path) matches Some(s) && s.len() > 0 && (
        match extension(path) {
            Some(e) => name == s + seq!['.'] + e && (forall|i: int|
                0 <= i < e.len() ==> #[trigger] e[i] != '.'),
            None => name == s && (forall|i: int| 0 < i < name.len() ==> #[trigger] name[i] != '.'),
        })),
{
    if let Some(name) = file_name(path) {
        lemma_last_index(name, '.');
        let dot = last_index(name, '.');
        if dot > 0 {
            assert(name =~= name.take(dot) + seq!['.'] + name.skip(dot + 1));
        }
    }
}

/// The file name of a path is the name at its end, whatever directories stand before it and whether
/// or not slashes or a dot of its own stand behind it.
pub proof fn law_file_name_is_at_the_end(directory: Seq<char>, name: Seq<char>)
    requires
        last_index(name, '/') < 0,
        name.len() > 0,
        name != seq!['.'],
        name != seq!['.', '.'],
    ensures
        file_name(name) == Some(name),
        file_name(directory + seq!['/'] + name) == Some(name),
        file_name((directory + seq!['/'] + name).push('/')) == Some(name),
        file_name((directory + seq!['/'] + name).push('/').push('.')) == Some(name),
{
    let path = directory + seq!['/'] + name;
    lemma_at_the_end(directory, name);
    lemma_last_index(name, '/');
    assert(trimmed(name) == name);
    assert(name.skip(0) == name);
    assert(path.push('/').drop_last() == path);
    assert(trimmed(path.push('/')) == trimmed(path));
    assert(path.push('/').push('.').drop_last() == path.push('/'));
    assert(trimmed(path.push('/').push('.')) == trimmed(path.push('/')));
}

/// The directory itself and its parent are no file names.
pub proof fn law_parent_is_no_file_name(directory: Seq<char>)
    ensures
        file_name(directory + seq!['/'] + seq!['.', '.']) is None,
        file_name(seq!['.', '.']) is None,
        file_name(seq!['.']) is None,
        file_name(Seq::empty()) is None,
{
    reveal_with_fuel(last_index, 3);
    lemma_at_the_end(directory, seq!['.', '.']);
    assert(trimmed(seq!['.', '.']) == seq!['.', '.']);
    assert(seq!['.', '.'].skip(0) == seq!['.', '.']);
    assert(seq!['.', '.'].drop_last() =~= seq!['.']);
    assert(seq!['.'].drop_last() =~= Seq::<char>::empty());
    assert(trimmed(seq!['.']) == seq!['.']);
    assert(seq!['.'].skip(0) == seq!['.']);
    assert(Seq::<char>::empty().skip(0) =~= Seq::<char>::empty());
}

proof fn lemma_at_the_end(directory: Seq<char>, name: Seq<char>)
    requires
        last_index(name, '/') < 0,
        name.len() > 0,
        name != seq!['.'],
    ensures
        trimmed(directory + seq!['/'] + name) == directory + seq!['/'] + name,
        last_index(directory + seq!['/'] + name, '/') == directory.len(),
        last_component(directory + seq!['/'] + name) == name,
{
    let path = directory + seq!['/'] + name;
    lemma_last_index(name, '/');
    lemma_last_index(path, '/');
    let last = name.len() - 1;
    assert(path.last() == name[last]);
    if name.len() == 1 {
        if name[0] == '.' {
            assert(name =~= seq!['.']);
        }
    } else {
        assert(path[path.len() - 2] == name[last - 1]);
    }
    let found = last_index(path, '/');
    assert(path[directory.len() as int] == '/');
    if found > directory.len() {
        assert(path[found] == name[found - directory.len() - 1]);
    }
    assert(path.skip(directory.len() as int + 1) =~= name);
}

proof fn lemma_trimmed(path: Seq<char>)
    ensures
        trimmed(path).is_prefix_of(path),
    decreases path.len(),
{
    if path.len() > 0 && path.last() == '/' {
        lemma_trimmed(path.drop_last());
    } else if path.len() > 1 && path.last() == '.' && path[path.len() - 2] == '/' {
        lemma_trimmed(path.drop_last());
    }
}

/// A path without backslashes is portable, unless a colon stands in second place or two slashes in
/// front. So is a plain name behind a directory, unless the directory starts with a backslash or
/// with two separators.
pub proof fn law_ordinary_paths_are_portable(
    path: Seq<char>,
    directory: Seq<char>,
    name: Seq<char>,
)
    ensures
        last_index(path, '\\') < 0 && !(path.len() >= 2 && path[1] == ':') && !(path.len() >= 2
            && path[0] == '/' && path[1] == '/') ==> portable(path),
        last_index(name, '/') < 0 && last_index(name, '\\') < 0 && name.len() > 0
            && name != seq!['.'] && directory.len() >= 2 && directory[0] != '\\' && !(directory[0] == '/' && (
        directory[1] == '/' || directory[1] == '\\')) ==> portable(directory + seq!['/'] + name),
{
    if last_index(path, '\\') < 0 {
        let name = last_component(path);
        lemma_last_index(path, '\\');
        lemma_last_index(name, '\\');
        lemma_last_index(trimmed(path), '/');
        lemma_trimmed(path);
        if last_index(name, '\\') >= 0 {
            let i = last_index(name, '\\') + last_index(trimmed(path), '/') + 1;
            assert(trimmed(path)[i] == '\\');
            assert(path[i] == '\\');
        }
    }
    if last_index(name, '/') < 0 && name.len() > 0 && name != seq!['.'] {
        lemma_at_the_end(directory, name);
    }
}

} // verus!
