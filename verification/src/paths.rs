//! Paths as lists of names, and the two places where the report shows one:
//! the working directory and the project notes.

use vstd::prelude::*;
use crate::text::{
    chars_of, joined, push_joined, push_joined_from, push_str, string_from_chars, texts,
};

verus! {

/// A path taken apart: whether it starts at the root, and the names that
/// follow, outermost first. `..` is a name like any other.
#[derive(Clone, Debug, PartialEq, Eq)]
pub struct PathParts {
    pub rooted: bool,
    pub names: Vec<String>,
}

/// What a `PathParts` stands for.
pub struct PathView {
    pub rooted: bool,
    pub names: Seq<Seq<char>>,
}

impl View for PathParts {
    type V = PathView;

    open spec fn view(&self) -> PathView {
        PathView { rooted: self.rooted, names: texts(self.names@) }
    }
}

/// The views of a list of paths.
pub open spec fn path_views(paths: Seq<PathParts>) -> Seq<PathView> {
    Seq::new(paths.len(), |i: int| paths[i]@)
}

/// A path written out: a slash for the root, the names with slashes
/// between them.
pub open spec fn shown(path: PathView) -> Seq<char> {
    if path.rooted {
        seq!['/'] + joined(path.names, "/"@)
    } else {
        joined(path.names, "/"@)
    }
}

/// Whether `path` is `base` or lies below it, name by name.
pub open spec fn starts_with(path: PathView, base: PathView) -> bool {
    &&& path.rooted == base.rooted
    &&& base.names.len() <= path.names.len()
    &&& path.names.take(base.names.len() as int) == base.names
}

/// How the report shows a directory: `~` for the home directory, `~/` and
/// the rest for a directory below it, the path written out for any other,
/// and for every directory where no home directory is known.
pub open spec fn directory_text(directory: PathView, home: Option<PathView>) -> Seq<char> {
    match home {
        Some(h) => {
            if starts_with(directory, h) {
                if directory.names.len() == h.names.len() {
                    "~"@
                } else {
                    "~/"@ + joined(directory.names.skip(h.names.len() as int), "/"@)
                }
            } else {
                shown(directory)
            }
        },
        None => shown(directory),
    }
}

fn push_shown(out: &mut Vec<char>, path: &PathParts)
    ensures
        final(out)@ == old(out)@ + shown(path@),
{
    if path.rooted {
        out.push('/');
    }
    push_joined(out, &path.names, "/");
    assert(out@ == old(out)@ + shown(path@));
}

fn names_start_with(names: &Vec<String>, base: &Vec<String>, count: usize) -> (same: bool)
    requires
        count <= base.len(),
    ensures
        same == (count <= names.len() && texts(names@).take(count as int) == texts(base@).take(
            count as int,
        )),
{
    if count > names.len() {
        return false;
    }
    let mut i: usize = 0;
    while i < count
        invariant
            i <= count <= names.len(),
            count <= base.len(),
            texts(names@).take(i as int) == texts(base@).take(i as int),
        decreases count - i,
    {
        if names[i] != base[i] {
            assert(texts(names@).take(count as int)[i as int] != texts(base@).take(
                count as int,
            )[i as int]);
            return false;
        }
        assert(texts(names@).take(i + 1) =~= texts(names@).take(i as int).push(names@[i as int]@));
        assert(texts(base@).take(i + 1) =~= texts(base@).take(i as int).push(base@[i as int]@));
        i += 1;
    }
    true
}

/// Whether `path` is `base` or lies below it.
pub fn path_starts_with(path: &PathParts, base: &PathParts) -> (below: bool)
    ensures
        below == starts_with(path@, base@),
{
    assert(base@.names.take(base@.names.len() as int) == base@.names);
    path.rooted == base.rooted && names_start_with(&path.names, &base.names, base.names.len())
}

/// Writes a directory as the report shows it, relative to the home
/// directory where it lies in it.
pub fn format_directory_display(directory: &PathParts, home: &Option<PathParts>) -> (text: String)
    ensures
        text@ == directory_text(
            directory@,
            match *home {
                Some(h) => Some(h@),
                None => None,
            },
        ),
{
    let mut out: Vec<char> = Vec::new();
    match home {
        Some(h) => {
            if path_starts_with(directory, h) {
                if directory.names.len() == h.names.len() {
                    push_str(&mut out, "~");
                } else {
                    push_str(&mut out, "~/");
                    push_joined_from(&mut out, &directory.names, h.names.len(), "/");
                }
            } else {
                push_shown(&mut out, directory);
            }
        },
        None => {
            push_shown(&mut out, directory);
        },
    }
    string_from_chars(&out)
}

/// `count` times `../`.
pub open spec fn ups(count: nat) -> Seq<char>
    decreases count,
{
    if count == 0 {
        Seq::empty()
    } else {
        ups((count - 1) as nat) + "../"@
    }
}

/// The last name of a path; `<unknown>` where it has none or ends in `..`.
pub open spec fn file_name_text(path: PathView) -> Seq<char> {
    if path.names.len() > 0 && path.names.last() != ".."@ {
        path.names.last()
    } else {
        "<unknown>"@
    }
}

/// The directory that holds `path`: the path without its last name.
pub open spec fn parent_of(path: PathView) -> PathView {
    PathView { rooted: path.rooted, names: path.names.drop_last() }
}

/// Whether going up from `directory` comes by `target`: `target` is the
/// directory itself or one above it, the root and the empty path excepted
/// unless the directory is that itself.
pub open spec fn reached_going_up(directory: PathView, target: PathView) -> bool {
    starts_with(directory, target) && (target.names.len() > 0 || directory.names.len() == 0)
}

/// How the report shows one file of project notes, seen from the working
/// directory. A file in the working directory or in a directory above it
/// is its name after one `../` for each level up; a file further inside is
/// its path from the working directory on; any other is its path written
/// out.
pub open spec fn note_text(cwd: PathView, note: PathView) -> Seq<char> {
    if note.names.len() == 0 {
        shown(note)
    } else if reached_going_up(cwd, parent_of(note)) {
        ups((cwd.names.len() - parent_of(note).names.len()) as nat) + file_name_text(note)
    } else if starts_with(note, cwd) {
        joined(note.names.skip(cwd.names.len() as int), "/"@)
    } else {
        shown(note)
    }
}

/// The notes as the report shows them, one after the other.
pub open spec fn note_texts(cwd: PathView, notes: Seq<PathView>) -> Seq<Seq<char>> {
    Seq::new(notes.len(), |i: int| note_text(cwd, notes[i]))
}

/// The summary of the project notes: `<none>` where the search for them
/// failed or found none, else the notes separated by commas.
pub open spec fn agents_text(cwd: PathView, notes: Option<Seq<PathView>>) -> Seq<char> {
    match notes {
        Some(found) => if found.len() == 0 {
            "<none>"@
        } else {
            joined(note_texts(cwd, found), ", "@)
        },
        None => "<none>"@,
    }
}

fn push_ups(out: &mut Vec<char>, count: usize)
    ensures
        final(out)@ == old(out)@ + ups(count as nat),
{
    let mut i: usize = 0;
    while i < count
        invariant
            i <= count,
            out@ == old(out)@ + ups(i as nat),
        decreases count - i,
    {
        push_str(out, "../");
        assert(out@ == old(out)@ + ups((i + 1) as nat));
        i += 1;
    }
}

fn format_note(cwd: &PathParts, note: &PathParts) -> (text: String)
    ensures
        text@ == note_text(cwd@, note@),
{
    let mut out: Vec<char> = Vec::new();
    let count = note.names.len();
    if count == 0 {
        push_shown(&mut out, note);
        return string_from_chars(&out);
    }
    let above = count - 1;
    proof {
        assert(parent_of(note@).names =~= note@.names.take(above as int));
        assert(note@.names.take(above as int).take(above as int) =~= note@.names.take(above as int));
    }
    let reached = cwd.rooted == note.rooted && names_start_with(&cwd.names, &note.names, above) && (
    above > 0 || cwd.names.len() == 0);
    assert(reached == reached_going_up(cwd@, parent_of(note@)));
    if reached {
        push_ups(&mut out, cwd.names.len() - above);
        if same_dots(&note.names[count - 1]) {
            push_str(&mut out, "<unknown>");
        } else {
            push_str(&mut out, note.names[count - 1].as_str());
        }
        assert(out@ == note_text(cwd@, note@));
    } else if path_starts_with(note, cwd) {
        push_joined_from(&mut out, &note.names, cwd.names.len(), "/");
    } else {
        push_shown(&mut out, note);
    }
    string_from_chars(&out)
}

fn same_dots(name: &String) -> (dots: bool)
    ensures
        dots == (name@ == ".."@),
{
    let dots = "..".to_owned();
    *name == dots
}

/// Composes the summary of the project notes. `notes` is what the search
/// for them found, none where the search failed.
pub fn compose_agents_summary(cwd: &PathParts, notes: &Option<Vec<PathParts>>) -> (text: String)
    ensures
        text@ == agents_text(
            cwd@,
            match *notes {
                Some(found) => Some(path_views(found@)),
                None => None,
            },
        ),
{
    match notes {
        Some(found) => {
            if found.len() == 0 {
                return "<none>".to_owned();
            }
            let mut shown_notes: Vec<String> = Vec::new();
            let mut i: usize = 0;
            while i < found.len()
                invariant
                    i <= found.len(),
                    texts(shown_notes@) == note_texts(cwd@, path_views(found@)).take(i as int),
                decreases found.len() - i,
            {
                let ghost before = texts(shown_notes@);
                let text = format_note(cwd, &found[i]);
                shown_notes.push(text);
                assert(texts(shown_notes@) =~= before.push(text@));
                assert(path_views(found@)[i as int] == found@[i as int]@);
                assert(note_texts(cwd@, path_views(found@)).take(i + 1) =~= note_texts(
                    cwd@,
                    path_views(found@),
                ).take(i as int).push(text@));
                i += 1;
            }
            assert(note_texts(cwd@, path_views(found@)).take(found@.len() as int) =~= note_texts(
                cwd@,
                path_views(found@),
            ));
            let mut out: Vec<char> = Vec::new();
            push_joined(&mut out, &shown_notes, ", ");
            string_from_chars(&out)
        },
        None => "<none>".to_owned(),
    }
}

/// The place of the last dot in a name; -1 where it has none.
pub open spec fn last_dot(name: Seq<char>) -> int
    decreases name.len(),
{
    if name.len() == 0 {
        -1
    } else if name.last() == '.' {
        name.len() - 1
    } else {
        last_dot(name.drop_last())
    }
}

/// A file name without its extension: what stands before the last dot.
/// A name without a dot, and one whose only dot stands in front, is left
/// as it is.
pub open spec fn stem_of(name: Seq<char>) -> Seq<char> {
    if last_dot(name) <= 0 {
        name
    } else {
        name.take(last_dot(name))
    }
}

/// The identifier of the session whose log lies at `path`: the stem of the
/// file's name; none for a path without a file name.
pub open spec fn session_id_text(path: PathView) -> Option<Seq<char>> {
    if path.names.len() > 0 && path.names.last() != ".."@ {
        Some(stem_of(path.names.last()))
    } else {
        None
    }
}

/// Reads the identifier of a session off the path of its log.
pub fn session_id(path: &PathParts) -> (id: Option<String>)
    ensures
        match id {
            Some(text) => session_id_text(path@) == Some(text@),
            None => session_id_text(path@) is None,
        },
{
    let count = path.names.len();
    if count == 0 || same_dots(&path.names[count - 1]) {
        return None;
    }
    let name = chars_of(path.names[count - 1].as_str());
    let mut end: usize = name.len();
    assert(name@.take(end as int) == name@);
    while end > 0 && name[end - 1] != '.'
        invariant
            end <= name.len(),
            last_dot(name@) == last_dot(name@.take(end as int)),
        decreases end,
    {
        assert(name@.take(end as int).drop_last() == name@.take(end - 1));
        end -= 1;
    }
    // `end` is one past the last dot, or zero where there is none
    if end <= 1 {
        assert(last_dot(name@) <= 0);
        return Some(path.names[count - 1].clone());
    }
    assert(last_dot(name@) == end - 1);
    let mut stem: Vec<char> = Vec::new();
    let mut i: usize = 0;
    while i < end - 1
        invariant
            i <= end - 1 < name.len(),
            stem@ == name@.take(i as int),
        decreases end - 1 - i,
    {
        stem.push(name[i]);
        assert(name@.take(i + 1) == name@.take(i as int).push(name@[i as int]));
        i += 1;
    }
    Some(string_from_chars(&stem))
}

} // verus!
