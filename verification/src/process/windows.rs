//! Which program a command means on Windows.
//!
//! A bare name is looked for in the absolute entries of the search path, under each of the
//! extensions of programs. Batch files are refused: running one would put a shell between the
//! host and the child.

use vstd::prelude::*;

use crate::text::{
    ascii_lowered, chars_of, concat2, concat3, contains_char, eq_ignore_ascii_case, rsplit_once, segments, split,
    split_last, starts_with, str_eq, views,
};

verus! {

/// What the search for a program found.
pub enum ProgramSearch {
    /// The command is a path, and this is where it really is, or why it is nowhere.
    Explicit(Result<String, String>),
    /// The command is a bare name and there is no search path.
    NoPath,
    /// The command is a bare name, and this is the first file of such a name.
    Listed(Option<Result<String, String>>),
}

/// The value of a variable whatever the case of its key. The first one counts.
pub open spec fn env_text(env: Seq<(String, String)>, key: Seq<char>) -> Option<Seq<char>>
    decreases env.len(),
{
    if env.len() == 0 {
        None
    } else {
        match env_text(env.drop_last(), key) {
            Some(value) => Some(value),
            None => if ascii_lowered(env.last().0@) == ascii_lowered(key) {
                Some(env.last().1@)
            } else {
                None
            },
        }
    }
}

/// The value of a variable whatever the case of its key.
pub fn env_value(env: &Vec<(String, String)>, key: &str) -> (value: Option<String>)
    ensures
        match value {
            Some(text) => env_text(env@, key@) == Some(text@),
            None => env_text(env@, key@) is None,
        },
{
    let mut i: usize = 0;
    let mut found: Option<String> = None;
    proof {
        assert(env@.take(0) =~= Seq::<(String, String)>::empty());
    }
    while i < env.len()
        invariant
            i <= env@.len(),
            match found {
                Some(text) => env_text(env@.take(i as int), key@) == Some(text@),
                None => env_text(env@.take(i as int), key@) is None,
            },
        decreases env.len() - i,
    {
        proof {
            assert(env@.take(i + 1).drop_last() =~= env@.take(i as int));
            assert(env@.take(i + 1).last() == env@[i as int]);
        }
        if found.is_none() && eq_ignore_ascii_case(env[i].0.as_str(), key) {
            found = Some(env[i].1.clone());
        }
        i += 1;
    }
    assert(env@.take(env@.len() as int) =~= env@);
    found
}

/// The extensions among `parts`, each with its dot.
pub open spec fn dotted(parts: Seq<Seq<char>>) -> Seq<Seq<char>>
    decreases parts.len(),
{
    if parts.len() == 0 {
        Seq::empty()
    } else {
        let before = dotted(parts.drop_last());
        if parts.last().len() == 0 {
            before
        } else if "."@.is_prefix_of(parts.last()) {
            before.push(parts.last())
        } else {
            before.push("."@ + parts.last())
        }
    }
}

/// The extensions of programs: those that the environment lists, or the two that there always
/// are.
pub open spec fn extensions(env: Seq<(String, String)>) -> Seq<Seq<char>> {
    match env_text(env, "PATHEXT"@) {
        Some(text) if dotted(segments(text, ';')).len() > 0 => dotted(segments(text, ';')),
        _ => seq![".COM"@, ".EXE"@],
    }
}

/// The extensions of programs.
pub fn windows_executable_extensions(env: &Vec<(String, String)>) -> (list: Vec<String>)
    ensures
        views(list@) == extensions(env@),
{
    let mut list: Vec<String> = Vec::new();
    match env_value(env, "PATHEXT") {
        None => {},
        Some(text) => {
            let parts = split(text.as_str(), ';');
            let ghost all = segments(text@, ';');
            let mut i: usize = 0;
            proof {
                assert(all.take(0) =~= Seq::<Seq<char>>::empty());
                assert(views(list@) =~= dotted(all.take(0)));
            }
            while i < parts.len()
                invariant
                    i <= parts@.len(),
                    all == views(parts@),
                    views(list@) == dotted(all.take(i as int)),
                decreases parts.len() - i,
            {
                proof {
                    assert(all.take(i + 1).drop_last() =~= all.take(i as int));
                    assert(all.take(i + 1).last() == parts@[i as int]@);
                }
                let ghost before = list@;
                let part = parts[i].as_str();
                if !str_eq(part, "") {
                    proof {
                        reveal_strlit("");
                        if part@.len() == 0 {
                            assert(part@ =~= ""@);
                        }
                    }
                    if starts_with(part, ".") {
                        list.push(part.to_owned());
                        assert(views(list@) =~= views(before).push(part@));
                    } else {
                        list.push(concat2(".", part));
                        assert(views(list@) =~= views(before).push("."@ + part@));
                    }
                } else {
                    proof {
                        reveal_strlit("");
                    }
                }
                i += 1;
            }
            assert(all.take(all.len() as int) =~= all);
        },
    }
    if list.len() == 0 {
        list.push(".COM".to_owned());
        list.push(".EXE".to_owned());
        assert(views(list@) =~= seq![".COM"@, ".EXE"@]);
    }
    list
}

/// The extension of a file name: what follows its last dot, unless nothing stands before it.
pub open spec fn extension_of(name: Seq<char>) -> Option<Seq<char>> {
    match split_last(name, '.') {
        Some((before, after)) if before.len() > 0 && name != ".."@ => Some(after),
        _ => None,
    }
}

/// The extension of a file name.
pub fn extension(name: &str) -> (r: Option<String>)
    ensures
        match r {
            Some(text) => extension_of(name@) == Some(text@),
            None => extension_of(name@) is None,
        },
{
    match rsplit_once(name, '.') {
        None => None,
        Some((before, after)) => {
            proof {
                reveal_strlit("");
                if before@.len() == 0 {
                    assert(before@ =~= ""@);
                }
            }
            if str_eq(before.as_str(), "") || str_eq(name, "..") {
                None
            } else {
                Some(after)
            }
        },
    }
}

/// The text with every backslash as a slash: both separate the parts of a path.
pub open spec fn slashed(text: Seq<char>) -> Seq<char> {
    Seq::new(
        text.len(),
        |i: int|
            if text[i] == '\\' {
                '/'
            } else {
                text[i]
            },
    )
}

/// The text with every backslash as a slash.
fn to_slashes(text: &str) -> (r: String)
    ensures
        r@ == slashed(text@),
{
    let chars = chars_of(text);
    let mut out: String = String::new();
    let mut i: usize = 0;
    while i < chars.len()
        invariant
            i <= chars@.len(),
            chars@ == text@,
            out@ == slashed(text@).take(i as int),
        decreases chars.len() - i,
    {
        if chars[i] == '\\' {
            out.push('/');
        } else {
            out.push(chars[i]);
        }
        assert(out@ =~= slashed(text@).take(i + 1));
        i += 1;
    }
    assert(out@ =~= slashed(text@));
    out
}

/// The parts of a path.
pub open spec fn parts_of(path: Seq<char>) -> Seq<Seq<char>> {
    segments(slashed(path), '/')
}

/// The path begins with the letter of a drive.
pub open spec fn on_drive(path: Seq<char>) -> bool {
    &&& path.len() >= 2
    &&& ('a' <= path[0] && path[0] <= 'z') || ('A' <= path[0] && path[0] <= 'Z')
    &&& path[1] == ':'
}

/// The path is absolute: it begins at the root of a drive, or with the names of a server and of a
/// share.
pub open spec fn is_absolute(path: Seq<char>) -> bool {
    ||| on_drive(path) && path.len() >= 3 && slashed(path)[2] == '/'
    ||| {
        &&& parts_of(path).len() >= 4
        &&& parts_of(path)[0].len() == 0
        &&& parts_of(path)[1].len() == 0
        &&& parts_of(path)[2].len() > 0
        &&& parts_of(path)[3].len() > 0
    }
}

/// The part adds nothing to a path that it stands in.
pub open spec fn adds_nothing(part: Seq<char>) -> bool {
    part.len() == 0 || part == "."@
}

/// The command is a bare name and no path: one part that is a name, followed by nothing that adds to
/// it, and no drive.
pub open spec fn is_bare(command: Seq<char>) -> bool {
    &&& !on_drive(command)
    &&& !adds_nothing(parts_of(command)[0])
    &&& parts_of(command)[0] != ".."@
    &&& forall|i: int|
        0 < i < parts_of(command).len() ==> adds_nothing(#[trigger] parts_of(command)[i])
}

/// Whether the path begins with the letter of a drive.
fn has_drive(chars: &Vec<char>) -> (r: bool)
    ensures
        r == on_drive(chars@),
{
    chars.len() >= 2 && (('a' <= chars[0] && chars[0] <= 'z') || ('A' <= chars[0] && chars[0]
        <= 'Z')) && chars[1] == ':'
}

/// Whether a text is empty.
fn is_empty(text: &str) -> (r: bool)
    ensures
        r == (text@.len() == 0),
{
    proof {
        reveal_strlit("");
        if text@.len() == 0 {
            assert(text@ =~= ""@);
        }
    }
    str_eq(text, "")
}

/// Whether the path is absolute.
pub fn absolute_path(path: &str) -> (r: bool)
    ensures
        r == is_absolute(path@),
{
    let chars = chars_of(path);
    if has_drive(&chars) && chars.len() >= 3 && (chars[2] == '\\' || chars[2] == '/') {
        return true;
    }
    let parts = split(to_slashes(path).as_str(), '/');
    proof {
        assert(views(parts@) == parts_of(path@));
        assert(parts@.len() == parts_of(path@).len());
        assert forall|i: int| 0 <= i < parts@.len() implies parts_of(path@)[i] == (
        #[trigger] parts@[i])@ by {}
    }
    parts.len() >= 4 && is_empty(parts[0].as_str()) && is_empty(parts[1].as_str()) && !is_empty(
        parts[2].as_str(),
    ) && !is_empty(parts[3].as_str())
}

/// Whether the command is a bare name and no path.
pub fn bare_name(command: &str) -> (r: bool)
    ensures
        r == is_bare(command@),
{
    let chars = chars_of(command);
    if has_drive(&chars) {
        return false;
    }
    let parts = split(to_slashes(command).as_str(), '/');
    proof {
        assert(views(parts@) == parts_of(command@));
        assert(parts@.len() == parts_of(command@).len());
        assert forall|i: int| 0 <= i < parts@.len() implies parts_of(command@)[i] == (
        #[trigger] parts@[i])@ by {}
    }
    let first = parts[0].as_str();
    if is_empty(first) || str_eq(first, ".") || str_eq(first, "..") {
        return false;
    }
    let mut i: usize = 1;
    while i < parts.len()
        invariant
            1 <= i <= parts@.len(),
            parts@.len() == parts_of(command@).len(),
            forall|k: int|
                0 <= k < parts@.len() ==> parts_of(command@)[k] == (#[trigger] parts@[k])@,
            forall|k: int| 0 < k < i ==> adds_nothing(#[trigger] parts_of(command@)[k]),
        decreases parts.len() - i,
    {
        let part = parts[i].as_str();
        if !is_empty(part) && !str_eq(part, ".") {
            assert(!adds_nothing(parts_of(command@)[i as int]));
            return false;
        }
        i += 1;
    }
    true
}

/// The file names that a bare command can mean: itself where its name has an extension, else itself
/// with each of the extensions of programs.
pub open spec fn candidate_names(requested: Seq<char>, programs: Seq<Seq<char>>) -> Seq<Seq<char>> {
    if extension_of(parts_of(requested)[0]) is Some {
        seq![requested]
    } else {
        Seq::new(programs.len(), |i: int| requested + programs[i])
    }
}

/// The file names that a bare command can mean.
pub fn windows_candidates(requested: &str, programs: &Vec<String>) -> (names: Vec<String>)
    ensures
        views(names@) == candidate_names(requested@, views(programs@)),
{
    let mut names: Vec<String> = Vec::new();
    let parts = split(to_slashes(requested).as_str(), '/');
    assert(views(parts@)[0] == parts@[0]@);
    if extension(parts[0].as_str()).is_some() {
        names.push(requested.to_owned());
        assert(views(names@) =~= seq![requested@]);
        return names;
    }
    let mut i: usize = 0;
    while i < programs.len()
        invariant
            i <= programs@.len(),
            names@.len() == i,
            forall|k: int| 0 <= k < i ==> (#[trigger] names@[k])@ == requested@ + programs@[k]@,
        decreases programs.len() - i,
    {
        names.push(concat2(requested, programs[i].as_str()));
        i += 1;
    }
    assert(views(names@) =~= candidate_names(requested@, views(programs@)));
    names
}

/// A place to look for a program: a directory and the name of a file in it.
pub struct Place {
    pub directory: String,
    pub name: String,
}

/// A place as a value.
pub open spec fn place_view(place: Place) -> (Seq<char>, Seq<char>) {
    (place.directory@, place.name@)
}

/// The places as values.
pub open spec fn place_views(places: Seq<Place>) -> Seq<(Seq<char>, Seq<char>)> {
    Seq::new(places.len(), |i: int| place_view(places[i]))
}

/// Every name in every directory that is absolute: directory by directory, and in each name by name.
pub open spec fn places_in(directories: Seq<Seq<char>>, names: Seq<Seq<char>>) -> Seq<
    (Seq<char>, Seq<char>),
>
    decreases directories.len(),
{
    if directories.len() == 0 {
        Seq::empty()
    } else {
        let before = places_in(directories.drop_last(), names);
        let directory = directories.last();
        if is_absolute(directory) {
            before + Seq::new(names.len(), |i: int| (directory, names[i]))
        } else {
            before
        }
    }
}

/// How to look for the program that a command means.
pub enum ProgramPlan {
    /// There is no such program, for this reason.
    Refused(String),
    /// The command is a path by itself.
    Absolute,
    /// The command is a path in the working directory.
    UnderCwd,
    /// The program is the first file among these places.
    Search(Vec<Place>),
}

/// How to look for a program, as a value.
pub enum PlanView {
    Refused(Seq<char>),
    Absolute,
    UnderCwd,
    Search(Seq<(Seq<char>, Seq<char>)>),
}

impl View for ProgramPlan {
    type V = PlanView;

    open spec fn view(&self) -> PlanView {
        match *self {
            ProgramPlan::Refused(text) => PlanView::Refused(text@),
            ProgramPlan::Absolute => PlanView::Absolute,
            ProgramPlan::UnderCwd => PlanView::UnderCwd,
            ProgramPlan::Search(places) => PlanView::Search(place_views(places@)),
        }
    }
}

/// How to look for the program that a command means. A path is taken as it is; a bare name is looked
/// for in the absolute entries of the search path, in their order.
pub open spec fn plan_of(
    command: Seq<char>,
    env: Seq<(String, String)>,
    entries: Seq<Seq<char>>,
) -> PlanView {
    if command.len() == 0 || command.contains('\0') {
        PlanView::Refused("process command is empty or contains a null byte"@)
    } else if is_absolute(command) {
        PlanView::Absolute
    } else if !is_bare(command) {
        PlanView::UnderCwd
    } else if env_text(env, "PATH"@) is None {
        PlanView::Refused("PATH is not set while resolving process command"@)
    } else {
        PlanView::Search(places_in(entries, candidate_names(command, extensions(env))))
    }
}

/// How to look for the program that a command means. `entries` are those of the search path.
pub fn program_plan(command: &str, env: &Vec<(String, String)>, entries: &Vec<String>) -> (plan:
    ProgramPlan)
    ensures
        plan@ == plan_of(command@, env@, views(entries@)),
{
    if is_empty(command) || contains_char(command, '\0') {
        return ProgramPlan::Refused("process command is empty or contains a null byte".to_owned());
    }
    if absolute_path(command) {
        return ProgramPlan::Absolute;
    }
    if !bare_name(command) {
        return ProgramPlan::UnderCwd;
    }
    if env_value(env, "PATH").is_none() {
        return ProgramPlan::Refused("PATH is not set while resolving process command".to_owned());
    }
    let names = windows_candidates(command, &windows_executable_extensions(env));
    ProgramPlan::Search(places(entries, &names))
}

/// Every name in every directory that is absolute.
fn places(directories: &Vec<String>, names: &Vec<String>) -> (list: Vec<Place>)
    ensures
        place_views(list@) == places_in(views(directories@), views(names@)),
{
    let ghost all = views(directories@);
    let mut list: Vec<Place> = Vec::new();
    assert(all.take(0) =~= Seq::<Seq<char>>::empty());
    assert(place_views(list@) =~= places_in(all.take(0), views(names@)));
    let mut i: usize = 0;
    while i < directories.len()
        invariant
            i <= directories@.len(),
            all == views(directories@),
            place_views(list@) == places_in(all.take(i as int), views(names@)),
        decreases directories.len() - i,
    {
        let directory = directories[i].as_str();
        let ghost before = place_views(list@);
        proof {
            assert(all.take(i + 1).drop_last() =~= all.take(i as int));
            assert(all.take(i + 1).last() == directory@);
        }
        if absolute_path(directory) {
            let ghost here = Seq::new(
                views(names@).len(),
                |j: int| (directory@, views(names@)[j]),
            );
            let mut k: usize = 0;
            assert(here.take(0) =~= Seq::<(Seq<char>, Seq<char>)>::empty());
            assert(place_views(list@) =~= before + here.take(0));
            while k < names.len()
                invariant
                    k <= names@.len(),
                    here == Seq::new(
                        views(names@).len(),
                        |j: int| (directory@, views(names@)[j]),
                    ),
                    place_views(list@) == before + here.take(k as int),
                decreases names.len() - k,
            {
                let ghost earlier = list@;
                list.push(Place { directory: directory.to_owned(), name: names[k].clone() });
                proof {
                    let place = (directory@, names@[k as int]@);
                    assert(place_views(list@) =~= place_views(earlier).push(place));
                    assert(here.take(k + 1) =~= here.take(k as int).push(place));
                    assert(place_views(list@) =~= before + here.take(k + 1));
                }
                k += 1;
            }
            assert(here.take(here.len() as int) =~= here);
        }
        i += 1;
    }
    assert(all.take(all.len() as int) =~= all);
    list
}

/// There is a file in none of the places.
pub open spec fn no_file(files: Seq<bool>) -> bool {
    forall|k: int| 0 <= k < files.len() ==> !(#[trigger] files[k])
}

/// The place at `i` is the first with a file.
pub open spec fn first_file(files: Seq<bool>, i: int) -> bool {
    0 <= i < files.len() && files[i] && forall|k: int| 0 <= k < i ==> !(#[trigger] files[k])
}

/// Which of the places has the program, given whether each has a file.
pub fn chosen_place(files: &Vec<bool>) -> (at: Option<usize>)
    ensures
        match at {
            Some(i) => first_file(files@, i as int),
            None => no_file(files@),
        },
{
    let mut i: usize = 0;
    while i < files.len()
        invariant
            i <= files@.len(),
            forall|k: int| 0 <= k < i ==> !(#[trigger] files@[k]),
        decreases files.len() - i,
    {
        if files[i] {
            return Some(i);
        }
        i += 1;
    }
    None
}

/// Where a program really is, or why it is nowhere. `canonical` is what came of following the path,
/// and `is_file` is whether a file is there.
pub fn resolve_windows_candidate(
    path: &str,
    canonical: &Result<String, String>,
    is_file: bool,
) -> (r: Result<String, String>)
    ensures
        match *canonical {
            Err(error) => r is Err && r->Err_0@ == "cannot resolve process executable "@ + path@
                + ": "@ + error@,
            Ok(actual) => if is_file {
                r == Ok::<String, String>(actual)
            } else {
                r is Err && r->Err_0@ == "process executable is not a file: "@ + actual@
            },
        },
{
    match canonical {
        Err(error) => {
            let head = concat3("cannot resolve process executable ", path, ": ");
            Err(concat2(head.as_str(), error.as_str()))
        },
        Ok(actual) => {
            if is_file {
                return Ok(actual.clone());
            }
            Err(concat2("process executable is not a file: ", actual.as_str()))
        },
    }
}

/// A bare name is never looked for in a directory that is not absolute, nor under any name but those
/// that it can mean.
pub proof fn law_search_stays_in_absolute_directories(
    directories: Seq<Seq<char>>,
    names: Seq<Seq<char>>,
    i: int,
)
    requires
        0 <= i < places_in(directories, names).len(),
    ensures
        is_absolute(places_in(directories, names)[i].0),
        directories.contains(places_in(directories, names)[i].0),
        names.contains(places_in(directories, names)[i].1),
    decreases directories.len(),
{
    let rest = directories.drop_last();
    let before = places_in(rest, names);
    if i < before.len() {
        law_search_stays_in_absolute_directories(rest, names, i);
        let k = choose|k: int| 0 <= k < rest.len() && rest[k] == before[i].0;
        assert(directories[k] == before[i].0);
    } else {
        assert(directories[directories.len() - 1] == places_in(directories, names)[i].0);
        assert(names[i - before.len()] == places_in(directories, names)[i].1);
    }
}

/// What follows the last separator of a path.
pub open spec fn last_part(path: Seq<char>) -> Seq<char> {
    segments(segments(path, '\\').last(), '/').last()
}

/// The path leads to a batch file.
pub open spec fn is_batch(path: Seq<char>) -> bool {
    match extension_of(last_part(path)) {
        Some(text) => ascii_lowered(text) == ascii_lowered("cmd"@) || ascii_lowered(text)
            == ascii_lowered("bat"@),
        None => false,
    }
}

/// Whether a path leads to a batch file.
pub fn leads_to_batch(path: &str) -> (r: bool)
    ensures
        r == is_batch(path@),
{
    let parts = split(path, '\\');
    let tail = parts[parts.len() - 1].as_str();
    assert(views(parts@).last() == tail@);
    let pieces = split(tail, '/');
    let name = pieces[pieces.len() - 1].as_str();
    assert(views(pieces@).last() == name@);
    match extension(name) {
        Some(text) => eq_ignore_ascii_case(text.as_str(), "cmd") || eq_ignore_ascii_case(
            text.as_str(),
            "bat",
        ),
        None => false,
    }
}

/// The program that a command means, or why there is none.
pub open spec fn program_of(command: Seq<char>, search: ProgramSearch) -> Result<
    Seq<char>,
    Seq<char>,
> {
    if command.len() == 0 || command.contains('\0') {
        Err("process command is empty or contains a null byte"@)
    } else {
        let candidate = match search {
            ProgramSearch::Explicit(Ok(path)) => Ok(path@),
            ProgramSearch::Explicit(Err(text)) => Err(text@),
            ProgramSearch::NoPath => Err("PATH is not set while resolving process command"@),
            ProgramSearch::Listed(Some(Ok(path))) => Ok(path@),
            ProgramSearch::Listed(Some(Err(text))) => Err(text@),
            ProgramSearch::Listed(None) => Err(
                "process command not found in absolute PATH entries: "@ + command,
            ),
        };
        match candidate {
            Ok(path) if is_batch(path) => Err(
                "batch files require an explicit cmd.exe invocation"@,
            ),
            other => other,
        }
    }
}

/// The program that a command means, or why there is none.
pub fn resolve_windows_program(command: &str, search: &ProgramSearch) -> (r: Result<
    String,
    String,
>)
    ensures
        match r {
            Ok(path) => program_of(command@, *search) == Ok::<Seq<char>, Seq<char>>(path@),
            Err(text) => program_of(command@, *search) == Err::<Seq<char>, Seq<char>>(text@),
        },
{
    proof {
        reveal_strlit("");
        if command@.len() == 0 {
            assert(command@ =~= ""@);
        }
    }
    if str_eq(command, "") || contains_char(command, '\0') {
        return Err("process command is empty or contains a null byte".to_owned());
    }
    let path = match search {
        ProgramSearch::Explicit(Ok(path)) => path,
        ProgramSearch::Explicit(Err(text)) => {
            return Err(text.clone());
        },
        ProgramSearch::NoPath => {
            return Err("PATH is not set while resolving process command".to_owned());
        },
        ProgramSearch::Listed(Some(Ok(path))) => path,
        ProgramSearch::Listed(Some(Err(text))) => {
            return Err(text.clone());
        },
        ProgramSearch::Listed(None) => {
            return Err(concat2("process command not found in absolute PATH entries: ", command));
        },
    };
    if leads_to_batch(path.as_str()) {
        return Err("batch files require an explicit cmd.exe invocation".to_owned());
    }
    Ok(path.clone())
}

/// What a search that followed a plan found. `found` is what came of the path, or of the first file
/// among the places, if there is one.
pub open spec fn search_of(plan: PlanView, found: Option<Result<String, String>>) -> ProgramSearch {
    match plan {
        PlanView::Refused(_) => ProgramSearch::NoPath,
        PlanView::Search(_) => ProgramSearch::Listed(found),
        _ => ProgramSearch::Explicit(found->Some_0),
    }
}

/// The program that a command means, or why there is none, once its plan was followed.
pub fn resolve_planned_program(
    command: &str,
    env: &Vec<(String, String)>,
    entries: &Vec<String>,
    found: &Option<Result<String, String>>,
) -> (r: Result<String, String>)
    requires
        (plan_of(command@, env@, views(entries@)) is Absolute || plan_of(
            command@,
            env@,
            views(entries@),
        ) is UnderCwd) ==> *found is Some,
    ensures
        ({
            let search = search_of(plan_of(command@, env@, views(entries@)), *found);
            match r {
                Ok(path) => program_of(command@, search) == Ok::<Seq<char>, Seq<char>>(path@),
                Err(text) => program_of(command@, search) == Err::<Seq<char>, Seq<char>>(text@),
            }
        }),
{
    let search = match program_plan(command, env, entries) {
        ProgramPlan::Refused(_) => ProgramSearch::NoPath,
        ProgramPlan::Search(_) => ProgramSearch::Listed(copy_found(found)),
        _ => match copy_found(found) {
            Some(answer) => ProgramSearch::Explicit(answer),
            None => ProgramSearch::NoPath,
        },
    };
    resolve_windows_program(command, &search)
}

/// The same finding.
fn copy_found(found: &Option<Result<String, String>>) -> (r: Option<Result<String, String>>)
    ensures
        r == *found,
{
    match found {
        None => None,
        Some(Ok(path)) => Some(Ok(path.clone())),
        Some(Err(text)) => Some(Err(text.clone())),
    }
}

/// No batch file is ever run.
pub proof fn law_no_batch_file_runs(command: Seq<char>, search: ProgramSearch)
    requires
        program_of(command, search) is Ok,
    ensures
        !is_batch(program_of(command, search)->Ok_0),
        !command.contains('\0'),
{
}

} // verus!
