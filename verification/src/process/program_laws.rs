//! What holds of the search for a program on Windows.

use vstd::prelude::*;

use crate::process::windows::{
    absolute_path, adds_nothing, bare_name, candidate_names, chosen_place, dotted, env_text,
    env_value, extension, extensions, last_part, leads_to_batch, parts_of, place_view, place_views,
    places_in, program_plan, resolve_windows_candidate, resolve_windows_program, slashed,
    windows_candidates, windows_executable_extensions, ProgramPlan, ProgramSearch,
};
use crate::text::{ascii_lowered, eq_ignore_ascii_case, segments, views};
use crate::text_laws::{
    lemma_one_piece, lemma_segments_between, lemma_split_between, lemma_split_last,
};

verus! {

/// A variable is found whatever the case of its name, and the first of two of the same name counts.
pub proof fn law_variables_are_found_in_any_case(
    env: &Vec<(String, String)>,
    key: &str,
    i: int,
    name: &str,
    same: bool,
    value: Option<String>,
)
    requires
        call_ensures(env_value, (env, key), value),
        0 <= i < env@.len(),
        name@ == env@[i].0@,
        call_ensures(eq_ignore_ascii_case, (name, key), same),
        same,
    ensures
        value is Some,
        (forall|k: int|
            0 <= k < i ==> ascii_lowered((#[trigger] env@[k]).0@) != ascii_lowered(key@))
            ==> value->Some_0@ == env@[i].1@,
{
    lemma_env_text(env@, key@, i);
}

/// The value of a variable is that of the first of its name.
proof fn lemma_env_text(env: Seq<(String, String)>, key: Seq<char>, i: int)
    requires
        0 <= i < env.len(),
        ascii_lowered(env[i].0@) == ascii_lowered(key),
    ensures
        env_text(env, key) is Some,
        (forall|k: int| 0 <= k < i ==> ascii_lowered((#[trigger] env[k]).0@) != ascii_lowered(key))
            ==> env_text(env, key) == Some(env[i].1@),
    decreases env.len(),
{
    let rest = env.drop_last();
    if i < rest.len() {
        lemma_env_text(rest, key, i);
        if forall|k: int|
            0 <= k < i ==> ascii_lowered((#[trigger] env[k]).0@) != ascii_lowered(key) {
            assert forall|k: int| 0 <= k < i implies ascii_lowered((#[trigger] rest[k]).0@)
                != ascii_lowered(key) by {
                assert(rest[k] == env[k]);
            }
        }
    } else if forall|k: int|
        0 <= k < i ==> ascii_lowered((#[trigger] env[k]).0@) != ascii_lowered(key) {
        lemma_no_env_text(env, key, i);
        assert(env.take(i) =~= rest);
    }
}

/// A variable that nothing before `n` is named like has no value there.
proof fn lemma_no_env_text(env: Seq<(String, String)>, key: Seq<char>, n: int)
    requires
        0 <= n <= env.len(),
        forall|k: int| 0 <= k < n ==> ascii_lowered((#[trigger] env[k]).0@) != ascii_lowered(key),
    ensures
        env_text(env.take(n), key) is None,
    decreases n,
{
    if n > 0 {
        lemma_no_env_text(env, key, n - 1);
        assert(env.take(n).drop_last() =~= env.take(n - 1));
        assert(env.take(n).last() == env[n - 1]);
    }
}

/// Without a list of its own the environment runs two kinds of programs; a list of one or two kinds
/// is taken as it stands, with a dot before what has none.
pub proof fn law_kinds_of_programs(
    none: &Vec<(String, String)>,
    defaults: Vec<String>,
    env: &Vec<(String, String)>,
    list: Vec<String>,
    a: Seq<char>,
    b: Seq<char>,
)
    requires
        none@.len() == 0,
        call_ensures(windows_executable_extensions, (none,), defaults),
        env@.len() == 1 && env@[0].0@ == "PATHEXT"@,
        call_ensures(windows_executable_extensions, (env,), list),
        a.len() > 0 && a[0] == '.' && !a.contains(';'),
        b.len() > 0 && b[0] != '.' && !b.contains(';'),
    ensures
        defaults@.len() == 2 && defaults@[0]@ == ".COM"@ && defaults@[1]@ == ".EXE"@,
        env@[0].1@ == a + seq![';'] + b ==> list@.len() == 2 && list@[0]@ == a && list@[1]@
            == "."@ + b,
{
    reveal_strlit(".");
    reveal_with_fuel(env_text, 2);
    let base = views(defaults@);
    assert(base == seq![".COM"@, ".EXE"@]);
    assert(base.len() == defaults@.len());
    assert(base[0] == defaults@[0]@ && base[1] == defaults@[1]@);
    if env@[0].1@ == a + seq![';'] + b {
        lemma_segments_between(a, ';', b);
        lemma_one_piece(a, ';');
        lemma_one_piece(b, ';');
        let pieces = segments(env@[0].1@, ';');
        assert(pieces =~= seq![a, b]);
        assert(env@.drop_last() =~= Seq::empty());
        assert(env_text(env@, "PATHEXT"@) == Some(env@[0].1@));
        reveal_with_fuel(dotted, 3);
        assert(pieces.drop_last() =~= seq![a]);
        assert(pieces.drop_last().drop_last() =~= Seq::empty());
        assert("."@.is_prefix_of(a));
        assert(!"."@.is_prefix_of(b)) by {
            if "."@.is_prefix_of(b) {
                assert(b.subrange(0, "."@.len() as int)[0] == b[0]);
            }
        }
        let kinds = dotted(pieces);
        assert(kinds =~= seq![a, "."@ + b]);
        let shown = views(list@);
        assert(shown == kinds);
        assert(shown.len() == list@.len());
        assert(shown[0] == list@[0]@ && shown[1] == list@[1]@);
    }
}

/// The extension of a name is what follows its last dot, unless the dot stands at its beginning.
pub proof fn law_extensions_follow_the_last_dot(
    name: &str,
    stem: Seq<char>,
    ext: Seq<char>,
    r: Option<String>,
)
    requires
        call_ensures(extension, (name,), r),
    ensures
        name@ == stem + seq!['.'] + ext && !ext.contains('.') && stem.len() > 0 && name@ != ".."@
            ==> r is Some && r->Some_0@ == ext,
        !name@.contains('.') ==> r is None,
        name@ == seq!['.'] + ext && !ext.contains('.') ==> r is None,
{
    if name@ == stem + seq!['.'] + ext && !ext.contains('.') {
        lemma_split_between(stem, '.', ext);
    }
    lemma_split_last(name@, '.');
    if name@ == seq!['.'] + ext && !ext.contains('.') {
        lemma_split_between(Seq::empty(), '.', ext);
        assert(Seq::<char>::empty() + seq!['.'] + ext =~= name@);
    }
}

/// A path is absolute from the root of a drive, whichever slash stands there; a drive alone and a
/// name alone are not.
pub proof fn law_absolute_paths_on_windows(path: &str, r: bool)
    requires
        call_ensures(absolute_path, (path,), r),
    ensures
        path@.len() >= 3 && (97 <= path@[0] as int <= 122 || 65 <= path@[0] as int <= 90) && path@[1]
            == ':' && (path@[2] == '\\' || path@[2] == '/') ==> r,
        path@.len() == 2 ==> !r,
        path@.len() > 0 && !path@.contains('/') && !path@.contains('\\') ==> !r,
{
    if path@.len() > 0 && !path@.contains('/') && !path@.contains('\\') {
        lemma_no_slash(path@);
        if path@.len() >= 3 {
            assert(path@[2] != '/' && path@[2] != '\\');
        }
    } else if path@.len() == 2 {
        lemma_few_pieces(slashed(path@), '/');
    }
}

/// A text has at most one piece more than it has characters.
proof fn lemma_few_pieces(s: Seq<char>, sep: char)
    ensures
        0 < segments(s, sep).len() <= s.len() + 1,
    decreases s.len(),
{
    if s.len() > 0 {
        lemma_few_pieces(s.drop_last(), sep);
    }
}

/// A text without slashes is its only part.
proof fn lemma_no_slash(path: Seq<char>)
    requires
        !path.contains('/'),
        !path.contains('\\'),
    ensures
        parts_of(path) == seq![path],
{
    assert(slashed(path) =~= path) by {
        assert forall|i: int| 0 <= i < path.len() implies slashed(path)[i] == path[i] by {
            assert(path[i] != '\\');
        }
    }
    lemma_one_piece(path, '/');
}

/// A name without a drive and without slashes is bare, unless it is one of the two that mean
/// directories; a name after a directory is not.
pub proof fn law_bare_names(command: &str, r: bool, dir: Seq<char>, name: Seq<char>)
    requires
        call_ensures(bare_name, (command,), r),
    ensures
        command@.len() > 0 && !command@.contains('/') && !command@.contains('\\')
            && !command@.contains(':') && command@ != "."@ && command@ != ".."@ ==> r,
        command@ == "."@ || command@ == ".."@ || command@.len() == 0 ==> !r,
        command@ == dir + seq!['/'] + name && name.len() > 0 && name != "."@ && !name.contains('/')
            && !name.contains('\\') && !dir.contains('\\') ==> !r,
{
    if !command@.contains('/') && !command@.contains('\\') {
        lemma_no_slash(command@);
        if command@.len() >= 2 && !command@.contains(':') {
            assert(command@[1] != ':');
        }
    }
    if command@ == "."@ || command@ == ".."@ {
        reveal_strlit(".");
        reveal_strlit("..");
        assert(!command@.contains('/'));
        assert(!command@.contains('\\'));
        lemma_no_slash(command@);
    }
    if command@.len() == 0 {
        assert(slashed(command@) =~= Seq::empty());
    }
    if command@ == dir + seq!['/'] + name && name.len() > 0 && name != "."@ && !name.contains('/')
        && !name.contains('\\') && !dir.contains('\\') {
        assert(!command@.contains('\\')) by {
            if command@.contains('\\') {
                let k = choose|k: int| 0 <= k < command@.len() && command@[k] == '\\';
                if k < dir.len() {
                    assert(dir[k] == '\\');
                } else if k > dir.len() {
                    assert(name[k - dir.len() - 1] == '\\');
                }
            }
        }
        assert(slashed(command@) =~= command@) by {
            assert forall|i: int| 0 <= i < command@.len() implies slashed(command@)[i]
                == command@[i] by {
                assert(command@[i] != '\\');
            }
        }
        lemma_segments_between(dir, '/', name);
        lemma_one_piece(name, '/');
        crate::text::lemma_segments_nonempty(dir, '/');
        let parts = parts_of(command@);
        assert(parts[parts.len() - 1] == name);
        assert(!adds_nothing(parts[parts.len() - 1]));
    }
}

/// A name with an extension is looked for as it is; one without is looked for with each extension in
/// turn.
pub proof fn law_names_to_look_for(
    requested: &str,
    programs: &Vec<String>,
    names: Vec<String>,
    ext: Option<String>,
    i: int,
)
    requires
        call_ensures(windows_candidates, (requested, programs), names),
        !requested@.contains('/') && !requested@.contains('\\'),
        call_ensures(extension, (requested,), ext),
        0 <= i < programs@.len(),
    ensures
        ext is Some ==> names@.len() == 1 && names@[0]@ == requested@,
        ext is None ==> names@.len() == programs@.len() && names@[i]@ == requested@
            + programs@[i]@,
{
    lemma_no_slash(requested@);
    let shown = views(names@);
    let wanted = candidate_names(requested@, views(programs@));
    assert(shown == wanted);
    assert(shown.len() == names@.len());
    if ext is Some {
        assert(shown[0] == names@[0]@);
    } else {
        assert(shown[i] == names@[i]@);
        assert(views(programs@)[i] == programs@[i]@);
    }
}

/// A command that is empty or holds a zero byte is refused; an absolute one is taken as it is; a
/// bare one is looked for in the path, and refused where there is none.
pub proof fn law_plans_for_a_command(
    command: &str,
    env: &Vec<(String, String)>,
    none: &Vec<(String, String)>,
    entries: &Vec<String>,
    plan: ProgramPlan,
    pathless: ProgramPlan,
    whole: bool,
    bare: bool,
    path: Option<String>,
)
    requires
        call_ensures(program_plan, (command, env, entries), plan),
        none@.len() == 0,
        call_ensures(program_plan, (command, none, entries), pathless),
        call_ensures(absolute_path, (command,), whole),
        call_ensures(bare_name, (command,), bare),
        call_ensures(env_value, (env, "PATH"), path),
    ensures
        command@.len() == 0 || command@.contains('\0') ==> plan is Refused && plan->Refused_0@
            == "process command is empty or contains a null byte"@,
        command@.len() > 0 && !command@.contains('\0') ==> {
            &&& whole ==> plan is Absolute
            &&& !whole && !bare ==> plan is UnderCwd
            &&& !whole && bare && path is Some ==> plan is Search
            &&& !whole && bare ==> pathless is Refused && pathless->Refused_0@
                == "PATH is not set while resolving process command"@
        },
{
}

/// The first place where there is a file is chosen.
pub proof fn law_first_file_is_chosen(files: &Vec<bool>, at: Option<usize>, i: int)
    requires
        call_ensures(chosen_place, (files,), at),
    ensures
        at is Some ==> at->Some_0 < files@.len() && files@[at->Some_0 as int],
        at is Some && 0 <= i < at->Some_0 ==> !files@[i],
        at is None && 0 <= i < files@.len() ==> !files@[i],
{
}

/// A program is what its path really leads to, if that is a file.
pub proof fn law_programs_are_files(
    path: &str,
    actual: String,
    text: String,
    file: Result<String, String>,
    other: Result<String, String>,
    missing: Result<String, String>,
)
    requires
        call_ensures(resolve_windows_candidate, (path, &Ok(actual), true), file),
        call_ensures(resolve_windows_candidate, (path, &Ok(actual), false), other),
        call_ensures(resolve_windows_candidate, (path, &Err(text), true), missing),
    ensures
        file == Ok::<String, String>(actual),
        other is Err && other->Err_0@ == "process executable is not a file: "@ + actual@,
        missing is Err && missing->Err_0@ == "cannot resolve process executable "@ + path@ + ": "@
            + text@,
{
}

/// A file that ends in one of the two extensions of batch files is one, in whatever case they are
/// written; a file with another extension, or without one, is none.
pub proof fn law_batch_files(
    path: &str,
    stem: Seq<char>,
    ext: &str,
    is_cmd: bool,
    is_bat: bool,
    r: bool,
)
    requires
        call_ensures(leads_to_batch, (path,), r),
        path@ == stem + seq!['.'] + ext@,
        stem.len() > 0,
        !path@.contains('/') && !path@.contains('\\'),
        !ext@.contains('.'),
        path@ != ".."@,
        call_ensures(eq_ignore_ascii_case, (ext, "cmd"), is_cmd),
        call_ensures(eq_ignore_ascii_case, (ext, "bat"), is_bat),
    ensures
        r <==> is_cmd || is_bat,
{
    lemma_one_piece(path@, '\\');
    lemma_one_piece(path@, '/');
    assert(last_part(path@) == path@);
    lemma_split_between(stem, '.', ext@);
}

/// The program that was found runs, unless it is a batch file; what was not found is told with the
/// name that was looked for.
pub proof fn law_found_programs_run(
    command: &str,
    path: String,
    text: &str,
    batch: bool,
    found: Result<String, String>,
    listed: Result<String, String>,
    missing: Result<String, String>,
    pathless: Result<String, String>,
)
    requires
        command@.len() > 0 && !command@.contains('\0'),
        text@ == path@,
        call_ensures(leads_to_batch, (text,), batch),
        call_ensures(
            resolve_windows_program,
            (command, &ProgramSearch::Explicit(Ok(path))),
            found,
        ),
        call_ensures(
            resolve_windows_program,
            (command, &ProgramSearch::Listed(Some(Ok(path)))),
            listed,
        ),
        call_ensures(resolve_windows_program, (command, &ProgramSearch::Listed(None)), missing),
        call_ensures(resolve_windows_program, (command, &ProgramSearch::NoPath), pathless),
    ensures
        !batch ==> found is Ok && found->Ok_0@ == path@ && listed is Ok && listed->Ok_0@ == path@,
        batch ==> found is Err && listed is Err && found->Err_0@
            == "batch files require an explicit cmd.exe invocation"@,
        missing is Err && missing->Err_0@ == "process command not found in absolute PATH entries: "@
            + command@,
        pathless is Err,
{
}

/// A bare command is looked for in the directories of the path in order, under each of its names in
/// order; a directory that is not absolute is passed over.
pub proof fn law_directories_are_searched_in_order(
    command: &str,
    env: &Vec<(String, String)>,
    some: &Vec<String>,
    more: &Vec<String>,
    directory: String,
    dir: &str,
    whole: bool,
    a: ProgramPlan,
    b: ProgramPlan,
    names: Vec<String>,
    kinds: Vec<String>,
    i: int,
)
    requires
        more@ == some@.push(directory),
        dir@ == directory@,
        call_ensures(absolute_path, (dir,), whole),
        call_ensures(program_plan, (command, env, some), a),
        call_ensures(program_plan, (command, env, more), b),
        a is Search,
        call_ensures(windows_executable_extensions, (env,), kinds),
        call_ensures(windows_candidates, (command, &kinds), names),
        0 <= i < names@.len(),
    ensures
        b is Search,
        !whole ==> b->Search_0@.len() == a->Search_0@.len(),
        whole ==> {
            &&& b->Search_0@.len() == a->Search_0@.len() + names@.len()
            &&& b->Search_0@[a->Search_0@.len() + i].directory@ == directory@
            &&& b->Search_0@[a->Search_0@.len() + i].name@ == names@[i]@
        },
{
    let wanted = candidate_names(command@, extensions(env@));
    assert(views(names@) == wanted);
    assert(views(names@)[i] == names@[i]@);
    assert(views(names@).len() == names@.len());
    assert(views(more@).drop_last() =~= views(some@));
    assert(views(more@).last() == directory@);
    let x = place_views(a->Search_0@);
    let y = place_views(b->Search_0@);
    assert(x == places_in(views(some@), wanted));
    assert(y == places_in(views(more@), wanted));
    assert(x.len() == a->Search_0@.len());
    assert(y.len() == b->Search_0@.len());
    if whole {
        let at = a->Search_0@.len() + i;
        assert(y[at] == (directory@, wanted[i]));
        assert(place_view(b->Search_0@[at]) == y[at]);
    }
}

/// A path to a share of another machine is absolute.
pub proof fn law_shares_are_absolute(path: &str, server: Seq<char>, share: Seq<char>, r: bool)
    requires
        call_ensures(absolute_path, (path,), r),
        path@ == seq!['/'] + (seq!['/'] + (server + seq!['/'] + share)),
        server.len() > 0 && !server.contains('/') && !server.contains('\\'),
        share.len() > 0 && !share.contains('/') && !share.contains('\\'),
    ensures
        r,
{
    let rest = server + seq!['/'] + share;
    let tail = seq!['/'] + rest;
    assert forall|i: int| 0 <= i < path@.len() implies path@[i] != '\\' by {
        if i >= 2 && i < 2 + server.len() {
            assert(path@[i] == server[i - 2]);
        } else if i > 2 + server.len() {
            assert(path@[i] == share[i - 3 - server.len()]);
        }
    }
    assert(slashed(path@) =~= path@);
    lemma_segments_between(server, '/', share);
    lemma_one_piece(server, '/');
    lemma_one_piece(share, '/');
    let none = Seq::<char>::empty();
    lemma_one_piece(none, '/');
    assert(none + seq!['/'] + rest =~= tail);
    lemma_segments_between(none, '/', rest);
    assert(none + seq!['/'] + tail =~= path@);
    lemma_segments_between(none, '/', tail);
    assert(parts_of(path@) =~= seq![none, none, server, share]);
}

/// A path that begins with three slashes names no server, and is not absolute.
pub proof fn law_nameless_servers_are_none(path: &str, rest: Seq<char>, r: bool)
    requires
        call_ensures(absolute_path, (path,), r),
        path@ == seq!['/'] + (seq!['/'] + (seq!['/'] + rest)),
    ensures
        !r,
{
    let none = Seq::<char>::empty();
    let one = slashed(rest);
    let two = seq!['/'] + one;
    let three = seq!['/'] + two;
    assert(slashed(path@) =~= seq!['/'] + three);
    lemma_one_piece(none, '/');
    assert(none + seq!['/'] + one =~= two);
    lemma_segments_between(none, '/', one);
    assert(none + seq!['/'] + two =~= three);
    lemma_segments_between(none, '/', two);
    assert(none + seq!['/'] + three =~= seq!['/'] + three);
    lemma_segments_between(none, '/', three);
    assert(parts_of(path@)[2] =~= none);
}

/// A text that does not begin with the separator has a first piece that is not empty.
proof fn lemma_first_piece(s: Seq<char>, sep: char)
    requires
        s.len() > 0,
        s[0] != sep,
    ensures
        segments(s, sep).len() > 0,
        segments(s, sep)[0].len() > 0,
    decreases s.len(),
{
    let rest = s.drop_last();
    if s.len() > 1 {
        lemma_first_piece(rest, sep);
    } else {
        assert(segments(rest, sep) =~= seq![Seq::<char>::empty()]);
    }
}

/// Neither a lone name nor a drive without a slash makes a path absolute.
pub proof fn law_half_paths_are_not_absolute(path: &str, r: bool)
    requires
        call_ensures(absolute_path, (path,), r),
        path@.len() >= 2,
        path@[0] != '/' && path@[0] != '\\',
        path@.len() == 2 || (path@[2] != '/' && path@[2] != '\\'),
    ensures
        !r,
{
    let text = slashed(path@);
    assert(text[0] == path@[0]);
    if path@.len() > 2 {
        assert(text[2] == path@[2]);
    }
    lemma_first_piece(text, '/');
}

/// A server without a share is not absolute.
pub proof fn law_servers_need_a_share(path: &str, server: Seq<char>, r: bool)
    requires
        call_ensures(absolute_path, (path,), r),
        path@ == seq!['/'] + (seq!['/'] + (server + seq!['/'])),
        !server.contains('/') && !server.contains('\\'),
    ensures
        !r,
{
    let none = Seq::<char>::empty();
    let rest = server + seq!['/'] + none;
    let tail = seq!['/'] + rest;
    assert forall|i: int| 0 <= i < path@.len() implies path@[i] != '\\' by {
        if i >= 2 && i < 2 + server.len() {
            assert(path@[i] == server[i - 2]);
        }
    }
    assert(slashed(path@) =~= seq!['/'] + tail);
    lemma_segments_between(server, '/', none);
    lemma_one_piece(server, '/');
    lemma_one_piece(none, '/');
    assert(none + seq!['/'] + rest =~= tail);
    lemma_segments_between(none, '/', rest);
    assert(none + seq!['/'] + tail =~= seq!['/'] + tail);
    lemma_segments_between(none, '/', tail);
    assert(parts_of(path@) =~= seq![none, none, server, none]);
}

} // verus!
