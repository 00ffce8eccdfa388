//! What a capsule can rely on when it asks for the environment and the directory of a child.

use vstd::prelude::*;

use crate::names::pairs_as_map;
use crate::order::{has_word, lemma_lex_total, lex_less, path_word, sorted_once};
use crate::paths::{absolute, has_parent_component, lies_within};
use crate::process::context::{
    add_home_process_paths, env_after, env_error, env_wants_home, home_to_resolve, home_writes, inherited, item_bad, key_char,
    key_reserved, key_valid, lemma_env_error_stays, lists_paths, map_fs_path_error, passes_through,
    passthrough_keys, prepare_spawn_context, read_list, relative_cwd, reserved_process_env,
    resolve_workspace_cwd, valid_env_key, wants_home, writable, write_list, write_refusal,
    ContextInputs, FsErrorCode, PreparedSpawnContext, WriteCandidate,
};
use crate::process::inject::{validate_env_name, validate_fixed_path};
use crate::process::types::{quoted, EnvVar, ErrorCode, SpawnRequest};
use crate::text::{lemma_utf8_len, views};
use vstd::utf8::encode_utf8;

verus! {

/// A key is well-formed exactly if it is not empty, holds nothing but ASCII letters of either case,
/// digits and underscores, and does not begin with a digit.
pub proof fn law_keys_are_letters_digits_underscores(key: &str, r: bool)
    requires
        call_ensures(valid_env_key, (key,), r),
    ensures
        r <==> {
            &&& key@.len() > 0
            &&& !(48 <= key@[0] as int <= 57)
            &&& forall|i: int|
                0 <= i < key@.len() ==> {
                    let code = (#[trigger] key@[i]) as int;
                    65 <= code <= 90 || 97 <= code <= 122 || 48 <= code <= 57 || code == 95
                }
        },
{
    if r {
        assert forall|i: int| 0 <= i < key@.len() implies {
            let code = (#[trigger] key@[i]) as int;
            65 <= code <= 90 || 97 <= code <= 122 || 48 <= code <= 57 || code == 95
        } by {
            assert(key_char(key@[i]));
        }
    } else if key@.len() > 0 && !('0' <= key@[0] && key@[0] <= '9') {
        let i = choose|i: int| 0 <= i < key@.len() && !key_char(#[trigger] key@[i]);
        assert(!key_char(key@[i]));
    }
}

/// Whether a key is well-formed does not depend on the case of its letters.
pub proof fn law_case_of_a_key_does_not_matter(a: &str, b: &str, x: bool, y: bool)
    requires
        call_ensures(valid_env_key, (a,), x),
        call_ensures(valid_env_key, (b,), y),
        a@.len() == b@.len(),
        forall|i: int|
            0 <= i < a@.len() ==> {
                let c = (#[trigger] a@[i]) as int;
                let d = b@[i] as int;
                c == d || (65 <= c <= 90 && d == c + 32) || (97 <= c <= 122 && c == d + 32)
            },
    ensures
        x == y,
{
    law_keys_are_letters_digits_underscores(a, x);
    law_keys_are_letters_digits_underscores(b, y);
    if x {
        assert forall|i: int| 0 <= i < b@.len() implies {
            let code = (#[trigger] b@[i]) as int;
            65 <= code <= 90 || 97 <= code <= 122 || 48 <= code <= 57 || code == 95
        } by {
            let c = a@[i] as int;
            let d = b@[i] as int;
            assert(c == d || (65 <= c <= 90 && d == c + 32) || (97 <= c <= 122 && c == d + 32));
        }
        let c = a@[0] as int;
        let d = b@[0] as int;
        assert(c == d || (65 <= c <= 90 && d == c + 32) || (97 <= c <= 122 && c == d + 32));
    }
    if y {
        assert forall|i: int| 0 <= i < a@.len() implies {
            let code = (#[trigger] a@[i]) as int;
            65 <= code <= 90 || 97 <= code <= 122 || 48 <= code <= 57 || code == 95
        } by {
            let c = a@[i] as int;
            let d = b@[i] as int;
            assert(c == d || (65 <= c <= 90 && d == c + 32) || (97 <= c <= 122 && c == d + 32));
        }
        let c = a@[0] as int;
        let d = b@[0] as int;
        assert(c == d || (65 <= c <= 90 && d == c + 32) || (97 <= c <= 122 && c == d + 32));
    }
}

/// The customary key for a proxy, in either case, is well-formed and free for a capsule to set.
pub proof fn law_proxy_can_be_set(lower: bool, upper: bool, held: bool)
    requires
        call_ensures(valid_env_key, ("http_proxy",), lower),
        call_ensures(valid_env_key, ("HTTP_PROXY",), upper),
        call_ensures(reserved_process_env, ("http_proxy",), held),
    ensures
        lower,
        upper,
        !held,
{
    reveal_strlit("http_proxy");
    reveal_strlit("HTTP_PROXY");
    reveal_strlit("PATH");
    reveal_strlit("ASTRID_SESSION_TOKEN");
    reveal_strlit("BASH_ENV");
    reveal_strlit("ENV");
    reveal_strlit("GCONV_PATH");
    reveal_strlit("NODE_OPTIONS");
    reveal_strlit("PERL5OPT");
    reveal_strlit("PYTHONHOME");
    reveal_strlit("PYTHONPATH");
    reveal_strlit("RUBYOPT");
    reveal_strlit("ZDOTDIR");
    reveal_strlit("DYLD_");
    reveal_strlit("LD_");
    law_keys_are_letters_digits_underscores("http_proxy", lower);
    law_keys_are_letters_digits_underscores("HTTP_PROXY", upper);
    assert("http_proxy"@[0] == 'h');
    assert("PATH"@[0] == 'P');
    assert("ASTRID_SESSION_TOKEN"@[0] == 'A');
    assert("BASH_ENV"@[0] == 'B');
    assert("ENV"@[0] == 'E');
    assert("GCONV_PATH"@[0] == 'G');
    assert("NODE_OPTIONS"@[0] == 'N');
    assert("PERL5OPT"@[0] == 'P');
    assert("PYTHONHOME"@[0] == 'P');
    assert("PYTHONPATH"@[0] == 'P');
    assert("RUBYOPT"@[0] == 'R');
    assert("ZDOTDIR"@[0] == 'Z');
    assert("DYLD_"@[0] == 'D');
    assert("LD_"@[0] == 'L');
}

/// What decides which program is found, what is loaded into it, or what runs before it stays with
/// the host: the search path, the session, every variable of the two dynamic linkers, and the
/// options that interpreters read.
pub proof fn law_loader_variables_are_reserved(key: &str, r: bool, rest: Seq<char>)
    requires
        call_ensures(reserved_process_env, (key,), r),
    ensures
        key@ == "LD_"@ + rest ==> r,
        key@ == "DYLD_"@ + rest ==> r,
        key@ == "PATH"@ || key@ == "ASTRID_SESSION_TOKEN"@ || key@ == "ENV"@ || key@
            == "BASH_ENV"@ || key@ == "ZDOTDIR"@ || key@ == "GCONV_PATH"@ ==> r,
        key@ == "NODE_OPTIONS"@ || key@ == "PERL5OPT"@ || key@ == "RUBYOPT"@ || key@
            == "PYTHONHOME"@ || key@ == "PYTHONPATH"@ ==> r,
        r ==> key@.len() >= 3,
        r ==> "LD_"@.is_prefix_of(key@) || "DYLD_"@.is_prefix_of(key@) || seq![
            "PATH"@,
            "ASTRID_SESSION_TOKEN"@,
            "ENV"@,
            "BASH_ENV"@,
            "ZDOTDIR"@,
            "GCONV_PATH"@,
            "NODE_OPTIONS"@,
            "PERL5OPT"@,
            "RUBYOPT"@,
            "PYTHONHOME"@,
            "PYTHONPATH"@,
        ].contains(key@),
{
    let names = seq![
        "PATH"@,
        "ASTRID_SESSION_TOKEN"@,
        "ENV"@,
        "BASH_ENV"@,
        "ZDOTDIR"@,
        "GCONV_PATH"@,
        "NODE_OPTIONS"@,
        "PERL5OPT"@,
        "RUBYOPT"@,
        "PYTHONHOME"@,
        "PYTHONPATH"@,
    ];
    reveal_strlit("PATH");
    reveal_strlit("ASTRID_SESSION_TOKEN");
    reveal_strlit("BASH_ENV");
    reveal_strlit("ENV");
    reveal_strlit("GCONV_PATH");
    reveal_strlit("NODE_OPTIONS");
    reveal_strlit("PERL5OPT");
    reveal_strlit("PYTHONHOME");
    reveal_strlit("PYTHONPATH");
    reveal_strlit("RUBYOPT");
    reveal_strlit("ZDOTDIR");
    reveal_strlit("DYLD_");
    reveal_strlit("LD_");
    if key@ == "LD_"@ + rest {
        assert("LD_"@.is_prefix_of("LD_"@ + rest));
    }
    if key@ == "DYLD_"@ + rest {
        assert("DYLD_"@.is_prefix_of("DYLD_"@ + rest));
    }
    if r && !"LD_"@.is_prefix_of(key@) && !"DYLD_"@.is_prefix_of(key@) {
        assert(names[0] == "PATH"@);
        assert(names[1] == "ASTRID_SESSION_TOKEN"@);
        assert(names[2] == "ENV"@);
        assert(names[3] == "BASH_ENV"@);
        assert(names[4] == "ZDOTDIR"@);
        assert(names[5] == "GCONV_PATH"@);
        assert(names[6] == "NODE_OPTIONS"@);
        assert(names[7] == "PERL5OPT"@);
        assert(names[8] == "RUBYOPT"@);
        assert(names[9] == "PYTHONHOME"@);
        assert(names[10] == "PYTHONPATH"@);
    }
}

/// A variable whose key is well-formed and free, with a short value that has no zero byte and names
/// no home, is accepted, and the child has it with that value.
pub proof fn law_ordinary_variable_is_set(
    request: &SpawnRequest,
    inputs: &ContextInputs,
    key: &str,
    reserved: bool,
    r: Result<PreparedSpawnContext, ErrorCode>,
)
    requires
        call_ensures(prepare_spawn_context, (request, inputs), r),
        request.env@.len() == 1,
        request.cwd is None,
        request.env@[0].key@ == key@,
        key@.len() > 0,
        !(48 <= key@[0] as int <= 57),
        forall|i: int|
            0 <= i < key@.len() ==> {
                let code = (#[trigger] key@[i]) as int;
                65 <= code <= 90 || 97 <= code <= 122 || 48 <= code <= 57 || code == 95
            },
        call_ensures(reserved_process_env, (key,), reserved),
        !reserved,
        !request.env@[0].value@.contains('\0'),
        encode_utf8(request.env@[0].value@).len() <= 64 * 1024,
        !"home://"@.is_prefix_of(request.env@[0].value@),
    ensures
        r is Ok,
        pairs_as_map(r->Ok_0.env@).contains_key(key@),
        pairs_as_map(r->Ok_0.env@)[key@] == request.env@[0].value,
        r->Ok_0.cwd@ == inputs.workspace_root@,
{
    let env = request.env@;
    lemma_utf8_len(env[0].value@);
    assert forall|i: int| 0 <= i < key@.len() implies key_char(
        #[trigger] key@[i],
    ) by {
        let code = key@[i] as int;
        assert(65 <= code <= 90 || 97 <= code <= 122 || 48 <= code <= 57 || code == 95);
    }
    assert(!item_bad(env, 0));
    reveal_with_fuel(env_error, 2);
    reveal_with_fuel(env_after, 2);
    assert(env_error(env, *inputs, 1) is None);
}

/// A request is refused for its first variable where the key is malformed or reserved, or where the
/// value holds a zero byte or takes more than sixty-four kibibytes; more than two hundred and
/// fifty-six variables are too many whatever they are.
pub proof fn law_bad_variable_is_refused(
    request: &SpawnRequest,
    inputs: &ContextInputs,
    valid: bool,
    reserved: bool,
    key: &str,
    r: Result<PreparedSpawnContext, ErrorCode>,
)
    requires
        call_ensures(prepare_spawn_context, (request, inputs), r),
        request.env@.len() > 0,
        request.env@[0].key@ == key@,
        call_ensures(valid_env_key, (key,), valid),
        call_ensures(reserved_process_env, (key,), reserved),
    ensures
        request.env@.len() > 256 <==> r == Err::<PreparedSpawnContext, ErrorCode>(
            ErrorCode::TooLarge,
        ) && request.env@.len() > 256,
        request.env@.len() <= 256 && (!valid || reserved || request.env@[0].value@.contains('\0')
            || encode_utf8(request.env@[0].value@).len() > 64 * 1024) ==> r == Err::<
            PreparedSpawnContext,
            ErrorCode,
        >(ErrorCode::InvalidInput),
{
    let env = request.env@;
    lemma_utf8_len(env[0].value@);
    reveal_with_fuel(env_error, 2);
    if env.len() <= 256 && item_bad(env, 0) {
        assert(env_error(env, *inputs, 1) == Some(ErrorCode::InvalidInput));
        lemma_env_error_stays(env, *inputs, 1, env.len() as int);
    }
}

/// A child that starts has every variable that was asked for, with the value that was asked for, no
/// two of which had the same key; a home in the place of its value is where the home really is.
pub proof fn law_variables_are_set_as_asked(
    request: &SpawnRequest,
    inputs: &ContextInputs,
    r: Result<PreparedSpawnContext, ErrorCode>,
    i: int,
    j: int,
)
    requires
        call_ensures(prepare_spawn_context, (request, inputs), r),
        r is Ok,
        0 <= i < request.env@.len(),
        0 <= j < i,
    ensures
        request.env@[j].key@ != request.env@[i].key@,
        pairs_as_map(r->Ok_0.env@).contains_key(request.env@[i].key@),
        request.env@[i].key@ != "HOME"@ || !"home://"@.is_prefix_of(request.env@[i].value@)
            ==> pairs_as_map(r->Ok_0.env@)[request.env@[i].key@] == request.env@[i].value,
        request.env@[i].key@ == "HOME"@ && "home://"@.is_prefix_of(request.env@[i].value@)
            ==> inputs.home_env is Ok && pairs_as_map(r->Ok_0.env@)["HOME"@]
            == inputs.home_env->Ok_0,
{
    let n = request.env@.len() as int;
    lemma_nothing_bad(request.env@, *inputs, n, i);
    lemma_value_set(request.env@, *inputs, n, i);
}

/// Where nothing is wrong with the first `n` variables, nothing is wrong with any of them.
proof fn lemma_nothing_bad(env: Seq<EnvVar>, inputs: ContextInputs, n: int, i: int)
    requires
        env_error(env, inputs, n) is None,
        0 <= i < n,
    ensures
        !item_bad(env, i),
        wants_home(env[i]) ==> inputs.home_env is Ok,
    decreases n,
{
    if i < n - 1 {
        lemma_nothing_bad(env, inputs, n - 1, i);
    }
}

/// What is set stays set, since no later variable has its key.
proof fn lemma_value_set(env: Seq<EnvVar>, inputs: ContextInputs, n: int, i: int)
    requires
        env_error(env, inputs, n) is None,
        0 <= i < n <= env.len(),
    ensures
        env_after(env, inputs, n).contains_key(env[i].key@),
        env_after(env, inputs, n)[env[i].key@] == (if wants_home(env[i]) {
            inputs.home_env->Ok_0
        } else {
            env[i].value
        }),
    decreases n,
{
    lemma_nothing_bad(env, inputs, n, n - 1);
    if i < n - 1 {
        lemma_value_set(env, inputs, n - 1, i);
        if env[i].key@ == env[n - 1].key@ {
            assert(item_bad(env, n - 1));
        }
    }
}

/// The search path, the language and the time zone of the host reach a child that sets none of
/// its own; nothing else of the host does.
pub proof fn law_few_variables_are_inherited(
    request: &SpawnRequest,
    inputs: &ContextInputs,
    r: Result<PreparedSpawnContext, ErrorCode>,
    key: Seq<char>,
)
    requires
        call_ensures(prepare_spawn_context, (request, inputs), r),
        r is Ok,
        request.env@.len() == 0,
        inputs.passthrough@.len() == 1,
        key == inputs.passthrough@[0].0@,
    ensures
        seq!["PATH"@, "LANG"@, "LC_ALL"@, "LC_CTYPE"@, "TZ"@].contains(key) <==> pairs_as_map(
            r->Ok_0.env@,
        ).contains_key(key),
        pairs_as_map(r->Ok_0.env@).contains_key(key) ==> pairs_as_map(r->Ok_0.env@)[key]
            == inputs.passthrough@[0].1,
{
    let names = seq!["PATH"@, "LANG"@, "LC_ALL"@, "LC_CTYPE"@, "TZ"@];
    reveal_with_fuel(inherited, 2);
    assert(inputs.passthrough@.drop_last() =~= Seq::empty());
    assert(env_after(request.env@, *inputs, 0) == inherited(inputs.passthrough@));
    if passes_through(key) {
        assert(names[0] == "PATH"@);
        assert(names[1] == "LANG"@);
        assert(names[2] == "LC_ALL"@);
        assert(names[3] == "LC_CTYPE"@);
        assert(names[4] == "TZ"@);
    }
}

/// A refusal of the filesystem policy reaches the capsule as what it is; what the process side has
/// no word for is an invalid input, and refused access is a denied capability.
pub proof fn law_policy_refusals_keep_their_meaning(
    a: ErrorCode,
    b: ErrorCode,
    c: ErrorCode,
    d: ErrorCode,
    e: ErrorCode,
    f: ErrorCode,
)
    requires
        call_ensures(map_fs_path_error, (FsErrorCode::BoundaryEscape,), a),
        call_ensures(map_fs_path_error, (FsErrorCode::CapabilityDenied,), b),
        call_ensures(map_fs_path_error, (FsErrorCode::Access,), c),
        call_ensures(map_fs_path_error, (FsErrorCode::TooLarge,), d),
        call_ensures(map_fs_path_error, (FsErrorCode::Quota,), e),
        call_ensures(map_fs_path_error, (FsErrorCode::Other,), f),
    ensures
        a is BoundaryEscape,
        b is CapabilityDenied,
        c is CapabilityDenied,
        d is TooLarge,
        e is Quota,
        f is InvalidInput,
{
}

/// A directory inside the workspace is where the child works, with or without the scheme; one that
/// is named by an absolute path, or that lies elsewhere, escapes; one that does not exist is an
/// invalid input.
pub proof fn law_directory_stays_in_the_workspace(
    requested: &str,
    plain: &str,
    root: &str,
    canonical: &Option<String>,
    a: Result<String, ErrorCode>,
    b: Result<String, ErrorCode>,
)
    requires
        requested@ == "cwd://"@ + plain@,
        !"cwd://"@.is_prefix_of(plain@),
        call_ensures(resolve_workspace_cwd, (requested, root, canonical), a),
        call_ensures(resolve_workspace_cwd, (plain, root, canonical), b),
    ensures
        a == b,
        plain@.len() > 0 && plain@[0] == '/' ==> b == Err::<String, ErrorCode>(
            ErrorCode::BoundaryEscape,
        ),
        b is Ok ==> *canonical == Some(b->Ok_0) && lies_within(b->Ok_0@, root@),
        *canonical is None ==> b is Err,
        *canonical is None && b != Err::<String, ErrorCode>(ErrorCode::BoundaryEscape) ==> b
            == Err::<String, ErrorCode>(ErrorCode::InvalidInput),
        *canonical is Some && !lies_within(canonical->Some_0@, root@) ==> b == Err::<
            String,
            ErrorCode,
        >(ErrorCode::BoundaryEscape),
{
    assert("cwd://"@.is_prefix_of(requested@));
    assert(requested@.skip("cwd://"@.len() as int) =~= plain@);
}

/// A file can be pointed to by any variable that a capsule could set, and by no other.
pub proof fn law_pointer_names_are_ordinary_keys(
    name: &str,
    r: Result<(), ErrorCode>,
    valid: bool,
    reserved: bool,
)
    requires
        call_ensures(validate_env_name, (name,), r),
        call_ensures(valid_env_key, (name,), valid),
        call_ensures(reserved_process_env, (name,), reserved),
    ensures
        r is Ok <==> valid && !reserved,
        r is Err ==> r == Err::<(), ErrorCode>(ErrorCode::InvalidInput),
{
}

/// A file is put only at an absolute path that holds nothing a profile of the sandbox could
/// misread.
pub proof fn law_fixed_paths_are_plain(target: &str, r: Result<(), ErrorCode>)
    requires
        call_ensures(validate_fixed_path, (target,), r),
    ensures
        r is Err ==> r == Err::<(), ErrorCode>(ErrorCode::InvalidInput),
        target@.len() == 0 || target@[0] != '/' ==> r is Err,
        target@.contains('"') || target@.contains('\\') || target@.contains('\0') ==> r is Err,
        r is Ok ==> absolute(target@),
{
}

/// A child that asks for a home gets the directory that the home really is, may read it, and may
/// write to those directories of the home that are there and that the policy lets it write to.
pub proof fn law_home_is_given(
    request: &SpawnRequest,
    inputs: &ContextInputs,
    r: Result<PreparedSpawnContext, ErrorCode>,
    home: String,
    physical: String,
    candidate: WriteCandidate,
    denial: ErrorCode,
    refusal: ErrorCode,
)
    requires
        call_ensures(prepare_spawn_context, (request, inputs), r),
        request.env@.len() == 1,
        request.cwd is None,
        request.env@[0].key@ == "HOME"@,
        "home://"@.is_prefix_of(request.env@[0].value@),
        !request.env@[0].value@.contains('\0'),
        encode_utf8(request.env@[0].value@).len() <= 64 * 1024,
        inputs.write_candidates@ == seq![candidate],
        candidate.authorized is Err ==> call_ensures(
            map_fs_path_error,
            (candidate.authorized->Err_0,),
            denial,
        ),
        inputs.home_env is Err ==> call_ensures(
            map_fs_path_error,
            (inputs.home_env->Err_0,),
            refusal,
        ),
    ensures
        inputs.home_env is Err ==> r == Err::<PreparedSpawnContext, ErrorCode>(refusal),
        inputs.home_env is Ok && (inputs.home_root is None || !inputs.gate_present) ==> r == Err::<
            PreparedSpawnContext,
            ErrorCode,
        >(ErrorCode::CapabilityDenied),
        inputs.home_env == Ok::<String, FsErrorCode>(physical) && inputs.home_root == Some(home)
            && inputs.gate_present ==> {
            let inside = candidate.exists && lies_within(candidate.path@, home@);
            &&& inside && candidate.authorized is Err ==> r == Err::<
                PreparedSpawnContext,
                ErrorCode,
            >(denial)
            &&& !inside || candidate.authorized is Ok ==> {
                &&& r is Ok
                &&& pairs_as_map(r->Ok_0.env@).contains_key("HOME"@)
                &&& pairs_as_map(r->Ok_0.env@)["HOME"@] == physical
                &&& r->Ok_0.read_paths@.len() == 1 && r->Ok_0.read_paths@[0]@ == physical@
                &&& inside ==> r->Ok_0.write_paths@.len() == 1 && r->Ok_0.write_paths@[0]
                    == candidate.path
                &&& !inside ==> r->Ok_0.write_paths@.len() == 0
            }
        },
{
    let env = request.env@;
    lemma_home_key();
    lemma_utf8_len(env[0].value@);
    assert(!item_bad(env, 0));
    reveal_with_fuel(env_error, 2);
    reveal_with_fuel(env_after, 2);
    reveal_with_fuel(write_refusal, 2);
    reveal_with_fuel(writable, 2);
    assert(inputs.write_candidates@.drop_last() =~= Seq::empty());
    assert(wants_home(env[0]));
    assert(env_wants_home(env, 1)) by {
        assert(wants_home(env[0]));
    }
    if r is Ok && inputs.home_env is Ok {
        let wanted = read_list(*request, *inputs);
        assert(wanted =~= seq![inputs.home_env->Ok_0@]);
        let reads = choose|reads: Seq<String>| #[trigger]
            lists_paths(reads, wanted) && sorted_once(r->Ok_0.read_paths@, reads);
        assert(views(reads).len() == 1);
        assert(views(reads)[0] == reads[0]@);
        lemma_sorted_single(r->Ok_0.read_paths@, reads);
        let writes = write_list(*request, *inputs);
        assert(writes =~= home_writes(*inputs));
        if writes.len() == 1 {
            lemma_sorted_single(r->Ok_0.write_paths@, writes);
        } else {
            assert(writes.len() == 0);
            if r->Ok_0.write_paths@.len() > 0 {
                assert(writes.contains(r->Ok_0.write_paths@[0]));
            }
        }
    }
}

/// The key of a home is well-formed and free.
proof fn lemma_home_key()
    ensures
        key_valid("HOME"@),
        !key_reserved("HOME"@),
{
    reveal_strlit("HOME");
    reveal_strlit("PATH");
    reveal_strlit("ASTRID_SESSION_TOKEN");
    reveal_strlit("BASH_ENV");
    reveal_strlit("ENV");
    reveal_strlit("GCONV_PATH");
    reveal_strlit("NODE_OPTIONS");
    reveal_strlit("PERL5OPT");
    reveal_strlit("PYTHONHOME");
    reveal_strlit("PYTHONPATH");
    reveal_strlit("RUBYOPT");
    reveal_strlit("ZDOTDIR");
    reveal_strlit("DYLD_");
    reveal_strlit("LD_");
    assert("HOME"@[0] == 'H');
    assert("PATH"@[0] == 'P');
    assert("DYLD_"@[0] == 'D');
    assert("LD_"@[0] == 'L');
}

/// One path, sorted, is that path.
proof fn lemma_sorted_single(ordered: Seq<String>, paths: Seq<String>)
    requires
        sorted_once(ordered, paths),
        paths.len() == 1,
    ensures
        ordered.len() == 1,
        ordered[0] == paths[0],
{
    assert(has_word(ordered, path_word(paths[0]@)));
    assert(paths.contains(ordered[0]));
    if ordered.len() > 1 {
        assert(paths.contains(ordered[1]));
        assert(lex_less(path_word(ordered[0]@), path_word(ordered[1]@)));
        lemma_lex_total(path_word(ordered[0]@), path_word(ordered[1]@));
    }
}

/// A child that asks for a home to work in works where the home really is, and may read it.
pub proof fn law_home_as_directory(
    request: &SpawnRequest,
    inputs: &ContextInputs,
    r: Result<PreparedSpawnContext, ErrorCode>,
    refusal: ErrorCode,
)
    requires
        call_ensures(prepare_spawn_context, (request, inputs), r),
        request.env@.len() == 0,
        request.cwd is Some,
        "home://"@.is_prefix_of(request.cwd->Some_0@),
        inputs.write_candidates@.len() == 0,
        inputs.home_cwd is Err ==> call_ensures(
            map_fs_path_error,
            (inputs.home_cwd->Err_0,),
            refusal,
        ),
    ensures
        inputs.home_cwd is Err ==> r == Err::<PreparedSpawnContext, ErrorCode>(refusal),
        inputs.home_cwd is Ok && inputs.home_root is Some && inputs.gate_present ==> r is Ok
            && r->Ok_0.cwd@ == inputs.home_cwd->Ok_0@ && r->Ok_0.read_paths@.len() == 1
            && r->Ok_0.read_paths@[0]@ == inputs.home_cwd->Ok_0@,
        inputs.home_cwd is Ok && (inputs.home_root is None || !inputs.gate_present) ==> r == Err::<
            PreparedSpawnContext,
            ErrorCode,
        >(ErrorCode::CapabilityDenied),
{
    assert(!env_wants_home(request.env@, 0));
    if r is Ok {
        let wanted = read_list(*request, *inputs);
        assert(wanted =~= seq![inputs.home_cwd->Ok_0@]);
        let reads = choose|reads: Seq<String>| #[trigger]
            lists_paths(reads, wanted) && sorted_once(r->Ok_0.read_paths@, reads);
        assert(views(reads).len() == 1);
        assert(views(reads)[0] == reads[0]@);
        lemma_sorted_single(r->Ok_0.read_paths@, reads);
    }
}

/// A child that asks for no directory works at the root of the workspace; one that asks for a
/// directory in it works there.
pub proof fn law_child_works_in_the_workspace(
    request: &SpawnRequest,
    inputs: &ContextInputs,
    r: Result<PreparedSpawnContext, ErrorCode>,
    asked: &str,
    root: &str,
    cwd: Result<String, ErrorCode>,
    rest: Result<String, ErrorCode>,
)
    requires
        call_ensures(prepare_spawn_context, (request, inputs), r),
        request.env@.len() == 0,
        request.cwd is Some ==> asked@ == request.cwd->Some_0@ && !"home://"@.is_prefix_of(asked@),
        root@ == inputs.canonical_root@,
        call_ensures(resolve_workspace_cwd, (asked, root, &inputs.canonical_cwd), cwd),
        call_ensures(relative_cwd, (asked,), rest),
    ensures
        request.cwd is None ==> r is Ok && r->Ok_0.cwd@ == inputs.workspace_root@,
        request.cwd is Some && cwd is Ok ==> r is Ok && r->Ok_0.cwd@ == cwd->Ok_0@,
        request.cwd is Some && cwd is Err ==> r is Err && r->Err_0 == cwd->Err_0,
        r is Ok ==> r->Ok_0.read_paths@.len() == 0 && r->Ok_0.write_paths@.len() == 0,
        rest is Err ==> rest == Err::<String, ErrorCode>(ErrorCode::BoundaryEscape) && cwd == Err::<
            String,
            ErrorCode,
        >(ErrorCode::BoundaryEscape),
        rest is Ok && !"cwd://"@.is_prefix_of(asked@) ==> rest->Ok_0@ == asked@,
{
    assert(!env_wants_home(request.env@, 0));
    if r is Ok {
        let wanted = read_list(*request, *inputs);
        assert(wanted =~= Seq::<Seq<char>>::empty());
        let reads = choose|reads: Seq<String>| #[trigger]
            lists_paths(reads, wanted) && sorted_once(r->Ok_0.read_paths@, reads);
        assert(views(reads).len() == reads.len());
        if r->Ok_0.read_paths@.len() > 0 {
            assert(reads.contains(r->Ok_0.read_paths@[0]));
        }
        assert(write_list(*request, *inputs) =~= Seq::<String>::empty());
        if r->Ok_0.write_paths@.len() > 0 {
            assert(write_list(*request, *inputs).contains(r->Ok_0.write_paths@[0]));
        }
    }
}

/// The variables that reach a child from the host are the search path, three of the language and
/// the time zone.
pub proof fn law_passthrough_is_short(keys: Vec<String>)
    requires
        call_ensures(passthrough_keys, (), keys),
    ensures
        keys@.len() == 5,
        keys@[0]@ == "PATH"@ && keys@[1]@ == "LANG"@ && keys@[2]@ == "LC_ALL"@ && keys@[3]@
            == "LC_CTYPE"@ && keys@[4]@ == "TZ"@,
{
    let shown = views(keys@);
    assert(shown.len() == 5);
    assert(shown[0] == keys@[0]@ && shown[1] == keys@[1]@ && shown[2] == keys@[2]@ && shown[3]
        == keys@[3]@ && shown[4] == keys@[4]@);
}

/// The home that is to be resolved is one that the request names, under the key of a home.
pub proof fn law_home_to_resolve_is_asked_for(request: &SpawnRequest, value: Option<String>)
    requires
        call_ensures(home_to_resolve, (request,), value),
        value is Some,
    ensures
        exists|i: int|
            {
                &&& 0 <= i < request.env@.len()
                &&& (#[trigger] request.env@[i]).key@ == "HOME"@
                &&& request.env@[i].value@ == value->Some_0@
            },
        "home://"@.is_prefix_of(value->Some_0@),
        request.env@.len() <= 256,
{
}

/// Every directory that a child may write to is judged on its own account: one more candidate adds
/// itself, or its refusal where nothing was refused before, or nothing.
pub proof fn law_each_candidate_is_judged(
    some: &ContextInputs,
    more: &ContextInputs,
    candidate: WriteCandidate,
    home: String,
    requested: &str,
    a_reads: &mut Vec<String>,
    a_writes: &mut Vec<String>,
    b_reads: &mut Vec<String>,
    b_writes: &mut Vec<String>,
    a: Result<(), ErrorCode>,
    b: Result<(), ErrorCode>,
    denial: ErrorCode,
)
    requires
        some.home_root == Some(home) && more.home_root == Some(home),
        some.gate_present && more.gate_present,
        more.write_candidates@ == some.write_candidates@.push(candidate),
        *old(a_writes) == *old(b_writes),
        call_ensures(add_home_process_paths, (some, requested, a_reads, a_writes), a),
        call_ensures(add_home_process_paths, (more, requested, b_reads, b_writes), b),
        candidate.authorized is Err ==> call_ensures(
            map_fs_path_error,
            (candidate.authorized->Err_0,),
            denial,
        ),
    ensures
        ({
            let inside = candidate.exists && lies_within(candidate.path@, home@);
            &&& a is Err ==> b is Err && b->Err_0 == a->Err_0
            &&& a is Ok && inside && candidate.authorized is Err ==> b == Err::<(), ErrorCode>(
                denial,
            )
            &&& a is Ok && inside && candidate.authorized is Ok ==> b is Ok && final(b_writes)@
                == final(a_writes)@.push(candidate.path)
            &&& a is Ok && !inside ==> b is Ok && final(b_writes)@ == final(a_writes)@
            &&& final(a_reads)@.len() == old(a_reads)@.len() + 1 && final(a_reads)@.last()@
                == requested@
        }),
{
    assert(more.write_candidates@.drop_last() =~= some.write_candidates@);
    assert(more.write_candidates@.last() == candidate);
    if a is Ok && b is Ok {
        let before = old(a_writes)@;
        assert(final(a_writes)@ == before + writable(some.write_candidates@, home@));
        assert(final(b_writes)@ == before + writable(more.write_candidates@, home@));
        assert(before + writable(some.write_candidates@, home@).push(candidate.path) =~= (before
            + writable(some.write_candidates@, home@)).push(candidate.path));
    }
}

/// Each variable of the host is passed on or not on its own account; of two of the same name the
/// later counts.
pub proof fn law_each_variable_is_passed_on(
    request: &SpawnRequest,
    some: &ContextInputs,
    more: &ContextInputs,
    pair: (String, String),
    other: Seq<char>,
    a: Result<PreparedSpawnContext, ErrorCode>,
    b: Result<PreparedSpawnContext, ErrorCode>,
)
    requires
        request.env@.len() == 0 && request.cwd is None,
        more.passthrough@ == some.passthrough@.push(pair),
        call_ensures(prepare_spawn_context, (request, some), a),
        call_ensures(prepare_spawn_context, (request, more), b),
        other != pair.0@,
    ensures
        a is Ok && b is Ok,
        pairs_as_map(a->Ok_0.env@).contains_key(other) <==> pairs_as_map(
            b->Ok_0.env@,
        ).contains_key(other),
        pairs_as_map(a->Ok_0.env@).contains_key(other) ==> pairs_as_map(b->Ok_0.env@)[other]
            == pairs_as_map(a->Ok_0.env@)[other],
        pair.0@ == "PATH"@ || pair.0@ == "LANG"@ || pair.0@ == "TZ"@ ==> pairs_as_map(
            b->Ok_0.env@,
        ).contains_key(pair.0@) && pairs_as_map(b->Ok_0.env@)[pair.0@] == pair.1,
{
    assert(more.passthrough@.drop_last() =~= some.passthrough@);
    assert(more.passthrough@.last() == pair);
    assert(env_after(request.env@, *some, 0) == inherited(some.passthrough@));
    assert(env_after(request.env@, *more, 0) == inherited(more.passthrough@));
}

/// A child that may read a path below the home keeps what it could read and write before.
pub proof fn law_home_paths_are_added(
    inputs: &ContextInputs,
    requested: &str,
    read_paths: &mut Vec<String>,
    write_paths: &mut Vec<String>,
    r: Result<(), ErrorCode>,
    i: int,
)
    requires
        call_ensures(add_home_process_paths, (inputs, requested, read_paths, write_paths), r),
        0 <= i < old(read_paths)@.len(),
    ensures
        final(read_paths)@.len() == old(read_paths)@.len() + 1,
        final(read_paths)@[i] == old(read_paths)@[i],
        final(read_paths)@[old(read_paths)@.len() as int]@ == requested@,
        r is Ok ==> old(write_paths)@.len() <= final(write_paths)@.len() && final(write_paths)@.take(old(write_paths)@.len() as int) == old(write_paths)@,
        inputs.home_root is None && r is Ok ==> final(write_paths)@ == old(write_paths)@,
{
    let before = old(read_paths)@;
    assert(final(read_paths)@.drop_last()[i] == final(read_paths)@[i]);
    if r is Ok {
        assert(final(write_paths)@.take(old(write_paths)@.len() as int) =~= old(write_paths)@);
        if inputs.home_root is None {
            assert(final(write_paths)@ =~= old(write_paths)@);
        }
    }
}

/// A file may be shown at a place exactly if this begins at the root, never leads upwards, and holds
/// neither a quotation mark nor a backslash nor a zero.
pub proof fn law_fixed_paths_do_not_climb(target: &str, upwards: bool, r: Result<(), ErrorCode>)
    requires
        call_ensures(validate_fixed_path, (target,), r),
        call_ensures(has_parent_component, (target,), upwards),
    ensures
        r is Ok <==> target@.len() > 0 && target@[0] == '/' && !upwards && !target@.contains('"')
            && !target@.contains('\\') && !target@.contains('\0'),
{
}

/// A code appears in a message under its own name, and an unknown one with its text.
pub proof fn law_codes_appear_by_name(code: &ErrorCode, text: String)
    requires
        call_ensures(ErrorCode::show, (code,), text),
    ensures
        *code is CapabilityDenied ==> text@ == "ErrorCode::CapabilityDenied"@,
        *code is InvalidInput ==> text@ == "ErrorCode::InvalidInput"@,
        *code is BoundaryEscape ==> text@ == "ErrorCode::BoundaryEscape"@,
        *code is Quota ==> text@ == "ErrorCode::Quota"@,
        *code is TooLarge ==> text@ == "ErrorCode::TooLarge"@,
        *code is Closed ==> text@ == "ErrorCode::Closed"@,
        *code is Cancelled ==> text@ == "ErrorCode::Cancelled"@,
        *code is WaitTimeout ==> text@ == "ErrorCode::WaitTimeout"@,
        *code is NoSuchProcess ==> text@ == "ErrorCode::NoSuchProcess"@,
        *code is RegistryFull ==> text@ == "ErrorCode::RegistryFull"@,
        *code is PersistUnsupported ==> text@ == "ErrorCode::PersistUnsupported"@,
        *code is Unknown ==> text@ == "ErrorCode::Unknown("@ + quoted(
            code->Unknown_0@,
        ) + ")"@,
{
}

} // verus!
