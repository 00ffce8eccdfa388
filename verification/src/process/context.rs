//! The environment and the working directory of a child.
//!
//! What a capsule asks for is checked before any path is resolved. Paths below `home://` are
//! resolved by the filesystem policy; a working directory has to stay inside the workspace.

use vstd::prelude::*;

use crate::names::pairs_as_map;
use crate::order::{pairs_ordered, put_ordered, sort_paths, sorted_once};
use crate::paths::{absolute, climbs, has_parent_component, is_absolute, is_within, lies_within};
use crate::process::types::{EnvVar, ErrorCode, SpawnRequest};
use crate::text::{
    chars_of, contains_char, lemma_utf8_len, starts_with, str_eq, strip_prefix, utf8_len, views,
};

verus! {

/// How many environment variables a capsule may set.
pub const MAX_ENV_VARS: usize = 256;

/// How many bytes the value of an environment variable may have.
pub const MAX_ENV_VALUE_BYTES: usize = 65536;

/// Why the filesystem policy did not resolve a path.
#[derive(Debug, Clone, Copy, PartialEq, Eq, Structural)]
pub enum FsErrorCode {
    BoundaryEscape,
    CapabilityDenied,
    Access,
    TooLarge,
    Quota,
    /// Any other reason.
    Other,
}

/// A directory below the home of the caller that children may write to.
pub struct WriteCandidate {
    /// Where it really is.
    pub path: String,
    pub exists: bool,
    /// Whether the filesystem policy lets children write to it.
    pub authorized: Result<(), FsErrorCode>,
}

/// What was read from the host while a context is prepared.
pub struct ContextInputs {
    /// The variables that every child inherits from the host, as far as they are set.
    pub passthrough: Vec<(String, String)>,
    /// Where the home that the environment asks for really is.
    pub home_env: Result<String, FsErrorCode>,
    /// Where the home directory that is asked for as a working directory really is.
    pub home_cwd: Result<String, FsErrorCode>,
    /// The root of the workspace.
    pub workspace_root: String,
    /// Where the root of the workspace really is.
    pub canonical_root: String,
    /// Where the working directory really is, if it exists.
    pub canonical_cwd: Option<String>,
    /// Where the home of the caller really is, if it has a directory.
    pub home_root: Option<String>,
    /// Whether there is a security gate.
    pub gate_present: bool,
    pub write_candidates: Vec<WriteCandidate>,
}

/// The context of a child.
pub struct PreparedSpawnContext {
    pub cwd: String,
    /// The environment, in the order of its keys.
    pub env: Vec<(String, String)>,
    pub read_paths: Vec<String>,
    pub write_paths: Vec<String>,
}

/// A character that a key may hold after its first.
pub open spec fn key_char(c: char) -> bool {
    c == '_' || ('a' <= c && c <= 'z') || ('A' <= c && c <= 'Z') || ('0' <= c && c <= '9')
}

/// A key is a letter or an underscore followed by letters, digits and underscores.
pub open spec fn key_valid(key: Seq<char>) -> bool {
    &&& key.len() > 0
    &&& !('0' <= key[0] && key[0] <= '9')
    &&& forall|i: int| 0 <= i < key.len() ==> key_char(#[trigger] key[i])
}

/// Whether a key is well-formed.
pub fn valid_env_key(key: &str) -> (r: bool)
    ensures
        r == key_valid(key@),
{
    let chars = chars_of(key);
    if chars.len() == 0 || ('0' <= chars[0] && chars[0] <= '9') {
        return false;
    }
    let mut i: usize = 0;
    while i < chars.len()
        invariant
            i <= chars@.len(),
            chars@ == key@,
            forall|k: int| 0 <= k < i ==> key_char(#[trigger] key@[k]),
        decreases chars.len() - i,
    {
        let c = chars[i];
        if !(c == '_' || ('a' <= c && c <= 'z') || ('A' <= c && c <= 'Z') || ('0' <= c && c
            <= '9')) {
            assert(!key_char(key@[i as int]));
            return false;
        }
        i += 1;
    }
    true
}

/// The variable could change which program runs, what runs before it, or in whose name.
pub open spec fn key_reserved(key: Seq<char>) -> bool {
    ||| key == "PATH"@
    ||| key == "ASTRID_SESSION_TOKEN"@
    ||| key == "BASH_ENV"@
    ||| key == "ENV"@
    ||| key == "GCONV_PATH"@
    ||| key == "NODE_OPTIONS"@
    ||| key == "PERL5OPT"@
    ||| key == "PYTHONHOME"@
    ||| key == "PYTHONPATH"@
    ||| key == "RUBYOPT"@
    ||| key == "ZDOTDIR"@
    ||| "DYLD_"@.is_prefix_of(key)
    ||| "LD_"@.is_prefix_of(key)
}

/// Whether a capsule may not set the variable.
pub fn reserved_process_env(key: &str) -> (r: bool)
    ensures
        r == key_reserved(key@),
{
    str_eq(key, "PATH") || str_eq(key, "ASTRID_SESSION_TOKEN") || str_eq(key, "BASH_ENV")
        || str_eq(key, "ENV") || str_eq(key, "GCONV_PATH") || str_eq(key, "NODE_OPTIONS")
        || str_eq(key, "PERL5OPT") || str_eq(key, "PYTHONHOME") || str_eq(key, "PYTHONPATH")
        || str_eq(key, "RUBYOPT") || str_eq(key, "ZDOTDIR") || starts_with(key, "DYLD_")
        || starts_with(key, "LD_")
}

/// What a refusal of the filesystem policy is to the capsule.
pub open spec fn fs_error(code: FsErrorCode) -> ErrorCode {
    match code {
        FsErrorCode::BoundaryEscape => ErrorCode::BoundaryEscape,
        FsErrorCode::CapabilityDenied => ErrorCode::CapabilityDenied,
        FsErrorCode::Access => ErrorCode::CapabilityDenied,
        FsErrorCode::TooLarge => ErrorCode::TooLarge,
        FsErrorCode::Quota => ErrorCode::Quota,
        FsErrorCode::Other => ErrorCode::InvalidInput,
    }
}

/// What a refusal of the filesystem policy is to the capsule.
pub fn map_fs_path_error(code: FsErrorCode) -> (r: ErrorCode)
    ensures
        r == fs_error(code),
{
    match code {
        FsErrorCode::BoundaryEscape => ErrorCode::BoundaryEscape,
        FsErrorCode::CapabilityDenied => ErrorCode::CapabilityDenied,
        FsErrorCode::Access => ErrorCode::CapabilityDenied,
        FsErrorCode::TooLarge => ErrorCode::TooLarge,
        FsErrorCode::Quota => ErrorCode::Quota,
        FsErrorCode::Other => ErrorCode::InvalidInput,
    }
}

/// The candidate exists and lies in the home.
pub open spec fn eligible(candidate: WriteCandidate, home: Seq<char>) -> bool {
    lies_within(candidate.path@, home) && candidate.exists
}

/// The first refusal among the eligible candidates.
pub open spec fn write_refusal(candidates: Seq<WriteCandidate>, home: Seq<char>) -> Option<
    ErrorCode,
>
    decreases candidates.len(),
{
    if candidates.len() == 0 {
        None
    } else {
        match write_refusal(candidates.drop_last(), home) {
            Some(code) => Some(code),
            None => match candidates.last().authorized {
                Err(code) if eligible(candidates.last(), home) => Some(fs_error(code)),
                _ => None,
            },
        }
    }
}

/// The paths of the eligible candidates, in order.
pub open spec fn writable(candidates: Seq<WriteCandidate>, home: Seq<char>) -> Seq<String>
    decreases candidates.len(),
{
    if candidates.len() == 0 {
        Seq::empty()
    } else {
        let before = writable(candidates.drop_last(), home);
        if eligible(candidates.last(), home) {
            before.push(candidates.last().path)
        } else {
            before
        }
    }
}

/// Why a home cannot be given to a child.
pub open spec fn home_refusal(inputs: ContextInputs) -> Option<ErrorCode> {
    match inputs.home_root {
        None => Some(ErrorCode::CapabilityDenied),
        Some(home) => if !inputs.gate_present {
            Some(ErrorCode::CapabilityDenied)
        } else {
            write_refusal(inputs.write_candidates@, home@)
        },
    }
}

/// The directories of a home that a child may write to.
pub open spec fn home_writes(inputs: ContextInputs) -> Seq<String> {
    match inputs.home_root {
        None => Seq::empty(),
        Some(home) => writable(inputs.write_candidates@, home@),
    }
}

/// Lets a child read a path below the home, and write to those directories of the home that the
/// policy lets children write to.
pub fn add_home_process_paths(
    inputs: &ContextInputs,
    requested: &str,
    read_paths: &mut Vec<String>,
    write_paths: &mut Vec<String>,
) -> (r: Result<(), ErrorCode>)
    ensures
        final(read_paths)@.len() == old(read_paths)@.len() + 1,
        final(read_paths)@.drop_last() == old(read_paths)@,
        final(read_paths)@.last()@ == requested@,
        match r {
            Ok(()) => home_refusal(*inputs) is None && final(write_paths)@ == old(write_paths)@
                + home_writes(*inputs),
            Err(code) => home_refusal(*inputs) == Some(code),
        },
{
    read_paths.push(requested.to_owned());
    assert(read_paths@.drop_last() =~= old(read_paths)@);
    let home = match &inputs.home_root {
        None => {
            return Err(ErrorCode::CapabilityDenied);
        },
        Some(home) => home,
    };
    if !inputs.gate_present {
        return Err(ErrorCode::CapabilityDenied);
    }
    let ghost all = inputs.write_candidates@;
    let ghost start = write_paths@;
    let mut i: usize = 0;
    proof {
        assert(all.take(0) =~= Seq::<WriteCandidate>::empty());
        assert(write_paths@ =~= start + writable(all.take(0), home@));
    }
    while i < inputs.write_candidates.len()
        invariant
            i <= all.len(),
            all == inputs.write_candidates@,
            inputs.home_root == Some(*home),
            inputs.gate_present,
            start == old(write_paths)@,
            read_paths@.len() == old(read_paths)@.len() + 1,
            read_paths@.drop_last() == old(read_paths)@,
            read_paths@.last()@ == requested@,
            write_refusal(all.take(i as int), home@) is None,
            write_paths@ == start + writable(all.take(i as int), home@),
        decreases inputs.write_candidates.len() - i,
    {
        proof {
            assert(all.take(i + 1).drop_last() =~= all.take(i as int));
            assert(all.take(i + 1).last() == all[i as int]);
        }
        let candidate = &inputs.write_candidates[i];
        if is_within(candidate.path.as_str(), home.as_str()) && candidate.exists {
            match candidate.authorized {
                Err(code) => {
                    proof {
                        lemma_refusal_stays(all, home@, i + 1);
                    }
                    return Err(map_fs_path_error(code));
                },
                Ok(()) => {
                    write_paths.push(candidate.path.clone());
                },
            }
        }
        assert(write_paths@ =~= start + writable(all.take(i + 1), home@));
        i += 1;
    }
    assert(all.take(all.len() as int) =~= all);
    Ok(())
}

/// What is refused early is refused in the end.
proof fn lemma_refusal_stays(candidates: Seq<WriteCandidate>, home: Seq<char>, n: int)
    requires
        0 <= n <= candidates.len(),
        write_refusal(candidates.take(n), home) is Some,
    ensures
        write_refusal(candidates, home) == write_refusal(candidates.take(n), home),
    decreases candidates.len() - n,
{
    if n == candidates.len() {
        assert(candidates.take(n) =~= candidates);
    } else {
        assert(candidates.take(n + 1).drop_last() =~= candidates.take(n));
        lemma_refusal_stays(candidates, home, n + 1);
    }
}

/// The variable at `i` is one that a capsule may not set, or set like this.
pub open spec fn item_bad(env: Seq<EnvVar>, i: int) -> bool {
    ||| !key_valid(env[i].key@)
    ||| env[i].value@.contains('\0')
    ||| utf8_len(env[i].value@) > MAX_ENV_VALUE_BYTES
    ||| exists|j: int| 0 <= j < i && (#[trigger] env[j]).key@ == env[i].key@
    ||| key_reserved(env[i].key@)
}

/// The variable names a home that the filesystem policy has to resolve.
pub open spec fn wants_home(item: EnvVar) -> bool {
    item.key@ == "HOME"@ && "home://"@.is_prefix_of(item.value@)
}

/// What is wrong with the first `n` variables: the first thing that is.
pub open spec fn env_error(env: Seq<EnvVar>, inputs: ContextInputs, n: int) -> Option<ErrorCode>
    decreases n,
{
    if n <= 0 {
        None
    } else {
        match env_error(env, inputs, n - 1) {
            Some(code) => Some(code),
            None => if item_bad(env, n - 1) {
                Some(ErrorCode::InvalidInput)
            } else if wants_home(env[n - 1]) {
                match inputs.home_env {
                    Err(code) => Some(fs_error(code)),
                    Ok(_) => home_refusal(inputs),
                }
            } else {
                None
            },
        }
    }
}

/// The environment after the first `n` variables, on top of what the child inherits.
pub open spec fn env_after(env: Seq<EnvVar>, inputs: ContextInputs, n: int) -> Map<
    Seq<char>,
    String,
>
    decreases n,
{
    if n <= 0 {
        inherited(inputs.passthrough@)
    } else {
        let item = env[n - 1];
        let value = match inputs.home_env {
            Ok(physical) if wants_home(item) => physical,
            _ => item.value,
        };
        env_after(env, inputs, n - 1).insert(item.key@, value)
    }
}

/// The variables that a child inherits from the host.
pub open spec fn passes_through(key: Seq<char>) -> bool {
    ||| key == "PATH"@
    ||| key == "LANG"@
    ||| key == "LC_ALL"@
    ||| key == "LC_CTYPE"@
    ||| key == "TZ"@
}

/// What a child inherits of these variables of the host.
pub open spec fn inherited(pairs: Seq<(String, String)>) -> Map<Seq<char>, String>
    decreases pairs.len(),
{
    if pairs.len() == 0 {
        Map::empty()
    } else if passes_through(pairs.last().0@) {
        inherited(pairs.drop_last()).insert(pairs.last().0@, pairs.last().1)
    } else {
        inherited(pairs.drop_last())
    }
}

/// One of the first `n` variables of a request has this key.
pub open spec fn requested(env: Seq<EnvVar>, n: int, key: Seq<char>) -> bool {
    exists|i: int| 0 <= i < n && (#[trigger] env[i]).key@ == key
}

/// One of the first `n` variables wants a home.
pub open spec fn env_wants_home(env: Seq<EnvVar>, n: int) -> bool {
    exists|i: int| 0 <= i < n && wants_home(#[trigger] env[i])
}

/// The working directory that is asked for, without the scheme of the workspace.
pub open spec fn cwd_path(requested: Seq<char>) -> Seq<char> {
    if "cwd://"@.is_prefix_of(requested) {
        requested.skip("cwd://"@.len() as int)
    } else {
        requested
    }
}

/// The working directory inside the workspace, or why there is none.
pub open spec fn cwd_resolved(
    requested: Seq<char>,
    root: Seq<char>,
    canonical: Option<String>,
) -> Result<String, ErrorCode> {
    if absolute(cwd_path(requested)) || climbs(cwd_path(requested)) {
        Err(ErrorCode::BoundaryEscape)
    } else {
        match canonical {
            None => Err(ErrorCode::InvalidInput),
            Some(cwd) => if lies_within(cwd@, root) {
                Ok(cwd)
            } else {
                Err(ErrorCode::BoundaryEscape)
            },
        }
    }
}

/// The working directory to look up below the root of the workspace, unless it leads out of the
/// workspace by its very form.
pub fn relative_cwd(requested: &str) -> (r: Result<String, ErrorCode>)
    ensures
        match r {
            Ok(path) => path@ == cwd_path(requested@) && !absolute(path@) && !climbs(path@),
            Err(code) => code == ErrorCode::BoundaryEscape && (absolute(cwd_path(requested@))
                || climbs(cwd_path(requested@))),
        },
{
    let path = match strip_prefix(requested, "cwd://") {
        Some(rest) => {
            assert(rest@ =~= requested@.skip("cwd://"@.len() as int));
            rest
        },
        None => requested.to_owned(),
    };
    if is_absolute(path.as_str()) || has_parent_component(path.as_str()) {
        Err(ErrorCode::BoundaryEscape)
    } else {
        Ok(path)
    }
}

/// The working directory inside the workspace, given where the root and the directory really are.
pub fn resolve_workspace_cwd(requested: &str, root: &str, canonical: &Option<String>) -> (r: Result<
    String,
    ErrorCode,
>)
    ensures
        r == cwd_resolved(requested@, root@, *canonical),
{
    match relative_cwd(requested) {
        Err(code) => Err(code),
        Ok(_) => match canonical {
            None => Err(ErrorCode::InvalidInput),
            Some(cwd) => {
                if is_within(cwd.as_str(), root) {
                    Ok(cwd.clone())
                } else {
                    Err(ErrorCode::BoundaryEscape)
                }
            },
        },
    }
}

/// Whether the working directory that is asked for is below a home.
pub open spec fn cwd_wants_home(cwd: Option<String>) -> bool {
    cwd is Some && "home://"@.is_prefix_of(cwd->Some_0@)
}

/// What is wrong with the working directory.
pub open spec fn cwd_error(cwd: Option<String>, inputs: ContextInputs) -> Option<ErrorCode> {
    match cwd {
        None => None,
        Some(path) => if cwd_wants_home(cwd) {
            match inputs.home_cwd {
                Err(code) => Some(fs_error(code)),
                Ok(_) => home_refusal(inputs),
            }
        } else {
            match cwd_resolved(path@, inputs.canonical_root@, inputs.canonical_cwd) {
                Err(code) => Some(code),
                Ok(_) => None,
            }
        },
    }
}

/// The working directory.
pub open spec fn cwd_chosen(cwd: Option<String>, inputs: ContextInputs) -> Seq<char> {
    match cwd {
        None => inputs.workspace_root@,
        Some(_) => if cwd_wants_home(cwd) {
            inputs.home_cwd->Ok_0@
        } else {
            inputs.canonical_cwd->Some_0@
        },
    }
}

/// Why no context can be prepared: the first thing that is wrong with the request.
pub open spec fn context_error(request: SpawnRequest, inputs: ContextInputs) -> Option<ErrorCode> {
    if request.env@.len() > MAX_ENV_VARS {
        Some(ErrorCode::TooLarge)
    } else {
        match env_error(request.env@, inputs, request.env@.len() as int) {
            Some(code) => Some(code),
            None => cwd_error(request.cwd, inputs),
        }
    }
}

/// The paths that a child reads by its request: the home of its environment and the home it
/// works in.
pub open spec fn read_list(request: SpawnRequest, inputs: ContextInputs) -> Seq<Seq<char>> {
    (if env_wants_home(request.env@, request.env@.len() as int) {
        seq![inputs.home_env->Ok_0@]
    } else {
        Seq::empty()
    }) + (if cwd_wants_home(request.cwd) {
        seq![inputs.home_cwd->Ok_0@]
    } else {
        Seq::empty()
    })
}

/// `paths` are the paths `wanted` as texts.
pub open spec fn lists_paths(paths: Seq<String>, wanted: Seq<Seq<char>>) -> bool {
    views(paths) == wanted
}

/// The directories that a child writes to by its request.
pub open spec fn write_list(request: SpawnRequest, inputs: ContextInputs) -> Seq<String> {
    (if env_wants_home(request.env@, request.env@.len() as int) {
        home_writes(inputs)
    } else {
        Seq::empty()
    }) + (if cwd_wants_home(request.cwd) {
        home_writes(inputs)
    } else {
        Seq::empty()
    })
}

/// The first home that the environment asks for, provided that nothing before it is wrong. It is
/// to be resolved before the context can be prepared.
pub fn home_to_resolve(request: &SpawnRequest) -> (value: Option<String>)
    ensures
        match value {
            Some(text) => exists|i: int|
                0 <= i < request.env@.len() && wants_home(#[trigger] request.env@[i])
                    && request.env@[i].value@ == text@ && request.env@.len() <= MAX_ENV_VARS && (
                forall|k: int| 0 <= k <= i ==> !#[trigger] item_bad(request.env@, k)),
            None => request.env@.len() > MAX_ENV_VARS || forall|i: int|
                0 <= i < request.env@.len() && wants_home(#[trigger] request.env@[i]) ==> exists|
                    k: int,
                |
                    0 <= k <= i && #[trigger] item_bad(request.env@, k),
        },
{
    if request.env.len() > MAX_ENV_VARS {
        return None;
    }
    let mut i: usize = 0;
    while i < request.env.len()
        invariant
            i <= request.env@.len(),
            request.env@.len() <= MAX_ENV_VARS,
            forall|k: int| 0 <= k < i ==> !#[trigger] item_bad(request.env@, k),
            forall|k: int| 0 <= k < i ==> !wants_home(#[trigger] request.env@[k]),
        decreases request.env.len() - i,
    {
        if is_bad(&request.env, i) {
            assert(item_bad(request.env@, i as int));
            return None;
        }
        if str_eq(request.env[i].key.as_str(), "HOME") && starts_with(
            request.env[i].value.as_str(),
            "home://",
        ) {
            assert(wants_home(request.env@[i as int]));
            return Some(request.env[i].value.clone());
        }
        i += 1;
    }
    None
}

/// Whether the variable at `i` is one that a capsule may not set, or set like this.
fn is_bad(env: &Vec<EnvVar>, i: usize) -> (bad: bool)
    requires
        i < env@.len(),
    ensures
        bad == item_bad(env@, i as int),
{
    let key = env[i].key.as_str();
    let value = env[i].value.as_str();
    proof {
        lemma_utf8_len(value@);
    }
    if !valid_env_key(key) || contains_char(value, '\0') || value.as_bytes().len()
        > MAX_ENV_VALUE_BYTES || reserved_process_env(key) {
        return true;
    }
    let mut j: usize = 0;
    while j < i
        invariant
            j <= i < env@.len(),
            key@ == env@[i as int].key@,
            forall|k: int| 0 <= k < j ==> (#[trigger] env@[k]).key@ != key@,
        decreases i - j,
    {
        if str_eq(env[j].key.as_str(), key) {
            assert(env@[j as int].key@ == env@[i as int].key@);
            return true;
        }
        j += 1;
    }
    false
}

/// Prepares the context of a child. The request is refused for the first thing that is wrong
/// with it: too many variables, then the variables in their order, then the working directory.
pub fn prepare_spawn_context(request: &SpawnRequest, inputs: &ContextInputs) -> (r: Result<
    PreparedSpawnContext,
    ErrorCode,
>)
    ensures
        match r {
            Err(code) => context_error(*request, *inputs) == Some(code),
            Ok(context) => {
                &&& context_error(*request, *inputs) is None
                &&& context.cwd@ == cwd_chosen(request.cwd, *inputs)
                &&& pairs_ordered(context.env@)
                &&& pairs_as_map(context.env@) == env_after(
                    request.env@,
                    *inputs,
                    request.env@.len() as int,
                )
                &&& forall|key: Seq<char>| #[trigger]
                    pairs_as_map(context.env@).contains_key(key) ==> passes_through(key)
                        || requested(request.env@, request.env@.len() as int, key)
                &&& exists|reads: Seq<String>| #[trigger]
                    lists_paths(reads, read_list(*request, *inputs)) && sorted_once(
                        context.read_paths@,
                        reads,
                    )
                &&& sorted_once(context.write_paths@, write_list(*request, *inputs))
            },
        },
{
    if request.env.len() > MAX_ENV_VARS {
        return Err(ErrorCode::TooLarge);
    }
    let ghost items = request.env@;
    let ghost total = request.env@.len() as int;
    let mut env = inherit(&inputs.passthrough);
    let mut reads: Vec<String> = Vec::new();
    let mut writes: Vec<String> = Vec::new();
    let mut i: usize = 0;
    proof {
        assert(views(reads@) =~= Seq::<Seq<char>>::empty());
    }
    while i < request.env.len()
        invariant
            i <= items.len(),
            items == request.env@,
            total == items.len(),
            total <= MAX_ENV_VARS,
            env_error(items, *inputs, i as int) is None,
            pairs_ordered(env@),
            pairs_as_map(env@) == env_after(items, *inputs, i as int),
            views(reads@) == (if env_wants_home(items, i as int) {
                seq![inputs.home_env->Ok_0@]
            } else {
                Seq::<Seq<char>>::empty()
            }),
            writes@ == (if env_wants_home(items, i as int) {
                home_writes(*inputs)
            } else {
                Seq::<String>::empty()
            }),
            forall|k: int| 0 <= k < i ==> !#[trigger] item_bad(items, k),
        decreases request.env.len() - i,
    {
        if is_bad(&request.env, i) {
            proof {
                lemma_env_error_stays(items, *inputs, i + 1, total);
            }
            return Err(ErrorCode::InvalidInput);
        }
        let key = request.env[i].key.clone();
        let mut value = request.env[i].value.clone();
        if str_eq(key.as_str(), "HOME") && starts_with(value.as_str(), "home://") {
            proof {
                assert(wants_home(items[i as int]));
                assert(!env_wants_home(items, i as int)) by {
                    if env_wants_home(items, i as int) {
                        let k = choose|k: int| 0 <= k < i && wants_home(#[trigger] items[k]);
                        assert(items[k].key@ == items[i as int].key@);
                        assert(item_bad(items, i as int));
                    }
                }
            }
            match &inputs.home_env {
                Err(code) => {
                    proof {
                        lemma_env_error_stays(items, *inputs, i + 1, total);
                    }
                    return Err(map_fs_path_error(*code));
                },
                Ok(physical) => {
                    match add_home_process_paths(
                        inputs,
                        physical.as_str(),
                        &mut reads,
                        &mut writes,
                    ) {
                        Err(code) => {
                            proof {
                                lemma_env_error_stays(items, *inputs, i + 1, total);
                            }
                            return Err(code);
                        },
                        Ok(()) => {},
                    }
                    assert(views(reads@) =~= seq![physical@]);
                    assert(writes@ =~= home_writes(*inputs));
                    value = physical.clone();
                },
            }
        }
        proof {
            assert(env_wants_home(items, i + 1) == (env_wants_home(items, i as int) || wants_home(
                items[i as int],
            ))) by {
                if env_wants_home(items, i + 1) {
                    let k = choose|k: int| 0 <= k < i + 1 && wants_home(#[trigger] items[k]);
                    if k < i {
                        assert(wants_home(items[k]));
                    }
                }
            }
        }
        put_ordered(&mut env, key, value);
        i += 1;
    }
    let cwd: String = match &request.cwd {
        None => inputs.workspace_root.clone(),
        Some(path) => {
            if starts_with(path.as_str(), "home://") {
                match &inputs.home_cwd {
                    Err(code) => {
                        return Err(map_fs_path_error(*code));
                    },
                    Ok(physical) => {
                        let ghost before_reads = views(reads@);
                        let ghost before_writes = writes@;
                        match add_home_process_paths(
                            inputs,
                            physical.as_str(),
                            &mut reads,
                            &mut writes,
                        ) {
                            Err(code) => {
                                return Err(code);
                            },
                            Ok(()) => {},
                        }
                        assert(views(reads@) =~= before_reads + seq![physical@]) by {
                            assert forall|k: int| 0 <= k < before_reads.len() implies
                                views(reads@)[k] == before_reads[k] by {
                                assert(reads@.drop_last()[k] == reads@[k]);
                            }
                        }
                        physical.clone()
                    },
                }
            } else {
                match resolve_workspace_cwd(
                    path.as_str(),
                    inputs.canonical_root.as_str(),
                    &inputs.canonical_cwd,
                ) {
                    Err(code) => {
                        return Err(code);
                    },
                    Ok(cwd) => cwd,
                }
            }
        },
    };
    proof {
        assert(views(reads@) =~= read_list(*request, *inputs));
        assert(lists_paths(reads@, read_list(*request, *inputs)));
        assert(writes@ =~= write_list(*request, *inputs));
    }
    proof {
        assert forall|key: Seq<char>| #[trigger] pairs_as_map(env@).contains_key(key) implies
            passes_through(key) || requested(items, total, key) by {
            law_nothing_else_is_inherited(items, *inputs, total, key);
        }
    }
    Ok(
        PreparedSpawnContext {
            cwd,
            env,
            read_paths: sort_paths(&reads),
            write_paths: sort_paths(&writes),
        },
    )
}

/// What is wrong early is wrong in the end.
pub proof fn lemma_env_error_stays(env: Seq<EnvVar>, inputs: ContextInputs, n: int, m: int)
    requires
        0 <= n <= m,
        env_error(env, inputs, n) is Some,
    ensures
        env_error(env, inputs, m) == env_error(env, inputs, n),
    decreases m - n,
{
    if n < m {
        lemma_env_error_stays(env, inputs, n, m - 1);
    }
}

/// Whether a child inherits the variable.
fn is_passed_through(key: &str) -> (r: bool)
    ensures
        r == passes_through(key@),
{
    str_eq(key, "PATH") || str_eq(key, "LANG") || str_eq(key, "LC_ALL") || str_eq(key, "LC_CTYPE")
        || str_eq(key, "TZ")
}

/// Only what passes through is inherited.
pub proof fn lemma_inherited_keys(pairs: Seq<(String, String)>, key: Seq<char>)
    requires
        inherited(pairs).contains_key(key),
    ensures
        passes_through(key),
    decreases pairs.len(),
{
    if !(passes_through(pairs.last().0@) && pairs.last().0@ == key) {
        lemma_inherited_keys(pairs.drop_last(), key);
    }
}

/// The environment of a child holds nothing but what it inherits from the host and what was asked
/// for: no other variable of the host reaches it.
pub proof fn law_nothing_else_is_inherited(
    env: Seq<EnvVar>,
    inputs: ContextInputs,
    n: int,
    key: Seq<char>,
)
    requires
        0 <= n <= env.len(),
        env_after(env, inputs, n).contains_key(key),
    ensures
        passes_through(key) || requested(env, n, key),
    decreases n,
{
    if n > 0 {
        if env[n - 1].key@ == key {
            assert(requested(env, n, key));
        } else {
            law_nothing_else_is_inherited(env, inputs, n - 1, key);
            if requested(env, n - 1, key) {
                let i = choose|i: int| 0 <= i < n - 1 && (#[trigger] env[i]).key@ == key;
                assert(env[i].key@ == key);
            }
        }
    } else {
        lemma_inherited_keys(inputs.passthrough@, key);
    }
}

/// The environment that a child inherits, in the order of its keys.
fn inherit(passthrough: &Vec<(String, String)>) -> (env: Vec<(String, String)>)
    ensures
        pairs_ordered(env@),
        pairs_as_map(env@) == inherited(passthrough@),
{
    let mut env: Vec<(String, String)> = Vec::new();
    let mut i: usize = 0;
    proof {
        assert(passthrough@.take(0) =~= Seq::<(String, String)>::empty());
        assert(pairs_as_map(env@) =~= Map::<Seq<char>, String>::empty());
    }
    while i < passthrough.len()
        invariant
            i <= passthrough@.len(),
            pairs_ordered(env@),
            pairs_as_map(env@) == inherited(passthrough@.take(i as int)),
        decreases passthrough.len() - i,
    {
        proof {
            assert(passthrough@.take(i + 1).drop_last() =~= passthrough@.take(i as int));
            assert(passthrough@.take(i + 1).last() == passthrough@[i as int]);
        }
        if is_passed_through(passthrough[i].0.as_str()) {
            put_ordered(&mut env, passthrough[i].0.clone(), passthrough[i].1.clone());
        }
        i += 1;
    }
    assert(passthrough@.take(passthrough@.len() as int) =~= passthrough@);
    env
}

/// The variables that every child inherits from the host, as far as they are set.
pub fn passthrough_keys() -> (keys: Vec<String>)
    ensures
        views(keys@) == seq!["PATH"@, "LANG"@, "LC_ALL"@, "LC_CTYPE"@, "TZ"@],
        forall|key: Seq<char>| passes_through(key) == #[trigger] views(keys@).contains(key),
{
    let mut keys: Vec<String> = Vec::new();
    keys.push("PATH".to_owned());
    keys.push("LANG".to_owned());
    keys.push("LC_ALL".to_owned());
    keys.push("LC_CTYPE".to_owned());
    keys.push("TZ".to_owned());
    assert(views(keys@) =~= seq![
        "PATH"@,
        "LANG"@,
        "LC_ALL"@,
        "LC_CTYPE"@,
        "TZ"@,
    ]);
    proof {
        let all = views(keys@);
        assert(all[0] == "PATH"@ && all[1] == "LANG"@ && all[2] == "LC_ALL"@ && all[3]
            == "LC_CTYPE"@ && all[4] == "TZ"@ && all.len() == 5);
    }
    keys
}

/// No capsule sets a reserved variable: where the environment of a child has one, it was
/// inherited from the host as it is.
pub proof fn law_reserved_comes_from_host(
    env: Seq<EnvVar>,
    inputs: ContextInputs,
    n: int,
    key: Seq<char>,
)
    requires
        0 <= n <= env.len(),
        env_error(env, inputs, n) is None,
        key_reserved(key),
    ensures
        env_after(env, inputs, n).contains_key(key) == inherited(
            inputs.passthrough@,
        ).contains_key(key),
        env_after(env, inputs, n).contains_key(key) ==> env_after(env, inputs, n)[key] == inherited(
            inputs.passthrough@,
        )[key],
    decreases n,
{
    if n > 0 {
        law_reserved_comes_from_host(env, inputs, n - 1, key);
        assert(!item_bad(env, n - 1));
    }
}

/// A working directory that is accepted lies in the workspace.
pub proof fn law_cwd_stays_inside(
    requested: Seq<char>,
    root: Seq<char>,
    canonical: Option<String>,
)
    requires
        cwd_resolved(requested, root, canonical) is Ok,
    ensures
        lies_within(cwd_resolved(requested, root, canonical)->Ok_0@, root),
        !absolute(cwd_path(requested)),
        !climbs(cwd_path(requested)),
{
}

} // verus!
