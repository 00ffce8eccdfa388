//! Read-only files that a child finds in its sandbox.
//!
//! Each file is written to a private place of the host, read back, and held against the digest
//! of its content before a child sees it. Only its place and its digest are ever told.

use vstd::prelude::*;

use crate::digest::{digest, digest_of};
use crate::paths::{absolute, climbs, has_parent_component, is_absolute};
use crate::process::context::{key_reserved, key_valid, reserved_process_env, valid_env_key};
use crate::process::types::{ErrorCode, FileInjection, InjectionPlacement};
use crate::text::{concat2, contains_char, str_eq};

verus! {

/// How many bytes an injected file may have.
pub const MAX_INJECTION_BYTES: usize = 1048576;

/// A file of the host that the sandbox shows read-only at a place.
pub struct RoInjection {
    pub source: String,
    pub target: String,
}

/// What a child gets from its injected files.
pub struct PreparedInjections {
    pub sandbox: Vec<RoInjection>,
    /// The variables that tell the child where its files are.
    pub env: Vec<(String, String)>,
    /// The place and the digest of each file.
    pub audit: Vec<(String, String)>,
}

/// What to do next.
pub enum SnapshotStep {
    /// Write the file at this index to a private place and read it back.
    Write(usize),
    /// There is nothing left to write.
    Finish(Result<PreparedInjections, ErrorCode>),
}

/// A capsule may point this variable at a file.
pub open spec fn env_name_valid(name: Seq<char>) -> bool {
    key_valid(name) && !key_reserved(name)
}

/// Checks that a capsule may point a variable at a file.
pub fn validate_env_name(name: &str) -> (r: Result<(), ErrorCode>)
    ensures
        match r {
            Ok(()) => env_name_valid(name@),
            Err(code) => code == ErrorCode::InvalidInput && !env_name_valid(name@),
        },
{
    if !valid_env_key(name) || reserved_process_env(name) {
        Err(ErrorCode::InvalidInput)
    } else {
        Ok(())
    }
}

/// A file may be shown at this place: it is absolute, does not climb, and holds no character
/// that means something to the sandbox.
pub open spec fn fixed_path_valid(target: Seq<char>) -> bool {
    &&& absolute(target)
    &&& !target.contains('"')
    &&& !target.contains('\\')
    &&& !target.contains('\0')
    &&& !climbs(target)
}

/// Checks that a file may be shown at a place.
pub fn validate_fixed_path(target: &str) -> (r: Result<(), ErrorCode>)
    ensures
        match r {
            Ok(()) => fixed_path_valid(target@),
            Err(code) => code == ErrorCode::InvalidInput && !fixed_path_valid(target@),
        },
{
    if !is_absolute(target) || contains_char(target, '"') || contains_char(target, '\\')
        || contains_char(target, '\0') || has_parent_component(target) {
        Err(ErrorCode::InvalidInput)
    } else {
        Ok(())
    }
}

/// What is wrong with a file before it is written.
pub open spec fn injection_error(injection: FileInjection, linux: bool) -> Option<ErrorCode> {
    if injection.content@.len() > MAX_INJECTION_BYTES {
        Some(ErrorCode::TooLarge)
    } else {
        match injection.placement {
            InjectionPlacement::EnvPointer(name) => if env_name_valid(name@) {
                None
            } else {
                Some(ErrorCode::InvalidInput)
            },
            InjectionPlacement::FixedPath(path) => if fixed_path_valid(path@) && linux {
                None
            } else {
                Some(ErrorCode::InvalidInput)
            },
        }
    }
}

/// What is wrong with a file before it is written. Only Linux can show a file at a place of the
/// capsule's choice.
pub fn check_injection(injection: &FileInjection, linux: bool) -> (r: Option<ErrorCode>)
    ensures
        r == injection_error(*injection, linux),
{
    if injection.content.len() > MAX_INJECTION_BYTES {
        return Some(ErrorCode::TooLarge);
    }
    let checked = match &injection.placement {
        InjectionPlacement::EnvPointer(name) => validate_env_name(name.as_str()),
        InjectionPlacement::FixedPath(path) => {
            match validate_fixed_path(path.as_str()) {
                Ok(()) => {
                    if linux {
                        Ok(())
                    } else {
                        Err(ErrorCode::InvalidInput)
                    }
                },
                Err(code) => Err(code),
            }
        },
    };
    match checked {
        Ok(()) => None,
        Err(code) => Some(code),
    }
}

/// The digest that a file is held against.
pub fn pin(content: &Vec<u8>) -> (hex: String)
    ensures
        hex@ == digest_of(content@),
{
    digest(content.as_slice())
}

/// Holds what was read back against the digest of what was written.
pub fn verify_snapshot(reread: &Option<Vec<u8>>, pinned: &str) -> (r: Result<(), ErrorCode>)
    ensures
        match *reread {
            Some(bytes) if digest_of(bytes@) == pinned@ => r is Ok,
            Some(_) => r matches Err(ErrorCode::Unknown(text)) && text@
                == "injection snapshot integrity check failed"@,
            None => r matches Err(ErrorCode::Unknown(text)) && text@
                == "injection snapshot reread failed"@,
        },
{
    match reread {
        None => Err(ErrorCode::Unknown("injection snapshot reread failed".to_owned())),
        Some(bytes) => {
            if str_eq(digest(bytes.as_slice()).as_str(), pinned) {
                Ok(())
            } else {
                Err(ErrorCode::Unknown("injection snapshot integrity check failed".to_owned()))
            }
        },
    }
}

/// The first thing that is wrong with the first `n` files, of which as many as `done` has were
/// written.
pub open spec fn first_error(
    injections: Seq<FileInjection>,
    done: Seq<Result<String, ErrorCode>>,
    linux: bool,
    n: int,
) -> Option<ErrorCode>
    decreases n,
{
    if n <= 0 {
        None
    } else {
        match first_error(injections, done, linux, n - 1) {
            Some(code) => Some(code),
            None => match injection_error(injections[n - 1], linux) {
                Some(code) => Some(code),
                None => if n - 1 < done.len() {
                    match done[n - 1] {
                        Err(code) => Some(code),
                        Ok(_) => None,
                    }
                } else {
                    None
                },
            },
        }
    }
}

/// Pairs of texts as what they hold.
pub open spec fn pair_views(pairs: Seq<(String, String)>) -> Seq<(Seq<char>, Seq<char>)> {
    Seq::new(pairs.len(), |i: int| (pairs[i].0@, pairs[i].1@))
}

/// The places of files as what they hold.
pub open spec fn bind_views(binds: Seq<RoInjection>) -> Seq<(Seq<char>, Seq<char>)> {
    Seq::new(binds.len(), |i: int| (binds[i].source@, binds[i].target@))
}

/// The variables that point at the first `n` files.
pub open spec fn env_list(
    injections: Seq<FileInjection>,
    done: Seq<Result<String, ErrorCode>>,
    n: int,
) -> Seq<(Seq<char>, Seq<char>)>
    decreases n,
{
    if n <= 0 {
        Seq::empty()
    } else {
        match injections[n - 1].placement {
            InjectionPlacement::EnvPointer(name) => env_list(injections, done, n - 1).push(
                (name@, done[n - 1]->Ok_0@),
            ),
            InjectionPlacement::FixedPath(_) => env_list(injections, done, n - 1),
        }
    }
}

/// Where a file is shown: where it was written, or where the capsule wants it.
pub open spec fn shown_at(injection: FileInjection, written: Seq<char>) -> Seq<char> {
    match injection.placement {
        InjectionPlacement::EnvPointer(_) => written,
        InjectionPlacement::FixedPath(path) => path@,
    }
}

/// How the place of a file is told.
pub open spec fn place_told(injection: FileInjection) -> Seq<char> {
    match injection.placement {
        InjectionPlacement::EnvPointer(name) => "env:"@ + name@,
        InjectionPlacement::FixedPath(path) => "path:"@ + path@,
    }
}

/// Where the first `n` files are and where they are shown.
pub open spec fn bind_list(
    injections: Seq<FileInjection>,
    done: Seq<Result<String, ErrorCode>>,
    n: int,
) -> Seq<(Seq<char>, Seq<char>)> {
    Seq::new(n as nat, |i: int| (done[i]->Ok_0@, shown_at(injections[i], done[i]->Ok_0@)))
}

/// What is told of the first `n` files.
pub open spec fn audit_list(injections: Seq<FileInjection>, n: int) -> Seq<(Seq<char>, Seq<char>)> {
    Seq::new(n as nat, |i: int| (place_told(injections[i]), digest_of(injections[i].content@)))
}

/// Prepares the injected files of one start. `done` holds how writing the first files went: each
/// gave the place that was written, or an error. Files are taken in their order, each is checked
/// before it is written, and the first error ends it.
pub fn prepare_injections(
    injections: &Vec<FileInjection>,
    done: &Vec<Result<String, ErrorCode>>,
    linux: bool,
) -> (step: SnapshotStep)
    ensures
        match step {
            SnapshotStep::Write(index) => {
                &&& index == done@.len()
                &&& index < injections@.len()
                &&& first_error(injections@, done@, linux, index + 1) is None
            },
            SnapshotStep::Finish(Err(code)) => exists|n: int|
                0 < n <= injections@.len() && n <= done@.len() + 1 && #[trigger] first_error(
                    injections@,
                    done@,
                    linux,
                    n,
                ) == Some(code),
            SnapshotStep::Finish(Ok(prepared)) => {
                let n = injections@.len() as int;
                &&& n <= done@.len()
                &&& first_error(injections@, done@, linux, n) is None
                &&& bind_views(prepared.sandbox@) == bind_list(injections@, done@, n)
                &&& pair_views(prepared.env@) == env_list(injections@, done@, n)
                &&& pair_views(prepared.audit@) == audit_list(injections@, n)
            },
        },
{
    let mut sandbox: Vec<RoInjection> = Vec::new();
    let mut env: Vec<(String, String)> = Vec::new();
    let mut audit: Vec<(String, String)> = Vec::new();
    let mut i: usize = 0;
    proof {
        assert(bind_views(sandbox@) =~= bind_list(injections@, done@, 0));
        assert(pair_views(env@) =~= env_list(injections@, done@, 0));
        assert(pair_views(audit@) =~= audit_list(injections@, 0));
    }
    while i < injections.len()
        invariant
            i <= injections@.len(),
            i <= done@.len(),
            first_error(injections@, done@, linux, i as int) is None,
            bind_views(sandbox@) == bind_list(injections@, done@, i as int),
            pair_views(env@) == env_list(injections@, done@, i as int),
            pair_views(audit@) == audit_list(injections@, i as int),
        decreases injections.len() - i,
    {
        let injection = &injections[i];
        match check_injection(injection, linux) {
            Some(code) => {
                assert(first_error(injections@, done@, linux, i + 1) == Some(code));
                return SnapshotStep::Finish(Err(code));
            },
            None => {},
        }
        if i >= done.len() {
            return SnapshotStep::Write(i);
        }
        let written = match &done[i] {
            Ok(path) => path,
            Err(code) => {
                assert(first_error(injections@, done@, linux, i + 1) == Some(*code));
                return SnapshotStep::Finish(Err(code.copy()));
            },
        };
        let hash = pin(&injection.content);
        let ghost env_before = env@;
        let ghost sandbox_before = sandbox@;
        let ghost audit_before = audit@;
        match &injection.placement {
            InjectionPlacement::EnvPointer(name) => {
                sandbox.push(RoInjection { source: written.clone(), target: written.clone() });
                env.push((name.clone(), written.clone()));
                audit.push((concat2("env:", name.as_str()), hash));
                assert(pair_views(env@) =~= pair_views(env_before).push((name@, written@)));
            },
            InjectionPlacement::FixedPath(path) => {
                sandbox.push(RoInjection { source: written.clone(), target: path.clone() });
                audit.push((concat2("path:", path.as_str()), hash));
            },
        }
        proof {
            assert(bind_views(sandbox@) =~= bind_views(sandbox_before).push(
                (written@, shown_at(*injection, written@)),
            ));
            assert(bind_list(injections@, done@, i + 1) =~= bind_list(
                injections@,
                done@,
                i as int,
            ).push((written@, shown_at(*injection, written@))));
            assert(pair_views(audit@) =~= pair_views(audit_before).push(
                (place_told(*injection), digest_of(injection.content@)),
            ));
            assert(audit_list(injections@, i + 1) =~= audit_list(injections@, i as int).push(
                (place_told(*injection), digest_of(injection.content@)),
            ));
        }
        i += 1;
    }
    SnapshotStep::Finish(Ok(PreparedInjections { sandbox, env, audit }))
}

/// A child is never pointed at a file by a reserved variable.
pub proof fn law_injected_names_are_free(
    injections: Seq<FileInjection>,
    done: Seq<Result<String, ErrorCode>>,
    linux: bool,
    n: int,
    k: int,
)
    requires
        0 <= n <= injections.len(),
        first_error(injections, done, linux, n) is None,
        0 <= k < env_list(injections, done, n).len(),
    ensures
        env_name_valid(env_list(injections, done, n)[k].0),
    decreases n,
{
    if n > 0 {
        let before = env_list(injections, done, n - 1);
        if k < before.len() {
            law_injected_names_are_free(injections, done, linux, n - 1, k);
        }
    }
}

} // verus!
