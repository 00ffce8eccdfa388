//! Cancellation tokens: one for a running instance and one, derived from it, for each principal
//! the instance serves.

use vstd::prelude::*;

use tokio_util::sync::CancellationToken;

use crate::names::NameMap;

verus! {

/// A `tokio_util::sync::CancellationToken`, carried as an opaque value. Two equal values are
/// handles to the same token: cancelling one cancels the other.
#[verifier::external_type_specification]
#[verifier::external_body]
pub struct ExCancellationToken(CancellationToken);

/// `CancellationToken::clone` gives another handle to the same token.
#[verifier::external_body]
pub(crate) fn share(token: &CancellationToken) -> (handle: CancellationToken)
    ensures
        handle == *token,
{
    token.clone()
}

/// `CancellationToken::child_token` derives a token that is cancelled along with `token`, and by
/// itself too without cancelling `token`. Which token comes back depends on the running program, so
/// nothing is claimed of it here.
pub assume_specification[ CancellationToken::child_token ](token: &CancellationToken) -> (child:
    CancellationToken)
;

/// `child` is a token that `CancellationToken::child_token` derives from `parent`. Only deriving it
/// shows that.
pub open spec fn may_derive(parent: CancellationToken, child: CancellationToken) -> bool {
    call_ensures(CancellationToken::child_token, (&parent,), child)
}

/// `CancellationToken::is_cancelled` tells whether the token is cancelled at this moment. Another
/// thread may cancel a token at any time, so nothing is claimed of the answer.
pub assume_specification[ CancellationToken::is_cancelled ](token: &CancellationToken) -> (cancelled:
    bool)
;

/// This is an answer of `CancellationToken::is_cancelled` for this very token. Only asking the
/// token shows which one it gives.
pub open spec fn may_answer(token: CancellationToken, cancelled: bool) -> bool {
    call_ensures(CancellationToken::is_cancelled, (&token,), cancelled)
}

/// The tokens of the principals that one instance serves. A token that was cancelled stays under
/// its principal until the principal is registered anew.
pub type PrincipalCancelTokens = NameMap<CancellationToken>;

/// `CancellationToken::cancel` cancels a token and all that were derived from it. Whether a token is
/// cancelled is no part of its value here, so nothing is claimed.
pub assume_specification[ CancellationToken::cancel ](token: &CancellationToken)
;

/// `CancellationToken::cancel` was called on the token.
pub open spec fn was_cancelled(token: CancellationToken) -> bool {
    call_ensures(CancellationToken::cancel, (&token,), ())
}

/// The tokens with one for a principal: the one that was there, or else `minted`.
pub open spec fn with_token(
    tokens: Map<Seq<char>, CancellationToken>,
    principal: Seq<char>,
    minted: CancellationToken,
) -> Map<Seq<char>, CancellationToken> {
    if tokens.contains_key(principal) {
        tokens
    } else {
        tokens.insert(principal, minted)
    }
}

/// The token of a principal, derived from the token of the instance where there is none yet. A
/// token that was cancelled stays: coming late does not open a retired principal again.
pub fn token_for(
    tokens: &mut PrincipalCancelTokens,
    instance: &CancellationToken,
    principal: &str,
) -> (token: CancellationToken)
    ensures
        final(tokens)@.contains_key(principal@),
        token == final(tokens)@[principal@],
        final(tokens)@ == with_token(old(tokens)@, principal@, token),
        !old(tokens)@.contains_key(principal@) ==> may_derive(*instance, token),
{
    match tokens.get(principal) {
        Some(found) => {
            return share(found);
        },
        None => {},
    }
    let minted = instance.child_token();
    let token = share(&minted);
    tokens.insert(principal.to_owned(), minted);
    token
}

/// Cancels whatever a principal waits for, and nothing that others wait for: the token is its own,
/// derived from that of the instance. The cancelled token stays in its place.
pub fn cancel_principal_token(
    tokens: &mut PrincipalCancelTokens,
    instance: &CancellationToken,
    principal: &str,
)
    ensures
        final(tokens)@.contains_key(principal@),
        final(tokens)@ == with_token(old(tokens)@, principal@, final(tokens)@[principal@]),
        !old(tokens)@.contains_key(principal@) ==> may_derive(
            *instance,
            final(tokens)@[principal@],
        ),
        was_cancelled(final(tokens)@[principal@]),
{
    let token = token_for(tokens, instance, principal);
    token.cancel();
}

/// Opens a principal again: its next token is a fresh one.
pub fn resume_principal_token(tokens: &mut PrincipalCancelTokens, principal: &str)
    ensures
        final(tokens)@ == old(tokens)@.remove(principal@),
{
    let _ = tokens.remove(principal);
}

/// Retiring a principal, and opening it again, leaves the tokens of all others as they are.
pub proof fn law_peers_keep_their_tokens(
    tokens: Map<Seq<char>, CancellationToken>,
    principal: Seq<char>,
    minted: CancellationToken,
    other: Seq<char>,
)
    requires
        other != principal,
    ensures
        ({
            let retired = with_token(tokens, principal, minted);
            let resumed = retired.remove(principal);
            &&& retired.contains_key(other) == tokens.contains_key(other)
            &&& resumed.contains_key(other) == tokens.contains_key(other)
            &&& tokens.contains_key(other) ==> retired[other] == tokens[other] && resumed[other]
                == tokens[other]
        }),
{
}

/// Every token of a principal is derived from that of the instance.
pub open spec fn all_derived(
    tokens: Map<Seq<char>, CancellationToken>,
    instance: CancellationToken,
) -> bool {
    forall|principal: Seq<char>|
        tokens.contains_key(principal) ==> may_derive(instance, #[trigger] tokens[principal])
}

/// Every token of a principal is derived from that of the instance, so that cancelling the instance
/// reaches all of them and cancelling one reaches no other: serving, retiring and opening a
/// principal keep this.
pub proof fn law_tokens_stay_derived(
    tokens: Map<Seq<char>, CancellationToken>,
    instance: CancellationToken,
    principal: Seq<char>,
    minted: CancellationToken,
)
    requires
        all_derived(tokens, instance),
        !tokens.contains_key(principal) ==> may_derive(instance, minted),
    ensures
        all_derived(Map::empty(), instance),
        all_derived(with_token(tokens, principal, minted), instance),
        all_derived(tokens.remove(principal), instance),
{
}

/// A retired principal that is opened again has no token left, so that its next one is a fresh one.
pub proof fn law_resuming_forgets_the_token(
    tokens: Map<Seq<char>, CancellationToken>,
    principal: Seq<char>,
    minted: CancellationToken,
    fresh: CancellationToken,
)
    ensures
        ({
            let resumed = with_token(tokens, principal, minted).remove(principal);
            with_token(resumed, principal, fresh)[principal] == fresh
        }),
{
}

} // verus!
