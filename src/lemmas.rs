//! Facts about sequences of registry operations, stated over the model that
//! the operations' contracts use.
use crate::registry::{create_result, dispatch_result, owner_of, revoke_result, Call, Error};
use vstd::laws_eq::obeys_concrete_eq;
use vstd::prelude::*;

verus! {

/// Claiming unclaimed content succeeds, and the caller is then its owner.
pub proof fn lemma_create_then_lookup<AccountId, Content>(
    m: Map<Content, AccountId>,
    caller: AccountId,
    content: Content,
)
    requires
        !m.contains_key(content),
    ensures
        create_result(m, caller, content).1 == Ok::<(), Error>(()),
        owner_of(create_result(m, caller, content).0, content) == Some(caller),
{
}

/// Once `a` has claimed `x`, any further claim on `x` (by `a` too) is turned
/// down with `AlreadyClaimed`, and `a` stays the owner.
pub proof fn lemma_duplicate_create_fails<AccountId, Content>(
    m: Map<Content, AccountId>,
    a: AccountId,
    b: AccountId,
    x: Content,
)
    requires
        !m.contains_key(x),
    ensures
        ({
            let claimed = create_result(m, a, x).0;
            &&& create_result(claimed, b, x) == (claimed, Err::<(), Error>(Error::AlreadyClaimed))
            &&& owner_of(create_result(claimed, b, x).0, x) == Some(a)
        }),
{
}

/// The owner of a claim can revoke it, and the content is then unclaimed.
pub proof fn lemma_owner_revoke_succeeds<AccountId: PartialEq, Content>(
    m: Map<Content, AccountId>,
    a: AccountId,
    x: Content,
)
    requires
        obeys_concrete_eq::<AccountId>(),
        !m.contains_key(x),
    ensures
        ({
            let claimed = create_result(m, a, x).0;
            &&& revoke_result(claimed, a, x).1 == Ok::<(), Error>(())
            &&& owner_of(revoke_result(claimed, a, x).0, x) is None
        }),
{
    reveal(obeys_concrete_eq);
}

/// An account other than the owner cannot revoke a claim: the request is
/// turned down with `NotOwner` and the owner is unchanged.
pub proof fn lemma_non_owner_revoke_fails<AccountId: PartialEq, Content>(
    m: Map<Content, AccountId>,
    a: AccountId,
    b: AccountId,
    x: Content,
)
    requires
        obeys_concrete_eq::<AccountId>(),
        !m.contains_key(x),
        b != a,
    ensures
        ({
            let claimed = create_result(m, a, x).0;
            &&& revoke_result(claimed, b, x) == (claimed, Err::<(), Error>(Error::NotOwner))
            &&& owner_of(revoke_result(claimed, b, x).0, x) == Some(a)
        }),
{
    reveal(obeys_concrete_eq);
}

/// Revoking a claim that does not exist is turned down with `NotFound`, and
/// changes nothing.
pub proof fn lemma_revoke_absent_fails<AccountId: PartialEq, Content>(
    m: Map<Content, AccountId>,
    anyone: AccountId,
    y: Content,
)
    requires
        !m.contains_key(y),
    ensures
        revoke_result(m, anyone, y) == (m, Err::<(), Error>(Error::NotFound)),
{
}

/// After its owner has revoked a claim, any account can claim the content anew.
pub proof fn lemma_reclaim_after_revoke<AccountId: PartialEq, Content>(
    m: Map<Content, AccountId>,
    a: AccountId,
    b: AccountId,
    x: Content,
)
    requires
        obeys_concrete_eq::<AccountId>(),
        !m.contains_key(x),
    ensures
        ({
            let revoked = revoke_result(create_result(m, a, x).0, a, x).0;
            &&& create_result(revoked, b, x).1 == Ok::<(), Error>(())
            &&& owner_of(create_result(revoked, b, x).0, x) == Some(b)
        }),
{
    reveal(obeys_concrete_eq);
}

/// A request handed to the dispatcher has exactly the effect and the answer of
/// calling the operation it names directly, on every state of the registry.
pub proof fn lemma_dispatch_matches_direct_calls<AccountId: PartialEq, Content>(
    m: Map<Content, AccountId>,
    caller: AccountId,
    content: Content,
)
    ensures
        dispatch_result(m, Call::CreateClaim { caller, content }) == create_result(
            m,
            caller,
            content,
        ),
        dispatch_result(m, Call::RevokeClaim { caller, content }) == revoke_result(
            m,
            caller,
            content,
        ),
{
}

} // verus!
