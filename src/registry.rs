use std::collections::BTreeMap;
use vstd::laws_cmp::obeys_cmp;
use vstd::prelude::*;
use vstd::std_specs::cmp::PartialEqSpec;

verus! {

/// Why a create or revoke request was turned down.
#[derive(Debug, Clone, Copy, PartialEq, Eq, Structural)]
pub enum Error {
    /// The content already has an owner.
    AlreadyClaimed,
    /// The content has no owner.
    NotFound,
    /// The caller is not the owner of the content.
    NotOwner,
}

/// A request to the registry.
#[derive(Debug)]
pub enum Call<AccountId, Content> {
    CreateClaim { caller: AccountId, content: Content },
    RevokeClaim { caller: AccountId, content: Content },
}

/// The owner of `content` in the claims `m`, or `None` if it is unclaimed.
pub open spec fn owner_of<AccountId, Content>(m: Map<Content, AccountId>, content: Content) -> Option<
    AccountId,
> {
    if m.contains_key(content) {
        Some(m[content])
    } else {
        None
    }
}

/// The claims after `caller` asks to claim `content`, and the answer.
/// Any existing claim, even one held by `caller`, turns the request down.
pub open spec fn create_result<AccountId, Content>(
    m: Map<Content, AccountId>,
    caller: AccountId,
    content: Content,
) -> (Map<Content, AccountId>, Result<(), Error>) {
    if m.contains_key(content) {
        (m, Err(Error::AlreadyClaimed))
    } else {
        (m.insert(content, caller), Ok(()))
    }
}

/// The claims after `caller` asks to revoke the claim on `content`, and the answer.
/// The owner and the caller are compared by the identity type's equality.
pub open spec fn revoke_result<AccountId: PartialEq, Content>(
    m: Map<Content, AccountId>,
    caller: AccountId,
    content: Content,
) -> (Map<Content, AccountId>, Result<(), Error>) {
    if !m.contains_key(content) {
        (m, Err(Error::NotFound))
    } else if m[content].eq_spec(&caller) {
        (m.remove(content), Ok(()))
    } else {
        (m, Err(Error::NotOwner))
    }
}

/// The claims after the request `call`, and the answer: that of the operation it names.
pub open spec fn dispatch_result<AccountId: PartialEq, Content>(
    m: Map<Content, AccountId>,
    call: Call<AccountId, Content>,
) -> (Map<Content, AccountId>, Result<(), Error>) {
    match call {
        Call::CreateClaim { caller, content } => create_result(m, caller, content),
        Call::RevokeClaim { caller, content } => revoke_result(m, caller, content),
    }
}

/// The claims: each content key maps to the account that owns it.
#[verifier::reject_recursive_types(AccountId)]
#[verifier::reject_recursive_types(Content)]
#[derive(Debug)]
pub struct ProofOfExistence<AccountId, Content> {
    claims: BTreeMap<Content, AccountId>,
}

impl<AccountId, Content> View for ProofOfExistence<AccountId, Content> {
    type V = Map<Content, AccountId>;

    closed spec fn view(&self) -> Map<Content, AccountId> {
        self.claims@
    }
}

// The operations require `obeys_cmp::<Content>()`: the content type's `Ord`
// and `PartialEq` form a total order, without which the map's behaviour is
// unspecified. Revoking also requires `AccountId::obeys_eq_spec()`: the
// identity type's `==` is described by its `eq_spec`, by which the owner and
// the caller are compared.
impl<AccountId, Content> ProofOfExistence<AccountId, Content> where
    AccountId: Clone + Ord,
    Content: Clone + Ord,
 {
    /// An empty registry.
    pub fn new() -> (r: Self)
        ensures
            r@ == Map::<Content, AccountId>::empty(),
    {
        Self { claims: BTreeMap::new() }
    }

    /// The owner of `content`, if it is claimed.
    pub fn get_claim(&self, content: &Content) -> (r: Option<&AccountId>)
        requires
            obeys_cmp::<Content>(),
        ensures
            match r {
                Some(owner) => owner_of(self@, *content) == Some(*owner),
                None => owner_of(self@, *content) is None,
            },
    {
        self.claims.get(content)
    }

    /// Claims `content` for `caller`, unless it already has an owner.
    pub fn create_claim(&mut self, caller: AccountId, content: Content) -> (r: Result<(), Error>)
        requires
            obeys_cmp::<Content>(),
        ensures
            (final(self)@, r) == create_result(old(self)@, caller, content),
    {
        if self.claims.contains_key(&content) {
            return Err(Error::AlreadyClaimed);
        }
        self.claims.insert(content, caller);
        Ok(())
    }

    /// Removes the claim on `content`, if `caller` owns it.
    pub fn revoke_claim(&mut self, caller: AccountId, content: &Content) -> (r: Result<(), Error>)
        requires
            obeys_cmp::<Content>(),
            AccountId::obeys_eq_spec(),
        ensures
            (final(self)@, r) == revoke_result(old(self)@, caller, *content),
    {
        match self.claims.get(content) {
            Some(owner) => {
                if *owner == caller {
                    self.claims.remove(content);
                    Ok(())
                } else {
                    Err(Error::NotOwner)
                }
            },
            None => Err(Error::NotFound),
        }
    }

    /// Carries out the request `call` and hands back what that operation returned.
    pub fn dispatch(&mut self, call: Call<AccountId, Content>) -> (r: Result<(), Error>)
        requires
            obeys_cmp::<Content>(),
            AccountId::obeys_eq_spec(),
        ensures
            (final(self)@, r) == dispatch_result(old(self)@, call),
    {
        match call {
            Call::CreateClaim { caller, content } => self.create_claim(caller, content),
            Call::RevokeClaim { caller, content } => self.revoke_claim(caller, &content),
        }
    }
}

} // verus!
