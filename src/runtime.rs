use crate::registry::{dispatch_result, Call, Error, ProofOfExistence};
use vstd::laws_cmp::obeys_cmp;
use vstd::prelude::*;
use vstd::std_specs::cmp::PartialEqSpec;

verus! {

/// The entry point for requests: it owns the registry and hands each request to it.
#[verifier::reject_recursive_types(AccountId)]
#[verifier::reject_recursive_types(Content)]
#[derive(Debug)]
pub struct Runtime<AccountId, Content> {
    pub proof: ProofOfExistence<AccountId, Content>,
}

impl<AccountId, Content> Runtime<AccountId, Content> where
    AccountId: Clone + Ord,
    Content: Clone + Ord,
 {
    /// A runtime whose registry holds no claims.
    pub fn new() -> (r: Self)
        ensures
            r.proof@ == Map::<Content, AccountId>::empty(),
    {
        Self { proof: ProofOfExistence::new() }
    }

    /// Carries out `call` on the registry and hands back its answer.
    pub fn execute(&mut self, call: Call<AccountId, Content>) -> (r: Result<(), Error>)
        requires
            obeys_cmp::<Content>(),
            AccountId::obeys_eq_spec(),
        ensures
            (final(self).proof@, r) == dispatch_result(old(self).proof@, call),
    {
        self.proof.dispatch(call)
    }
}

} // verus!
