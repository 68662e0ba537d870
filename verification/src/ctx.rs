//! The identity of an authenticated caller.

use vstd::prelude::*;

verus! {

/// The authenticated caller of one request.
#[derive(Clone, Copy, Debug, PartialEq, Eq, Structural)]
pub struct Ctx {
    user_id: u64,
}

impl Ctx {
    pub closed spec fn spec_user_id(&self) -> u64 {
        self.user_id
    }

    pub fn new(user_id: u64) -> (ctx: Self)
        ensures
            ctx.user_id() == user_id,
    {
        Ctx { user_id }
    }

    #[verifier::when_used_as_spec(spec_user_id)]
    pub fn user_id(&self) -> (user_id: u64)
        ensures
            user_id == self.user_id(),
    {
        self.user_id
    }
}

} // verus!
