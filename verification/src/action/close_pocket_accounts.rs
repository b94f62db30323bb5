use crate::address::Address;
use crate::error::PocketError;
use crate::state::pocket::{Pocket, PocketStatus};
use vstd::prelude::*;

verus! {

/// What closing a pocket's accounts works on: who asks, and the pocket.
#[derive(Debug, PartialEq, Eq)]
pub struct ClosePocketAccountsContext {
    /// Who asks.
    pub signer: Address,
    /// The pocket.
    pub pocket: Pocket,
}

impl ClosePocketAccountsContext {
    /// Whether the signer owns the pocket and the pocket has been withdrawn.
    pub open spec fn may_close(&self) -> bool {
        self.pocket@.owner == self.signer && self.pocket@.status == PocketStatus::Withdrawn
    }

    /// Decides whether the pocket's custody accounts and its record may be closed: only
    /// its owner may do so, and only once the pocket has been withdrawn. The caller
    /// closes them on `Ok`.
    pub fn execute(&self) -> (r: Result<(), PocketError>)
        ensures
            self.may_close() ==> r is Ok,
            !self.may_close() ==> r == Err::<(), PocketError>(PocketError::OnlyOwner),
    {
        if self.pocket.owner == self.signer && self.pocket.status == PocketStatus::Withdrawn {
            Ok(())
        } else {
            Err(PocketError::OnlyOwner)
        }
    }
}

} // verus!
