use crate::address::Address;
use crate::error::PocketError;
use crate::event::{PocketUpdated, UpdateReason};
use crate::state::pocket::{Pocket, PocketStatus, PocketView};
use vstd::prelude::*;

verus! {

/// The status an owner asks for.
#[derive(Clone, Copy, Debug, PartialEq, Eq, Structural)]
pub struct UpdatePocketParams {
    pub status: PocketStatus,
}

impl Default for UpdatePocketParams {
    fn default() -> (r: UpdatePocketParams)
        ensures
            r.status == PocketStatus::Active,
    {
        UpdatePocketParams { status: PocketStatus::Active }
    }
}

/// What a status update works on: who asks, and the pocket.
#[derive(Debug, PartialEq, Eq)]
pub struct UpdatePocketContext {
    /// Who asks for the update.
    pub signer: Address,
    /// The address of the pocket.
    pub pocket_address: Address,
    /// The pocket.
    pub pocket: Pocket,
}

impl PocketView {
    /// The lifecycle: a paused pocket can be made active, an active one paused, an active
    /// or paused one closed. Nothing else is a step an owner can ask for; `Withdrawn` in
    /// particular is reached by withdrawing only.
    pub open spec fn may_become(self, target: PocketStatus) -> bool {
        match target {
            PocketStatus::Active => self.able_to_restart(),
            PocketStatus::Paused => self.able_to_pause(),
            PocketStatus::Closed => self.able_to_close(),
            PocketStatus::Withdrawn => false,
        }
    }

    /// What a status update asked for by `actor` comes to: only the owner may ask, and
    /// only for a step of the lifecycle; then the status changes and nothing else.
    pub open spec fn update_status(self, actor: Address, target: PocketStatus) -> Result<
        PocketView,
        PocketError,
    > {
        if actor != self.owner {
            Err(PocketError::OnlyOwner)
        } else if !self.may_become(target) {
            Err(PocketError::InvalidTransition)
        } else {
            Ok(PocketView { status: target, ..self })
        }
    }
}

impl UpdatePocketContext {
    /// Moves the pocket to the status asked for, if the signer owns the pocket and the
    /// lifecycle has that step. A refused update leaves the pocket as it was.
    pub fn execute(&mut self, params: UpdatePocketParams) -> (r: Result<PocketUpdated, PocketError>)
        ensures
            old(self).pocket@.wf() ==> final(self).pocket@.wf(),
            final(self).signer == old(self).signer,
            final(self).pocket_address == old(self).pocket_address,
            match old(self).pocket@.update_status(old(self).signer, params.status) {
                Ok(pocket) => final(self).pocket@ == pocket && r == Ok::<
                    PocketUpdated,
                    PocketError,
                >(
                    PocketUpdated {
                        actor: old(self).signer,
                        pocket_address: old(self).pocket_address,
                        status: params.status,
                        memo: UpdateReason::UserUpdatedPocket,
                    },
                ),
                Err(e) => final(self).pocket@ == old(self).pocket@ && r == Err::<
                    PocketUpdated,
                    PocketError,
                >(e),
            },
    {
        if self.pocket.owner != self.signer {
            return Err(PocketError::OnlyOwner);
        }
        let allowed = match params.status {
            PocketStatus::Active => self.pocket.is_able_to_restart(),
            PocketStatus::Paused => self.pocket.is_able_to_pause(),
            PocketStatus::Closed => self.pocket.is_able_to_close(),
            PocketStatus::Withdrawn => false,
        };
        if !allowed {
            return Err(PocketError::InvalidTransition);
        }
        self.pocket.status = params.status;
        Ok(
            PocketUpdated {
                actor: self.signer,
                pocket_address: self.pocket_address,
                status: self.pocket.status,
                memo: UpdateReason::UserUpdatedPocket,
            },
        )
    }
}

} // verus!
