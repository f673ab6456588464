//! The registry as a mathematical value, and each request as a transition on it.
//!
//! A transition takes the tables before the request and gives a `Step`: the
//! tables after it and what the caller is told. A refused request leaves the
//! tables as they were.

use vstd::prelude::*;
use crate::types::{AccountId, BlockNumber, CallView, ClaimRecord, Error, EventView, LockView};

verus! {

/// The three tables. They are independent: a byte string may be a key in any
/// of them, with or without a row in the others.
pub struct RegistryView {
    /// Who owns each claimed proof.
    pub claims: Map<Seq<u8>, ClaimRecord>,
    /// The transfer secret of each proof that was ever locked.
    pub locks: Map<Seq<u8>, LockView>,
    /// Who registered each address.
    pub addresses: Map<Seq<u8>, ClaimRecord>,
}

/// Where a request leaves the registry, and its outcome.
pub struct Step {
    pub state: RegistryView,
    pub outcome: Result<EventView, Error>,
}

impl RegistryView {
    /// The registry in which nothing is claimed, locked or registered.
    pub open spec fn empty() -> RegistryView {
        RegistryView { claims: Map::empty(), locks: Map::empty(), addresses: Map::empty() }
    }

    /// The request is refused: nothing changes.
    pub open spec fn refuse(self, error: Error) -> Step {
        Step { state: self, outcome: Err(error) }
    }

    /// The claim on `proof`, if it is claimed.
    pub open spec fn claim(self, proof: Seq<u8>) -> Option<ClaimRecord> {
        if self.claims.contains_key(proof) {
            Some(self.claims[proof])
        } else {
            None
        }
    }

    /// The lock record of `proof`, if it has one.
    pub open spec fn lock(self, proof: Seq<u8>) -> Option<LockView> {
        if self.locks.contains_key(proof) {
            Some(self.locks[proof])
        } else {
            None
        }
    }

    /// The record of `address`, if it is registered.
    pub open spec fn address(self, address: Seq<u8>) -> Option<ClaimRecord> {
        if self.addresses.contains_key(address) {
            Some(self.addresses[address])
        } else {
            None
        }
    }

    /// The secret that a transfer of `proof` must present: that of its lock
    /// record, and the empty byte string where it has none.
    pub open spec fn stored_secret(self, proof: Seq<u8>) -> Seq<u8> {
        if self.locks.contains_key(proof) {
            self.locks[proof].secret
        } else {
            Seq::empty()
        }
    }

    /// Claims `proof` for `caller` unless it is claimed already.
    pub open spec fn create_claim(self, caller: AccountId, proof: Seq<u8>, now: BlockNumber) -> Step {
        if self.claims.contains_key(proof) {
            self.refuse(Error::ProofAlreadyClaimed)
        } else {
            Step {
                state: RegistryView {
                    claims: self.claims.insert(proof, ClaimRecord { owner: caller, created_at: now }),
                    ..self
                },
                outcome: Ok(EventView::ClaimCreated(caller, proof)),
            }
        }
    }

    /// Claims an unclaimed `proof` for `caller`; hands a claimed one over to
    /// whoever presents its stored secret. The owner presenting the secret
    /// changes nothing. A hand-over keeps the height of creation and the
    /// secret, and records the new owner as the lock's holder.
    pub open spec fn update_claim(
        self,
        caller: AccountId,
        proof: Seq<u8>,
        sentlock: Seq<u8>,
        now: BlockNumber,
    ) -> Step {
        let announced = Ok(EventView::UpdateCreated(caller, proof));
        if !self.claims.contains_key(proof) {
            Step {
                state: RegistryView {
                    claims: self.claims.insert(proof, ClaimRecord { owner: caller, created_at: now }),
                    ..self
                },
                outcome: announced,
            }
        } else if sentlock != self.stored_secret(proof) {
            self.refuse(Error::InvalidLock)
        } else if caller == self.claims[proof].owner {
            Step { state: self, outcome: announced }
        } else {
            Step {
                state: RegistryView {
                    claims: self.claims.insert(
                        proof,
                        ClaimRecord { owner: caller, created_at: self.claims[proof].created_at },
                    ),
                    locks: self.locks.insert(
                        proof,
                        LockView { holder: caller, secret: self.stored_secret(proof) },
                    ),
                    ..self
                },
                outcome: announced,
            }
        }
    }

    /// Sets the transfer secret of a proof that has no lock record yet and
    /// that `caller` owns. The three refusals are tried in this order.
    pub open spec fn lock_claim(self, caller: AccountId, proof: Seq<u8>, secret: Seq<u8>) -> Step {
        if self.locks.contains_key(proof) {
            self.refuse(Error::ProofAlreadyLocked)
        } else if !self.claims.contains_key(proof) {
            self.refuse(Error::ProofNotClaimed)
        } else if caller != self.claims[proof].owner {
            self.refuse(Error::NotProofOwner)
        } else {
            Step {
                state: RegistryView {
                    locks: self.locks.insert(proof, LockView { holder: caller, secret }),
                    ..self
                },
                outcome: Ok(EventView::ClaimLocked(caller, secret)),
            }
        }
    }

    /// Deletes the claim on `proof` if `caller` owns it. Its lock record, if
    /// it has one, stays.
    pub open spec fn revoke_claim(self, caller: AccountId, proof: Seq<u8>) -> Step {
        if !self.claims.contains_key(proof) {
            self.refuse(Error::NoSuchProof)
        } else if caller != self.claims[proof].owner {
            self.refuse(Error::NotProofOwner)
        } else {
            Step {
                state: RegistryView { claims: self.claims.remove(proof), ..self },
                outcome: Ok(EventView::ClaimRevoked(caller, proof)),
            }
        }
    }

    /// Registers `address` for `caller` unless it is registered already.
    pub open spec fn create_pshaddress(
        self,
        caller: AccountId,
        address: Seq<u8>,
        now: BlockNumber,
    ) -> Step {
        if self.addresses.contains_key(address) {
            self.refuse(Error::ProofAlreadyClaimed)
        } else {
            Step {
                state: RegistryView {
                    addresses: self.addresses.insert(
                        address,
                        ClaimRecord { owner: caller, created_at: now },
                    ),
                    ..self
                },
                outcome: Ok(EventView::PshAddressCreated(caller, address)),
            }
        }
    }

    /// The transition that `call` names, made for `caller` at height `now`.
    pub open spec fn dispatch(self, caller: AccountId, call: CallView, now: BlockNumber) -> Step {
        match call {
            CallView::CreateClaim { proof } => self.create_claim(caller, proof, now),
            CallView::UpdateClaim { proof, sentlock } => self.update_claim(
                caller,
                proof,
                sentlock,
                now,
            ),
            CallView::LockClaim { proof, lock } => self.lock_claim(caller, proof, lock),
            CallView::CreatePshaddress { pshaddress } => self.create_pshaddress(
                caller,
                pshaddress,
                now,
            ),
            CallView::RevokeClaim { proof } => self.revoke_claim(caller, proof),
        }
    }
}

} // verus!
