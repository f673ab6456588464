//! The registry itself: three tables and the requests that change them.

use vstd::prelude::*;
use crate::bytes::{copy_bytes, same_bytes};
use crate::model::RegistryView;
use crate::table::ByteMap;
use crate::types::{
    outcome_view, AccountId, BlockNumber, Call, ClaimRecord, Error, Event, LockRecord,
};

verus! {

/// The claim registry. One request is applied at a time, to completion: it
/// either makes all its writes or, when refused, none.
pub struct Pallet {
    claims: ByteMap<ClaimRecord>,
    locks: ByteMap<LockRecord>,
    addresses: ByteMap<ClaimRecord>,
}

impl View for Pallet {
    type V = RegistryView;

    closed spec fn view(&self) -> RegistryView {
        RegistryView { claims: self.claims@, locks: self.locks@, addresses: self.addresses@ }
    }
}

impl Pallet {
    /// A registry in which nothing is claimed, locked or registered.
    pub fn new() -> (registry: Pallet)
        ensures
            registry@ == RegistryView::empty(),
    {
        Pallet { claims: ByteMap::new(), locks: ByteMap::new(), addresses: ByteMap::new() }
    }

    /// The claim on `proof`, if it is claimed.
    pub fn claim(&self, proof: &Vec<u8>) -> (r: Option<ClaimRecord>)
        ensures
            r == self@.claim(proof@),
    {
        match self.claims.get(proof) {
            Some(record) => Some(*record),
            None => None,
        }
    }

    /// The lock record of `proof`, if it has one.
    pub fn lock(&self, proof: &Vec<u8>) -> (r: Option<LockRecord>)
        ensures
            match r {
                Some(record) => self@.lock(proof@) == Some(record@),
                None => self@.lock(proof@) is None,
            },
    {
        match self.locks.get(proof) {
            Some(record) => Some(
                LockRecord { holder: record.holder, secret: copy_bytes(&record.secret) },
            ),
            None => None,
        }
    }

    /// The record of `address`, if it is registered.
    pub fn address(&self, address: &Vec<u8>) -> (r: Option<ClaimRecord>)
        ensures
            r == self@.address(address@),
    {
        match self.addresses.get(address) {
            Some(record) => Some(*record),
            None => None,
        }
    }

    /// Claims `proof` for `caller` at height `now`, unless it is claimed.
    pub fn create_claim(&mut self, caller: AccountId, proof: Vec<u8>, now: BlockNumber) -> (r: Result<
        Event,
        Error,
    >)
        ensures
            final(self)@ == old(self)@.create_claim(caller, proof@, now).state,
            outcome_view(r) == old(self)@.create_claim(caller, proof@, now).outcome,
    {
        if self.claims.contains_key(&proof) {
            return Err(Error::ProofAlreadyClaimed);
        }
        self.claims.insert(copy_bytes(&proof), ClaimRecord { owner: caller, created_at: now });
        Ok(Event::ClaimCreated(caller, proof))
    }

    /// Claims an unclaimed `proof` for `caller`, or takes over a claimed one
    /// by presenting its stored secret in `sentlock`.
    pub fn update_claim(
        &mut self,
        caller: AccountId,
        proof: Vec<u8>,
        sentlock: Vec<u8>,
        now: BlockNumber,
    ) -> (r: Result<Event, Error>)
        ensures
            final(self)@ == old(self)@.update_claim(caller, proof@, sentlock@, now).state,
            outcome_view(r) == old(self)@.update_claim(caller, proof@, sentlock@, now).outcome,
    {
        let claim = match self.claims.get(&proof) {
            Some(record) => Some(*record),
            None => None,
        };
        match claim {
            Some(record) => {
                let stored = match self.locks.get(&proof) {
                    Some(lock) => copy_bytes(&lock.secret),
                    None => Vec::new(),
                };
                assert(stored@ =~= old(self)@.stored_secret(proof@));
                if !same_bytes(&sentlock, &stored) {
                    return Err(Error::InvalidLock);
                }
                if caller != record.owner {
                    self.claims.insert(
                        copy_bytes(&proof),
                        ClaimRecord { owner: caller, created_at: record.created_at },
                    );
                    self.locks.insert(copy_bytes(&proof), LockRecord { holder: caller, secret: stored });
                }
            },
            None => {
                self.claims.insert(copy_bytes(&proof), ClaimRecord { owner: caller, created_at: now });
            },
        }
        Ok(Event::UpdateCreated(caller, proof))
    }

    /// Sets `lock` as the transfer secret of `proof`, which `caller` must own
    /// and which must have no lock record yet.
    pub fn lock_claim(&mut self, caller: AccountId, proof: Vec<u8>, lock: Vec<u8>) -> (r: Result<
        Event,
        Error,
    >)
        ensures
            final(self)@ == old(self)@.lock_claim(caller, proof@, lock@).state,
            outcome_view(r) == old(self)@.lock_claim(caller, proof@, lock@).outcome,
    {
        if self.locks.contains_key(&proof) {
            return Err(Error::ProofAlreadyLocked);
        }
        let owner = match self.claims.get(&proof) {
            Some(record) => record.owner,
            None => {
                return Err(Error::ProofNotClaimed);
            },
        };
        if caller != owner {
            return Err(Error::NotProofOwner);
        }
        self.locks.insert(proof, LockRecord { holder: caller, secret: copy_bytes(&lock) });
        Ok(Event::ClaimLocked(caller, lock))
    }

    /// Registers `pshaddress` for `caller` at height `now`, unless it is
    /// registered.
    pub fn create_pshaddress(&mut self, caller: AccountId, pshaddress: Vec<u8>, now: BlockNumber) -> (r:
        Result<Event, Error>)
        ensures
            final(self)@ == old(self)@.create_pshaddress(caller, pshaddress@, now).state,
            outcome_view(r) == old(self)@.create_pshaddress(caller, pshaddress@, now).outcome,
    {
        if self.addresses.contains_key(&pshaddress) {
            return Err(Error::ProofAlreadyClaimed);
        }
        self.addresses.insert(
            copy_bytes(&pshaddress),
            ClaimRecord { owner: caller, created_at: now },
        );
        Ok(Event::PshAddressCreated(caller, pshaddress))
    }

    /// Submits the hash of a document: it is claimed as any proof is.
    pub fn document_submit_sel31(&mut self, caller: AccountId, proof: Vec<u8>, now: BlockNumber) -> (r:
        Result<Event, Error>)
        ensures
            final(self)@ == old(self)@.create_claim(caller, proof@, now).state,
            outcome_view(r) == old(self)@.create_claim(caller, proof@, now).outcome,
    {
        self.create_claim(caller, proof, now)
    }

    /// Deletes the claim on `proof`, which `caller` must own.
    pub fn revoke_claim(&mut self, caller: AccountId, proof: Vec<u8>) -> (r: Result<Event, Error>)
        ensures
            final(self)@ == old(self)@.revoke_claim(caller, proof@).state,
            outcome_view(r) == old(self)@.revoke_claim(caller, proof@).outcome,
    {
        let owner = match self.claims.get(&proof) {
            Some(record) => record.owner,
            None => {
                return Err(Error::NoSuchProof);
            },
        };
        if caller != owner {
            return Err(Error::NotProofOwner);
        }
        self.claims.remove(&proof);
        Ok(Event::ClaimRevoked(caller, proof))
    }

    /// Applies the request `call` of `caller` at height `now`.
    pub fn dispatch(&mut self, caller: AccountId, call: Call, now: BlockNumber) -> (r: Result<
        Event,
        Error,
    >)
        ensures
            final(self)@ == old(self)@.dispatch(caller, call@, now).state,
            outcome_view(r) == old(self)@.dispatch(caller, call@, now).outcome,
    {
        match call {
            Call::CreateClaim { proof } => self.create_claim(caller, proof, now),
            Call::UpdateClaim { proof, sentlock } => self.update_claim(caller, proof, sentlock, now),
            Call::LockClaim { proof, lock } => self.lock_claim(caller, proof, lock),
            Call::CreatePshaddress { pshaddress } => self.create_pshaddress(caller, pshaddress, now),
            Call::RevokeClaim { proof } => self.revoke_claim(caller, proof),
        }
    }
}

} // verus!
