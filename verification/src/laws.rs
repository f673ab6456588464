//! What holds of the transitions, for every registry and every request.

use vstd::prelude::*;
use crate::model::RegistryView;
use crate::types::{AccountId, BlockNumber, CallView, ClaimRecord, Error, EventView, LockView};

verus! {

/// A proof is claimed at most once. Creating a claim succeeds exactly on an
/// unclaimed proof, and whoever tries to create it again, at whatever height,
/// is refused with `ProofAlreadyClaimed` and changes nothing.
pub proof fn law_second_create_is_refused(
    s: RegistryView,
    first: AccountId,
    second: AccountId,
    proof: Seq<u8>,
    first_height: BlockNumber,
    second_height: BlockNumber,
)
    ensures
        !s.claims.contains_key(proof) ==> s.create_claim(first, proof, first_height).outcome == Ok::<
            EventView,
            Error,
        >(EventView::ClaimCreated(first, proof)),
        s.create_claim(first, proof, first_height).state.create_claim(
            second,
            proof,
            second_height,
        ) == s.create_claim(first, proof, first_height).state.refuse(Error::ProofAlreadyClaimed),
{
}

/// Only the owner revokes. On a proof that `owner` holds, anyone else is
/// refused with `NotProofOwner`, and the owner succeeds.
pub proof fn law_only_owner_revokes(
    s: RegistryView,
    owner: AccountId,
    caller: AccountId,
    proof: Seq<u8>,
)
    requires
        s.claims.contains_key(proof),
        s.claims[proof].owner == owner,
    ensures
        caller != owner ==> s.revoke_claim(caller, proof) == s.refuse(Error::NotProofOwner),
        s.revoke_claim(owner, proof).outcome == Ok::<EventView, Error>(
            EventView::ClaimRevoked(owner, proof),
        ),
{
}

/// Only the owner locks. On a proof that `owner` holds and that has no lock
/// record, anyone else is refused with `NotProofOwner`, and the owner
/// succeeds and becomes the holder of the lock with the secret given.
pub proof fn law_only_owner_locks(
    s: RegistryView,
    owner: AccountId,
    caller: AccountId,
    proof: Seq<u8>,
    secret: Seq<u8>,
)
    requires
        s.claims.contains_key(proof),
        s.claims[proof].owner == owner,
        !s.locks.contains_key(proof),
    ensures
        caller != owner ==> s.lock_claim(caller, proof, secret) == s.refuse(Error::NotProofOwner),
        s.lock_claim(owner, proof, secret).outcome == Ok::<EventView, Error>(
            EventView::ClaimLocked(owner, secret),
        ),
        s.lock_claim(owner, proof, secret).state.locks[proof] == (LockView { holder: owner, secret }),
        s.lock_claim(owner, proof, secret).state.claims == s.claims,
{
}

/// A lock record stands in the way of every further lock, whoever asks and
/// whether or not the proof is still claimed.
pub proof fn law_locked_proof_is_not_locked_again(
    s: RegistryView,
    caller: AccountId,
    proof: Seq<u8>,
    secret: Seq<u8>,
)
    requires
        s.locks.contains_key(proof),
    ensures
        s.lock_claim(caller, proof, secret) == s.refuse(Error::ProofAlreadyLocked),
{
}

/// The secret hands the claim over. On a proof that `owner` holds under the
/// secret `secret`, anyone else who presents the secret becomes the owner;
/// the height of creation and the secret stay, so that whoever presents the
/// secret next takes the claim over in turn.
pub proof fn law_secret_transfers_claim(
    s: RegistryView,
    owner: AccountId,
    taker: AccountId,
    next: AccountId,
    proof: Seq<u8>,
    secret: Seq<u8>,
    height: BlockNumber,
    next_height: BlockNumber,
)
    requires
        s.claims.contains_key(proof),
        s.claims[proof].owner == owner,
        s.locks.contains_key(proof),
        s.locks[proof].secret == secret,
        taker != owner,
    ensures
        ({
            let taken = s.update_claim(taker, proof, secret, height);
            let again = taken.state.update_claim(next, proof, secret, next_height);
            &&& taken.outcome == Ok::<EventView, Error>(EventView::UpdateCreated(taker, proof))
            &&& taken.state.claims == s.claims.insert(
                proof,
                ClaimRecord { owner: taker, created_at: s.claims[proof].created_at },
            )
            &&& taken.state.locks == s.locks.insert(proof, LockView { holder: taker, secret })
            &&& taken.state.stored_secret(proof) == secret
            &&& again.outcome == Ok::<EventView, Error>(EventView::UpdateCreated(next, proof))
            &&& again.state.claims[proof] == (ClaimRecord {
                owner: next,
                created_at: s.claims[proof].created_at,
            })
            &&& again.state.stored_secret(proof) == secret
        }),
{
}

/// Without the secret there is no transfer. On a claimed proof, whoever
/// presents anything but the stored secret is refused with `InvalidLock`,
/// and the owner stays.
pub proof fn law_wrong_secret_is_refused(
    s: RegistryView,
    caller: AccountId,
    proof: Seq<u8>,
    presented: Seq<u8>,
    height: BlockNumber,
)
    requires
        s.claims.contains_key(proof),
        presented != s.stored_secret(proof),
    ensures
        s.update_claim(caller, proof, presented, height) == s.refuse(Error::InvalidLock),
        s.update_claim(caller, proof, presented, height).state.claims[proof] == s.claims[proof],
{
}

/// The owner who presents the stored secret changes nothing.
pub proof fn law_owner_update_changes_nothing(
    s: RegistryView,
    owner: AccountId,
    proof: Seq<u8>,
    height: BlockNumber,
)
    requires
        s.claims.contains_key(proof),
        s.claims[proof].owner == owner,
    ensures
        s.update_claim(owner, proof, s.stored_secret(proof), height).state == s,
        s.update_claim(owner, proof, s.stored_secret(proof), height).outcome == Ok::<
            EventView,
            Error,
        >(EventView::UpdateCreated(owner, proof)),
{
}

/// On an unclaimed proof an update is a creation: it succeeds whatever
/// secret comes with it and leaves the registry as `create_claim` would. Only
/// the event tells the two apart.
pub proof fn law_update_creates_unclaimed(
    s: RegistryView,
    caller: AccountId,
    proof: Seq<u8>,
    presented: Seq<u8>,
    height: BlockNumber,
)
    requires
        !s.claims.contains_key(proof),
    ensures
        s.update_claim(caller, proof, presented, height).state == s.create_claim(
            caller,
            proof,
            height,
        ).state,
        s.update_claim(caller, proof, presented, height).state.claims[proof] == (ClaimRecord {
            owner: caller,
            created_at: height,
        }),
        s.update_claim(caller, proof, presented, height).outcome == Ok::<EventView, Error>(
            EventView::UpdateCreated(caller, proof),
        ),
        s.create_claim(caller, proof, height).outcome == Ok::<EventView, Error>(
            EventView::ClaimCreated(caller, proof),
        ),
{
}

/// A revoked proof is free again: it is unclaimed, and anyone may claim it.
pub proof fn law_revoke_reopens_proof(
    s: RegistryView,
    owner: AccountId,
    anyone: AccountId,
    proof: Seq<u8>,
    height: BlockNumber,
)
    requires
        s.revoke_claim(owner, proof).outcome is Ok,
    ensures
        !s.revoke_claim(owner, proof).state.claims.contains_key(proof),
        s.revoke_claim(owner, proof).state.create_claim(anyone, proof, height).outcome == Ok::<
            EventView,
            Error,
        >(EventView::ClaimCreated(anyone, proof)),
        s.revoke_claim(owner, proof).state.create_claim(anyone, proof, height).state.claims[proof]
            == (ClaimRecord { owner: anyone, created_at: height }),
{
}

/// A revoke leaves the lock records alone. So the lock of a revoked proof
/// outlives the claim: its secret still opens the proof once it is claimed
/// again, and the new owner cannot set a lock of their own.
pub proof fn law_revoke_keeps_lock(
    s: RegistryView,
    owner: AccountId,
    anyone: AccountId,
    proof: Seq<u8>,
    secret: Seq<u8>,
    height: BlockNumber,
)
    requires
        s.locks.contains_key(proof),
    ensures
        s.revoke_claim(owner, proof).state.locks == s.locks,
        s.revoke_claim(owner, proof).state.create_claim(anyone, proof, height).state.lock_claim(
            anyone,
            proof,
            secret,
        ).outcome == Err::<EventView, Error>(Error::ProofAlreadyLocked),
{
}

/// The requests on proofs never touch the address table.
pub proof fn law_claims_leave_addresses(
    s: RegistryView,
    caller: AccountId,
    proof: Seq<u8>,
    secret: Seq<u8>,
    height: BlockNumber,
)
    ensures
        s.create_claim(caller, proof, height).state.addresses == s.addresses,
        s.update_claim(caller, proof, secret, height).state.addresses == s.addresses,
        s.lock_claim(caller, proof, secret).state.addresses == s.addresses,
        s.revoke_claim(caller, proof).state.addresses == s.addresses,
{
}

/// Registering an address never touches the claims or the locks, and whether
/// it succeeds depends on the address table alone: between two registries
/// with the same addresses the outcome is the same, whatever is claimed or
/// locked under the same bytes.
pub proof fn law_addresses_leave_claims(
    s: RegistryView,
    other: RegistryView,
    caller: AccountId,
    address: Seq<u8>,
    height: BlockNumber,
)
    requires
        other.addresses == s.addresses,
    ensures
        s.create_pshaddress(caller, address, height).state.claims == s.claims,
        s.create_pshaddress(caller, address, height).state.locks == s.locks,
        s.create_pshaddress(caller, address, height).outcome == other.create_pshaddress(
            caller,
            address,
            height,
        ).outcome,
        s.create_pshaddress(caller, address, height).state.addresses == other.create_pshaddress(
            caller,
            address,
            height,
        ).state.addresses,
{
}

/// An address is registered at most once. Registering succeeds exactly on an
/// address without a record, and a second registration of it, by whomever,
/// is refused with `ProofAlreadyClaimed` and changes nothing.
pub proof fn law_second_address_is_refused(
    s: RegistryView,
    first: AccountId,
    second: AccountId,
    address: Seq<u8>,
    first_height: BlockNumber,
    second_height: BlockNumber,
)
    ensures
        !s.addresses.contains_key(address) ==> s.create_pshaddress(
            first,
            address,
            first_height,
        ).outcome == Ok::<EventView, Error>(EventView::PshAddressCreated(first, address)),
        s.create_pshaddress(first, address, first_height).state.create_pshaddress(
            second,
            address,
            second_height,
        ) == s.create_pshaddress(first, address, first_height).state.refuse(
            Error::ProofAlreadyClaimed,
        ),
{
}

/// A refused request changes nothing, whatever the request.
pub proof fn law_refusal_changes_nothing(
    s: RegistryView,
    caller: AccountId,
    call: CallView,
    height: BlockNumber,
)
    requires
        s.dispatch(caller, call, height).outcome is Err,
    ensures
        s.dispatch(caller, call, height).state == s,
{
}

/// No request deletes a lock record or changes its secret: a secret, once
/// set, opens its proof for good.
pub proof fn law_secret_is_for_good(
    s: RegistryView,
    caller: AccountId,
    call: CallView,
    height: BlockNumber,
    proof: Seq<u8>,
)
    requires
        s.locks.contains_key(proof),
    ensures
        s.dispatch(caller, call, height).state.locks.contains_key(proof),
        s.dispatch(caller, call, height).state.locks[proof].secret == s.locks[proof].secret,
{
}

/// No request changes or deletes the record of a registered address.
pub proof fn law_address_is_for_good(
    s: RegistryView,
    caller: AccountId,
    call: CallView,
    height: BlockNumber,
    address: Seq<u8>,
)
    requires
        s.addresses.contains_key(address),
    ensures
        s.dispatch(caller, call, height).state.addresses.contains_key(address),
        s.dispatch(caller, call, height).state.addresses[address] == s.addresses[address],
{
}

/// While a proof stays claimed, the height of its creation stays: a request
/// may change the owner of a claim, never its age.
pub proof fn law_creation_height_is_kept(
    s: RegistryView,
    caller: AccountId,
    call: CallView,
    height: BlockNumber,
    proof: Seq<u8>,
)
    requires
        s.claims.contains_key(proof),
        s.dispatch(caller, call, height).state.claims.contains_key(proof),
    ensures
        s.dispatch(caller, call, height).state.claims[proof].created_at
            == s.claims[proof].created_at,
{
}

/// The owner of a claim changes only by a transfer that presents the stored
/// secret: after any request that leaves a claimed proof claimed by someone
/// else, the request was an update of that proof by the new owner, with the
/// secret that was stored.
pub proof fn law_owner_changes_by_secret_only(
    s: RegistryView,
    caller: AccountId,
    call: CallView,
    height: BlockNumber,
    proof: Seq<u8>,
)
    requires
        s.claims.contains_key(proof),
        s.dispatch(caller, call, height).state.claims.contains_key(proof),
        s.dispatch(caller, call, height).state.claims[proof].owner != s.claims[proof].owner,
    ensures
        call == (CallView::UpdateClaim { proof, sentlock: s.stored_secret(proof) }),
        s.dispatch(caller, call, height).state.claims[proof].owner == caller,
{
}

} // verus!
